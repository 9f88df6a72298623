//! The failures a call to the gateway can end in.

use vstd::prelude::*;

verus! {

/// Why an argument was turned down before anything was sent.
#[derive(Clone, Copy, Debug, PartialEq, Eq, Structural)]
pub enum ArgumentFault {
    /// A lookup named neither the invoice's uuid nor its order id.
    MissingInvoiceKey,
    /// A field that has to hold a JSON number holds something else.
    MalformedNumber,
    /// A text field could not be written as a JSON string.
    UnencodableText,
    /// The request body is too long to be signed on this machine.
    OversizedBody,
    /// A header value holds a control character.
    InvalidHeaderValue,
}

/// How a reply broke the gateway's own envelope contract.
#[derive(Clone, Copy, Debug, PartialEq, Eq, Structural)]
pub enum ProtocolFault {
    /// The envelope reports success and carries no result.
    MissingResult,
    /// The envelope reports a failure and carries no message.
    MissingMessage,
}

/// Every failure the client reports.
#[derive(Clone, Debug, PartialEq, Eq)]
pub enum CryptomusError {
    /// The secret key was empty when a signature was asked for.
    MissingCredential,
    /// An argument was turned down locally.
    InvalidArgument(ArgumentFault),
    /// The HTTP exchange failed, or its body could not be read as an envelope.
    TransportError(String),
    /// The gateway reported a failure through its envelope.
    ApiError { message: String, errors: Option<String> },
    /// The gateway's reply contradicts its own envelope contract.
    ProtocolViolation(ProtocolFault),
}

/// The mathematical content of a [`CryptomusError`].
pub enum ErrorModel {
    MissingCredential,
    InvalidArgument(ArgumentFault),
    TransportError(Seq<char>),
    ApiError { message: Seq<char>, errors: Option<Seq<char>> },
    ProtocolViolation(ProtocolFault),
}

impl View for CryptomusError {
    type V = ErrorModel;

    open spec fn view(&self) -> ErrorModel {
        match self {
            CryptomusError::MissingCredential => ErrorModel::MissingCredential,
            CryptomusError::InvalidArgument(fault) => ErrorModel::InvalidArgument(*fault),
            CryptomusError::TransportError(detail) => ErrorModel::TransportError(detail@),
            CryptomusError::ApiError { message, errors } => ErrorModel::ApiError {
                message: message@,
                errors: errors.deep_view(),
            },
            CryptomusError::ProtocolViolation(fault) => ErrorModel::ProtocolViolation(*fault),
        }
    }
}

impl ArgumentFault {
    /// What the fault is, in words.
    pub open spec fn description(self) -> Seq<char> {
        match self {
            ArgumentFault::MissingInvoiceKey => "either uuid or order_id must be set"@,
            ArgumentFault::MalformedNumber => "a numeric field does not hold a number"@,
            ArgumentFault::UnencodableText => "a text field cannot be written as JSON"@,
            ArgumentFault::OversizedBody => "the request body is too long to be signed"@,
            ArgumentFault::InvalidHeaderValue => "a header value holds a control character"@,
        }
    }

    /// What the fault is, in words.
    pub fn describe(&self) -> (text: &'static str)
        ensures
            text@ == self.description(),
    {
        match self {
            ArgumentFault::MissingInvoiceKey => "either uuid or order_id must be set",
            ArgumentFault::MalformedNumber => "a numeric field does not hold a number",
            ArgumentFault::UnencodableText => "a text field cannot be written as JSON",
            ArgumentFault::OversizedBody => "the request body is too long to be signed",
            ArgumentFault::InvalidHeaderValue => "a header value holds a control character",
        }
    }
}

impl ProtocolFault {
    /// What the fault is, in words.
    pub open spec fn description(self) -> Seq<char> {
        match self {
            ProtocolFault::MissingResult => "the gateway reported success without a result"@,
            ProtocolFault::MissingMessage => "the gateway reported a failure without a message"@,
        }
    }

    /// What the fault is, in words.
    pub fn describe(&self) -> (text: &'static str)
        ensures
            text@ == self.description(),
    {
        match self {
            ProtocolFault::MissingResult => "the gateway reported success without a result",
            ProtocolFault::MissingMessage => "the gateway reported a failure without a message",
        }
    }
}

impl ErrorModel {
    /// What the error says: the gateway's or the transport's own words where
    /// it carries them, a fixed sentence otherwise.
    pub open spec fn message(self) -> Seq<char> {
        match self {
            ErrorModel::MissingCredential => "missing api key"@,
            ErrorModel::InvalidArgument(fault) => fault.description(),
            ErrorModel::TransportError(detail) => detail,
            ErrorModel::ApiError { message, errors } => message,
            ErrorModel::ProtocolViolation(fault) => fault.description(),
        }
    }
}

impl CryptomusError {
    /// What the error says, for a log or a user.
    pub fn message(&self) -> (text: String)
        ensures
            text@ == self@.message(),
    {
        match self {
            CryptomusError::MissingCredential => "missing api key".to_owned(),
            CryptomusError::InvalidArgument(fault) => fault.describe().to_owned(),
            CryptomusError::TransportError(detail) => detail.clone(),
            CryptomusError::ApiError { message, errors: _ } => message.clone(),
            CryptomusError::ProtocolViolation(fault) => fault.describe().to_owned(),
        }
    }
}

} // verus!
