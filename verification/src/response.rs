//! What the gateway answers: the envelope round every reply, and the rules
//! that turn a reply into a typed result or a typed failure.

use crate::decode::{
    invalid_field, json_object_members, not_an_object, optional_raw, optional_text,
    required_integer, JsonObject,
};
use crate::error::{CryptomusError, ErrorModel, ProtocolFault};
use vstd::prelude::*;

verus! {

/// The wrapper round every answer of the gateway. `state` is 0 for success
/// and anything else for failure; `errors` holds the gateway's structured
/// validation detail as JSON text.
#[derive(Clone, Debug, PartialEq)]
pub struct GenericCryptomusResponse<T> {
    pub state: i64,
    pub result: Option<T>,
    pub message: Option<String>,
    pub errors: Option<String>,
}

/// The mathematical content of an envelope whose result is an `R`.
pub struct EnvelopeModel<R> {
    pub state: i64,
    pub result: Option<R>,
    pub message: Option<Seq<char>>,
    pub errors: Option<Seq<char>>,
}

/// An optional text as the data model wants it: an empty text is no text.
pub open spec fn normalized_text(text: Option<Seq<char>>) -> Option<Seq<char>> {
    match text {
        Some(t) => if t.len() == 0 {
            None
        } else {
            Some(t)
        },
        None => None,
    }
}

/// Whether an HTTP status code reports success.
pub open spec fn is_success_status(status: u16) -> bool {
    200 <= status < 300
}

/// Whether a result carries what a model of it says: the same value, or an
/// error with the same content.
pub open spec fn agrees<T>(result: Result<T, CryptomusError>, model: Result<T, ErrorModel>) -> bool {
    match model {
        Ok(value) => result == Ok::<T, CryptomusError>(value),
        Err(error) => result matches Err(e) && e@ == error,
    }
}

impl<R> EnvelopeModel<R> {
    /// The failure that an envelope stands for when it is read as one: the
    /// gateway's message with its validation detail, or a protocol violation
    /// where the message is missing.
    pub open spec fn failure(self) -> ErrorModel {
        match self.message {
            Some(message) => ErrorModel::ApiError { message, errors: self.errors },
            None => ErrorModel::ProtocolViolation(ProtocolFault::MissingMessage),
        }
    }

    /// What an envelope that came with a successful HTTP status amounts to.
    pub open spec fn outcome(self) -> Result<R, ErrorModel> {
        if self.state == 0 {
            match self.result {
                Some(value) => Ok(value),
                None => Err(ErrorModel::ProtocolViolation(ProtocolFault::MissingResult)),
            }
        } else {
            Err(self.failure())
        }
    }

    /// The envelope without its result.
    pub open spec fn without_result<S>(self) -> EnvelopeModel<S> {
        EnvelopeModel { state: self.state, result: None, message: self.message, errors: self.errors }
    }

    /// The envelope with another result.
    pub open spec fn with_result<S>(self, result: S) -> EnvelopeModel<S> {
        EnvelopeModel {
            state: self.state,
            result: Some(result),
            message: self.message,
            errors: self.errors,
        }
    }
}

impl<T> GenericCryptomusResponse<T> {
    /// The envelope's content, the result taken as it is.
    pub open spec fn model(&self) -> EnvelopeModel<T> {
        EnvelopeModel {
            state: self.state,
            result: self.result,
            message: self.message.deep_view(),
            errors: self.errors.deep_view(),
        }
    }

    /// Reads the envelope as a failure, whatever its state says.
    pub fn into_error(self) -> (error: CryptomusError)
        ensures
            error@ == self.model().failure(),
    {
        match self.message {
            Some(message) => CryptomusError::ApiError { message, errors: self.errors },
            None => CryptomusError::ProtocolViolation(ProtocolFault::MissingMessage),
        }
    }

    /// Resolves the envelope: the result where the state is 0 and a result
    /// is there, a protocol violation where the state is 0 and none is, and
    /// the reported failure otherwise.
    pub fn into_result(self) -> (result: Result<T, CryptomusError>)
        ensures
            agrees(result, self.model().outcome()),
    {
        if self.state == 0 {
            match self.result {
                Some(value) => Ok(value),
                None => Err(CryptomusError::ProtocolViolation(ProtocolFault::MissingResult)),
            }
        } else {
            Err(self.into_error())
        }
    }
}

/// The content of what a decoder made of a body: the envelope's, or the
/// decoder's complaint.
pub open spec fn decoded_model<T>(decoded: Result<GenericCryptomusResponse<T>, String>) -> Result<
    EnvelopeModel<T>,
    Seq<char>,
> {
    match decoded {
        Ok(envelope) => Ok(envelope.model()),
        Err(complaint) => Err(complaint@),
    }
}

/// What a whole reply amounts to: its HTTP status, its body as text, and
/// the envelope decoded from that text or the decoder's complaint.
pub open spec fn reply_outcome<R>(
    status: u16,
    text: Seq<char>,
    decoded: Result<EnvelopeModel<R>, Seq<char>>,
) -> Result<R, ErrorModel> {
    if is_success_status(status) {
        match decoded {
            Ok(envelope) => envelope.outcome(),
            Err(complaint) => Err(ErrorModel::TransportError(complaint)),
        }
    } else {
        match decoded {
            Ok(envelope) => Err(envelope.failure()),
            Err(_) => Err(ErrorModel::TransportError(text)),
        }
    }
}

/// Whether an HTTP status code reports success.
pub fn status_is_success(status: u16) -> (success: bool)
    ensures
        success == is_success_status(status),
{
    200 <= status && status < 300
}

/// Interprets a reply.
///
/// Under a status outside 2xx the envelope, if there is one, is the
/// failure; if the body was no envelope, the body's text is. Under a 2xx
/// status the envelope is resolved; a body that was no envelope fails with
/// the decoder's complaint.
pub fn interpret_reply<T>(
    status: u16,
    text: String,
    decoded: Result<GenericCryptomusResponse<T>, String>,
) -> (result: Result<T, CryptomusError>)
    ensures
        agrees(result, reply_outcome(status, text@, decoded_model(decoded))),
{
    if status_is_success(status) {
        match decoded {
            Ok(envelope) => envelope.into_result(),
            Err(complaint) => Err(CryptomusError::TransportError(complaint)),
        }
    } else {
        match decoded {
            Ok(envelope) => Err(envelope.into_error()),
            Err(_) => Err(CryptomusError::TransportError(text)),
        }
    }
}

/// Applies the data model's rule for optional texts: the gateway sends
/// `null` or an empty text for "absent", and both come out as `None`.
pub fn normalize_optional_string(value: Option<String>) -> (normal: Option<String>)
    ensures
        normal.deep_view() == normalized_text(value.deep_view()),
{
    match value {
        Some(text) => {
            if text.as_str().is_empty() {
                None
            } else {
                Some(text)
            }
        },
        None => None,
    }
}

/// The envelope that the members of an object make up, its result still
/// the text that stands under `result`. `state` has to be there; `result`,
/// `message` and `errors` may be missing or `null`; members under other
/// keys are passed over.
pub open spec fn envelope_of(members: Seq<(Seq<char>, Seq<char>)>) -> Result<
    EnvelopeModel<Seq<char>>,
    Seq<char>,
> {
    match required_integer(members, "state"@) {
        Ok(state) => match optional_text(members, "message"@) {
            Ok(message) => Ok(
                EnvelopeModel {
                    state,
                    result: optional_raw(members, "result"@),
                    message,
                    errors: optional_raw(members, "errors"@),
                },
            ),
            Err(complaint) => Err(complaint),
        },
        Err(complaint) => Err(complaint),
    }
}

/// The envelope that a body holds, its result still a text.
pub open spec fn decoded_envelope(text: Seq<char>) -> Result<EnvelopeModel<Seq<char>>, Seq<char>> {
    match json_object_members(text) {
        Some(members) => envelope_of(members),
        None => Err(not_an_object()),
    }
}

/// The envelope that the body of a failed reply holds. Such an envelope
/// carries no result: one that does is no envelope of a failure.
pub open spec fn decoded_failure<R>(text: Seq<char>) -> Result<EnvelopeModel<R>, Seq<char>> {
    match decoded_envelope(text) {
        Ok(envelope) => if envelope.result is Some {
            Err(invalid_field("result"@))
        } else {
            Ok(envelope.without_result())
        },
        Err(complaint) => Err(complaint),
    }
}

/// The content of an envelope whose result is a text.
pub open spec fn raw_model(envelope: GenericCryptomusResponse<String>) -> EnvelopeModel<Seq<char>> {
    EnvelopeModel {
        state: envelope.state,
        result: envelope.result.deep_view(),
        message: envelope.message.deep_view(),
        errors: envelope.errors.deep_view(),
    }
}

/// Decodes the envelope that a body holds and leaves its result as the
/// JSON text that it is.
pub fn decode_envelope(text: &str) -> (decoded: Result<GenericCryptomusResponse<String>, String>)
    ensures
        match decoded_envelope(text@) {
            Ok(model) => decoded matches Ok(envelope) && raw_model(envelope) == model,
            Err(complaint) => decoded matches Err(c) && c@ == complaint,
        },
{
    match JsonObject::parse(text) {
        None => Err("expected a JSON object".to_owned()),
        Some(object) => {
            let state = object.required_integer("state")?;
            let message = object.optional_text("message")?;
            Ok(
                GenericCryptomusResponse {
                    state,
                    result: object.optional_raw("result"),
                    message,
                    errors: object.optional_raw("errors"),
                },
            )
        },
    }
}

/// Decodes the envelope that the body of a failed reply holds.
pub fn decode_failure<T>(text: &str) -> (decoded: Result<GenericCryptomusResponse<T>, String>)
    ensures
        decoded_model(decoded) == decoded_failure::<T>(text@),
{
    let envelope = decode_envelope(text)?;
    if envelope.result.is_some() {
        let mut complaint = "invalid value of field `".to_owned();
        complaint.append("result");
        complaint.append("`");
        return Err(complaint);
    }
    Ok(
        GenericCryptomusResponse {
            state: envelope.state,
            result: None,
            message: envelope.message,
            errors: envelope.errors,
        },
    )
}

} // verus!
