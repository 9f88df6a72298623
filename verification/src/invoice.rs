//! The invoice: as the gateway sends it, as the client hands it on, and
//! the way from a reply to the one and from the one to the other.

use crate::decode::{
    invalid_field, json_object_members, nullable_text, optional_integer, required_flag,
    required_integer, required_text, JsonObject,
};
use crate::error::{CryptomusError, ErrorModel, ProtocolFault};
use crate::response::{
    decode_envelope, decode_failure, decoded_envelope, decoded_failure, decoded_model,
    interpret_reply, is_success_status, normalize_optional_string, normalized_text,
    reply_outcome, status_is_success, EnvelopeModel, GenericCryptomusResponse,
};
use crate::status::PaymentStatus;
use vstd::prelude::*;

verus! {

/// An invoice as it stands in the `result` of an envelope, field for field
/// under the gateway's own names and before any rule of the data model has
/// been applied. Amounts are decimal texts. `status` repeats
/// `payment_status` under a second name.
#[derive(Clone, Debug, PartialEq)]
pub struct InvoicePayload {
    pub uuid: String,
    pub order_id: String,
    pub amount: String,
    pub payment_amount: Option<String>,
    pub payer_amount: Option<String>,
    pub discount_percent: Option<i64>,
    pub discount: Option<String>,
    pub payer_currency: Option<String>,
    pub currency: String,
    pub merchant_amount: Option<String>,
    pub network: Option<String>,
    pub address: Option<String>,
    pub from: Option<String>,
    pub txid: Option<String>,
    pub payment_status: String,
    pub url: String,
    pub expired_at: i64,
    pub status: String,
    pub is_final: bool,
    pub additional_data: Option<String>,
    pub created_at: String,
    pub updated_at: String,
    pub comments: Option<String>,
}

/// The mathematical content of an [`InvoicePayload`].
pub struct PayloadModel {
    pub uuid: Seq<char>,
    pub order_id: Seq<char>,
    pub amount: Seq<char>,
    pub payment_amount: Option<Seq<char>>,
    pub payer_amount: Option<Seq<char>>,
    pub discount_percent: Option<i64>,
    pub discount: Option<Seq<char>>,
    pub payer_currency: Option<Seq<char>>,
    pub currency: Seq<char>,
    pub merchant_amount: Option<Seq<char>>,
    pub network: Option<Seq<char>>,
    pub address: Option<Seq<char>>,
    pub from: Option<Seq<char>>,
    pub txid: Option<Seq<char>>,
    pub payment_status: Seq<char>,
    pub url: Seq<char>,
    pub expired_at: i64,
    pub status: Seq<char>,
    pub is_final: bool,
    pub additional_data: Option<Seq<char>>,
    pub created_at: Seq<char>,
    pub updated_at: Seq<char>,
    pub comments: Option<Seq<char>>,
}

impl View for InvoicePayload {
    type V = PayloadModel;

    open spec fn view(&self) -> PayloadModel {
        PayloadModel {
            uuid: self.uuid@,
            order_id: self.order_id@,
            amount: self.amount@,
            payment_amount: self.payment_amount.deep_view(),
            payer_amount: self.payer_amount.deep_view(),
            discount_percent: self.discount_percent,
            discount: self.discount.deep_view(),
            payer_currency: self.payer_currency.deep_view(),
            currency: self.currency@,
            merchant_amount: self.merchant_amount.deep_view(),
            network: self.network.deep_view(),
            address: self.address.deep_view(),
            from: self.from.deep_view(),
            txid: self.txid.deep_view(),
            payment_status: self.payment_status@,
            url: self.url@,
            expired_at: self.expired_at,
            status: self.status@,
            is_final: self.is_final,
            additional_data: self.additional_data.deep_view(),
            created_at: self.created_at@,
            updated_at: self.updated_at@,
            comments: self.comments.deep_view(),
        }
    }
}

/// An invoice as the client hands it on: optional texts are absent rather
/// than empty, and both status fields are labels. `status_alias` is what the
/// gateway sent as `status`; the two are kept side by side and not compared.
#[derive(Clone, Debug, PartialEq)]
pub struct InvoiceResponse {
    pub uuid: String,
    pub order_id: String,
    pub amount: String,
    pub payment_amount: Option<String>,
    pub payer_amount: Option<String>,
    pub discount_percent: Option<i64>,
    pub discount: Option<String>,
    pub payer_currency: Option<String>,
    pub currency: String,
    pub merchant_amount: Option<String>,
    pub network: Option<String>,
    pub address: Option<String>,
    pub from: Option<String>,
    pub txid: Option<String>,
    pub payment_status: PaymentStatus,
    pub url: String,
    pub expired_at: i64,
    pub status_alias: PaymentStatus,
    pub is_final: bool,
    pub additional_data: Option<String>,
    pub created_at: String,
    pub updated_at: String,
    pub comments: Option<String>,
}

/// The mathematical content of an [`InvoiceResponse`].
pub struct InvoiceModel {
    pub uuid: Seq<char>,
    pub order_id: Seq<char>,
    pub amount: Seq<char>,
    pub payment_amount: Option<Seq<char>>,
    pub payer_amount: Option<Seq<char>>,
    pub discount_percent: Option<i64>,
    pub discount: Option<Seq<char>>,
    pub payer_currency: Option<Seq<char>>,
    pub currency: Seq<char>,
    pub merchant_amount: Option<Seq<char>>,
    pub network: Option<Seq<char>>,
    pub address: Option<Seq<char>>,
    pub from: Option<Seq<char>>,
    pub txid: Option<Seq<char>>,
    pub payment_status: PaymentStatus,
    pub url: Seq<char>,
    pub expired_at: i64,
    pub status_alias: PaymentStatus,
    pub is_final: bool,
    pub additional_data: Option<Seq<char>>,
    pub created_at: Seq<char>,
    pub updated_at: Seq<char>,
    pub comments: Option<Seq<char>>,
}

impl View for InvoiceResponse {
    type V = InvoiceModel;

    open spec fn view(&self) -> InvoiceModel {
        InvoiceModel {
            uuid: self.uuid@,
            order_id: self.order_id@,
            amount: self.amount@,
            payment_amount: self.payment_amount.deep_view(),
            payer_amount: self.payer_amount.deep_view(),
            discount_percent: self.discount_percent,
            discount: self.discount.deep_view(),
            payer_currency: self.payer_currency.deep_view(),
            currency: self.currency@,
            merchant_amount: self.merchant_amount.deep_view(),
            network: self.network.deep_view(),
            address: self.address.deep_view(),
            from: self.from.deep_view(),
            txid: self.txid.deep_view(),
            payment_status: self.payment_status,
            url: self.url@,
            expired_at: self.expired_at,
            status_alias: self.status_alias,
            is_final: self.is_final,
            additional_data: self.additional_data.deep_view(),
            created_at: self.created_at@,
            updated_at: self.updated_at@,
            comments: self.comments.deep_view(),
        }
    }
}

impl PayloadModel {
    /// What the data model makes of a payload: every field the payload's
    /// own, but an optional text that is empty absent, and a status name
    /// read as the label it stands for.
    pub open spec fn normalized(self) -> InvoiceModel {
        InvoiceModel {
            uuid: self.uuid,
            order_id: self.order_id,
            amount: self.amount,
            payment_amount: normalized_text(self.payment_amount),
            payer_amount: normalized_text(self.payer_amount),
            discount_percent: self.discount_percent,
            discount: normalized_text(self.discount),
            payer_currency: normalized_text(self.payer_currency),
            currency: self.currency,
            merchant_amount: normalized_text(self.merchant_amount),
            network: normalized_text(self.network),
            address: normalized_text(self.address),
            from: normalized_text(self.from),
            txid: normalized_text(self.txid),
            payment_status: PaymentStatus::of_wire_name(self.payment_status),
            url: self.url,
            expired_at: self.expired_at,
            status_alias: PaymentStatus::of_wire_name(self.status),
            is_final: self.is_final,
            additional_data: normalized_text(self.additional_data),
            created_at: self.created_at,
            updated_at: self.updated_at,
            comments: normalized_text(self.comments),
        }
    }
}

/// The first complaint met while the fields of an object are read one
/// after the other.
pub struct Verdict {
    pub complaint: Option<Seq<char>>,
}

impl Verdict {
    /// Nothing read, nothing to complain of.
    pub open spec fn clean() -> Verdict {
        Verdict { complaint: None }
    }

    /// The verdict after one more field: an earlier complaint stays, and
    /// where there is none the field's own counts.
    pub open spec fn and<T>(self, read: Result<T, Seq<char>>) -> Verdict {
        if self.complaint is Some {
            self
        } else {
            match read {
                Ok(_) => self,
                Err(complaint) => Verdict { complaint: Some(complaint) },
            }
        }
    }
}

/// The verdict on the members of an object read as an invoice. Every field
/// but `discount_percent` has to be there; the optional texts may hold
/// `null`; members under other keys are passed over.
pub open spec fn payload_verdict(members: Seq<(Seq<char>, Seq<char>)>) -> Verdict {
    Verdict::clean()
        .and(required_text(members, "uuid"@))
        .and(required_text(members, "order_id"@))
        .and(required_text(members, "amount"@))
        .and(nullable_text(members, "payment_amount"@))
        .and(nullable_text(members, "payer_amount"@))
        .and(optional_integer(members, "discount_percent"@))
        .and(nullable_text(members, "discount"@))
        .and(nullable_text(members, "payer_currency"@))
        .and(required_text(members, "currency"@))
        .and(nullable_text(members, "merchant_amount"@))
        .and(nullable_text(members, "network"@))
        .and(nullable_text(members, "address"@))
        .and(nullable_text(members, "from"@))
        .and(nullable_text(members, "txid"@))
        .and(required_text(members, "payment_status"@))
        .and(required_text(members, "url"@))
        .and(required_integer(members, "expired_at"@))
        .and(required_text(members, "status"@))
        .and(required_flag(members, "is_final"@))
        .and(nullable_text(members, "additional_data"@))
        .and(required_text(members, "created_at"@))
        .and(required_text(members, "updated_at"@))
        .and(nullable_text(members, "comments"@))
}

/// The fields of an invoice as they are read from the members of an object
/// on which the verdict is clean.
pub open spec fn payload_fields(members: Seq<(Seq<char>, Seq<char>)>) -> PayloadModel {
    PayloadModel {
        uuid: required_text(members, "uuid"@)->Ok_0,
        order_id: required_text(members, "order_id"@)->Ok_0,
        amount: required_text(members, "amount"@)->Ok_0,
        payment_amount: nullable_text(members, "payment_amount"@)->Ok_0,
        payer_amount: nullable_text(members, "payer_amount"@)->Ok_0,
        discount_percent: optional_integer(members, "discount_percent"@)->Ok_0,
        discount: nullable_text(members, "discount"@)->Ok_0,
        payer_currency: nullable_text(members, "payer_currency"@)->Ok_0,
        currency: required_text(members, "currency"@)->Ok_0,
        merchant_amount: nullable_text(members, "merchant_amount"@)->Ok_0,
        network: nullable_text(members, "network"@)->Ok_0,
        address: nullable_text(members, "address"@)->Ok_0,
        from: nullable_text(members, "from"@)->Ok_0,
        txid: nullable_text(members, "txid"@)->Ok_0,
        payment_status: required_text(members, "payment_status"@)->Ok_0,
        url: required_text(members, "url"@)->Ok_0,
        expired_at: required_integer(members, "expired_at"@)->Ok_0,
        status: required_text(members, "status"@)->Ok_0,
        is_final: required_flag(members, "is_final"@)->Ok_0,
        additional_data: nullable_text(members, "additional_data"@)->Ok_0,
        created_at: required_text(members, "created_at"@)->Ok_0,
        updated_at: required_text(members, "updated_at"@)->Ok_0,
        comments: nullable_text(members, "comments"@)->Ok_0,
    }
}

/// The invoice that the members of an object make up, or the first
/// complaint about them.
pub open spec fn payload_of(members: Seq<(Seq<char>, Seq<char>)>) -> Result<PayloadModel, Seq<char>> {
    match payload_verdict(members).complaint {
        Some(complaint) => Err(complaint),
        None => Ok(payload_fields(members)),
    }
}

/// The envelope that the body of a successful reply holds, with the
/// invoice in it. A result that is there has to be an object that reads as
/// an invoice.
pub open spec fn decoded_invoice(text: Seq<char>) -> Result<EnvelopeModel<PayloadModel>, Seq<char>> {
    match decoded_envelope(text) {
        Ok(envelope) => match envelope.result {
            Some(raw) => match json_object_members(raw) {
                Some(members) => match payload_of(members) {
                    Ok(payload) => Ok(envelope.with_result(payload)),
                    Err(complaint) => Err(complaint),
                },
                None => Err(invalid_field("result"@)),
            },
            None => Ok(envelope.without_result()),
        },
        Err(complaint) => Err(complaint),
    }
}

/// What a reply amounts to, given its HTTP status and the text of its
/// body: under a 2xx status the body is read as an envelope with an
/// invoice, under any other as the envelope of a failure; the reply is
/// resolved; and the payload that comes out is put through the data model.
pub open spec fn response_outcome(status: u16, text: Seq<char>) -> Result<InvoiceModel, ErrorModel> {
    let decoded = if is_success_status(status) {
        decoded_invoice(text)
    } else {
        decoded_failure(text)
    };
    match reply_outcome(status, text, decoded) {
        Ok(payload) => Ok(payload.normalized()),
        Err(error) => Err(error),
    }
}

/// The content of an envelope that holds an invoice.
pub open spec fn invoice_envelope(envelope: EnvelopeModel<InvoicePayload>) -> EnvelopeModel<
    PayloadModel,
> {
    match envelope.result {
        Some(payload) => envelope.with_result(payload@),
        None => envelope.without_result(),
    }
}

/// The content of what a decoder made of a body that may hold an invoice.
pub open spec fn decoded_invoice_model(
    decoded: Result<GenericCryptomusResponse<InvoicePayload>, String>,
) -> Result<EnvelopeModel<PayloadModel>, Seq<char>> {
    match decoded_model(decoded) {
        Ok(envelope) => Ok(invoice_envelope(envelope)),
        Err(complaint) => Err(complaint),
    }
}

/// Whether a result carries what a model of it says.
pub open spec fn delivers(
    result: Result<InvoiceResponse, CryptomusError>,
    model: Result<InvoiceModel, ErrorModel>,
) -> bool {
    match model {
        Ok(invoice) => result matches Ok(i) && i@ == invoice,
        Err(error) => result matches Err(e) && e@ == error,
    }
}

/// What a reply amounts to, given what a decoder made of its body.
pub open spec fn reply_invoice(
    status: u16,
    text: Seq<char>,
    decoded: Result<EnvelopeModel<PayloadModel>, Seq<char>>,
) -> Result<InvoiceModel, ErrorModel> {
    match reply_outcome(status, text, decoded) {
        Ok(payload) => Ok(payload.normalized()),
        Err(error) => Err(error),
    }
}

impl InvoicePayload {
    /// Reads an invoice from the members of an object.
    pub fn decode(object: &JsonObject) -> (decoded: Result<InvoicePayload, String>)
        ensures
            match payload_of(object@) {
                Ok(model) => decoded matches Ok(payload) && payload@ == model,
                Err(complaint) => decoded matches Err(c) && c@ == complaint,
            },
    {
        let uuid = object.required_text("uuid")?;
        let order_id = object.required_text("order_id")?;
        let amount = object.required_text("amount")?;
        let payment_amount = object.nullable_text("payment_amount")?;
        let payer_amount = object.nullable_text("payer_amount")?;
        let discount_percent = object.optional_integer("discount_percent")?;
        let discount = object.nullable_text("discount")?;
        let payer_currency = object.nullable_text("payer_currency")?;
        let currency = object.required_text("currency")?;
        let merchant_amount = object.nullable_text("merchant_amount")?;
        let network = object.nullable_text("network")?;
        let address = object.nullable_text("address")?;
        let from = object.nullable_text("from")?;
        let txid = object.nullable_text("txid")?;
        let payment_status = object.required_text("payment_status")?;
        let url = object.required_text("url")?;
        let expired_at = object.required_integer("expired_at")?;
        let status = object.required_text("status")?;
        let is_final = object.required_flag("is_final")?;
        let additional_data = object.nullable_text("additional_data")?;
        let created_at = object.required_text("created_at")?;
        let updated_at = object.required_text("updated_at")?;
        let comments = object.nullable_text("comments")?;
        Ok(
            InvoicePayload {
                uuid,
                order_id,
                amount,
                payment_amount,
                payer_amount,
                discount_percent,
                discount,
                payer_currency,
                currency,
                merchant_amount,
                network,
                address,
                from,
                txid,
                payment_status,
                url,
                expired_at,
                status,
                is_final,
                additional_data,
                created_at,
                updated_at,
                comments,
            },
        )
    }

    /// Reads the envelope that the body of a successful reply holds, with
    /// the invoice in it.
    pub fn decode_envelope(text: &str) -> (decoded: Result<
        GenericCryptomusResponse<InvoicePayload>,
        String,
    >)
        ensures
            decoded_invoice_model(decoded) == decoded_invoice(text@),
    {
        let envelope = decode_envelope(text)?;
        let result = match envelope.result {
            Some(raw) => match JsonObject::parse(raw.as_str()) {
                Some(object) => Some(InvoicePayload::decode(&object)?),
                None => {
                    let mut complaint = "invalid value of field `".to_owned();
                    complaint.append("result");
                    complaint.append("`");
                    return Err(complaint);
                },
            },
            None => None,
        };
        Ok(
            GenericCryptomusResponse {
                state: envelope.state,
                result,
                message: envelope.message,
                errors: envelope.errors,
            },
        )
    }
}

impl InvoiceResponse {
    /// Applies the data model to a payload.
    pub fn from_payload(payload: InvoicePayload) -> (invoice: InvoiceResponse)
        ensures
            invoice@ == payload@.normalized(),
    {
        let payment_status = PaymentStatus::from_wire_name(payload.payment_status.as_str());
        let status_alias = PaymentStatus::from_wire_name(payload.status.as_str());
        InvoiceResponse {
            uuid: payload.uuid,
            order_id: payload.order_id,
            amount: payload.amount,
            payment_amount: normalize_optional_string(payload.payment_amount),
            payer_amount: normalize_optional_string(payload.payer_amount),
            discount_percent: payload.discount_percent,
            discount: normalize_optional_string(payload.discount),
            payer_currency: normalize_optional_string(payload.payer_currency),
            currency: payload.currency,
            merchant_amount: normalize_optional_string(payload.merchant_amount),
            network: normalize_optional_string(payload.network),
            address: normalize_optional_string(payload.address),
            from: normalize_optional_string(payload.from),
            txid: normalize_optional_string(payload.txid),
            payment_status,
            url: payload.url,
            expired_at: payload.expired_at,
            status_alias,
            is_final: payload.is_final,
            additional_data: normalize_optional_string(payload.additional_data),
            created_at: payload.created_at,
            updated_at: payload.updated_at,
            comments: normalize_optional_string(payload.comments),
        }
    }

    /// Reads the invoice out of a reply whose body has been decoded: the
    /// reply is interpreted as any reply is, and the payload it yields is
    /// put through the data model.
    pub fn from_reply(
        status: u16,
        text: String,
        decoded: Result<GenericCryptomusResponse<InvoicePayload>, String>,
    ) -> (result: Result<InvoiceResponse, CryptomusError>)
        ensures
            delivers(result, reply_invoice(status, text@, decoded_invoice_model(decoded))),
    {
        match interpret_reply(status, text, decoded) {
            Ok(payload) => Ok(InvoiceResponse::from_payload(payload)),
            Err(error) => Err(error),
        }
    }

    /// Reads the invoice out of a reply, given its HTTP status and the text
    /// of its body.
    pub fn from_response(status: u16, text: String) -> (result: Result<
        InvoiceResponse,
        CryptomusError,
    >)
        ensures
            delivers(result, response_outcome(status, text@)),
    {
        let decoded = if status_is_success(status) {
            InvoicePayload::decode_envelope(text.as_str())
        } else {
            decode_failure(text.as_str())
        };
        InvoiceResponse::from_reply(status, text, decoded)
    }
}

/// A successful reply whose envelope reports success and holds an invoice
/// yields that invoice, each field as the envelope has it but for the
/// rules of the data model.
pub proof fn lemma_success_yields_the_invoice(status: u16, text: Seq<char>)
    requires
        is_success_status(status),
        decoded_invoice(text) is Ok,
        decoded_invoice(text)->Ok_0.state == 0,
        decoded_invoice(text)->Ok_0.result is Some,
    ensures
        response_outcome(status, text) == Ok::<InvoiceModel, ErrorModel>(
            decoded_invoice(text)->Ok_0.result->0.normalized(),
        ),
{
}

/// A successful reply whose envelope reports success and holds no result
/// is a violation of the protocol, not a failure to read the body.
pub proof fn lemma_success_without_result(status: u16, text: Seq<char>)
    requires
        is_success_status(status),
        decoded_envelope(text) is Ok,
        decoded_envelope(text)->Ok_0.state == 0,
        decoded_envelope(text)->Ok_0.result is None,
    ensures
        response_outcome(status, text) == Err::<InvoiceModel, ErrorModel>(
            ErrorModel::ProtocolViolation(ProtocolFault::MissingResult),
        ),
{
}

/// A reply whose envelope reports a failure, holds no result and brings a
/// message is the gateway's own failure, with that message and with the
/// validation detail if there is any; and this under every HTTP status.
pub proof fn lemma_reported_failure(status: u16, text: Seq<char>)
    requires
        decoded_envelope(text) is Ok,
        decoded_envelope(text)->Ok_0.state != 0,
        decoded_envelope(text)->Ok_0.result is None,
        decoded_envelope(text)->Ok_0.message is Some,
    ensures
        response_outcome(status, text) == Err::<InvoiceModel, ErrorModel>(
            ErrorModel::ApiError {
                message: decoded_envelope(text)->Ok_0.message->0,
                errors: decoded_envelope(text)->Ok_0.errors,
            },
        ),
{
}

} // verus!
