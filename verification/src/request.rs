//! What the client asks of the gateway, and how each request is written as
//! JSON: its fields in the order of their declaration, each under its wire
//! name, and a field that is not set left out altogether.

use crate::error::ArgumentFault;
use crate::json::{
    joined, json_string_literal, member_text, rendered_view, renders, DraftModel, JsonDraft,
    Rendered,
};
use vstd::prelude::*;

verus! {

/// A currency, and optionally the network it moves on; used to allow or to
/// exclude ways of paying.
#[derive(Clone, Debug, PartialEq)]
pub struct CurrencyNetwork {
    pub currency: String,
    pub network: Option<String>,
}

/// A request to create an invoice. Only `amount`, `currency` and `order_id`
/// are required. `amount` is a decimal text; `accuracy_payment_percent` is
/// one too, and is sent as a JSON number.
#[derive(Clone, Debug, PartialEq)]
pub struct CreateInvoiceRequest {
    pub amount: String,
    pub currency: String,
    pub order_id: String,
    pub network: Option<String>,
    pub url_return: Option<String>,
    pub url_success: Option<String>,
    pub url_callback: Option<String>,
    pub is_payment_multiple: Option<bool>,
    pub lifetime: Option<i64>,
    pub to_currency: Option<String>,
    pub subtract: Option<i64>,
    pub accuracy_payment_percent: Option<String>,
    pub additional_data: Option<String>,
    pub currencies: Option<Vec<CurrencyNetwork>>,
    pub except_currencies: Option<Vec<CurrencyNetwork>>,
    pub course_source: Option<String>,
    pub from_referral_code: Option<String>,
    pub discount_percent: Option<i64>,
    pub is_refresh: Option<bool>,
}

/// A request for an invoice's state, by the gateway's uuid or by the
/// merchant's order id. One of the two has to be set.
#[derive(Clone, Debug, PartialEq)]
pub struct InvoiceInfoRequest {
    pub uuid: Option<String>,
    pub order_id: Option<String>,
}

/// The items of a list of currencies, each written as an object.
pub open spec fn currency_items(list: Seq<CurrencyNetwork>) -> DraftModel
    decreases list.len(),
{
    if list.len() == 0 {
        DraftModel::empty()
    } else {
        currency_items(list.drop_last()).part(Some(list.last().json_text()))
    }
}

/// An optional list of currencies as a JSON array.
pub open spec fn currency_list(list: Option<Vec<CurrencyNetwork>>) -> Option<Rendered> {
    match list {
        Some(items) => Some(currency_items(items@).array()),
        None => None,
    }
}

/// Writes an optional list of currencies as a JSON array.
fn write_currency_list(list: &Option<Vec<CurrencyNetwork>>) -> (written: Option<
    Result<String, ArgumentFault>,
>)
    ensures
        rendered_view(written) == currency_list(*list),
{
    match list {
        None => None,
        Some(items) => {
            let mut draft = JsonDraft::new();
            let mut i: usize = 0;
            while i < items.len()
                invariant
                    i <= items@.len(),
                    draft@ == currency_items(items@.take(i as int)),
                decreases items@.len() - i,
            {
                let item = items[i].to_json();
                proof {
                    assert(items@.take(i + 1).drop_last() =~= items@.take(i as int));
                }
                draft = draft.part(Some(item));
                i = i + 1;
            }
            proof {
                assert(items@.take(i as int) =~= items@);
            }
            Some(draft.into_array())
        },
    }
}

impl CurrencyNetwork {
    /// The members that are written.
    pub open spec fn json_members(&self) -> DraftModel {
        DraftModel::empty().text("currency"@, Some(self.currency@)).text(
            "network"@,
            self.network.deep_view(),
        )
    }

    /// The JSON text.
    pub open spec fn json_text(&self) -> Rendered {
        self.json_members().object()
    }

    /// Writes the entry as a JSON object.
    pub fn to_json(&self) -> (written: Result<String, ArgumentFault>)
        ensures
            renders(written, self.json_text()),
    {
        JsonDraft::new().text("currency", self.currency.as_str()).optional_text(
            "network",
            &self.network,
        ).into_object()
    }
}

impl CreateInvoiceRequest {
    /// Whether no optional field is set.
    pub open spec fn only_required(&self) -> bool {
        &&& self.network is None
        &&& self.url_return is None
        &&& self.url_success is None
        &&& self.url_callback is None
        &&& self.is_payment_multiple is None
        &&& self.lifetime is None
        &&& self.to_currency is None
        &&& self.subtract is None
        &&& self.accuracy_payment_percent is None
        &&& self.additional_data is None
        &&& self.currencies is None
        &&& self.except_currencies is None
        &&& self.course_source is None
        &&& self.from_referral_code is None
        &&& self.discount_percent is None
        &&& self.is_refresh is None
    }

    /// The members that are written.
    pub open spec fn json_members(&self) -> DraftModel {
        DraftModel::empty()
            .text("amount"@, Some(self.amount@))
            .text("currency"@, Some(self.currency@))
            .text("order_id"@, Some(self.order_id@))
            .text("network"@, self.network.deep_view())
            .text("url_return"@, self.url_return.deep_view())
            .text("url_success"@, self.url_success.deep_view())
            .text("url_callback"@, self.url_callback.deep_view())
            .flag("is_payment_multiple"@, self.is_payment_multiple)
            .integer("lifetime"@, self.lifetime)
            .text("to_currency"@, self.to_currency.deep_view())
            .integer("subtract"@, self.subtract)
            .number("accuracy_payment_percent"@, self.accuracy_payment_percent.deep_view())
            .text("additional_data"@, self.additional_data.deep_view())
            .member("currencies"@, currency_list(self.currencies))
            .member("except_currencies"@, currency_list(self.except_currencies))
            .text("course_source"@, self.course_source.deep_view())
            .text("from_referral_code"@, self.from_referral_code.deep_view())
            .integer("discount_percent"@, self.discount_percent)
            .flag("is_refresh"@, self.is_refresh)
    }

    /// The JSON text.
    pub open spec fn json_text(&self) -> Rendered {
        self.json_members().object()
    }

    /// Writes the request as a JSON object.
    pub fn to_json(&self) -> (written: Result<String, ArgumentFault>)
        ensures
            renders(written, self.json_text()),
    {
        let currencies = write_currency_list(&self.currencies);
        let except_currencies = write_currency_list(&self.except_currencies);
        JsonDraft::new()
            .text("amount", self.amount.as_str())
            .text("currency", self.currency.as_str())
            .text("order_id", self.order_id.as_str())
            .optional_text("network", &self.network)
            .optional_text("url_return", &self.url_return)
            .optional_text("url_success", &self.url_success)
            .optional_text("url_callback", &self.url_callback)
            .optional_flag("is_payment_multiple", self.is_payment_multiple)
            .optional_integer("lifetime", self.lifetime)
            .optional_text("to_currency", &self.to_currency)
            .optional_integer("subtract", self.subtract)
            .optional_number("accuracy_payment_percent", &self.accuracy_payment_percent)
            .optional_text("additional_data", &self.additional_data)
            .optional_member("currencies", currencies)
            .optional_member("except_currencies", except_currencies)
            .optional_text("course_source", &self.course_source)
            .optional_text("from_referral_code", &self.from_referral_code)
            .optional_integer("discount_percent", self.discount_percent)
            .optional_flag("is_refresh", self.is_refresh)
            .into_object()
    }
}

impl InvoiceInfoRequest {
    /// Whether the request names an invoice.
    pub open spec fn names_invoice(&self) -> bool {
        self.uuid is Some || self.order_id is Some
    }

    /// The members that are written.
    pub open spec fn json_members(&self) -> DraftModel {
        DraftModel::empty().text("uuid"@, self.uuid.deep_view()).text(
            "order_id"@,
            self.order_id.deep_view(),
        )
    }

    /// The JSON text.
    pub open spec fn json_text(&self) -> Rendered {
        self.json_members().object()
    }

    /// Writes the request as a JSON object.
    pub fn to_json(&self) -> (written: Result<String, ArgumentFault>)
        ensures
            renders(written, self.json_text()),
    {
        JsonDraft::new().optional_text("uuid", &self.uuid).optional_text(
            "order_id",
            &self.order_id,
        ).into_object()
    }
}

/// A request to create an invoice in which no optional field is set is
/// written with its three required members and nothing else: where the
/// three texts can be quoted, the object holds `amount`, `currency` and
/// `order_id`, in that order.
pub proof fn lemma_unset_fields_are_omitted(request: CreateInvoiceRequest)
    requires
        request.only_required(),
    ensures
        request.json_members() == DraftModel::empty().text("amount"@, Some(request.amount@)).text(
            "currency"@,
            Some(request.currency@),
        ).text("order_id"@, Some(request.order_id@)),
        ({
            let amount = json_string_literal(request.amount@);
            let currency = json_string_literal(request.currency@);
            let order_id = json_string_literal(request.order_id@);
            amount is Some && currency is Some && order_id is Some ==> request.json_text() == Ok::<
                Seq<char>,
                ArgumentFault,
            >(
                "{"@ + (member_text("amount"@, amount->0) + ","@ + member_text(
                    "currency"@,
                    currency->0,
                ) + ","@ + member_text("order_id"@, order_id->0)) + "}"@,
            )
        }),
{
    reveal_with_fuel(joined, 4);
}

/// A lookup in which nothing is set is written as the empty object.
pub proof fn lemma_unset_lookup_is_empty(request: InvoiceInfoRequest)
    requires
        request.uuid is None,
        request.order_id is None,
    ensures
        request.json_text() == Ok::<Seq<char>, ArgumentFault>("{"@ + Seq::<char>::empty() + "}"@),
{
}

} // verus!
