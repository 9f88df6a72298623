//! The client: credentials, a base URL, and the two operations.
//!
//! An operation does not talk to the gateway. It returns the signed request
//! that is to be sent; what comes back is read with
//! [`crate::invoice::InvoiceResponse::from_response`].

use crate::error::{ArgumentFault, CryptomusError, ErrorModel};
use crate::json::Rendered;
use crate::request::{CreateInvoiceRequest, InvoiceInfoRequest};
use crate::signature::{
    base64_len, is_lower_hex, lemma_signature_shape, sign, sign_outcome, signature_text,
};
use vstd::prelude::*;

verus! {

/// The root of the gateway's production API.
pub const CRYPTOMUS_API_BASE_URL: &'static str = "https://api.cryptomus.com/v1/";

/// The HTTP method of every request.
pub const HTTP_METHOD: &'static str = "POST";

/// The header that carries the merchant's identifier.
pub const MERCHANT_HEADER: &'static str = "merchant";

/// The header that carries the signature of the body.
pub const SIGN_HEADER: &'static str = "sign";

/// The header that names the media type of the body.
pub const CONTENT_TYPE_HEADER: &'static str = "content-type";

/// The header that names the media type wanted in return.
pub const ACCEPT_HEADER: &'static str = "accept";

/// The media type of every body, sent and received.
pub const JSON_MEDIA_TYPE: &'static str = "application/json";

/// The path, below the base URL, that creates an invoice.
pub const CREATE_INVOICE_ENDPOINT: &'static str = "payment";

/// The path, below the base URL, that reports on an invoice.
pub const INVOICE_INFO_ENDPOINT: &'static str = "payment/info";

/// How many seconds a call may take before it is given up.
pub const TIMEOUT_SECONDS: u64 = 30;

/// One HTTP header.
#[derive(Clone, Debug, PartialEq, Eq)]
pub struct Header {
    pub name: String,
    pub value: String,
}

impl View for Header {
    type V = (Seq<char>, Seq<char>);

    open spec fn view(&self) -> (Seq<char>, Seq<char>) {
        (self.name@, self.value@)
    }
}

/// A request that is ready to be sent. The signature among the headers is
/// that of `body`, byte for byte: what is sent must be this very text.
#[derive(Clone, Debug, PartialEq, Eq)]
pub struct SignedRequest {
    pub method: String,
    pub url: String,
    pub headers: Vec<Header>,
    pub body: String,
}

/// The mathematical content of a [`SignedRequest`].
pub struct RequestModel {
    pub method: Seq<char>,
    pub url: Seq<char>,
    pub headers: Seq<(Seq<char>, Seq<char>)>,
    pub body: Seq<char>,
}

impl View for SignedRequest {
    type V = RequestModel;

    open spec fn view(&self) -> RequestModel {
        RequestModel {
            method: self.method@,
            url: self.url@,
            headers: self.headers@.map_values(|header: Header| header@),
            body: self.body@,
        }
    }
}

/// The mathematical content of a [`CryptomusClient`].
pub struct ClientModel {
    pub merchant_id: Seq<char>,
    pub api_key: Seq<char>,
    pub base_url: Seq<char>,
}

/// Whether a body of so many bytes can be signed on this machine: its
/// base64 text must not be longer than the longest text there is.
pub open spec fn signable(len: nat) -> bool {
    base64_len(len) <= usize::MAX
}

/// Whether a byte may stand in the value of an HTTP header: any byte but a
/// control character, and of those the tab.
pub open spec fn is_header_byte(byte: u8) -> bool {
    (byte >= 32 && byte != 127) || byte == 9
}

/// Whether a text may be the value of an HTTP header.
pub open spec fn is_header_value(text: Seq<char>) -> bool {
    forall|i: int|
        0 <= i < vstd::utf8::encode_utf8(text).len() ==> is_header_byte(
            #[trigger] vstd::utf8::encode_utf8(text)[i],
        )
}

/// A body can be signed exactly when it is no longer than three quarters of
/// the longest text, rounded down to whole groups of three bytes.
pub proof fn lemma_signable_bound(len: nat)
    ensures
        signable(len) <==> len <= (usize::MAX / 4) * 3,
{
}

impl ClientModel {
    /// The headers that go with a body.
    pub open spec fn headers(self, body: Seq<char>) -> Seq<(Seq<char>, Seq<char>)> {
        seq![
            (CONTENT_TYPE_HEADER@, JSON_MEDIA_TYPE@),
            (ACCEPT_HEADER@, JSON_MEDIA_TYPE@),
            (MERCHANT_HEADER@, self.merchant_id),
            (SIGN_HEADER@, signature_text(vstd::utf8::encode_utf8(body), self.api_key)),
        ]
    }

    /// The request that carries a body to an endpoint, or the reason why
    /// there is none: an empty secret key, a body too long to sign, or a
    /// merchant identifier that no header can carry.
    pub open spec fn signed(self, endpoint: Seq<char>, body: Seq<char>) -> Result<
        RequestModel,
        ErrorModel,
    > {
        if self.api_key.len() == 0 {
            Err(ErrorModel::MissingCredential)
        } else if !signable(vstd::utf8::encode_utf8(body).len()) {
            Err(ErrorModel::InvalidArgument(ArgumentFault::OversizedBody))
        } else if !is_header_value(self.merchant_id) {
            Err(ErrorModel::InvalidArgument(ArgumentFault::InvalidHeaderValue))
        } else {
            Ok(
                RequestModel {
                    method: HTTP_METHOD@,
                    url: self.base_url + endpoint,
                    headers: self.headers(body),
                    body,
                },
            )
        }
    }

    /// The request that carries a written body to an endpoint, or the
    /// reason why the body could not be written.
    pub open spec fn sent(self, endpoint: Seq<char>, body: Rendered) -> Result<
        RequestModel,
        ErrorModel,
    > {
        match body {
            Ok(text) => self.signed(endpoint, text),
            Err(fault) => Err(ErrorModel::InvalidArgument(fault)),
        }
    }

    /// What creating an invoice amounts to.
    pub open spec fn create_invoice(self, request: CreateInvoiceRequest) -> Result<
        RequestModel,
        ErrorModel,
    > {
        self.sent(CREATE_INVOICE_ENDPOINT@, request.json_text())
    }

    /// What looking an invoice up amounts to.
    pub open spec fn get_invoice_info(self, request: InvoiceInfoRequest) -> Result<
        RequestModel,
        ErrorModel,
    > {
        if request.names_invoice() {
            self.sent(INVOICE_INFO_ENDPOINT@, request.json_text())
        } else {
            Err(ErrorModel::InvalidArgument(ArgumentFault::MissingInvoiceKey))
        }
    }
}

/// Whether a result carries what a model of it says.
pub open spec fn prepared(
    result: Result<SignedRequest, CryptomusError>,
    model: Result<RequestModel, ErrorModel>,
) -> bool {
    match model {
        Ok(request) => result matches Ok(r) && r@ == request,
        Err(error) => result matches Err(e) && e@ == error,
    }
}

/// A client of the gateway. It holds the merchant's identifier, which is
/// sent with every request, the secret key, which is never sent and only
/// signs, and the base URL. None of them changes once the client is made.
#[derive(Clone)]
pub struct CryptomusClient {
    merchant_id: String,
    api_key: String,
    base_url: String,
}

impl View for CryptomusClient {
    type V = ClientModel;

    closed spec fn view(&self) -> ClientModel {
        ClientModel {
            merchant_id: self.merchant_id@,
            api_key: self.api_key@,
            base_url: self.base_url@,
        }
    }
}

/// Whether a text may be the value of an HTTP header.
pub fn header_value_is_valid(text: &str) -> (valid: bool)
    ensures
        valid == is_header_value(text@),
{
    let bytes = text.as_bytes();
    let mut i: usize = 0;
    while i < bytes.len()
        invariant
            i <= bytes@.len(),
            bytes@ == vstd::utf8::encode_utf8(text@),
            forall|k: int| 0 <= k < i ==> is_header_byte(#[trigger] bytes@[k]),
        decreases bytes@.len() - i,
    {
        let byte = bytes[i];
        if !((byte >= 32 && byte != 127) || byte == 9) {
            return false;
        }
        i = i + 1;
    }
    true
}

/// Makes a header from two texts.
fn header(name: &str, value: &str) -> (header: Header)
    ensures
        header@ == (name@, value@),
{
    Header { name: name.to_owned(), value: value.to_owned() }
}

impl CryptomusClient {
    /// Makes a client for the production API.
    #[must_use]
    pub fn new(merchant_id: String, api_key: String) -> (client: CryptomusClient)
        ensures
            client@ == (ClientModel {
                merchant_id: merchant_id@,
                api_key: api_key@,
                base_url: CRYPTOMUS_API_BASE_URL@,
            }),
    {
        CryptomusClient { merchant_id, api_key, base_url: CRYPTOMUS_API_BASE_URL.to_owned() }
    }

    /// Replaces the base URL, for a proxy or a test double.
    #[must_use]
    pub fn set_base_url(self, base_url: String) -> (client: CryptomusClient)
        ensures
            client@ == (ClientModel { base_url: base_url@, ..self@ }),
    {
        CryptomusClient { merchant_id: self.merchant_id, api_key: self.api_key, base_url }
    }

    /// Signs a body and frames the request that carries it to an endpoint.
    pub fn sign_request(&self, endpoint: &str, body: String) -> (result: Result<
        SignedRequest,
        CryptomusError,
    >)
        ensures
            prepared(result, self@.signed(endpoint@, body@)),
    {
        if self.api_key.as_str().is_empty() {
            return Err(CryptomusError::MissingCredential);
        }
        let bytes = body.as_str().as_bytes();
        proof {
            lemma_signable_bound(bytes@.len());
        }
        if bytes.len() > usize::MAX / 4 * 3 {
            return Err(CryptomusError::InvalidArgument(ArgumentFault::OversizedBody));
        }
        match sign(bytes, self.api_key.as_str()) {
            Err(error) => Err(error),
            Ok(signature) => {
                if !header_value_is_valid(self.merchant_id.as_str()) {
                    return Err(
                        CryptomusError::InvalidArgument(ArgumentFault::InvalidHeaderValue),
                    );
                }
                let url = self.base_url.clone().concat(endpoint);
                let mut headers: Vec<Header> = Vec::new();
                headers.push(header(CONTENT_TYPE_HEADER, JSON_MEDIA_TYPE));
                headers.push(header(ACCEPT_HEADER, JSON_MEDIA_TYPE));
                headers.push(header(MERCHANT_HEADER, self.merchant_id.as_str()));
                headers.push(header(SIGN_HEADER, signature.as_str()));
                let request = SignedRequest { method: HTTP_METHOD.to_owned(), url, headers, body };
                assert(request@.headers =~= self@.headers(body@));
                Ok(request)
            },
        }
    }

    /// Prepares the creation of an invoice.
    pub fn create_invoice(&self, request: &CreateInvoiceRequest) -> (result: Result<
        SignedRequest,
        CryptomusError,
    >)
        ensures
            prepared(result, self@.create_invoice(*request)),
    {
        match request.to_json() {
            Ok(body) => self.sign_request(CREATE_INVOICE_ENDPOINT, body),
            Err(fault) => Err(CryptomusError::InvalidArgument(fault)),
        }
    }

    /// Prepares the lookup of an invoice. A request that names neither the
    /// uuid nor the order id is turned down, and nothing is to be sent.
    pub fn get_invoice_info(&self, request: &InvoiceInfoRequest) -> (result: Result<
        SignedRequest,
        CryptomusError,
    >)
        ensures
            prepared(result, self@.get_invoice_info(*request)),
            !request.names_invoice() ==> (result matches Err(e) && e@ == ErrorModel::InvalidArgument(
                ArgumentFault::MissingInvoiceKey,
            )),
    {
        if request.uuid.is_none() && request.order_id.is_none() {
            return Err(CryptomusError::InvalidArgument(ArgumentFault::MissingInvoiceKey));
        }
        match request.to_json() {
            Ok(body) => self.sign_request(INVOICE_INFO_ENDPOINT, body),
            Err(fault) => Err(CryptomusError::InvalidArgument(fault)),
        }
    }
}

/// A request that was framed carries the body it was given, and under the
/// signature header the very signature that signing this body again with
/// the client's key gives.
pub proof fn lemma_signature_is_reproducible(
    client: ClientModel,
    endpoint: Seq<char>,
    body: Seq<char>,
)
    ensures
        client.signed(endpoint, body) matches Ok(request) ==> {
            &&& request.body == body
            &&& request.headers.len() == 4
            &&& request.headers[3].0 == SIGN_HEADER@
            &&& sign_outcome(vstd::utf8::encode_utf8(request.body), client.api_key) == Ok::<
                Seq<char>,
                ErrorModel,
            >(request.headers[3].1)
        },
{
}

/// Writing a request to create an invoice, signing what was written and
/// signing the same text once more give one and the same signature: the
/// request that is prepared holds the written text as its body and that
/// signature as its signature header.
pub proof fn lemma_create_invoice_round_trip(client: ClientModel, request: CreateInvoiceRequest)
    ensures
        client.create_invoice(request) matches Ok(prepared) ==> {
            &&& request.json_text() == Ok::<Seq<char>, ArgumentFault>(prepared.body)
            &&& sign_outcome(vstd::utf8::encode_utf8(prepared.body), client.api_key) == Ok::<
                Seq<char>,
                ErrorModel,
            >(prepared.headers[3].1)
        },
{
    if request.json_text() is Ok {
        lemma_signature_is_reproducible(client, CREATE_INVOICE_ENDPOINT@, request.json_text()->Ok_0);
    }
}

/// The same holds of a lookup.
pub proof fn lemma_get_invoice_info_round_trip(client: ClientModel, request: InvoiceInfoRequest)
    ensures
        client.get_invoice_info(request) matches Ok(prepared) ==> {
            &&& request.names_invoice()
            &&& request.json_text() == Ok::<Seq<char>, ArgumentFault>(prepared.body)
            &&& sign_outcome(vstd::utf8::encode_utf8(prepared.body), client.api_key) == Ok::<
                Seq<char>,
                ErrorModel,
            >(prepared.headers[3].1)
        },
{
    if request.json_text() is Ok {
        lemma_signature_is_reproducible(client, INVOICE_INFO_ENDPOINT@, request.json_text()->Ok_0);
    }
}

/// A lookup that names neither the uuid nor the order id is turned down
/// whatever the client holds, so that no request comes to be sent.
pub proof fn lemma_lookup_without_key_is_refused(client: ClientModel, request: InvoiceInfoRequest)
    requires
        request.uuid is None,
        request.order_id is None,
    ensures
        client.get_invoice_info(request) == Err::<RequestModel, ErrorModel>(
            ErrorModel::InvalidArgument(ArgumentFault::MissingInvoiceKey),
        ),
{
}

/// A text of ASCII characters none of which is a control character may be
/// the value of a header.
pub proof fn lemma_printable_ascii_is_header_value(text: Seq<char>)
    requires
        forall|i: int| 0 <= i < text.len() ==> ' ' <= #[trigger] text[i] <= '~',
    ensures
        is_header_value(text),
{
    vstd::utf8::is_ascii_chars_encode_utf8(text);
}

/// Every header of a request that was framed has a value that HTTP admits.
pub proof fn lemma_headers_are_admissible(client: ClientModel, endpoint: Seq<char>, body: Seq<char>)
    ensures
        client.signed(endpoint, body) matches Ok(request) ==> forall|i: int|
            0 <= i < request.headers.len() ==> is_header_value(#[trigger] request.headers[i].1),
{
    if client.signed(endpoint, body) is Ok {
        let signature = signature_text(vstd::utf8::encode_utf8(body), client.api_key);
        reveal_strlit("application/json");
        lemma_printable_ascii_is_header_value(JSON_MEDIA_TYPE@);
        lemma_signature_shape(vstd::utf8::encode_utf8(body), client.api_key);
        assert forall|i: int| 0 <= i < signature.len() implies ' ' <= #[trigger] signature[i]
            <= '~' by {
            assert(is_lower_hex(signature[i]));
        }
        lemma_printable_ascii_is_header_value(signature);
    }
}

} // verus!
