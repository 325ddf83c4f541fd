//! The authenticated REST client of the remote OTP server.
//!
//! The client is constructed per call from a base URL and a bearer token and
//! builds one [`HttpRequest`] per operation; the caller's transport performs
//! it and feeds the [`HttpOutcome`] back through [`classify_response`].  The
//! uniform failure order of every operation — transport failure, then a
//! non-2xx status, then a body of the wrong shape — lives in
//! [`classify_response`] and [`require_parsed`].

use vstd::prelude::*;

use crate::codec::{escape_into, json_escape};
use crate::errors::CoreError;
use crate::models::{Credentials, CreateAccountPayload};
use crate::text::{strip_trailing_slashes, trim_trailing_slashes, utf8_bytes};

verus! {

use vstd::string::StringSliceAdditionalSpecFns;

/// The HTTP method of a request.
#[derive(Debug, Clone, Copy, PartialEq, Eq, Structural)]
pub enum HttpMethod {
    /// An HTTP GET.
    Get,
    /// An HTTP POST.
    Post,
    /// An HTTP DELETE.
    Delete,
}

/// What a request carries besides the URL and the bearer token.
#[derive(Debug, Clone, PartialEq)]
pub enum RequestBody {
    /// No body.
    Empty,
    /// A JSON document, sent as `application/json`.
    Json(Vec<u8>),
    /// Image bytes, sent as one multipart field named [`qr_part_name`] with
    /// file name [`qr_file_name`] and type [`qr_mime_type`].
    QrImage(Vec<u8>),
}

/// One fully described request of the remote server.
#[derive(Debug, Clone, PartialEq)]
pub struct HttpRequest {
    /// The method.
    pub method: HttpMethod,
    /// The absolute URL, as UTF-8 bytes.
    pub url: Vec<u8>,
    /// The token for the `Authorization: Bearer` header.
    pub bearer: String,
    /// The body.
    pub body: RequestBody,
}

/// The multipart field name the remote QR decode endpoint expects.
pub fn qr_part_name() -> (r: &'static str)
    ensures
        r@ == "qrcode"@,
{
    "qrcode"
}

/// The file name sent with the QR image part.
pub fn qr_file_name() -> (r: &'static str)
    ensures
        r@ == "qrcode.png"@,
{
    "qrcode.png"
}

/// The content type sent with the QR image part.
pub fn qr_mime_type() -> (r: &'static str)
    ensures
        r@ == "image/png"@,
{
    "image/png"
}

/// The ASCII decimal digits of a number, most significant first.
pub open spec fn dec_bytes(n: nat) -> Seq<u8>
    decreases n,
{
    if n < 10 {
        seq![(48 + n) as u8]
    } else {
        dec_bytes(n / 10) + seq![(48 + n % 10) as u8]
    }
}

/// Appends the decimal rendering of `n` to `out`.
fn push_dec(out: &mut Vec<u8>, n: u32)
    ensures
        final(out)@ == old(out)@ + dec_bytes(n as nat),
    decreases n,
{
    if n < 10 {
        out.push(48 + n as u8);
        assert(final(out)@ =~= old(out)@ + dec_bytes(n as nat));
    } else {
        push_dec(out, n / 10);
        out.push(48 + (n % 10) as u8);
        assert(final(out)@ =~= old(out)@ + (dec_bytes((n / 10) as nat) + seq![
            (48 + n % 10) as u8,
        ]));
    }
}

/// The UTF-8 bytes of an optional string.
pub open spec fn opt_str_bytes(v: Option<String>) -> Option<Seq<u8>> {
    match v {
        Some(s) => Some(utf8_bytes(s@)),
        None => None,
    }
}

/// An optional number as a mathematical value.
pub open spec fn opt_nat(v: Option<u32>) -> Option<nat> {
    match v {
        Some(n) => Some(n as nat),
        None => None,
    }
}

/// The JSON segment of an optional string field: `"label":"value"` with the
/// value escaped, or nothing when the field is absent.
pub open spec fn seg_str(label: Seq<u8>, v: Option<Seq<u8>>) -> Seq<u8> {
    match v {
        Some(s) => seq![34u8] + label + "\":\"".spec_bytes() + json_escape(s) + seq![34u8],
        None => Seq::empty(),
    }
}

/// The JSON segment of an optional numeric field: `"label":n`, or nothing
/// when the field is absent.
pub open spec fn seg_num(label: Seq<u8>, v: Option<nat>) -> Seq<u8> {
    match v {
        Some(n) => seq![34u8] + label + "\":".spec_bytes() + dec_bytes(n),
        None => Seq::empty(),
    }
}

/// Joins two segments with a comma, dropping whichever is empty.
pub open spec fn join(a: Seq<u8>, b: Seq<u8>) -> Seq<u8> {
    if a.len() == 0 {
        b
    } else if b.len() == 0 {
        a
    } else {
        a + seq![44u8] + b
    }
}

/// The JSON body `{"uri":"…"}` carrying a single URI.
pub open spec fn uri_body(uri: Seq<char>) -> Seq<u8> {
    "{\"uri\":\"".spec_bytes() + json_escape(utf8_bytes(uri)) + "\"}".spec_bytes()
}

/// The JSON body of a create-account call.
///
/// A payload carrying a URI sends only `{"uri":"…"}`, whatever else is set.
/// Otherwise the body holds exactly the present fields, in a fixed order,
/// and omits absent ones entirely.
pub open spec fn create_account_body(p: CreateAccountPayload) -> Seq<u8> {
    match p.uri {
        Some(u) => uri_body(u@),
        None => seq![123u8] + join(
            join(
                join(
                    join(
                        join(
                            join(
                                join(
                                    seg_str("service".spec_bytes(), opt_str_bytes(p.service)),
                                    seg_str("account".spec_bytes(), opt_str_bytes(p.account)),
                                ),
                                seg_str("secret".spec_bytes(), opt_str_bytes(p.secret)),
                            ),
                            seg_str("otp_type".spec_bytes(), opt_str_bytes(p.otp_type)),
                        ),
                        seg_num(
                            "digits".spec_bytes(),
                            match p.digits {
                                Some(d) => Some(d as nat),
                                None => None,
                            },
                        ),
                    ),
                    seg_num("period".spec_bytes(), opt_nat(p.period)),
                ),
                seg_num("counter".spec_bytes(), opt_nat(p.counter)),
            ),
            seg_str("algorithm".spec_bytes(), opt_str_bytes(p.algorithm)),
        ) + seq![125u8],
    }
}

/// Builds the segment of an optional string field.
fn seg_str_exec(label: &[u8], v: &Option<String>) -> (r: Vec<u8>)
    ensures
        r@ == seg_str(
            label@,
            match v {
                Some(s) => Some(utf8_bytes(s@)),
                None => None::<Seq<u8>>,
            },
        ),
{
    match v {
        Some(s) => {
            let mut out: Vec<u8> = Vec::new();
            out.push(34);
            out.extend_from_slice(label);
            out.extend_from_slice("\":\"".as_bytes());
            let sb = s.as_str().as_bytes_vec();
            escape_into(&mut out, sb.as_slice());
            out.push(34);
            proof {
                assert(out@ =~= seq![34u8] + label@ + "\":\"".spec_bytes() + json_escape(
                    utf8_bytes(s@),
                ) + seq![34u8]);
            }
            out
        },
        None => Vec::new(),
    }
}

/// Builds the segment of an optional numeric field.
fn seg_num_exec(label: &[u8], v: Option<u32>) -> (r: Vec<u8>)
    ensures
        r@ == seg_num(label@, opt_nat(v)),
{
    match v {
        Some(n) => {
            let mut out: Vec<u8> = Vec::new();
            out.push(34);
            out.extend_from_slice(label);
            out.extend_from_slice("\":".as_bytes());
            push_dec(&mut out, n);
            proof {
                assert(out@ =~= seq![34u8] + label@ + "\":".spec_bytes() + dec_bytes(n as nat));
            }
            out
        },
        None => Vec::new(),
    }
}

/// Joins one more segment onto the accumulated fields.
fn join_into(acc: &mut Vec<u8>, seg: Vec<u8>)
    ensures
        final(acc)@ == join(old(acc)@, seg@),
{
    let ghost segv = seg@;
    let mut seg = seg;
    if seg.len() == 0 {
    } else if acc.len() == 0 {
        *acc = seg;
    } else {
        acc.push(44);
        acc.append(&mut seg);
        proof {
            assert(acc@ =~= old(acc)@ + seq![44u8] + segv);
        }
    }
}

/// Builds the `{"uri":"…"}` body.
fn uri_body_exec(uri: &str) -> (r: Vec<u8>)
    ensures
        r@ == uri_body(uri@),
{
    let mut out: Vec<u8> = Vec::new();
    out.extend_from_slice("{\"uri\":\"".as_bytes());
    let ub = uri.as_bytes_vec();
    escape_into(&mut out, ub.as_slice());
    out.extend_from_slice("\"}".as_bytes());
    proof {
        assert(out@ =~= uri_body(uri@));
    }
    out
}

/// The stateless client: a normalized base URL and the bearer token.
#[derive(Debug, Clone, PartialEq)]
pub struct TwoFAuthClient {
    /// The server's base URL, without a trailing `/`.
    pub base_url: String,
    /// The API token sent as a bearer token.
    pub token: String,
}

impl TwoFAuthClient {
    /// The UTF-8 bytes of the base URL.
    pub open spec fn base_bytes(&self) -> Seq<u8> {
        utf8_bytes(self.base_url@)
    }

    /// The URL of an endpoint under this client's base.
    pub open spec fn url_of(&self, path: Seq<u8>) -> Seq<u8> {
        self.base_bytes() + path
    }

    /// Builds a client, normalizing the base URL.
    pub fn new(base_url: &str, token: &str) -> (c: Self)
        ensures
            c.base_bytes() == strip_trailing_slashes(utf8_bytes(base_url@)),
            c.token@ == token@,
    {
        TwoFAuthClient { base_url: trim_trailing_slashes(base_url), token: token.to_owned() }
    }

    /// Builds a client from saved credentials.
    pub fn from_credentials(creds: &Credentials) -> (c: Self)
        ensures
            c.base_bytes() == strip_trailing_slashes(creds.url_bytes()),
            c.token@ == creds.api_token@,
    {
        TwoFAuthClient::new(creds.server_url.as_str(), creds.api_token.as_str())
    }

    /// Concatenates the base URL and a path.
    fn make_url(&self, path: &str) -> (r: Vec<u8>)
        ensures
            r@ == self.url_of(path.spec_bytes()),
    {
        let mut url = self.base_url.as_str().as_bytes_vec();
        url.extend_from_slice(path.as_bytes());
        url
    }

    /// The request that validates a server and token pair.
    pub fn verify_user_request(&self) -> (r: HttpRequest)
        ensures
            r.method == HttpMethod::Get,
            r.url@ == self.url_of("/api/v1/user".spec_bytes()),
            r.bearer@ == self.token@,
            r.body is Empty,
    {
        HttpRequest {
            method: HttpMethod::Get,
            url: self.make_url("/api/v1/user"),
            bearer: self.token.clone(),
            body: RequestBody::Empty,
        }
    }

    /// The request that lists all accounts with their current passwords.
    pub fn list_accounts_request(&self) -> (r: HttpRequest)
        ensures
            r.method == HttpMethod::Get,
            r.url@ == self.url_of("/api/v1/twofaccounts?withOtp=true".spec_bytes()),
            r.bearer@ == self.token@,
            r.body is Empty,
    {
        HttpRequest {
            method: HttpMethod::Get,
            url: self.make_url("/api/v1/twofaccounts?withOtp=true"),
            bearer: self.token.clone(),
            body: RequestBody::Empty,
        }
    }

    /// The request that fetches a fresh password for one account.
    pub fn get_otp_request(&self, account_id: u32) -> (r: HttpRequest)
        ensures
            r.method == HttpMethod::Get,
            r.url@ == self.base_bytes() + "/api/v1/twofaccounts/".spec_bytes() + dec_bytes(
                account_id as nat,
            ) + "/otp".spec_bytes(),
            r.bearer@ == self.token@,
            r.body is Empty,
    {
        let mut url = self.make_url("/api/v1/twofaccounts/");
        push_dec(&mut url, account_id);
        url.extend_from_slice("/otp".as_bytes());
        proof {
            assert(url@ =~= self.base_bytes() + "/api/v1/twofaccounts/".spec_bytes() + dec_bytes(
                account_id as nat,
            ) + "/otp".spec_bytes());
        }
        HttpRequest {
            method: HttpMethod::Get,
            url,
            bearer: self.token.clone(),
            body: RequestBody::Empty,
        }
    }

    /// The request that creates an account, with the body assembled by the
    /// URI-overrides-all and absent-fields-omitted rules of
    /// [`create_account_body`].
    pub fn create_account_request(&self, payload: &CreateAccountPayload) -> (r: HttpRequest)
        ensures
            r.method == HttpMethod::Post,
            r.url@ == self.url_of("/api/v1/twofaccounts".spec_bytes()),
            r.bearer@ == self.token@,
            r.body matches RequestBody::Json(b) && b@ == create_account_body(*payload),
    {
        let body: Vec<u8> = match &payload.uri {
            Some(u) => uri_body_exec(u.as_str()),
            None => {
                let mut fields: Vec<u8> = Vec::new();
                join_into(&mut fields, seg_str_exec("service".as_bytes(), &payload.service));
                join_into(&mut fields, seg_str_exec("account".as_bytes(), &payload.account));
                join_into(&mut fields, seg_str_exec("secret".as_bytes(), &payload.secret));
                join_into(&mut fields, seg_str_exec("otp_type".as_bytes(), &payload.otp_type));
                let digits32: Option<u32> = match payload.digits {
                    Some(d) => Some(d as u32),
                    None => None,
                };
                join_into(&mut fields, seg_num_exec("digits".as_bytes(), digits32));
                join_into(&mut fields, seg_num_exec("period".as_bytes(), payload.period));
                join_into(&mut fields, seg_num_exec("counter".as_bytes(), payload.counter));
                join_into(&mut fields, seg_str_exec("algorithm".as_bytes(), &payload.algorithm));
                let ghost assembled = fields@;
                let mut out: Vec<u8> = Vec::new();
                out.push(123);
                let mut fields = fields;
                out.append(&mut fields);
                out.push(125);
                proof {
                    assert(out@ =~= seq![123u8] + assembled + seq![125u8]);
                }
                out
            },
        };
        HttpRequest {
            method: HttpMethod::Post,
            url: self.make_url("/api/v1/twofaccounts"),
            bearer: self.token.clone(),
            body: RequestBody::Json(body),
        }
    }

    /// The request that previews what a URI would create, persisting nothing.
    pub fn preview_request(&self, uri: &str) -> (r: HttpRequest)
        ensures
            r.method == HttpMethod::Post,
            r.url@ == self.url_of("/api/v1/twofaccounts/preview".spec_bytes()),
            r.bearer@ == self.token@,
            r.body matches RequestBody::Json(b) && b@ == uri_body(uri@),
    {
        HttpRequest {
            method: HttpMethod::Post,
            url: self.make_url("/api/v1/twofaccounts/preview"),
            bearer: self.token.clone(),
            body: RequestBody::Json(uri_body_exec(uri)),
        }
    }

    /// The request that deletes one account.
    pub fn delete_account_request(&self, account_id: u32) -> (r: HttpRequest)
        ensures
            r.method == HttpMethod::Delete,
            r.url@ == self.base_bytes() + "/api/v1/twofaccounts/".spec_bytes() + dec_bytes(
                account_id as nat,
            ),
            r.bearer@ == self.token@,
            r.body is Empty,
    {
        let mut url = self.make_url("/api/v1/twofaccounts/");
        push_dec(&mut url, account_id);
        HttpRequest {
            method: HttpMethod::Delete,
            url,
            bearer: self.token.clone(),
            body: RequestBody::Empty,
        }
    }

    /// The request that asks the server to decode a QR image.
    pub fn decode_qr_request(&self, image_bytes: Vec<u8>) -> (r: HttpRequest)
        ensures
            r.method == HttpMethod::Post,
            r.url@ == self.url_of("/api/v1/qrcode/decode".spec_bytes()),
            r.bearer@ == self.token@,
            r.body matches RequestBody::QrImage(b) && b@ == image_bytes@,
    {
        HttpRequest {
            method: HttpMethod::Post,
            url: self.make_url("/api/v1/qrcode/decode"),
            bearer: self.token.clone(),
            body: RequestBody::QrImage(image_bytes),
        }
    }
}

/// What the transport reports back for one request.
#[derive(Debug, Clone, PartialEq)]
pub enum HttpOutcome {
    /// The request never yielded a response: connection, DNS or protocol
    /// failure.
    Failed,
    /// A response arrived, with its status code and raw body bytes.
    Response(u16, Vec<u8>),
}

/// The first two stages of the uniform error mapping: a transport failure is
/// `Request`, a status outside the 2xx range is `Server`, and only then does
/// the body reach the caller.
pub fn classify_response(outcome: HttpOutcome) -> (r: Result<Vec<u8>, CoreError>)
    ensures
        match outcome {
            HttpOutcome::Failed => r == Err::<Vec<u8>, CoreError>(CoreError::Request),
            HttpOutcome::Response(status, body) => {
                if 200 <= status < 300 {
                    r matches Ok(b) && b@ == body@
                } else {
                    r == Err::<Vec<u8>, CoreError>(CoreError::Server(status))
                }
            },
        },
{
    match outcome {
        HttpOutcome::Failed => Err(CoreError::Request),
        HttpOutcome::Response(status, body) => {
            if 200 <= status && status < 300 {
                Ok(body)
            } else {
                Err(CoreError::Server(status))
            }
        },
    }
}

/// The third stage of the uniform error mapping: a body that would not parse
/// into the expected shape is `Parse`, anything parsed passes through.
pub fn require_parsed<T>(parsed: Option<T>) -> (r: Result<T, CoreError>)
    ensures
        match parsed {
            Some(v) => r matches Ok(w) && w == v,
            None => r matches Err(e) && e == CoreError::Parse,
        },
{
    match parsed {
        Some(v) => Ok(v),
        None => Err(CoreError::Parse),
    }
}

} // verus!
