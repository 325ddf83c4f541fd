//! The data model mirrored from the remote OTP server.
//!
//! `Credentials` is the one record this client persists (encrypted); the
//! remaining types are transient values moved between the server's JSON
//! bodies and the caller.

use vstd::prelude::*;

use crate::text::{strip_trailing_slashes, utf8_bytes};

verus! {

/// The saved server coordinates: base URL and bearer token.
#[derive(Debug, PartialEq)]
pub struct Credentials {
    /// The server's base URL, kept without a trailing path separator.
    pub server_url: String,
    /// The API token presented as a bearer token on every call.
    pub api_token: String,
}

impl Credentials {
    /// The UTF-8 bytes of the server URL.
    pub open spec fn url_bytes(&self) -> Seq<u8> {
        utf8_bytes(self.server_url@)
    }

    /// The UTF-8 bytes of the API token.
    pub open spec fn token_bytes(&self) -> Seq<u8> {
        utf8_bytes(self.api_token@)
    }

    /// A well-formed record carries a normalized URL: no trailing `/`.
    pub open spec fn wf(&self) -> bool {
        strip_trailing_slashes(self.url_bytes()) == self.url_bytes()
    }
}

impl Clone for Credentials {
    /// Clones the record, preserving both fields.
    fn clone(&self) -> (r: Self)
        ensures
            r.server_url@ == self.server_url@,
            r.api_token@ == self.api_token@,
    {
        Credentials { server_url: self.server_url.clone(), api_token: self.api_token.clone() }
    }
}

/// A server-side OTP account as the list and create endpoints return it.
#[derive(Debug, Clone, PartialEq)]
pub struct Account {
    /// The server-assigned identifier.
    pub id: u32,
    /// The service the account belongs to, if named.
    pub service: Option<String>,
    /// The account label within the service, if named.
    pub account: Option<String>,
    /// An icon file name, if the server has one.
    pub icon: Option<String>,
    /// The OTP flavour, `totp` or `hotp`.
    pub otp_type: String,
    /// How many digits a password has.
    pub digits: u8,
    /// The time step in seconds, for time-based accounts.
    pub period: Option<u32>,
    /// The counter value, for counter-based accounts.
    pub counter: Option<u32>,
    /// The hash algorithm, if the server reports one.
    pub algorithm: Option<String>,
    /// The current password, when the listing inlines one.
    pub otp: Option<OtpValue>,
}

/// A one-time password as the server hands it out; never computed locally.
#[derive(Debug, Clone, PartialEq)]
pub struct OtpValue {
    /// The password text.
    pub password: String,
    /// When the password was generated, as a Unix timestamp.
    pub generated_at: Option<i64>,
    /// The time step in seconds, for time-based accounts.
    pub period: Option<u32>,
    /// The OTP flavour, if reported.
    pub otp_type: Option<String>,
}

/// The user record behind a verified server and token pair.
#[derive(Debug, Clone, PartialEq)]
pub struct UserInfo {
    /// The user's display name.
    pub name: Option<String>,
    /// The user's email address.
    pub email: Option<String>,
}

/// The fields a caller supplies to create an account.
///
/// When `uri` is present it is authoritative and every other field is
/// ignored; otherwise only the present fields are sent.
#[derive(Debug, Clone, PartialEq)]
pub struct CreateAccountPayload {
    /// A full `otpauth://` URI, which overrides all other fields.
    pub uri: Option<String>,
    /// The service name.
    pub service: Option<String>,
    /// The account label.
    pub account: Option<String>,
    /// The shared secret.
    pub secret: Option<String>,
    /// The OTP flavour.
    pub otp_type: Option<String>,
    /// How many digits a password has.
    pub digits: Option<u8>,
    /// The time step in seconds.
    pub period: Option<u32>,
    /// The counter value.
    pub counter: Option<u32>,
    /// The hash algorithm.
    pub algorithm: Option<String>,
}

/// What the preview endpoint reports for a URI, without persisting anything.
#[derive(Debug, Clone, PartialEq)]
pub struct AccountPreview {
    /// The service name.
    pub service: Option<String>,
    /// The account label.
    pub account: Option<String>,
    /// The OTP flavour.
    pub otp_type: String,
    /// How many digits a password has.
    pub digits: u8,
    /// The time step in seconds.
    pub period: Option<u32>,
    /// The hash algorithm.
    pub algorithm: Option<String>,
    /// An icon file name.
    pub icon: Option<String>,
}

/// The body of the remote QR decode endpoint's answer.
#[derive(Debug, Clone, PartialEq)]
pub struct QrDecodeResponse {
    /// The decoded QR content.
    pub data: String,
}

} // verus!
