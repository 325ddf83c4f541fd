//! The error taxonomy shared by the vault and the gateway.
//!
//! Every operation of the library surfaces one of these variants as its
//! terminal result; none is retried and none is swallowed.  The one intended
//! exception is the local-to-remote transition of the QR decoding strategy,
//! which is an ordinary state change, not an error.

use vstd::prelude::*;

verus! {

/// A failure of a vault or gateway operation.
#[derive(Debug, PartialEq, Eq, Clone, Copy)]
pub enum CoreError {
    /// No credentials are saved in the session.
    NotConfigured,
    /// The transport could not reach the server at all.
    Request,
    /// The server answered with a status outside the 2xx range.
    Server(u16),
    /// The response body did not have the expected shape.
    Parse,
    /// A stored blob could not be decrypted (truncated, tampered, wrong key).
    Decrypt,
    /// The stored key file does not decode to exactly 32 key bytes.
    InvalidKey,
    /// The authenticated cipher refused to seal the plaintext.
    Encrypt,
    /// Neither the local decoder nor the remote decoder found a QR code.
    NoQrFound,
    /// Screen capture was invoked on a platform that cannot provide it.
    UnsupportedPlatform,
}

impl CoreError {
    /// A stable machine-readable code for the variant.
    pub fn code(&self) -> (r: &'static str)
        ensures
            r@ == self.code_spec(),
    {
        match self {
            CoreError::NotConfigured => "not_configured",
            CoreError::Request => "request_error",
            CoreError::Server(_) => "server_error",
            CoreError::Parse => "parse_error",
            CoreError::Decrypt => "decrypt_error",
            CoreError::InvalidKey => "invalid_key_error",
            CoreError::Encrypt => "encrypt_error",
            CoreError::NoQrFound => "no_qr_found_error",
            CoreError::UnsupportedPlatform => "unsupported_platform_error",
        }
    }

    /// The code that `code` returns for each variant.
    pub open spec fn code_spec(&self) -> Seq<char> {
        match self {
            CoreError::NotConfigured => "not_configured"@,
            CoreError::Request => "request_error"@,
            CoreError::Server(_) => "server_error"@,
            CoreError::Parse => "parse_error"@,
            CoreError::Decrypt => "decrypt_error"@,
            CoreError::InvalidKey => "invalid_key_error"@,
            CoreError::Encrypt => "encrypt_error"@,
            CoreError::NoQrFound => "no_qr_found_error"@,
            CoreError::UnsupportedPlatform => "unsupported_platform_error"@,
        }
    }

    /// A short human-readable description of the variant.
    pub fn message(&self) -> (r: &'static str)
        ensures
            r@ == self.message_spec(),
    {
        match self {
            CoreError::NotConfigured => "no server credentials are configured",
            CoreError::Request => "the request could not reach the server",
            CoreError::Server(_) => "the server answered with an error status",
            CoreError::Parse => "the response did not have the expected shape",
            CoreError::Decrypt => "the stored credentials could not be decrypted",
            CoreError::InvalidKey => "the stored key file is not a valid key",
            CoreError::Encrypt => "the credentials could not be encrypted",
            CoreError::NoQrFound => "no QR code was found in the image",
            CoreError::UnsupportedPlatform => "screen capture is not supported on this platform",
        }
    }

    /// The description that `message` returns for each variant.
    pub open spec fn message_spec(&self) -> Seq<char> {
        match self {
            CoreError::NotConfigured => "no server credentials are configured"@,
            CoreError::Request => "the request could not reach the server"@,
            CoreError::Server(_) => "the server answered with an error status"@,
            CoreError::Parse => "the response did not have the expected shape"@,
            CoreError::Decrypt => "the stored credentials could not be decrypted"@,
            CoreError::InvalidKey => "the stored key file is not a valid key"@,
            CoreError::Encrypt => "the credentials could not be encrypted"@,
            CoreError::NoQrFound => "no QR code was found in the image"@,
            CoreError::UnsupportedPlatform => "screen capture is not supported on this platform"@,
        }
    }

    /// The HTTP status carried by a `Server` error, if any.
    pub fn status(&self) -> (r: Option<u16>)
        ensures
            match self {
                CoreError::Server(s) => r == Some(*s),
                _ => r is None,
            },
    {
        match self {
            CoreError::Server(s) => Some(*s),
            _ => None,
        }
    }
}

} // verus!
