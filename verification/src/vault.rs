//! The credential vault and the in-memory session.
//!
//! Saving normalizes the URL, encodes the record, and seals it under the
//! key; the caller persists the returned blob (and fresh key text, if any)
//! and nothing else.  Loading is the exact inverse and treats missing files
//! as the normal "not configured" state, never as an error.  The session is
//! the one live copy of the credentials; the caller owns it for the process
//! lifetime and guards it with whatever lock its runtime needs, acquired
//! only around these short calls, never across I/O.

use vstd::prelude::*;

use crate::codec::{encode_record, parse_record, parse_record_bytes, record_bytes};
use crate::crypto::{decrypt, decrypt_spec, encrypt, SEAL_MAX};
use crate::errors::CoreError;
use crate::keystore::{b64_decode_of, load_or_create_key, trim_spec, KeyMaterial};
use crate::models::Credentials;
use crate::text::{
    string_from_utf8, strip_trailing_slashes, trim_trailing_slashes, utf8_bytes,
    lemma_strip_idempotent,
};

verus! {

use vstd::string::StringSliceAdditionalSpecFns;

/// The process-wide holder of the active credentials.
///
/// Exactly one of these should exist per process; every gateway call reads
/// it and the vault operations replace or empty it.
pub struct Session {
    /// The live credentials, present once a save or load succeeded.
    pub credentials: Option<Credentials>,
}

impl Session {
    /// An empty session: nothing is configured.
    pub fn new() -> (r: Session)
        ensures
            r.credentials is None,
    {
        Session { credentials: None }
    }

    /// True when credentials are present and well-formed.
    pub open spec fn wf(&self) -> bool {
        match self.credentials {
            Some(c) => c.wf(),
            None => true,
        }
    }
}

/// Builds a credentials record from raw caller input, normalizing the URL.
pub fn make_credentials(server_url: &str, api_token: String) -> (c: Credentials)
    ensures
        c.url_bytes() == strip_trailing_slashes(utf8_bytes(server_url@)),
        c.token_bytes() == utf8_bytes(api_token@),
        c.wf(),
{
    let normalized = trim_trailing_slashes(server_url);
    proof {
        lemma_strip_idempotent(utf8_bytes(server_url@));
    }
    Credentials { server_url: normalized, api_token }
}

/// Serializes and seals well-formed credentials under a 32-byte key.
///
/// The blob decrypts back to the canonical record of the two fields; the
/// caller writes it to the credential file unchanged.  Success is owed for
/// every record within the cipher's [`SEAL_MAX`] ceiling.
pub fn seal_credentials(c: &Credentials, key: &[u8]) -> (r: Result<Vec<u8>, CoreError>)
    requires
        key@.len() == 32,
    ensures
        r is Ok <==> record_bytes(c.url_bytes(), c.token_bytes()).len() <= SEAL_MAX,
        match r {
            Ok(blob) => decrypt_spec(blob@, key@) == Some(
                record_bytes(c.url_bytes(), c.token_bytes()),
            ),
            Err(e) => e == CoreError::Encrypt,
        },
{
    let url_bytes = c.server_url.as_str().as_bytes_vec();
    let token_bytes = c.api_token.as_str().as_bytes_vec();
    let record = encode_record(url_bytes.as_slice(), token_bytes.as_slice());
    encrypt(record.as_slice(), key)
}

/// Normalizes, serializes and seals the given coordinates, and installs them
/// as the live session credentials.
///
/// Returns the sealed blob for the caller to persist.  The session holds the
/// normalized record afterwards, and success is owed for every record within
/// the cipher's [`SEAL_MAX`] ceiling; only beyond it does the caller see
/// `Encrypt`, with the session untouched.
pub fn save_credentials(session: &mut Session, server_url: &str, api_token: String, key: &[u8]) -> (r:
    Result<Vec<u8>, CoreError>)
    requires
        key@.len() == 32,
    ensures
        r is Ok <==> record_bytes(
            strip_trailing_slashes(utf8_bytes(server_url@)),
            utf8_bytes(api_token@),
        ).len() <= SEAL_MAX,
        match r {
            Ok(blob) => {
                &&& decrypt_spec(blob@, key@) == Some(
                    record_bytes(
                        strip_trailing_slashes(utf8_bytes(server_url@)),
                        utf8_bytes(api_token@),
                    ),
                )
                &&& match final(session).credentials {
                    Some(c) => {
                        &&& c.url_bytes() == strip_trailing_slashes(utf8_bytes(server_url@))
                        &&& c.token_bytes() == utf8_bytes(api_token@)
                        &&& c.wf()
                    },
                    None => false,
                }
            },
            Err(e) => e == CoreError::Encrypt && *final(session) == *old(session),
        },
{
    let creds = make_credentials(server_url, api_token);
    let blob = seal_credentials(&creds, key)?;
    session.credentials = Some(creds);
    Ok(blob)
}

/// What loading decides from the two file contents: the URL and token bytes
/// of the stored record, or the error that stops the load.
pub open spec fn load_result(cred: Seq<u8>, key_text: Seq<u8>) -> Result<
    (Seq<u8>, Seq<u8>),
    CoreError,
> {
    match b64_decode_of(trim_spec(key_text)) {
        None => Err(CoreError::InvalidKey),
        Some(k) => {
            if k.len() != 32 {
                Err(CoreError::InvalidKey)
            } else {
                match decrypt_spec(cred, k) {
                    None => Err(CoreError::Decrypt),
                    Some(pt) => match parse_record(pt) {
                        None => Err(CoreError::Parse),
                        Some(c) => {
                            if vstd::utf8::valid_utf8(c.0) && vstd::utf8::valid_utf8(c.1) {
                                Ok(c)
                            } else {
                                Err(CoreError::Parse)
                            }
                        },
                    },
                }
            }
        },
    }
}

/// Rebuilds the session from the raw contents of the credential file and the
/// key file, as the caller found them.
///
/// A missing file of either kind means "not configured": the result is
/// `Ok(false)` and the session keeps its value.  With both present the key
/// is decoded, the blob decrypted and parsed, and the session replaced,
/// exactly as [`load_result`] decides; any error there leaves the session
/// untouched.
pub fn load_credentials(
    session: &mut Session,
    cred_bytes: Option<Vec<u8>>,
    key_text: Option<Vec<u8>>,
) -> (r: Result<bool, CoreError>)
    ensures
        match (cred_bytes, key_text) {
            (Some(cb), Some(kt)) => match load_result(cb@, kt@) {
                Ok(c) => {
                    &&& r == Ok::<bool, CoreError>(true)
                    &&& match final(session).credentials {
                        Some(sc) => sc.url_bytes() == c.0 && sc.token_bytes() == c.1,
                        None => false,
                    }
                },
                Err(e) => r == Err::<bool, CoreError>(e) && *final(session) == *old(session),
            },
            _ => r == Ok::<bool, CoreError>(false) && *final(session) == *old(session),
        },
{
    let cred = match cred_bytes {
        Some(c) => c,
        None => {
            return Ok(false);
        },
    };
    let ktext = match key_text {
        Some(k) => k,
        None => {
            return Ok(false);
        },
    };
    let km: KeyMaterial = load_or_create_key(Some(ktext))?;
    let plain = decrypt(cred.as_slice(), km.key.as_slice())?;
    let (url_raw, token_raw) = match parse_record_bytes(plain.as_slice()) {
        Some(c) => c,
        None => {
            return Err(CoreError::Parse);
        },
    };
    let server_url = match string_from_utf8(url_raw) {
        Some(s) => s,
        None => {
            return Err(CoreError::Parse);
        },
    };
    let api_token = match string_from_utf8(token_raw) {
        Some(s) => s,
        None => {
            return Err(CoreError::Parse);
        },
    };
    session.credentials = Some(Credentials { server_url, api_token });
    Ok(true)
}

/// Empties the session.  The caller deletes the credential and key files;
/// their absence is not an error, so clearing is idempotent.
pub fn clear_credentials(session: &mut Session)
    ensures
        final(session).credentials is None,
{
    session.credentials = None;
}

/// The live credentials, or `NotConfigured` when nothing is saved.
pub fn get_credentials(session: &Session) -> (r: Result<Credentials, CoreError>)
    ensures
        match session.credentials {
            Some(c) => match r {
                Ok(rc) => rc.server_url@ == c.server_url@ && rc.api_token@ == c.api_token@,
                Err(_) => false,
            },
            None => r == Err::<Credentials, CoreError>(CoreError::NotConfigured),
        },
{
    match &session.credentials {
        Some(c) => Ok(c.clone()),
        None => Err(CoreError::NotConfigured),
    }
}

/// Loading sees exactly what saving stored: for any well-formed pair of
/// field bytes, a blob that decrypts to their record, together with key text
/// that decodes to the sealing key, loads back to that very pair.
pub proof fn lemma_save_load_round_trip(
    url: Seq<u8>,
    token: Seq<u8>,
    key: Seq<u8>,
    key_text: Seq<u8>,
    blob: Seq<u8>,
)
    requires
        vstd::utf8::valid_utf8(url),
        vstd::utf8::valid_utf8(token),
        key.len() == 32,
        b64_decode_of(trim_spec(key_text)) == Some(key),
        decrypt_spec(blob, key) == Some(record_bytes(url, token)),
    ensures
        load_result(blob, key_text) == Ok::<(Seq<u8>, Seq<u8>), CoreError>((url, token)),
{
    crate::codec::lemma_record_round_trip(url, token);
}

} // verus!
