//! Authenticated encryption of opaque byte buffers.
//!
//! A sealed blob is `nonce(12 bytes) || ciphertext-with-tag`, produced under a
//! 32-byte key with a fresh random nonce on every call.  The cipher itself is
//! AES-256-GCM from the `aes_gcm` crate; this module states its behaviour
//! through the uninterpreted functions [`seal_of`] and [`open_of`] and proves
//! the framing around it.

use vstd::prelude::*;

use aes_gcm::aead::Aead;
use aes_gcm::{Aes256Gcm, KeyInit, Nonce};
use rand::RngCore;

use crate::errors::CoreError;

verus! {

/// The ciphertext-with-tag that AES-256-GCM produces for a key, a nonce and a
/// plaintext.  The sealing is a pure function of the three.
pub uninterp spec fn seal_of(key: Seq<u8>, nonce: Seq<u8>, plaintext: Seq<u8>) -> Seq<u8>;

/// What AES-256-GCM decryption yields for a key, a nonce and a
/// ciphertext-with-tag: the plaintext, or nothing when the tag does not
/// verify.
pub uninterp spec fn open_of(key: Seq<u8>, nonce: Seq<u8>, ciphertext: Seq<u8>) -> Option<Seq<u8>>;

/// What decrypting a whole blob under a key yields: nothing for a blob too
/// short to carry a nonce, otherwise whatever opening the remainder under the
/// leading 12-byte nonce yields.
pub open spec fn decrypt_spec(blob: Seq<u8>, key: Seq<u8>) -> Option<Seq<u8>> {
    if blob.len() < 12 {
        None
    } else {
        open_of(key, blob.subrange(0, 12), blob.skip(12))
    }
}

/// The most bytes one call can seal: the cipher's own plaintext ceiling.
pub const SEAL_MAX: u64 = 0x10_0000_0000;

/// The view of an optional byte vector.
pub open spec fn opt_bytes_view(v: Option<Vec<u8>>) -> Option<Seq<u8>> {
    match v {
        Some(b) => Some(b@),
        None => None,
    }
}

/// Relies on `aes_gcm::Aes256Gcm` (`new_from_slice` and `Aead::encrypt`):
/// sealing is deterministic in key, nonce and plaintext; the result carries
/// the 16-byte authentication tag; and decrypting it under the same key and
/// nonce gives the plaintext back (AEAD correctness).  `new_from_slice`
/// cannot fail for a 32-byte key, and `encrypt` refuses exactly the
/// plaintexts longer than the cipher's `P_MAX` ceiling of 2^36 bytes.
#[verifier::external_body]
fn aead_seal(key: &[u8], nonce: &[u8], plaintext: &[u8]) -> (r: Option<Vec<u8>>)
    requires
        key@.len() == 32,
        nonce@.len() == 12,
    ensures
        r is Some <==> plaintext@.len() <= SEAL_MAX,
        match r {
            Some(c) => {
                &&& c@ == seal_of(key@, nonce@, plaintext@)
                &&& c@.len() == plaintext@.len() + 16
                &&& open_of(key@, nonce@, c@) == Some(plaintext@)
            },
            None => true,
        },
{
    let cipher = Aes256Gcm::new_from_slice(key).ok()?;
    cipher.encrypt(Nonce::from_slice(nonce), plaintext).ok()
}

/// Relies on `aes_gcm::Aes256Gcm` (`new_from_slice` and `Aead::decrypt`):
/// opening is deterministic in key, nonce and ciphertext, and fails exactly
/// when the authentication tag does not verify.
#[verifier::external_body]
fn aead_open(key: &[u8], nonce: &[u8], ciphertext: &[u8]) -> (r: Option<Vec<u8>>)
    requires
        key@.len() == 32,
        nonce@.len() == 12,
    ensures
        opt_bytes_view(r) == open_of(key@, nonce@, ciphertext@),
{
    let cipher = Aes256Gcm::new_from_slice(key).ok()?;
    cipher.decrypt(Nonce::from_slice(nonce), ciphertext).ok()
}

/// Relies on `rand::thread_rng` and `RngCore::fill_bytes`: fills the vector
/// with bytes from a cryptographically secure source.  Nothing is promised of
/// the values, only of the count.
#[verifier::external_body]
fn random_bytes(n: usize) -> (r: Vec<u8>)
    ensures
        r@.len() == n,
{
    let mut buf = vec![0u8; n];
    rand::thread_rng().fill_bytes(&mut buf);
    buf
}

/// Generates a fresh 32-byte key from a cryptographically secure source.
pub fn generate_key() -> (r: Vec<u8>)
    ensures
        r@.len() == 32,
{
    random_bytes(32)
}

/// Seals `plaintext` under `key` with a fresh random 12-byte nonce.
///
/// The blob is `nonce || ciphertext-with-tag` and decrypts back to the
/// plaintext under the same key.  Success is owed up to the cipher's
/// [`SEAL_MAX`] ceiling; only beyond it does the caller see `Encrypt`.
pub fn encrypt(plaintext: &[u8], key: &[u8]) -> (r: Result<Vec<u8>, CoreError>)
    requires
        key@.len() == 32,
    ensures
        r is Ok <==> plaintext@.len() <= SEAL_MAX,
        match r {
            Ok(blob) => {
                &&& blob@.len() == plaintext@.len() + 28
                &&& decrypt_spec(blob@, key@) == Some(plaintext@)
            },
            Err(e) => e == CoreError::Encrypt,
        },
{
    let nonce = random_bytes(12);
    match aead_seal(key, nonce.as_slice(), plaintext) {
        Some(mut sealed) => {
            let mut blob = nonce;
            blob.append(&mut sealed);
            proof {
                assert(blob@.subrange(0, 12) =~= nonce@);
                assert(blob@.skip(12) =~= seal_of(key@, nonce@, plaintext@));
            }
            Ok(blob)
        },
        None => Err(CoreError::Encrypt),
    }
}

/// Opens a blob sealed by [`encrypt`] under `key`.
///
/// Fails with `Decrypt` exactly when the blob is shorter than a nonce or when
/// the authentication tag does not verify (a tampered or truncated blob, or a
/// wrong key).
pub fn decrypt(blob: &[u8], key: &[u8]) -> (r: Result<Vec<u8>, CoreError>)
    requires
        key@.len() == 32,
    ensures
        match r {
            Ok(p) => decrypt_spec(blob@, key@) == Some(p@),
            Err(e) => e == CoreError::Decrypt && decrypt_spec(blob@, key@) is None,
        },
{
    if blob.len() < 12 {
        return Err(CoreError::Decrypt);
    }
    let (nonce, ciphertext) = blob.split_at(12);
    match aead_open(key, nonce, ciphertext) {
        Some(p) => Ok(p),
        None => Err(CoreError::Decrypt),
    }
}

} // verus!
