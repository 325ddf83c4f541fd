//! The persisted encryption key.
//!
//! The key file holds the 32 key bytes as base64 text.  Loading trims ASCII
//! whitespace around the text, decodes it, and insists on exactly 32 bytes;
//! when no file exists yet a fresh key is generated and handed back together
//! with the text to persist.  Once a key exists it is never regenerated:
//! whether one is generated depends only on whether file contents were given.

use vstd::prelude::*;

use base64::Engine;

use crate::crypto::generate_key;
use crate::errors::CoreError;

verus! {

/// True for the ASCII whitespace bytes that may surround the key text.
pub open spec fn is_ws(b: u8) -> bool {
    b == 32 || b == 9 || b == 10 || b == 13
}

/// `s` without its leading ASCII whitespace.
pub open spec fn trim_front(s: Seq<u8>) -> Seq<u8>
    decreases s.len(),
{
    if s.len() > 0 && is_ws(s[0]) {
        trim_front(s.drop_first())
    } else {
        s
    }
}

/// `s` without its trailing ASCII whitespace.
pub open spec fn trim_back(s: Seq<u8>) -> Seq<u8>
    decreases s.len(),
{
    if s.len() > 0 && is_ws(s.last()) {
        trim_back(s.drop_last())
    } else {
        s
    }
}

/// `s` without ASCII whitespace on either side.
pub open spec fn trim_spec(s: Seq<u8>) -> Seq<u8> {
    trim_back(trim_front(s))
}

/// The base64 text (standard alphabet, with padding) for a byte sequence.
pub uninterp spec fn b64_of(b: Seq<u8>) -> Seq<u8>;

/// What base64 decoding yields for a byte sequence: the decoded bytes, or
/// nothing when the text is not valid base64.
pub uninterp spec fn b64_decode_of(s: Seq<u8>) -> Option<Seq<u8>>;

/// Relies on `base64::engine::general_purpose::STANDARD.encode`: encoding is
/// deterministic, decodes back to the input, and uses only the standard
/// alphabet and `=` padding, so the text carries no whitespace to trim.
#[verifier::external_body]
fn b64_encode(b: &[u8]) -> (r: Vec<u8>)
    ensures
        r@ == b64_of(b@),
        b64_decode_of(r@) == Some(b@),
        trim_spec(r@) == r@,
{
    base64::engine::general_purpose::STANDARD.encode(b).into_bytes()
}

/// Relies on `base64::engine::general_purpose::STANDARD.decode`: decoding is
/// deterministic and fails exactly on text that is not valid base64.
#[verifier::external_body]
fn b64_decode(s: &[u8]) -> (r: Option<Vec<u8>>)
    ensures
        crate::crypto::opt_bytes_view(r) == b64_decode_of(s@),
{
    base64::engine::general_purpose::STANDARD.decode(s).ok()
}

/// The executable whitespace test.
fn is_ws_exec(b: u8) -> (r: bool)
    ensures
        r == is_ws(b),
{
    b == 32 || b == 9 || b == 10 || b == 13
}

/// Strips ASCII whitespace from both ends of `s`.
pub fn trim_ascii(s: &[u8]) -> (r: &[u8])
    ensures
        r@ == trim_spec(s@),
{
    let mut i: usize = 0;
    proof {
        assert(s@.skip(0) =~= s@);
    }
    while i < s.len() && is_ws_exec(s[i])
        invariant
            i <= s@.len(),
            trim_front(s@) == trim_front(s@.skip(i as int)),
        decreases s@.len() - i,
    {
        proof {
            assert(s@.skip(i as int).drop_first() =~= s@.skip(i + 1));
        }
        i = i + 1;
    }
    proof {
        if i < s@.len() {
            assert(trim_front(s@.skip(i as int)) == s@.skip(i as int));
        } else {
            assert(s@.skip(i as int) =~= Seq::<u8>::empty());
        }
    }
    let mut j: usize = s.len();
    proof {
        assert(s@.subrange(i as int, j as int) =~= s@.skip(i as int));
    }
    while j > i && is_ws_exec(s[j - 1])
        invariant
            i <= j <= s@.len(),
            trim_back(s@.skip(i as int)) == trim_back(s@.subrange(i as int, j as int)),
        decreases j,
    {
        proof {
            assert(s@.subrange(i as int, j as int).drop_last() =~= s@.subrange(i as int, j - 1));
        }
        j = j - 1;
    }
    proof {
        if j > i {
            assert(trim_back(s@.subrange(i as int, j as int)) == s@.subrange(i as int, j as int));
        } else {
            assert(s@.subrange(i as int, j as int) =~= Seq::<u8>::empty());
        }
    }
    vstd::slice::slice_subrange(s, i, j)
}

/// A usable key together with the file contents to persist, if the key is
/// new.
pub struct KeyMaterial {
    /// The 32 key bytes.
    pub key: Vec<u8>,
    /// The base64 text to write to the key file, for a freshly generated key.
    pub persist: Option<Vec<u8>>,
}

/// Loads the key from the contents of an existing key file, or generates and
/// encodes a fresh one when no file exists.
///
/// With `existing` given, the text is trimmed and decoded and must yield
/// exactly 32 bytes; anything else is `InvalidKey`, and nothing is ever
/// regenerated.  With no file, a fresh random key comes back together with
/// the text to persist, which decodes to that same key.
pub fn load_or_create_key(existing: Option<Vec<u8>>) -> (r: Result<KeyMaterial, CoreError>)
    ensures
        match existing {
            Some(text) => match r {
                Ok(km) => {
                    &&& km.persist is None
                    &&& b64_decode_of(trim_spec(text@)) == Some(km.key@)
                    &&& km.key@.len() == 32
                },
                Err(e) => {
                    &&& e == CoreError::InvalidKey
                    &&& match b64_decode_of(trim_spec(text@)) {
                        Some(k) => k.len() != 32,
                        None => true,
                    }
                },
            },
            None => match r {
                Ok(km) => {
                    &&& km.key@.len() == 32
                    &&& match km.persist {
                        Some(enc) => {
                            &&& enc@ == b64_of(km.key@)
                            &&& b64_decode_of(trim_spec(enc@)) == Some(km.key@)
                        },
                        None => false,
                    }
                },
                Err(_) => false,
            },
        },
{
    match existing {
        Some(text) => {
            let trimmed = trim_ascii(text.as_slice());
            match b64_decode(trimmed) {
                Some(key) => {
                    if key.len() == 32 {
                        Ok(KeyMaterial { key, persist: None })
                    } else {
                        Err(CoreError::InvalidKey)
                    }
                },
                None => Err(CoreError::InvalidKey),
            }
        },
        None => {
            let key = generate_key();
            let encoded = b64_encode(key.as_slice());
            Ok(KeyMaterial { key, persist: Some(encoded) })
        },
    }
}

} // verus!
