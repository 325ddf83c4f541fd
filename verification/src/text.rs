//! Byte views of strings, URL normalization, and the UTF-8 boundary.
//!
//! Contracts throughout the library speak of strings through the UTF-8 bytes
//! of their characters, which is also exactly what reaches the disk and the
//! wire.

use vstd::prelude::*;

verus! {

/// The UTF-8 bytes of a character sequence.
pub open spec fn utf8_bytes(s: Seq<char>) -> Seq<u8> {
    vstd::utf8::encode_utf8(s)
}

/// `s` without its trailing `/` bytes.  A trailing byte 0x2f is always a
/// whole `/` character, since UTF-8 continuation bytes are 0x80 and above.
pub open spec fn strip_trailing_slashes(s: Seq<u8>) -> Seq<u8>
    decreases s.len(),
{
    if s.len() > 0 && s.last() == 47 {
        strip_trailing_slashes(s.drop_last())
    } else {
        s
    }
}

/// A stripped sequence does not end in a `/` byte.
pub proof fn lemma_strip_no_trailing_slash(s: Seq<u8>)
    ensures
        strip_trailing_slashes(s).len() == 0 || strip_trailing_slashes(s).last() != 47,
    decreases s.len(),
{
    if s.len() > 0 && s.last() == 47 {
        lemma_strip_no_trailing_slash(s.drop_last());
    }
}

/// Stripping trailing slashes is idempotent.
pub proof fn lemma_strip_idempotent(s: Seq<u8>)
    ensures
        strip_trailing_slashes(strip_trailing_slashes(s)) == strip_trailing_slashes(s),
{
    lemma_strip_no_trailing_slash(s);
}

/// Relies on `str::trim_end_matches`: removes exactly the trailing `/`
/// characters, which in UTF-8 are exactly the trailing 0x2f bytes.
#[verifier::external_body]
pub fn trim_trailing_slashes(s: &str) -> (r: String)
    ensures
        utf8_bytes(r@) == strip_trailing_slashes(utf8_bytes(s@)),
{
    s.trim_end_matches('/').to_owned()
}

/// Relies on `String::from_utf8`: succeeds exactly on valid UTF-8 and then
/// returns the string holding those very bytes.
#[verifier::external_body]
pub fn string_from_utf8(v: Vec<u8>) -> (r: Option<String>)
    ensures
        r is Some <==> vstd::utf8::valid_utf8(v@),
        match r {
            Some(s) => utf8_bytes(s@) == v@,
            None => true,
        },
{
    String::from_utf8(v).ok()
}

} // verus!
