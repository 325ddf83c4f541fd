//! The canonical byte encoding of the credential record.
//!
//! A record is the JSON object `{"server_url":"…","api_token":"…"}` over the
//! UTF-8 bytes of the two fields.  String contents are escaped byte-wise: `"`
//! becomes `\"`, `\` becomes `\\`, and every byte below 0x20 becomes `\u00xx`.
//! Bytes 0x80 and above pass through unchanged, so escaping valid UTF-8 yields
//! valid UTF-8 and a valid JSON document.  The parser accepts exactly what the
//! encoder emits; [`lemma_record_round_trip`] proves that parsing an encoded
//! record gives the two fields back.

use vstd::prelude::*;

verus! {

use vstd::string::StringSliceAdditionalSpecFns;

/// The ASCII hexadecimal digit (lower case) for a value below 16.
pub open spec fn hex_digit(d: u8) -> u8
    recommends
        d < 16,
{
    if d < 10 {
        (48 + d) as u8
    } else {
        (87 + d) as u8
    }
}

/// The value of an ASCII hexadecimal digit, if it is one (lower case only).
pub open spec fn hex_value(c: u8) -> Option<u8> {
    if 48 <= c && c <= 57 {
        Some((c - 48) as u8)
    } else if 97 <= c && c <= 102 {
        Some((c - 87) as u8)
    } else {
        None
    }
}

/// The escape sequence a single byte contributes to a JSON string.
pub open spec fn esc_byte(b: u8) -> Seq<u8> {
    if b == 34 {
        seq![92u8, 34u8]
    } else if b == 92 {
        seq![92u8, 92u8]
    } else if b < 32 {
        seq![92u8, 117u8, 48u8, 48u8, hex_digit(b / 16), hex_digit(b % 16)]
    } else {
        seq![b]
    }
}

/// The JSON string escaping of a byte sequence.
pub open spec fn json_escape(s: Seq<u8>) -> Seq<u8>
    decreases s.len(),
{
    if s.len() == 0 {
        Seq::empty()
    } else {
        esc_byte(s[0]) + json_escape(s.drop_first())
    }
}

/// Escaping distributes over appending one byte at the end.
pub proof fn lemma_json_escape_push(s: Seq<u8>, b: u8)
    ensures
        json_escape(s.push(b)) == json_escape(s) + esc_byte(b),
    decreases s.len(),
{
    let p = s.push(b);
    if s.len() == 0 {
        assert(p[0] == b);
        assert(p.drop_first() =~= Seq::<u8>::empty());
        assert(json_escape(p) == esc_byte(b) + json_escape(Seq::<u8>::empty()));
        assert(esc_byte(b) + Seq::<u8>::empty() =~= esc_byte(b));
        assert(json_escape(s) + esc_byte(b) =~= esc_byte(b));
    } else {
        assert(p[0] == s[0]);
        assert(p.drop_first() =~= s.drop_first().push(b));
        lemma_json_escape_push(s.drop_first(), b);
        assert(json_escape(p) == esc_byte(s[0]) + (json_escape(s.drop_first()) + esc_byte(b)));
        assert(esc_byte(s[0]) + (json_escape(s.drop_first()) + esc_byte(b)) =~= (esc_byte(s[0])
            + json_escape(s.drop_first())) + esc_byte(b));
        assert(json_escape(p) == json_escape(s) + esc_byte(b));
    }
}

/// The executable ASCII hexadecimal digit for a value below 16.
fn hex_digit_exec(d: u8) -> (r: u8)
    requires
        d < 16,
    ensures
        r == hex_digit(d),
{
    if d < 10 {
        48 + d
    } else {
        87 + d
    }
}

/// Appends the JSON escaping of `s` to `out`.
pub fn escape_into(out: &mut Vec<u8>, s: &[u8])
    ensures
        final(out)@ == old(out)@ + json_escape(s@),
{
    let mut i: usize = 0;
    while i < s.len()
        invariant
            i <= s@.len(),
            out@ == old(out)@ + json_escape(s@.subrange(0, i as int)),
        decreases s@.len() - i,
    {
        let b = s[i];
        if b == 34 {
            out.push(92);
            out.push(34);
        } else if b == 92 {
            out.push(92);
            out.push(92);
        } else if b < 32 {
            out.push(92);
            out.push(117);
            out.push(48);
            out.push(48);
            out.push(hex_digit_exec(b / 16));
            out.push(hex_digit_exec(b % 16));
        } else {
            out.push(b);
        }
        proof {
            assert(s@.subrange(0, i + 1) =~= s@.subrange(0, i as int).push(s@[i as int]));
            lemma_json_escape_push(s@.subrange(0, i as int), s@[i as int]);
        }
        i = i + 1;
    }
    assert(s@.subrange(0, s@.len() as int) =~= s@);
}

/// Parses an escaped JSON string body up to and including its closing quote.
///
/// Returns the unescaped content together with the number of input bytes
/// consumed (closing quote included).  Exactly the escapes the encoder emits
/// are accepted: `\"`, `\\`, and `\u00xx` for a value below 0x20.
pub open spec fn parse_str_body(b: Seq<u8>) -> Option<(Seq<u8>, int)>
    decreases b.len(),
{
    if b.len() == 0 {
        None
    } else if b[0] == 34 {
        Some((Seq::empty(), 1))
    } else if b[0] == 92 {
        if b.len() < 2 {
            None
        } else if b[1] == 34 || b[1] == 92 {
            match parse_str_body(b.skip(2)) {
                Some(r) => Some((seq![b[1]] + r.0, 2 + r.1)),
                None => None,
            }
        } else if b[1] == 117 {
            if b.len() < 6 {
                None
            } else if b[2] == 48 && b[3] == 48 && hex_value(b[4]) is Some && hex_value(b[5]) is Some {
                let v = (16 * hex_value(b[4]).unwrap() + hex_value(b[5]).unwrap()) as u8;
                if v < 32 {
                    match parse_str_body(b.skip(6)) {
                        Some(r) => Some((seq![v] + r.0, 6 + r.1)),
                        None => None,
                    }
                } else {
                    None
                }
            } else {
                None
            }
        } else {
            None
        }
    } else if b[0] < 32 {
        None
    } else {
        match parse_str_body(b.skip(1)) {
            Some(r) => Some((seq![b[0]] + r.0, 1 + r.1)),
            None => None,
        }
    }
}

/// Parsing inverts escaping: the escaped content followed by a closing quote
/// parses back to the content, whatever follows the quote.
pub proof fn lemma_parse_escape(s: Seq<u8>, rest: Seq<u8>)
    ensures
        parse_str_body(json_escape(s) + seq![34u8] + rest) == Some(
            (s, json_escape(s).len() + 1 as int),
        ),
    decreases s.len(),
{
    let b = json_escape(s) + seq![34u8] + rest;
    if s.len() == 0 {
        assert(b =~= seq![34u8] + rest);
        assert(b[0] == 34);
        assert(Seq::<u8>::empty() =~= s);
    } else {
        let e = esc_byte(s[0]);
        let tail = s.drop_first();
        assert(json_escape(s) == e + json_escape(tail));
        lemma_parse_escape(tail, rest);
        let btail = json_escape(tail) + seq![34u8] + rest;
        assert(b =~= e + btail);
        assert(forall|i: int| 0 <= i < e.len() ==> b[i] == e[i]);
        if s[0] == 34 || s[0] == 92 {
            assert(e.len() == 2);
            assert(b[0] == 92 && b[1] == s[0]);
            assert(b.skip(2) =~= btail);
            assert(seq![b[1]] + tail =~= s);
        } else if s[0] < 32 {
            assert(e.len() == 6);
            assert(b[0] == 92 && b[1] == 117 && b[2] == 48 && b[3] == 48);
            assert(b[4] == hex_digit(s[0] / 16) && b[5] == hex_digit(s[0] % 16));
            assert(s[0] / 16 < 2);
            assert(hex_value(hex_digit(s[0] / 16)) == Some(s[0] / 16));
            assert(hex_value(hex_digit(s[0] % 16)) == Some(s[0] % 16));
            assert((16 * (s[0] / 16) + s[0] % 16) as u8 == s[0]);
            assert(b.skip(6) =~= btail);
            assert(seq![s[0]] + tail =~= s);
        } else {
            assert(e.len() == 1);
            assert(b[0] == s[0]);
            assert(b[0] != 34 && b[0] != 92 && !(b[0] < 32));
            assert(b.skip(1) =~= btail);
            assert(seq![b[0]] + tail =~= s);
        }
    }
}

/// Escaping distributes over prepending one byte.
proof fn lemma_json_escape_cons(x: u8, c: Seq<u8>)
    ensures
        json_escape(seq![x] + c) == esc_byte(x) + json_escape(c),
{
    assert((seq![x] + c)[0] == x);
    assert((seq![x] + c).drop_first() =~= c);
}

/// The other direction of the inversion: whatever the string parser accepts
/// is exactly an escaped content followed by its closing quote.
pub proof fn lemma_parse_str_sound(b: Seq<u8>)
    ensures
        parse_str_body(b) matches Some(r) ==> {
            &&& 1 <= r.1 <= b.len()
            &&& b.subrange(0, r.1) == json_escape(r.0) + seq![34u8]
        },
    decreases b.len(),
{
    if b.len() == 0 {
    } else if b[0] == 34 {
        assert(b.subrange(0, 1) =~= json_escape(Seq::<u8>::empty()) + seq![34u8]);
    } else if b[0] == 92 {
        if b.len() < 2 {
        } else if b[1] == 34 || b[1] == 92 {
            lemma_parse_str_sound(b.skip(2));
            match parse_str_body(b.skip(2)) {
                None => {},
                Some(r2) => {
                lemma_json_escape_cons(b[1], r2.0);
                assert(esc_byte(b[1]) =~= seq![92u8, b[1]]);
                assert(b.subrange(0, 2 + r2.1) =~= seq![92u8, b[1]] + b.skip(2).subrange(
                    0,
                    r2.1,
                ));
                assert(b.subrange(0, 2 + r2.1) =~= json_escape(seq![b[1]] + r2.0) + seq![34u8]);
                },
            }
        } else if b[1] == 117 {
            if b.len() >= 6 && b[2] == 48 && b[3] == 48 && hex_value(b[4]) is Some && hex_value(
                b[5],
            ) is Some {
                let hv = hex_value(b[4]).unwrap();
                let lv = hex_value(b[5]).unwrap();
                let v = (16 * hv + lv) as u8;
                if v < 32 {
                    lemma_parse_str_sound(b.skip(6));
                    match parse_str_body(b.skip(6)) {
                        None => {},
                        Some(r2) => {
                        lemma_json_escape_cons(v, r2.0);
                        assert(v / 16 == hv && v % 16 == lv);
                        assert(hex_digit(v / 16) == b[4] && hex_digit(v % 16) == b[5]);
                        assert(esc_byte(v) =~= seq![92u8, 117u8, 48u8, 48u8, b[4], b[5]]);
                        assert(b.subrange(0, 6 + r2.1) =~= seq![
                            92u8,
                            117u8,
                            48u8,
                            48u8,
                            b[4],
                            b[5],
                        ] + b.skip(6).subrange(0, r2.1));
                        assert(b.subrange(0, 6 + r2.1) =~= json_escape(seq![v] + r2.0) + seq![
                            34u8,
                        ]);
                        },
                    }
                }
            }
        }
    } else if b[0] < 32 {
    } else {
        lemma_parse_str_sound(b.skip(1));
        match parse_str_body(b.skip(1)) {
            None => {},
            Some(r2) => {
            lemma_json_escape_cons(b[0], r2.0);
            assert(esc_byte(b[0]) =~= seq![b[0]]);
            assert(b.subrange(0, 1 + r2.1) =~= seq![b[0]] + b.skip(1).subrange(0, r2.1));
            assert(b.subrange(0, 1 + r2.1) =~= json_escape(seq![b[0]] + r2.0) + seq![34u8]);
            },
        }
    }
}

/// The executable value of an ASCII hexadecimal digit.
fn hex_value_exec(c: u8) -> (r: Option<u8>)
    ensures
        r == hex_value(c),
{
    if 48 <= c && c <= 57 {
        Some(c - 48)
    } else if 97 <= c && c <= 102 {
        Some(c - 87)
    } else {
        None
    }
}

/// Parses an escaped string body of `b` starting at `pos`, as
/// [`parse_str_body`] describes, returning the content and the number of
/// bytes consumed.
fn parse_str_from(b: &[u8], pos: usize) -> (r: Option<(Vec<u8>, usize)>)
    requires
        pos <= b@.len(),
    ensures
        match r {
            Some(c) => {
                &&& parse_str_body(b@.skip(pos as int)) == Some((c.0@, c.1 as int))
                &&& pos + c.1 <= b@.len()
            },
            None => parse_str_body(b@.skip(pos as int)) is None,
        },
    decreases b@.len() - pos,
{
    let ghost rem = b@.skip(pos as int);
    if pos == b.len() {
        return None;
    }
    let c0 = b[pos];
    assert(rem[0] == c0);
    if c0 == 34 {
        Some((Vec::new(), 1))
    } else if c0 == 92 {
        if pos + 1 == b.len() {
            assert(rem.len() < 2);
            return None;
        }
        let c1 = b[pos + 1];
        assert(rem[1] == c1);
        if c1 == 34 || c1 == 92 {
            assert(rem.skip(2) =~= b@.skip(pos + 2));
            match parse_str_from(b, pos + 2) {
                Some((tail, n)) => {
                    let mut v: Vec<u8> = Vec::new();
                    v.push(c1);
                    let mut tail = tail;
                    v.append(&mut tail);
                    assert(v@ =~= seq![rem[1]] + parse_str_body(rem.skip(2)).unwrap().0);
                    Some((v, 2 + n))
                },
                None => None,
            }
        } else if c1 == 117 {
            if b.len() - pos < 6 {
                assert(rem.len() < 6);
                return None;
            }
            assert(rem[2] == b@[pos + 2] && rem[3] == b@[pos + 3] && rem[4] == b@[pos + 4]
                && rem[5] == b@[pos + 5]);
            if b[pos + 2] != 48 || b[pos + 3] != 48 {
                return None;
            }
            let h = hex_value_exec(b[pos + 4]);
            let l = hex_value_exec(b[pos + 5]);
            match (h, l) {
                (Some(hv), Some(lv)) => {
                    let val = 16 * hv + lv;
                    if val < 32 {
                        assert(rem.skip(6) =~= b@.skip(pos + 6));
                        match parse_str_from(b, pos + 6) {
                            Some((tail, n)) => {
                                let mut v: Vec<u8> = Vec::new();
                                v.push(val);
                                let mut tail = tail;
                                v.append(&mut tail);
                                assert(v@ =~= seq![val] + parse_str_body(rem.skip(6)).unwrap().0);
                                Some((v, 6 + n))
                            },
                            None => None,
                        }
                    } else {
                        None
                    }
                },
                _ => None,
            }
        } else {
            None
        }
    } else if c0 < 32 {
        None
    } else {
        assert(rem.skip(1) =~= b@.skip(pos + 1));
        match parse_str_from(b, pos + 1) {
            Some((tail, n)) => {
                let mut v: Vec<u8> = Vec::new();
                v.push(c0);
                let mut tail = tail;
                v.append(&mut tail);
                assert(v@ =~= seq![rem[0]] + parse_str_body(rem.skip(1)).unwrap().0);
                Some((v, 1 + n))
            },
            None => None,
        }
    }
}

/// The opening of a record, up to and including the quote that starts the
/// URL value: `{"server_url":"`.
pub open spec fn rec_pre() -> Seq<u8> {
    "{\"server_url\":\"".spec_bytes()
}

/// The middle of a record, from just after the quote that closes the URL
/// value to the quote that starts the token value: `,"api_token":"`.
pub open spec fn rec_mid() -> Seq<u8> {
    ",\"api_token\":\"".spec_bytes()
}

/// The closing brace that follows the quote ending the token value.
pub open spec fn rec_end() -> Seq<u8> {
    "}".spec_bytes()
}

/// The canonical encoding of a credential record from the UTF-8 bytes of its
/// two fields.
pub open spec fn record_bytes(u: Seq<u8>, t: Seq<u8>) -> Seq<u8> {
    rec_pre() + json_escape(u) + seq![34u8] + rec_mid() + json_escape(t) + seq![34u8] + rec_end()
}

/// Parses a whole record: the URL bytes and the token bytes of the one
/// document shape the encoder produces, or nothing.
pub open spec fn parse_record(b: Seq<u8>) -> Option<(Seq<u8>, Seq<u8>)> {
    if b.len() < rec_pre().len() || b.subrange(0, rec_pre().len() as int) != rec_pre() {
        None
    } else {
        match parse_str_body(b.skip(rec_pre().len() as int)) {
            None => None,
            Some(u) => {
                let r1 = b.skip(rec_pre().len() as int + u.1);
                if r1.len() < rec_mid().len() || r1.subrange(0, rec_mid().len() as int)
                    != rec_mid() {
                    None
                } else {
                    match parse_str_body(r1.skip(rec_mid().len() as int)) {
                        None => None,
                        Some(t) => {
                            let r2 = r1.skip(rec_mid().len() as int + t.1);
                            if r2 == rec_end() {
                                Some((u.0, t.0))
                            } else {
                                None
                            }
                        },
                    }
                }
            },
        }
    }
}

/// Parsing a freshly encoded record yields exactly the two fields that went
/// in: the record codec loses nothing.
pub proof fn lemma_record_round_trip(u: Seq<u8>, t: Seq<u8>)
    ensures
        parse_record(record_bytes(u, t)) == Some((u, t)),
{
    let b = record_bytes(u, t);
    let rest1 = rec_mid() + json_escape(t) + seq![34u8] + rec_end();
    assert(b =~= rec_pre() + (json_escape(u) + seq![34u8] + rest1));
    assert(b.len() >= rec_pre().len());
    assert(b.subrange(0, rec_pre().len() as int) =~= rec_pre());
    assert(b.skip(rec_pre().len() as int) =~= json_escape(u) + seq![34u8] + rest1);
    lemma_parse_escape(u, rest1);
    let n1 = json_escape(u).len() + 1 as int;
    assert(parse_str_body(b.skip(rec_pre().len() as int)) == Some((u, n1)));
    let r1 = b.skip(rec_pre().len() as int + n1);
    assert(r1 =~= rest1);
    assert(r1.subrange(0, rec_mid().len() as int) =~= rec_mid());
    let rest2 = rec_end();
    assert(r1.skip(rec_mid().len() as int) =~= json_escape(t) + seq![34u8] + rest2);
    lemma_parse_escape(t, rest2);
    let n2 = json_escape(t).len() + 1 as int;
    assert(parse_str_body(r1.skip(rec_mid().len() as int)) == Some((t, n2)));
    let r2 = r1.skip(rec_mid().len() as int + n2);
    assert(r2 =~= rec_end());
}

/// The parser accepts nothing but canonical records: whatever it yields, the
/// input was exactly the encoding of that very pair of fields.
pub proof fn lemma_record_parse_sound(b: Seq<u8>)
    ensures
        parse_record(b) matches Some(c) ==> b == record_bytes(c.0, c.1),
{
    let pn = rec_pre().len() as int;
    if b.len() >= pn && b.subrange(0, pn) == rec_pre() {
        lemma_parse_str_sound(b.skip(pn));
        match parse_str_body(b.skip(pn)) {
            None => {},
            Some(u) => {
                let r1 = b.skip(pn + u.1);
                let mn = rec_mid().len() as int;
                if r1.len() >= mn && r1.subrange(0, mn) == rec_mid() {
                    lemma_parse_str_sound(r1.skip(mn));
                    match parse_str_body(r1.skip(mn)) {
                        None => {},
                        Some(t) => {
                            let r2 = r1.skip(mn + t.1);
                            if r2 == rec_end() {
                                assert(b.subrange(pn, pn + u.1) =~= b.skip(pn).subrange(0, u.1));
                                assert(b.subrange(pn + u.1, pn + u.1 + mn) =~= r1.subrange(0, mn));
                                assert(b.subrange(pn + u.1 + mn, pn + u.1 + mn + t.1)
                                    =~= r1.skip(mn).subrange(0, t.1));
                                assert(b.subrange(pn + u.1 + mn + t.1, b.len() as int) =~= r2);
                                assert(b.len() == pn + u.1 + mn + t.1 + rec_end().len());
                                let eu = json_escape(u.0) + seq![34u8];
                                let et = json_escape(t.0) + seq![34u8];
                                assert(forall|k: int|
                                    0 <= k < pn ==> b[k] == #[trigger] rec_pre()[k]);
                                assert(forall|k: int|
                                    0 <= k < u.1 ==> b[pn + k] == #[trigger] eu[k]);
                                assert(forall|k: int|
                                    0 <= k < mn ==> b[pn + u.1 + k] == #[trigger] rec_mid()[k]);
                                assert(forall|k: int|
                                    0 <= k < t.1 ==> b[pn + u.1 + mn + k] == #[trigger] et[k]);
                                assert(forall|k: int|
                                    0 <= k < rec_end().len() ==> b[pn + u.1 + mn + t.1 + k]
                                        == #[trigger] rec_end()[k]);
                                assert(b =~= rec_pre() + eu + rec_mid() + et + rec_end());
                                assert(rec_pre() + eu + rec_mid() + et + rec_end()
                                    =~= record_bytes(u.0, t.0));
                            }
                        },
                    }
                }
            },
        }
    }
}

/// Encodes a credential record from the UTF-8 bytes of its two fields.
pub fn encode_record(u: &[u8], t: &[u8]) -> (r: Vec<u8>)
    ensures
        r@ == record_bytes(u@, t@),
{
    let mut out: Vec<u8> = Vec::new();
    out.extend_from_slice("{\"server_url\":\"".as_bytes());
    escape_into(&mut out, u);
    out.push(34);
    out.extend_from_slice(",\"api_token\":\"".as_bytes());
    escape_into(&mut out, t);
    out.push(34);
    out.extend_from_slice("}".as_bytes());
    proof {
        assert(out@ =~= record_bytes(u@, t@));
    }
    out
}

/// True when `pre` occurs in `b` starting at `pos`.
fn has_prefix_at(b: &[u8], pos: usize, pre: &[u8]) -> (r: bool)
    requires
        pos <= b@.len(),
    ensures
        r <==> (pos + pre@.len() <= b@.len() && b@.subrange(
            pos as int,
            pos as int + pre@.len() as int,
        ) == pre@),
{
    if b.len() - pos < pre.len() {
        return false;
    }
    let blen = b.len();
    let mut i: usize = 0;
    while i < pre.len()
        invariant
            i <= pre@.len(),
            pos + pre@.len() <= b@.len(),
            blen == b@.len(),
            forall|j: int| 0 <= j < i ==> b@[pos + j] == pre@[j],
        decreases pre@.len() - i,
    {
        if b[pos + i] != pre[i] {
            assert(b@.subrange(pos as int, pos as int + pre@.len() as int)[i as int]
                != pre@[i as int]);
            return false;
        }
        i = i + 1;
    }
    assert(b@.subrange(pos as int, pos as int + pre@.len() as int) =~= pre@);
    true
}

/// Parses a record blob into its URL bytes and token bytes, exactly as
/// [`parse_record`] describes.
pub fn parse_record_bytes(b: &[u8]) -> (r: Option<(Vec<u8>, Vec<u8>)>)
    ensures
        match r {
            Some(c) => parse_record(b@) == Some((c.0@, c.1@)),
            None => parse_record(b@) is None,
        },
{
    let pre = "{\"server_url\":\"".as_bytes();
    let mid = ",\"api_token\":\"".as_bytes();
    let end = "}".as_bytes();
    assert(pre@ == rec_pre() && mid@ == rec_mid() && end@ == rec_end());
    let blen = b.len();
    if !has_prefix_at(b, 0, pre) {
        return None;
    }
    assert(b@.subrange(0, rec_pre().len() as int) == rec_pre());
    let p1 = pre.len();
    assert(b@.skip(p1 as int) =~= b@.skip(rec_pre().len() as int));
    let (u, n1) = match parse_str_from(b, p1) {
        Some(c) => c,
        None => {
            return None;
        },
    };
    let p2 = p1 + n1;
    proof {
        assert(b@.skip(p2 as int) =~= b@.skip(rec_pre().len() as int).skip(n1 as int));
        if p2 + rec_mid().len() <= blen {
            assert(b@.skip(p2 as int).subrange(0, rec_mid().len() as int) =~= b@.subrange(
                p2 as int,
                p2 as int + rec_mid().len() as int,
            ));
        } else {
            assert(b@.skip(p2 as int).len() < rec_mid().len());
        }
    }
    if !has_prefix_at(b, p2, mid) {
        return None;
    }
    let p3 = p2 + mid.len();
    assert(b@.skip(p3 as int) =~= b@.skip(p2 as int).skip(rec_mid().len() as int));
    let (t, n2) = match parse_str_from(b, p3) {
        Some(c) => c,
        None => {
            return None;
        },
    };
    let p4 = p3 + n2;
    assert(b@.skip(p2 as int).skip(rec_mid().len() as int + n2 as int) =~= b@.skip(p4 as int));
    if b.len() - p4 == end.len() && has_prefix_at(b, p4, end) {
        assert(b@.skip(p4 as int) =~= b@.subrange(p4 as int, p4 as int + rec_end().len() as int));
        Some((u, t))
    } else {
        proof {
            if b@.len() - p4 == rec_end().len() {
                assert(b@.skip(p4 as int) =~= b@.subrange(
                    p4 as int,
                    p4 as int + rec_end().len() as int,
                ));
            } else {
                assert(b@.skip(p4 as int).len() != rec_end().len());
            }
            assert(b@.skip(p4 as int) != rec_end());
        }
        None
    }
}

} // verus!
