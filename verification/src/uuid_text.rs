//! Text forms of UUIDs: what the `uuid` crate accepts and what it writes.
use vstd::prelude::*;
use std::str::FromStr;
use crate::text::{hex_byte, hex_digit, hex_lower, push_hex};

verus! {

pub open spec fn is_hex_char(c: char) -> bool {
    ('0' <= c && c <= '9') || ('a' <= c && c <= 'f') || ('A' <= c && c <= 'F')
}

pub open spec fn hex_value(c: char) -> nat {
    if '0' <= c && c <= '9' {
        (c as nat - '0' as nat) as nat
    } else if 'a' <= c && c <= 'f' {
        (c as nat - 'a' as nat + 10) as nat
    } else {
        (c as nat - 'A' as nat + 10) as nat
    }
}

pub open spec fn is_hyphen_position(i: int) -> bool {
    i == 8 || i == 13 || i == 18 || i == 23
}

/// `xxxxxxxx-xxxx-xxxx-xxxx-xxxxxxxxxxxx` with hexadecimal digits of either case.
pub open spec fn is_hyphenated_form(s: Seq<char>) -> bool {
    &&& s.len() == 36
    &&& forall|i: int| 0 <= i < 36 ==> if is_hyphen_position(i) { s[i] == '-' } else { is_hex_char(#[trigger] s[i]) }
}

/// Thirty-two hexadecimal digits of either case.
pub open spec fn is_simple_form(s: Seq<char>) -> bool {
    &&& s.len() == 32
    &&& forall|i: int| 0 <= i < 32 ==> is_hex_char(#[trigger] s[i])
}

pub open spec fn ascii_lower(c: char) -> char {
    if 'A' <= c && c <= 'Z' { ((c as u32) + 32) as char } else { c }
}

/// `urn:uuid:` in any mix of letter cases.
pub open spec fn is_urn_prefix(s: Seq<char>) -> bool {
    &&& s.len() == 9
    &&& forall|i: int| 0 <= i < 9 ==> ascii_lower(#[trigger] s[i]) == seq!['u', 'r', 'n', ':', 'u', 'u', 'i', 'd', ':'][i]
}

/// The thirty-two digits of a hyphenated form, hyphens left out.
pub open spec fn hyphenated_digits(s: Seq<char>) -> Seq<char> {
    s.subrange(0, 8) + s.subrange(9, 13) + s.subrange(14, 18) + s.subrange(19, 23) + s.subrange(24, 36)
}

/// The hexadecimal digits of a UUID written in one of the four forms that
/// `Uuid::parse_str` accepts (simple, hyphenated, braced, URN); `None` for other text.
pub open spec fn uuid_hex_digits(s: Seq<char>) -> Option<Seq<char>> {
    if is_simple_form(s) {
        Some(s)
    } else if is_hyphenated_form(s) {
        Some(hyphenated_digits(s))
    } else if s.len() == 38 && s[0] == '{' && s[37] == '}' && is_hyphenated_form(s.subrange(1, 37)) {
        Some(hyphenated_digits(s.subrange(1, 37)))
    } else if s.len() == 45 && is_urn_prefix(s.subrange(0, 9)) && is_hyphenated_form(s.subrange(9, 45)) {
        Some(hyphenated_digits(s.subrange(9, 45)))
    } else {
        None
    }
}

/// Pairs of hexadecimal digits read as bytes, high digit first.
pub open spec fn decode_hex(d: Seq<char>) -> Seq<u8> {
    Seq::new(d.len() / 2, |i: int| (hex_value(d[2 * i]) * 16 + hex_value(d[2 * i + 1])) as u8)
}

/// The sixteen bytes of the UUID that `text` denotes, or `None` where `text` is no UUID.
pub open spec fn parse_uuid_text(text: Seq<char>) -> Option<Seq<u8>> {
    match uuid_hex_digits(text) {
        Some(d) => Some(decode_hex(d)),
        None => None,
    }
}

/// The hyphenated lower-case form in which a `Uuid` displays itself.
pub open spec fn uuid_text(b: Seq<u8>) -> Seq<char> {
    hex_lower(b.subrange(0, 4)) + seq!['-'] + hex_lower(b.subrange(4, 6)) + seq!['-']
        + hex_lower(b.subrange(6, 8)) + seq!['-'] + hex_lower(b.subrange(8, 10)) + seq!['-']
        + hex_lower(b.subrange(10, 16))
}

/// Calls `Uuid::from_str` and hands back the bytes of the parsed UUID.
/// Trusted: the result is `Some` exactly for text in one of the four forms the
/// crate's parser accepts (32 hexadecimal digits; the hyphenated form; the
/// hyphenated form in braces; the hyphenated form after a case-insensitive
/// `urn:uuid:`), and holds the bytes the digits spell, two digits a byte.
#[verifier::external_body]
pub fn parse_uuid(text: &str) -> (r: Option<[u8; 16]>)
    ensures
        r is Some <==> parse_uuid_text(text@) is Some,
        r matches Some(b) ==> b@ == parse_uuid_text(text@)->0,
{
    match uuid::Uuid::from_str(text) {
        Ok(id) => Some(*id.as_bytes()),
        Err(_) => None,
    }
}

/// Sixteen bytes that carry the version 4 nibble (high nibble of byte 6) and
/// the `10` variant bits (top of byte 8), as a random UUID does.
pub open spec fn is_v4_uuid(b: Seq<u8>) -> bool {
    &&& b.len() == 16
    &&& b[6] / 16 == 4
    &&& b[8] / 64 == 2
}

/// Calls `Uuid::new_v4` and hands back its bytes.
/// Trusted: the bytes are random; the crate sets the version nibble (high
/// nibble of byte 6) to 4 and the two variant bits (top of byte 8) to `10`.
#[verifier::external_body]
pub fn new_random_uuid() -> (r: [u8; 16])
    ensures
        r[6] / 16 == 4,
        r[8] / 64 == 2,
{
    *uuid::Uuid::new_v4().as_bytes()
}

/// The hyphenated lower-case text of a UUID, as `Uuid`'s `Display` writes it.
pub fn uuid_to_string(bytes: &[u8; 16]) -> (res: String)
    ensures
        res@ == uuid_text(bytes@),
{
    let b: &[u8] = bytes.as_slice();
    let mut res = String::new();
    push_hex(&mut res, b, 0, 4);
    res.push('-');
    push_hex(&mut res, b, 4, 6);
    res.push('-');
    push_hex(&mut res, b, 6, 8);
    res.push('-');
    push_hex(&mut res, b, 8, 10);
    res.push('-');
    push_hex(&mut res, b, 10, 16);
    res
}

/// The canonical text of the UUID written in `text`: what
/// `Uuid::from_str(text).unwrap().to_string()` gives.
pub fn canonical_uuid(text: &str) -> (res: Option<String>)
    ensures
        res is Some <==> parse_uuid_text(text@) is Some,
        res matches Some(s) ==> s@ == uuid_text(parse_uuid_text(text@)->0),
{
    match parse_uuid(text) {
        Some(b) => Some(uuid_to_string(&b)),
        None => None,
    }
}

pub proof fn lemma_hex_digit_value(d: nat)
    requires
        d < 16,
    ensures
        is_hex_char(hex_digit(d)),
        hex_value(hex_digit(d)) == d,
        'a' <= hex_digit(d) <= 'f' || '0' <= hex_digit(d) <= '9',
{
}

proof fn lemma_hex_value_digit(c: char)
    requires
        ('0' <= c && c <= '9') || ('a' <= c && c <= 'f'),
    ensures
        hex_value(c) < 16,
        hex_digit(hex_value(c)) == c,
{
}

pub proof fn lemma_hex_lower_shape(b: Seq<u8>)
    ensures
        hex_lower(b).len() == 2 * b.len(),
        forall|i: int| 0 <= i < b.len() ==> #[trigger] hex_lower(b)[2 * i] == hex_digit((b[i] / 16) as nat),
        forall|i: int| 0 <= i < b.len() ==> #[trigger] hex_lower(b)[2 * i + 1] == hex_digit((b[i] % 16) as nat),
    decreases b.len(),
{
    if b.len() > 0 {
        lemma_hex_lower_shape(b.drop_last());
        let h = hex_lower(b);
        assert(h == hex_lower(b.drop_last()) + hex_byte(b.last()));
        assert forall|i: int| 0 <= i < b.len() implies #[trigger] h[2 * i] == hex_digit((b[i] / 16) as nat) by {
            if i < b.len() - 1 {
                assert(b.drop_last()[i] == b[i]);
            }
        }
        assert forall|i: int| 0 <= i < b.len() implies #[trigger] h[2 * i + 1] == hex_digit((b[i] % 16) as nat) by {
            if i < b.len() - 1 {
                assert(b.drop_last()[i] == b[i]);
            }
        }
    }
}

proof fn lemma_hex_lower_concat(a: Seq<u8>, c: Seq<u8>)
    ensures
        hex_lower(a + c) == hex_lower(a) + hex_lower(c),
    decreases c.len(),
{
    if c.len() == 0 {
        assert(a + c =~= a);
    } else {
        lemma_hex_lower_concat(a, c.drop_last());
        assert((a + c).drop_last() =~= a + c.drop_last());
        assert((a + c).last() == c.last());
    }
}

proof fn lemma_hex_lower_of_parts(b: Seq<u8>)
    requires
        b.len() == 16,
    ensures
        hex_lower(b) == hex_lower(b.subrange(0, 4)) + hex_lower(b.subrange(4, 6)) + hex_lower(b.subrange(6, 8))
            + hex_lower(b.subrange(8, 10)) + hex_lower(b.subrange(10, 16)),
{
    lemma_hex_lower_concat(b.subrange(0, 4), b.subrange(4, 6));
    assert(b.subrange(0, 4) + b.subrange(4, 6) =~= b.subrange(0, 6));
    lemma_hex_lower_concat(b.subrange(0, 6), b.subrange(6, 8));
    assert(b.subrange(0, 6) + b.subrange(6, 8) =~= b.subrange(0, 8));
    lemma_hex_lower_concat(b.subrange(0, 8), b.subrange(8, 10));
    assert(b.subrange(0, 8) + b.subrange(8, 10) =~= b.subrange(0, 10));
    lemma_hex_lower_concat(b.subrange(0, 10), b.subrange(10, 16));
    assert(b.subrange(0, 10) + b.subrange(10, 16) =~= b);
}

proof fn lemma_decode_hex_lower(b: Seq<u8>)
    ensures
        decode_hex(hex_lower(b)) == b,
{
    lemma_hex_lower_shape(b);
    let h = hex_lower(b);
    assert forall|i: int| 0 <= i < b.len() implies #[trigger] decode_hex(h)[i] == b[i] by {
        assert(h[2 * i] == hex_digit((b[i] / 16) as nat));
        lemma_hex_digit_value((b[i] / 16) as nat);
        lemma_hex_digit_value((b[i] % 16) as nat);
    }
    assert(decode_hex(h) =~= b);
}

proof fn lemma_uuid_text_shape(b: Seq<u8>)
    requires
        b.len() == 16,
    ensures
        uuid_text(b).len() == 36,
        forall|i: int| 0 <= i < 36 ==> if is_hyphen_position(i) { uuid_text(b)[i] == '-' } else {
            ('0' <= #[trigger] uuid_text(b)[i] && uuid_text(b)[i] <= '9') || ('a' <= uuid_text(b)[i] && uuid_text(b)[i] <= 'f')
        },
{
    let t = uuid_text(b);
    lemma_hex_lower_shape(b.subrange(0, 4));
    lemma_hex_lower_shape(b.subrange(4, 6));
    lemma_hex_lower_shape(b.subrange(6, 8));
    lemma_hex_lower_shape(b.subrange(8, 10));
    lemma_hex_lower_shape(b.subrange(10, 16));
    assert forall|i: int| 0 <= i < 36 implies if is_hyphen_position(i) { t[i] == '-' } else {
        ('0' <= #[trigger] t[i] && t[i] <= '9') || ('a' <= t[i] && t[i] <= 'f')
    } by {
        if !is_hyphen_position(i) {
            let (part, j): (Seq<u8>, int) =
                if i < 8 { (b.subrange(0, 4), i) }
                else if i < 13 { (b.subrange(4, 6), i - 9) }
                else if i < 18 { (b.subrange(6, 8), i - 14) }
                else if i < 23 { (b.subrange(8, 10), i - 19) }
                else { (b.subrange(10, 16), i - 24) };
            assert(t[i] == hex_lower(part)[j]);
            let k = j / 2;
            if j % 2 == 0 {
                assert(hex_lower(part)[2 * k] == hex_digit((part[k] / 16) as nat));
                lemma_hex_digit_value((part[k] / 16) as nat);
            } else {
                assert(hex_lower(part)[2 * k + 1] == hex_digit((part[k] % 16) as nat));
                lemma_hex_digit_value((part[k] % 16) as nat);
            }
        }
    }
}

/// A UUID's displayed text parses back to the same sixteen bytes.
pub proof fn lemma_uuid_text_parses_back(b: Seq<u8>)
    requires
        b.len() == 16,
    ensures
        parse_uuid_text(uuid_text(b)) == Some(b),
{
    let t = uuid_text(b);
    lemma_uuid_text_shape(b);
    assert forall|i: int| 0 <= i < 36 implies if is_hyphen_position(i) { t[i] == '-' } else { is_hex_char(#[trigger] t[i]) } by {
        assert(if is_hyphen_position(i) { t[i] == '-' } else {
            ('0' <= t[i] && t[i] <= '9') || ('a' <= t[i] && t[i] <= 'f') });
    }
    assert(is_hyphenated_form(t));
    assert(!is_simple_form(t));
    lemma_hex_lower_of_parts(b);
    lemma_hex_lower_shape(b.subrange(0, 4));
    lemma_hex_lower_shape(b.subrange(4, 6));
    lemma_hex_lower_shape(b.subrange(6, 8));
    lemma_hex_lower_shape(b.subrange(8, 10));
    lemma_hex_lower_shape(b.subrange(10, 16));
    assert(t.subrange(0, 8) =~= hex_lower(b.subrange(0, 4)));
    assert(t.subrange(9, 13) =~= hex_lower(b.subrange(4, 6)));
    assert(t.subrange(14, 18) =~= hex_lower(b.subrange(6, 8)));
    assert(t.subrange(19, 23) =~= hex_lower(b.subrange(8, 10)));
    assert(t.subrange(24, 36) =~= hex_lower(b.subrange(10, 16)));
    assert(hyphenated_digits(t) =~= hex_lower(b));
    lemma_decode_hex_lower(b);
}

/// Text in the hyphenated form with lower-case digits: the form `Uuid` displays.
pub open spec fn is_canonical_uuid_text(t: Seq<char>) -> bool {
    &&& is_hyphenated_form(t)
    &&& forall|i: int| 0 <= i < 36 && !is_hyphen_position(i) ==> !('A' <= #[trigger] t[i] && t[i] <= 'F')
}

/// A UUID's displayed text is canonical.
pub proof fn lemma_uuid_text_canonical(b: Seq<u8>)
    requires
        b.len() == 16,
    ensures
        is_canonical_uuid_text(uuid_text(b)),
{
    let t = uuid_text(b);
    lemma_uuid_text_parses_back(b);
    lemma_uuid_text_shape(b);
    assert forall|i: int| 0 <= i < 36 && !is_hyphen_position(i) implies !('A' <= #[trigger] t[i] && t[i] <= 'F') by {
        assert(('0' <= t[i] && t[i] <= '9') || ('a' <= t[i] && t[i] <= 'f'));
    }
}

/// Canonical UUID text comes back unchanged through parsing and display.
pub proof fn lemma_canonical_uuid_text_unchanged(t: Seq<char>)
    requires
        is_canonical_uuid_text(t),
    ensures
        parse_uuid_text(t) is Some,
        uuid_text(parse_uuid_text(t)->0) == t,
{
    assert(!is_simple_form(t));
    let d = hyphenated_digits(t);
    let b = decode_hex(d);
    assert(d.len() == 32);
    assert forall|i: int| 0 <= i < 32 implies ('0' <= #[trigger] d[i] && d[i] <= '9') || ('a' <= d[i] && d[i] <= 'f') by {
        let p = if i < 8 { i } else if i < 12 { i + 1 } else if i < 16 { i + 2 } else if i < 20 { i + 3 } else { i + 4 };
        assert(d[i] == t[p]);
        assert(is_hex_char(t[p]));
    }
    assert(hex_lower(b) =~= d) by {
        lemma_hex_lower_shape(b);
        assert forall|j: int| 0 <= j < 32 implies hex_lower(b)[j] == d[j] by {
            let k = j / 2;
            lemma_hex_value_digit(d[2 * k]);
            lemma_hex_value_digit(d[2 * k + 1]);
            assert(b[k] == (hex_value(d[2 * k]) * 16 + hex_value(d[2 * k + 1])) as u8);
            assert(b[k] / 16 == hex_value(d[2 * k]));
            assert(b[k] % 16 == hex_value(d[2 * k + 1]));
            if j % 2 == 0 {
                assert(hex_lower(b)[2 * k] == hex_digit((b[k] / 16) as nat));
            } else {
                assert(hex_lower(b)[2 * k + 1] == hex_digit((b[k] % 16) as nat));
            }
        }
    }
    lemma_hex_lower_of_parts(b);
    assert(uuid_text(b) =~= t) by {
        lemma_hex_lower_shape(b.subrange(0, 4));
        lemma_hex_lower_shape(b.subrange(4, 6));
        lemma_hex_lower_shape(b.subrange(6, 8));
        lemma_hex_lower_shape(b.subrange(8, 10));
        lemma_hex_lower_shape(b.subrange(10, 16));
        let h = hex_lower(b);
        assert(h.subrange(0, 8) =~= hex_lower(b.subrange(0, 4)));
        assert(h.subrange(8, 12) =~= hex_lower(b.subrange(4, 6)));
        assert(h.subrange(12, 16) =~= hex_lower(b.subrange(6, 8)));
        assert(h.subrange(16, 20) =~= hex_lower(b.subrange(8, 10)));
        assert(h.subrange(20, 32) =~= hex_lower(b.subrange(10, 16)));
    }
}

} // verus!
