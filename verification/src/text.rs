//! Character-level helpers shared by the formatting code of the crate.
use vstd::prelude::*;

verus! {

/// `String::push`: trusted to append the character at the end, as std
/// documents.
pub assume_specification[ String::push ](string: &mut String, ch: char)
    ensures
        final(string)@ == old(string)@.push(ch),
;

/// `String::pop`: trusted to remove and hand back the last character, and to
/// hand back `None` and leave an empty string as it is, as std documents.
pub assume_specification[ String::pop ](string: &mut String) -> (r: Option<char>)
    ensures
        old(string)@.len() == 0 ==> r is None && final(string)@ == old(string)@,
        old(string)@.len() > 0 ==> r == Some(old(string)@.last()) && final(string)@ == old(string)@.drop_last(),
;

/// The characters of `s` with every `from` replaced by `to`.
pub open spec fn replace_char(s: Seq<char>, from: char, to: char) -> Seq<char> {
    Seq::new(s.len(), |i: int| if s[i] == from { to } else { s[i] })
}

/// Copies `s`, writing `to` in place of each `from`.
pub fn replaced(s: &str, from: char, to: char) -> (res: String)
    ensures
        res@ == replace_char(s@, from, to),
{
    let mut res = String::new();
    for c in it: s.chars()
        invariant
            it.seq() == s@,
            res@ == replace_char(s@.take(it.index() as int), from, to),
    {
        assert(c == s@[it.index() as int]);
        if c == from {
            res.push(to);
        } else {
            res.push(c);
        }
        assert(replace_char(s@.take(it.index() + 1), from, to) =~= res@);
    }
    assert(s@.take(s@.len() as int) =~= s@);
    res
}

/// The decimal digit character for `d` (`d < 10`).
pub open spec fn digit_char(d: nat) -> char {
    if d == 0 { '0' }
    else if d == 1 { '1' }
    else if d == 2 { '2' }
    else if d == 3 { '3' }
    else if d == 4 { '4' }
    else if d == 5 { '5' }
    else if d == 6 { '6' }
    else if d == 7 { '7' }
    else if d == 8 { '8' }
    else { '9' }
}

/// The shortest decimal notation of `n`.
pub open spec fn decimal(n: nat) -> Seq<char>
    decreases n,
{
    if n < 10 {
        seq![digit_char(n)]
    } else {
        decimal(n / 10).push(digit_char(n % 10))
    }
}

/// `s` with zeros in front up to `width` characters.
pub open spec fn zero_pad(s: Seq<char>, width: nat) -> Seq<char> {
    if s.len() >= width {
        s
    } else {
        Seq::new((width - s.len()) as nat, |i: int| '0') + s
    }
}

/// What `format!("{:0w$}", v)` writes for an integer `v`: the sign, then zeros,
/// then the digits, at least `width` characters in all.
pub open spec fn padded_decimal(v: int, width: nat) -> Seq<char> {
    if v < 0 {
        seq!['-'] + zero_pad(decimal((-v) as nat), if width >= 1 { (width - 1) as nat } else { 0 })
    } else {
        zero_pad(decimal(v as nat), width)
    }
}

pub fn digit(d: u64) -> (c: char)
    requires
        d < 10,
    ensures
        c == digit_char(d as nat),
{
    if d == 0 { '0' }
    else if d == 1 { '1' }
    else if d == 2 { '2' }
    else if d == 3 { '3' }
    else if d == 4 { '4' }
    else if d == 5 { '5' }
    else if d == 6 { '6' }
    else if d == 7 { '7' }
    else if d == 8 { '8' }
    else { '9' }
}

pub proof fn lemma_decimal_len(n: nat)
    ensures
        decimal(n).len() >= 1,
        n < 10 ==> decimal(n).len() == 1,
        10 <= n < 100 ==> decimal(n).len() == 2,
        100 <= n < 1000 ==> decimal(n).len() == 3,
        1000 <= n < 10000 ==> decimal(n).len() == 4,
    decreases n,
{
    if n >= 10 {
        lemma_decimal_len(n / 10);
    }
}

pub proof fn lemma_decimal_digits(n: nat)
    ensures
        forall|i: int| 0 <= i < decimal(n).len() ==> '0' <= #[trigger] decimal(n)[i] <= '9',
    decreases n,
{
    if n >= 10 {
        lemma_decimal_digits(n / 10);
        let d = decimal(n);
        assert forall|i: int| 0 <= i < d.len() implies '0' <= #[trigger] d[i] <= '9' by {
            if i < d.len() - 1 {
                assert(d[i] == decimal(n / 10)[i]);
            }
        }
    }
}

/// The decimal digits of `n`.
pub fn decimal_string(n: u64) -> (res: String)
    ensures
        res@ == decimal(n as nat),
{
    let mut digits: Vec<char> = Vec::new();
    if n == 0 {
        digits.push('0');
        assert(digits@.reverse() =~= seq!['0']);
    } else {
        let mut m: u64 = n;
        while m >= 10
            invariant
                1 <= m <= n,
                decimal(n as nat) == decimal(m as nat) + digits@.reverse(),
            decreases m,
        {
            let d = digit(m % 10);
            proof {
                assert(decimal(m as nat) == decimal((m / 10) as nat).push(d));
                assert(decimal((m / 10) as nat) + digits@.push(d).reverse()
                    =~= decimal((m / 10) as nat).push(d) + digits@.reverse());
            }
            digits.push(d);
            m = m / 10;
        }
        let d = digit(m);
        proof {
            assert(decimal(m as nat) == seq![d]);
            assert(seq![d] + digits@.reverse() =~= digits@.push(d).reverse());
        }
        digits.push(d);
    }
    assert(decimal(n as nat) == digits@.reverse());
    let mut res = String::new();
    let len = digits.len();
    let mut i: usize = len;
    while i > 0
        invariant
            i <= len == digits@.len(),
            res@ == digits@.subrange(i as int, len as int).reverse(),
        decreases i,
    {
        i = i - 1;
        res.push(digits[i]);
        assert(digits@.subrange(i as int, len as int).reverse()
            =~= digits@.subrange(i + 1, len as int).reverse().push(digits@[i as int]));
    }
    assert(digits@.subrange(0, len as int) =~= digits@);
    res
}

/// `format!("{:0w$}", v)` for a signed integer `v`.
pub fn padded_decimal_string(v: i64, width: usize) -> (res: String)
    ensures
        res@ == padded_decimal(v as int, width as nat),
{
    let negative = v < 0;
    let magnitude: u64 = if negative { ((-(v + 1)) as u64) + 1 } else { v as u64 };
    let digits = decimal_string(magnitude);
    let inner_width: usize = if negative { if width >= 1 { width - 1 } else { 0 } } else { width };
    let mut res = String::new();
    if negative {
        res.push('-');
    }
    let ghost start = res@;
    let dlen = digits.as_str().unicode_len();
    let mut k: usize = dlen;
    while k < inner_width
        invariant
            dlen <= k <= inner_width || (k == dlen && dlen >= inner_width),
            res@ == start + Seq::new((k - dlen) as nat, |i: int| '0'),
        decreases inner_width - k,
    {
        res.push('0');
        assert(start + Seq::new((k + 1 - dlen) as nat, |i: int| '0')
            =~= (start + Seq::new((k - dlen) as nat, |i: int| '0')).push('0'));
        k = k + 1;
    }
    let ghost zeros = res@;
    res.append(digits.as_str());
    proof {
        let z = zero_pad(decimal(magnitude as nat), inner_width as nat);
        if dlen >= inner_width {
            assert(Seq::new((k - dlen) as nat, |i: int| '0') =~= Seq::<char>::empty());
            assert(z == digits@);
        } else {
            assert(z =~= Seq::new((k - dlen) as nat, |i: int| '0') + digits@);
        }
        if negative {
            assert(res@ =~= seq!['-'] + z);
        } else {
            assert(res@ =~= z);
        }
    }
    res
}

/// The lower-case hexadecimal digit for `d` (`d < 16`).
pub open spec fn hex_digit(d: nat) -> char {
    if d < 10 { digit_char(d) }
    else if d == 10 { 'a' }
    else if d == 11 { 'b' }
    else if d == 12 { 'c' }
    else if d == 13 { 'd' }
    else if d == 14 { 'e' }
    else { 'f' }
}

/// The two lower-case hexadecimal digits of a byte, as `{:02x}` writes them.
pub open spec fn hex_byte(b: u8) -> Seq<char> {
    seq![hex_digit((b / 16) as nat), hex_digit((b % 16) as nat)]
}

/// The bytes in lower-case hexadecimal, two digits each.
pub open spec fn hex_lower(bytes: Seq<u8>) -> Seq<char>
    decreases bytes.len(),
{
    if bytes.len() == 0 {
        Seq::empty()
    } else {
        hex_lower(bytes.drop_last()) + hex_byte(bytes.last())
    }
}

pub fn hex_char(d: u8) -> (c: char)
    requires
        d < 16,
    ensures
        c == hex_digit(d as nat),
{
    if d < 10 {
        digit(d as u64)
    } else if d == 10 { 'a' }
    else if d == 11 { 'b' }
    else if d == 12 { 'c' }
    else if d == 13 { 'd' }
    else if d == 14 { 'e' }
    else { 'f' }
}

/// Appends the lower-case hexadecimal digits of `bytes[from..to]` to `out`.
pub fn push_hex(out: &mut String, bytes: &[u8], from: usize, to: usize)
    requires
        from <= to <= bytes@.len(),
    ensures
        final(out)@ == old(out)@ + hex_lower(bytes@.subrange(from as int, to as int)),
{
    let ghost start = out@;
    let mut i: usize = from;
    while i < to
        invariant
            from <= i <= to <= bytes@.len(),
            out@ == start + hex_lower(bytes@.subrange(from as int, i as int)),
        decreases to - i,
    {
        let b = bytes[i];
        out.push(hex_char(b / 16));
        out.push(hex_char(b % 16));
        proof {
            let sub = bytes@.subrange(from as int, i + 1);
            assert(sub.drop_last() =~= bytes@.subrange(from as int, i as int));
            assert(sub.last() == b);
            assert(out@ =~= start + hex_lower(sub));
        }
        i = i + 1;
    }
}

} // verus!
