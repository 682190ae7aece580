//! The number of the next local log file, as it is kept in the index file:
//! written in decimal, read back with the rules of `u16::from_str`.

use vstd::prelude::*;
use vstd::string::StringSliceAdditionalSpecFns;

verus! {

/// An ASCII decimal digit.
pub open spec fn is_digit_byte(b: u8) -> bool {
    48 <= b <= 57
}

pub open spec fn all_digits(s: Seq<u8>) -> bool {
    forall|i: int| 0 <= i < s.len() ==> is_digit_byte(#[trigger] s[i])
}

/// The value of a string of decimal digits, most significant first.
pub open spec fn digits_value(s: Seq<u8>) -> nat
    decreases s.len(),
{
    if s.len() == 0 {
        0
    } else {
        digits_value(s.drop_last()) * 10 + (s.last() - 48) as nat
    }
}

/// The digits that `u16::from_str` reads: an optional leading `+` is skipped.
pub open spec fn unsigned_digits(s: Seq<u8>) -> Seq<u8> {
    if s.len() > 0 && s[0] == 43 {
        s.drop_first()
    } else {
        s
    }
}

/// What `u16::from_str` gives for the bytes `s`: a nonempty run of decimal
/// digits, after an optional `+`, whose value fits in 16 bits; otherwise nothing.
pub open spec fn u16_from_str(s: Seq<u8>) -> Option<u16> {
    let d = unsigned_digits(s);
    if d.len() > 0 && all_digits(d) && digits_value(d) <= 0xFFFF {
        Some(digits_value(d) as u16)
    } else {
        None
    }
}

/// The ASCII digit of a value below ten.
pub open spec fn digit_byte(d: nat) -> u8 {
    (d + 48) as u8
}

/// The decimal digits of `n`, without leading zeros (`n.to_string()`).
pub open spec fn decimal_bytes(n: nat) -> Seq<u8>
    decreases n,
{
    if n < 10 {
        seq![digit_byte(n)]
    } else {
        decimal_bytes(n / 10).push(digit_byte(n % 10))
    }
}

/// The decimal digits of `n` as characters.
pub open spec fn decimal(n: nat) -> Seq<char> {
    decimal_bytes(n).map_values(|b: u8| b as char)
}

/// The decimal digits of `n`, zero-padded on the left to `width` digits
/// (`format!("{:0width$}", n)` for a nonnegative `n`).
pub open spec fn padded_decimal_bytes(n: nat, width: nat) -> Seq<u8> {
    let d = decimal_bytes(n);
    if d.len() < width {
        Seq::new((width - d.len()) as nat, |i: int| 48u8) + d
    } else {
        d
    }
}

/// `padded_decimal_bytes` as characters.
pub open spec fn padded_decimal(n: nat, width: nat) -> Seq<char> {
    padded_decimal_bytes(n, width).map_values(|b: u8| b as char)
}

/// A prefix of a string of digits is worth no more than the whole string.
pub proof fn lemma_digits_value_prefix(s: Seq<u8>, k: int)
    requires
        all_digits(s),
        0 <= k <= s.len(),
    ensures
        digits_value(s.take(k)) <= digits_value(s),
    decreases s.len(),
{
    if k < s.len() {
        assert(s.drop_last().take(k) =~= s.take(k));
        lemma_digits_value_prefix(s.drop_last(), k);
    } else {
        assert(s.take(k) =~= s);
    }
}

/// The digits of `decimal_bytes(n)` are digits, do not start with `+`, and
/// are worth `n`.
pub proof fn lemma_decimal_bytes(n: nat)
    ensures
        decimal_bytes(n).len() > 0,
        all_digits(decimal_bytes(n)),
        decimal_bytes(n)[0] != 43,
        digits_value(decimal_bytes(n)) == n,
        n < 10 <==> decimal_bytes(n).len() == 1,
        n < 100 <==> decimal_bytes(n).len() <= 2,
        n < 1000 <==> decimal_bytes(n).len() <= 3,
        n < 10000 <==> decimal_bytes(n).len() <= 4,
        n < 100000 <==> decimal_bytes(n).len() <= 5,
    decreases n,
{
    let d = decimal_bytes(n);
    if n >= 10 {
        lemma_decimal_bytes(n / 10);
        assert(d.drop_last() =~= decimal_bytes(n / 10));
        assert(d.last() == digit_byte(n % 10));
        assert(digits_value(d) == digits_value(decimal_bytes(n / 10)) * 10 + n % 10);
    } else {
        assert(d.drop_last() =~= Seq::<u8>::empty());
        assert(digits_value(d) == digits_value(d.drop_last()) * 10 + (d.last() - 48) as nat);
    }
}

/// Leading zeros do not change the value of a string of digits.
pub proof fn lemma_leading_zeros(z: nat, s: Seq<u8>)
    ensures
        digits_value(Seq::new(z, |i: int| 48u8) + s) == digits_value(s),
    decreases s.len(), z,
{
    if s.len() == 0 {
        if z > 0 {
            let zs = Seq::new(z, |i: int| 48u8);
            assert((zs + s).drop_last() =~= Seq::new((z - 1) as nat, |i: int| 48u8) + s);
            lemma_leading_zeros((z - 1) as nat, s);
        }
    } else {
        let zs = Seq::new(z, |i: int| 48u8);
        assert((zs + s).drop_last() =~= zs + s.drop_last());
        lemma_leading_zeros(z, s.drop_last());
    }
}

/// The zero-padded digits of `n` are digits worth `n` that do not start with `+`.
pub proof fn lemma_padded_decimal_bytes(n: nat, width: nat)
    ensures
        padded_decimal_bytes(n, width).len() > 0,
        padded_decimal_bytes(n, width).len() >= width,
        all_digits(padded_decimal_bytes(n, width)),
        padded_decimal_bytes(n, width)[0] != 43,
        digits_value(padded_decimal_bytes(n, width)) == n,
{
    lemma_decimal_bytes(n);
    let d = decimal_bytes(n);
    if d.len() < width {
        let z = (width - d.len()) as nat;
        lemma_leading_zeros(z, d);
        let p = Seq::new(z, |i: int| 48u8) + d;
        assert forall|i: int| 0 <= i < p.len() implies is_digit_byte(#[trigger] p[i]) by {
            if i >= z {
                assert(p[i] == d[i - z]);
            }
        }
    }
}

/// Digits written as characters are ASCII, and their UTF-8 bytes are the digits.
pub proof fn lemma_digit_chars_encode(s: Seq<u8>)
    requires
        all_digits(s),
    ensures
        vstd::utf8::is_ascii_chars(s.map_values(|b: u8| b as char)),
        vstd::utf8::encode_utf8(s.map_values(|b: u8| b as char)) == s,
        vstd::utf8::valid_utf8(s),
        vstd::utf8::decode_utf8(s) == s.map_values(|b: u8| b as char),
{
    let c = s.map_values(|b: u8| b as char);
    assert forall|i: int| 0 <= i < c.len() implies '\0' <= #[trigger] c[i] <= '\u{7f}' by {
        assert(is_digit_byte(s[i]));
    }
    vstd::utf8::is_ascii_chars_encode_utf8(c);
    let e = vstd::utf8::encode_utf8(c);
    assert forall|i: int| 0 <= i < s.len() implies e[i] == s[i] by {
        assert(c[i] as u8 == e[i]);
        assert(is_digit_byte(s[i]));
    }
    assert(e =~= s);
    vstd::utf8::encode_utf8_valid_utf8(c);
    vstd::utf8::encode_utf8_decode_utf8(c);
}

/// Reads the log index from the content of the index file, as
/// `content.parse::<u16>()` does: `None` where that call fails.
pub fn parse_log_index(content: &str) -> (r: Option<u16>)
    ensures
        r == u16_from_str(content.spec_bytes()),
{
    let bytes = content.as_bytes();
    let n = bytes.len();
    let ghost s = bytes@;
    let mut start: usize = 0;
    if n > 0 && bytes[0] == 43 {
        start = 1;
    }
    assert(unsigned_digits(s) =~= s.subrange(start as int, n as int));
    if start == n {
        return None;
    }
    let mut acc: u32 = 0;
    let mut i: usize = start;
    while i < n
        invariant
            start <= i <= n,
            n == s.len(),
            bytes@ == s,
            s == content.spec_bytes(),
            unsigned_digits(s) == s.subrange(start as int, n as int),
            start < n,
            all_digits(s.subrange(start as int, i as int)),
            acc == digits_value(s.subrange(start as int, i as int)),
            acc <= 0xFFFF,
        decreases n - i,
    {
        let b = bytes[i];
        let ghost d = s.subrange(start as int, n as int);
        if b < 48 || b > 57 {
            assert(!is_digit_byte(d[i - start]));
            return None;
        }
        let ghost prev = s.subrange(start as int, i as int);
        let ghost next = s.subrange(start as int, i + 1);
        assert(next.drop_last() =~= prev);
        assert(all_digits(next)) by {
            assert forall|j: int| 0 <= j < next.len() implies is_digit_byte(#[trigger] next[j]) by {
                if j < prev.len() {
                    assert(next[j] == prev[j]);
                }
            }
        }
        acc = acc * 10 + (b - 48) as u32;
        if acc > 0xFFFF {
            proof {
                if all_digits(d) {
                    assert(next =~= d.take(i + 1 - start));
                    lemma_digits_value_prefix(d, i + 1 - start);
                }
            }
            return None;
        }
        i = i + 1;
    }
    assert(s.subrange(start as int, n as int) =~= unsigned_digits(s));
    Some(acc as u16)
}

/// Appends the decimal digits of `n` to `out`.
fn push_decimal(n: u16, out: &mut Vec<u8>)
    ensures
        final(out)@ == old(out)@ + decimal_bytes(n as nat),
    decreases n,
{
    if n >= 10 {
        push_decimal(n / 10, out);
    }
    let digit: u8 = (n % 10) as u8;
    out.push(48 + digit);
    proof {
        if n >= 10 {
            assert(decimal_bytes(n as nat) == decimal_bytes((n / 10) as nat).push(
                digit_byte((n % 10) as nat),
            ));
        }
        assert(final(out)@ =~= old(out)@ + decimal_bytes(n as nat));
    }
}

/// Writes `n` in decimal, as `n.to_string()` does.
pub fn format_log_index(n: u16) -> (s: String)
    ensures
        s@ == decimal(n as nat),
{
    let mut digits: Vec<u8> = Vec::new();
    push_decimal(n, &mut digits);
    proof {
        assert(digits@ =~= decimal_bytes(n as nat));
        lemma_decimal_bytes(n as nat);
        lemma_digit_chars_encode(decimal_bytes(n as nat));
    }
    match crate::c_string::string_from_utf8(digits) {
        Some(s) => s,
        None => {
            proof {
                assert(false);
            }
            String::new()
        },
    }
}

/// Writes `n` in decimal, zero-padded on the left to `width` digits, as
/// `format!("{:0width$}", n)` does.
pub fn format_padded_index(n: u16, width: usize) -> (s: String)
    ensures
        s@ == padded_decimal(n as nat, width as nat),
{
    let mut digits: Vec<u8> = Vec::new();
    push_decimal(n, &mut digits);
    assert(digits@ =~= decimal_bytes(n as nat));
    let mut padded: Vec<u8> = Vec::new();
    if digits.len() < width {
        let zeros = width - digits.len();
        let mut k: usize = 0;
        while k < zeros
            invariant
                k <= zeros,
                padded@ =~= Seq::new(k as nat, |i: int| 48u8),
            decreases zeros - k,
        {
            padded.push(48);
            k = k + 1;
        }
    }
    let len = digits.len();
    let ghost base = padded@;
    let mut j: usize = 0;
    while j < len
        invariant
            j <= len,
            len == digits@.len(),
            padded@ =~= base + digits@.take(j as int),
        decreases len - j,
    {
        padded.push(digits[j]);
        j = j + 1;
    }
    proof {
        assert(digits@.take(len as int) =~= digits@);
        assert(padded@ =~= padded_decimal_bytes(n as nat, width as nat));
        lemma_padded_decimal_bytes(n as nat, width as nat);
        lemma_digit_chars_encode(padded_decimal_bytes(n as nat, width as nat));
    }
    match crate::c_string::string_from_utf8(padded) {
        Some(s) => s,
        None => {
            proof {
                assert(false);
            }
            String::new()
        },
    }
}

/// What is written to the index file is read back as the same index: for
/// every `n`, parsing the decimal text of `n` gives `n`.
pub proof fn lemma_index_round_trip(n: u16)
    ensures
        u16_from_str(vstd::utf8::encode_utf8(decimal(n as nat))) == Some(n),
{
    lemma_decimal_bytes(n as nat);
    lemma_digit_chars_encode(decimal_bytes(n as nat));
}

/// The zero-padded decimal text of `n` is also read back as `n`.
pub proof fn lemma_padded_index_round_trip(n: u16, width: nat)
    ensures
        u16_from_str(vstd::utf8::encode_utf8(padded_decimal(n as nat, width))) == Some(n),
{
    lemma_padded_decimal_bytes(n as nat, width);
    lemma_digit_chars_encode(padded_decimal_bytes(n as nat, width));
}

} // verus!
