//! Decimal ASCII integers: how a version number is written into a pointer
//! file or a file name, and how it is read back.

use vstd::prelude::*;
use vstd::string::*;

verus! {

/// The byte is one of `0` to `9`.
pub open spec fn is_digit(b: u8) -> bool {
    48 <= b <= 57
}

/// Every byte of `s` is a decimal digit.
pub open spec fn all_digits(s: Seq<u8>) -> bool {
    forall|i: int| 0 <= i < s.len() ==> is_digit(#[trigger] s[i])
}

/// The number that a run of decimal digits denotes, most significant first.
pub open spec fn digits_value(s: Seq<u8>) -> nat
    decreases s.len(),
{
    if s.len() == 0 {
        0
    } else {
        digits_value(s.drop_last()) * 10 + (s.last() - 48) as nat
    }
}

/// The value of a non-empty run of digits; nothing else has a value.
pub open spec fn unsigned_value(s: Seq<u8>) -> Option<int> {
    if s.len() > 0 && all_digits(s) {
        Some(digits_value(s) as int)
    } else {
        None
    }
}

/// The value of an integer in decimal notation: an optional `+` or `-`, then
/// at least one digit, and nothing before or after.
pub open spec fn signed_value(s: Seq<u8>) -> Option<int> {
    if s.len() > 0 && s[0] == 43 {
        unsigned_value(s.skip(1))
    } else if s.len() > 0 && s[0] == 45 {
        match unsigned_value(s.skip(1)) {
            Some(v) => Some(-v),
            None => None,
        }
    } else {
        unsigned_value(s)
    }
}

/// The version number that `s` denotes: its decimal value, where that is
/// neither negative nor above `i32::MAX`.
pub open spec fn version_number(s: Seq<u8>) -> Option<i32> {
    match signed_value(s) {
        Some(v) => if 0 <= v <= i32::MAX {
            Some(v as i32)
        } else {
            None
        },
        None => None,
    }
}

/// The digit byte for `d`, which is below ten.
pub open spec fn digit_byte(d: nat) -> u8 {
    (48 + d) as u8
}

/// The digits of `n`, most significant first, without padding.
pub open spec fn decimal_digits(n: nat) -> Seq<u8>
    decreases n,
{
    if n < 10 {
        seq![digit_byte(n)]
    } else {
        decimal_digits(n / 10).push(digit_byte(n % 10))
    }
}

/// `n` in decimal notation, with a leading `-` where it is negative.
pub open spec fn decimal(n: int) -> Seq<u8> {
    if n < 0 {
        seq![45u8] + decimal_digits((-n) as nat)
    } else {
        decimal_digits(n as nat)
    }
}

/// The text whose characters are the given ASCII bytes.
pub open spec fn ascii_text(bytes: Seq<u8>) -> Seq<char> {
    Seq::new(bytes.len(), |i: int| bytes[i] as char)
}

/// Appending a digit multiplies the value by ten and adds the digit.
pub proof fn digits_value_push(s: Seq<u8>, b: u8)
    ensures
        digits_value(s.push(b)) == digits_value(s) * 10 + (b - 48) as nat,
{
    assert(s.push(b).drop_last() =~= s);
}

/// A run of digits denotes at least what any of its initial segments denotes.
pub proof fn digits_value_monotone(s: Seq<u8>, k: int)
    requires
        0 <= k <= s.len(),
        all_digits(s),
    ensures
        digits_value(s.take(k)) <= digits_value(s),
    decreases s.len() - k,
{
    if k < s.len() {
        digits_value_monotone(s, k + 1);
        assert(s.take(k + 1) =~= s.take(k).push(s[k]));
        digits_value_push(s.take(k), s[k]);
    } else {
        assert(s.take(k) =~= s);
    }
}

/// The digits of a number are digits, at least one of them, and denote it.
pub proof fn decimal_digits_value(n: nat)
    ensures
        decimal_digits(n).len() > 0,
        all_digits(decimal_digits(n)),
        digits_value(decimal_digits(n)) == n,
    decreases n,
{
    if n < 10 {
        assert(decimal_digits(n) =~= Seq::<u8>::empty().push(digit_byte(n)));
        digits_value_push(Seq::<u8>::empty(), digit_byte(n));
    } else {
        decimal_digits_value(n / 10);
        digits_value_push(decimal_digits(n / 10), digit_byte(n % 10));
    }
}

/// Reading back what was written: the decimal notation of `n` denotes `n`.
pub proof fn decimal_round_trip(n: int)
    ensures
        signed_value(decimal(n)) == Some(n),
{
    if n < 0 {
        let digits = decimal_digits((-n) as nat);
        decimal_digits_value((-n) as nat);
        assert(decimal(n).skip(1) =~= digits);
    } else {
        decimal_digits_value(n as nat);
        assert(is_digit(decimal(n)[0]));
    }
}

/// A version number written in decimal reads back as itself.
pub proof fn version_round_trip(n: i32)
    requires
        n >= 0,
    ensures
        version_number(decimal(n as int)) == Some(n),
{
    decimal_round_trip(n as int);
}

/// Reads a version number: `Some` exactly where `content`, as a whole, is a
/// decimal integer that is not negative and fits in `i32`.
pub fn parse_version(content: &[u8]) -> (r: Option<i32>)
    ensures
        r == version_number(content@),
{
    let n = content.len();
    if n == 0 {
        return None;
    }
    let negative = content[0] == 45;
    let start: usize = if content[0] == 43 || content[0] == 45 {
        1
    } else {
        0
    };
    if start == n {
        return None;
    }
    let ghost digits = content@.skip(start as int);
    assert(start == 0 ==> digits =~= content@);
    let mut value: i64 = 0;
    let mut i: usize = start;
    while i < n
        invariant
            start <= i <= n,
            n == content@.len(),
            start < n,
            start == 1 <==> content@[0] == 43 || content@[0] == 45,
            start == 0 || start == 1,
            negative == (content@[0] == 45),
            start == 0 ==> digits == content@,
            digits == content@.skip(start as int),
            all_digits(digits.take(i - start)),
            value == digits_value(digits.take(i - start)),
            0 <= value <= i32::MAX,
        decreases n - i,
    {
        let b = content[i];
        if b < 48 || b > 57 {
            assert(!is_digit(digits[i - start]));
            return None;
        }
        proof {
            assert(digits.take(i + 1 - start) =~= digits.take(i - start).push(b));
            digits_value_push(digits.take(i - start), b);
        }
        value = value * 10 + (b - 48) as i64;
        i = i + 1;
        if value > 0x7fff_ffff {
            proof {
                if all_digits(digits) {
                    digits_value_monotone(digits, i - start);
                }
            }
            return None;
        }
    }
    assert(digits.take(n - start) =~= digits);
    if negative {
        if value == 0 {
            Some(0)
        } else {
            None
        }
    } else {
        Some(value as i32)
    }
}

/// Appends the digits of `n` to `out`.
fn push_digits(out: &mut Vec<u8>, n: u64)
    ensures
        final(out)@ == old(out)@ + decimal_digits(n as nat),
    decreases n,
{
    if n >= 10 {
        push_digits(out, n / 10);
    }
    out.push(48 + (n % 10) as u8);
    proof {
        if n >= 10 {
            assert(final(out)@ =~= old(out)@ + decimal_digits(n as nat));
        } else {
            assert(final(out)@ =~= old(out)@ + decimal_digits(n as nat));
        }
    }
}

/// `n` in decimal notation, as bytes.
pub fn decimal_bytes(n: i64) -> (out: Vec<u8>)
    ensures
        out@ == decimal(n as int),
{
    let mut out: Vec<u8> = Vec::new();
    if n < 0 {
        out.push(45);
        let magnitude: u64 = (-(n + 1)) as u64 + 1;
        push_digits(&mut out, magnitude);
    } else {
        push_digits(&mut out, n as u64);
    }
    assert(out@ =~= decimal(n as int));
    out
}

/// The one-character text of an ASCII digit or minus sign.
fn glyph(b: u8) -> (s: &'static str)
    requires
        is_digit(b) || b == 45,
    ensures
        s@ == seq![b as char],
{
    proof {
        reveal_strlit("0");
        reveal_strlit("1");
        reveal_strlit("2");
        reveal_strlit("3");
        reveal_strlit("4");
        reveal_strlit("5");
        reveal_strlit("6");
        reveal_strlit("7");
        reveal_strlit("8");
        reveal_strlit("9");
        reveal_strlit("-");
    }
    let s = if b == 48 {
        "0"
    } else if b == 49 {
        "1"
    } else if b == 50 {
        "2"
    } else if b == 51 {
        "3"
    } else if b == 52 {
        "4"
    } else if b == 53 {
        "5"
    } else if b == 54 {
        "6"
    } else if b == 55 {
        "7"
    } else if b == 56 {
        "8"
    } else if b == 57 {
        "9"
    } else {
        "-"
    };
    assert(s@ =~= seq![b as char]);
    s
}

/// The bytes of a decimal notation are digits, after an optional minus sign.
pub proof fn decimal_is_ascii(n: int)
    ensures
        forall|i: int|
            0 <= i < decimal(n).len() ==> is_digit(#[trigger] decimal(n)[i]) || decimal(n)[i]
                == 45,
{
    if n < 0 {
        decimal_digits_value((-n) as nat);
        let digits = decimal_digits((-n) as nat);
        assert forall|i: int| 0 <= i < decimal(n).len() implies is_digit(
            #[trigger] decimal(n)[i],
        ) || decimal(n)[i] == 45 by {
            if i > 0 {
                assert(decimal(n)[i] == digits[i - 1]);
            }
        }
    } else {
        decimal_digits_value(n as nat);
    }
}

/// `n` in decimal notation, as text.
pub fn decimal_string(n: i64) -> (out: String)
    ensures
        out@ == ascii_text(decimal(n as int)),
{
    let bytes = decimal_bytes(n);
    proof {
        decimal_is_ascii(n as int);
    }
    let mut out = String::new();
    let mut i: usize = 0;
    while i < bytes.len()
        invariant
            0 <= i <= bytes.len(),
            bytes@ == decimal(n as int),
            forall|j: int|
                0 <= j < bytes@.len() ==> is_digit(#[trigger] bytes@[j]) || bytes@[j] == 45,
            out@ == ascii_text(bytes@.take(i as int)),
        decreases bytes.len() - i,
    {
        out.append(glyph(bytes[i]));
        i = i + 1;
        assert(out@ =~= ascii_text(bytes@.take(i as int)));
    }
    assert(bytes@.take(i as int) =~= bytes@);
    out
}

} // verus!
