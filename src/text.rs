use vstd::prelude::*;

verus! {

/// Relies on `String::push`: appends one character.
#[verifier::external_body]
pub(crate) fn push_char(s: &mut String, c: char)
    ensures
        final(s)@ == old(s)@.push(c),
{
    s.push(c)
}

/// The character of a digit below 16: `0`-`9`, then `A`-`F`.
pub open spec fn digit_char(d: int) -> char {
    if d < 10 {
        (d + 48) as char
    } else {
        (d + 55) as char
    }
}

/// Digits of `n` in base `radix`, most significant first, without leading zeros.
pub open spec fn digits_of(n: nat, radix: nat) -> Seq<char>
    decreases n,
{
    if radix < 2 || n < radix {
        seq![digit_char(n as int)]
    } else {
        proof {
            assert(n / radix < n) by (nonlinear_arith)
                requires
                    radix >= 2,
                    n >= radix,
            ;
        }
        digits_of(n / radix, radix).push(digit_char((n % radix) as int))
    }
}

/// An integer written in decimal, with a leading `-` where it is negative.
pub open spec fn decimal_text(v: int) -> Seq<char> {
    if v < 0 {
        seq!['-'] + digits_of((-v) as nat, 10)
    } else {
        digits_of(v as nat, 10)
    }
}

/// A byte written as two upper-case hexadecimal digits.
pub open spec fn hex_pair(b: u8) -> Seq<char> {
    seq![digit_char(b as int / 16), digit_char(b as int % 16)]
}

/// The character of one digit below 16.
pub fn digit(d: u64) -> (c: char)
    requires
        d < 16,
    ensures
        c == digit_char(d as int),
{
    if d < 10 {
        ((d as u8) + 48) as char
    } else {
        ((d as u8) + 55) as char
    }
}

/// Appends `n` in base `radix` (10 or 16) to `s`.
pub fn push_digits(s: &mut String, n: u64, radix: u64)
    requires
        radix == 10 || radix == 16,
    ensures
        final(s)@ == old(s)@ + digits_of(n as nat, radix as nat),
    decreases n,
{
    if n < radix {
        push_char(s, digit(n));
        assert(old(s)@.push(digit_char(n as int)) =~= old(s)@ + seq![digit_char(n as int)]);
    } else {
        push_digits(s, n / radix, radix);
        push_char(s, digit(n % radix));
        assert(old(s)@ + digits_of(n as nat / radix as nat, radix as nat).push(digit_char((n % radix) as int))
            =~= old(s)@ + digits_of(n as nat / radix as nat, radix as nat) + seq![digit_char((n % radix) as int)]);
    }
}

/// Appends `v` in decimal to `s`.
pub fn push_decimal(s: &mut String, v: i64)
    requires
        v > i64::MIN,
    ensures
        final(s)@ == old(s)@ + decimal_text(v as int),
{
    if v < 0 {
        push_char(s, '-');
        push_digits(s, (-v) as u64, 10);
        assert(old(s)@.push('-') + digits_of((-v) as nat, 10) =~= old(s)@ + (seq!['-'] + digits_of((-v) as nat, 10)));
    } else {
        push_digits(s, v as u64, 10);
    }
}

/// Appends `b` as two upper-case hexadecimal digits to `s`.
pub fn push_hex_pair(s: &mut String, b: u8)
    ensures
        final(s)@ == old(s)@ + hex_pair(b),
{
    push_char(s, digit((b / 16) as u64));
    push_char(s, digit((b % 16) as u64));
    assert(old(s)@.push(digit_char(b as int / 16)).push(digit_char(b as int % 16)) =~= old(s)@ + hex_pair(b));
}

} // verus!
