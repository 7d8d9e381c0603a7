use vstd::prelude::*;
use vstd::string::*;

pub mod controls_field;
pub mod enums;
pub mod protocol;
pub mod text;
pub mod validator;

use crate::controls_field::hid_usage_id_u8::{usage_byte, HIDUsageIDu8};
use crate::text::{hex_pair, push_char, push_hex_pair};

verus! {

/// A fixed-size byte buffer as it travels to or from the device.
pub struct LoadArray<const N: usize> {
    value: [u8; N],
}

impl<const N: usize> View for LoadArray<N> {
    type V = Seq<u8>;

    closed spec fn view(&self) -> Seq<u8> {
        self.value@
    }
}

impl<const N: usize> From<[u8; N]> for LoadArray<N> {
    fn from(value: [u8; N]) -> (r: Self)
        ensures
            r@ == value@,
    {
        LoadArray { value }
    }
}

impl<const N: usize> vstd::std_specs::convert::FromSpecImpl<[u8; N]> for LoadArray<N> {
    open spec fn obeys_from_spec() -> bool {
        true
    }

    closed spec fn from_spec(v: [u8; N]) -> Self {
        LoadArray { value: v }
    }
}

/// Bytes as upper-case hexadecimal pairs, each followed by a space.
pub open spec fn spaced_hex(s: Seq<u8>) -> Seq<char>
    decreases s.len(),
{
    if s.len() == 0 {
        Seq::empty()
    } else {
        spaced_hex(s.drop_last()) + hex_pair(s.last()) + seq![' ']
    }
}

impl<const N: usize> LoadArray<N> {
    /// The buffer as upper-case hexadecimal pairs, each followed by a space,
    /// as it is logged and printed.
    pub fn upper_hex(&self) -> (r: String)
        ensures
            r@ == spaced_hex(self@),
    {
        let mut s = String::new();
        let mut i: usize = 0;
        while i < N
            invariant
                i <= N,
                self.value@.len() == N,
                s@ == spaced_hex(self.value@.subrange(0, i as int)),
            decreases N - i,
        {
            push_hex_pair(&mut s, self.value[i]);
            push_char(&mut s, ' ');
            assert(self.value@.subrange(0, i + 1).drop_last() =~= self.value@.subrange(0, i as int));
            i = i + 1;
        }
        assert(self.value@.subrange(0, N as int) =~= self.value@);
        s
    }
}

/// The radix a mapping byte is written in.
#[derive(Copy, Clone, PartialEq, Eq, Debug, Structural)]
pub enum Radix {
    Decimal,
    Hexadecimal,
}

/// The base of a radix.
pub open spec fn radix_base(n: Radix) -> int {
    match n {
        Radix::Decimal => 10,
        Radix::Hexadecimal => 16,
    }
}

/// Why a number did not parse; the kinds of `core::num::IntErrorKind`.
#[derive(Copy, Clone, PartialEq, Eq, Debug, Structural)]
pub enum IntParseErrorKind {
    Empty,
    InvalidDigit,
    PosOverflow,
    NegOverflow,
    Zero,
    Other,
}

/// The value of a digit character (`0`-`9`, then `a`-`z` or `A`-`Z` from
/// 10 up); 36 for any other character.
pub open spec fn digit_value(c: char) -> int {
    let v = c as int;
    if 48 <= v <= 57 {
        v - 48
    } else if 97 <= v <= 122 {
        v - 87
    } else if 65 <= v <= 90 {
        v - 55
    } else {
        36
    }
}

/// `s` is one or more digits of base `radix`.
pub open spec fn all_digits_in(s: Seq<char>, radix: int) -> bool {
    &&& s.len() > 0
    &&& forall|i: int| 0 <= i < s.len() ==> #[trigger] digit_value(s[i]) < radix
}

/// The number that the digits of `s` spell in base `radix`.
pub open spec fn digits_value(s: Seq<char>, radix: int) -> int
    decreases s.len(),
{
    if s.len() == 0 {
        0
    } else {
        digits_value(s.drop_last(), radix) * radix + digit_value(s.last())
    }
}

/// A byte, or why its digits did not parse.
pub type DigitsResult = Result<u8, IntParseErrorKind>;

/// Relies on `u8::from_str_radix`: the text is an optional `+` and then the
/// ASCII digits of the radix; an empty text is `Empty`, digits worth more
/// than 255 are `PosOverflow`, and any other character is an error.
#[verifier::external_body]
fn u8_from_digits(s: &str, radix: u32) -> (r: DigitsResult)
    requires
        2 <= radix <= 36,
    ensures
        s@.len() == 0 ==> r matches Err(IntParseErrorKind::Empty),
        all_digits_in(s@, radix as int) ==> (r is Ok <==> digits_value(s@, radix as int) <= 255),
        all_digits_in(s@, radix as int) ==> (r matches Ok(v) ==> v == digits_value(s@, radix as int)),
        all_digits_in(s@, radix as int) ==> (r matches Err(k) ==> k == IntParseErrorKind::PosOverflow),
        !all_digits_in(s@, radix as int) && s@.len() > 0 && s@[0] != '+' ==> r is Err,
{
    match u8::from_str_radix(s, radix) {
        Ok(v) => Ok(v),
        Err(e) => Err(
            match e.kind() {
                core::num::IntErrorKind::Empty => IntParseErrorKind::Empty,
                core::num::IntErrorKind::InvalidDigit => IntParseErrorKind::InvalidDigit,
                core::num::IntErrorKind::PosOverflow => IntParseErrorKind::PosOverflow,
                core::num::IntErrorKind::NegOverflow => IntParseErrorKind::NegOverflow,
                core::num::IntErrorKind::Zero => IntParseErrorKind::Zero,
                _ => IntParseErrorKind::Other,
            },
        ),
    }
}

/// Whether the regular expression `pattern` (syntax of the `regex` crate)
/// matches somewhere in `text`; false where `pattern` does not compile.
pub uninterp spec fn regex_is_match(pattern: Seq<char>, text: Seq<char>) -> bool;

/// Relies on `regex::Regex::new` and `regex::Regex::is_match`: whether the
/// compiled pattern matches `text`.
#[verifier::external_body]
fn pattern_matches(pattern: &str, text: &str) -> (r: bool)
    ensures
        r == regex_is_match(pattern@, text@),
{
    regex::Regex::new(pattern).map(|re| re.is_match(text)).unwrap_or(false)
}

/// The message for digits that spell a value above 255.
pub open spec fn out_of_range_text(s: Seq<char>, n: Radix) -> Seq<char> {
    match n {
        Radix::Decimal => s + " is not in 0..=255"@,
        Radix::Hexadecimal => s + " is not in 0x00..=0xFF"@,
    }
}

/// The message for a number that failed to parse for a reason other than its size.
pub open spec fn parse_failure_text(k: IntParseErrorKind) -> Seq<char> {
    match k {
        IntParseErrorKind::Empty => "cannot parse integer from empty string"@,
        IntParseErrorKind::Zero => "number would be zero for non-zero type"@,
        _ => "invalid digit found in string"@,
    }
}

/// What reading `s` as a byte in radix `n` gives: the value where the digits
/// spell one up to 255, the range message where they spell more, an error
/// where `s` holds anything but digits (a leading `+` aside).
pub open spec fn radix_outcome(s: Seq<char>, n: Radix, r: Result<HIDUsageIDu8, String>) -> bool {
    let base = radix_base(n);
    &&& (all_digits_in(s, base) && digits_value(s, base) <= 255) ==> r == Ok::<HIDUsageIDu8, String>(
        usage_byte(digits_value(s, base) as u8),
    )
    &&& (all_digits_in(s, base) && digits_value(s, base) > 255) ==> (r matches Err(e) && e@
        == out_of_range_text(s, n))
    &&& (s.len() > 0 && s[0] != '+' && !all_digits_in(s, base)) ==> r is Err
    &&& s.len() == 0 ==> (r matches Err(e) && e@ == parse_failure_text(IntParseErrorKind::Empty))
}

/// Reads a mapping byte written with the digits of radix `n`.
pub fn u8_from_str_radix(s: &str, n: Radix) -> (r: Result<HIDUsageIDu8, String>)
    ensures
        radix_outcome(s@, n, r),
{
    let radix: u32 = match n {
        Radix::Decimal => 10,
        Radix::Hexadecimal => 16,
    };
    match u8_from_digits(s, radix) {
        Ok(v) => Ok(v.into()),
        Err(k) => {
            match k {
                IntParseErrorKind::PosOverflow | IntParseErrorKind::NegOverflow => {
                    let mut e = String::from_str(s);
                    match n {
                        Radix::Decimal => e.append(" is not in 0..=255"),
                        Radix::Hexadecimal => e.append(" is not in 0x00..=0xFF"),
                    }
                    Err(e)
                },
                IntParseErrorKind::Empty => Err(String::from_str("cannot parse integer from empty string")),
                IntParseErrorKind::Zero => Err(String::from_str("number would be zero for non-zero type")),
                _ => Err(String::from_str("invalid digit found in string")),
            }
        },
    }
}

/// `s` without every leading `0x`.
pub open spec fn trim_hex_prefix(s: Seq<char>) -> Seq<char>
    decreases s.len(),
{
    if s.len() >= 2 && s[0] == '0' && s[1] == 'x' {
        trim_hex_prefix(s.subrange(2, s.len() as int))
    } else {
        s
    }
}

/// Strips every leading `0x` from `s`.
pub fn trim_hex_prefixes(s: &str) -> (r: &str)
    ensures
        r@ == trim_hex_prefix(s@),
{
    let n = s.unicode_len();
    let mut i: usize = 0;
    assert(s@.subrange(0, n as int) =~= s@);
    while n - i >= 2 && s.get_char(i) == '0' && s.get_char(i + 1) == 'x'
        invariant
            i <= n,
            n == s@.len(),
            trim_hex_prefix(s@) == trim_hex_prefix(s@.subrange(i as int, n as int)),
        decreases n - i,
    {
        assert(s@.subrange(i as int, n as int).subrange(2, n - i) =~= s@.subrange(i + 2, n as int));
        i = i + 2;
    }
    s.substring_char(i, n)
}

/// What `parse_hex` gives once it knows whether `s` looks decimal and whether
/// it looks hexadecimal: decimal is tried first, then hexadecimal with its
/// `0x` prefixes stripped, and anything else is refused.
pub open spec fn hex_outcome(s: Seq<char>, decimal: bool, hexadecimal: bool, r: Result<HIDUsageIDu8, String>) -> bool {
    if decimal {
        radix_outcome(s, Radix::Decimal, r)
    } else if hexadecimal {
        radix_outcome(trim_hex_prefix(s), Radix::Hexadecimal, r)
    } else {
        r matches Err(e) && e@ == "invalid digit found in string "@ + s
    }
}

/// Reads a mapping byte from `s`, given whether `s` is all decimal digits and
/// whether it is an optional `0x` followed by hexadecimal digits.
pub fn parse_hex_matched(s: &str, decimal: bool, hexadecimal: bool) -> (r: Result<HIDUsageIDu8, String>)
    ensures
        hex_outcome(s@, decimal, hexadecimal, r),
{
    if decimal {
        u8_from_str_radix(s, Radix::Decimal)
    } else if hexadecimal {
        u8_from_str_radix(trim_hex_prefixes(s), Radix::Hexadecimal)
    } else {
        let mut e = String::from_str("invalid digit found in string ");
        e.append(s);
        Err(e)
    }
}

/// Reads a mapping byte written in decimal (`65`) or hexadecimal (`0x41`,
/// `41` where it is not all decimal digits).
pub fn parse_hex(s: &str) -> (r: Result<HIDUsageIDu8, String>)
    ensures
        hex_outcome(
            s@,
            regex_is_match("^\\d+$"@, s@),
            regex_is_match("^(0x)?[abcdefABCDEF\\d]+$"@, s@),
            r,
        ),
{
    let decimal = pattern_matches("^\\d+$", s);
    let hexadecimal = pattern_matches("^(0x)?[abcdefABCDEF\\d]+$", s);
    parse_hex_matched(s, decimal, hexadecimal)
}

} // verus!
