use vstd::prelude::*;

use crate::{trim_hex_prefix, trim_hex_prefixes};

verus! {

/// Fixed parameters of a HID class control transfer.
#[derive(Copy, Clone, Debug)]
pub struct ReportHeader {
    pub request_type: u8,
    pub request: u8,
    pub value: u16,
    pub index: u16,
}

/// Length of a command frame sent with SET_REPORT.
pub const SET_REPORT_LEN: usize = 33;

/// Length of the reply read with GET_REPORT.
pub const GET_REPORT_LEN: usize = 65;

/// Seconds that one control transfer may take.
pub const REPORT_TIMEOUT_SECS: u64 = 1;

/// SET_REPORT, output report 1, on interface 2.
pub fn set_report_header() -> (r: ReportHeader)
    ensures
        r.request_type == 0x21,
        r.request == 0x09,
        r.value == 0x0201,
        r.index == 2,
{
    ReportHeader { request_type: 0x21, request: 0x09, value: 0x0201, index: 2 }
}

/// GET_REPORT, input report 1, on interface 2.
pub fn get_report_header() -> (r: ReportHeader)
    ensures
        r.request_type == 0xA1,
        r.request == 0x01,
        r.value == 0x0101,
        r.index == 2,
{
    ReportHeader { request_type: 0xA1, request: 0x01, value: 0x0101, index: 2 }
}

/// Why a hexadecimal text did not decode; the cases of `hex::FromHexError`.
#[derive(Copy, Clone, PartialEq, Eq, Debug, Structural)]
pub enum HexDecodeError {
    InvalidHexCharacter { c: char, index: usize },
    OddLength,
    InvalidStringLength,
}

/// The value of a hexadecimal digit (`0`-`9`, `a`-`f`, `A`-`F`); 16 for any
/// other character.
pub open spec fn hex_digit_value(c: char) -> int {
    let v = c as int;
    if 48 <= v <= 57 {
        v - 48
    } else if 97 <= v <= 102 {
        v - 87
    } else if 65 <= v <= 70 {
        v - 55
    } else {
        16
    }
}

/// Every character of `s` is ASCII.
pub open spec fn is_ascii_text(s: Seq<char>) -> bool {
    forall|i: int| 0 <= i < s.len() ==> (#[trigger] s[i] as int) < 128
}

/// Decoding 66 ASCII characters into 33 bytes, two digits per byte: the bytes
/// where every character is a digit, else the first character that is not.
pub open spec fn hex_frame_outcome(s: Seq<char>, r: Result<[u8; 33], HexDecodeError>) -> bool {
    if forall|i: int| 0 <= i < 66 ==> #[trigger] hex_digit_value(s[i]) < 16 {
        r matches Ok(b) && forall|i: int|
            0 <= i < 33 ==> #[trigger] b@[i] == hex_digit_value(s[2 * i]) * 16 + hex_digit_value(s[2 * i + 1])
    } else {
        r matches Err(HexDecodeError::InvalidHexCharacter { c, index }) && index < 66 && c == s[index as int]
            && hex_digit_value(c) == 16 && forall|k: int| 0 <= k < index ==> #[trigger] hex_digit_value(s[k]) < 16
    }
}

/// Relies on `hex::decode_to_slice` into a 33-byte buffer: an odd length is
/// `OddLength`, an even length other than 66 is `InvalidStringLength`, and
/// the digits are then read pairwise, stopping at the first non-digit. It
/// reads bytes, so any non-ASCII text fails.
#[verifier::external_body]
fn decode_hex_frame(s: &str) -> (r: Result<[u8; 33], HexDecodeError>)
    ensures
        is_ascii_text(s@) && s@.len() % 2 == 1 ==> (r matches Err(HexDecodeError::OddLength)),
        is_ascii_text(s@) && s@.len() % 2 == 0 && s@.len() != 66 ==> (r matches Err(HexDecodeError::InvalidStringLength)),
        is_ascii_text(s@) && s@.len() == 66 ==> hex_frame_outcome(s@, r),
        !is_ascii_text(s@) ==> r is Err,
{
    let mut out = [0u8; 33];
    match hex::decode_to_slice(s, &mut out) {
        Ok(()) => Ok(out),
        Err(hex::FromHexError::InvalidHexCharacter { c, index }) => Err(HexDecodeError::InvalidHexCharacter { c, index }),
        Err(hex::FromHexError::OddLength) => Err(HexDecodeError::OddLength),
        Err(hex::FromHexError::InvalidStringLength) => Err(HexDecodeError::InvalidStringLength),
    }
}

/// Reads a raw SET_REPORT frame written as 66 hexadecimal digits, after any
/// leading `0x`.
pub fn parse_report_hex(data: &str) -> (r: Result<[u8; 33], HexDecodeError>)
    ensures
        ({
            let t = trim_hex_prefix(data@);
            &&& is_ascii_text(t) && t.len() % 2 == 1 ==> (r matches Err(HexDecodeError::OddLength))
            &&& is_ascii_text(t) && t.len() % 2 == 0 && t.len() != 66 ==> (r matches Err(HexDecodeError::InvalidStringLength))
            &&& is_ascii_text(t) && t.len() == 66 ==> hex_frame_outcome(t, r)
            &&& !is_ascii_text(t) ==> r is Err
        }),
{
    decode_hex_frame(trim_hex_prefixes(data))
}

} // verus!
