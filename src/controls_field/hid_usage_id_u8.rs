use vstd::prelude::*;

use crate::enums::hid_usage_id::{usage_code, usage_of_code, HIDUsageID};

verus! {

/// One byte of a button mapping: a USB HID usage id, or any other raw value
/// the device accepts (vendor extensions, "no function").
#[derive(Copy, Clone, Default, Debug, PartialEq, Eq, Structural)]
pub struct HIDUsageIDu8 {
    id: u8,
}

impl View for HIDUsageIDu8 {
    type V = u8;

    closed spec fn view(&self) -> u8 {
        self.id
    }
}

/// The mapping that holds byte `b`.
pub closed spec fn usage_byte(b: u8) -> HIDUsageIDu8 {
    HIDUsageIDu8 { id: b }
}

/// A mapping is the one made of its own byte.
pub broadcast proof fn lemma_usage_byte_of_view(h: HIDUsageIDu8)
    ensures
        #[trigger] usage_byte(h@) == h,
{
}

impl From<u8> for HIDUsageIDu8 {
    fn from(value: u8) -> (r: Self)
        ensures
            r == usage_byte(value),
    {
        HIDUsageIDu8 { id: value }
    }
}

impl vstd::std_specs::convert::FromSpecImpl<u8> for HIDUsageIDu8 {
    open spec fn obeys_from_spec() -> bool {
        true
    }

    open spec fn from_spec(v: u8) -> Self {
        usage_byte(v)
    }
}

impl From<HIDUsageIDu8> for u8 {
    fn from(value: HIDUsageIDu8) -> (r: u8)
        ensures
            r == value@,
    {
        value.id
    }
}

impl vstd::std_specs::convert::FromSpecImpl<HIDUsageIDu8> for u8 {
    open spec fn obeys_from_spec() -> bool {
        true
    }

    open spec fn from_spec(v: HIDUsageIDu8) -> u8 {
        v@
    }
}

impl From<HIDUsageID> for HIDUsageIDu8 {
    fn from(value: HIDUsageID) -> (r: Self)
        ensures
            r@ == usage_code(value),
    {
        HIDUsageIDu8 { id: value.into() }
    }
}

impl vstd::std_specs::convert::FromSpecImpl<HIDUsageID> for HIDUsageIDu8 {
    open spec fn obeys_from_spec() -> bool {
        true
    }

    closed spec fn from_spec(v: HIDUsageID) -> Self {
        HIDUsageIDu8 { id: usage_code(v) }
    }
}

impl HIDUsageIDu8 {
    /// The named usage id that this byte stands for, if it stands for one;
    /// a byte without a name is shown as a literal instead.
    pub fn usage_id(&self) -> (r: Option<HIDUsageID>)
        ensures
            r == usage_of_code(self@),
    {
        match HIDUsageID::try_from(self.id) {
            Ok(h) => Some(h),
            Err(_) => None,
        }
    }
}

/// A mapping byte survives the trip into `HIDUsageIDu8` and back out, for
/// every one of the 256 byte values, whether or not it names a usage id; and
/// two mappings with the same byte are the same mapping.
pub proof fn lemma_byte_round_trip(b: u8, h: HIDUsageIDu8, g: HIDUsageIDu8)
    ensures
        usage_byte(b)@ == b,
        usage_byte(h@) == h,
        h@ == g@ ==> h == g,
{
}

} // verus!
