use vstd::prelude::*;

pub mod command;
pub mod function;
pub mod raw;

verus! {

/// USB vendor id of the gamepad.
pub const VENDOR_ID: u16 = 0x2F24;

/// USB product id of the gamepad.
pub const PRODUCT_ID: u16 = 0x0135;

} // verus!
