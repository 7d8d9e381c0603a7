use vstd::prelude::*;

use crate::controls_field::hid_usage_id_u8::HIDUsageIDu8;

verus! {

/// Keyboard/mouse-mode mapping of the front buttons and sticks.
#[derive(Debug, Copy, Clone, Default)]
pub struct KeyboardMouseConfig {
    pub directional_pad: DirectionalPadConfig,
    pub a: HIDUsageIDu8,
    pub b: HIDUsageIDu8,
    pub x: HIDUsageIDu8,
    pub y: HIDUsageIDu8,
    pub left_stick: LeftStickConfig,
    pub right_stick_push: HIDUsageIDu8,
}

/// The four directions of the d-pad.
#[derive(Debug, Copy, Clone, Default)]
pub struct DirectionalPadConfig {
    pub up: HIDUsageIDu8,
    pub down: HIDUsageIDu8,
    pub left: HIDUsageIDu8,
    pub right: HIDUsageIDu8,
}

/// The four directions of the left stick, and pushing it.
#[derive(Debug, Copy, Clone, Default)]
pub struct LeftStickConfig {
    pub up: HIDUsageIDu8,
    pub down: HIDUsageIDu8,
    pub left: HIDUsageIDu8,
    pub right: HIDUsageIDu8,
    pub push: HIDUsageIDu8,
}

} // verus!
