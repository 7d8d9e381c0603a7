use vstd::prelude::*;

verus! {

/// Dead zones of both sticks, as signed offsets.
#[derive(Debug, Copy, Clone, Default)]
pub struct DeadZonesConfig {
    pub left: SpecificDeadZone,
    pub right: SpecificDeadZone,
}

/// Dead zone of one stick, at its center and at its rim.
#[derive(Debug, Copy, Clone, Default)]
pub struct SpecificDeadZone {
    pub center: i8,
    pub border: i8,
}

} // verus!
