use vstd::prelude::*;
use vstd::string::*;

use crate::text::{decimal_text, push_decimal};

verus! {

/// Legality checks on values before they are written to the device. With
/// `force` set, an illegal value is let through (the caller is expected to
/// warn); without it, the value is refused.
#[derive(Copy, Clone, Debug)]
pub struct RangeValidator {
    pub force: bool,
}

/// Dead zones are meaningful from -10 to 10.
pub open spec fn dead_zone_in_range(v: i8) -> bool {
    -10 <= v <= 10
}

/// A back-paddle delay is either off (0) or full (100).
pub open spec fn delay_allowed(v: u8) -> bool {
    v == 0 || v == 100
}

/// The text that reports an illegal value: refused, or let through by force.
pub open spec fn violation_text(
    value: int,
    group: Seq<char>,
    field: Seq<char>,
    rule: Seq<char>,
    forced: bool,
) -> Seq<char> {
    "Dead zones value "@ + decimal_text(value) + " for field "@ + group + field + rule + ", "@ + if forced {
        "continue with --force"@
    } else {
        "use --force to continue"@
    }
}

/// The report of an illegal dead zone.
pub open spec fn dead_zone_text(value: i8, field: Seq<char>, forced: bool) -> Seq<char> {
    violation_text(value as int, "DeadZones::"@, field, " not in range -10..=10"@, forced)
}

/// The report of an illegal back-paddle delay.
pub open spec fn delay_text(value: u8, field: Seq<char>, forced: bool) -> Seq<char> {
    violation_text(value as int, "BackButton::"@, field, "Delay not 0(0x00) or 100(0x64)"@, forced)
}

/// Builds the text of `violation_text`.
fn make_violation_text(value: i64, group: &str, field: &str, rule: &str, forced: bool) -> (r: String)
    requires
        value > i64::MIN,
    ensures
        r@ == violation_text(value as int, group@, field@, rule@, forced),
{
    let mut s = String::from_str("Dead zones value ");
    push_decimal(&mut s, value);
    s.append(" for field ");
    s.append(group);
    s.append(field);
    s.append(rule);
    s.append(", ");
    if forced {
        s.append("continue with --force");
    } else {
        s.append("use --force to continue");
    }
    s
}

impl RangeValidator {
    /// Accepts a dead zone in -10..=10, or any value when forced.
    pub fn validate_dead_zones(&self, value: i8, field: &str) -> (r: Result<i8, String>)
        ensures
            r is Ok <==> (dead_zone_in_range(value) || self.force),
            r matches Ok(v) ==> v == value,
            r matches Err(e) ==> e@ == dead_zone_text(value, field@, false),
    {
        if -10 <= value && value <= 10 {
            return Ok(value);
        }
        if self.force {
            return Ok(value);
        }
        Err(make_violation_text(value as i64, "DeadZones::", field, " not in range -10..=10", false))
    }

    /// The warning owed for a dead zone that is let through only by force.
    pub fn dead_zone_warning(&self, value: i8, field: &str) -> (r: Option<String>)
        ensures
            r is Some <==> (!dead_zone_in_range(value) && self.force),
            r matches Some(w) ==> w@ == dead_zone_text(value, field@, true),
    {
        if self.force && !(-10 <= value && value <= 10) {
            Some(make_violation_text(value as i64, "DeadZones::", field, " not in range -10..=10", true))
        } else {
            None
        }
    }

    /// Accepts a delay of 0 or 100, or any value when forced.
    pub fn validate_delay(&self, value: u8, field: &str) -> (r: Result<u8, String>)
        ensures
            r is Ok <==> (delay_allowed(value) || self.force),
            r matches Ok(v) ==> v == value,
            r matches Err(e) ==> e@ == delay_text(value, field@, false),
    {
        if value == 0 || value == 100 {
            return Ok(value);
        }
        if self.force {
            return Ok(value);
        }
        Err(make_violation_text(value as i64, "BackButton::", field, "Delay not 0(0x00) or 100(0x64)", false))
    }

    /// The warning owed for a delay that is let through only by force.
    pub fn delay_warning(&self, value: u8, field: &str) -> (r: Option<String>)
        ensures
            r is Some <==> (!delay_allowed(value) && self.force),
            r matches Some(w) ==> w@ == delay_text(value, field@, true),
    {
        if self.force && !(value == 0 || value == 100) {
            Some(make_violation_text(value as i64, "BackButton::", field, "Delay not 0(0x00) or 100(0x64)", true))
        } else {
            None
        }
    }
}

} // verus!
