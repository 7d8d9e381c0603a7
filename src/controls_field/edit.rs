use vstd::prelude::*;

use crate::controls_field::hid_usage_id_u8::HIDUsageIDu8;
use crate::controls_field::back_button::{BackButtonConfig, SpecificBackButtonConfig};
use crate::controls_field::dead_zones::{DeadZonesConfig, SpecificDeadZone};
use crate::controls_field::keyboard_mouse::{DirectionalPadConfig, KeyboardMouseConfig, LeftStickConfig};
use crate::controls_field::ControlsConfig;
use crate::enums::{BackButton, BackButtonDelay, DeadZone, KeyboardMouse};
use crate::validator::{dead_zone_in_range, dead_zone_text, delay_allowed, delay_text, RangeValidator};

verus! {

/// `c` with the keyboard/mouse button `key` mapped to `v`.
pub open spec fn with_keyboard_mouse(c: ControlsConfig, key: KeyboardMouse, v: HIDUsageIDu8) -> ControlsConfig {
    let k = c.keyboard_mouse;
    match key {
        KeyboardMouse::DPadUp => ControlsConfig { keyboard_mouse: KeyboardMouseConfig { directional_pad: DirectionalPadConfig { up: v, ..k.directional_pad }, ..k }, ..c },
        KeyboardMouse::DPadDown => ControlsConfig { keyboard_mouse: KeyboardMouseConfig { directional_pad: DirectionalPadConfig { down: v, ..k.directional_pad }, ..k }, ..c },
        KeyboardMouse::DPadLeft => ControlsConfig { keyboard_mouse: KeyboardMouseConfig { directional_pad: DirectionalPadConfig { left: v, ..k.directional_pad }, ..k }, ..c },
        KeyboardMouse::DPadRight => ControlsConfig { keyboard_mouse: KeyboardMouseConfig { directional_pad: DirectionalPadConfig { right: v, ..k.directional_pad }, ..k }, ..c },
        KeyboardMouse::AButton => ControlsConfig { keyboard_mouse: KeyboardMouseConfig { a: v, ..k }, ..c },
        KeyboardMouse::BButton => ControlsConfig { keyboard_mouse: KeyboardMouseConfig { b: v, ..k }, ..c },
        KeyboardMouse::XButton => ControlsConfig { keyboard_mouse: KeyboardMouseConfig { x: v, ..k }, ..c },
        KeyboardMouse::YButton => ControlsConfig { keyboard_mouse: KeyboardMouseConfig { y: v, ..k }, ..c },
        KeyboardMouse::LeftStickUp => ControlsConfig { keyboard_mouse: KeyboardMouseConfig { left_stick: LeftStickConfig { up: v, ..k.left_stick }, ..k }, ..c },
        KeyboardMouse::LeftStickDown => ControlsConfig { keyboard_mouse: KeyboardMouseConfig { left_stick: LeftStickConfig { down: v, ..k.left_stick }, ..k }, ..c },
        KeyboardMouse::LeftStickLeft => ControlsConfig { keyboard_mouse: KeyboardMouseConfig { left_stick: LeftStickConfig { left: v, ..k.left_stick }, ..k }, ..c },
        KeyboardMouse::LeftStickRight => ControlsConfig { keyboard_mouse: KeyboardMouseConfig { left_stick: LeftStickConfig { right: v, ..k.left_stick }, ..k }, ..c },
        KeyboardMouse::LeftStickPush => ControlsConfig { keyboard_mouse: KeyboardMouseConfig { left_stick: LeftStickConfig { push: v, ..k.left_stick }, ..k }, ..c },
        KeyboardMouse::RightStickPush => ControlsConfig { keyboard_mouse: KeyboardMouseConfig { right_stick_push: v, ..k }, ..c },
    }
}

/// `c` with the back-paddle slot `key` mapped to `v`.
pub open spec fn with_back_button(c: ControlsConfig, key: BackButton, v: HIDUsageIDu8) -> ControlsConfig {
    let b = c.back_button;
    match key {
        BackButton::Left1 => ControlsConfig { back_button: BackButtonConfig { left: SpecificBackButtonConfig { first: v, ..b.left }, ..b }, ..c },
        BackButton::Left2 => ControlsConfig { back_button: BackButtonConfig { left: SpecificBackButtonConfig { second: v, ..b.left }, ..b }, ..c },
        BackButton::Left3 => ControlsConfig { back_button: BackButtonConfig { left: SpecificBackButtonConfig { third: v, ..b.left }, ..b }, ..c },
        BackButton::Left4 => ControlsConfig { back_button: BackButtonConfig { left: SpecificBackButtonConfig { forth: v, ..b.left }, ..b }, ..c },
        BackButton::Right1 => ControlsConfig { back_button: BackButtonConfig { right: SpecificBackButtonConfig { first: v, ..b.right }, ..b }, ..c },
        BackButton::Right2 => ControlsConfig { back_button: BackButtonConfig { right: SpecificBackButtonConfig { second: v, ..b.right }, ..b }, ..c },
        BackButton::Right3 => ControlsConfig { back_button: BackButtonConfig { right: SpecificBackButtonConfig { third: v, ..b.right }, ..b }, ..c },
        BackButton::Right4 => ControlsConfig { back_button: BackButtonConfig { right: SpecificBackButtonConfig { forth: v, ..b.right }, ..b }, ..c },
    }
}

/// `c` with the dead zone `key` set to `v`.
pub open spec fn with_dead_zone(c: ControlsConfig, key: DeadZone, v: i8) -> ControlsConfig {
    let d = c.dead_zones;
    match key {
        DeadZone::LeftCenter => ControlsConfig { dead_zones: DeadZonesConfig { left: SpecificDeadZone { center: v, ..d.left }, ..d }, ..c },
        DeadZone::LeftBorder => ControlsConfig { dead_zones: DeadZonesConfig { left: SpecificDeadZone { border: v, ..d.left }, ..d }, ..c },
        DeadZone::RightCenter => ControlsConfig { dead_zones: DeadZonesConfig { right: SpecificDeadZone { center: v, ..d.right }, ..d }, ..c },
        DeadZone::RightBorder => ControlsConfig { dead_zones: DeadZonesConfig { right: SpecificDeadZone { border: v, ..d.right }, ..d }, ..c },
    }
}

/// `c` with the back-paddle delay `key` set to `v`.
pub open spec fn with_delay(c: ControlsConfig, key: BackButtonDelay, v: u8) -> ControlsConfig {
    let b = c.back_button;
    match key {
        BackButtonDelay::Left1 => ControlsConfig { back_button: BackButtonConfig { left: SpecificBackButtonConfig { first_delay: v, ..b.left }, ..b }, ..c },
        BackButtonDelay::Left2 => ControlsConfig { back_button: BackButtonConfig { left: SpecificBackButtonConfig { second_delay: v, ..b.left }, ..b }, ..c },
        BackButtonDelay::Left3 => ControlsConfig { back_button: BackButtonConfig { left: SpecificBackButtonConfig { third_delay: v, ..b.left }, ..b }, ..c },
        BackButtonDelay::Right1 => ControlsConfig { back_button: BackButtonConfig { right: SpecificBackButtonConfig { first_delay: v, ..b.right }, ..b }, ..c },
        BackButtonDelay::Right2 => ControlsConfig { back_button: BackButtonConfig { right: SpecificBackButtonConfig { second_delay: v, ..b.right }, ..b }, ..c },
        BackButtonDelay::Right3 => ControlsConfig { back_button: BackButtonConfig { right: SpecificBackButtonConfig { third_delay: v, ..b.right }, ..b }, ..c },
    }
}

/// How a dead-zone setting is named in messages.
pub open spec fn dead_zone_field(key: DeadZone) -> Seq<char> {
    match key {
        DeadZone::LeftCenter => "Left::Center"@,
        DeadZone::LeftBorder => "Left::Border"@,
        DeadZone::RightCenter => "Right::Center"@,
        DeadZone::RightBorder => "Right::Border"@,
    }
}

/// How a back-paddle delay is named in messages.
pub open spec fn delay_field(key: BackButtonDelay) -> Seq<char> {
    match key {
        BackButtonDelay::Left1 => "Left::First"@,
        BackButtonDelay::Left2 => "Left::Second"@,
        BackButtonDelay::Left3 => "Left::Third"@,
        BackButtonDelay::Right1 => "Right::First"@,
        BackButtonDelay::Right2 => "Right::Second"@,
        BackButtonDelay::Right3 => "Right::Third"@,
    }
}

/// The current value of a dead-zone setting.
pub open spec fn dead_zone_of(c: ControlsConfig, key: DeadZone) -> i8 {
    match key {
        DeadZone::LeftCenter => c.dead_zones.left.center,
        DeadZone::LeftBorder => c.dead_zones.left.border,
        DeadZone::RightCenter => c.dead_zones.right.center,
        DeadZone::RightBorder => c.dead_zones.right.border,
    }
}

/// The current value of a back-paddle delay.
pub open spec fn delay_of(c: ControlsConfig, key: BackButtonDelay) -> u8 {
    match key {
        BackButtonDelay::Left1 => c.back_button.left.first_delay,
        BackButtonDelay::Left2 => c.back_button.left.second_delay,
        BackButtonDelay::Left3 => c.back_button.left.third_delay,
        BackButtonDelay::Right1 => c.back_button.right.first_delay,
        BackButtonDelay::Right2 => c.back_button.right.second_delay,
        BackButtonDelay::Right3 => c.back_button.right.third_delay,
    }
}

impl DeadZone {
    /// How this setting is named in messages.
    pub fn field_name(self) -> (r: &'static str)
        ensures
            r@ == dead_zone_field(self),
    {
        match self {
            DeadZone::LeftCenter => "Left::Center",
            DeadZone::LeftBorder => "Left::Border",
            DeadZone::RightCenter => "Right::Center",
            DeadZone::RightBorder => "Right::Border",
        }
    }
}

impl BackButtonDelay {
    /// How this delay is named in messages.
    pub fn field_name(self) -> (r: &'static str)
        ensures
            r@ == delay_field(self),
    {
        match self {
            BackButtonDelay::Left1 => "Left::First",
            BackButtonDelay::Left2 => "Left::Second",
            BackButtonDelay::Left3 => "Left::Third",
            BackButtonDelay::Right1 => "Right::First",
            BackButtonDelay::Right2 => "Right::Second",
            BackButtonDelay::Right3 => "Right::Third",
        }
    }
}

/// The message for the first illegal value of `c`, checking the dead zones
/// (left center, left border, right center, right border) and then the
/// delays (left first to third, right first to third); none if all are legal.
pub open spec fn first_range_violation(c: ControlsConfig) -> Option<Seq<char>> {
    if !dead_zone_in_range(c.dead_zones.left.center) {
        Some(dead_zone_text(c.dead_zones.left.center, "Left::Center"@, false))
    } else if !dead_zone_in_range(c.dead_zones.left.border) {
        Some(dead_zone_text(c.dead_zones.left.border, "Left::Border"@, false))
    } else if !dead_zone_in_range(c.dead_zones.right.center) {
        Some(dead_zone_text(c.dead_zones.right.center, "Right::Center"@, false))
    } else if !dead_zone_in_range(c.dead_zones.right.border) {
        Some(dead_zone_text(c.dead_zones.right.border, "Right::Border"@, false))
    } else if !delay_allowed(c.back_button.left.first_delay) {
        Some(delay_text(c.back_button.left.first_delay, "Left::First"@, false))
    } else if !delay_allowed(c.back_button.left.second_delay) {
        Some(delay_text(c.back_button.left.second_delay, "Left::Second"@, false))
    } else if !delay_allowed(c.back_button.left.third_delay) {
        Some(delay_text(c.back_button.left.third_delay, "Left::Third"@, false))
    } else if !delay_allowed(c.back_button.right.first_delay) {
        Some(delay_text(c.back_button.right.first_delay, "Right::First"@, false))
    } else if !delay_allowed(c.back_button.right.second_delay) {
        Some(delay_text(c.back_button.right.second_delay, "Right::Second"@, false))
    } else if !delay_allowed(c.back_button.right.third_delay) {
        Some(delay_text(c.back_button.right.third_delay, "Right::Third"@, false))
    } else {
        None
    }
}

impl RangeValidator {
    /// Checks every dead zone and delay of a whole configuration before it is
    /// written; the first illegal value is reported unless forced.
    pub fn validate_config(&self, config: &ControlsConfig) -> (r: Result<(), String>)
        ensures
            self.force ==> r is Ok,
            !self.force ==> (r is Ok <==> first_range_violation(*config) is None),
            !self.force ==> (r matches Err(e) ==> first_range_violation(*config) == Some(e@)),
    {
        self.validate_dead_zones(config.dead_zones.left.center, "Left::Center")?;
        self.validate_dead_zones(config.dead_zones.left.border, "Left::Border")?;
        self.validate_dead_zones(config.dead_zones.right.center, "Right::Center")?;
        self.validate_dead_zones(config.dead_zones.right.border, "Right::Border")?;
        self.validate_delay(config.back_button.left.first_delay, "Left::First")?;
        self.validate_delay(config.back_button.left.second_delay, "Left::Second")?;
        self.validate_delay(config.back_button.left.third_delay, "Left::Third")?;
        self.validate_delay(config.back_button.right.first_delay, "Right::First")?;
        self.validate_delay(config.back_button.right.second_delay, "Right::Second")?;
        self.validate_delay(config.back_button.right.third_delay, "Right::Third")?;
        Ok(())
    }
}

impl ControlsConfig {
    /// Maps one keyboard/mouse button.
    pub fn set_keyboard_mouse(&mut self, key: KeyboardMouse, value: HIDUsageIDu8)
        ensures
            *final(self) == with_keyboard_mouse(*old(self), key, value),
    {
        match key {
            KeyboardMouse::DPadUp => self.keyboard_mouse.directional_pad.up = value,
            KeyboardMouse::DPadDown => self.keyboard_mouse.directional_pad.down = value,
            KeyboardMouse::DPadLeft => self.keyboard_mouse.directional_pad.left = value,
            KeyboardMouse::DPadRight => self.keyboard_mouse.directional_pad.right = value,
            KeyboardMouse::AButton => self.keyboard_mouse.a = value,
            KeyboardMouse::BButton => self.keyboard_mouse.b = value,
            KeyboardMouse::XButton => self.keyboard_mouse.x = value,
            KeyboardMouse::YButton => self.keyboard_mouse.y = value,
            KeyboardMouse::LeftStickUp => self.keyboard_mouse.left_stick.up = value,
            KeyboardMouse::LeftStickDown => self.keyboard_mouse.left_stick.down = value,
            KeyboardMouse::LeftStickLeft => self.keyboard_mouse.left_stick.left = value,
            KeyboardMouse::LeftStickRight => self.keyboard_mouse.left_stick.right = value,
            KeyboardMouse::LeftStickPush => self.keyboard_mouse.left_stick.push = value,
            KeyboardMouse::RightStickPush => self.keyboard_mouse.right_stick_push = value,
        }
    }

    /// Maps one back-paddle slot.
    pub fn set_back_button(&mut self, key: BackButton, value: HIDUsageIDu8)
        ensures
            *final(self) == with_back_button(*old(self), key, value),
    {
        match key {
            BackButton::Left1 => self.back_button.left.first = value,
            BackButton::Left2 => self.back_button.left.second = value,
            BackButton::Left3 => self.back_button.left.third = value,
            BackButton::Left4 => self.back_button.left.forth = value,
            BackButton::Right1 => self.back_button.right.first = value,
            BackButton::Right2 => self.back_button.right.second = value,
            BackButton::Right3 => self.back_button.right.third = value,
            BackButton::Right4 => self.back_button.right.forth = value,
        }
    }

    /// Sets one dead zone after the validator accepted it; a refused value
    /// leaves the configuration as it was.
    pub fn write_dead_zone(&mut self, key: DeadZone, value: i8, validator: &RangeValidator) -> (r: Result<(), String>)
        ensures
            r is Ok <==> (dead_zone_in_range(value) || validator.force),
            r is Ok ==> *final(self) == with_dead_zone(*old(self), key, value),
            r matches Err(e) ==> *final(self) == *old(self) && e@ == dead_zone_text(value, dead_zone_field(key), false),
    {
        let v = validator.validate_dead_zones(value, key.field_name())?;
        match key {
            DeadZone::LeftCenter => self.dead_zones.left.center = v,
            DeadZone::LeftBorder => self.dead_zones.left.border = v,
            DeadZone::RightCenter => self.dead_zones.right.center = v,
            DeadZone::RightBorder => self.dead_zones.right.border = v,
        }
        Ok(())
    }

    /// Sets one back-paddle delay after the validator accepted it; a refused
    /// value leaves the configuration as it was.
    pub fn write_back_button_delay(&mut self, key: BackButtonDelay, value: u8, validator: &RangeValidator) -> (r: Result<(), String>)
        ensures
            r is Ok <==> (delay_allowed(value) || validator.force),
            r is Ok ==> *final(self) == with_delay(*old(self), key, value),
            r matches Err(e) ==> *final(self) == *old(self) && e@ == delay_text(value, delay_field(key), false),
    {
        let v = validator.validate_delay(value, key.field_name())?;
        match key {
            BackButtonDelay::Left1 => self.back_button.left.first_delay = v,
            BackButtonDelay::Left2 => self.back_button.left.second_delay = v,
            BackButtonDelay::Left3 => self.back_button.left.third_delay = v,
            BackButtonDelay::Right1 => self.back_button.right.first_delay = v,
            BackButtonDelay::Right2 => self.back_button.right.second_delay = v,
            BackButtonDelay::Right3 => self.back_button.right.third_delay = v,
        }
        Ok(())
    }
}

} // verus!
