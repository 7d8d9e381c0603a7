use vstd::prelude::*;

use crate::controls_field::back_button::BackButtonConfig;
use crate::controls_field::dead_zones::DeadZonesConfig;
use crate::controls_field::keyboard_mouse::KeyboardMouseConfig;
use crate::enums::Vibrate;

pub mod back_button;
pub mod dead_zones;
pub mod edit;
pub mod hid_usage_id_u8;
pub mod keyboard_mouse;

verus! {

/// Everything that one read of the device reports: the configuration, the
/// firmware versions and the checksum.
#[derive(Copy, Clone, Debug)]
pub struct ControlsField {
    pub firmware_version: FirmwareVersion,
    pub keyboard_mouse: KeyboardMouseConfig,
    pub back_button: BackButtonConfig,
    pub vibrate: Vibrate,
    pub dead_zones: DeadZonesConfig,
    pub checksum: Checksum,
}

/// The device's 64-bit integrity value over its stored configuration.
#[derive(Copy, Clone, Debug)]
pub struct Checksum {
    value: u64,
}

impl View for Checksum {
    type V = u64;

    closed spec fn view(&self) -> u64 {
        self.value
    }
}

impl From<u64> for Checksum {
    fn from(value: u64) -> (r: Self)
        ensures
            r@ == value,
    {
        Checksum { value }
    }
}

impl vstd::std_specs::convert::FromSpecImpl<u64> for Checksum {
    open spec fn obeys_from_spec() -> bool {
        true
    }

    closed spec fn from_spec(v: u64) -> Self {
        Checksum { value: v }
    }
}

impl Checksum {
    /// The checksum as an integer.
    pub fn value(&self) -> (r: u64)
        ensures
            r == self@,
    {
        self.value
    }
}

/// Firmware versions of the gamepad and of its keyboard/mouse part.
#[derive(Copy, Clone, Debug)]
pub struct FirmwareVersion {
    pub gamepad_firmware: Version,
    pub keyboard_mouse_firmware: Version,
}

/// A major.minor firmware version.
#[derive(Copy, Clone, Debug)]
pub struct Version {
    pub major_version: u8,
    pub minor_version: u8,
}

/// The part of the device state that can be written: button mappings,
/// back-paddle mappings and delays, vibration and dead zones.
#[derive(Copy, Clone, Debug, Default)]
pub struct ControlsConfig {
    pub keyboard_mouse: KeyboardMouseConfig,
    pub back_button: BackButtonConfig,
    pub vibrate: Vibrate,
    pub dead_zones: DeadZonesConfig,
}

/// The writable part of a full snapshot.
pub open spec fn config_of_field(f: ControlsField) -> ControlsConfig {
    ControlsConfig {
        keyboard_mouse: f.keyboard_mouse,
        back_button: f.back_button,
        vibrate: f.vibrate,
        dead_zones: f.dead_zones,
    }
}

impl From<ControlsField> for ControlsConfig {
    fn from(value: ControlsField) -> (r: Self)
        ensures
            r == config_of_field(value),
    {
        ControlsConfig {
            keyboard_mouse: value.keyboard_mouse,
            back_button: value.back_button,
            vibrate: value.vibrate,
            dead_zones: value.dead_zones,
        }
    }
}

impl vstd::std_specs::convert::FromSpecImpl<ControlsField> for ControlsConfig {
    open spec fn obeys_from_spec() -> bool {
        true
    }

    open spec fn from_spec(v: ControlsField) -> ControlsConfig {
        config_of_field(v)
    }
}

impl ControlsField {
    /// A snapshot made of a configuration and the two read-only values read
    /// beside it.
    pub fn from_parts(config: ControlsConfig, firmware_version: FirmwareVersion, checksum: Checksum) -> (r: Self)
        ensures
            config_of_field(r) == config,
            r.firmware_version == firmware_version,
            r.checksum == checksum,
    {
        ControlsField {
            firmware_version,
            keyboard_mouse: config.keyboard_mouse,
            back_button: config.back_button,
            vibrate: config.vibrate,
            dead_zones: config.dead_zones,
            checksum,
        }
    }
}

} // verus!
