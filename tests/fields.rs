use gpd_linuxcontrols::controls_field::hid_usage_id_u8::HIDUsageIDu8;
use gpd_linuxcontrols::controls_field::{Checksum, ControlsConfig, ControlsField, FirmwareVersion, Version};
use gpd_linuxcontrols::enums::hid_usage_id::HIDUsageID;
use gpd_linuxcontrols::enums::{BackButton, BackButtonDelay, DeadZone, KeyboardMouse, Vibrate};
use gpd_linuxcontrols::protocol::raw::{get_report_header, parse_report_hex, set_report_header, HexDecodeError};
use gpd_linuxcontrols::protocol::{PRODUCT_ID, VENDOR_ID};
use gpd_linuxcontrols::validator::RangeValidator;
use gpd_linuxcontrols::{parse_hex, parse_hex_matched, trim_hex_prefixes, u8_from_str_radix, LoadArray, Radix};

fn byte(r: Result<HIDUsageIDu8, String>) -> u8 {
    u8::from(r.unwrap())
}

#[test]
fn every_byte_round_trips() {
    for b in 0..=255u8 {
        let h = HIDUsageIDu8::from(b);
        assert_eq!(u8::from(h), b);
        assert_eq!(HIDUsageIDu8::from(u8::from(h)), h);
    }
}

#[test]
fn named_and_unnamed_bytes() {
    assert_eq!(HIDUsageIDu8::from(0x04).usage_id(), Some(HIDUsageID::A));
    assert_eq!(HIDUsageIDu8::from(0xE9).usage_id(), Some(HIDUsageID::MouseDown));
    assert_eq!(HIDUsageIDu8::from(0xA5).usage_id(), None);
    assert_eq!(HIDUsageIDu8::from(0xF7).usage_id(), None);
    assert_eq!(HIDUsageIDu8::default().usage_id(), Some(HIDUsageID::NoEvent));
    assert_eq!(u8::from(HIDUsageIDu8::from(HIDUsageID::Keypad000)), 0xB1);
}

#[test]
fn usage_id_table_is_a_bijection_onto_its_codes() {
    let mut named = 0;
    for b in 0..=255u8 {
        if let Ok(h) = HIDUsageID::try_from(b) {
            assert_eq!(u8::from(h), b);
            named += 1;
        }
    }
    assert_eq!(named, 221);
    assert_eq!(HIDUsageID::try_from(0xB0), Ok(HIDUsageID::Keypad00));
    assert_eq!(HIDUsageID::try_from(0xA5), Err(0xA5));
    assert_eq!(u8::from(HIDUsageID::KeyboardRightGUI), 0xE7);
    assert_eq!(u8::from(HIDUsageID::default()), 0);
}

#[test]
fn vibrate_codes() {
    assert_eq!(u8::from(Vibrate::Disable), 0);
    assert_eq!(u8::from(Vibrate::Light), 1);
    assert_eq!(u8::from(Vibrate::Heavy), 2);
    assert_eq!(Vibrate::try_from(2), Ok(Vibrate::Heavy));
    assert_eq!(Vibrate::try_from(3), Err(3));
    assert_eq!(Vibrate::default(), Vibrate::Disable);
}

#[test]
fn dead_zone_range_is_inclusive() {
    let strict = RangeValidator { force: false };
    for v in -10..=10i8 {
        assert_eq!(strict.validate_dead_zones(v, "Left::Center"), Ok(v));
    }
    for v in [-128i8, -11, 11, 127] {
        assert!(strict.validate_dead_zones(v, "Left::Center").is_err());
    }
    let forced = RangeValidator { force: true };
    for v in [-128i8, -11, 0, 11, 127] {
        assert_eq!(forced.validate_dead_zones(v, "Left::Center"), Ok(v));
    }
}

#[test]
fn dead_zone_messages() {
    let strict = RangeValidator { force: false };
    assert_eq!(
        strict.validate_dead_zones(-11, "Left::Center"),
        Err("Dead zones value -11 for field DeadZones::Left::Center not in range -10..=10, use --force to continue".to_string())
    );
    assert_eq!(strict.dead_zone_warning(-11, "Left::Center"), None);
    let forced = RangeValidator { force: true };
    assert_eq!(
        forced.dead_zone_warning(127, "Right::Border"),
        Some("Dead zones value 127 for field DeadZones::Right::Border not in range -10..=10, continue with --force".to_string())
    );
    assert_eq!(forced.dead_zone_warning(10, "Right::Border"), None);
}

#[test]
fn delay_is_zero_or_hundred() {
    let strict = RangeValidator { force: false };
    assert_eq!(strict.validate_delay(0, "Left::First"), Ok(0));
    assert_eq!(strict.validate_delay(100, "Left::First"), Ok(100));
    for v in [1u8, 50, 99, 101, 255] {
        assert!(strict.validate_delay(v, "Left::First").is_err());
    }
    assert_eq!(
        strict.validate_delay(50, "Right::Third"),
        Err("Dead zones value 50 for field BackButton::Right::ThirdDelay not 0(0x00) or 100(0x64), use --force to continue".to_string())
    );
    let forced = RangeValidator { force: true };
    assert_eq!(forced.validate_delay(255, "Left::First"), Ok(255));
    assert_eq!(
        forced.delay_warning(7, "Left::Second"),
        Some("Dead zones value 7 for field BackButton::Left::SecondDelay not 0(0x00) or 100(0x64), continue with --force".to_string())
    );
    assert_eq!(forced.delay_warning(100, "Left::Second"), None);
}

#[test]
fn left_center_dead_zone_writes() {
    let mut config = ControlsConfig::default();
    let strict = RangeValidator { force: false };
    assert_eq!(config.write_dead_zone(DeadZone::LeftCenter, -10, &strict), Ok(()));
    assert_eq!(config.dead_zones.left.center, -10);
    let refused = config.write_dead_zone(DeadZone::LeftCenter, -11, &strict);
    let message = refused.unwrap_err();
    assert!(message.contains("Left::Center"), "{}", message);
    assert_eq!(config.dead_zones.left.center, -10);
    let forced = RangeValidator { force: true };
    assert_eq!(config.write_dead_zone(DeadZone::LeftCenter, -11, &forced), Ok(()));
    assert_eq!(config.dead_zones.left.center, -11);
    assert!(forced.dead_zone_warning(-11, DeadZone::LeftCenter.field_name()).is_some());
    assert_eq!(config.dead_zones.left.border, 0);
    assert_eq!(config.dead_zones.right.center, 0);
}

#[test]
fn single_field_edits() {
    let mut config = ControlsConfig::default();
    config.set_keyboard_mouse(KeyboardMouse::LeftStickPush, HIDUsageIDu8::from(0x2C));
    config.set_keyboard_mouse(KeyboardMouse::YButton, HIDUsageID::Y.into());
    config.set_back_button(BackButton::Right4, HIDUsageIDu8::from(0xE8));
    assert_eq!(u8::from(config.keyboard_mouse.left_stick.push), 0x2C);
    assert_eq!(u8::from(config.keyboard_mouse.y), 0x1C);
    assert_eq!(u8::from(config.back_button.right.forth), 0xE8);
    assert_eq!(u8::from(config.keyboard_mouse.x), 0);
    let strict = RangeValidator { force: false };
    assert_eq!(config.write_back_button_delay(BackButtonDelay::Right2, 100, &strict), Ok(()));
    assert_eq!(config.back_button.right.second_delay, 100);
    assert!(config.write_back_button_delay(BackButtonDelay::Left1, 5, &strict).unwrap_err().contains("Left::First"));
    assert_eq!(config.back_button.left.first_delay, 0);
}

#[test]
fn whole_config_validation_reports_first_problem() {
    let strict = RangeValidator { force: false };
    let mut config = ControlsConfig::default();
    assert_eq!(strict.validate_config(&config), Ok(()));
    config.back_button.right.third_delay = 3;
    config.dead_zones.right.border = 20;
    let e = strict.validate_config(&config).unwrap_err();
    assert!(e.contains("DeadZones::Right::Border"), "{}", e);
    config.dead_zones.right.border = 0;
    let e = strict.validate_config(&config).unwrap_err();
    assert!(e.contains("BackButton::Right::ThirdDelay"), "{}", e);
    assert_eq!(RangeValidator { force: true }.validate_config(&config), Ok(()));
}

#[test]
fn parse_hex_decimal_and_hex() {
    assert_eq!(byte(parse_hex("65")), 65);
    assert_eq!(byte(parse_hex("0")), 0);
    assert_eq!(byte(parse_hex("255")), 255);
    assert_eq!(byte(parse_hex("0x41")), 0x41);
    assert_eq!(byte(parse_hex("ff")), 0xFF);
    assert_eq!(byte(parse_hex("0xE8")), 0xE8);
    assert_eq!(byte(parse_hex("10")), 10);
    assert_eq!(byte(parse_hex("0a")), 10);
}

#[test]
fn parse_hex_errors() {
    assert_eq!(parse_hex("256"), Err("256 is not in 0..=255".to_string()));
    assert_eq!(parse_hex("0x100"), Err("100 is not in 0x00..=0xFF".to_string()));
    assert_eq!(parse_hex("zz"), Err("invalid digit found in string zz".to_string()));
    assert_eq!(parse_hex("-1"), Err("invalid digit found in string -1".to_string()));
    assert_eq!(parse_hex(""), Err("invalid digit found in string ".to_string()));
    assert!(parse_hex("0x").is_err());
}

#[test]
fn parse_after_classification() {
    assert_eq!(byte(parse_hex_matched("12", true, true)), 12);
    assert_eq!(byte(parse_hex_matched("12", false, true)), 0x12);
    assert_eq!(byte(parse_hex_matched("0x0x12", false, true)), 0x12);
    assert_eq!(parse_hex_matched("12", false, false), Err("invalid digit found in string 12".to_string()));
    assert_eq!(byte(u8_from_str_radix("200", Radix::Decimal)), 200);
    assert_eq!(byte(u8_from_str_radix("c8", Radix::Hexadecimal)), 200);
    assert_eq!(u8_from_str_radix("", Radix::Decimal), Err("cannot parse integer from empty string".to_string()));
    assert_eq!(u8_from_str_radix("1g", Radix::Hexadecimal), Err("invalid digit found in string".to_string()));
    assert_eq!(u8_from_str_radix("fff", Radix::Hexadecimal), Err("fff is not in 0x00..=0xFF".to_string()));
}

#[test]
fn strips_repeated_prefix() {
    assert_eq!(trim_hex_prefixes("0x0x1f"), "1f");
    assert_eq!(trim_hex_prefixes("1f"), "1f");
    assert_eq!(trim_hex_prefixes("0x"), "");
    assert_eq!(trim_hex_prefixes("00x1"), "00x1");
}

#[test]
fn load_array_as_hex() {
    let a: LoadArray<3> = LoadArray::from([0x01, 0xAB, 0x00]);
    assert_eq!(a.upper_hex(), "01 AB 00 ");
    let e: LoadArray<0> = LoadArray::from([]);
    assert_eq!(e.upper_hex(), "");
}

#[test]
fn raw_report_from_hex() {
    let text = "01a5105aef".to_string() + &"00".repeat(28);
    let frame = parse_report_hex(&text).unwrap();
    assert_eq!(&frame[..5], &[0x01, 0xA5, 0x10, 0x5A, 0xEF]);
    assert!(frame[5..].iter().all(|b| *b == 0));
    let prefixed = "0x".to_string() + &text.to_uppercase();
    assert_eq!(parse_report_hex(&prefixed).unwrap(), frame);
    assert_eq!(parse_report_hex("012"), Err(HexDecodeError::OddLength));
    assert_eq!(parse_report_hex("0102"), Err(HexDecodeError::InvalidStringLength));
    let bad = "01a5105aeg".to_string() + &"00".repeat(28);
    assert_eq!(parse_report_hex(&bad), Err(HexDecodeError::InvalidHexCharacter { c: 'g', index: 9 }));
}

#[test]
fn transfer_parameters() {
    let set = set_report_header();
    assert_eq!((set.request_type, set.request, set.value, set.index), (0x21, 0x09, 0x0201, 2));
    let get = get_report_header();
    assert_eq!((get.request_type, get.request, get.value, get.index), (0xA1, 0x01, 0x0101, 2));
    assert_eq!((VENDOR_ID, PRODUCT_ID), (0x2F24, 0x0135));
}

#[test]
fn snapshot_from_parts() {
    let mut config = ControlsConfig::default();
    config.vibrate = Vibrate::Light;
    let fw = FirmwareVersion {
        gamepad_firmware: Version { major_version: 1, minor_version: 2 },
        keyboard_mouse_firmware: Version { major_version: 3, minor_version: 4 },
    };
    let field = ControlsField::from_parts(config, fw, Checksum::from(0xABCDu64));
    assert_eq!(field.checksum.value(), 0xABCD);
    assert_eq!(field.firmware_version.keyboard_mouse_firmware.minor_version, 4);
    let back: ControlsConfig = field.into();
    assert_eq!(back.vibrate, Vibrate::Light);
}
