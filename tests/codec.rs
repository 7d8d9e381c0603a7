use gpd_linuxcontrols::controls_field::hid_usage_id_u8::HIDUsageIDu8;
use gpd_linuxcontrols::controls_field::ControlsConfig;
use gpd_linuxcontrols::enums::Vibrate;
use gpd_linuxcontrols::protocol::command::{
    read_command_frame, write_command_frame, ReadCommandMajor1MinorSerial, ReadCommandMajorSerial,
    WriteCommandMajor1MinorSerial, WriteCommandMajorSerial,
};
use gpd_linuxcontrols::protocol::function::{
    config_pages, decode_checksum, decode_config, decode_firmware_version, save_frame,
    write_config_frames,
};

fn sample_config() -> ControlsConfig {
    let mut c = ControlsConfig::default();
    c.keyboard_mouse.directional_pad.up = HIDUsageIDu8::from(0x52);
    c.keyboard_mouse.directional_pad.down = HIDUsageIDu8::from(0x51);
    c.keyboard_mouse.directional_pad.left = HIDUsageIDu8::from(0x50);
    c.keyboard_mouse.directional_pad.right = HIDUsageIDu8::from(0x4F);
    c.keyboard_mouse.a = HIDUsageIDu8::from(0x04);
    c.keyboard_mouse.b = HIDUsageIDu8::from(0x05);
    c.keyboard_mouse.x = HIDUsageIDu8::from(0x1B);
    c.keyboard_mouse.y = HIDUsageIDu8::from(0x1C);
    c.keyboard_mouse.left_stick.up = HIDUsageIDu8::from(0x1A);
    c.keyboard_mouse.left_stick.down = HIDUsageIDu8::from(0x16);
    c.keyboard_mouse.left_stick.left = HIDUsageIDu8::from(0x04);
    c.keyboard_mouse.left_stick.right = HIDUsageIDu8::from(0x07);
    c.keyboard_mouse.left_stick.push = HIDUsageIDu8::from(0x2C);
    c.keyboard_mouse.right_stick_push = HIDUsageIDu8::from(0xE8);
    c.back_button.left.first = HIDUsageIDu8::from(0x3A);
    c.back_button.left.second = HIDUsageIDu8::from(0x3B);
    c.back_button.left.third = HIDUsageIDu8::from(0x3C);
    c.back_button.left.forth = HIDUsageIDu8::from(0x3D);
    c.back_button.right.first = HIDUsageIDu8::from(0x3E);
    c.back_button.right.second = HIDUsageIDu8::from(0x3F);
    c.back_button.right.third = HIDUsageIDu8::from(0x40);
    c.back_button.right.forth = HIDUsageIDu8::from(0xF7);
    c.back_button.left.first_delay = 100;
    c.back_button.left.second_delay = 0;
    c.back_button.left.third_delay = 100;
    c.back_button.right.first_delay = 0;
    c.back_button.right.second_delay = 100;
    c.back_button.right.third_delay = 100;
    c.vibrate = Vibrate::Heavy;
    c.dead_zones.left.center = -10;
    c.dead_zones.left.border = 7;
    c.dead_zones.right.center = -3;
    c.dead_zones.right.border = 10;
    c
}

/// A stand-in for the device's staging registers: write page k fills bytes
/// 16k..16k+16, and the reply to read page m starts at byte 64m.
struct FakeDevice {
    registers: [u8; 128],
    committed: bool,
}

impl FakeDevice {
    fn new(fill: u8) -> FakeDevice {
        FakeDevice { registers: [fill; 128], committed: false }
    }

    fn set_report(&mut self, frame: &[u8; 33]) {
        assert_eq!(frame[0], 0x01);
        assert_eq!(frame[1], 0xA5);
        assert_eq!(frame[3], 0x5A);
        assert_eq!(frame[4], 0xFF - frame[2]);
        match frame[2] {
            0x21 => {
                let page = frame[6] as usize;
                for j in 0..16 {
                    self.registers[16 * page + j] = frame[8 + j];
                }
            }
            0x23 => self.committed = true,
            other => panic!("unexpected opcode {other:#X}"),
        }
    }

    fn reply(&self, page: usize) -> [u8; 65] {
        let mut r = [0xEEu8; 65];
        r[..64].copy_from_slice(&self.registers[64 * page..64 * page + 64]);
        r
    }
}

fn same(a: &ControlsConfig, b: &ControlsConfig) -> bool {
    format!("{:?}", a) == format!("{:?}", b)
}

#[test]
fn write_save_read_returns_written_config() {
    let config = sample_config();
    let mut device = FakeDevice::new(0x99);
    for frame in write_config_frames(&config).iter() {
        device.set_report(frame);
    }
    device.set_report(&save_frame());
    assert!(device.committed);
    let back = decode_config(&device.reply(0), &device.reply(1));
    assert!(same(&back, &config), "{:?} != {:?}", back, config);
}

#[test]
fn round_trip_ignores_bytes_outside_fields() {
    let config = sample_config();
    for fill in [0x00u8, 0x5A, 0xFF] {
        let mut device = FakeDevice::new(fill);
        for frame in write_config_frames(&config).iter() {
            device.set_report(frame);
        }
        let back = decode_config(&device.reply(0), &device.reply(1));
        assert!(same(&back, &config));
    }
}

#[test]
fn delays_reach_page_five() {
    let config = sample_config();
    let frames = write_config_frames(&config);
    assert_eq!(frames.len(), 5);
    let minors: Vec<u8> = frames.iter().map(|f| f[6]).collect();
    assert_eq!(minors, vec![0, 1, 3, 4, 5]);
    let page5 = &frames[4][8..];
    assert_eq!(page5[0], 100);
    assert_eq!(page5[2], 0);
    assert_eq!(page5[4], 100);
    assert_eq!(page5[8], 0);
    assert_eq!(page5[10], 100);
    assert_eq!(page5[12], 100);
    // page 4 keeps its own layout
    let page4 = &frames[3][8..];
    assert_eq!(page4[0], 0xF7);
    assert_eq!(page4[2], 2);
    assert_eq!(page4[8], 0xF6);
    assert_eq!(page4[9], 7);
    assert_eq!(page4[10], 0xFD);
    assert_eq!(page4[11], 10);
}

#[test]
fn pages_hold_fields_at_their_offsets() {
    let config = sample_config();
    let p = config_pages(&config);
    assert_eq!(p.page0, [0x52, 0, 0x51, 0, 0x50, 0, 0x4F, 0, 0x04, 0, 0x05, 0, 0x1B, 0, 0x1C, 0, 0, 0, 0, 0, 0, 0, 0, 0, 0]);
    assert_eq!(&p.page1[..12], &[0x1A, 0, 0x16, 0, 0x04, 0, 0x07, 0, 0x2C, 0, 0xE8, 0]);
    assert_eq!(&p.page3[..16], &[0, 0, 0x3A, 0, 0x3B, 0, 0x3C, 0, 0x3D, 0, 0x3E, 0, 0x3F, 0, 0x40, 0]);
    assert!(p.page1[12..].iter().all(|b| *b == 0));
    assert!(p.page3[16..].iter().all(|b| *b == 0));
}

#[test]
fn decode_reads_read_page_offsets() {
    let mut r0 = [0u8; 65];
    let mut r1 = [0u8; 65];
    r0[0] = 1;
    r0[26] = 2;
    r0[50] = 3;
    r0[62] = 4;
    r1[0] = 5;
    r1[2] = 1;
    r1[8] = 0xF6;
    r1[11] = 3;
    r1[16] = 100;
    r1[28] = 7;
    let c = decode_config(&r0, &r1);
    assert_eq!(u8::from(c.keyboard_mouse.directional_pad.up), 1);
    assert_eq!(u8::from(c.keyboard_mouse.right_stick_push), 2);
    assert_eq!(u8::from(c.back_button.left.first), 3);
    assert_eq!(u8::from(c.back_button.right.third), 4);
    assert_eq!(u8::from(c.back_button.right.forth), 5);
    assert_eq!(c.vibrate, Vibrate::Light);
    assert_eq!(c.dead_zones.left.center, -10);
    assert_eq!(c.dead_zones.right.border, 3);
    assert_eq!(c.back_button.left.first_delay, 100);
    assert_eq!(c.back_button.right.third_delay, 7);
}

#[test]
fn unknown_vibrate_byte_reads_as_disable() {
    let r0 = [0u8; 65];
    let mut r1 = [0u8; 65];
    r1[2] = 9;
    assert_eq!(decode_config(&r0, &r1).vibrate, Vibrate::Disable);
    r1[2] = 2;
    assert_eq!(decode_config(&r0, &r1).vibrate, Vibrate::Heavy);
}

#[test]
fn checksum_is_big_endian() {
    let mut r = [0u8; 65];
    r[31] = 0x2A;
    assert_eq!(decode_checksum(&r).value(), 42);
    for (i, b) in [1u8, 2, 3, 4, 5, 6, 7, 8].iter().enumerate() {
        r[24 + i] = *b;
    }
    r[23] = 0xFF;
    r[32] = 0xFF;
    assert_eq!(decode_checksum(&r).value(), 0x0102030405060708);
    let mut all = [0xFFu8; 65];
    all[0] = 0;
    assert_eq!(decode_checksum(&all).value(), u64::MAX);
}

#[test]
fn firmware_versions_at_nine_to_twelve() {
    let mut r = [0u8; 65];
    r[9] = 1;
    r[10] = 8;
    r[11] = 2;
    r[12] = 5;
    let v = decode_firmware_version(&r);
    assert_eq!(v.gamepad_firmware.major_version, 1);
    assert_eq!(v.gamepad_firmware.minor_version, 8);
    assert_eq!(v.keyboard_mouse_firmware.major_version, 2);
    assert_eq!(v.keyboard_mouse_firmware.minor_version, 5);
}

#[test]
fn read_frames_follow_opcode_table() {
    let cases = [
        (ReadCommandMajorSerial::Major0, 0x10u8, 0xEFu8, 0u8),
        (ReadCommandMajorSerial::Major1(ReadCommandMajor1MinorSerial::Minor0), 0x11, 0xEE, 0),
        (ReadCommandMajorSerial::Major1(ReadCommandMajor1MinorSerial::Minor1), 0x11, 0xEE, 1),
        (ReadCommandMajorSerial::Major1(ReadCommandMajor1MinorSerial::Minor3), 0x11, 0xEE, 3),
        (ReadCommandMajorSerial::Major2, 0x12, 0xED, 0),
    ];
    for (serial, major, check, minor) in cases {
        let f = read_command_frame(serial);
        assert_eq!(&f[..8], &[0x01, 0xA5, major, 0x5A, check, 0, minor, 0]);
        assert_eq!(f[4], 0xFF - f[2]);
        assert!(f[8..].iter().all(|b| *b == 0));
    }
}

#[test]
fn write_frames_carry_payload() {
    let mut load = [0u8; 25];
    for (i, b) in load.iter_mut().enumerate() {
        *b = i as u8 + 1;
    }
    let f = write_command_frame(WriteCommandMajorSerial::Major1(WriteCommandMajor1MinorSerial::Minor7), load);
    assert_eq!(&f[..8], &[0x01, 0xA5, 0x21, 0x5A, 0xDE, 0, 7, 0]);
    assert_eq!(&f[8..], &load[..]);
    let s = save_frame();
    assert_eq!(&s[..8], &[0x01, 0xA5, 0x23, 0x5A, 0xDC, 0, 0, 0]);
    assert!(s[8..].iter().all(|b| *b == 0));
}
