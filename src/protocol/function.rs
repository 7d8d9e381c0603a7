use vstd::prelude::*;

use crate::controls_field::back_button::{BackButtonConfig, SpecificBackButtonConfig};
use crate::controls_field::dead_zones::{DeadZonesConfig, SpecificDeadZone};
use crate::controls_field::hid_usage_id_u8::{lemma_usage_byte_of_view, usage_byte};
use crate::controls_field::keyboard_mouse::{DirectionalPadConfig, KeyboardMouseConfig, LeftStickConfig};
use crate::controls_field::{Checksum, ControlsConfig, FirmwareVersion, Version};
use crate::enums::{lemma_vibrate_code_round_trip, vibrate_code, vibrate_lookup, Vibrate};
use crate::protocol::command::{
    is_frame, write_command_frame, WriteCommandMajor1MinorSerial, WriteCommandMajorSerial,
};

verus! {

/// The vibration setting shown by a reply byte: a byte that names no setting
/// (the device may report one while it changes state) reads as `Disable`.
pub open spec fn vibrate_of_byte(b: u8) -> Vibrate {
    match vibrate_lookup(b) {
        Ok(v) => v,
        Err(_) => Vibrate::Disable,
    }
}

/// The configuration that the replies to read pages 0 and 1 show. Every field
/// sits at an even offset, but for the four dead-zone bytes.
pub open spec fn config_of_replies(r0: Seq<u8>, r1: Seq<u8>) -> ControlsConfig {
    ControlsConfig {
        keyboard_mouse: KeyboardMouseConfig {
            directional_pad: DirectionalPadConfig {
                up: usage_byte(r0[0]),
                down: usage_byte(r0[2]),
                left: usage_byte(r0[4]),
                right: usage_byte(r0[6]),
            },
            a: usage_byte(r0[8]),
            b: usage_byte(r0[10]),
            x: usage_byte(r0[12]),
            y: usage_byte(r0[14]),
            left_stick: LeftStickConfig {
                up: usage_byte(r0[16]),
                down: usage_byte(r0[18]),
                left: usage_byte(r0[20]),
                right: usage_byte(r0[22]),
                push: usage_byte(r0[24]),
            },
            right_stick_push: usage_byte(r0[26]),
        },
        back_button: BackButtonConfig {
            left: SpecificBackButtonConfig {
                first: usage_byte(r0[50]),
                second: usage_byte(r0[52]),
                third: usage_byte(r0[54]),
                forth: usage_byte(r0[56]),
                first_delay: r1[16],
                second_delay: r1[18],
                third_delay: r1[20],
            },
            right: SpecificBackButtonConfig {
                first: usage_byte(r0[58]),
                second: usage_byte(r0[60]),
                third: usage_byte(r0[62]),
                forth: usage_byte(r1[0]),
                first_delay: r1[24],
                second_delay: r1[26],
                third_delay: r1[28],
            },
        },
        vibrate: vibrate_of_byte(r1[2]),
        dead_zones: DeadZonesConfig {
            left: SpecificDeadZone { center: r1[8] as i8, border: r1[9] as i8 },
            right: SpecificDeadZone { center: r1[10] as i8, border: r1[11] as i8 },
        },
    }
}

/// Byte `j` of write page `page` for configuration `c`; offsets that carry no
/// field hold zero. Pages 2, 6 and 7 are never written.
pub open spec fn page_byte(c: ControlsConfig, page: int, j: int) -> u8 {
    if page == 0 {
        if j == 0 {
            c.keyboard_mouse.directional_pad.up@
        } else if j == 2 {
            c.keyboard_mouse.directional_pad.down@
        } else if j == 4 {
            c.keyboard_mouse.directional_pad.left@
        } else if j == 6 {
            c.keyboard_mouse.directional_pad.right@
        } else if j == 8 {
            c.keyboard_mouse.a@
        } else if j == 10 {
            c.keyboard_mouse.b@
        } else if j == 12 {
            c.keyboard_mouse.x@
        } else if j == 14 {
            c.keyboard_mouse.y@
        } else {
            0
        }
    } else if page == 1 {
        if j == 0 {
            c.keyboard_mouse.left_stick.up@
        } else if j == 2 {
            c.keyboard_mouse.left_stick.down@
        } else if j == 4 {
            c.keyboard_mouse.left_stick.left@
        } else if j == 6 {
            c.keyboard_mouse.left_stick.right@
        } else if j == 8 {
            c.keyboard_mouse.left_stick.push@
        } else if j == 10 {
            c.keyboard_mouse.right_stick_push@
        } else {
            0
        }
    } else if page == 3 {
        if j == 2 {
            c.back_button.left.first@
        } else if j == 4 {
            c.back_button.left.second@
        } else if j == 6 {
            c.back_button.left.third@
        } else if j == 8 {
            c.back_button.left.forth@
        } else if j == 10 {
            c.back_button.right.first@
        } else if j == 12 {
            c.back_button.right.second@
        } else if j == 14 {
            c.back_button.right.third@
        } else {
            0
        }
    } else if page == 4 {
        if j == 0 {
            c.back_button.right.forth@
        } else if j == 2 {
            vibrate_code(c.vibrate)
        } else if j == 8 {
            c.dead_zones.left.center as u8
        } else if j == 9 {
            c.dead_zones.left.border as u8
        } else if j == 10 {
            c.dead_zones.right.center as u8
        } else if j == 11 {
            c.dead_zones.right.border as u8
        } else {
            0
        }
    } else if page == 5 {
        if j == 0 {
            c.back_button.left.first_delay
        } else if j == 2 {
            c.back_button.left.second_delay
        } else if j == 4 {
            c.back_button.left.third_delay
        } else if j == 8 {
            c.back_button.right.first_delay
        } else if j == 10 {
            c.back_button.right.second_delay
        } else if j == 12 {
            c.back_button.right.third_delay
        } else {
            0
        }
    } else {
        0
    }
}

/// The 25-byte payload of write page `page`.
pub open spec fn page_seq(c: ControlsConfig, page: int) -> Seq<u8> {
    Seq::new(25, |j: int| page_byte(c, page, j))
}

/// The payloads of the five pages that hold a configuration.
#[derive(Copy, Clone, Debug)]
pub struct ConfigPages {
    pub page0: [u8; 25],
    pub page1: [u8; 25],
    pub page3: [u8; 25],
    pub page4: [u8; 25],
    pub page5: [u8; 25],
}

/// Lays a configuration out on the payloads of write pages 0, 1, 3, 4 and 5.
pub fn config_pages(config: &ControlsConfig) -> (r: ConfigPages)
    ensures
        r.page0@ == page_seq(*config, 0),
        r.page1@ == page_seq(*config, 1),
        r.page3@ == page_seq(*config, 3),
        r.page4@ == page_seq(*config, 4),
        r.page5@ == page_seq(*config, 5),
{
    let mut load0: [u8; 25] = [0; 25];
    let mut load1: [u8; 25] = [0; 25];
    let mut load3: [u8; 25] = [0; 25];
    let mut load4: [u8; 25] = [0; 25];
    let mut load5: [u8; 25] = [0; 25];
    load0[0] = config.keyboard_mouse.directional_pad.up.into();
    load0[2] = config.keyboard_mouse.directional_pad.down.into();
    load0[4] = config.keyboard_mouse.directional_pad.left.into();
    load0[6] = config.keyboard_mouse.directional_pad.right.into();
    load0[8] = config.keyboard_mouse.a.into();
    load0[10] = config.keyboard_mouse.b.into();
    load0[12] = config.keyboard_mouse.x.into();
    load0[14] = config.keyboard_mouse.y.into();
    load1[0] = config.keyboard_mouse.left_stick.up.into();
    load1[2] = config.keyboard_mouse.left_stick.down.into();
    load1[4] = config.keyboard_mouse.left_stick.left.into();
    load1[6] = config.keyboard_mouse.left_stick.right.into();
    load1[8] = config.keyboard_mouse.left_stick.push.into();
    load1[10] = config.keyboard_mouse.right_stick_push.into();
    load3[2] = config.back_button.left.first.into();
    load3[4] = config.back_button.left.second.into();
    load3[6] = config.back_button.left.third.into();
    load3[8] = config.back_button.left.forth.into();
    load3[10] = config.back_button.right.first.into();
    load3[12] = config.back_button.right.second.into();
    load3[14] = config.back_button.right.third.into();
    load4[0] = config.back_button.right.forth.into();
    load4[2] = config.vibrate.into();
    load4[8] = config.dead_zones.left.center as u8;
    load4[9] = config.dead_zones.left.border as u8;
    load4[10] = config.dead_zones.right.center as u8;
    load4[11] = config.dead_zones.right.border as u8;
    load5[0] = config.back_button.left.first_delay;
    load5[2] = config.back_button.left.second_delay;
    load5[4] = config.back_button.left.third_delay;
    load5[8] = config.back_button.right.first_delay;
    load5[10] = config.back_button.right.second_delay;
    load5[12] = config.back_button.right.third_delay;
    assert(load0@ =~= page_seq(*config, 0));
    assert(load1@ =~= page_seq(*config, 1));
    assert(load3@ =~= page_seq(*config, 3));
    assert(load4@ =~= page_seq(*config, 4));
    assert(load5@ =~= page_seq(*config, 5));
    ConfigPages { page0: load0, page1: load1, page3: load3, page4: load4, page5: load5 }
}

/// Reads a configuration out of the replies to read pages 0 and 1.
pub fn decode_config(load0: &[u8; 65], load1: &[u8; 65]) -> (r: ControlsConfig)
    ensures
        r == config_of_replies(load0@, load1@),
{
    let vibrate = match Vibrate::try_from(load1[2]) {
        Ok(v) => v,
        Err(_) => Vibrate::Disable,
    };
    ControlsConfig {
        keyboard_mouse: KeyboardMouseConfig {
            directional_pad: DirectionalPadConfig {
                up: load0[0].into(),
                down: load0[2].into(),
                left: load0[4].into(),
                right: load0[6].into(),
            },
            a: load0[8].into(),
            b: load0[10].into(),
            x: load0[12].into(),
            y: load0[14].into(),
            left_stick: LeftStickConfig {
                up: load0[16].into(),
                down: load0[18].into(),
                left: load0[20].into(),
                right: load0[22].into(),
                push: load0[24].into(),
            },
            right_stick_push: load0[26].into(),
        },
        back_button: BackButtonConfig {
            left: SpecificBackButtonConfig {
                first: load0[50].into(),
                second: load0[52].into(),
                third: load0[54].into(),
                forth: load0[56].into(),
                first_delay: load1[16],
                second_delay: load1[18],
                third_delay: load1[20],
            },
            right: SpecificBackButtonConfig {
                first: load0[58].into(),
                second: load0[60].into(),
                third: load0[62].into(),
                forth: load1[0].into(),
                first_delay: load1[24],
                second_delay: load1[26],
                third_delay: load1[28],
            },
        },
        vibrate,
        dead_zones: DeadZonesConfig {
            left: SpecificDeadZone { center: load1[8] as i8, border: load1[9] as i8 },
            right: SpecificDeadZone { center: load1[10] as i8, border: load1[11] as i8 },
        },
    }
}

/// The frames that stage a configuration on the device, in the order they
/// are sent: write pages 0, 1, 3, 4 and 5, each with its own payload. They
/// take effect across a power cycle only after the commit frame.
pub fn write_config_frames(config: &ControlsConfig) -> (r: Vec<[u8; 33]>)
    ensures
        r.len() == 5,
        is_frame(r[0]@, 0x21, 0, page_seq(*config, 0)),
        is_frame(r[1]@, 0x21, 1, page_seq(*config, 1)),
        is_frame(r[2]@, 0x21, 3, page_seq(*config, 3)),
        is_frame(r[3]@, 0x21, 4, page_seq(*config, 4)),
        is_frame(r[4]@, 0x21, 5, page_seq(*config, 5)),
{
    let pages = config_pages(config);
    let mut frames: Vec<[u8; 33]> = Vec::new();
    frames.push(write_command_frame(WriteCommandMajorSerial::Major1(WriteCommandMajor1MinorSerial::Minor0), pages.page0));
    frames.push(write_command_frame(WriteCommandMajorSerial::Major1(WriteCommandMajor1MinorSerial::Minor1), pages.page1));
    frames.push(write_command_frame(WriteCommandMajorSerial::Major1(WriteCommandMajor1MinorSerial::Minor3), pages.page3));
    frames.push(write_command_frame(WriteCommandMajorSerial::Major1(WriteCommandMajor1MinorSerial::Minor4), pages.page4));
    frames.push(write_command_frame(WriteCommandMajorSerial::Major1(WriteCommandMajor1MinorSerial::Minor5), pages.page5));
    frames
}

/// The frame that commits the staged configuration to non-volatile storage.
pub fn save_frame() -> (r: [u8; 33])
    ensures
        is_frame(r@, 0x23, 0, Seq::new(25, |j: int| 0u8)),
{
    let zero: [u8; 25] = [0u8; 25];
    assert(zero@ =~= Seq::new(25, |j: int| 0u8));
    write_command_frame(WriteCommandMajorSerial::Major3, zero)
}

/// Firmware versions from the reply to read operation 0x10: gamepad major
/// and minor at offsets 9 and 10, keyboard/mouse at 11 and 12.
pub fn decode_firmware_version(load: &[u8; 65]) -> (r: FirmwareVersion)
    ensures
        r.gamepad_firmware.major_version == load@[9],
        r.gamepad_firmware.minor_version == load@[10],
        r.keyboard_mouse_firmware.major_version == load@[11],
        r.keyboard_mouse_firmware.minor_version == load@[12],
{
    FirmwareVersion {
        gamepad_firmware: Version { major_version: load[9], minor_version: load[10] },
        keyboard_mouse_firmware: Version { major_version: load[11], minor_version: load[12] },
    }
}

/// Eight bytes read as a big-endian unsigned integer.
pub open spec fn be_u64(s: Seq<u8>) -> int {
    s[0] * 0x100000000000000 + s[1] * 0x1000000000000 + s[2] * 0x10000000000 + s[3] * 0x100000000
        + s[4] * 0x1000000 + s[5] * 0x10000 + s[6] * 0x100 + s[7]
}

/// The checksum from the reply to read operation 0x12: bytes 24 to 31, big-endian.
pub fn decode_checksum(load: &[u8; 65]) -> (r: Checksum)
    ensures
        r@ == be_u64(load@.subrange(24, 32)),
{
    let v: u64 = (load[24] as u64) * 0x100000000000000 + (load[25] as u64) * 0x1000000000000
        + (load[26] as u64) * 0x10000000000 + (load[27] as u64) * 0x100000000
        + (load[28] as u64) * 0x1000000 + (load[29] as u64) * 0x10000 + (load[30] as u64) * 0x100
        + (load[31] as u64);
    Checksum::from(v)
}

/// What the device shows after the five configuration pages were written:
/// write page `k` fills staging bytes `16k .. 16k + 16`, and the reply to
/// read page `m` starts at staging byte `64m`. Bytes of the replies outside
/// these ranges, and payload bytes past the sixteenth, are left open.
pub open spec fn replies_show_pages(
    r0: Seq<u8>,
    r1: Seq<u8>,
    w0: Seq<u8>,
    w1: Seq<u8>,
    w3: Seq<u8>,
    w4: Seq<u8>,
    w5: Seq<u8>,
) -> bool {
    &&& r0.len() == 65
    &&& r1.len() == 65
    &&& forall|j: int| 0 <= j < 16 ==> #[trigger] r0[j] == w0[j]
    &&& forall|j: int| 0 <= j < 16 ==> #[trigger] r0[16 + j] == w1[j]
    &&& forall|j: int| 0 <= j < 16 ==> #[trigger] r0[48 + j] == w3[j]
    &&& forall|j: int| 0 <= j < 16 ==> #[trigger] r1[j] == w4[j]
    &&& forall|j: int| 0 <= j < 16 ==> #[trigger] r1[16 + j] == w5[j]
}

/// A configuration written as pages comes back unchanged when the device
/// shows those pages in its read replies, whatever the replies hold outside
/// the offsets that carry fields.
pub proof fn lemma_config_round_trip(c: ControlsConfig, r0: Seq<u8>, r1: Seq<u8>)
    requires
        replies_show_pages(
            r0,
            r1,
            page_seq(c, 0),
            page_seq(c, 1),
            page_seq(c, 3),
            page_seq(c, 4),
            page_seq(c, 5),
        ),
    ensures
        config_of_replies(r0, r1) == c,
{
    broadcast use lemma_usage_byte_of_view;

    let w0 = page_seq(c, 0);
    let w1 = page_seq(c, 1);
    let w3 = page_seq(c, 3);
    let w4 = page_seq(c, 4);
    let w5 = page_seq(c, 5);
    assert(r0[0] == w0[0] && r0[2] == w0[2] && r0[4] == w0[4] && r0[6] == w0[6]);
    assert(r0[8] == w0[8] && r0[10] == w0[10] && r0[12] == w0[12] && r0[14] == w0[14]);
    assert(r0[16int + 0] == w1[0] && r0[16int + 2] == w1[2] && r0[16int + 4] == w1[4]);
    assert(r0[16int + 6] == w1[6] && r0[16int + 8] == w1[8] && r0[16int + 10] == w1[10]);
    assert(r0[48int + 2] == w3[2] && r0[48int + 4] == w3[4] && r0[48int + 6] == w3[6] && r0[48int + 8] == w3[8]);
    assert(r0[48int + 10] == w3[10] && r0[48int + 12] == w3[12] && r0[48int + 14] == w3[14]);
    assert(r1[0] == w4[0] && r1[2] == w4[2] && r1[8] == w4[8] && r1[9] == w4[9]);
    assert(r1[10] == w4[10] && r1[11] == w4[11]);
    assert(r1[16int + 0] == w5[0] && r1[16int + 2] == w5[2] && r1[16int + 4] == w5[4]);
    assert(r1[16int + 8] == w5[8] && r1[16int + 10] == w5[10] && r1[16int + 12] == w5[12]);
    lemma_vibrate_code_round_trip(c.vibrate, 0);
    lemma_i8_byte_round_trip(c.dead_zones.left.center);
    lemma_i8_byte_round_trip(c.dead_zones.left.border);
    lemma_i8_byte_round_trip(c.dead_zones.right.center);
    lemma_i8_byte_round_trip(c.dead_zones.right.border);
}

/// A signed byte stored as its unsigned bit pattern reads back as itself.
proof fn lemma_i8_byte_round_trip(x: i8)
    ensures
        (x as u8) as i8 == x,
{
    assert((x as u8) as i8 == x) by (bit_vector);
}

} // verus!
