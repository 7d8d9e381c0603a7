use vstd::prelude::*;

verus! {

/// USB HID keyboard and keypad usage ids (usage page 0x07), followed by the
/// two mouse-move codes that the gamepad firmware adds after the standard table.
#[derive(Copy, Clone, PartialEq, Eq, Debug, Default, Structural)]
pub enum HIDUsageID {
    #[default]
    NoEvent,
    ErrorRollOver,
    PostFail,
    ErrorUndefined,
    A,
    B,
    C,
    D,
    E,
    F,
    G,
    H,
    I,
    J,
    K,
    L,
    M,
    N,
    O,
    P,
    Q,
    R,
    S,
    T,
    U,
    V,
    W,
    X,
    Y,
    Z,
    Digit1,
    Digit2,
    Digit3,
    Digit4,
    Digit5,
    Digit6,
    Digit7,
    Digit8,
    Digit9,
    Digit0,
    Enter,
    Escape,
    Backspace,
    Tab,
    Space,
    HyphenMinus,
    EqualsSign,
    LeftSquareBracket,
    RightSquareBracket,
    ReverseSolidus,
    Europe1,
    Semicolon,
    Apostrophe,
    GraveAccent,
    Comma,
    FullStop,
    Solidus,
    CapsLock,
    F1,
    F2,
    F3,
    F4,
    F5,
    F6,
    F7,
    F8,
    F9,
    F10,
    F11,
    F12,
    PrintScreen,
    ScrollLock,
    Pause,
    Insert,
    Home,
    PageUp,
    Delete,
    End,
    PageDown,
    RightArrow,
    LeftArrow,
    DownArrow,
    UpArrow,
    NumLock,
    KeypadSolidus,
    KeypadAsterisk,
    KeypadHyphenMinus,
    KeypadPlusSign,
    KeypadEnter,
    Keypad1,
    Keypad2,
    Keypad3,
    Keypad4,
    Keypad5,
    Keypad6,
    Keypad7,
    Keypad8,
    Keypad9,
    Keypad0,
    KeypadFullStop,
    Europe2,
    Application,
    Power,
    KeypadEqualsSign,
    F13,
    F14,
    F15,
    F16,
    F17,
    F18,
    F19,
    F20,
    F21,
    F22,
    F23,
    F24,
    Execute,
    Help,
    Menu,
    Select,
    Stop,
    Again,
    Undo,
    Cut,
    Copy,
    Paste,
    Find,
    Mute,
    VolumeUp,
    VolumeDown,
    LockingCapsLock,
    LockingNumLock,
    LockingScrollLock,
    KeypadComma,
    KeypadEqualSign,
    International1,
    International2,
    International3,
    International4,
    International5,
    International6,
    International7,
    International8,
    International9,
    LANG1,
    LANG2,
    LANG3,
    LANG4,
    LANG5,
    LANG6,
    LANG7,
    LANG8,
    LANG9,
    AlternateErase,
    SysReq,
    Cancel,
    Clear,
    Prior,
    Return,
    Separator,
    Out,
    Oper,
    ClearAgain,
    CrSelProp,
    ExSel,
    Keypad00,
    Keypad000,
    ThousandsSeparator,
    DecimalSeparator,
    CurrencyUnit,
    CurrencySubUnit,
    KeypadLeftParenthesis,
    KeypadRightParenthesis,
    KeypadLeftCurlyBracket,
    KeypadRightCurlyBracket,
    KeypadTab,
    KeypadBackspace,
    KeypadA,
    KeypadB,
    KeypadC,
    KeypadD,
    KeypadE,
    KeypadF,
    KeypadXOR,
    KeypadCircumflexAccent,
    KeypadPercentSign,
    KeypadLessThanSign,
    KeypadGreaterThanSign,
    KeypadAmpersand,
    KeypadDoubleAmpersand,
    KeypadVerticalLine,
    KeypadDoubleVerticalLine,
    KeypadColon,
    KeypadNumberSign,
    KeypadSpace,
    KeypadCommercialAt,
    KeypadExclamationMark,
    KeypadMemoryStore,
    KeypadMemoryRecall,
    KeypadMemoryClear,
    KeypadMemoryAdd,
    KeypadMemorySubtract,
    KeypadMemoryMultiply,
    KeypadMemoryDivide,
    KeypadAddOrSubtract,
    KeypadClear,
    KeypadClearEntry,
    KeypadBinary,
    KeypadOctal,
    KeypadDecimal,
    KeypadHexadecimal,
    KeyboardLeftControl,
    KeyboardLeftShift,
    KeyboardLeftAlt,
    KeyboardLeftGUI,
    KeyboardRightControl,
    KeyboardRightShift,
    KeyboardRightAlt,
    KeyboardRightGUI,
    MouseUp,
    MouseDown,
}

/// The byte that stands for each usage id.
pub open spec fn usage_code(h: HIDUsageID) -> u8 {
    match h {
        HIDUsageID::NoEvent => 0x00,
        HIDUsageID::ErrorRollOver => 0x01,
        HIDUsageID::PostFail => 0x02,
        HIDUsageID::ErrorUndefined => 0x03,
        HIDUsageID::A => 0x04,
        HIDUsageID::B => 0x05,
        HIDUsageID::C => 0x06,
        HIDUsageID::D => 0x07,
        HIDUsageID::E => 0x08,
        HIDUsageID::F => 0x09,
        HIDUsageID::G => 0x0A,
        HIDUsageID::H => 0x0B,
        HIDUsageID::I => 0x0C,
        HIDUsageID::J => 0x0D,
        HIDUsageID::K => 0x0E,
        HIDUsageID::L => 0x0F,
        HIDUsageID::M => 0x10,
        HIDUsageID::N => 0x11,
        HIDUsageID::O => 0x12,
        HIDUsageID::P => 0x13,
        HIDUsageID::Q => 0x14,
        HIDUsageID::R => 0x15,
        HIDUsageID::S => 0x16,
        HIDUsageID::T => 0x17,
        HIDUsageID::U => 0x18,
        HIDUsageID::V => 0x19,
        HIDUsageID::W => 0x1A,
        HIDUsageID::X => 0x1B,
        HIDUsageID::Y => 0x1C,
        HIDUsageID::Z => 0x1D,
        HIDUsageID::Digit1 => 0x1E,
        HIDUsageID::Digit2 => 0x1F,
        HIDUsageID::Digit3 => 0x20,
        HIDUsageID::Digit4 => 0x21,
        HIDUsageID::Digit5 => 0x22,
        HIDUsageID::Digit6 => 0x23,
        HIDUsageID::Digit7 => 0x24,
        HIDUsageID::Digit8 => 0x25,
        HIDUsageID::Digit9 => 0x26,
        HIDUsageID::Digit0 => 0x27,
        HIDUsageID::Enter => 0x28,
        HIDUsageID::Escape => 0x29,
        HIDUsageID::Backspace => 0x2A,
        HIDUsageID::Tab => 0x2B,
        HIDUsageID::Space => 0x2C,
        HIDUsageID::HyphenMinus => 0x2D,
        HIDUsageID::EqualsSign => 0x2E,
        HIDUsageID::LeftSquareBracket => 0x2F,
        HIDUsageID::RightSquareBracket => 0x30,
        HIDUsageID::ReverseSolidus => 0x31,
        HIDUsageID::Europe1 => 0x32,
        HIDUsageID::Semicolon => 0x33,
        HIDUsageID::Apostrophe => 0x34,
        HIDUsageID::GraveAccent => 0x35,
        HIDUsageID::Comma => 0x36,
        HIDUsageID::FullStop => 0x37,
        HIDUsageID::Solidus => 0x38,
        HIDUsageID::CapsLock => 0x39,
        HIDUsageID::F1 => 0x3A,
        HIDUsageID::F2 => 0x3B,
        HIDUsageID::F3 => 0x3C,
        HIDUsageID::F4 => 0x3D,
        HIDUsageID::F5 => 0x3E,
        HIDUsageID::F6 => 0x3F,
        HIDUsageID::F7 => 0x40,
        HIDUsageID::F8 => 0x41,
        HIDUsageID::F9 => 0x42,
        HIDUsageID::F10 => 0x43,
        HIDUsageID::F11 => 0x44,
        HIDUsageID::F12 => 0x45,
        HIDUsageID::PrintScreen => 0x46,
        HIDUsageID::ScrollLock => 0x47,
        HIDUsageID::Pause => 0x48,
        HIDUsageID::Insert => 0x49,
        HIDUsageID::Home => 0x4A,
        HIDUsageID::PageUp => 0x4B,
        HIDUsageID::Delete => 0x4C,
        HIDUsageID::End => 0x4D,
        HIDUsageID::PageDown => 0x4E,
        HIDUsageID::RightArrow => 0x4F,
        HIDUsageID::LeftArrow => 0x50,
        HIDUsageID::DownArrow => 0x51,
        HIDUsageID::UpArrow => 0x52,
        HIDUsageID::NumLock => 0x53,
        HIDUsageID::KeypadSolidus => 0x54,
        HIDUsageID::KeypadAsterisk => 0x55,
        HIDUsageID::KeypadHyphenMinus => 0x56,
        HIDUsageID::KeypadPlusSign => 0x57,
        HIDUsageID::KeypadEnter => 0x58,
        HIDUsageID::Keypad1 => 0x59,
        HIDUsageID::Keypad2 => 0x5A,
        HIDUsageID::Keypad3 => 0x5B,
        HIDUsageID::Keypad4 => 0x5C,
        HIDUsageID::Keypad5 => 0x5D,
        HIDUsageID::Keypad6 => 0x5E,
        HIDUsageID::Keypad7 => 0x5F,
        HIDUsageID::Keypad8 => 0x60,
        HIDUsageID::Keypad9 => 0x61,
        HIDUsageID::Keypad0 => 0x62,
        HIDUsageID::KeypadFullStop => 0x63,
        HIDUsageID::Europe2 => 0x64,
        HIDUsageID::Application => 0x65,
        HIDUsageID::Power => 0x66,
        HIDUsageID::KeypadEqualsSign => 0x67,
        HIDUsageID::F13 => 0x68,
        HIDUsageID::F14 => 0x69,
        HIDUsageID::F15 => 0x6A,
        HIDUsageID::F16 => 0x6B,
        HIDUsageID::F17 => 0x6C,
        HIDUsageID::F18 => 0x6D,
        HIDUsageID::F19 => 0x6E,
        HIDUsageID::F20 => 0x6F,
        HIDUsageID::F21 => 0x70,
        HIDUsageID::F22 => 0x71,
        HIDUsageID::F23 => 0x72,
        HIDUsageID::F24 => 0x73,
        HIDUsageID::Execute => 0x74,
        HIDUsageID::Help => 0x75,
        HIDUsageID::Menu => 0x76,
        HIDUsageID::Select => 0x77,
        HIDUsageID::Stop => 0x78,
        HIDUsageID::Again => 0x79,
        HIDUsageID::Undo => 0x7A,
        HIDUsageID::Cut => 0x7B,
        HIDUsageID::Copy => 0x7C,
        HIDUsageID::Paste => 0x7D,
        HIDUsageID::Find => 0x7E,
        HIDUsageID::Mute => 0x7F,
        HIDUsageID::VolumeUp => 0x80,
        HIDUsageID::VolumeDown => 0x81,
        HIDUsageID::LockingCapsLock => 0x82,
        HIDUsageID::LockingNumLock => 0x83,
        HIDUsageID::LockingScrollLock => 0x84,
        HIDUsageID::KeypadComma => 0x85,
        HIDUsageID::KeypadEqualSign => 0x86,
        HIDUsageID::International1 => 0x87,
        HIDUsageID::International2 => 0x88,
        HIDUsageID::International3 => 0x89,
        HIDUsageID::International4 => 0x8A,
        HIDUsageID::International5 => 0x8B,
        HIDUsageID::International6 => 0x8C,
        HIDUsageID::International7 => 0x8D,
        HIDUsageID::International8 => 0x8E,
        HIDUsageID::International9 => 0x8F,
        HIDUsageID::LANG1 => 0x90,
        HIDUsageID::LANG2 => 0x91,
        HIDUsageID::LANG3 => 0x92,
        HIDUsageID::LANG4 => 0x93,
        HIDUsageID::LANG5 => 0x94,
        HIDUsageID::LANG6 => 0x95,
        HIDUsageID::LANG7 => 0x96,
        HIDUsageID::LANG8 => 0x97,
        HIDUsageID::LANG9 => 0x98,
        HIDUsageID::AlternateErase => 0x99,
        HIDUsageID::SysReq => 0x9A,
        HIDUsageID::Cancel => 0x9B,
        HIDUsageID::Clear => 0x9C,
        HIDUsageID::Prior => 0x9D,
        HIDUsageID::Return => 0x9E,
        HIDUsageID::Separator => 0x9F,
        HIDUsageID::Out => 0xA0,
        HIDUsageID::Oper => 0xA1,
        HIDUsageID::ClearAgain => 0xA2,
        HIDUsageID::CrSelProp => 0xA3,
        HIDUsageID::ExSel => 0xA4,
        HIDUsageID::Keypad00 => 0xB0,
        HIDUsageID::Keypad000 => 0xB1,
        HIDUsageID::ThousandsSeparator => 0xB2,
        HIDUsageID::DecimalSeparator => 0xB3,
        HIDUsageID::CurrencyUnit => 0xB4,
        HIDUsageID::CurrencySubUnit => 0xB5,
        HIDUsageID::KeypadLeftParenthesis => 0xB6,
        HIDUsageID::KeypadRightParenthesis => 0xB7,
        HIDUsageID::KeypadLeftCurlyBracket => 0xB8,
        HIDUsageID::KeypadRightCurlyBracket => 0xB9,
        HIDUsageID::KeypadTab => 0xBA,
        HIDUsageID::KeypadBackspace => 0xBB,
        HIDUsageID::KeypadA => 0xBC,
        HIDUsageID::KeypadB => 0xBD,
        HIDUsageID::KeypadC => 0xBE,
        HIDUsageID::KeypadD => 0xBF,
        HIDUsageID::KeypadE => 0xC0,
        HIDUsageID::KeypadF => 0xC1,
        HIDUsageID::KeypadXOR => 0xC2,
        HIDUsageID::KeypadCircumflexAccent => 0xC3,
        HIDUsageID::KeypadPercentSign => 0xC4,
        HIDUsageID::KeypadLessThanSign => 0xC5,
        HIDUsageID::KeypadGreaterThanSign => 0xC6,
        HIDUsageID::KeypadAmpersand => 0xC7,
        HIDUsageID::KeypadDoubleAmpersand => 0xC8,
        HIDUsageID::KeypadVerticalLine => 0xC9,
        HIDUsageID::KeypadDoubleVerticalLine => 0xCA,
        HIDUsageID::KeypadColon => 0xCB,
        HIDUsageID::KeypadNumberSign => 0xCC,
        HIDUsageID::KeypadSpace => 0xCD,
        HIDUsageID::KeypadCommercialAt => 0xCE,
        HIDUsageID::KeypadExclamationMark => 0xCF,
        HIDUsageID::KeypadMemoryStore => 0xD0,
        HIDUsageID::KeypadMemoryRecall => 0xD1,
        HIDUsageID::KeypadMemoryClear => 0xD2,
        HIDUsageID::KeypadMemoryAdd => 0xD3,
        HIDUsageID::KeypadMemorySubtract => 0xD4,
        HIDUsageID::KeypadMemoryMultiply => 0xD5,
        HIDUsageID::KeypadMemoryDivide => 0xD6,
        HIDUsageID::KeypadAddOrSubtract => 0xD7,
        HIDUsageID::KeypadClear => 0xD8,
        HIDUsageID::KeypadClearEntry => 0xD9,
        HIDUsageID::KeypadBinary => 0xDA,
        HIDUsageID::KeypadOctal => 0xDB,
        HIDUsageID::KeypadDecimal => 0xDC,
        HIDUsageID::KeypadHexadecimal => 0xDD,
        HIDUsageID::KeyboardLeftControl => 0xE0,
        HIDUsageID::KeyboardLeftShift => 0xE1,
        HIDUsageID::KeyboardLeftAlt => 0xE2,
        HIDUsageID::KeyboardLeftGUI => 0xE3,
        HIDUsageID::KeyboardRightControl => 0xE4,
        HIDUsageID::KeyboardRightShift => 0xE5,
        HIDUsageID::KeyboardRightAlt => 0xE6,
        HIDUsageID::KeyboardRightGUI => 0xE7,
        HIDUsageID::MouseUp => 0xE8,
        HIDUsageID::MouseDown => 0xE9,
    }
}

/// The usage id that a byte stands for, if it stands for one.
pub open spec fn usage_of_code(b: u8) -> Option<HIDUsageID> {
    match b {
        0x00 => Some(HIDUsageID::NoEvent),
        0x01 => Some(HIDUsageID::ErrorRollOver),
        0x02 => Some(HIDUsageID::PostFail),
        0x03 => Some(HIDUsageID::ErrorUndefined),
        0x04 => Some(HIDUsageID::A),
        0x05 => Some(HIDUsageID::B),
        0x06 => Some(HIDUsageID::C),
        0x07 => Some(HIDUsageID::D),
        0x08 => Some(HIDUsageID::E),
        0x09 => Some(HIDUsageID::F),
        0x0A => Some(HIDUsageID::G),
        0x0B => Some(HIDUsageID::H),
        0x0C => Some(HIDUsageID::I),
        0x0D => Some(HIDUsageID::J),
        0x0E => Some(HIDUsageID::K),
        0x0F => Some(HIDUsageID::L),
        0x10 => Some(HIDUsageID::M),
        0x11 => Some(HIDUsageID::N),
        0x12 => Some(HIDUsageID::O),
        0x13 => Some(HIDUsageID::P),
        0x14 => Some(HIDUsageID::Q),
        0x15 => Some(HIDUsageID::R),
        0x16 => Some(HIDUsageID::S),
        0x17 => Some(HIDUsageID::T),
        0x18 => Some(HIDUsageID::U),
        0x19 => Some(HIDUsageID::V),
        0x1A => Some(HIDUsageID::W),
        0x1B => Some(HIDUsageID::X),
        0x1C => Some(HIDUsageID::Y),
        0x1D => Some(HIDUsageID::Z),
        0x1E => Some(HIDUsageID::Digit1),
        0x1F => Some(HIDUsageID::Digit2),
        0x20 => Some(HIDUsageID::Digit3),
        0x21 => Some(HIDUsageID::Digit4),
        0x22 => Some(HIDUsageID::Digit5),
        0x23 => Some(HIDUsageID::Digit6),
        0x24 => Some(HIDUsageID::Digit7),
        0x25 => Some(HIDUsageID::Digit8),
        0x26 => Some(HIDUsageID::Digit9),
        0x27 => Some(HIDUsageID::Digit0),
        0x28 => Some(HIDUsageID::Enter),
        0x29 => Some(HIDUsageID::Escape),
        0x2A => Some(HIDUsageID::Backspace),
        0x2B => Some(HIDUsageID::Tab),
        0x2C => Some(HIDUsageID::Space),
        0x2D => Some(HIDUsageID::HyphenMinus),
        0x2E => Some(HIDUsageID::EqualsSign),
        0x2F => Some(HIDUsageID::LeftSquareBracket),
        0x30 => Some(HIDUsageID::RightSquareBracket),
        0x31 => Some(HIDUsageID::ReverseSolidus),
        0x32 => Some(HIDUsageID::Europe1),
        0x33 => Some(HIDUsageID::Semicolon),
        0x34 => Some(HIDUsageID::Apostrophe),
        0x35 => Some(HIDUsageID::GraveAccent),
        0x36 => Some(HIDUsageID::Comma),
        0x37 => Some(HIDUsageID::FullStop),
        0x38 => Some(HIDUsageID::Solidus),
        0x39 => Some(HIDUsageID::CapsLock),
        0x3A => Some(HIDUsageID::F1),
        0x3B => Some(HIDUsageID::F2),
        0x3C => Some(HIDUsageID::F3),
        0x3D => Some(HIDUsageID::F4),
        0x3E => Some(HIDUsageID::F5),
        0x3F => Some(HIDUsageID::F6),
        0x40 => Some(HIDUsageID::F7),
        0x41 => Some(HIDUsageID::F8),
        0x42 => Some(HIDUsageID::F9),
        0x43 => Some(HIDUsageID::F10),
        0x44 => Some(HIDUsageID::F11),
        0x45 => Some(HIDUsageID::F12),
        0x46 => Some(HIDUsageID::PrintScreen),
        0x47 => Some(HIDUsageID::ScrollLock),
        0x48 => Some(HIDUsageID::Pause),
        0x49 => Some(HIDUsageID::Insert),
        0x4A => Some(HIDUsageID::Home),
        0x4B => Some(HIDUsageID::PageUp),
        0x4C => Some(HIDUsageID::Delete),
        0x4D => Some(HIDUsageID::End),
        0x4E => Some(HIDUsageID::PageDown),
        0x4F => Some(HIDUsageID::RightArrow),
        0x50 => Some(HIDUsageID::LeftArrow),
        0x51 => Some(HIDUsageID::DownArrow),
        0x52 => Some(HIDUsageID::UpArrow),
        0x53 => Some(HIDUsageID::NumLock),
        0x54 => Some(HIDUsageID::KeypadSolidus),
        0x55 => Some(HIDUsageID::KeypadAsterisk),
        0x56 => Some(HIDUsageID::KeypadHyphenMinus),
        0x57 => Some(HIDUsageID::KeypadPlusSign),
        0x58 => Some(HIDUsageID::KeypadEnter),
        0x59 => Some(HIDUsageID::Keypad1),
        0x5A => Some(HIDUsageID::Keypad2),
        0x5B => Some(HIDUsageID::Keypad3),
        0x5C => Some(HIDUsageID::Keypad4),
        0x5D => Some(HIDUsageID::Keypad5),
        0x5E => Some(HIDUsageID::Keypad6),
        0x5F => Some(HIDUsageID::Keypad7),
        0x60 => Some(HIDUsageID::Keypad8),
        0x61 => Some(HIDUsageID::Keypad9),
        0x62 => Some(HIDUsageID::Keypad0),
        0x63 => Some(HIDUsageID::KeypadFullStop),
        0x64 => Some(HIDUsageID::Europe2),
        0x65 => Some(HIDUsageID::Application),
        0x66 => Some(HIDUsageID::Power),
        0x67 => Some(HIDUsageID::KeypadEqualsSign),
        0x68 => Some(HIDUsageID::F13),
        0x69 => Some(HIDUsageID::F14),
        0x6A => Some(HIDUsageID::F15),
        0x6B => Some(HIDUsageID::F16),
        0x6C => Some(HIDUsageID::F17),
        0x6D => Some(HIDUsageID::F18),
        0x6E => Some(HIDUsageID::F19),
        0x6F => Some(HIDUsageID::F20),
        0x70 => Some(HIDUsageID::F21),
        0x71 => Some(HIDUsageID::F22),
        0x72 => Some(HIDUsageID::F23),
        0x73 => Some(HIDUsageID::F24),
        0x74 => Some(HIDUsageID::Execute),
        0x75 => Some(HIDUsageID::Help),
        0x76 => Some(HIDUsageID::Menu),
        0x77 => Some(HIDUsageID::Select),
        0x78 => Some(HIDUsageID::Stop),
        0x79 => Some(HIDUsageID::Again),
        0x7A => Some(HIDUsageID::Undo),
        0x7B => Some(HIDUsageID::Cut),
        0x7C => Some(HIDUsageID::Copy),
        0x7D => Some(HIDUsageID::Paste),
        0x7E => Some(HIDUsageID::Find),
        0x7F => Some(HIDUsageID::Mute),
        0x80 => Some(HIDUsageID::VolumeUp),
        0x81 => Some(HIDUsageID::VolumeDown),
        0x82 => Some(HIDUsageID::LockingCapsLock),
        0x83 => Some(HIDUsageID::LockingNumLock),
        0x84 => Some(HIDUsageID::LockingScrollLock),
        0x85 => Some(HIDUsageID::KeypadComma),
        0x86 => Some(HIDUsageID::KeypadEqualSign),
        0x87 => Some(HIDUsageID::International1),
        0x88 => Some(HIDUsageID::International2),
        0x89 => Some(HIDUsageID::International3),
        0x8A => Some(HIDUsageID::International4),
        0x8B => Some(HIDUsageID::International5),
        0x8C => Some(HIDUsageID::International6),
        0x8D => Some(HIDUsageID::International7),
        0x8E => Some(HIDUsageID::International8),
        0x8F => Some(HIDUsageID::International9),
        0x90 => Some(HIDUsageID::LANG1),
        0x91 => Some(HIDUsageID::LANG2),
        0x92 => Some(HIDUsageID::LANG3),
        0x93 => Some(HIDUsageID::LANG4),
        0x94 => Some(HIDUsageID::LANG5),
        0x95 => Some(HIDUsageID::LANG6),
        0x96 => Some(HIDUsageID::LANG7),
        0x97 => Some(HIDUsageID::LANG8),
        0x98 => Some(HIDUsageID::LANG9),
        0x99 => Some(HIDUsageID::AlternateErase),
        0x9A => Some(HIDUsageID::SysReq),
        0x9B => Some(HIDUsageID::Cancel),
        0x9C => Some(HIDUsageID::Clear),
        0x9D => Some(HIDUsageID::Prior),
        0x9E => Some(HIDUsageID::Return),
        0x9F => Some(HIDUsageID::Separator),
        0xA0 => Some(HIDUsageID::Out),
        0xA1 => Some(HIDUsageID::Oper),
        0xA2 => Some(HIDUsageID::ClearAgain),
        0xA3 => Some(HIDUsageID::CrSelProp),
        0xA4 => Some(HIDUsageID::ExSel),
        0xB0 => Some(HIDUsageID::Keypad00),
        0xB1 => Some(HIDUsageID::Keypad000),
        0xB2 => Some(HIDUsageID::ThousandsSeparator),
        0xB3 => Some(HIDUsageID::DecimalSeparator),
        0xB4 => Some(HIDUsageID::CurrencyUnit),
        0xB5 => Some(HIDUsageID::CurrencySubUnit),
        0xB6 => Some(HIDUsageID::KeypadLeftParenthesis),
        0xB7 => Some(HIDUsageID::KeypadRightParenthesis),
        0xB8 => Some(HIDUsageID::KeypadLeftCurlyBracket),
        0xB9 => Some(HIDUsageID::KeypadRightCurlyBracket),
        0xBA => Some(HIDUsageID::KeypadTab),
        0xBB => Some(HIDUsageID::KeypadBackspace),
        0xBC => Some(HIDUsageID::KeypadA),
        0xBD => Some(HIDUsageID::KeypadB),
        0xBE => Some(HIDUsageID::KeypadC),
        0xBF => Some(HIDUsageID::KeypadD),
        0xC0 => Some(HIDUsageID::KeypadE),
        0xC1 => Some(HIDUsageID::KeypadF),
        0xC2 => Some(HIDUsageID::KeypadXOR),
        0xC3 => Some(HIDUsageID::KeypadCircumflexAccent),
        0xC4 => Some(HIDUsageID::KeypadPercentSign),
        0xC5 => Some(HIDUsageID::KeypadLessThanSign),
        0xC6 => Some(HIDUsageID::KeypadGreaterThanSign),
        0xC7 => Some(HIDUsageID::KeypadAmpersand),
        0xC8 => Some(HIDUsageID::KeypadDoubleAmpersand),
        0xC9 => Some(HIDUsageID::KeypadVerticalLine),
        0xCA => Some(HIDUsageID::KeypadDoubleVerticalLine),
        0xCB => Some(HIDUsageID::KeypadColon),
        0xCC => Some(HIDUsageID::KeypadNumberSign),
        0xCD => Some(HIDUsageID::KeypadSpace),
        0xCE => Some(HIDUsageID::KeypadCommercialAt),
        0xCF => Some(HIDUsageID::KeypadExclamationMark),
        0xD0 => Some(HIDUsageID::KeypadMemoryStore),
        0xD1 => Some(HIDUsageID::KeypadMemoryRecall),
        0xD2 => Some(HIDUsageID::KeypadMemoryClear),
        0xD3 => Some(HIDUsageID::KeypadMemoryAdd),
        0xD4 => Some(HIDUsageID::KeypadMemorySubtract),
        0xD5 => Some(HIDUsageID::KeypadMemoryMultiply),
        0xD6 => Some(HIDUsageID::KeypadMemoryDivide),
        0xD7 => Some(HIDUsageID::KeypadAddOrSubtract),
        0xD8 => Some(HIDUsageID::KeypadClear),
        0xD9 => Some(HIDUsageID::KeypadClearEntry),
        0xDA => Some(HIDUsageID::KeypadBinary),
        0xDB => Some(HIDUsageID::KeypadOctal),
        0xDC => Some(HIDUsageID::KeypadDecimal),
        0xDD => Some(HIDUsageID::KeypadHexadecimal),
        0xE0 => Some(HIDUsageID::KeyboardLeftControl),
        0xE1 => Some(HIDUsageID::KeyboardLeftShift),
        0xE2 => Some(HIDUsageID::KeyboardLeftAlt),
        0xE3 => Some(HIDUsageID::KeyboardLeftGUI),
        0xE4 => Some(HIDUsageID::KeyboardRightControl),
        0xE5 => Some(HIDUsageID::KeyboardRightShift),
        0xE6 => Some(HIDUsageID::KeyboardRightAlt),
        0xE7 => Some(HIDUsageID::KeyboardRightGUI),
        0xE8 => Some(HIDUsageID::MouseUp),
        0xE9 => Some(HIDUsageID::MouseDown),
        _ => None,
    }
}

impl From<HIDUsageID> for u8 {
    fn from(h: HIDUsageID) -> (r: u8)
        ensures
            r == usage_code(h),
    {
        match h {
            HIDUsageID::NoEvent => 0x00,
            HIDUsageID::ErrorRollOver => 0x01,
            HIDUsageID::PostFail => 0x02,
            HIDUsageID::ErrorUndefined => 0x03,
            HIDUsageID::A => 0x04,
            HIDUsageID::B => 0x05,
            HIDUsageID::C => 0x06,
            HIDUsageID::D => 0x07,
            HIDUsageID::E => 0x08,
            HIDUsageID::F => 0x09,
            HIDUsageID::G => 0x0A,
            HIDUsageID::H => 0x0B,
            HIDUsageID::I => 0x0C,
            HIDUsageID::J => 0x0D,
            HIDUsageID::K => 0x0E,
            HIDUsageID::L => 0x0F,
            HIDUsageID::M => 0x10,
            HIDUsageID::N => 0x11,
            HIDUsageID::O => 0x12,
            HIDUsageID::P => 0x13,
            HIDUsageID::Q => 0x14,
            HIDUsageID::R => 0x15,
            HIDUsageID::S => 0x16,
            HIDUsageID::T => 0x17,
            HIDUsageID::U => 0x18,
            HIDUsageID::V => 0x19,
            HIDUsageID::W => 0x1A,
            HIDUsageID::X => 0x1B,
            HIDUsageID::Y => 0x1C,
            HIDUsageID::Z => 0x1D,
            HIDUsageID::Digit1 => 0x1E,
            HIDUsageID::Digit2 => 0x1F,
            HIDUsageID::Digit3 => 0x20,
            HIDUsageID::Digit4 => 0x21,
            HIDUsageID::Digit5 => 0x22,
            HIDUsageID::Digit6 => 0x23,
            HIDUsageID::Digit7 => 0x24,
            HIDUsageID::Digit8 => 0x25,
            HIDUsageID::Digit9 => 0x26,
            HIDUsageID::Digit0 => 0x27,
            HIDUsageID::Enter => 0x28,
            HIDUsageID::Escape => 0x29,
            HIDUsageID::Backspace => 0x2A,
            HIDUsageID::Tab => 0x2B,
            HIDUsageID::Space => 0x2C,
            HIDUsageID::HyphenMinus => 0x2D,
            HIDUsageID::EqualsSign => 0x2E,
            HIDUsageID::LeftSquareBracket => 0x2F,
            HIDUsageID::RightSquareBracket => 0x30,
            HIDUsageID::ReverseSolidus => 0x31,
            HIDUsageID::Europe1 => 0x32,
            HIDUsageID::Semicolon => 0x33,
            HIDUsageID::Apostrophe => 0x34,
            HIDUsageID::GraveAccent => 0x35,
            HIDUsageID::Comma => 0x36,
            HIDUsageID::FullStop => 0x37,
            HIDUsageID::Solidus => 0x38,
            HIDUsageID::CapsLock => 0x39,
            HIDUsageID::F1 => 0x3A,
            HIDUsageID::F2 => 0x3B,
            HIDUsageID::F3 => 0x3C,
            HIDUsageID::F4 => 0x3D,
            HIDUsageID::F5 => 0x3E,
            HIDUsageID::F6 => 0x3F,
            HIDUsageID::F7 => 0x40,
            HIDUsageID::F8 => 0x41,
            HIDUsageID::F9 => 0x42,
            HIDUsageID::F10 => 0x43,
            HIDUsageID::F11 => 0x44,
            HIDUsageID::F12 => 0x45,
            HIDUsageID::PrintScreen => 0x46,
            HIDUsageID::ScrollLock => 0x47,
            HIDUsageID::Pause => 0x48,
            HIDUsageID::Insert => 0x49,
            HIDUsageID::Home => 0x4A,
            HIDUsageID::PageUp => 0x4B,
            HIDUsageID::Delete => 0x4C,
            HIDUsageID::End => 0x4D,
            HIDUsageID::PageDown => 0x4E,
            HIDUsageID::RightArrow => 0x4F,
            HIDUsageID::LeftArrow => 0x50,
            HIDUsageID::DownArrow => 0x51,
            HIDUsageID::UpArrow => 0x52,
            HIDUsageID::NumLock => 0x53,
            HIDUsageID::KeypadSolidus => 0x54,
            HIDUsageID::KeypadAsterisk => 0x55,
            HIDUsageID::KeypadHyphenMinus => 0x56,
            HIDUsageID::KeypadPlusSign => 0x57,
            HIDUsageID::KeypadEnter => 0x58,
            HIDUsageID::Keypad1 => 0x59,
            HIDUsageID::Keypad2 => 0x5A,
            HIDUsageID::Keypad3 => 0x5B,
            HIDUsageID::Keypad4 => 0x5C,
            HIDUsageID::Keypad5 => 0x5D,
            HIDUsageID::Keypad6 => 0x5E,
            HIDUsageID::Keypad7 => 0x5F,
            HIDUsageID::Keypad8 => 0x60,
            HIDUsageID::Keypad9 => 0x61,
            HIDUsageID::Keypad0 => 0x62,
            HIDUsageID::KeypadFullStop => 0x63,
            HIDUsageID::Europe2 => 0x64,
            HIDUsageID::Application => 0x65,
            HIDUsageID::Power => 0x66,
            HIDUsageID::KeypadEqualsSign => 0x67,
            HIDUsageID::F13 => 0x68,
            HIDUsageID::F14 => 0x69,
            HIDUsageID::F15 => 0x6A,
            HIDUsageID::F16 => 0x6B,
            HIDUsageID::F17 => 0x6C,
            HIDUsageID::F18 => 0x6D,
            HIDUsageID::F19 => 0x6E,
            HIDUsageID::F20 => 0x6F,
            HIDUsageID::F21 => 0x70,
            HIDUsageID::F22 => 0x71,
            HIDUsageID::F23 => 0x72,
            HIDUsageID::F24 => 0x73,
            HIDUsageID::Execute => 0x74,
            HIDUsageID::Help => 0x75,
            HIDUsageID::Menu => 0x76,
            HIDUsageID::Select => 0x77,
            HIDUsageID::Stop => 0x78,
            HIDUsageID::Again => 0x79,
            HIDUsageID::Undo => 0x7A,
            HIDUsageID::Cut => 0x7B,
            HIDUsageID::Copy => 0x7C,
            HIDUsageID::Paste => 0x7D,
            HIDUsageID::Find => 0x7E,
            HIDUsageID::Mute => 0x7F,
            HIDUsageID::VolumeUp => 0x80,
            HIDUsageID::VolumeDown => 0x81,
            HIDUsageID::LockingCapsLock => 0x82,
            HIDUsageID::LockingNumLock => 0x83,
            HIDUsageID::LockingScrollLock => 0x84,
            HIDUsageID::KeypadComma => 0x85,
            HIDUsageID::KeypadEqualSign => 0x86,
            HIDUsageID::International1 => 0x87,
            HIDUsageID::International2 => 0x88,
            HIDUsageID::International3 => 0x89,
            HIDUsageID::International4 => 0x8A,
            HIDUsageID::International5 => 0x8B,
            HIDUsageID::International6 => 0x8C,
            HIDUsageID::International7 => 0x8D,
            HIDUsageID::International8 => 0x8E,
            HIDUsageID::International9 => 0x8F,
            HIDUsageID::LANG1 => 0x90,
            HIDUsageID::LANG2 => 0x91,
            HIDUsageID::LANG3 => 0x92,
            HIDUsageID::LANG4 => 0x93,
            HIDUsageID::LANG5 => 0x94,
            HIDUsageID::LANG6 => 0x95,
            HIDUsageID::LANG7 => 0x96,
            HIDUsageID::LANG8 => 0x97,
            HIDUsageID::LANG9 => 0x98,
            HIDUsageID::AlternateErase => 0x99,
            HIDUsageID::SysReq => 0x9A,
            HIDUsageID::Cancel => 0x9B,
            HIDUsageID::Clear => 0x9C,
            HIDUsageID::Prior => 0x9D,
            HIDUsageID::Return => 0x9E,
            HIDUsageID::Separator => 0x9F,
            HIDUsageID::Out => 0xA0,
            HIDUsageID::Oper => 0xA1,
            HIDUsageID::ClearAgain => 0xA2,
            HIDUsageID::CrSelProp => 0xA3,
            HIDUsageID::ExSel => 0xA4,
            HIDUsageID::Keypad00 => 0xB0,
            HIDUsageID::Keypad000 => 0xB1,
            HIDUsageID::ThousandsSeparator => 0xB2,
            HIDUsageID::DecimalSeparator => 0xB3,
            HIDUsageID::CurrencyUnit => 0xB4,
            HIDUsageID::CurrencySubUnit => 0xB5,
            HIDUsageID::KeypadLeftParenthesis => 0xB6,
            HIDUsageID::KeypadRightParenthesis => 0xB7,
            HIDUsageID::KeypadLeftCurlyBracket => 0xB8,
            HIDUsageID::KeypadRightCurlyBracket => 0xB9,
            HIDUsageID::KeypadTab => 0xBA,
            HIDUsageID::KeypadBackspace => 0xBB,
            HIDUsageID::KeypadA => 0xBC,
            HIDUsageID::KeypadB => 0xBD,
            HIDUsageID::KeypadC => 0xBE,
            HIDUsageID::KeypadD => 0xBF,
            HIDUsageID::KeypadE => 0xC0,
            HIDUsageID::KeypadF => 0xC1,
            HIDUsageID::KeypadXOR => 0xC2,
            HIDUsageID::KeypadCircumflexAccent => 0xC3,
            HIDUsageID::KeypadPercentSign => 0xC4,
            HIDUsageID::KeypadLessThanSign => 0xC5,
            HIDUsageID::KeypadGreaterThanSign => 0xC6,
            HIDUsageID::KeypadAmpersand => 0xC7,
            HIDUsageID::KeypadDoubleAmpersand => 0xC8,
            HIDUsageID::KeypadVerticalLine => 0xC9,
            HIDUsageID::KeypadDoubleVerticalLine => 0xCA,
            HIDUsageID::KeypadColon => 0xCB,
            HIDUsageID::KeypadNumberSign => 0xCC,
            HIDUsageID::KeypadSpace => 0xCD,
            HIDUsageID::KeypadCommercialAt => 0xCE,
            HIDUsageID::KeypadExclamationMark => 0xCF,
            HIDUsageID::KeypadMemoryStore => 0xD0,
            HIDUsageID::KeypadMemoryRecall => 0xD1,
            HIDUsageID::KeypadMemoryClear => 0xD2,
            HIDUsageID::KeypadMemoryAdd => 0xD3,
            HIDUsageID::KeypadMemorySubtract => 0xD4,
            HIDUsageID::KeypadMemoryMultiply => 0xD5,
            HIDUsageID::KeypadMemoryDivide => 0xD6,
            HIDUsageID::KeypadAddOrSubtract => 0xD7,
            HIDUsageID::KeypadClear => 0xD8,
            HIDUsageID::KeypadClearEntry => 0xD9,
            HIDUsageID::KeypadBinary => 0xDA,
            HIDUsageID::KeypadOctal => 0xDB,
            HIDUsageID::KeypadDecimal => 0xDC,
            HIDUsageID::KeypadHexadecimal => 0xDD,
            HIDUsageID::KeyboardLeftControl => 0xE0,
            HIDUsageID::KeyboardLeftShift => 0xE1,
            HIDUsageID::KeyboardLeftAlt => 0xE2,
            HIDUsageID::KeyboardLeftGUI => 0xE3,
            HIDUsageID::KeyboardRightControl => 0xE4,
            HIDUsageID::KeyboardRightShift => 0xE5,
            HIDUsageID::KeyboardRightAlt => 0xE6,
            HIDUsageID::KeyboardRightGUI => 0xE7,
            HIDUsageID::MouseUp => 0xE8,
            HIDUsageID::MouseDown => 0xE9,
        }
    }
}

impl vstd::std_specs::convert::FromSpecImpl<HIDUsageID> for u8 {
    open spec fn obeys_from_spec() -> bool {
        true
    }

    open spec fn from_spec(h: HIDUsageID) -> u8 {
        usage_code(h)
    }
}

impl TryFrom<u8> for HIDUsageID {
    type Error = u8;

    /// The usage id of a byte; a byte outside the table comes back as the error.
    fn try_from(b: u8) -> (r: Result<HIDUsageID, u8>)
        ensures
            r == code_lookup(b),
    {
        match b {
            0x00 => Ok(HIDUsageID::NoEvent),
            0x01 => Ok(HIDUsageID::ErrorRollOver),
            0x02 => Ok(HIDUsageID::PostFail),
            0x03 => Ok(HIDUsageID::ErrorUndefined),
            0x04 => Ok(HIDUsageID::A),
            0x05 => Ok(HIDUsageID::B),
            0x06 => Ok(HIDUsageID::C),
            0x07 => Ok(HIDUsageID::D),
            0x08 => Ok(HIDUsageID::E),
            0x09 => Ok(HIDUsageID::F),
            0x0A => Ok(HIDUsageID::G),
            0x0B => Ok(HIDUsageID::H),
            0x0C => Ok(HIDUsageID::I),
            0x0D => Ok(HIDUsageID::J),
            0x0E => Ok(HIDUsageID::K),
            0x0F => Ok(HIDUsageID::L),
            0x10 => Ok(HIDUsageID::M),
            0x11 => Ok(HIDUsageID::N),
            0x12 => Ok(HIDUsageID::O),
            0x13 => Ok(HIDUsageID::P),
            0x14 => Ok(HIDUsageID::Q),
            0x15 => Ok(HIDUsageID::R),
            0x16 => Ok(HIDUsageID::S),
            0x17 => Ok(HIDUsageID::T),
            0x18 => Ok(HIDUsageID::U),
            0x19 => Ok(HIDUsageID::V),
            0x1A => Ok(HIDUsageID::W),
            0x1B => Ok(HIDUsageID::X),
            0x1C => Ok(HIDUsageID::Y),
            0x1D => Ok(HIDUsageID::Z),
            0x1E => Ok(HIDUsageID::Digit1),
            0x1F => Ok(HIDUsageID::Digit2),
            0x20 => Ok(HIDUsageID::Digit3),
            0x21 => Ok(HIDUsageID::Digit4),
            0x22 => Ok(HIDUsageID::Digit5),
            0x23 => Ok(HIDUsageID::Digit6),
            0x24 => Ok(HIDUsageID::Digit7),
            0x25 => Ok(HIDUsageID::Digit8),
            0x26 => Ok(HIDUsageID::Digit9),
            0x27 => Ok(HIDUsageID::Digit0),
            0x28 => Ok(HIDUsageID::Enter),
            0x29 => Ok(HIDUsageID::Escape),
            0x2A => Ok(HIDUsageID::Backspace),
            0x2B => Ok(HIDUsageID::Tab),
            0x2C => Ok(HIDUsageID::Space),
            0x2D => Ok(HIDUsageID::HyphenMinus),
            0x2E => Ok(HIDUsageID::EqualsSign),
            0x2F => Ok(HIDUsageID::LeftSquareBracket),
            0x30 => Ok(HIDUsageID::RightSquareBracket),
            0x31 => Ok(HIDUsageID::ReverseSolidus),
            0x32 => Ok(HIDUsageID::Europe1),
            0x33 => Ok(HIDUsageID::Semicolon),
            0x34 => Ok(HIDUsageID::Apostrophe),
            0x35 => Ok(HIDUsageID::GraveAccent),
            0x36 => Ok(HIDUsageID::Comma),
            0x37 => Ok(HIDUsageID::FullStop),
            0x38 => Ok(HIDUsageID::Solidus),
            0x39 => Ok(HIDUsageID::CapsLock),
            0x3A => Ok(HIDUsageID::F1),
            0x3B => Ok(HIDUsageID::F2),
            0x3C => Ok(HIDUsageID::F3),
            0x3D => Ok(HIDUsageID::F4),
            0x3E => Ok(HIDUsageID::F5),
            0x3F => Ok(HIDUsageID::F6),
            0x40 => Ok(HIDUsageID::F7),
            0x41 => Ok(HIDUsageID::F8),
            0x42 => Ok(HIDUsageID::F9),
            0x43 => Ok(HIDUsageID::F10),
            0x44 => Ok(HIDUsageID::F11),
            0x45 => Ok(HIDUsageID::F12),
            0x46 => Ok(HIDUsageID::PrintScreen),
            0x47 => Ok(HIDUsageID::ScrollLock),
            0x48 => Ok(HIDUsageID::Pause),
            0x49 => Ok(HIDUsageID::Insert),
            0x4A => Ok(HIDUsageID::Home),
            0x4B => Ok(HIDUsageID::PageUp),
            0x4C => Ok(HIDUsageID::Delete),
            0x4D => Ok(HIDUsageID::End),
            0x4E => Ok(HIDUsageID::PageDown),
            0x4F => Ok(HIDUsageID::RightArrow),
            0x50 => Ok(HIDUsageID::LeftArrow),
            0x51 => Ok(HIDUsageID::DownArrow),
            0x52 => Ok(HIDUsageID::UpArrow),
            0x53 => Ok(HIDUsageID::NumLock),
            0x54 => Ok(HIDUsageID::KeypadSolidus),
            0x55 => Ok(HIDUsageID::KeypadAsterisk),
            0x56 => Ok(HIDUsageID::KeypadHyphenMinus),
            0x57 => Ok(HIDUsageID::KeypadPlusSign),
            0x58 => Ok(HIDUsageID::KeypadEnter),
            0x59 => Ok(HIDUsageID::Keypad1),
            0x5A => Ok(HIDUsageID::Keypad2),
            0x5B => Ok(HIDUsageID::Keypad3),
            0x5C => Ok(HIDUsageID::Keypad4),
            0x5D => Ok(HIDUsageID::Keypad5),
            0x5E => Ok(HIDUsageID::Keypad6),
            0x5F => Ok(HIDUsageID::Keypad7),
            0x60 => Ok(HIDUsageID::Keypad8),
            0x61 => Ok(HIDUsageID::Keypad9),
            0x62 => Ok(HIDUsageID::Keypad0),
            0x63 => Ok(HIDUsageID::KeypadFullStop),
            0x64 => Ok(HIDUsageID::Europe2),
            0x65 => Ok(HIDUsageID::Application),
            0x66 => Ok(HIDUsageID::Power),
            0x67 => Ok(HIDUsageID::KeypadEqualsSign),
            0x68 => Ok(HIDUsageID::F13),
            0x69 => Ok(HIDUsageID::F14),
            0x6A => Ok(HIDUsageID::F15),
            0x6B => Ok(HIDUsageID::F16),
            0x6C => Ok(HIDUsageID::F17),
            0x6D => Ok(HIDUsageID::F18),
            0x6E => Ok(HIDUsageID::F19),
            0x6F => Ok(HIDUsageID::F20),
            0x70 => Ok(HIDUsageID::F21),
            0x71 => Ok(HIDUsageID::F22),
            0x72 => Ok(HIDUsageID::F23),
            0x73 => Ok(HIDUsageID::F24),
            0x74 => Ok(HIDUsageID::Execute),
            0x75 => Ok(HIDUsageID::Help),
            0x76 => Ok(HIDUsageID::Menu),
            0x77 => Ok(HIDUsageID::Select),
            0x78 => Ok(HIDUsageID::Stop),
            0x79 => Ok(HIDUsageID::Again),
            0x7A => Ok(HIDUsageID::Undo),
            0x7B => Ok(HIDUsageID::Cut),
            0x7C => Ok(HIDUsageID::Copy),
            0x7D => Ok(HIDUsageID::Paste),
            0x7E => Ok(HIDUsageID::Find),
            0x7F => Ok(HIDUsageID::Mute),
            0x80 => Ok(HIDUsageID::VolumeUp),
            0x81 => Ok(HIDUsageID::VolumeDown),
            0x82 => Ok(HIDUsageID::LockingCapsLock),
            0x83 => Ok(HIDUsageID::LockingNumLock),
            0x84 => Ok(HIDUsageID::LockingScrollLock),
            0x85 => Ok(HIDUsageID::KeypadComma),
            0x86 => Ok(HIDUsageID::KeypadEqualSign),
            0x87 => Ok(HIDUsageID::International1),
            0x88 => Ok(HIDUsageID::International2),
            0x89 => Ok(HIDUsageID::International3),
            0x8A => Ok(HIDUsageID::International4),
            0x8B => Ok(HIDUsageID::International5),
            0x8C => Ok(HIDUsageID::International6),
            0x8D => Ok(HIDUsageID::International7),
            0x8E => Ok(HIDUsageID::International8),
            0x8F => Ok(HIDUsageID::International9),
            0x90 => Ok(HIDUsageID::LANG1),
            0x91 => Ok(HIDUsageID::LANG2),
            0x92 => Ok(HIDUsageID::LANG3),
            0x93 => Ok(HIDUsageID::LANG4),
            0x94 => Ok(HIDUsageID::LANG5),
            0x95 => Ok(HIDUsageID::LANG6),
            0x96 => Ok(HIDUsageID::LANG7),
            0x97 => Ok(HIDUsageID::LANG8),
            0x98 => Ok(HIDUsageID::LANG9),
            0x99 => Ok(HIDUsageID::AlternateErase),
            0x9A => Ok(HIDUsageID::SysReq),
            0x9B => Ok(HIDUsageID::Cancel),
            0x9C => Ok(HIDUsageID::Clear),
            0x9D => Ok(HIDUsageID::Prior),
            0x9E => Ok(HIDUsageID::Return),
            0x9F => Ok(HIDUsageID::Separator),
            0xA0 => Ok(HIDUsageID::Out),
            0xA1 => Ok(HIDUsageID::Oper),
            0xA2 => Ok(HIDUsageID::ClearAgain),
            0xA3 => Ok(HIDUsageID::CrSelProp),
            0xA4 => Ok(HIDUsageID::ExSel),
            0xB0 => Ok(HIDUsageID::Keypad00),
            0xB1 => Ok(HIDUsageID::Keypad000),
            0xB2 => Ok(HIDUsageID::ThousandsSeparator),
            0xB3 => Ok(HIDUsageID::DecimalSeparator),
            0xB4 => Ok(HIDUsageID::CurrencyUnit),
            0xB5 => Ok(HIDUsageID::CurrencySubUnit),
            0xB6 => Ok(HIDUsageID::KeypadLeftParenthesis),
            0xB7 => Ok(HIDUsageID::KeypadRightParenthesis),
            0xB8 => Ok(HIDUsageID::KeypadLeftCurlyBracket),
            0xB9 => Ok(HIDUsageID::KeypadRightCurlyBracket),
            0xBA => Ok(HIDUsageID::KeypadTab),
            0xBB => Ok(HIDUsageID::KeypadBackspace),
            0xBC => Ok(HIDUsageID::KeypadA),
            0xBD => Ok(HIDUsageID::KeypadB),
            0xBE => Ok(HIDUsageID::KeypadC),
            0xBF => Ok(HIDUsageID::KeypadD),
            0xC0 => Ok(HIDUsageID::KeypadE),
            0xC1 => Ok(HIDUsageID::KeypadF),
            0xC2 => Ok(HIDUsageID::KeypadXOR),
            0xC3 => Ok(HIDUsageID::KeypadCircumflexAccent),
            0xC4 => Ok(HIDUsageID::KeypadPercentSign),
            0xC5 => Ok(HIDUsageID::KeypadLessThanSign),
            0xC6 => Ok(HIDUsageID::KeypadGreaterThanSign),
            0xC7 => Ok(HIDUsageID::KeypadAmpersand),
            0xC8 => Ok(HIDUsageID::KeypadDoubleAmpersand),
            0xC9 => Ok(HIDUsageID::KeypadVerticalLine),
            0xCA => Ok(HIDUsageID::KeypadDoubleVerticalLine),
            0xCB => Ok(HIDUsageID::KeypadColon),
            0xCC => Ok(HIDUsageID::KeypadNumberSign),
            0xCD => Ok(HIDUsageID::KeypadSpace),
            0xCE => Ok(HIDUsageID::KeypadCommercialAt),
            0xCF => Ok(HIDUsageID::KeypadExclamationMark),
            0xD0 => Ok(HIDUsageID::KeypadMemoryStore),
            0xD1 => Ok(HIDUsageID::KeypadMemoryRecall),
            0xD2 => Ok(HIDUsageID::KeypadMemoryClear),
            0xD3 => Ok(HIDUsageID::KeypadMemoryAdd),
            0xD4 => Ok(HIDUsageID::KeypadMemorySubtract),
            0xD5 => Ok(HIDUsageID::KeypadMemoryMultiply),
            0xD6 => Ok(HIDUsageID::KeypadMemoryDivide),
            0xD7 => Ok(HIDUsageID::KeypadAddOrSubtract),
            0xD8 => Ok(HIDUsageID::KeypadClear),
            0xD9 => Ok(HIDUsageID::KeypadClearEntry),
            0xDA => Ok(HIDUsageID::KeypadBinary),
            0xDB => Ok(HIDUsageID::KeypadOctal),
            0xDC => Ok(HIDUsageID::KeypadDecimal),
            0xDD => Ok(HIDUsageID::KeypadHexadecimal),
            0xE0 => Ok(HIDUsageID::KeyboardLeftControl),
            0xE1 => Ok(HIDUsageID::KeyboardLeftShift),
            0xE2 => Ok(HIDUsageID::KeyboardLeftAlt),
            0xE3 => Ok(HIDUsageID::KeyboardLeftGUI),
            0xE4 => Ok(HIDUsageID::KeyboardRightControl),
            0xE5 => Ok(HIDUsageID::KeyboardRightShift),
            0xE6 => Ok(HIDUsageID::KeyboardRightAlt),
            0xE7 => Ok(HIDUsageID::KeyboardRightGUI),
            0xE8 => Ok(HIDUsageID::MouseUp),
            0xE9 => Ok(HIDUsageID::MouseDown),
            _ => Err(b),
        }
    }
}

/// `usage_of_code` in the shape that `TryFrom` returns.
pub open spec fn code_lookup(b: u8) -> Result<HIDUsageID, u8> {
    match usage_of_code(b) {
        Some(h) => Ok(h),
        None => Err(b),
    }
}

impl vstd::std_specs::convert::TryFromSpecImpl<u8> for HIDUsageID {
    open spec fn obeys_try_from_spec() -> bool {
        true
    }

    open spec fn try_from_spec(b: u8) -> Result<HIDUsageID, u8> {
        code_lookup(b)
    }
}

/// Every usage id is recovered from its byte.
pub proof fn lemma_usage_code_round_trip(h: HIDUsageID)
    ensures
        usage_of_code(usage_code(h)) == Some(h),
{
}

/// A byte that stands for a usage id is that usage id's byte.
pub proof fn lemma_usage_of_code_inverse(b: u8)
    ensures
        usage_of_code(b) matches Some(h) ==> usage_code(h) == b,
{
}

} // verus!
