use vstd::prelude::*;

pub mod hid_usage_id;

verus! {

/// The keyboard/mouse-mode buttons whose mapping can be set one at a time.
#[derive(Copy, Clone, PartialEq, Eq, Debug, Structural)]
pub enum KeyboardMouse {
    DPadUp,
    DPadDown,
    DPadLeft,
    DPadRight,
    AButton,
    BButton,
    XButton,
    YButton,
    LeftStickUp,
    LeftStickDown,
    LeftStickLeft,
    LeftStickRight,
    LeftStickPush,
    RightStickPush,
}

/// The four mapping slots of each back paddle.
#[derive(Copy, Clone, PartialEq, Eq, Debug, Structural)]
pub enum BackButton {
    Left1,
    Left2,
    Left3,
    Left4,
    Right1,
    Right2,
    Right3,
    Right4,
}

/// Vibration strength; on the wire 0, 1 and 2.
#[derive(Copy, Clone, PartialEq, Eq, Debug, Default, Structural)]
pub enum Vibrate {
    #[default]
    Disable,
    Light,
    Heavy,
}

/// The four stick dead-zone settings.
#[derive(Copy, Clone, PartialEq, Eq, Debug, Structural)]
pub enum DeadZone {
    LeftCenter,
    LeftBorder,
    RightCenter,
    RightBorder,
}

/// The back-paddle slots that carry a delay.
#[derive(Copy, Clone, PartialEq, Eq, Debug, Structural)]
pub enum BackButtonDelay {
    Left1,
    Left2,
    Left3,
    Right1,
    Right2,
    Right3,
}

/// The byte that the device uses for each vibration setting.
pub open spec fn vibrate_code(v: Vibrate) -> u8 {
    match v {
        Vibrate::Disable => 0,
        Vibrate::Light => 1,
        Vibrate::Heavy => 2,
    }
}

/// The vibration setting of a byte, or the byte itself where it names none.
pub open spec fn vibrate_lookup(b: u8) -> Result<Vibrate, u8> {
    if b == 0 {
        Ok(Vibrate::Disable)
    } else if b == 1 {
        Ok(Vibrate::Light)
    } else if b == 2 {
        Ok(Vibrate::Heavy)
    } else {
        Err(b)
    }
}

impl From<Vibrate> for u8 {
    fn from(v: Vibrate) -> (r: u8)
        ensures
            r == vibrate_code(v),
    {
        match v {
            Vibrate::Disable => 0,
            Vibrate::Light => 1,
            Vibrate::Heavy => 2,
        }
    }
}

impl vstd::std_specs::convert::FromSpecImpl<Vibrate> for u8 {
    open spec fn obeys_from_spec() -> bool {
        true
    }

    open spec fn from_spec(v: Vibrate) -> u8 {
        vibrate_code(v)
    }
}

impl TryFrom<u8> for Vibrate {
    type Error = u8;

    /// The vibration setting of a byte; any other byte comes back as the error.
    fn try_from(b: u8) -> (r: Result<Vibrate, u8>)
        ensures
            r == vibrate_lookup(b),
    {
        match b {
            0 => Ok(Vibrate::Disable),
            1 => Ok(Vibrate::Light),
            2 => Ok(Vibrate::Heavy),
            _ => Err(b),
        }
    }
}

impl vstd::std_specs::convert::TryFromSpecImpl<u8> for Vibrate {
    open spec fn obeys_try_from_spec() -> bool {
        true
    }

    open spec fn try_from_spec(b: u8) -> Result<Vibrate, u8> {
        vibrate_lookup(b)
    }
}

/// Each vibration setting is recovered from its byte, and a byte that names a
/// setting is that setting's byte.
pub proof fn lemma_vibrate_code_round_trip(v: Vibrate, b: u8)
    ensures
        vibrate_lookup(vibrate_code(v)) == Ok::<Vibrate, u8>(v),
        vibrate_lookup(b) matches Ok(w) ==> vibrate_code(w) == b,
{
}

} // verus!
