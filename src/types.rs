use vstd::prelude::*;

verus! {

/// Width of the display in pixels.
pub const WIDTH: u32 = 240;

/// Height of the display in pixels.
pub const HEIGHT: u32 = 240;

/// The board's pins: the display's control lines and the eight buttons.
#[derive(Debug, Clone, Copy, PartialEq, Eq, Structural)]
pub enum PinMap {
    SpiRst,
    SpiDc,
    Backlight,
    KeyUp,
    KeyDown,
    KeyLeft,
    KeyRight,
    KeyPress,
    KeyOk,
    KeyMain,
    KeyCancel,
}

impl PinMap {
    /// The BCM number of the pin.
    pub open spec fn spec_pin_number(self) -> u8 {
        match self {
            PinMap::SpiRst => 27,
            PinMap::SpiDc => 25,
            PinMap::Backlight => 24,
            PinMap::KeyUp => 6,
            PinMap::KeyDown => 19,
            PinMap::KeyLeft => 5,
            PinMap::KeyRight => 26,
            PinMap::KeyPress => 13,
            PinMap::KeyOk => 21,
            PinMap::KeyMain => 20,
            PinMap::KeyCancel => 16,
        }
    }

    /// The BCM number of the pin.
    pub fn pin_number(self) -> (r: u8)
        ensures
            r == self.spec_pin_number(),
    {
        match self {
            PinMap::SpiRst => 27,
            PinMap::SpiDc => 25,
            PinMap::Backlight => 24,
            PinMap::KeyUp => 6,
            PinMap::KeyDown => 19,
            PinMap::KeyLeft => 5,
            PinMap::KeyRight => 26,
            PinMap::KeyPress => 13,
            PinMap::KeyOk => 21,
            PinMap::KeyMain => 20,
            PinMap::KeyCancel => 16,
        }
    }
}

/// The buttons, in the order in which they are polled.
pub open spec fn key_order() -> Seq<PinMap> {
    seq![
        PinMap::KeyUp,
        PinMap::KeyDown,
        PinMap::KeyLeft,
        PinMap::KeyRight,
        PinMap::KeyPress,
        PinMap::KeyOk,
        PinMap::KeyMain,
        PinMap::KeyCancel,
    ]
}

/// The buttons, in the order in which they are polled.
pub fn key_pins() -> (r: Vec<PinMap>)
    ensures
        r@ == key_order(),
{
    vec![
        PinMap::KeyUp,
        PinMap::KeyDown,
        PinMap::KeyLeft,
        PinMap::KeyRight,
        PinMap::KeyPress,
        PinMap::KeyOk,
        PinMap::KeyMain,
        PinMap::KeyCancel,
    ]
}

} // verus!
