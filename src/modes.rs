use vstd::prelude::*;

verus! {

/// Display mode bits used with the display control command.
///
/// Only the bits of `DisplayMode::ALL` can be set.
#[derive(Clone, Copy, Debug, PartialEq, Eq, Structural)]
pub struct DisplayMode {
    bits: u8,
}

impl View for DisplayMode {
    type V = u8;

    closed spec fn view(&self) -> u8 {
        self.bits
    }
}

impl DisplayMode {
    pub const BLINK_OFF: u8 = 0x00;
    pub const BLINK_ON: u8 = 0x01;
    pub const CURSOR_OFF: u8 = 0x00;
    pub const CURSOR_ON: u8 = 0x02;
    pub const DISPLAY_OFF: u8 = 0x00;
    pub const DISPLAY_ON: u8 = 0x04;
    /// Every bit that has a meaning in this mode.
    pub const ALL: u8 = 0x07;

    /// The mode with the given bits, those outside `ALL` dropped.
    pub fn from_bits_truncate(bits: u8) -> (r: DisplayMode)
        ensures
            r@ == bits & DisplayMode::ALL,
    {
        DisplayMode { bits: bits & DisplayMode::ALL }
    }

    /// The mode as the bits of an instruction.
    pub fn bits(&self) -> (r: u8)
        ensures
            r == self@,
    {
        self.bits
    }

    /// Whether every bit of `flags` is set in this mode.
    pub fn contains(&self, flags: u8) -> (r: bool)
        ensures
            r == (self@ & flags == flags),
    {
        self.bits & flags == flags
    }
}

impl Default for DisplayMode {
    /// Blink, cursor and display all off.
    fn default() -> (r: DisplayMode)
        ensures
            r@ == 0x00,
    {
        DisplayMode { bits: 0x00 }
    }
}

/// Entry mode bits used with the entry mode set command.
///
/// Only the bits of `EntryMode::ALL` can be set.
#[derive(Clone, Copy, Debug, PartialEq, Eq, Structural)]
pub struct EntryMode {
    bits: u8,
}

impl View for EntryMode {
    type V = u8;

    closed spec fn view(&self) -> u8 {
        self.bits
    }
}

impl EntryMode {
    pub const ENTRY_LEFT: u8 = 0x02;
    pub const ENTRY_RIGHT: u8 = 0x00;
    pub const ENTRY_SHIFT_CURSOR: u8 = 0x00;
    pub const ENTRY_SHIFT_DISPLAY: u8 = 0x01;
    /// Every bit that has a meaning in this mode.
    pub const ALL: u8 = 0x03;

    /// The mode with the given bits, those outside `ALL` dropped.
    pub fn from_bits_truncate(bits: u8) -> (r: EntryMode)
        ensures
            r@ == bits & EntryMode::ALL,
    {
        EntryMode { bits: bits & EntryMode::ALL }
    }

    /// The mode as the bits of an instruction.
    pub fn bits(&self) -> (r: u8)
        ensures
            r == self@,
    {
        self.bits
    }

    /// Whether every bit of `flags` is set in this mode.
    pub fn contains(&self, flags: u8) -> (r: bool)
        ensures
            r == (self@ & flags == flags),
    {
        self.bits & flags == flags
    }
}

impl Default for EntryMode {
    /// The cursor moves left to right and the display does not shift.
    fn default() -> (r: EntryMode)
        ensures
            r@ == 0x02,
    {
        EntryMode { bits: 0x02 }
    }
}

/// Function mode bits used with the function set command.
///
/// Only the bits of `FunctionMode::ALL` can be set.
#[derive(Clone, Copy, Debug, PartialEq, Eq, Structural)]
pub struct FunctionMode {
    bits: u8,
}

impl View for FunctionMode {
    type V = u8;

    closed spec fn view(&self) -> u8 {
        self.bits
    }
}

impl FunctionMode {
    pub const BITS_4: u8 = 0x00;
    pub const BITS_8: u8 = 0x10;
    pub const LINES_1: u8 = 0x00;
    pub const LINES_2: u8 = 0x08;
    pub const DOTS_5X8: u8 = 0x00;
    pub const DOTS_5X10: u8 = 0x04;
    /// Every bit that has a meaning in this mode.
    pub const ALL: u8 = 0x1C;

    /// The mode with the given bits, those outside `ALL` dropped.
    pub fn from_bits_truncate(bits: u8) -> (r: FunctionMode)
        ensures
            r@ == bits & FunctionMode::ALL,
    {
        FunctionMode { bits: bits & FunctionMode::ALL }
    }

    /// The mode as the bits of an instruction.
    pub fn bits(&self) -> (r: u8)
        ensures
            r == self@,
    {
        self.bits
    }

    /// Whether every bit of `flags` is set in this mode.
    pub fn contains(&self, flags: u8) -> (r: bool)
        ensures
            r == (self@ & flags == flags),
    {
        self.bits & flags == flags
    }
}

impl Default for FunctionMode {
    /// A 4-bit bus, one line and the 5x8 font.
    fn default() -> (r: FunctionMode)
        ensures
            r@ == 0x00,
    {
        FunctionMode { bits: 0x00 }
    }
}

/// Shift mode bits used with the cursor or display shift command.
///
/// Only the bits of `ShiftMode::ALL` can be set.
#[derive(Clone, Copy, Debug, PartialEq, Eq, Structural)]
pub struct ShiftMode {
    bits: u8,
}

impl View for ShiftMode {
    type V = u8;

    closed spec fn view(&self) -> u8 {
        self.bits
    }
}

impl ShiftMode {
    pub const CURSOR_MOVE: u8 = 0x00;
    pub const DISPLAY_MOVE: u8 = 0x08;
    pub const MOVE_LEFT: u8 = 0x00;
    pub const MOVE_RIGHT: u8 = 0x04;
    /// Every bit that has a meaning in this mode.
    pub const ALL: u8 = 0x0C;

    /// The mode with the given bits, those outside `ALL` dropped.
    pub fn from_bits_truncate(bits: u8) -> (r: ShiftMode)
        ensures
            r@ == bits & ShiftMode::ALL,
    {
        ShiftMode { bits: bits & ShiftMode::ALL }
    }

    /// The mode as the bits of an instruction.
    pub fn bits(&self) -> (r: u8)
        ensures
            r == self@,
    {
        self.bits
    }

    /// Whether every bit of `flags` is set in this mode.
    pub fn contains(&self, flags: u8) -> (r: bool)
        ensures
            r == (self@ & flags == flags),
    {
        self.bits & flags == flags
    }
}

impl Default for ShiftMode {
    /// The cursor moves right.
    fn default() -> (r: ShiftMode)
        ensures
            r@ == 0x04,
    {
        ShiftMode { bits: 0x04 }
    }
}

} // verus!
