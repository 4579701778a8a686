use crate::error::HdError;
use crate::modes::{DisplayMode, EntryMode, FunctionMode, ShiftMode};
use crate::write::Write;
use vstd::prelude::*;

verus! {

/// Clears the display and sets DD RAM address 0.
pub const CLEAR_DISPLAY: u8 = 0x01;

/// Sets DD RAM address 0 and unshifts the display.
pub const RETURN_HOME: u8 = 0x02;

/// Sets the cursor direction and display shift on write; or'ed with [`EntryMode`] bits.
pub const ENTRY_MODE_SET: u8 = 0x04;

/// Turns display, cursor and blink on or off; or'ed with [`DisplayMode`] bits.
pub const DISPLAY_CONTROL: u8 = 0x08;

/// Moves the cursor or shifts the display; or'ed with [`ShiftMode`] bits.
pub const CURSOR_SHIFT: u8 = 0x10;

/// Sets bus width, line count and font; or'ed with [`FunctionMode`] bits.
pub const FUNCTION_SET: u8 = 0x20;

/// Sets the CG RAM address; or'ed with a 6-bit address.
pub const SET_CG_RAM_ADDR: u8 = 0x40;

/// Sets the DD RAM address; or'ed with a 7-bit address.
pub const SET_DD_RAM_ADDR: u8 = 0x80;

/// Clear and home take about 1.52 ms against the usual 37 µs: they wait
/// this many command delays.
pub const LONG_DELAY_FACTOR: u16 = 42;

/// The largest command delay whose long form still fits in a `u16`.
pub const MAX_COMMAND_DELAY: u16 = 1560;

/// The delay requested after clear and home.
pub open spec fn long_delay(base: u16) -> u16 {
    (base * LONG_DELAY_FACTOR) as u16
}

/// Opcode of the function set instruction for `mode`.
pub open spec fn function_set_opcode(mode: u8) -> u8 {
    FUNCTION_SET | mode
}

/// Whether `mode` asks for two lines together with the 5x10 font, which
/// the controller does not support.
pub open spec fn is_unsupported_function(mode: u8) -> bool {
    mode & FunctionMode::LINES_2 == FunctionMode::LINES_2 && mode & FunctionMode::DOTS_5X10
        == FunctionMode::DOTS_5X10
}

/// The HD44780 instruction set, built on one primitive, [`HD44780::command`],
/// that each driver supplies together with [`HD44780::init`].
pub trait HD44780: Write + Sized {
    /// Delay (µs) that lets the controller finish an ordinary instruction.
    ///
    /// Clear and home wait `LONG_DELAY_FACTOR` times as long.
    const COMMAND_DELAY: u16;

    /// Every driver's command delay leaves room for the long delay.
    proof fn lemma_command_delay_bound()
        ensures
            Self::COMMAND_DELAY <= MAX_COMMAND_DELAY,
    ;

    /// Holds when `after` and `r` are what sending `byte` with `delay` through
    /// [`HD44780::command`] may leave of `before`.
    spec fn command_post(
        before: Self,
        after: Self,
        byte: u8,
        delay: u16,
        r: Result<(), HdError>,
    ) -> bool;

    /// Sends the instruction `byte` to the controller and then waits `delay`
    /// µs for it to be carried out.
    fn command(&mut self, byte: u8, delay: u16) -> (r: Result<(), HdError>)
        ensures
            Self::command_post(*old(self), *final(self), byte, delay, r),
    ;

    /// Brings the controller into a known state, with the given modes or
    /// their defaults.
    fn init(
        &mut self,
        fs_mode: Option<FunctionMode>,
        dc_mode: Option<DisplayMode>,
        ems_mode: Option<EntryMode>,
    ) -> (r: Result<(), HdError>);

    /// Clears the display and sets DD RAM address 0.
    fn clear_display(&mut self) -> (r: Result<(), HdError>)
        ensures
            Self::command_post(
                *old(self),
                *final(self),
                CLEAR_DISPLAY,
                long_delay(Self::COMMAND_DELAY),
                r,
            ),
            long_delay(Self::COMMAND_DELAY) == LONG_DELAY_FACTOR * Self::COMMAND_DELAY,
            long_delay(Self::COMMAND_DELAY) >= 40 * Self::COMMAND_DELAY,
    {
        proof {
            Self::lemma_command_delay_bound();
        }
        let delay = Self::COMMAND_DELAY * LONG_DELAY_FACTOR;
        self.command(CLEAR_DISPLAY, delay)
    }

    /// Moves the cursor or shifts the display without changing DD RAM.
    fn cursor_shift(&mut self, mode: ShiftMode) -> (r: Result<(), HdError>)
        ensures
            Self::command_post(
                *old(self),
                *final(self),
                CURSOR_SHIFT | mode@,
                Self::COMMAND_DELAY,
                r,
            ),
    {
        let cmd = CURSOR_SHIFT | mode.bits();
        self.command(cmd, Self::COMMAND_DELAY)
    }

    /// Turns the display, the cursor and its blinking on or off.
    fn display_control(&mut self, mode: DisplayMode) -> (r: Result<(), HdError>)
        ensures
            Self::command_post(
                *old(self),
                *final(self),
                DISPLAY_CONTROL | mode@,
                Self::COMMAND_DELAY,
                r,
            ),
    {
        let cmd = DISPLAY_CONTROL | mode.bits();
        self.command(cmd, Self::COMMAND_DELAY)
    }

    /// Sets the cursor direction and whether the display shifts on write.
    fn entry_mode_set(&mut self, mode: EntryMode) -> (r: Result<(), HdError>)
        ensures
            Self::command_post(
                *old(self),
                *final(self),
                ENTRY_MODE_SET | mode@,
                Self::COMMAND_DELAY,
                r,
            ),
    {
        let cmd = ENTRY_MODE_SET | mode.bits();
        self.command(cmd, Self::COMMAND_DELAY)
    }

    /// Sets bus width, line count and font.
    ///
    /// Two lines together with the 5x10 font is refused with
    /// `InvalidConfiguration`, and nothing is sent.
    fn function_set(&mut self, mode: FunctionMode) -> (r: Result<(), HdError>)
        ensures
            is_unsupported_function(mode@) ==> r == Err::<(), HdError>(
                HdError::InvalidConfiguration,
            ) && *final(self) == *old(self),
            !is_unsupported_function(mode@) ==> Self::command_post(
                *old(self),
                *final(self),
                function_set_opcode(mode@),
                Self::COMMAND_DELAY,
                r,
            ),
    {
        if mode.contains(FunctionMode::LINES_2) && mode.contains(FunctionMode::DOTS_5X10) {
            return Err(HdError::InvalidConfiguration);
        }
        let cmd = FUNCTION_SET | mode.bits();
        self.command(cmd, Self::COMMAND_DELAY)
    }

    /// Sets DD RAM address 0 and unshifts the display; DD RAM is unchanged.
    fn return_home(&mut self) -> (r: Result<(), HdError>)
        ensures
            Self::command_post(
                *old(self),
                *final(self),
                RETURN_HOME,
                long_delay(Self::COMMAND_DELAY),
                r,
            ),
            long_delay(Self::COMMAND_DELAY) == LONG_DELAY_FACTOR * Self::COMMAND_DELAY,
            long_delay(Self::COMMAND_DELAY) >= 40 * Self::COMMAND_DELAY,
    {
        proof {
            Self::lemma_command_delay_bound();
        }
        let delay = Self::COMMAND_DELAY * LONG_DELAY_FACTOR;
        self.command(RETURN_HOME, delay)
    }

    /// Sets the CG RAM (custom character) address; only its low 6 bits count.
    fn set_cg_ram_addr(&mut self, address: u8) -> (r: Result<(), HdError>)
        ensures
            Self::command_post(
                *old(self),
                *final(self),
                SET_CG_RAM_ADDR | (address & 0x3F),
                Self::COMMAND_DELAY,
                r,
            ),
    {
        let address = address & 0b0011_1111;
        let cmd = SET_CG_RAM_ADDR | address;
        self.command(cmd, Self::COMMAND_DELAY)
    }

    /// Sets the DD RAM (display) address; only its low 7 bits count.
    fn set_dd_ram_addr(&mut self, address: u8) -> (r: Result<(), HdError>)
        ensures
            Self::command_post(
                *old(self),
                *final(self),
                SET_DD_RAM_ADDR | (address & 0x7F),
                Self::COMMAND_DELAY,
                r,
            ),
    {
        let address = address & 0b0111_1111;
        let cmd = SET_DD_RAM_ADDR | address;
        self.command(cmd, Self::COMMAND_DELAY)
    }
}

} // verus!
