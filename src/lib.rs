//! Driver for the Hitachi HD44780 character-display controller.
use vstd::prelude::*;

pub mod cmd;
pub mod error;
pub mod gpio_bus;
pub mod modes;
pub mod spy_driver;
pub mod write;

pub use crate::cmd::HD44780;
pub use crate::error::{HdError, PinRole};
pub use crate::gpio_bus::{BusOp, GpioBus};
pub use crate::modes::{DisplayMode, EntryMode, FunctionMode, ShiftMode};
pub use crate::spy_driver::{Command, SpyDriver};
pub use crate::write::{RegisterSelect, Write};

verus! {

/// Ordinary wait for an instruction to finish: 37 µs at the default
/// 270 kHz, plus 10%, rounded up.
pub const COMMAND_WAIT: u16 = 41;

} // verus!
