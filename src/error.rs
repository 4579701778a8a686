use vstd::prelude::*;

verus! {

/// Which of the driver's output pins a failed write was aimed at.
#[derive(Clone, Copy, Debug, PartialEq, Eq, Structural)]
pub enum PinRole {
    RegisterSelect,
    Enable,
    Data,
}

/// The failures that the command set and the bus driver report.
#[derive(Clone, Copy, Debug, PartialEq, Eq, Structural)]
pub enum HdError {
    /// The data bus is neither 4 nor 8 pins wide, or an 8-bit function mode
    /// was asked of a 4-pin bus.
    InvalidDataBusLength,
    /// Two display lines and the 5x10 font were asked for together.
    InvalidConfiguration,
    /// Setting an output pin failed.
    PinWriteFailed(PinRole),
    /// The transport underneath the byte sink failed.
    UnderlyingIOFailure,
}

} // verus!
