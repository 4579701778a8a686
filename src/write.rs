use crate::error::HdError;
use vstd::prelude::*;

verus! {

/// The raw write surface of a driver: bytes go to whichever RAM the
/// controller currently addresses.
pub trait Write {
    /// Sends bytes of `buf` as data and says how many it took, or, where
    /// it stopped short of the whole of `buf`, how many it left out.
    fn write(&mut self, buf: &[u8]) -> (r: Result<usize, HdError>);

    /// Nothing is buffered: every byte has gone out once `write` returns.
    fn flush(&mut self) -> (r: Result<(), HdError>);
}

/// Whether the controller reads the next byte as an instruction or as data.
#[derive(Clone, Copy, Debug, PartialEq, Eq, Structural)]
pub enum RegisterSelect {
    Cmnd,
    Data,
}

impl Default for RegisterSelect {
    /// Data, so that a stray write never lands as an instruction.
    fn default() -> (r: RegisterSelect)
        ensures
            r == RegisterSelect::Data,
    {
        RegisterSelect::Data
    }
}

} // verus!
