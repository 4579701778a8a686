use crate::cmd::HD44780;
use crate::error::HdError;
use crate::modes::{DisplayMode, EntryMode, FunctionMode};
use crate::write::Write;
use vstd::prelude::*;

verus! {

/// One instruction as a driver was asked to send it.
#[derive(Clone, Copy, Debug, PartialEq, Eq, Structural, PartialOrd, Ord)]
pub struct Command {
    pub byte: u8,
    /// Delay (µs) asked for after the instruction.
    pub delay: u16,
}

/// The modes that [`HD44780::init`] was called with.
pub type InitRecord = (Option<FunctionMode>, Option<DisplayMode>, Option<EntryMode>);

/// A driver that touches no hardware and records what it is asked to do.
#[derive(Debug)]
pub struct SpyDriver {
    /// Every instruction sent, in order.
    pub commands: Vec<Command>,
    /// The arguments of the last call of `init`, if there was one.
    ///
    /// Init is a sequence of instructions and mode settings rather than one
    /// instruction, so it is kept apart.
    pub init_command: Option<InitRecord>,
    /// Every data write, in order; writes to CG RAM and DD RAM alike.
    pub writes: Vec<Vec<u8>>,
}

impl SpyDriver {
    /// A spy that has recorded nothing.
    pub fn new() -> (r: SpyDriver)
        ensures
            r.commands@ == Seq::<Command>::empty(),
            r.init_command is None,
            r.writes@ == Seq::<Vec<u8>>::empty(),
    {
        SpyDriver { commands: Vec::new(), init_command: None, writes: Vec::new() }
    }

    /// The spy asks for no delay after an instruction.
    pub proof fn lemma_command_delay()
        ensures
            <SpyDriver as HD44780>::COMMAND_DELAY == 0,
    {
    }
}

impl Default for SpyDriver {
    /// The same as [`SpyDriver::new`].
    fn default() -> (r: SpyDriver)
        ensures
            r.commands@ == Seq::<Command>::empty(),
            r.init_command is None,
            r.writes@ == Seq::<Vec<u8>>::empty(),
    {
        SpyDriver::new()
    }
}

impl Write for SpyDriver {
    /// Records `buf` as one write and takes all of it.
    fn write(&mut self, buf: &[u8]) -> (r: Result<usize, HdError>)
        ensures
            r == Ok::<usize, HdError>(buf@.len() as usize),
            final(self).writes@.len() == old(self).writes@.len() + 1,
            final(self).writes@.drop_last() == old(self).writes@,
            final(self).writes@.last()@ == buf@,
            final(self).commands@ == old(self).commands@,
            final(self).init_command == old(self).init_command,
    {
        let bytes = vstd::slice::slice_to_vec(buf);
        self.writes.push(bytes);
        proof {
            assert(self.writes@.drop_last() =~= old(self).writes@);
        }
        Ok(buf.len())
    }

    fn flush(&mut self) -> (r: Result<(), HdError>)
        ensures
            r == Ok::<(), HdError>(()),
            *final(self) == *old(self),
    {
        Ok(())
    }
}

impl HD44780 for SpyDriver {
    const COMMAND_DELAY: u16 = 0;

    proof fn lemma_command_delay_bound() {
    }

    open spec fn command_post(
        before: SpyDriver,
        after: SpyDriver,
        byte: u8,
        delay: u16,
        r: Result<(), HdError>,
    ) -> bool {
        &&& r == Ok::<(), HdError>(())
        &&& after.commands@ == before.commands@.push(Command { byte, delay })
        &&& after.init_command == before.init_command
        &&& after.writes@ == before.writes@
    }

    /// Records the instruction and always succeeds.
    fn command(&mut self, byte: u8, delay: u16) -> (r: Result<(), HdError>) {
        self.commands.push(Command { byte, delay });
        Ok(())
    }

    /// Records the modes as given, without putting defaults in.
    fn init(
        &mut self,
        fs_mode: Option<FunctionMode>,
        dc_mode: Option<DisplayMode>,
        ems_mode: Option<EntryMode>,
    ) -> (r: Result<(), HdError>)
        ensures
            r == Ok::<(), HdError>(()),
            final(self).init_command == Some::<InitRecord>((fs_mode, dc_mode, ems_mode)),
            final(self).commands@ == old(self).commands@,
            final(self).writes@ == old(self).writes@,
    {
        self.init_command = Some((fs_mode, dc_mode, ems_mode));
        Ok(())
    }
}

} // verus!
