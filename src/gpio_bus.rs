use crate::cmd::{
    is_unsupported_function, long_delay, CLEAR_DISPLAY, DISPLAY_CONTROL, ENTRY_MODE_SET,
    FUNCTION_SET, HD44780,
};
use crate::error::{HdError, PinRole};
use crate::modes::{DisplayMode, EntryMode, FunctionMode};
use crate::write::{RegisterSelect, Write};
use crate::COMMAND_WAIT;
use vstd::prelude::*;
use vstd::string::StringSliceAdditionalSpecFns;

verus! {

/// One step asked of the pins or the clock of a GPIO-wired controller.
#[derive(Clone, Copy, Debug, PartialEq, Eq, Structural)]
pub enum BusOp {
    /// Set the register-select pin: high for data, low for an instruction.
    RegisterSelect(bool),
    /// Set the enable pin; the controller samples the bus on its rising edge.
    Enable(bool),
    /// Set data pin `.0` (0 carries the least significant bit) high or low.
    Data(usize, bool),
    /// Wait this many µs.
    DelayUs(u16),
}

impl BusOp {
    /// The pin that this step sets, or `None` for a wait.
    pub fn pin_role(&self) -> (r: Option<PinRole>)
        ensures
            r == match *self {
                BusOp::RegisterSelect(_) => Some(PinRole::RegisterSelect),
                BusOp::Enable(_) => Some(PinRole::Enable),
                BusOp::Data(_, _) => Some(PinRole::Data),
                BusOp::DelayUs(_) => None::<PinRole>,
            },
    {
        match self {
            BusOp::RegisterSelect(_) => Some(PinRole::RegisterSelect),
            BusOp::Enable(_) => Some(PinRole::Enable),
            BusOp::Data(_, _) => Some(PinRole::Data),
            BusOp::DelayUs(_) => None,
        }
    }
}

/// The longest write that goes out in one call; the rest is reported back.
pub const MAX_WRITE_LENGTH: usize = 80;

/// Power-on settling wait, in command delays (15 to 40 ms are needed).
pub const POWER_ON_DELAY_FACTOR: u16 = 1000;

/// Wait after the first reset instruction, in command delays (4.1 ms are needed).
pub const RESET_DELAY_FACTOR: u16 = 200;

/// Wait after the bus width instruction, in command delays (100 µs are needed).
pub const WIDTH_DELAY_FACTOR: u16 = 3;

/// The reset instruction that every prior state of the controller accepts.
pub const RESET_8BIT: u8 = 0x33;

/// The instruction that, after a reset, selects the 4-bit bus.
pub const RESET_4BIT: u8 = 0x32;

/// Whether a bus of `width` data pins can carry a byte.
pub open spec fn valid_width(width: usize) -> bool {
    width == 4 || width == 8
}

/// Level of the pin that carries bit `i` of `value`.
pub open spec fn pin_level(value: u8, i: int) -> bool {
    (value >> (i as u8)) & 1 == 1
}

/// Sets the first `count` data pins to the low bits of `value`, bit `i` on pin `i`.
pub open spec fn bus_bits_ops(value: u8, count: nat) -> Seq<BusOp> {
    Seq::new(count, |i: int| BusOp::Data(i as usize, pin_level(value, i)))
}

/// One enable strobe: low, high, low, each held at least 1 µs.
pub open spec fn enable_strobe() -> Seq<BusOp> {
    seq![
        BusOp::Enable(false),
        BusOp::DelayUs(1),
        BusOp::Enable(true),
        BusOp::DelayUs(1),
        BusOp::Enable(false),
        BusOp::DelayUs(1),
    ]
}

/// Sending `byte` over a bus of `width` pins: on 4 pins the high nibble and
/// then the low one, each with its strobe; on 8 pins the whole byte at once.
pub open spec fn byte_ops(width: usize, byte: u8) -> Seq<BusOp> {
    if width == 4 {
        bus_bits_ops(byte >> 4, 4) + enable_strobe() + bus_bits_ops(byte & 0x0F, 4)
            + enable_strobe()
    } else {
        bus_bits_ops(byte, 8) + enable_strobe()
    }
}

/// Sending the bytes of `bytes` in order.
pub open spec fn data_ops(width: usize, bytes: Seq<u8>) -> Seq<BusOp>
    decreases bytes.len(),
{
    if bytes.len() == 0 {
        Seq::empty()
    } else {
        data_ops(width, bytes.drop_last()) + byte_ops(width, bytes.last())
    }
}

/// Sending the instruction `byte` and waiting `delay` µs, with register
/// select low for the instruction and back high afterwards.
#[verifier::opaque]
pub open spec fn command_ops(width: usize, byte: u8, delay: u16) -> Seq<BusOp> {
    seq![BusOp::RegisterSelect(false)] + byte_ops(width, byte) + seq![
        BusOp::DelayUs(delay),
        BusOp::RegisterSelect(true),
    ]
}

/// What a command leaves on a bus of `width` pins: the steps and the result.
pub open spec fn command_outcome(width: usize, byte: u8, delay: u16) -> (
    Seq<BusOp>,
    Result<(), HdError>,
) {
    if valid_width(width) {
        (command_ops(width, byte, delay), Ok(()))
    } else {
        (seq![BusOp::RegisterSelect(false)], Err(HdError::InvalidDataBusLength))
    }
}

/// The instruction that a newline in text becomes: DD RAM address 0x40,
/// the start of the second line.
pub const NEXT_LINE: u8 = 0xC0;

/// One byte of text: a newline moves to the second line, anything else is
/// data; each is followed by the ordinary wait.
pub open spec fn text_byte_ops(width: usize, byte: u8) -> Seq<BusOp> {
    if byte == 0x0A {
        seq![BusOp::RegisterSelect(false)] + byte_ops(width, NEXT_LINE) + seq![
            BusOp::DelayUs(COMMAND_WAIT),
        ]
    } else {
        seq![BusOp::RegisterSelect(true)] + byte_ops(width, byte) + seq![
            BusOp::DelayUs(COMMAND_WAIT),
        ]
    }
}

/// The bytes of `text` in order, as [`text_byte_ops`] sends each.
pub open spec fn text_ops(width: usize, text: Seq<u8>) -> Seq<BusOp>
    decreases text.len(),
{
    if text.len() == 0 {
        Seq::empty()
    } else {
        text_ops(width, text.drop_last()) + text_byte_ops(width, text.last())
    }
}

/// How many bytes of a write of `len` go out.
pub open spec fn write_length(len: nat) -> nat {
    if len <= MAX_WRITE_LENGTH {
        len
    } else {
        MAX_WRITE_LENGTH as nat
    }
}

/// What a write of `len` bytes reports: all of it when it fits, else the
/// number of bytes left out.
pub open spec fn write_report(len: nat) -> nat {
    if len <= MAX_WRITE_LENGTH {
        len
    } else {
        (len - MAX_WRITE_LENGTH) as nat
    }
}

/// The mode's bits, or those of its default.
pub open spec fn function_bits(mode: Option<FunctionMode>) -> u8 {
    match mode {
        Some(m) => m@,
        None => 0,
    }
}

/// The mode's bits, or those of its default.
pub open spec fn display_bits(mode: Option<DisplayMode>) -> u8 {
    match mode {
        Some(m) => m@,
        None => 0,
    }
}

/// The mode's bits, or those of its default.
pub open spec fn entry_bits(mode: Option<EntryMode>) -> u8 {
    match mode {
        Some(m) => m@,
        None => 0x02,
    }
}

/// The ordinary instructions that end init: function, display and entry
/// modes, then a clear.
pub open spec fn configure_ops(width: usize, fs: u8, dc: u8, ems: u8) -> Seq<BusOp> {
    command_ops(width, FUNCTION_SET | fs, COMMAND_WAIT) + command_ops(
        width,
        DISPLAY_CONTROL | dc,
        COMMAND_WAIT,
    ) + command_ops(width, ENTRY_MODE_SET | ems, COMMAND_WAIT) + command_ops(
        width,
        CLEAR_DISPLAY,
        long_delay(COMMAND_WAIT),
    )
}

/// What init leaves on a bus of `width` pins with the given mode bits: the
/// steps and the result.
pub open spec fn init_outcome(width: usize, fs: u8, dc: u8, ems: u8) -> (
    Seq<BusOp>,
    Result<(), HdError>,
) {
    let d = COMMAND_WAIT;
    let settle = seq![BusOp::DelayUs((d * POWER_ON_DELAY_FACTOR) as u16)];
    if !valid_width(width) {
        (settle.push(BusOp::RegisterSelect(false)), Err(HdError::InvalidDataBusLength))
    } else {
        let reset = settle + command_ops(width, RESET_8BIT, (d * RESET_DELAY_FACTOR) as u16);
        if width == 4 && fs & FunctionMode::BITS_8 == FunctionMode::BITS_8 {
            (reset, Err(HdError::InvalidDataBusLength))
        } else {
            let select = if width == 4 {
                RESET_4BIT
            } else {
                RESET_8BIT
            };
            let known = reset + command_ops(width, select, (d * WIDTH_DELAY_FACTOR) as u16);
            if is_unsupported_function(fs) {
                (known, Err(HdError::InvalidConfiguration))
            } else {
                (known + configure_ops(width, fs, dc, ems), Ok(()))
            }
        }
    }
}

/// Init on a 4-pin bus that is asked for 8-bit mode fails with
/// `InvalidDataBusLength` once the power-on wait and the reset instruction
/// are out, and before the instruction that would select the bus width.
pub proof fn lemma_init_refuses_eight_bits_on_four_pins(fs: u8, dc: u8, ems: u8)
    requires
        fs & FunctionMode::BITS_8 == FunctionMode::BITS_8,
    ensures
        init_outcome(4, fs, dc, ems).1 == Err::<(), HdError>(HdError::InvalidDataBusLength),
        init_outcome(4, fs, dc, ems).0 == seq![
            BusOp::DelayUs((COMMAND_WAIT * POWER_ON_DELAY_FACTOR) as u16),
        ] + command_ops(4, RESET_8BIT, (COMMAND_WAIT * RESET_DELAY_FACTOR) as u16),
{
}

/// The protocol engine of a controller wired to GPIO pins: it turns
/// instructions and data into the pin steps that carry them, kept in `ops`
/// until whoever holds the pins takes and performs them in order.
#[derive(Debug)]
pub struct GpioBus {
    /// Number of data pins wired; 4 and 8 can carry bytes.
    pub width: usize,
    /// Steps planned and not yet taken.
    pub ops: Vec<BusOp>,
}

impl GpioBus {
    /// An engine for a bus of `width` data pins, with nothing planned.
    pub fn new(width: usize) -> (r: GpioBus)
        ensures
            r.width == width,
            r.ops@ == Seq::<BusOp>::empty(),
    {
        GpioBus { width, ops: Vec::new() }
    }

    /// Hands over the planned steps, in order, and forgets them.
    pub fn take_ops(&mut self) -> (r: Vec<BusOp>)
        ensures
            r@ == old(self).ops@,
            final(self).ops@ == Seq::<BusOp>::empty(),
            final(self).width == old(self).width,
    {
        let mut taken = Vec::new();
        core::mem::swap(&mut taken, &mut self.ops);
        taken
    }

    /// Shows `text`, each newline moving to the start of the second line.
    pub fn write_str(&mut self, text: &str) -> (r: Result<(), HdError>)
        ensures
            final(self).width == old(self).width,
            valid_width(old(self).width) || text.spec_bytes().len() == 0 ==> r == Ok::<
                (),
                HdError,
            >(()) && final(self).ops@ == old(self).ops@ + text_ops(
                old(self).width,
                text.spec_bytes(),
            ),
            !valid_width(old(self).width) && text.spec_bytes().len() > 0 ==> r == Err::<
                (),
                HdError,
            >(HdError::InvalidDataBusLength) && final(self).ops@ == old(self).ops@.push(
                BusOp::RegisterSelect(text.spec_bytes()[0] != 0x0A),
            ),
    {
        let bytes = text.as_bytes();
        let mut i: usize = 0;
        while i < bytes.len()
            invariant
                bytes@ == text.spec_bytes(),
                i <= bytes@.len(),
                self.width == old(self).width,
                valid_width(self.width) || i == 0,
                self.ops@ == old(self).ops@ + text_ops(self.width, bytes@.take(i as int)),
            decreases bytes@.len() - i,
        {
            let byte = bytes[i];
            let ghost start = self.ops@;
            if byte != 0x0A {
                self.set_control_bits(RegisterSelect::Data);
                self.write_byte(byte)?;
            } else {
                self.set_control_bits(RegisterSelect::Cmnd);
                self.write_byte(NEXT_LINE)?;
            }
            self.ops.push(BusOp::DelayUs(COMMAND_WAIT));
            proof {
                assert(bytes@.take(i + 1).drop_last() =~= bytes@.take(i as int));
                assert(self.ops@ =~= start + text_byte_ops(self.width, byte));
            }
            i += 1;
        }
        proof {
            assert(bytes@.take(bytes@.len() as int) =~= bytes@);
        }
        Ok(())
    }

    fn enable_bit_toggle(&mut self)
        ensures
            final(self).ops@ == old(self).ops@ + enable_strobe(),
            final(self).width == old(self).width,
    {
        self.ops.push(BusOp::Enable(false));
        // Give the other pins some setup time before the strobe.
        self.ops.push(BusOp::DelayUs(1));
        self.ops.push(BusOp::Enable(true));
        // The pulse must last about 1 µs at least.
        self.ops.push(BusOp::DelayUs(1));
        self.ops.push(BusOp::Enable(false));
        // Make sure that the low state is seen.
        self.ops.push(BusOp::DelayUs(1));
        proof {
            assert(self.ops@ =~= old(self).ops@ + enable_strobe());
        }
    }

    fn set_control_bits(&mut self, ctrl: RegisterSelect)
        ensures
            final(self).ops@ == old(self).ops@.push(
                BusOp::RegisterSelect(ctrl == RegisterSelect::Data),
            ),
            final(self).width == old(self).width,
    {
        match ctrl {
            RegisterSelect::Cmnd => self.ops.push(BusOp::RegisterSelect(false)),
            RegisterSelect::Data => self.ops.push(BusOp::RegisterSelect(true)),
        }
    }

    fn set_bus_bits(&mut self, value: u8, count: usize)
        requires
            count <= 8,
        ensures
            final(self).ops@ == old(self).ops@ + bus_bits_ops(value, count as nat),
            final(self).width == old(self).width,
    {
        let mut i: usize = 0;
        while i < count
            invariant
                i <= count <= 8,
                self.width == old(self).width,
                self.ops@ == old(self).ops@ + bus_bits_ops(value, i as nat),
            decreases count - i,
        {
            let high = (value >> (i as u8)) & 1 == 1;
            self.ops.push(BusOp::Data(i, high));
            proof {
                assert(bus_bits_ops(value, (i + 1) as nat) =~= bus_bits_ops(value, i as nat).push(
                    BusOp::Data(i, high),
                ));
            }
            i += 1;
        }
    }

    /// Instructions wait `COMMAND_WAIT` µs on this bus.
    pub proof fn lemma_command_delay()
        ensures
            <GpioBus as HD44780>::COMMAND_DELAY == COMMAND_WAIT,
    {
    }

    fn configure(&mut self, fs: FunctionMode, dc: DisplayMode, ems: EntryMode) -> (r: Result<
        (),
        HdError,
    >)
        requires
            valid_width(old(self).width),
        ensures
            final(self).width == old(self).width,
            is_unsupported_function(fs@) ==> r == Err::<(), HdError>(
                HdError::InvalidConfiguration,
            ) && final(self).ops@ == old(self).ops@,
            !is_unsupported_function(fs@) ==> r == Ok::<(), HdError>(()) && final(self).ops@
                == old(self).ops@ + configure_ops(old(self).width, fs@, dc@, ems@),
    {
        let ghost w = self.width;
        self.function_set(fs)?;
        self.display_control(dc)?;
        self.entry_mode_set(ems)?;
        let r = self.clear_display();
        proof {
            let c1 = command_ops(w, FUNCTION_SET | fs@, COMMAND_WAIT);
            let c2 = command_ops(w, DISPLAY_CONTROL | dc@, COMMAND_WAIT);
            let c3 = command_ops(w, ENTRY_MODE_SET | ems@, COMMAND_WAIT);
            let c4 = command_ops(w, CLEAR_DISPLAY, long_delay(COMMAND_WAIT));
            assert(self.ops@ =~= old(self).ops@ + (c1 + c2 + c3 + c4));
        }
        r
    }

    fn write_byte(&mut self, byte: u8) -> (r: Result<(), HdError>)
        ensures
            valid_width(old(self).width) ==> r == Ok::<(), HdError>(()) && final(self).ops@
                == old(self).ops@ + byte_ops(old(self).width, byte),
            !valid_width(old(self).width) ==> r == Err::<(), HdError>(
                HdError::InvalidDataBusLength,
            ) && final(self).ops@ == old(self).ops@,
            final(self).width == old(self).width,
    {
        if self.width == 4 {
            self.set_bus_bits(byte >> 4, 4);
            self.enable_bit_toggle();
            self.set_bus_bits(byte & 0x0F, 4);
            self.enable_bit_toggle();
        } else if self.width == 8 {
            self.set_bus_bits(byte, 8);
            self.enable_bit_toggle();
        } else {
            return Err(HdError::InvalidDataBusLength);
        }
        proof {
            reveal(byte_ops);
            assert(self.ops@ =~= old(self).ops@ + byte_ops(self.width, byte));
        }
        Ok(())
    }
}

impl HD44780 for GpioBus {
    const COMMAND_DELAY: u16 = COMMAND_WAIT;

    proof fn lemma_command_delay_bound() {
    }

    open spec fn command_post(
        before: GpioBus,
        after: GpioBus,
        byte: u8,
        delay: u16,
        r: Result<(), HdError>,
    ) -> bool {
        &&& after.width == before.width
        &&& after.ops@ == before.ops@ + command_outcome(before.width, byte, delay).0
        &&& r == command_outcome(before.width, byte, delay).1
    }

    /// Register select goes low, the byte goes out, the wait follows and
    /// register select goes back high, so that stray writes land as data.
    fn command(&mut self, byte: u8, delay: u16) -> (r: Result<(), HdError>) {
        self.set_control_bits(RegisterSelect::Cmnd);
        match self.write_byte(byte) {
            Ok(()) => {},
            Err(e) => {
                proof {
                    assert(self.ops@ =~= old(self).ops@ + seq![BusOp::RegisterSelect(false)]);
                }
                return Err(e);
            },
        }
        // Give the controller time to carry the instruction out.
        self.ops.push(BusOp::DelayUs(delay));
        self.set_control_bits(RegisterSelect::Data);
        proof {
            reveal(command_ops);
            assert(self.ops@ =~= old(self).ops@ + command_ops(self.width, byte, delay));
        }
        Ok(())
    }

    /// Forces the controller into a known state from any of the states it
    /// may be in: waits for power to settle, resets it into 8-bit mode,
    /// selects the bus width, and then sends the function, display and
    /// entry modes (the given ones or their defaults) and a clear.
    fn init(
        &mut self,
        fs_mode: Option<FunctionMode>,
        dc_mode: Option<DisplayMode>,
        ems_mode: Option<EntryMode>,
    ) -> (r: Result<(), HdError>)
        ensures
            final(self).width == old(self).width,
            final(self).ops@ == old(self).ops@ + init_outcome(
                old(self).width,
                function_bits(fs_mode),
                display_bits(dc_mode),
                entry_bits(ems_mode),
            ).0,
            r == init_outcome(
                old(self).width,
                function_bits(fs_mode),
                display_bits(dc_mode),
                entry_bits(ems_mode),
            ).1,
    {
        let fs = match fs_mode {
            Some(m) => m,
            None => FunctionMode::default(),
        };
        let dc = match dc_mode {
            Some(m) => m,
            None => DisplayMode::default(),
        };
        let ems = match ems_mode {
            Some(m) => m,
            None => EntryMode::default(),
        };
        let ghost w = self.width;
        let ghost fb = function_bits(fs_mode);
        let ghost settle = seq![BusOp::DelayUs((COMMAND_WAIT * POWER_ON_DELAY_FACTOR) as u16)];
        // Power-on takes 15 to 40 ms to settle, depending on the supply.
        self.ops.push(BusOp::DelayUs(Self::COMMAND_DELAY * POWER_ON_DELAY_FACTOR));
        // The controller may be in 8-bit mode, in 4-bit mode waiting for the
        // first nibble, or in 4-bit mode waiting for the second: the reset
        // instruction brings each of them into 8-bit mode.
        let ghost before_reset = self.ops@;
        match self.command(RESET_8BIT, Self::COMMAND_DELAY * RESET_DELAY_FACTOR) {
            Ok(()) => {},
            Err(e) => {
                proof {
                    assert(self.ops@ =~= old(self).ops@ + settle.push(BusOp::RegisterSelect(false)));
                }
                return Err(e);
            },
        }
        let ghost reset = settle + command_ops(w, RESET_8BIT, (COMMAND_WAIT * RESET_DELAY_FACTOR) as u16);
        proof {
            assert(before_reset =~= old(self).ops@ + settle);
            vstd::seq_lib::lemma_concat_associative(
                old(self).ops@,
                settle,
                command_ops(w, RESET_8BIT, (COMMAND_WAIT * RESET_DELAY_FACTOR) as u16),
            );
        }
        let select = if self.width == 4 {
            if fs.contains(FunctionMode::BITS_8) {
                return Err(HdError::InvalidDataBusLength);
            }
            RESET_4BIT
        } else {
            RESET_8BIT
        };
        self.command(select, Self::COMMAND_DELAY * WIDTH_DELAY_FACTOR)?;
        let ghost known = reset + command_ops(w, select, (COMMAND_WAIT * WIDTH_DELAY_FACTOR) as u16);
        proof {
            vstd::seq_lib::lemma_concat_associative(
                old(self).ops@,
                reset,
                command_ops(w, select, (COMMAND_WAIT * WIDTH_DELAY_FACTOR) as u16),
            );
        }
        // The controller now takes ordinary instructions.
        let r = self.configure(fs, dc, ems);
        proof {
            vstd::seq_lib::lemma_concat_associative(
                old(self).ops@,
                known,
                configure_ops(w, fb, display_bits(dc_mode), entry_bits(ems_mode)),
            );
        }
        r
    }
}

impl Write for GpioBus {
    /// Sends the bytes of `buf` as data, up to `MAX_WRITE_LENGTH` of them.
    /// Reports the length of `buf` when all of it went out, else the number
    /// of bytes left out.
    fn write(&mut self, buf: &[u8]) -> (r: Result<usize, HdError>)
        ensures
            final(self).width == old(self).width,
            valid_width(old(self).width) || buf@.len() == 0 ==> r == Ok::<usize, HdError>(
                write_report(buf@.len()) as usize,
            ) && final(self).ops@ == old(self).ops@ + data_ops(
                old(self).width,
                buf@.take(write_length(buf@.len()) as int),
            ),
            !valid_width(old(self).width) && buf@.len() > 0 ==> r == Err::<usize, HdError>(
                HdError::InvalidDataBusLength,
            ) && final(self).ops@ == old(self).ops@,
    {
        // A crude guard: where the write starts, and in which RAM, is not
        // known here.
        let n = if buf.len() <= MAX_WRITE_LENGTH {
            buf.len()
        } else {
            MAX_WRITE_LENGTH
        };
        let mut i: usize = 0;
        while i < n
            invariant
                n == write_length(buf@.len()),
                i <= n <= buf@.len(),
                self.width == old(self).width,
                valid_width(self.width) || i == 0,
                self.ops@ == old(self).ops@ + data_ops(self.width, buf@.take(i as int)),
            decreases n - i,
        {
            match self.write_byte(buf[i]) {
                Ok(()) => {},
                Err(e) => {
                    proof {
                        assert(buf@.take(0) =~= Seq::<u8>::empty());
                    }
                    return Err(e);
                },
            }
            proof {
                assert(buf@.take(i + 1).drop_last() =~= buf@.take(i as int));
            }
            i += 1;
        }
        proof {
            assert(buf@.take(0) =~= Seq::<u8>::empty());
        }
        if buf.len() <= MAX_WRITE_LENGTH {
            Ok(buf.len())
        } else {
            Ok(buf.len() - MAX_WRITE_LENGTH)
        }
    }

    fn flush(&mut self) -> (r: Result<(), HdError>)
        ensures
            r == Ok::<(), HdError>(()),
            final(self).width == old(self).width,
            final(self).ops@ == old(self).ops@,
    {
        Ok(())
    }
}

} // verus!
