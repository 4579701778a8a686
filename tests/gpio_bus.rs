use hd44780_ntb::{BusOp, FunctionMode, GpioBus, HdError, PinRole, Write, HD44780};

/// What the controller would see of the steps: each byte with the
/// register-select level it came with, and the wait that followed each
/// instruction.
fn decode(width: usize, ops: &[BusOp]) -> (Vec<(bool, u8)>, Vec<u16>) {
    let mut pins = [false; 8];
    let mut rs = true;
    let mut nibble: Option<u8> = None;
    let mut received = Vec::new();
    let mut waits = Vec::new();
    let mut last_wait: Option<u16> = None;
    for op in ops {
        match *op {
            BusOp::RegisterSelect(level) => {
                if level && !rs {
                    waits.push(last_wait.unwrap());
                }
                rs = level;
            }
            BusOp::Data(i, level) => pins[i] = level,
            BusOp::Enable(true) => {
                let mut v: u8 = 0;
                for i in 0..width {
                    if pins[i] {
                        v |= 1 << i;
                    }
                }
                if width == 8 {
                    received.push((rs, v));
                } else if let Some(high) = nibble.take() {
                    received.push((rs, (high << 4) | v));
                } else {
                    nibble = Some(v);
                }
            }
            BusOp::Enable(false) => {}
            BusOp::DelayUs(us) => last_wait = Some(us),
        }
    }
    (received, waits)
}

fn strobe() -> Vec<BusOp> {
    vec![
        BusOp::Enable(false),
        BusOp::DelayUs(1),
        BusOp::Enable(true),
        BusOp::DelayUs(1),
        BusOp::Enable(false),
        BusOp::DelayUs(1),
    ]
}

fn pins(value: u8, count: usize) -> Vec<BusOp> {
    (0..count).map(|i| BusOp::Data(i, (value >> i) & 1 == 1)).collect()
}

#[test]
fn byte_on_four_pins_goes_as_two_nibbles() {
    let mut bus = GpioBus::new(4);
    assert_eq!(bus.write(&[0xA5]), Ok(1));
    let mut expected = pins(0xA, 4);
    expected.extend(strobe());
    expected.extend(pins(0x5, 4));
    expected.extend(strobe());
    assert_eq!(bus.take_ops(), expected);
    assert_eq!(
        expected[..4],
        [
            BusOp::Data(0, false),
            BusOp::Data(1, true),
            BusOp::Data(2, false),
            BusOp::Data(3, true)
        ]
    );
    assert!(bus.ops.is_empty());
}

#[test]
fn byte_on_eight_pins_goes_at_once() {
    let mut bus = GpioBus::new(8);
    assert_eq!(bus.write(&[0xA5]), Ok(1));
    let mut expected = pins(0xA5, 8);
    expected.extend(strobe());
    let ops = bus.take_ops();
    assert_eq!(ops, expected);
    assert_eq!(ops.iter().filter(|op| **op == BusOp::Enable(true)).count(), 1);
}

#[test]
fn write_stops_at_eighty_bytes() {
    let mut bus = GpioBus::new(8);
    let buf: Vec<u8> = (0..81u8).collect();
    assert_eq!(bus.write(&buf), Ok(1));
    let (received, _) = decode(8, &bus.ops);
    let sent: Vec<u8> = received.iter().map(|(_, b)| *b).collect();
    assert_eq!(sent, buf[..80].to_vec());
    assert!(received.iter().all(|(rs, _)| *rs));
}

#[test]
fn write_of_eighty_bytes_reports_all_of_them() {
    let mut bus = GpioBus::new(4);
    let buf = [0x41u8; 80];
    assert_eq!(bus.write(&buf), Ok(80));
    assert_eq!(decode(4, &bus.ops).0.len(), 80);
}

#[test]
fn empty_write_touches_nothing() {
    let mut bus = GpioBus::new(5);
    assert_eq!(bus.write(&[]), Ok(0));
    assert_eq!(bus.flush(), Ok(()));
    assert!(bus.ops.is_empty());
}

#[test]
fn wrong_width_is_refused() {
    let mut bus = GpioBus::new(5);
    assert_eq!(bus.write(b"x"), Err(HdError::InvalidDataBusLength));
    assert!(bus.ops.is_empty());
    assert_eq!(bus.clear_display(), Err(HdError::InvalidDataBusLength));
    assert_eq!(bus.take_ops(), vec![BusOp::RegisterSelect(false)]);
    assert_eq!(bus.init(None, None, None), Err(HdError::InvalidDataBusLength));
    assert_eq!(bus.take_ops(), vec![BusOp::DelayUs(41000), BusOp::RegisterSelect(false)]);
}

#[test]
fn command_holds_register_select_low() {
    let mut bus = GpioBus::new(8);
    assert_eq!(bus.command(0x0C, 41), Ok(()));
    let mut expected = vec![BusOp::RegisterSelect(false)];
    expected.extend(pins(0x0C, 8));
    expected.extend(strobe());
    expected.push(BusOp::DelayUs(41));
    expected.push(BusOp::RegisterSelect(true));
    assert_eq!(bus.take_ops(), expected);
}

#[test]
fn init_then_clear_on_four_pins() {
    let mut bus = GpioBus::new(4);
    assert_eq!(bus.init(None, None, None), Ok(()));
    assert_eq!(bus.clear_display(), Ok(()));
    let ops = bus.take_ops();
    assert_eq!(ops[0], BusOp::DelayUs(41000));
    let (received, waits) = decode(4, &ops);
    assert_eq!(
        received,
        vec![
            (false, 0x33),
            (false, 0x32),
            (false, 0x20),
            (false, 0x08),
            (false, 0x06),
            (false, 0x01),
            (false, 0x01)
        ]
    );
    assert_eq!(waits, vec![8200, 123, 41, 41, 41, 1722, 1722]);
}

#[test]
fn init_on_eight_pins_confirms_eight_bit_mode() {
    let mut bus = GpioBus::new(8);
    let fm = Some(FunctionMode::from_bits_truncate(
        FunctionMode::BITS_8 | FunctionMode::LINES_2,
    ));
    assert_eq!(bus.init(fm, None, None), Ok(()));
    let (received, _) = decode(8, &bus.ops);
    let sent: Vec<u8> = received.iter().map(|(_, b)| *b).collect();
    assert_eq!(sent, vec![0x33, 0x33, 0x38, 0x08, 0x06, 0x01]);
}

#[test]
fn init_refuses_eight_bits_on_four_pins() {
    let mut bus = GpioBus::new(4);
    let fm = Some(FunctionMode::from_bits_truncate(FunctionMode::BITS_8));
    assert_eq!(bus.init(fm, None, None), Err(HdError::InvalidDataBusLength));
    let (received, waits) = decode(4, &bus.ops);
    assert_eq!(received, vec![(false, 0x33)]);
    assert_eq!(waits, vec![8200]);
}

#[test]
fn init_refuses_two_lines_with_large_font() {
    let mut bus = GpioBus::new(4);
    let fm = Some(FunctionMode::from_bits_truncate(
        FunctionMode::LINES_2 | FunctionMode::DOTS_5X10,
    ));
    assert_eq!(bus.init(fm, None, None), Err(HdError::InvalidConfiguration));
    let (received, _) = decode(4, &bus.ops);
    assert_eq!(received, vec![(false, 0x33), (false, 0x32)]);
}

#[test]
fn steps_name_their_pins() {
    assert_eq!(BusOp::RegisterSelect(true).pin_role(), Some(PinRole::RegisterSelect));
    assert_eq!(BusOp::Enable(false).pin_role(), Some(PinRole::Enable));
    assert_eq!(BusOp::Data(3, true).pin_role(), Some(PinRole::Data));
    assert_eq!(BusOp::DelayUs(1).pin_role(), None);
}

#[test]
fn text_newline_moves_to_second_line() {
    let mut bus = GpioBus::new(8);
    assert_eq!(bus.write_str("A\nB"), Ok(()));
    let (received, _) = decode(8, &bus.ops);
    assert_eq!(received, vec![(true, 0x41), (false, 0xC0), (true, 0x42)]);
    let waits = bus.ops.iter().filter(|op| **op == BusOp::DelayUs(41)).count();
    assert_eq!(waits, 3);
    assert_eq!(bus.ops[0], BusOp::RegisterSelect(true));
}

#[test]
fn text_on_wrong_width_is_refused() {
    let mut bus = GpioBus::new(6);
    assert_eq!(bus.write_str(""), Ok(()));
    assert!(bus.ops.is_empty());
    assert_eq!(bus.write_str("\nx"), Err(HdError::InvalidDataBusLength));
    assert_eq!(bus.take_ops(), vec![BusOp::RegisterSelect(false)]);
}
