use hd44780_ntb::{
    BusOp, Command, GpioBus, DisplayMode, EntryMode, FunctionMode, HdError, RegisterSelect, ShiftMode, SpyDriver,
    Write, HD44780,
};

fn bytes(spy: &SpyDriver) -> Vec<u8> {
    spy.commands.iter().map(|c| c.byte).collect()
}

#[test]
fn unsupported_function_mode_sends_nothing() {
    let mut spy = SpyDriver::new();
    let fm = FunctionMode::from_bits_truncate(
        FunctionMode::BITS_8 | FunctionMode::LINES_2 | FunctionMode::DOTS_5X10,
    );
    assert_eq!(spy.function_set(fm), Err(HdError::InvalidConfiguration));
    assert!(spy.commands.is_empty());
}

#[test]
fn function_set_sends_mode_bits() {
    let mut spy = SpyDriver::new();
    let fm = FunctionMode::from_bits_truncate(FunctionMode::BITS_8 | FunctionMode::LINES_2);
    assert_eq!(spy.function_set(fm), Ok(()));
    let fm = FunctionMode::from_bits_truncate(FunctionMode::DOTS_5X10);
    assert_eq!(spy.function_set(fm), Ok(()));
    assert_eq!(bytes(&spy), vec![0x38, 0x24]);
}

#[test]
fn clear_and_home_ask_for_the_long_delay() {
    let mut spy = SpyDriver::new();
    spy.clear_display().unwrap();
    spy.return_home().unwrap();
    assert_eq!(
        spy.commands,
        vec![Command { byte: 0x01, delay: 0 }, Command { byte: 0x02, delay: 0 }]
    );
    let mut bus = GpioBus::new(8);
    bus.clear_display().unwrap();
    bus.return_home().unwrap();
    let waits: Vec<u16> = bus
        .ops
        .windows(2)
        .filter(|w| w[1] == BusOp::RegisterSelect(true))
        .map(|w| match w[0] {
            BusOp::DelayUs(us) => us,
            _ => panic!("no wait before register select goes high"),
        })
        .collect();
    assert_eq!(waits, vec![1722, 1722]);
    assert!(waits.iter().all(|w| *w >= 40 * GpioBus::COMMAND_DELAY));
}

#[test]
fn other_commands_ask_for_the_base_delay() {
    let mut spy = SpyDriver::new();
    spy.entry_mode_set(EntryMode::default()).unwrap();
    spy.display_control(DisplayMode::from_bits_truncate(
        DisplayMode::DISPLAY_ON | DisplayMode::CURSOR_ON,
    ))
    .unwrap();
    spy.cursor_shift(ShiftMode::default()).unwrap();
    spy.set_cg_ram_addr(0x09).unwrap();
    spy.set_dd_ram_addr(0x40).unwrap();
    assert_eq!(bytes(&spy), vec![0x06, 0x0E, 0x14, 0x49, 0xC0]);
    assert!(spy.commands.iter().all(|c| c.delay == SpyDriver::COMMAND_DELAY));
}

#[test]
fn cg_ram_address_is_masked_to_six_bits() {
    let mut spy = SpyDriver::new();
    spy.set_cg_ram_addr(0xFF).unwrap();
    assert_eq!(bytes(&spy), vec![0x7F]);
}

#[test]
fn dd_ram_address_is_masked_to_seven_bits() {
    let mut spy = SpyDriver::new();
    spy.set_dd_ram_addr(0xFF).unwrap();
    assert_eq!(bytes(&spy), vec![0xFF]);
}

#[test]
fn spy_records_init_and_writes() {
    let mut spy = SpyDriver::new();
    let fm = Some(FunctionMode::from_bits_truncate(FunctionMode::LINES_2));
    assert_eq!(spy.init(fm, None, None), Ok(()));
    assert_eq!(spy.init_command, Some((fm, None, None)));
    assert!(spy.commands.is_empty());
    assert_eq!(spy.write(b"Hi"), Ok(2));
    assert_eq!(spy.flush(), Ok(()));
    assert_eq!(spy.writes, vec![b"Hi".to_vec()]);
    let fresh = SpyDriver::default();
    assert!(fresh.commands.is_empty() && fresh.writes.is_empty());
    assert_eq!(fresh.init_command, None);
}

#[test]
fn modes_keep_only_their_own_bits() {
    assert_eq!(FunctionMode::from_bits_truncate(0xFF).bits(), 0x1C);
    assert_eq!(DisplayMode::from_bits_truncate(0xFF).bits(), 0x07);
    assert_eq!(EntryMode::from_bits_truncate(0xFF).bits(), 0x03);
    assert_eq!(ShiftMode::from_bits_truncate(0xFF).bits(), 0x0C);
    assert_eq!(FunctionMode::default().bits(), 0x00);
    assert_eq!(DisplayMode::default().bits(), 0x00);
    assert_eq!(EntryMode::default().bits(), 0x02);
    assert_eq!(ShiftMode::default().bits(), 0x04);
    let fm = FunctionMode::from_bits_truncate(FunctionMode::LINES_2);
    assert!(fm.contains(FunctionMode::LINES_2));
    assert!(!fm.contains(FunctionMode::DOTS_5X10));
    assert_eq!(RegisterSelect::default(), RegisterSelect::Data);
}
