//! Register-level behavior of the configuration writes, checked against
//! an in-memory register block.

use ns16550a::{
    Access, Break, DLAB, DMAMode, Divisor, MockPort, ParityBit, ParitySelect, StickParity,
    StopBits, Uart, WordLength,
};

#[test]
fn word_length_values() {
    assert_eq!(WordLength::FIVE.value(), 0);
    assert_eq!(WordLength::SIX.value(), 1);
    assert_eq!(WordLength::SEVEN.value(), 2);
    assert_eq!(WordLength::EIGHT.value(), 3);
}

#[test]
fn one_bit_field_values() {
    assert_eq!(StopBits::ONE.value(), 0);
    assert_eq!(StopBits::TWO.value(), 1);
    assert_eq!(ParityBit::DISABLE.value(), 0);
    assert_eq!(ParityBit::ENABLE.value(), 1);
    assert_eq!(ParitySelect::EVEN.value(), 0);
    assert_eq!(ParitySelect::ODD.value(), 1);
    assert_eq!(StickParity::DISABLE.value(), 0);
    assert_eq!(StickParity::ENABLE.value(), 1);
    assert_eq!(Break::DISABLE.value(), 0);
    assert_eq!(Break::ENABLE.value(), 1);
    assert_eq!(DLAB::CLEAR.value(), 0);
    assert_eq!(DLAB::SET.value(), 1);
    assert_eq!(DMAMode::MODE0.value(), 0);
    assert_eq!(DMAMode::MODE1.value(), 1);
}

#[test]
fn divisor_presets() {
    assert_eq!(Divisor::BAUD50.value(), 0x0900);
    assert_eq!(Divisor::BAUD300.value(), 0x0180);
    assert_eq!(Divisor::BAUD1200.value(), 0x0060);
    assert_eq!(Divisor::BAUD2400.value(), 0x0030);
    assert_eq!(Divisor::BAUD4800.value(), 0x0018);
    assert_eq!(Divisor::BAUD9600.value(), 0x000C);
    assert_eq!(Divisor::BAUD19200.value(), 0x0006);
    assert_eq!(Divisor::BAUD38400.value(), 0x0003);
    assert_eq!(Divisor::BAUD57600.value(), 0x0002);
    assert_eq!(Divisor::BAUD115200.value(), 0x0001);
}

#[test]
fn new_keeps_base_address() {
    let uart = Uart::new(0x3F8);
    assert_eq!(uart.base_address(), 0x3F8);
    assert_eq!(Uart::new(0).base_address(), 0);
    assert_eq!(Uart::new(usize::MAX).base_address(), usize::MAX);
}

#[test]
fn lcr_all_combinations() {
    let word_lengths = [
        (WordLength::FIVE, 0u8),
        (WordLength::SIX, 1),
        (WordLength::SEVEN, 2),
        (WordLength::EIGHT, 3),
    ];
    let stop_bits = [(StopBits::ONE, 0u8), (StopBits::TWO, 1)];
    let parity_bits = [(ParityBit::DISABLE, 0u8), (ParityBit::ENABLE, 1)];
    let parity_selects = [(ParitySelect::EVEN, 0u8), (ParitySelect::ODD, 1)];
    let stick_parities = [(StickParity::DISABLE, 0u8), (StickParity::ENABLE, 1)];
    let breaks = [(Break::DISABLE, 0u8), (Break::ENABLE, 1)];
    let dlabs = [(DLAB::CLEAR, 0u8), (DLAB::SET, 1)];
    let uart = Uart::new(0);
    for &(wl, wlv) in &word_lengths {
        for &(sb, sbv) in &stop_bits {
            for &(pb, pbv) in &parity_bits {
                for &(ps, psv) in &parity_selects {
                    for &(sp, spv) in &stick_parities {
                        for &(br, brv) in &breaks {
                            for &(dl, dlv) in &dlabs {
                                let expected = wlv
                                    | (sbv << 2)
                                    | (pbv << 3)
                                    | (psv << 4)
                                    | (spv << 5)
                                    | (brv << 6)
                                    | (dlv << 7);
                                let mut port = MockPort::new();
                                uart.set_lcr(&mut port, wl, sb, pb, ps, sp, br, dl);
                                assert_eq!(port.register(3), expected);
                                // no other register is touched
                                for offset in [0usize, 1, 2, 4, 5, 6, 7] {
                                    assert_eq!(port.register(offset), 0);
                                }
                                assert_eq!(
                                    port.trace,
                                    vec![Access::Write8 { offset: 3, value: expected }]
                                );
                            }
                        }
                    }
                }
            }
        }
    }
}

#[test]
fn fcr_mode0_writes_0x01() {
    let uart = Uart::new(0);
    let mut port = MockPort::new();
    uart.set_fcr(&mut port, DMAMode::MODE0);
    assert_eq!(port.register(2), 0x01);
    assert_eq!(port.trace, vec![Access::Write8 { offset: 2, value: 0x01 }]);
}

#[test]
fn fcr_mode1_writes_0x09() {
    let uart = Uart::new(0);
    let mut port = MockPort::new();
    uart.set_fcr(&mut port, DMAMode::MODE1);
    assert_eq!(port.register(2), 0x09);
    assert_eq!(port.trace, vec![Access::Write8 { offset: 2, value: 0x09 }]);
}

#[test]
fn init_dlab_set_during_divisor_write_and_clear_after() {
    let uart = Uart::new(0);
    let mut port = MockPort::new();
    uart.init(
        &mut port,
        WordLength::EIGHT,
        StopBits::ONE,
        ParityBit::DISABLE,
        ParitySelect::EVEN,
        StickParity::DISABLE,
        Break::DISABLE,
        DMAMode::MODE0,
        Divisor::BAUD9600,
    );
    assert_eq!(port.trace.len(), 4);
    // the divisor write is the third access
    assert_eq!(port.trace[2], Access::Write16 { offset: 0, value: 0x000C });
    // the LCR byte written before it has DLAB (bit 7) set
    match port.trace[0] {
        Access::Write8 { offset, value } => {
            assert_eq!(offset, 3);
            assert_eq!(value & 0x80, 0x80);
        }
        _ => panic!("first access is not a byte write"),
    }
    // the LCR byte written after it has DLAB clear
    match port.trace[3] {
        Access::Write8 { offset, value } => {
            assert_eq!(offset, 3);
            assert_eq!(value & 0x80, 0);
        }
        _ => panic!("last access is not a byte write"),
    }
    assert_eq!(port.trace[1], Access::Write8 { offset: 2, value: 0x01 });
    // once init returns, the stored LCR has DLAB clear
    assert_eq!(port.register(3) & 0x80, 0);
    assert_eq!(port.register(3), 0x03);
}

#[test]
fn init_baud9600_writes_divisor_bytes() {
    let uart = Uart::new(0);
    let mut port = MockPort::new();
    uart.init(
        &mut port,
        WordLength::EIGHT,
        StopBits::ONE,
        ParityBit::DISABLE,
        ParitySelect::EVEN,
        StickParity::DISABLE,
        Break::DISABLE,
        DMAMode::MODE1,
        Divisor::BAUD9600,
    );
    // 0x000C lands as 0x0C, 0x00 across offsets 0-1
    assert_eq!(port.register(0), 0x0C);
    assert_eq!(port.register(1), 0x00);
}

#[test]
fn init_wide_divisor_splits_bytes() {
    let uart = Uart::new(0);
    let mut port = MockPort::new();
    uart.init(
        &mut port,
        WordLength::SEVEN,
        StopBits::TWO,
        ParityBit::ENABLE,
        ParitySelect::ODD,
        StickParity::ENABLE,
        Break::ENABLE,
        DMAMode::MODE1,
        Divisor::BAUD50,
    );
    // 0x0900 lands as 0x00, 0x09 across offsets 0-1
    assert_eq!(port.register(0), 0x00);
    assert_eq!(port.register(1), 0x09);
}
