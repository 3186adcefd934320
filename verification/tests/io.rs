//! Transmit, receive, and the blocking buffered-output adapter, checked
//! against an in-memory register block with scripted Line Status reads.

use ns16550a::{Access, MockPort, RegisterPort, Uart};

#[test]
fn put_not_ready_returns_none_and_writes_nothing() {
    let uart = Uart::new(0);
    let mut port = MockPort::new();
    port.set_register(0, 0xEE);
    // LSR bit 5 clear: transmitter still draining
    port.set_register(5, 0x00);
    assert_eq!(uart.put(&mut port, 0x41), None);
    // the data register stays untouched
    assert_eq!(port.register(0), 0xEE);
    assert_eq!(port.trace, vec![Access::Read8 { offset: 5, value: 0x00 }]);
}

#[test]
fn put_ready_writes_byte_and_confirms() {
    let uart = Uart::new(0);
    let mut port = MockPort::new();
    // LSR bit 5 set: transmitter holding register empty
    port.set_register(5, 0x20);
    assert_eq!(uart.put(&mut port, 0x41), Some(0x41));
    assert_eq!(port.register(0), 0x41);
    assert_eq!(
        port.trace,
        vec![
            Access::Read8 { offset: 5, value: 0x20 },
            Access::Write8 { offset: 0, value: 0x41 },
        ]
    );
}

#[test]
fn get_no_data_returns_none() {
    let uart = Uart::new(0);
    let mut port = MockPort::new();
    port.set_register(0, 0x58);
    // LSR bit 0 clear: no byte available
    port.set_register(5, 0x00);
    assert_eq!(uart.get(&mut port), None);
    assert_eq!(port.trace, vec![Access::Read8 { offset: 5, value: 0x00 }]);
}

#[test]
fn get_data_ready_returns_byte() {
    let uart = Uart::new(0);
    let mut port = MockPort::new();
    port.set_register(0, 0x58);
    // LSR bit 0 set: data ready
    port.set_register(5, 0x01);
    assert_eq!(uart.get(&mut port), Some(0x58));
    assert_eq!(
        port.trace,
        vec![
            Access::Read8 { offset: 5, value: 0x01 },
            Access::Read8 { offset: 0, value: 0x58 },
        ]
    );
}

#[test]
fn write_bytes_retries_until_each_byte_accepted() {
    let uart = Uart::new(0);
    let mut port = MockPort::new();
    // the transmitter reports empty only every other poll
    port.lsr_script = vec![0x00, 0x20, 0x00, 0x20];
    port.set_register(5, 0x20);
    uart.write_bytes(&mut port, b"AB");
    // both bytes go out, A before B, each after a failed and a ready poll
    assert_eq!(
        port.trace,
        vec![
            Access::Read8 { offset: 5, value: 0x00 },
            Access::Read8 { offset: 5, value: 0x20 },
            Access::Write8 { offset: 0, value: 0x41 },
            Access::Read8 { offset: 5, value: 0x00 },
            Access::Read8 { offset: 5, value: 0x20 },
            Access::Write8 { offset: 0, value: 0x42 },
        ]
    );
}

#[test]
fn write_bytes_slow_transmitter_keeps_order() {
    let uart = Uart::new(0);
    let mut port = MockPort::new();
    // three busy polls before each of the first two accepts
    port.lsr_script = vec![0x00, 0x00, 0x00, 0x20, 0x00, 0x00, 0x00, 0x20];
    port.set_register(5, 0x20);
    uart.write_bytes(&mut port, b"xyz");
    let written: Vec<u8> = port
        .trace
        .iter()
        .filter_map(|access| match access {
            Access::Write8 { offset: 0, value } => Some(*value),
            _ => None,
        })
        .collect();
    assert_eq!(written, b"xyz".to_vec());
    // 3 failed + 1 ready polls per scripted byte, 1 ready poll for the last
    assert_eq!(port.trace.len(), 4 + 1 + 4 + 1 + 1 + 1);
}

#[test]
fn write_bytes_empty_touches_nothing() {
    let uart = Uart::new(0);
    let mut port = MockPort::new();
    port.set_register(5, 0x20);
    uart.write_bytes(&mut port, b"");
    assert!(port.trace.is_empty());
}

#[test]
fn write_str_sends_utf8_bytes() {
    let uart = Uart::new(0);
    let mut port = MockPort::new();
    port.set_register(5, 0x20);
    uart.write_str(&mut port, "Hi");
    assert_eq!(
        port.trace,
        vec![
            Access::Read8 { offset: 5, value: 0x20 },
            Access::Write8 { offset: 0, value: 0x48 },
            Access::Read8 { offset: 5, value: 0x20 },
            Access::Write8 { offset: 0, value: 0x69 },
        ]
    );
}

#[test]
fn wait_tx_empty_consumes_script_until_ready() {
    let mut port = MockPort::new();
    port.lsr_script = vec![0x00, 0x00, 0x20];
    port.set_register(5, 0x20);
    port.wait_tx_empty();
    assert_eq!(
        port.trace,
        vec![
            Access::Read8 { offset: 5, value: 0x00 },
            Access::Read8 { offset: 5, value: 0x00 },
            Access::Read8 { offset: 5, value: 0x20 },
        ]
    );
    assert_eq!(port.lsr_pos, 3);
}

#[test]
fn wait_tx_empty_falls_back_to_stored_lsr() {
    let mut port = MockPort::new();
    port.lsr_script = vec![0x00, 0x00];
    port.set_register(5, 0x20);
    port.wait_tx_empty();
    assert_eq!(
        port.trace,
        vec![
            Access::Read8 { offset: 5, value: 0x00 },
            Access::Read8 { offset: 5, value: 0x00 },
            Access::Read8 { offset: 5, value: 0x20 },
        ]
    );
}

#[test]
fn mock_write_u16_splits_low_byte_first() {
    let mut port = MockPort::new();
    port.write_u16(0, 0xBEEF);
    assert_eq!(port.register(0), 0xEF);
    assert_eq!(port.register(1), 0xBE);
    assert_eq!(port.trace, vec![Access::Write16 { offset: 0, value: 0xBEEF }]);
}

#[test]
fn mock_read_u8_prefers_script_for_lsr() {
    let mut port = MockPort::new();
    port.lsr_script = vec![0x21];
    port.set_register(5, 0x00);
    port.set_register(4, 0x77);
    assert_eq!(port.read_u8(5), 0x21);
    // script exhausted: the stored byte answers
    assert_eq!(port.read_u8(5), 0x00);
    // other offsets read the stored byte directly
    assert_eq!(port.read_u8(4), 0x77);
    assert_eq!(
        port.trace,
        vec![
            Access::Read8 { offset: 5, value: 0x21 },
            Access::Read8 { offset: 5, value: 0x00 },
            Access::Read8 { offset: 4, value: 0x77 },
        ]
    );
}
