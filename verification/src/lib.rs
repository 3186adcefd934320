//! Register-level driver for an NS16550A-compatible UART.
//!
//! The driver translates typed configuration values into the exact bit
//! patterns the device expects and offers non-blocking, byte-granular
//! transmit and receive over the canonical 8-register block, plus a
//! blocking buffered-output adapter. Every register access goes through
//! a [`RegisterPort`], which records each read and write as one event in
//! program order; the driver's contracts state, for every operation,
//! exactly which events it appends — which registers it touches, with
//! which values, and in which order. A hardware-backed port performs the
//! volatile memory-mapped accesses outside this crate; [`MockPort`] is a
//! verified in-memory port for exercising the driver.

mod config;
mod mock;
mod port;
mod uart;

pub use config::{
    Break, DLAB, DMAMode, Divisor, ParityBit, ParitySelect, StickParity, StopBits, WordLength,
};
pub use config::{fcr_byte, lcr_byte, lemma_lcr_fields};
pub use mock::MockPort;
pub use port::{
    Access, RegisterPort, all_failed_polls, is_failed_poll, is_ready_poll, is_wait_log,
    lemma_sends_concat, lemma_sends_tx_data, lemma_tx_data_concat, lemma_tx_data_push,
    lemma_wait_then_write_sends, sends, sent_byte, transmits, tx_data,
};
pub use uart::{
    Uart, get_behavior, get_step, init_log, lemma_init_dlab_protocol, put_behavior, put_step,
};
