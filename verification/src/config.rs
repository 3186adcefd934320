//! Configuration value types and their hardware bit encodings.
//!
//! Each type is a closed enumeration whose value *is* the bit pattern the
//! device expects, and [`lcr_byte`] and [`fcr_byte`] are the exact layouts
//! of the Line Control and FIFO Control registers.

use vstd::prelude::*;

verus! {

/// Word length, bits 0-1 of the Line Control Register.
#[derive(Clone, Copy, Debug, PartialEq, Eq, Structural)]
pub enum WordLength {
    FIVE,
    SIX,
    SEVEN,
    EIGHT,
}

/// Number of stop bits, bit 2 of the Line Control Register.
#[derive(Clone, Copy, Debug, PartialEq, Eq, Structural)]
pub enum StopBits {
    ONE,
    TWO,
}

/// Parity enable, bit 3 of the Line Control Register.
#[derive(Clone, Copy, Debug, PartialEq, Eq, Structural)]
pub enum ParityBit {
    DISABLE,
    ENABLE,
}

/// Even/odd parity select, bit 4 of the Line Control Register.
#[derive(Clone, Copy, Debug, PartialEq, Eq, Structural)]
pub enum ParitySelect {
    EVEN,
    ODD,
}

/// Stick parity, bit 5 of the Line Control Register.
#[derive(Clone, Copy, Debug, PartialEq, Eq, Structural)]
pub enum StickParity {
    DISABLE,
    ENABLE,
}

/// Break control, bit 6 of the Line Control Register.
#[derive(Clone, Copy, Debug, PartialEq, Eq, Structural)]
pub enum Break {
    DISABLE,
    ENABLE,
}

/// Divisor latch access bit, bit 7 of the Line Control Register.
///
/// While set, the first two register offsets expose the baud-rate divisor
/// instead of the transmit/receive data registers.
#[derive(Clone, Copy, Debug, PartialEq, Eq, Structural)]
pub enum DLAB {
    CLEAR,
    SET,
}

/// DMA mode select, bit 3 of the FIFO Control Register.
#[derive(Clone, Copy, Debug, PartialEq, Eq, Structural)]
pub enum DMAMode {
    MODE0,
    MODE1,
}

/// Named baud-rate presets: 16-bit divisor latch values for a standard
/// 1.8432 MHz input clock.
#[derive(Clone, Copy, Debug, PartialEq, Eq, Structural)]
pub enum Divisor {
    BAUD50,
    BAUD300,
    BAUD1200,
    BAUD2400,
    BAUD4800,
    BAUD9600,
    BAUD19200,
    BAUD38400,
    BAUD57600,
    BAUD115200,
}

impl WordLength {
    /// The two-bit field value of this word length.
    pub open spec fn bits(self) -> u8 {
        match self {
            WordLength::FIVE => 0,
            WordLength::SIX => 1,
            WordLength::SEVEN => 2,
            WordLength::EIGHT => 3,
        }
    }

    /// Returns the field value of this word length.
    pub fn value(self) -> (v: u8)
        ensures
            v == self.bits(),
    {
        match self {
            WordLength::FIVE => 0,
            WordLength::SIX => 1,
            WordLength::SEVEN => 2,
            WordLength::EIGHT => 3,
        }
    }
}

impl StopBits {
    /// The one-bit field value of this stop-bit selection.
    pub open spec fn bits(self) -> u8 {
        match self {
            StopBits::ONE => 0,
            StopBits::TWO => 1,
        }
    }

    /// Returns the field value of this stop-bit selection.
    pub fn value(self) -> (v: u8)
        ensures
            v == self.bits(),
    {
        match self {
            StopBits::ONE => 0,
            StopBits::TWO => 1,
        }
    }
}

impl ParityBit {
    /// The one-bit field value of this parity enable.
    pub open spec fn bits(self) -> u8 {
        match self {
            ParityBit::DISABLE => 0,
            ParityBit::ENABLE => 1,
        }
    }

    /// Returns the field value of this parity enable.
    pub fn value(self) -> (v: u8)
        ensures
            v == self.bits(),
    {
        match self {
            ParityBit::DISABLE => 0,
            ParityBit::ENABLE => 1,
        }
    }
}

impl ParitySelect {
    /// The one-bit field value of this parity select.
    pub open spec fn bits(self) -> u8 {
        match self {
            ParitySelect::EVEN => 0,
            ParitySelect::ODD => 1,
        }
    }

    /// Returns the field value of this parity select.
    pub fn value(self) -> (v: u8)
        ensures
            v == self.bits(),
    {
        match self {
            ParitySelect::EVEN => 0,
            ParitySelect::ODD => 1,
        }
    }
}

impl StickParity {
    /// The one-bit field value of this stick-parity selection.
    pub open spec fn bits(self) -> u8 {
        match self {
            StickParity::DISABLE => 0,
            StickParity::ENABLE => 1,
        }
    }

    /// Returns the field value of this stick-parity selection.
    pub fn value(self) -> (v: u8)
        ensures
            v == self.bits(),
    {
        match self {
            StickParity::DISABLE => 0,
            StickParity::ENABLE => 1,
        }
    }
}

impl Break {
    /// The one-bit field value of this break control.
    pub open spec fn bits(self) -> u8 {
        match self {
            Break::DISABLE => 0,
            Break::ENABLE => 1,
        }
    }

    /// Returns the field value of this break control.
    pub fn value(self) -> (v: u8)
        ensures
            v == self.bits(),
    {
        match self {
            Break::DISABLE => 0,
            Break::ENABLE => 1,
        }
    }
}

impl DLAB {
    /// The one-bit field value of this divisor latch access bit.
    pub open spec fn bits(self) -> u8 {
        match self {
            DLAB::CLEAR => 0,
            DLAB::SET => 1,
        }
    }

    /// Returns the field value of this divisor latch access bit.
    pub fn value(self) -> (v: u8)
        ensures
            v == self.bits(),
    {
        match self {
            DLAB::CLEAR => 0,
            DLAB::SET => 1,
        }
    }
}

impl DMAMode {
    /// The one-bit field value of this DMA mode.
    pub open spec fn bits(self) -> u8 {
        match self {
            DMAMode::MODE0 => 0,
            DMAMode::MODE1 => 1,
        }
    }

    /// Returns the field value of this DMA mode.
    pub fn value(self) -> (v: u8)
        ensures
            v == self.bits(),
    {
        match self {
            DMAMode::MODE0 => 0,
            DMAMode::MODE1 => 1,
        }
    }
}

impl Divisor {
    /// The 16-bit divisor latch value of this preset.
    pub open spec fn bits(self) -> u16 {
        match self {
            Divisor::BAUD50 => 0x900,
            Divisor::BAUD300 => 0x180,
            Divisor::BAUD1200 => 0x60,
            Divisor::BAUD2400 => 0x30,
            Divisor::BAUD4800 => 0x18,
            Divisor::BAUD9600 => 0x0C,
            Divisor::BAUD19200 => 0x06,
            Divisor::BAUD38400 => 0x03,
            Divisor::BAUD57600 => 0x02,
            Divisor::BAUD115200 => 0x01,
        }
    }

    /// Returns the divisor latch value of this preset.
    pub fn value(self) -> (v: u16)
        ensures
            v == self.bits(),
    {
        match self {
            Divisor::BAUD50 => 0x900,
            Divisor::BAUD300 => 0x180,
            Divisor::BAUD1200 => 0x60,
            Divisor::BAUD2400 => 0x30,
            Divisor::BAUD4800 => 0x18,
            Divisor::BAUD9600 => 0x0C,
            Divisor::BAUD19200 => 0x06,
            Divisor::BAUD38400 => 0x03,
            Divisor::BAUD57600 => 0x02,
            Divisor::BAUD115200 => 0x01,
        }
    }
}

/// The Line Control Register byte for one configuration: each field
/// shifted into its designated bit position and OR-combined.
///
/// Layout: bits 0-1 word length, bit 2 stop bits, bit 3 parity enable,
/// bit 4 parity select, bit 5 stick parity, bit 6 break, bit 7 DLAB.
pub open spec fn lcr_byte(
    word_length: WordLength,
    stop_bits: StopBits,
    parity_bit: ParityBit,
    parity_select: ParitySelect,
    stick_parity: StickParity,
    break_: Break,
    dlab: DLAB,
) -> u8 {
    word_length.bits() | (stop_bits.bits() << 2) | (parity_bit.bits() << 3) | (
    parity_select.bits() << 4) | (stick_parity.bits() << 5) | (break_.bits() << 6) | (dlab.bits()
        << 7)
}

/// The FIFO Control Register byte for one DMA mode: bit 0 is always set
/// to enable the FIFO, bit 3 carries the DMA mode.
pub open spec fn fcr_byte(dma_mode: DMAMode) -> u8 {
    1 | (dma_mode.bits() << 3)
}

/// Law: the OR-combination in [`lcr_byte`] keeps the fields apart, so the
/// byte written to the Line Control Register carries every configuration
/// field unclobbered at its designated position; in particular the DLAB
/// bit (bit 7) is set in the byte exactly when `dlab` is [`DLAB::SET`].
pub proof fn lemma_lcr_fields(
    word_length: WordLength,
    stop_bits: StopBits,
    parity_bit: ParityBit,
    parity_select: ParitySelect,
    stick_parity: StickParity,
    break_: Break,
    dlab: DLAB,
)
    ensures
        lcr_byte(word_length, stop_bits, parity_bit, parity_select, stick_parity, break_, dlab)
            & 0x03 == word_length.bits(),
        (lcr_byte(word_length, stop_bits, parity_bit, parity_select, stick_parity, break_, dlab)
            >> 2) & 0x01 == stop_bits.bits(),
        (lcr_byte(word_length, stop_bits, parity_bit, parity_select, stick_parity, break_, dlab)
            >> 3) & 0x01 == parity_bit.bits(),
        (lcr_byte(word_length, stop_bits, parity_bit, parity_select, stick_parity, break_, dlab)
            >> 4) & 0x01 == parity_select.bits(),
        (lcr_byte(word_length, stop_bits, parity_bit, parity_select, stick_parity, break_, dlab)
            >> 5) & 0x01 == stick_parity.bits(),
        (lcr_byte(word_length, stop_bits, parity_bit, parity_select, stick_parity, break_, dlab)
            >> 6) & 0x01 == break_.bits(),
        (lcr_byte(word_length, stop_bits, parity_bit, parity_select, stick_parity, break_, dlab)
            >> 7) & 0x01 == dlab.bits(),
        (lcr_byte(word_length, stop_bits, parity_bit, parity_select, stick_parity, break_, dlab)
            & 0x80 == 0x80) <==> dlab == DLAB::SET,
        (lcr_byte(word_length, stop_bits, parity_bit, parity_select, stick_parity, break_, dlab)
            & 0x80 == 0) <==> dlab == DLAB::CLEAR,
{
    let wl = word_length.bits();
    let sb = stop_bits.bits();
    let pb = parity_bit.bits();
    let ps = parity_select.bits();
    let sp = stick_parity.bits();
    let br = break_.bits();
    let dl = dlab.bits();
    assert(wl < 4 && sb < 2 && pb < 2 && ps < 2 && sp < 2 && br < 2 && dl < 2);
    assert((wl | (sb << 2) | (pb << 3) | (ps << 4) | (sp << 5) | (br << 6) | (dl << 7)) & 0x03
        == wl) by (bit_vector)
        requires
            wl < 4 && sb < 2 && pb < 2 && ps < 2 && sp < 2 && br < 2 && dl < 2,
    ;
    assert(((wl | (sb << 2) | (pb << 3) | (ps << 4) | (sp << 5) | (br << 6) | (dl << 7)) >> 2)
        & 0x01 == sb) by (bit_vector)
        requires
            wl < 4 && sb < 2 && pb < 2 && ps < 2 && sp < 2 && br < 2 && dl < 2,
    ;
    assert(((wl | (sb << 2) | (pb << 3) | (ps << 4) | (sp << 5) | (br << 6) | (dl << 7)) >> 3)
        & 0x01 == pb) by (bit_vector)
        requires
            wl < 4 && sb < 2 && pb < 2 && ps < 2 && sp < 2 && br < 2 && dl < 2,
    ;
    assert(((wl | (sb << 2) | (pb << 3) | (ps << 4) | (sp << 5) | (br << 6) | (dl << 7)) >> 4)
        & 0x01 == ps) by (bit_vector)
        requires
            wl < 4 && sb < 2 && pb < 2 && ps < 2 && sp < 2 && br < 2 && dl < 2,
    ;
    assert(((wl | (sb << 2) | (pb << 3) | (ps << 4) | (sp << 5) | (br << 6) | (dl << 7)) >> 5)
        & 0x01 == sp) by (bit_vector)
        requires
            wl < 4 && sb < 2 && pb < 2 && ps < 2 && sp < 2 && br < 2 && dl < 2,
    ;
    assert(((wl | (sb << 2) | (pb << 3) | (ps << 4) | (sp << 5) | (br << 6) | (dl << 7)) >> 6)
        & 0x01 == br) by (bit_vector)
        requires
            wl < 4 && sb < 2 && pb < 2 && ps < 2 && sp < 2 && br < 2 && dl < 2,
    ;
    assert(((wl | (sb << 2) | (pb << 3) | (ps << 4) | (sp << 5) | (br << 6) | (dl << 7)) >> 7)
        & 0x01 == dl) by (bit_vector)
        requires
            wl < 4 && sb < 2 && pb < 2 && ps < 2 && sp < 2 && br < 2 && dl < 2,
    ;
    assert(((wl | (sb << 2) | (pb << 3) | (ps << 4) | (sp << 5) | (br << 6) | (dl << 7)) & 0x80
        == 0x80) <==> dl == 1) by (bit_vector)
        requires
            wl < 4 && sb < 2 && pb < 2 && ps < 2 && sp < 2 && br < 2 && dl < 2,
    ;
    assert(((wl | (sb << 2) | (pb << 3) | (ps << 4) | (sp << 5) | (br << 6) | (dl << 7)) & 0x80
        == 0) <==> dl == 0) by (bit_vector)
        requires
            wl < 4 && sb < 2 && pb < 2 && ps < 2 && sp < 2 && br < 2 && dl < 2,
    ;
}

} // verus!
