//! The UART device handle and its register operations.
//!
//! [`Uart`] binds a base address to the NS16550A register operations:
//! line-control and FIFO-control configuration, the four-step
//! initialization protocol around the divisor latch, non-blocking
//! single-byte transmit and receive, and a blocking buffered-output
//! adapter. Every operation works through a [`RegisterPort`] standing
//! for the register block at the base address, and its contract states
//! exactly which access events it appends to the port's log.

use vstd::prelude::*;

verus! {

use vstd::string::StringSliceAdditionalSpecFns;

use crate::config::{Break, DLAB, DMAMode, Divisor, ParityBit, ParitySelect, StickParity,
    StopBits, WordLength, fcr_byte, lcr_byte, lemma_lcr_fields};
use crate::port::{Access, RegisterPort, is_wait_log, lemma_sends_concat, lemma_sends_tx_data,
    lemma_tx_data_concat, lemma_tx_data_push, lemma_wait_then_write_sends, sends, sent_byte,
    transmits, tx_data};

/// One NS16550A UART instance, identified by the base address of its
/// register block.
#[derive(Clone, Copy, Debug)]
pub struct Uart {
    base_address: usize,
}

/// The log `post` extends `pre` by one transmit attempt of `c` whose
/// Line Status poll returned `lsr`, and `r` reports the outcome: a poll
/// that found the transmitter busy appends nothing else and returns
/// nothing; a poll that found it empty is followed by the write of `c`
/// to the data register, confirmed by returning `c`.
pub open spec fn put_step(
    pre: Seq<Access>,
    post: Seq<Access>,
    c: u8,
    r: Option<u8>,
    lsr: u8,
) -> bool {
    if lsr & 0x20 == 0 {
        &&& post == pre.push((Access::Read8 { offset: 5, value: lsr }))
        &&& r is None
    } else {
        &&& post == pre.push((Access::Read8 { offset: 5, value: lsr })).push(
            (Access::Write8 { offset: 0, value: c }),
        )
        &&& r == Some(c)
    }
}

/// Some Line Status value read by the device decided the transmit
/// attempt as [`put_step`] describes.
pub open spec fn put_behavior(pre: Seq<Access>, post: Seq<Access>, c: u8, r: Option<u8>) -> bool {
    exists|lsr: u8| #[trigger] put_step(pre, post, c, r, lsr)
}

/// The log `post` extends `pre` by one receive attempt whose Line
/// Status poll returned `lsr`, and `r` reports the outcome: a poll that
/// found no data ready appends nothing else and returns nothing; a poll
/// that found data ready is followed by the read of the data register,
/// whose byte `data` is returned.
pub open spec fn get_step(
    pre: Seq<Access>,
    post: Seq<Access>,
    r: Option<u8>,
    lsr: u8,
    data: u8,
) -> bool {
    if lsr & 0x01 == 0 {
        &&& post == pre.push((Access::Read8 { offset: 5, value: lsr }))
        &&& r is None
    } else {
        &&& post == pre.push((Access::Read8 { offset: 5, value: lsr })).push(
            (Access::Read8 { offset: 0, value: data }),
        )
        &&& r == Some(data)
    }
}

/// Some Line Status value read by the device decided the receive
/// attempt as [`get_step`] describes.
pub open spec fn get_behavior(pre: Seq<Access>, post: Seq<Access>, r: Option<u8>) -> bool {
    exists|lsr: u8, data: u8| #[trigger] get_step(pre, post, r, lsr, data)
}

/// The exact four-event access sequence of [`Uart::init`]: the Line
/// Control write that sets DLAB, the FIFO Control write, the 16-bit
/// divisor write to offsets 0-1, and the Line Control write that
/// restores DLAB to clear.
pub open spec fn init_log(
    pre: Seq<Access>,
    word_length: WordLength,
    stop_bits: StopBits,
    parity_bit: ParityBit,
    parity_select: ParitySelect,
    stick_parity: StickParity,
    break_: Break,
    dma_mode: DMAMode,
    divisor: Divisor,
) -> Seq<Access> {
    pre.push(
        (Access::Write8 {
            offset: 3,
            value: lcr_byte(
                word_length,
                stop_bits,
                parity_bit,
                parity_select,
                stick_parity,
                break_,
                DLAB::SET,
            ),
        }),
    ).push((Access::Write8 { offset: 2, value: fcr_byte(dma_mode) })).push(
        (Access::Write16 { offset: 0, value: divisor.bits() }),
    ).push(
        (Access::Write8 {
            offset: 3,
            value: lcr_byte(
                word_length,
                stop_bits,
                parity_bit,
                parity_select,
                stick_parity,
                break_,
                DLAB::CLEAR,
            ),
        }),
    )
}

impl Uart {
    /// The base address this handle was constructed with.
    pub closed spec fn base(self) -> usize {
        self.base_address
    }

    /// Creates a new handle for the UART whose register block starts at
    /// `base_address`. Pure value construction: no register is touched,
    /// and the address is not validated — board setup must guarantee it
    /// maps to a live device.
    pub fn new(base_address: usize) -> (uart: Uart)
        ensures
            uart.base() == base_address,
    {
        Uart { base_address }
    }

    /// Returns the base address.
    pub fn base_address(&self) -> (addr: usize)
        ensures
            addr == self.base(),
    {
        self.base_address
    }

    /// Writes the Line Control Register (offset 3): one byte combining
    /// every line parameter at its designated bit position, exactly
    /// [`lcr_byte`] — and touches no other register.
    pub fn set_lcr<P: RegisterPort>(
        &self,
        port: &mut P,
        word_length: WordLength,
        stop_bits: StopBits,
        parity_bit: ParityBit,
        parity_select: ParitySelect,
        stick_parity: StickParity,
        break_: Break,
        dlab: DLAB,
    )
        ensures
            final(port).log() == old(port).log().push(
                (Access::Write8 {
                    offset: 3,
                    value: lcr_byte(
                        word_length,
                        stop_bits,
                        parity_bit,
                        parity_select,
                        stick_parity,
                        break_,
                        dlab,
                    ),
                }),
            ),
            final(port).tx_eventually_ready() == old(port).tx_eventually_ready(),
    {
        let value: u8 = word_length.value() | (stop_bits.value() << 2) | (parity_bit.value() << 3)
            | (parity_select.value() << 4) | (stick_parity.value() << 5) | (break_.value() << 6) | (
        dlab.value() << 7);
        port.write_u8(3, value);
    }

    /// Writes the FIFO Control Register (offset 2): bit 0 set to enable
    /// the FIFO, bit 3 carrying the DMA mode, exactly [`fcr_byte`] —
    /// and touches no other register.
    pub fn set_fcr<P: RegisterPort>(&self, port: &mut P, dma_mode: DMAMode)
        ensures
            final(port).log() == old(port).log().push(
                (Access::Write8 { offset: 2, value: fcr_byte(dma_mode) }),
            ),
            final(port).tx_eventually_ready() == old(port).tx_eventually_ready(),
    {
        let value: u8 = 1 | (dma_mode.value() << 3);
        port.write_u8(2, value);
    }

    /// Initializes the UART: sets the Line Control Register with DLAB
    /// set, configures the FIFO, writes the 16-bit divisor across
    /// offsets 0-1 while the latch is open, and restores the Line
    /// Control Register with DLAB clear — in exactly that order, and
    /// nothing else, as [`init_log`] states event by event.
    pub fn init<P: RegisterPort>(
        &self,
        port: &mut P,
        word_length: WordLength,
        stop_bits: StopBits,
        parity_bit: ParityBit,
        parity_select: ParitySelect,
        stick_parity: StickParity,
        break_: Break,
        dma_mode: DMAMode,
        divisor: Divisor,
    )
        ensures
            final(port).log() == init_log(
                old(port).log(),
                word_length,
                stop_bits,
                parity_bit,
                parity_select,
                stick_parity,
                break_,
                dma_mode,
                divisor,
            ),
            final(port).tx_eventually_ready() == old(port).tx_eventually_ready(),
    {
        self.set_lcr(
            port,
            word_length,
            stop_bits,
            parity_bit,
            parity_select,
            stick_parity,
            break_,
            DLAB::SET,
        );
        self.set_fcr(port, dma_mode);
        port.write_u16(0, divisor.value());
        self.set_lcr(
            port,
            word_length,
            stop_bits,
            parity_bit,
            parity_select,
            stick_parity,
            break_,
            DLAB::CLEAR,
        );
    }

    /// Non-blocking transmit: polls the Line Status Register once; if
    /// the transmitter holding register is still draining (bit 5
    /// clear), accepts nothing and returns `None` — the data register
    /// stays untouched; if it is empty, writes `c` to the data register
    /// and returns `Some(c)` as confirmation.
    pub fn put<P: RegisterPort>(&self, port: &mut P, c: u8) -> (r: Option<u8>)
        ensures
            put_behavior(old(port).log(), final(port).log(), c, r),
            r is Some ==> r == Some(c),
            tx_data(final(port).log()) == if r is Some {
                tx_data(old(port).log()).push(c)
            } else {
                tx_data(old(port).log())
            },
            final(port).tx_eventually_ready() == old(port).tx_eventually_ready(),
    {
        let lsr = port.read_u8(5);
        if lsr & 0x20 == 0 {
            proof {
                assert(put_step(old(port).log(), port.log(), c, None::<u8>, lsr));
                lemma_tx_data_push(old(port).log(), (Access::Read8 { offset: 5, value: lsr }));
                assert(tx_data(old(port).log()) + Seq::<u8>::empty() =~= tx_data(old(port).log()));
            }
            None
        } else {
            let ghost mid: Seq<Access> = port.log();
            port.write_u8(0, c);
            proof {
                assert(put_step(old(port).log(), port.log(), c, Some(c), lsr));
                lemma_tx_data_push(old(port).log(), (Access::Read8 { offset: 5, value: lsr }));
                assert(tx_data(mid) =~= tx_data(old(port).log()));
                lemma_tx_data_push(mid, (Access::Write8 { offset: 0, value: c }));
                assert(tx_data(mid) + seq![c] =~= tx_data(mid).push(c));
            }
            Some(c)
        }
    }

    /// Non-blocking receive: polls the Line Status Register once; if no
    /// data is ready (bit 0 clear), returns `None`; if data is ready,
    /// reads the data register and returns its byte.
    pub fn get<P: RegisterPort>(&self, port: &mut P) -> (r: Option<u8>)
        ensures
            get_behavior(old(port).log(), final(port).log(), r),
            tx_data(final(port).log()) == tx_data(old(port).log()),
            final(port).tx_eventually_ready() == old(port).tx_eventually_ready(),
    {
        let lsr = port.read_u8(5);
        if lsr & 0x01 == 0 {
            proof {
                assert(get_step(old(port).log(), port.log(), None::<u8>, lsr, 0));
                lemma_tx_data_push(old(port).log(), (Access::Read8 { offset: 5, value: lsr }));
                assert(tx_data(old(port).log()) + Seq::<u8>::empty() =~= tx_data(old(port).log()));
            }
            None
        } else {
            let ghost mid: Seq<Access> = port.log();
            let data = port.read_u8(0);
            proof {
                assert(get_step(old(port).log(), port.log(), Some(data), lsr, data));
                lemma_tx_data_push(old(port).log(), (Access::Read8 { offset: 5, value: lsr }));
                assert(tx_data(mid) =~= tx_data(old(port).log()));
                lemma_tx_data_push(mid, (Access::Read8 { offset: 0, value: data }));
                assert(tx_data(mid) + Seq::<u8>::empty() =~= tx_data(mid));
            }
            Some(data)
        }
    }

    /// Buffered output: transmits every byte of `s`, in order, blocking
    /// on each until the transmitter accepts it; returns only once all
    /// of `s` is accepted. The appended log transmits exactly `s` —
    /// polls and data writes only, no other register is touched.
    #[verifier::loop_isolation(false)]
    pub fn write_bytes<P: RegisterPort>(&self, port: &mut P, s: &[u8])
        requires
            old(port).tx_eventually_ready(),
        ensures
            transmits(old(port).log(), final(port).log(), s@),
            tx_data(final(port).log()) == tx_data(old(port).log()) + s@,
            final(port).tx_eventually_ready(),
    {
        let ghost pre: Seq<Access> = port.log();
        proof {
            assert(port.log().skip(pre.len() as int) =~= Seq::<Access>::empty());
            assert(port.log().take(pre.len() as int) =~= pre);
            assert(s@.take(0) =~= Seq::<u8>::empty());
        }
        let mut i: usize = 0;
        while i < s.len()
            invariant
                i <= s.len(),
                port.tx_eventually_ready(),
                transmits(pre, port.log(), s@.take(i as int)),
            decreases s.len() - i,
        {
            let ghost before: Seq<Access> = port.log();
            port.wait_tx_empty();
            let ghost mid: Seq<Access> = port.log();
            port.write_u8(0, s[i]);
            proof {
                let w = mid.skip(before.len() as int);
                lemma_wait_then_write_sends(w, s@[i as int]);
                let step = w.push((Access::Write8 { offset: 0, value: s@[i as int] }));
                lemma_sends_concat(
                    before.skip(pre.len() as int),
                    s@.take(i as int),
                    step,
                    seq![s@[i as int]],
                );
                assert(port.log().skip(pre.len() as int) =~= before.skip(pre.len() as int) + step);
                assert(s@.take(i as int) + seq![s@[i as int]] =~= s@.take(i + 1));
                assert(port.log().take(pre.len() as int) =~= pre);
            }
            i = i + 1;
        }
        proof {
            assert(s@.take(i as int) =~= s@);
            let tail = port.log().skip(pre.len() as int);
            lemma_sends_tx_data(tail, s@);
            assert(port.log() =~= pre + tail);
            lemma_tx_data_concat(pre, tail);
        }
    }

    /// Buffered text output: transmits the UTF-8 bytes of `s` through
    /// [`Uart::write_bytes`].
    pub fn write_str<P: RegisterPort>(&self, port: &mut P, s: &str)
        requires
            old(port).tx_eventually_ready(),
        ensures
            transmits(old(port).log(), final(port).log(), s.spec_bytes()),
            tx_data(final(port).log()) == tx_data(old(port).log()) + s.spec_bytes(),
            final(port).tx_eventually_ready(),
    {
        self.write_bytes(port, s.as_bytes());
    }
}

/// Law: initialization opens the divisor latch before the divisor write
/// and closes it afterwards. In the access sequence of [`Uart::init`],
/// the 16-bit divisor write to offsets 0-1 is the third appended event;
/// the Line Control byte written before it has the DLAB bit (bit 7)
/// set, and the one written after it — the last access `init` makes —
/// has the DLAB bit clear.
pub proof fn lemma_init_dlab_protocol(
    pre: Seq<Access>,
    word_length: WordLength,
    stop_bits: StopBits,
    parity_bit: ParityBit,
    parity_select: ParitySelect,
    stick_parity: StickParity,
    break_: Break,
    dma_mode: DMAMode,
    divisor: Divisor,
)
    ensures
        ({
            let post = init_log(
                pre,
                word_length,
                stop_bits,
                parity_bit,
                parity_select,
                stick_parity,
                break_,
                dma_mode,
                divisor,
            );
            &&& post.len() == pre.len() + 4
            &&& post.take(pre.len() as int) == pre
            &&& post[pre.len() as int + 2] == (Access::Write16 { offset: 0, value: divisor.bits() })
            &&& post[pre.len() as int] matches Access::Write8 { offset, value } && offset == 3
                && value & 0x80 == 0x80
            &&& post[pre.len() as int + 3] matches Access::Write8 { offset, value } && offset == 3
                && value & 0x80 == 0
        }),
{
    let post = init_log(
        pre,
        word_length,
        stop_bits,
        parity_bit,
        parity_select,
        stick_parity,
        break_,
        dma_mode,
        divisor,
    );
    assert(post.take(pre.len() as int) =~= pre);
    let lcr_set = lcr_byte(
        word_length,
        stop_bits,
        parity_bit,
        parity_select,
        stick_parity,
        break_,
        DLAB::SET,
    );
    let lcr_clear = lcr_byte(
        word_length,
        stop_bits,
        parity_bit,
        parity_select,
        stick_parity,
        break_,
        DLAB::CLEAR,
    );
    let l1 = pre.push((Access::Write8 { offset: 3, value: lcr_set }));
    let l2 = l1.push((Access::Write8 { offset: 2, value: fcr_byte(dma_mode) }));
    let l3 = l2.push((Access::Write16 { offset: 0, value: divisor.bits() }));
    assert(post == l3.push((Access::Write8 { offset: 3, value: lcr_clear })));
    assert(post[pre.len() as int] == (Access::Write8 { offset: 3, value: lcr_set }));
    assert(post[pre.len() as int + 2] == (Access::Write16 { offset: 0, value: divisor.bits() }));
    assert(post[pre.len() as int + 3] == (Access::Write8 { offset: 3, value: lcr_clear }));
    lemma_lcr_fields(
        word_length,
        stop_bits,
        parity_bit,
        parity_select,
        stick_parity,
        break_,
        DLAB::SET,
    );
    lemma_lcr_fields(
        word_length,
        stop_bits,
        parity_bit,
        parity_select,
        stick_parity,
        break_,
        DLAB::CLEAR,
    );
}

} // verus!
