//! The register-access model: what a port is and what its log means.
//!
//! A [`RegisterPort`] stands for the register block of one UART: reads
//! and writes of single bytes, the 16-bit divisor write, and a blocking
//! wait for the transmitter. Each access appends one [`Access`] event to
//! the port's ghost log, in program order, so a contract over the log
//! says exactly which registers an operation touched, with which values,
//! and in which order.

use vstd::prelude::*;

verus! {

/// One register access: offsets are relative to the start of the
/// register block.
#[derive(Clone, Copy, Debug, PartialEq, Eq, Structural)]
#[allow(inconsistent_fields)]
pub enum Access {
    /// A single-byte read that returned `value`.
    Read8 { offset: usize, value: u8 },
    /// A single-byte write of `value`.
    Write8 { offset: usize, value: u8 },
    /// A 16-bit write of `value` covering `offset` and `offset + 1`.
    Write16 { offset: usize, value: u16 },
}

/// A poll of the Line Status Register (offset 5) that found the
/// transmitter holding register still draining (bit 5 clear).
pub open spec fn is_failed_poll(a: Access) -> bool {
    a matches Access::Read8 { offset, value } && offset == 5 && value & 0x20 == 0
}

/// A poll of the Line Status Register (offset 5) that found the
/// transmitter holding register empty (bit 5 set).
pub open spec fn is_ready_poll(a: Access) -> bool {
    a matches Access::Read8 { offset, value } && offset == 5 && value & 0x20 != 0
}

/// Every event in `t` is a failed transmitter poll.
pub open spec fn all_failed_polls(t: Seq<Access>) -> bool {
    forall|i: int| 0 <= i < t.len() ==> is_failed_poll(#[trigger] t[i])
}

/// The shape of one blocking wait for the transmitter: any number of
/// failed polls, then the poll that found the transmitter empty.
pub open spec fn is_wait_log(t: Seq<Access>) -> bool {
    &&& t.len() >= 1
    &&& is_ready_poll(t.last())
    &&& all_failed_polls(t.drop_last())
}

/// The event sequence `tail` transmits exactly `bytes`, in order: for
/// each byte, failed transmitter polls until a ready poll, then the
/// write of that byte to the data register at offset 0 — and nothing
/// else.
pub open spec fn sends(tail: Seq<Access>, bytes: Seq<u8>) -> bool
    decreases tail.len(),
{
    if bytes.len() == 0 {
        tail.len() == 0
    } else if tail.len() == 0 {
        false
    } else if is_failed_poll(tail[0]) {
        sends(tail.skip(1), bytes)
    } else {
        &&& is_ready_poll(tail[0])
        &&& tail.len() >= 2
        &&& tail[1] == (Access::Write8 { offset: 0, value: bytes[0] })
        &&& sends(tail.skip(2), bytes.skip(1))
    }
}

/// The port's log went from `pre` to `post` by transmitting exactly
/// `bytes`: `pre` is untouched and the appended tail [`sends`] `bytes`.
pub open spec fn transmits(pre: Seq<Access>, post: Seq<Access>, bytes: Seq<u8>) -> bool {
    &&& pre.len() <= post.len()
    &&& post.take(pre.len() as int) == pre
    &&& sends(post.skip(pre.len() as int), bytes)
}

/// The byte a single event hands to the transmitter: the value of a
/// write to the data register at offset 0, nothing for any other event.
pub open spec fn sent_byte(a: Access) -> Seq<u8> {
    match a {
        Access::Write8 { offset, value } => if offset == 0 {
            seq![value]
        } else {
            Seq::empty()
        },
        _ => Seq::empty(),
    }
}

/// All data bytes a log hands to the transmitter, in program order.
pub open spec fn tx_data(log: Seq<Access>) -> Seq<u8>
    decreases log.len(),
{
    if log.len() == 0 {
        Seq::empty()
    } else {
        sent_byte(log[0]) + tx_data(log.skip(1))
    }
}

/// The register block of one UART. Every access appends exactly one
/// event to the log; nothing is reordered, repeated, cached or dropped.
///
/// `tx_eventually_ready()` is the device-liveness assumption behind the
/// blocking wait: from this state on, polling the Line Status Register
/// always eventually finds the transmitter holding register empty. A
/// hardware-backed port asserts it of a live, powered device; the
/// in-memory port computes it from its own state.
pub trait RegisterPort: Sized {
    /// All accesses made through this port so far, in program order.
    /// A verified port defines it from its own state; the defaults here
    /// only spare an unverified, hardware-backed port — whose methods
    /// nothing checks — from naming ghost state it does not track.
    open spec fn log(&self) -> Seq<Access> {
        Seq::empty()
    }

    /// From this state on, a blocking wait for the transmitter returns.
    open spec fn tx_eventually_ready(&self) -> bool {
        true
    }

    /// Reads one byte from the register at `offset`.
    fn read_u8(&mut self, offset: usize) -> (value: u8)
        requires
            offset < 8,
        ensures
            final(self).log() == old(self).log().push((Access::Read8 { offset, value })),
            final(self).tx_eventually_ready() == old(self).tx_eventually_ready(),
    ;

    /// Writes one byte to the register at `offset`.
    fn write_u8(&mut self, offset: usize, value: u8)
        requires
            offset < 8,
        ensures
            final(self).log() == old(self).log().push((Access::Write8 { offset, value })),
            offset != 5 ==> final(self).tx_eventually_ready() == old(self).tx_eventually_ready(),
    ;

    /// Writes a 16-bit value across the registers at `offset` and
    /// `offset + 1`, low byte first.
    fn write_u16(&mut self, offset: usize, value: u16)
        requires
            offset + 1 < 8,
        ensures
            final(self).log() == old(self).log().push((Access::Write16 { offset, value })),
            offset != 5 && offset + 1 != 5 ==> final(self).tx_eventually_ready() == old(
                self,
            ).tx_eventually_ready(),
    ;

    /// Polls the Line Status Register until the transmitter holding
    /// register is empty. Blocks; termination rests on
    /// [`RegisterPort::tx_eventually_ready`].
    fn wait_tx_empty(&mut self)
        requires
            old(self).tx_eventually_ready(),
        ensures
            final(self).tx_eventually_ready(),
            final(self).log().len() > old(self).log().len(),
            final(self).log().take(old(self).log().len() as int) == old(self).log(),
            is_wait_log(final(self).log().skip(old(self).log().len() as int)),
    ;
}

/// Law: transmissions compose — a tail that sends `b1` followed by a
/// tail that sends `b2` sends `b1 + b2`.
pub proof fn lemma_sends_concat(t1: Seq<Access>, b1: Seq<u8>, t2: Seq<Access>, b2: Seq<u8>)
    requires
        sends(t1, b1),
        sends(t2, b2),
    ensures
        sends(t1 + t2, b1 + b2),
    decreases t1.len(),
{
    if b1.len() == 0 {
        assert(t1 + t2 =~= t2);
        assert(b1 + b2 =~= b2);
    } else if is_failed_poll(t1[0]) {
        lemma_sends_concat(t1.skip(1), b1, t2, b2);
        assert((t1 + t2).skip(1) =~= t1.skip(1) + t2);
        assert((t1 + t2)[0] == t1[0]);
    } else {
        lemma_sends_concat(t1.skip(2), b1.skip(1), t2, b2);
        assert((t1 + t2).skip(2) =~= t1.skip(2) + t2);
        assert(b1.skip(1) + b2 =~= (b1 + b2).skip(1));
        assert((t1 + t2)[0] == t1[0]);
        assert((t1 + t2)[1] == t1[1]);
    }
}

/// Law: one blocking wait followed by one write of `b` to the data
/// register transmits exactly the single byte `b`.
pub proof fn lemma_wait_then_write_sends(w: Seq<Access>, b: u8)
    requires
        is_wait_log(w),
    ensures
        sends(w.push((Access::Write8 { offset: 0, value: b })), seq![b]),
    decreases w.len(),
{
    let tail = w.push((Access::Write8 { offset: 0, value: b }));
    if w.len() == 1 {
        assert(is_ready_poll(tail[0]));
        assert(tail[1] == (Access::Write8 { offset: 0, value: b }));
        assert(tail.skip(2) =~= Seq::<Access>::empty());
        assert(seq![b].skip(1) =~= Seq::<u8>::empty());
        assert(sends(tail.skip(2), seq![b].skip(1)));
    } else {
        assert(is_failed_poll(w.drop_last()[0]));
        assert(w[0] == w.drop_last()[0]);
        let w1 = w.skip(1);
        assert(w1.last() == w.last());
        assert(all_failed_polls(w1.drop_last())) by {
            assert(forall|i: int|
                0 <= i < w1.drop_last().len() ==> w1.drop_last()[i] == w.drop_last()[i + 1]);
        }
        lemma_wait_then_write_sends(w1, b);
        assert(tail.skip(1) =~= w1.push((Access::Write8 { offset: 0, value: b })));
        assert(tail[0] == w[0]);
        assert(sends(tail.skip(1), seq![b]));
    }
}

/// Law: appending one event to a log appends that event's data byte, if
/// any, to the data the log hands to the transmitter.
pub proof fn lemma_tx_data_push(log: Seq<Access>, a: Access)
    ensures
        tx_data(log.push(a)) == tx_data(log) + sent_byte(a),
    decreases log.len(),
{
    if log.len() == 0 {
        assert(log.push(a)[0] == a);
        assert(log.push(a).skip(1) =~= Seq::<Access>::empty());
        assert(tx_data(Seq::<Access>::empty()) == Seq::<u8>::empty());
        assert(tx_data(log.push(a)) =~= sent_byte(a));
        assert(tx_data(log) + sent_byte(a) =~= sent_byte(a));
    } else {
        lemma_tx_data_push(log.skip(1), a);
        assert(log.push(a).skip(1) =~= log.skip(1).push(a));
        assert(log.push(a)[0] == log[0]);
        assert(sent_byte(log[0]) + (tx_data(log.skip(1)) + sent_byte(a)) =~= (sent_byte(log[0])
            + tx_data(log.skip(1))) + sent_byte(a));
    }
}

/// Law: the data a concatenated log hands to the transmitter is the
/// concatenation of what its parts hand over.
pub proof fn lemma_tx_data_concat(a: Seq<Access>, b: Seq<Access>)
    ensures
        tx_data(a + b) == tx_data(a) + tx_data(b),
    decreases b.len(),
{
    if b.len() == 0 {
        assert(a + b =~= a);
        assert(tx_data(a) + tx_data(b) =~= tx_data(a));
    } else {
        lemma_tx_data_concat(a, b.drop_last());
        assert(a + b =~= (a + b.drop_last()).push(b.last()));
        lemma_tx_data_push(a + b.drop_last(), b.last());
        assert(b =~= b.drop_last().push(b.last()));
        lemma_tx_data_push(b.drop_last(), b.last());
        assert((tx_data(a) + tx_data(b.drop_last())) + sent_byte(b.last()) =~= tx_data(a) + (
        tx_data(b.drop_last()) + sent_byte(b.last())));
    }
}

/// Law: a tail that transmits `bytes` hands exactly `bytes` to the
/// transmitter — every byte, in order, and no others.
pub proof fn lemma_sends_tx_data(tail: Seq<Access>, bytes: Seq<u8>)
    requires
        sends(tail, bytes),
    ensures
        tx_data(tail) == bytes,
    decreases tail.len(),
{
    if bytes.len() == 0 {
        assert(tx_data(tail) =~= bytes);
    } else if is_failed_poll(tail[0]) {
        lemma_sends_tx_data(tail.skip(1), bytes);
        assert(sent_byte(tail[0]) =~= Seq::<u8>::empty());
        assert(sent_byte(tail[0]) + tx_data(tail.skip(1)) =~= tx_data(tail.skip(1)));
    } else {
        lemma_sends_tx_data(tail.skip(2), bytes.skip(1));
        assert(tail.skip(1)[0] == tail[1]);
        assert(tail.skip(1).skip(1) =~= tail.skip(2));
        assert(sent_byte(tail[0]) =~= Seq::<u8>::empty());
        assert(sent_byte(tail[1]) =~= seq![bytes[0]]);
        assert(tx_data(tail.skip(1)) == sent_byte(tail[1]) + tx_data(tail.skip(2)));
        assert(tx_data(tail) =~= bytes) by {
            assert(tx_data(tail) == sent_byte(tail[0]) + (seq![bytes[0]] + bytes.skip(1)));
            assert(seq![bytes[0]] + bytes.skip(1) =~= bytes);
        }
    }
}

} // verus!
