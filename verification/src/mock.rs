//! An in-memory register block standing in for the hardware.
//!
//! [`MockPort`] stores one byte per register offset and records every
//! access in a trace that is also its [`RegisterPort::log`]. Reads of the
//! Line Status Register (offset 5) are under test control: they first
//! consume `lsr_script` front to back, then settle on the stored `reg5`
//! byte, so a test can make the transmitter appear busy for any chosen
//! prefix of polls.

use vstd::prelude::*;

verus! {

use crate::port::{Access, RegisterPort, all_failed_polls, is_failed_poll, is_ready_poll,
    is_wait_log};

/// A writable register block with scripted Line Status reads.
pub struct MockPort {
    /// The stored bytes of the eight registers.
    pub reg0: u8,
    pub reg1: u8,
    pub reg2: u8,
    pub reg3: u8,
    pub reg4: u8,
    pub reg5: u8,
    pub reg6: u8,
    pub reg7: u8,
    /// Values that successive reads of offset 5 return before they fall
    /// back to `reg5`.
    pub lsr_script: Vec<u8>,
    /// How many script entries have been consumed.
    pub lsr_pos: usize,
    /// Every access made so far, in order.
    pub trace: Vec<Access>,
}

impl MockPort {
    /// The stored byte at a register offset.
    pub open spec fn reg_spec(self, offset: int) -> u8 {
        if offset == 0 {
            self.reg0
        } else if offset == 1 {
            self.reg1
        } else if offset == 2 {
            self.reg2
        } else if offset == 3 {
            self.reg3
        } else if offset == 4 {
            self.reg4
        } else if offset == 5 {
            self.reg5
        } else if offset == 6 {
            self.reg6
        } else {
            self.reg7
        }
    }

    /// A fresh block: all registers zero, no script, empty trace.
    pub fn new() -> (port: MockPort)
        ensures
            port.log() == Seq::<Access>::empty(),
            forall|offset: int| 0 <= offset < 8 ==> port.reg_spec(offset) == 0,
            port.lsr_script@ == Seq::<u8>::empty(),
            port.lsr_pos == 0,
    {
        MockPort {
            reg0: 0,
            reg1: 0,
            reg2: 0,
            reg3: 0,
            reg4: 0,
            reg5: 0,
            reg6: 0,
            reg7: 0,
            lsr_script: Vec::new(),
            lsr_pos: 0,
            trace: Vec::new(),
        }
    }

    /// Reads the stored byte at `offset` without logging an access; for
    /// test setup and inspection, not a register access.
    pub fn register(&self, offset: usize) -> (value: u8)
        requires
            offset < 8,
        ensures
            value == self.reg_spec(offset as int),
    {
        match offset {
            0 => self.reg0,
            1 => self.reg1,
            2 => self.reg2,
            3 => self.reg3,
            4 => self.reg4,
            5 => self.reg5,
            6 => self.reg6,
            _ => self.reg7,
        }
    }

    /// Stores a byte at `offset` without logging an access; for test
    /// setup, not a register access.
    pub fn set_register(&mut self, offset: usize, value: u8)
        requires
            offset < 8,
        ensures
            final(self).reg_spec(offset as int) == value,
            forall|other: int|
                0 <= other < 8 && other != offset ==> final(self).reg_spec(other) == old(
                    self,
                ).reg_spec(other),
            offset != 5 ==> final(self).reg5 == old(self).reg5,
            final(self).trace == old(self).trace,
            final(self).lsr_script == old(self).lsr_script,
            final(self).lsr_pos == old(self).lsr_pos,
    {
        match offset {
            0 => self.reg0 = value,
            1 => self.reg1 = value,
            2 => self.reg2 = value,
            3 => self.reg3 = value,
            4 => self.reg4 = value,
            5 => self.reg5 = value,
            6 => self.reg6 = value,
            _ => self.reg7 = value,
        }
    }
}

impl RegisterPort for MockPort {
    open spec fn log(&self) -> Seq<Access> {
        self.trace@
    }

    open spec fn tx_eventually_ready(&self) -> bool {
        self.reg5 & 0x20 != 0
    }

    fn read_u8(&mut self, offset: usize) -> (value: u8) {
        let value: u8;
        if offset == 5 {
            if self.lsr_pos < self.lsr_script.len() {
                value = self.lsr_script[self.lsr_pos];
                self.lsr_pos = self.lsr_pos + 1;
            } else {
                value = self.reg5;
            }
        } else {
            value = self.register(offset);
        }
        self.trace.push(Access::Read8 { offset, value });
        value
    }

    fn write_u8(&mut self, offset: usize, value: u8) {
        self.set_register(offset, value);
        self.trace.push(Access::Write8 { offset, value });
    }

    fn write_u16(&mut self, offset: usize, value: u16) {
        proof {
            assert(value & 0xff < 256) by (bit_vector);
            assert(value >> 8 < 256) by (bit_vector);
        }
        let low: u8 = (value & 0xff) as u8;
        let high: u8 = (value >> 8) as u8;
        self.set_register(offset, low);
        self.set_register(offset + 1, high);
        self.trace.push(Access::Write16 { offset, value });
    }

    fn wait_tx_empty(&mut self) {
        while self.lsr_pos < self.lsr_script.len() && self.lsr_script[self.lsr_pos] & 0x20 == 0
            invariant
                self.reg0 == old(self).reg0,
                self.reg1 == old(self).reg1,
                self.reg2 == old(self).reg2,
                self.reg3 == old(self).reg3,
                self.reg4 == old(self).reg4,
                self.reg5 == old(self).reg5,
                self.reg6 == old(self).reg6,
                self.reg7 == old(self).reg7,
                old(self).reg5 & 0x20 != 0,
                self.lsr_script == old(self).lsr_script,
                self.trace@.len() >= old(self).trace@.len(),
                self.trace@.take(old(self).trace@.len() as int) == old(self).trace@,
                all_failed_polls(self.trace@.skip(old(self).trace@.len() as int)),
            decreases self.lsr_script.len() - self.lsr_pos,
        {
            let value = self.lsr_script[self.lsr_pos];
            self.lsr_pos = self.lsr_pos + 1;
            let ghost prev_trace: Seq<Access> = self.trace@;
            self.trace.push(Access::Read8 { offset: 5, value });
            proof {
                let pre = old(self).trace@;
                let tail = self.trace@.skip(pre.len() as int);
                assert(self.trace@.take(pre.len() as int) =~= pre);
                assert(tail.last() == (Access::Read8 { offset: 5, value }));
                assert forall|i: int| 0 <= i < tail.len() implies is_failed_poll(
                    #[trigger] tail[i],
                ) by {
                    if i < tail.len() - 1 {
                        assert(tail[i] == prev_trace.skip(pre.len() as int)[i]);
                    } else {
                        assert(tail[i] == tail.last());
                    }
                }
            }
        }
        let value: u8;
        if self.lsr_pos < self.lsr_script.len() {
            value = self.lsr_script[self.lsr_pos];
            self.lsr_pos = self.lsr_pos + 1;
        } else {
            value = self.reg5;
        }
        assert(value & 0x20 != 0);
        let ghost prev_trace: Seq<Access> = self.trace@;
        self.trace.push(Access::Read8 { offset: 5, value });
        proof {
            let pre = old(self).trace@;
            let tail = self.trace@.skip(pre.len() as int);
            assert(self.trace@.take(pre.len() as int) =~= pre);
            assert(tail.last() == (Access::Read8 { offset: 5, value }));
            assert(is_ready_poll(tail.last()));
            assert(tail.drop_last() =~= prev_trace.skip(pre.len() as int));
            assert(is_wait_log(tail));
        }
    }
}

} // verus!
