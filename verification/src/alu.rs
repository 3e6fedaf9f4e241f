//! The arithmetic unit: a pure combinational block computing a 32-bit result
//! from two operands and a 3-bit operation selector, plus a derived zero flag.

use crate::signal::{Direction, Signal};
use vstd::arithmetic::power2::lemma2_to64;
use vstd::prelude::*;

verus! {

/// The selector for the one implemented operation: addition modulo 2^32.
pub const ALU_ADD: u32 = 0b000;

/// What the arithmetic unit produces: under `ALU_ADD`, the 32-bit sum taken
/// modulo 2^32 (deliberate wraparound, no overflow signal); every other
/// selector is an unimplemented operation and forces a 0 result.
pub open spec fn alu_result(alu_control: u32, src1: u32, src2: u32) -> u32 {
    if alu_control == ALU_ADD {
        ((src1 + src2) % 0x1_0000_0000) as u32
    } else {
        0u32
    }
}

/// The derived zero flag: 1 exactly when the result is 0. It is recomputed
/// from the freshly computed result in the same evaluation pass, never a cycle
/// behind.
pub open spec fn zero_flag(result: u32) -> u32 {
    if result == 0 {
        1u32
    } else {
        0u32
    }
}

/// The arithmetic unit block.
pub struct Alu {
    pub alu_control: Signal,
    pub src1: Signal,
    pub src2: Signal,
    pub result: Signal,
    pub zero: Signal,
}

impl Alu {
    /// Every signal well-formed, with the block's declared widths and
    /// directions: in `alu_control:3, src1:32, src2:32`; out `result:32, zero:1`.
    pub open spec fn wf(&self) -> bool {
        &&& self.alu_control.wf() && self.alu_control.width() == 3 && self.alu_control.dir()
            == Direction::Input
        &&& self.src1.wf() && self.src1.width() == 32 && self.src1.dir() == Direction::Input
        &&& self.src2.wf() && self.src2.width() == 32 && self.src2.dir() == Direction::Input
        &&& self.result.wf() && self.result.width() == 32 && self.result.dir() == Direction::Output
        &&& self.zero.wf() && self.zero.width() == 1 && self.zero.dir() == Direction::Output
    }

    /// One evaluation pass: read the current inputs, stage the pending
    /// outputs. Inputs are untouched and nothing staged becomes visible before
    /// the next [`Alu::commit`].
    pub fn update(&mut self)
        requires
            old(self).wf(),
        ensures
            final(self).wf(),
            final(self).alu_control == old(self).alu_control,
            final(self).src1 == old(self).src1,
            final(self).src2 == old(self).src2,
            final(self).result.cur() == old(self).result.cur(),
            final(self).zero.cur() == old(self).zero.cur(),
            final(self).result.pend() == alu_result(
                old(self).alu_control.cur(),
                old(self).src1.cur(),
                old(self).src2.cur(),
            ),
            final(self).zero.pend() == zero_flag(
                alu_result(old(self).alu_control.cur(), old(self).src1.cur(), old(self).src2.cur()),
            ),
    {
        proof {
            lemma2_to64();
        }
        let r: u32 = if self.alu_control.val() == ALU_ADD {
            let sum: u64 = self.src1.val() as u64 + self.src2.val() as u64;
            (sum % 0x1_0000_0000) as u32
        } else {
            0
        };
        self.result.stage(r);
        let z: u32 = if r == 0 {
            1
        } else {
            0
        };
        self.zero.stage(z);
    }

    /// The clock edge: every pending value becomes current, atomically across
    /// the whole block.
    pub fn commit(&mut self)
        requires
            old(self).wf(),
        ensures
            final(self).wf(),
            final(self).alu_control.cur() == old(self).alu_control.pend(),
            final(self).alu_control.pend() == old(self).alu_control.pend(),
            final(self).src1.cur() == old(self).src1.pend(),
            final(self).src1.pend() == old(self).src1.pend(),
            final(self).src2.cur() == old(self).src2.pend(),
            final(self).src2.pend() == old(self).src2.pend(),
            final(self).result.cur() == old(self).result.pend(),
            final(self).result.pend() == old(self).result.pend(),
            final(self).zero.cur() == old(self).zero.pend(),
            final(self).zero.pend() == old(self).zero.pend(),
    {
        self.alu_control.commit();
        self.src1.commit();
        self.src2.commit();
        self.result.commit();
        self.zero.commit();
    }
}

impl Default for Alu {
    /// A fresh block: every signal zero in both states.
    fn default() -> (a: Alu)
        ensures
            a.wf(),
            a.alu_control.cur() == 0 && a.alu_control.pend() == 0,
            a.src1.cur() == 0 && a.src1.pend() == 0,
            a.src2.cur() == 0 && a.src2.pend() == 0,
            a.result.cur() == 0 && a.result.pend() == 0,
            a.zero.cur() == 0 && a.zero.pend() == 0,
    {
        Alu {
            alu_control: Signal::new(Direction::Input, 3),
            src1: Signal::new(Direction::Input, 32),
            src2: Signal::new(Direction::Input, 32),
            result: Signal::new(Direction::Output, 32),
            zero: Signal::new(Direction::Output, 1),
        }
    }
}

} // verus!
