//! The controller: a pure combinational decoder mapping an instruction opcode
//! (and, in the general case, function fields and the ALU zero flag) to the
//! control signals consumed by the other blocks.

use crate::alu::ALU_ADD;
use crate::signal::{Direction, Signal};
use vstd::arithmetic::power2::lemma2_to64;
use vstd::prelude::*;

verus! {

/// The load-word opcode, the one instruction class the decode table handles.
pub const LOAD_OPCODE: u32 = 0b0000011;

/// The selector the second decode stage maps to a forced-zero ALU result: the
/// arm for instruction classes that are not decoded yet.
pub const ALU_UNIMPLEMENTED: u32 = 0b111;

/// Whether the opcode writes the register file: 1 for load-word, 0 for every
/// other opcode.
pub open spec fn reg_write_of(op: u32) -> u32 {
    if op == LOAD_OPCODE {
        1u32
    } else {
        0u32
    }
}

/// The immediate layout selector. Only layout 0 is decoded; other layouts are
/// extension points for store, branch and jump immediates.
pub open spec fn imm_source_of(op: u32) -> u32 {
    0u32
}

/// Whether the opcode writes data memory. No decoded instruction class does
/// yet; store instructions are an extension point.
pub open spec fn mem_write_of(op: u32) -> u32 {
    0u32
}

/// The internal operation class handed to the second decode stage. Every
/// decoded opcode maps to class 0; other classes (arithmetic-type, store,
/// branch) are extension points.
pub open spec fn control_op_of(op: u32) -> u32 {
    0u32
}

/// The second decode stage: class 0 selects the ALU's add operation, any other
/// class the forced-zero placeholder.
pub open spec fn alu_control_of(control_op: u32) -> u32 {
    if control_op == 0b00 {
        ALU_ADD
    } else {
        ALU_UNIMPLEMENTED
    }
}

/// The controller block.
pub struct Control {
    pub op: Signal,
    pub func3: Signal,
    pub func7: Signal,
    pub alu_zero: Signal,
    pub alu_control: Signal,
    pub imm_source: Signal,
    pub mem_write: Signal,
    pub reg_write: Signal,
    /// Internal 2-bit state: the operation class between the two decode stages.
    pub control_op: Signal,
}

impl Control {
    /// Every signal well-formed, with the block's declared widths and
    /// directions: in `op:7, func3:3, func7:7, alu_zero:1`; out
    /// `alu_control:3, imm_source:2, mem_write:1, reg_write:1`.
    /// `func3`, `func7` and `alu_zero` are accepted but not consumed by any
    /// decision yet.
    pub open spec fn wf(&self) -> bool {
        &&& self.op.wf() && self.op.width() == 7 && self.op.dir() == Direction::Input
        &&& self.func3.wf() && self.func3.width() == 3 && self.func3.dir() == Direction::Input
        &&& self.func7.wf() && self.func7.width() == 7 && self.func7.dir() == Direction::Input
        &&& self.alu_zero.wf() && self.alu_zero.width() == 1 && self.alu_zero.dir()
            == Direction::Input
        &&& self.alu_control.wf() && self.alu_control.width() == 3 && self.alu_control.dir()
            == Direction::Output
        &&& self.imm_source.wf() && self.imm_source.width() == 2 && self.imm_source.dir()
            == Direction::Output
        &&& self.mem_write.wf() && self.mem_write.width() == 1 && self.mem_write.dir()
            == Direction::Output
        &&& self.reg_write.wf() && self.reg_write.width() == 1 && self.reg_write.dir()
            == Direction::Output
        &&& self.control_op.wf() && self.control_op.width() == 2 && self.control_op.dir()
            == Direction::Local
    }

    /// One evaluation pass: decode the current opcode and stage every control
    /// signal. The second stage reads the freshly decoded operation class in
    /// the same pass, never a cycle behind.
    pub fn update(&mut self)
        requires
            old(self).wf(),
        ensures
            final(self).wf(),
            final(self).op == old(self).op,
            final(self).func3 == old(self).func3,
            final(self).func7 == old(self).func7,
            final(self).alu_zero == old(self).alu_zero,
            final(self).alu_control.cur() == old(self).alu_control.cur(),
            final(self).imm_source.cur() == old(self).imm_source.cur(),
            final(self).mem_write.cur() == old(self).mem_write.cur(),
            final(self).reg_write.cur() == old(self).reg_write.cur(),
            final(self).control_op.cur() == old(self).control_op.cur(),
            final(self).reg_write.pend() == reg_write_of(old(self).op.cur()),
            final(self).imm_source.pend() == imm_source_of(old(self).op.cur()),
            final(self).mem_write.pend() == mem_write_of(old(self).op.cur()),
            final(self).control_op.pend() == control_op_of(old(self).op.cur()),
            final(self).alu_control.pend() == alu_control_of(control_op_of(old(self).op.cur())),
    {
        proof {
            lemma2_to64();
        }
        // first stage: the opcode decode table
        let class: u32;
        if self.op.val() == LOAD_OPCODE {
            self.reg_write.stage(1);
            self.imm_source.stage(0b00);
            self.mem_write.stage(0);
            class = 0b00;
        } else {
            self.reg_write.stage(0);
            self.imm_source.stage(0b00);
            self.mem_write.stage(0);
            class = 0b00;
        }
        self.control_op.stage(class);
        // second stage: the operation class picks the ALU operation
        if class == 0b00 {
            self.alu_control.stage(ALU_ADD);
        } else {
            self.alu_control.stage(ALU_UNIMPLEMENTED);
        }
    }

    /// The clock edge: every pending value becomes current, atomically across
    /// the whole block.
    pub fn commit(&mut self)
        requires
            old(self).wf(),
        ensures
            final(self).wf(),
            final(self).op.cur() == old(self).op.pend(),
            final(self).op.pend() == old(self).op.pend(),
            final(self).func3.cur() == old(self).func3.pend(),
            final(self).func3.pend() == old(self).func3.pend(),
            final(self).func7.cur() == old(self).func7.pend(),
            final(self).func7.pend() == old(self).func7.pend(),
            final(self).alu_zero.cur() == old(self).alu_zero.pend(),
            final(self).alu_zero.pend() == old(self).alu_zero.pend(),
            final(self).alu_control.cur() == old(self).alu_control.pend(),
            final(self).alu_control.pend() == old(self).alu_control.pend(),
            final(self).imm_source.cur() == old(self).imm_source.pend(),
            final(self).imm_source.pend() == old(self).imm_source.pend(),
            final(self).mem_write.cur() == old(self).mem_write.pend(),
            final(self).mem_write.pend() == old(self).mem_write.pend(),
            final(self).reg_write.cur() == old(self).reg_write.pend(),
            final(self).reg_write.pend() == old(self).reg_write.pend(),
            final(self).control_op.cur() == old(self).control_op.pend(),
            final(self).control_op.pend() == old(self).control_op.pend(),
    {
        self.op.commit();
        self.func3.commit();
        self.func7.commit();
        self.alu_zero.commit();
        self.alu_control.commit();
        self.imm_source.commit();
        self.mem_write.commit();
        self.reg_write.commit();
        self.control_op.commit();
    }
}

impl Default for Control {
    /// A fresh block: every signal zero in both states.
    fn default() -> (c: Control)
        ensures
            c.wf(),
            c.op.cur() == 0 && c.op.pend() == 0,
            c.func3.cur() == 0 && c.func3.pend() == 0,
            c.func7.cur() == 0 && c.func7.pend() == 0,
            c.alu_zero.cur() == 0 && c.alu_zero.pend() == 0,
            c.alu_control.cur() == 0 && c.alu_control.pend() == 0,
            c.imm_source.cur() == 0 && c.imm_source.pend() == 0,
            c.mem_write.cur() == 0 && c.mem_write.pend() == 0,
            c.reg_write.cur() == 0 && c.reg_write.pend() == 0,
            c.control_op.cur() == 0 && c.control_op.pend() == 0,
    {
        Control {
            op: Signal::new(Direction::Input, 7),
            func3: Signal::new(Direction::Input, 3),
            func7: Signal::new(Direction::Input, 7),
            alu_zero: Signal::new(Direction::Input, 1),
            alu_control: Signal::new(Direction::Output, 3),
            imm_source: Signal::new(Direction::Output, 2),
            mem_write: Signal::new(Direction::Output, 1),
            reg_write: Signal::new(Direction::Output, 1),
            control_op: Signal::new(Direction::Local, 2),
        }
    }
}

} // verus!
