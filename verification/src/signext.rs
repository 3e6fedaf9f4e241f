//! The sign-extension unit: a pure combinational block that carves a 12-bit
//! immediate field out of a 25-bit instruction fragment and widens it to 32
//! bits as a two's-complement value.

use crate::signal::{Direction, Signal};
use vstd::arithmetic::power2::lemma2_to64;
use vstd::prelude::*;

verus! {

/// The 12-bit field gathered from the fragment. Layout 0 takes the upper 12
/// bits of the 25-bit fragment (bits 24..13); the other layouts (store,
/// branch, jump immediates) are unimplemented extension points and yield 0.
pub open spec fn gathered_field(raw: u32, imm_src: u32) -> u32 {
    if imm_src == 0b00 {
        (raw >> 13) & 0xFFF
    } else {
        0u32
    }
}

/// A 12-bit field widened to 32 bits by replicating its sign bit (bit 11)
/// into bits 31..12.
pub open spec fn sign_extend_12(field: u32) -> u32 {
    if field & 0x800 != 0 {
        field | 0xFFFF_F000
    } else {
        field
    }
}

/// The extension reads the field as two's complement: a field below 0x800
/// keeps its value, and any other field comes out as its negative value in
/// 32-bit two's complement, `field - 0x1000` represented as `field + 0xFFFF_F000`.
pub proof fn lemma_sign_extend_is_twos_complement(field: u32)
    requires
        field < 0x1000,
    ensures
        field < 0x800 ==> sign_extend_12(field) == field,
        field >= 0x800 ==> sign_extend_12(field) == field + 0xFFFF_F000,
        field >= 0x800 ==> sign_extend_12(field) == 0x1_0000_0000 - (0x1000 - field),
{
    assert(field < 0x800 ==> field & 0x800 == 0) by (bit_vector);
    assert(0x800 <= field < 0x1000 ==> field & 0x800 != 0 && (field | 0xFFFF_F000) == field
        + 0xFFFF_F000) by (bit_vector);
}

/// The sign-extension block.
pub struct SignExt {
    pub raw: Signal,
    pub imm_src: Signal,
    pub immediate: Signal,
    /// Internal 12-bit state: the field most recently gathered from `raw`.
    pub gathered_imm: Signal,
}

impl SignExt {
    /// Every signal well-formed, with the block's declared widths and
    /// directions: in `raw:25, imm_src:2`; out `immediate:32`; the gathered
    /// field is 12-bit internal state.
    pub open spec fn wf(&self) -> bool {
        &&& self.raw.wf() && self.raw.width() == 25 && self.raw.dir() == Direction::Input
        &&& self.imm_src.wf() && self.imm_src.width() == 2 && self.imm_src.dir() == Direction::Input
        &&& self.immediate.wf() && self.immediate.width() == 32 && self.immediate.dir()
            == Direction::Output
        &&& self.gathered_imm.wf() && self.gathered_imm.width() == 12 && self.gathered_imm.dir()
            == Direction::Local
    }

    /// The staged gathered field, for reasoning about the internal state.
    pub open spec fn gathered_pend(&self) -> u32 {
        self.gathered_imm.pend()
    }

    /// One evaluation pass: gather the field selected by `imm_src` and stage
    /// its sign extension. The extension reads the freshly gathered field in
    /// the same pass, never a cycle behind.
    pub fn update(&mut self)
        requires
            old(self).wf(),
        ensures
            final(self).wf(),
            final(self).raw == old(self).raw,
            final(self).imm_src == old(self).imm_src,
            final(self).immediate.cur() == old(self).immediate.cur(),
            final(self).gathered_pend() == gathered_field(
                old(self).raw.cur(),
                old(self).imm_src.cur(),
            ),
            final(self).immediate.pend() == sign_extend_12(
                gathered_field(old(self).raw.cur(), old(self).imm_src.cur()),
            ),
    {
        proof {
            lemma2_to64();
        }
        let field: u32 = if self.imm_src.val() == 0b00 {
            (self.raw.val() >> 13) & 0xFFF
        } else {
            0
        };
        proof {
            let r = old(self).raw.cur();
            assert(((r >> 13) & 0xFFFu32) < 0x1000) by (bit_vector);
        }
        self.gathered_imm.stage(field);
        let extended: u32 = if field & 0x800 != 0 {
            field | 0xFFFF_F000
        } else {
            field
        };
        self.immediate.stage(extended);
    }

    /// The clock edge: every pending value becomes current, atomically across
    /// the whole block.
    pub fn commit(&mut self)
        requires
            old(self).wf(),
        ensures
            final(self).wf(),
            final(self).raw.cur() == old(self).raw.pend(),
            final(self).raw.pend() == old(self).raw.pend(),
            final(self).imm_src.cur() == old(self).imm_src.pend(),
            final(self).imm_src.pend() == old(self).imm_src.pend(),
            final(self).immediate.cur() == old(self).immediate.pend(),
            final(self).immediate.pend() == old(self).immediate.pend(),
            final(self).gathered_imm.cur() == old(self).gathered_imm.pend(),
            final(self).gathered_imm.pend() == old(self).gathered_imm.pend(),
    {
        self.raw.commit();
        self.imm_src.commit();
        self.immediate.commit();
        self.gathered_imm.commit();
    }
}

impl Default for SignExt {
    /// A fresh block: every signal zero in both states.
    fn default() -> (s: SignExt)
        ensures
            s.wf(),
            s.raw.cur() == 0 && s.raw.pend() == 0,
            s.imm_src.cur() == 0 && s.imm_src.pend() == 0,
            s.immediate.cur() == 0 && s.immediate.pend() == 0,
            s.gathered_pend() == 0,
    {
        SignExt {
            raw: Signal::new(Direction::Input, 25),
            imm_src: Signal::new(Direction::Input, 2),
            immediate: Signal::new(Direction::Output, 32),
            gathered_imm: Signal::new(Direction::Local, 12),
        }
    }
}

} // verus!
