//! The register file: 32 words of 32 bits with synchronous write, synchronous
//! reset, combinational dual read, and register 0 hardwired to read as zero.

use crate::signal::{currents, pendings, storage_bank, Direction, Signal};
use vstd::arithmetic::power2::lemma2_to64;
use vstd::pervasive::VecAdditionalExecFns;
use vstd::prelude::*;

verus! {

/// The storage size: 32 registers, fixed by the architecture.
pub const REG_COUNT: usize = 32;

/// What one clock edge does to the committed storage. Reset (active-low
/// `rst_n`) clears every word; otherwise an enabled write to a non-zero index
/// replaces that word; writes to index 0 are refused by construction.
pub open spec fn regfile_step(
    regs: Seq<u32>,
    rst_n: u32,
    write_enable: u32,
    address3: u32,
    write_data: u32,
) -> Seq<u32> {
    if rst_n == 0 {
        Seq::new(regs.len(), |i: int| 0u32)
    } else if write_enable == 1 && address3 != 0 {
        regs.update(address3 as int, write_data)
    } else {
        regs
    }
}

/// What a read port shows of committed storage: word `address`, except that
/// index 0 is unconditionally excluded from producing a nonzero read.
pub open spec fn regfile_read(regs: Seq<u32>, address: u32) -> u32 {
    if address == 0 {
        0u32
    } else {
        regs[address as int]
    }
}

/// Writing `v` to a non-zero register `i` on one cycle makes a read of `i`
/// return `v` from the cycle after the write on (the read ports show the
/// committed, pre-edge storage, so the write is not visible earlier).
pub proof fn lemma_regfile_write_then_read(regs: Seq<u32>, i: u32, v: u32)
    requires
        regs.len() == REG_COUNT,
        0 < i < REG_COUNT,
    ensures
        regfile_read(regfile_step(regs, 1, 1, i, v), i) == v,
{
}

/// Register 0 always reads 0, whatever write was attempted on it and whatever
/// the cycle did.
pub proof fn lemma_regfile_zero_register(
    regs: Seq<u32>,
    rst_n: u32,
    write_enable: u32,
    address3: u32,
    write_data: u32,
)
    ensures
        regfile_read(regfile_step(regs, rst_n, write_enable, address3, write_data), 0) == 0,
{
}

/// After one cycle with reset asserted, every register reads back as 0.
pub proof fn lemma_regfile_reset_clears(
    regs: Seq<u32>,
    write_enable: u32,
    address3: u32,
    write_data: u32,
    a: u32,
)
    requires
        regs.len() == REG_COUNT,
        a < REG_COUNT,
    ensures
        regfile_read(regfile_step(regs, 0, write_enable, address3, write_data), a) == 0,
{
}

/// The register file block.
pub struct Regfile {
    pub rst_n: Signal,
    pub address1: Signal,
    pub address2: Signal,
    pub read_data1: Signal,
    pub read_data2: Signal,
    pub write_enable: Signal,
    pub address3: Signal,
    pub write_data: Signal,
    /// The storage: 32 local 32-bit words, index 0 logically read-only.
    pub registers: Vec<Signal>,
}

impl Regfile {
    /// Every signal well-formed, with the block's declared widths and
    /// directions: in `rst_n:1, address1:5, address2:5, address3:5,
    /// write_data:32, write_enable:1`; out `read_data1:32, read_data2:32`;
    /// storage fixed at 32 words.
    pub open spec fn wf(&self) -> bool {
        &&& self.rst_n.wf() && self.rst_n.width() == 1 && self.rst_n.dir() == Direction::Input
        &&& self.address1.wf() && self.address1.width() == 5 && self.address1.dir()
            == Direction::Input
        &&& self.address2.wf() && self.address2.width() == 5 && self.address2.dir()
            == Direction::Input
        &&& self.address3.wf() && self.address3.width() == 5 && self.address3.dir()
            == Direction::Input
        &&& self.write_data.wf() && self.write_data.width() == 32 && self.write_data.dir()
            == Direction::Input
        &&& self.write_enable.wf() && self.write_enable.width() == 1 && self.write_enable.dir()
            == Direction::Input
        &&& self.read_data1.wf() && self.read_data1.width() == 32 && self.read_data1.dir()
            == Direction::Output
        &&& self.read_data2.wf() && self.read_data2.width() == 32 && self.read_data2.dir()
            == Direction::Output
        &&& storage_bank(self.registers@, REG_COUNT as nat, 32)
    }

    /// One evaluation pass. The synchronous part stages the next storage:
    /// reset clears every word, else an enabled write to a non-zero index
    /// stages the new word ([`regfile_step`] over the staged values). The
    /// combinational read ports stage [`regfile_read`] of the committed,
    /// pre-edge storage, so a write on this cycle is not visible on them
    /// before the next cycle. No committed value changes here.
    pub fn update(&mut self)
        requires
            old(self).wf(),
        ensures
            final(self).wf(),
            final(self).rst_n == old(self).rst_n,
            final(self).address1 == old(self).address1,
            final(self).address2 == old(self).address2,
            final(self).address3 == old(self).address3,
            final(self).write_data == old(self).write_data,
            final(self).write_enable == old(self).write_enable,
            currents(final(self).registers@) == currents(old(self).registers@),
            pendings(final(self).registers@) == regfile_step(
                pendings(old(self).registers@),
                old(self).rst_n.cur(),
                old(self).write_enable.cur(),
                old(self).address3.cur(),
                old(self).write_data.cur(),
            ),
            final(self).read_data1.cur() == old(self).read_data1.cur(),
            final(self).read_data2.cur() == old(self).read_data2.cur(),
            final(self).read_data1.pend() == regfile_read(
                currents(old(self).registers@),
                old(self).address1.cur(),
            ),
            final(self).read_data2.pend() == regfile_read(
                currents(old(self).registers@),
                old(self).address2.cur(),
            ),
    {
        proof {
            lemma2_to64();
        }
        if self.rst_n.val() == 0 {
            let mut i: usize = 0;
            while i < REG_COUNT
                invariant
                    old(self).wf(),
                    i <= REG_COUNT,
                    self.rst_n == old(self).rst_n,
                    self.address1 == old(self).address1,
                    self.address2 == old(self).address2,
                    self.address3 == old(self).address3,
                    self.write_data == old(self).write_data,
                    self.write_enable == old(self).write_enable,
                    self.read_data1 == old(self).read_data1,
                    self.read_data2 == old(self).read_data2,
                    self.registers@.len() == REG_COUNT,
                    forall|j: int|
                        0 <= j < i ==> (#[trigger] self.registers@[j]).wf()
                            && self.registers@[j].width() == 32 && self.registers@[j].dir()
                            == Direction::Local && self.registers@[j].cur() == old(
                            self,
                        ).registers@[j].cur() && self.registers@[j].pend() == 0,
                    forall|j: int|
                        i <= j < REG_COUNT ==> self.registers@[j] == old(self).registers@[j],
                decreases REG_COUNT - i,
            {
                let mut word: Signal = self.registers[i];
                proof {
                    lemma2_to64();
                }
                word.stage(0);
                self.registers.set(i, word);
                i += 1;
            }
        } else if self.write_enable.val() == 1 {
            let index: usize = self.address3.val() as usize;
            if index != 0 {
                let mut word: Signal = self.registers[index];
                word.stage(self.write_data.val());
                self.registers.set(index, word);
            }
        }
        // the combinational read ports, against the committed storage
        let a1: usize = self.address1.val() as usize;
        let a2: usize = self.address2.val() as usize;
        let r1: u32 = if a1 == 0 {
            0
        } else {
            self.registers[a1].val()
        };
        let r2: u32 = if a2 == 0 {
            0
        } else {
            self.registers[a2].val()
        };
        self.read_data1.stage(r1);
        self.read_data2.stage(r2);
        proof {
            assert(currents(self.registers@) =~= currents(old(self).registers@));
            assert(pendings(self.registers@) =~= regfile_step(
                pendings(old(self).registers@),
                old(self).rst_n.cur(),
                old(self).write_enable.cur(),
                old(self).address3.cur(),
                old(self).write_data.cur(),
            ));
        }
    }

    /// The clock edge: every pending value becomes current, atomically across
    /// the whole block, storage included.
    pub fn commit(&mut self)
        requires
            old(self).wf(),
        ensures
            final(self).wf(),
            final(self).rst_n.cur() == old(self).rst_n.pend(),
            final(self).rst_n.pend() == old(self).rst_n.pend(),
            final(self).address1.cur() == old(self).address1.pend(),
            final(self).address1.pend() == old(self).address1.pend(),
            final(self).address2.cur() == old(self).address2.pend(),
            final(self).address2.pend() == old(self).address2.pend(),
            final(self).address3.cur() == old(self).address3.pend(),
            final(self).address3.pend() == old(self).address3.pend(),
            final(self).write_data.cur() == old(self).write_data.pend(),
            final(self).write_data.pend() == old(self).write_data.pend(),
            final(self).write_enable.cur() == old(self).write_enable.pend(),
            final(self).write_enable.pend() == old(self).write_enable.pend(),
            final(self).read_data1.cur() == old(self).read_data1.pend(),
            final(self).read_data1.pend() == old(self).read_data1.pend(),
            final(self).read_data2.cur() == old(self).read_data2.pend(),
            final(self).read_data2.pend() == old(self).read_data2.pend(),
            currents(final(self).registers@) == pendings(old(self).registers@),
            pendings(final(self).registers@) == pendings(old(self).registers@),
    {
        let mut i: usize = 0;
        while i < REG_COUNT
            invariant
                i <= REG_COUNT,
                self.rst_n == old(self).rst_n,
                self.address1 == old(self).address1,
                self.address2 == old(self).address2,
                self.address3 == old(self).address3,
                self.write_data == old(self).write_data,
                self.write_enable == old(self).write_enable,
                self.read_data1 == old(self).read_data1,
                self.read_data2 == old(self).read_data2,
                self.registers@.len() == REG_COUNT,
                forall|j: int|
                    0 <= j < i ==> (#[trigger] self.registers@[j]).wf()
                        && self.registers@[j].width() == 32 && self.registers@[j].dir()
                        == Direction::Local && self.registers@[j].cur() == old(
                        self,
                    ).registers@[j].pend() && self.registers@[j].pend() == old(
                        self,
                    ).registers@[j].pend(),
                forall|j: int| i <= j < REG_COUNT ==> self.registers@[j] == old(self).registers@[j],
                old(self).wf(),
            decreases REG_COUNT - i,
        {
            let mut word: Signal = self.registers[i];
            word.commit();
            self.registers.set(i, word);
            i += 1;
        }
        proof {
            assert(currents(self.registers@) =~= pendings(old(self).registers@));
            assert(pendings(self.registers@) =~= pendings(old(self).registers@));
        }
        self.rst_n.commit();
        self.address1.commit();
        self.address2.commit();
        self.address3.commit();
        self.write_data.commit();
        self.write_enable.commit();
        self.read_data1.commit();
        self.read_data2.commit();
    }
}

impl Default for Regfile {
    /// A fresh block: every signal and every register zero in both states.
    fn default() -> (r: Regfile)
        ensures
            r.wf(),
            r.rst_n.cur() == 0 && r.rst_n.pend() == 0,
            r.address1.cur() == 0 && r.address1.pend() == 0,
            r.address2.cur() == 0 && r.address2.pend() == 0,
            r.address3.cur() == 0 && r.address3.pend() == 0,
            r.write_data.cur() == 0 && r.write_data.pend() == 0,
            r.write_enable.cur() == 0 && r.write_enable.pend() == 0,
            r.read_data1.cur() == 0 && r.read_data1.pend() == 0,
            r.read_data2.cur() == 0 && r.read_data2.pend() == 0,
            forall|j: int|
                0 <= j < REG_COUNT ==> currents(r.registers@)[j] == 0 && pendings(r.registers@)[j]
                    == 0,
    {
        let mut registers: Vec<Signal> = Vec::new();
        let mut i: usize = 0;
        while i < REG_COUNT
            invariant
                i <= REG_COUNT,
                registers@.len() == i,
                forall|j: int|
                    0 <= j < i ==> (#[trigger] registers@[j]).wf() && registers@[j].width() == 32
                        && registers@[j].dir() == Direction::Local && registers@[j].cur() == 0
                        && registers@[j].pend() == 0,
            decreases REG_COUNT - i,
        {
            registers.push(Signal::new(Direction::Local, 32));
            i += 1;
        }
        Regfile {
            rst_n: Signal::new(Direction::Input, 1),
            address1: Signal::new(Direction::Input, 5),
            address2: Signal::new(Direction::Input, 5),
            address3: Signal::new(Direction::Input, 5),
            write_data: Signal::new(Direction::Input, 32),
            write_enable: Signal::new(Direction::Input, 1),
            read_data1: Signal::new(Direction::Output, 32),
            read_data2: Signal::new(Direction::Output, 32),
            registers,
        }
    }
}

} // verus!
