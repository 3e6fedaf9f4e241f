//! The data memory: a word-addressed array of 32-bit words with synchronous,
//! alignment-guarded write, synchronous reset, and combinational read.

use crate::signal::{currents, pendings, storage_bank, Direction, Signal};
use crate::DatapathError;
use vstd::arithmetic::power2::lemma2_to64;
use vstd::pervasive::VecAdditionalExecFns;
use vstd::prelude::*;

verus! {

/// The storage size of this build: 64 words.
pub const MEM_WORDS: usize = 64;

/// The storage word a byte address maps to.
pub open spec fn word_index(address: u32) -> nat {
    (address / 4) as nat
}

/// Word-aligned: the low two bits of the byte address are zero. Only such
/// addresses are writable; reads ignore the low bits.
pub open spec fn aligned(address: u32) -> bool {
    address % 4 == 0
}

/// What one clock edge does to the committed storage. Reset (active-low
/// `rst_n`) clears every word; otherwise an enabled write to a word-aligned
/// address replaces that word; an enabled write to a misaligned address is
/// silently ignored by design, not an error.
pub open spec fn memory_step(
    mem: Seq<u32>,
    rst_n: u32,
    write_enable: u32,
    address: u32,
    write_data: u32,
) -> Seq<u32> {
    if rst_n == 0 {
        Seq::new(mem.len(), |i: int| 0u32)
    } else if write_enable == 1 && aligned(address) {
        mem.update(word_index(address) as int, write_data)
    } else {
        mem
    }
}

/// What the read port shows of committed storage: the word the address maps
/// to, whatever its low two bits.
pub open spec fn memory_read(mem: Seq<u32>, address: u32) -> u32 {
    mem[word_index(address) as int]
}

/// Writing `v` to an in-range aligned address on one cycle makes a read of
/// that address return `v` from the cycle after the write on (the read port
/// shows the committed, pre-edge storage, so the write is not visible
/// earlier).
pub proof fn lemma_memory_write_then_read(mem: Seq<u32>, address: u32, v: u32)
    requires
        mem.len() == MEM_WORDS,
        aligned(address),
        word_index(address) < MEM_WORDS,
    ensures
        memory_read(memory_step(mem, 1, 1, address, v), address) == v,
{
}

/// An enabled write to a misaligned address leaves every word of storage
/// unchanged.
pub proof fn lemma_memory_misaligned_write_ignored(mem: Seq<u32>, address: u32, v: u32)
    requires
        !aligned(address),
    ensures
        memory_step(mem, 1, 1, address, v) == mem,
{
}

/// After one cycle with reset asserted, every in-range word reads back as 0.
pub proof fn lemma_memory_reset_clears(
    mem: Seq<u32>,
    write_enable: u32,
    address: u32,
    write_data: u32,
    a: u32,
)
    requires
        mem.len() == MEM_WORDS,
        word_index(a) < MEM_WORDS,
    ensures
        memory_read(memory_step(mem, 0, write_enable, address, write_data), a) == 0,
{
}

/// The data memory block.
pub struct Memory {
    pub rst_n: Signal,
    pub address: Signal,
    pub write_data: Signal,
    pub write_enable: Signal,
    pub read_data: Signal,
    /// The storage: `MEM_WORDS` local 32-bit words.
    pub mem: Vec<Signal>,
}

impl Memory {
    /// Every signal well-formed, with the block's declared widths and
    /// directions: in `rst_n:1, address:32, write_data:32, write_enable:1`;
    /// out `read_data:32`; storage fixed at `MEM_WORDS` words.
    pub open spec fn wf(&self) -> bool {
        &&& self.rst_n.wf() && self.rst_n.width() == 1 && self.rst_n.dir() == Direction::Input
        &&& self.address.wf() && self.address.width() == 32 && self.address.dir()
            == Direction::Input
        &&& self.write_data.wf() && self.write_data.width() == 32 && self.write_data.dir()
            == Direction::Input
        &&& self.write_enable.wf() && self.write_enable.width() == 1 && self.write_enable.dir()
            == Direction::Input
        &&& self.read_data.wf() && self.read_data.width() == 32 && self.read_data.dir()
            == Direction::Output
        &&& storage_bank(self.mem@, MEM_WORDS as nat, 32)
    }

    /// One evaluation pass. An address that maps outside storage is an
    /// explicit `AddressOutOfRange` failure, checked before anything else:
    /// the block then stages nothing and no signal changes. Otherwise the
    /// synchronous part stages the next storage ([`memory_step`] over the
    /// staged values) and the combinational read port stages [`memory_read`]
    /// of the committed, pre-edge storage, so a write on this cycle is not
    /// visible on it before the next cycle. No committed value changes here.
    pub fn update(&mut self) -> (r: Result<(), DatapathError>)
        requires
            old(self).wf(),
        ensures
            final(self).wf(),
            r is Ok <==> word_index(old(self).address.cur()) < MEM_WORDS,
            r is Err ==> r == Err::<(), DatapathError>(DatapathError::AddressOutOfRange)
                && *final(self) == *old(self),
            final(self).rst_n == old(self).rst_n,
            final(self).address == old(self).address,
            final(self).write_data == old(self).write_data,
            final(self).write_enable == old(self).write_enable,
            currents(final(self).mem@) == currents(old(self).mem@),
            final(self).read_data.cur() == old(self).read_data.cur(),
            r is Ok ==> pendings(final(self).mem@) == memory_step(
                pendings(old(self).mem@),
                old(self).rst_n.cur(),
                old(self).write_enable.cur(),
                old(self).address.cur(),
                old(self).write_data.cur(),
            ),
            r is Ok ==> final(self).read_data.pend() == memory_read(
                currents(old(self).mem@),
                old(self).address.cur(),
            ),
    {
        proof {
            lemma2_to64();
        }
        let address: u32 = self.address.val();
        let index: usize = (address >> 2) as usize;
        proof {
            assert(address >> 2 == address / 4) by (bit_vector);
        }
        if index >= MEM_WORDS {
            return Err(DatapathError::AddressOutOfRange);
        }
        if self.rst_n.val() == 0 {
            let mut i: usize = 0;
            while i < MEM_WORDS
                invariant
                    old(self).wf(),
                    i <= MEM_WORDS,
                    self.rst_n == old(self).rst_n,
                    self.address == old(self).address,
                    self.write_data == old(self).write_data,
                    self.write_enable == old(self).write_enable,
                    self.read_data == old(self).read_data,
                    self.mem@.len() == MEM_WORDS,
                    forall|j: int|
                        0 <= j < i ==> (#[trigger] self.mem@[j]).wf() && self.mem@[j].width() == 32
                            && self.mem@[j].dir() == Direction::Local && self.mem@[j].cur() == old(
                            self,
                        ).mem@[j].cur() && self.mem@[j].pend() == 0,
                    forall|j: int| i <= j < MEM_WORDS ==> self.mem@[j] == old(self).mem@[j],
                decreases MEM_WORDS - i,
            {
                let mut word: Signal = self.mem[i];
                proof {
                    lemma2_to64();
                }
                word.stage(0);
                self.mem.set(i, word);
                i += 1;
            }
        } else if self.write_enable.val() == 1 {
            if address & 0b11 == 0 {
                proof {
                    assert(address & 0b11 == 0 ==> address % 4 == 0) by (bit_vector);
                }
                let mut word: Signal = self.mem[index];
                word.stage(self.write_data.val());
                self.mem.set(index, word);
            } else {
                proof {
                    assert(address & 0b11 != 0 ==> address % 4 != 0) by (bit_vector);
                }
            }
        }
        // the combinational read port, against the committed storage
        let data: u32 = self.mem[index].val();
        self.read_data.stage(data);
        proof {
            assert(currents(self.mem@) =~= currents(old(self).mem@));
            assert(pendings(self.mem@) =~= memory_step(
                pendings(old(self).mem@),
                old(self).rst_n.cur(),
                old(self).write_enable.cur(),
                old(self).address.cur(),
                old(self).write_data.cur(),
            ));
        }
        Ok(())
    }

    /// The clock edge: every pending value becomes current, atomically across
    /// the whole block, storage included.
    pub fn commit(&mut self)
        requires
            old(self).wf(),
        ensures
            final(self).wf(),
            final(self).rst_n.cur() == old(self).rst_n.pend(),
            final(self).rst_n.pend() == old(self).rst_n.pend(),
            final(self).address.cur() == old(self).address.pend(),
            final(self).address.pend() == old(self).address.pend(),
            final(self).write_data.cur() == old(self).write_data.pend(),
            final(self).write_data.pend() == old(self).write_data.pend(),
            final(self).write_enable.cur() == old(self).write_enable.pend(),
            final(self).write_enable.pend() == old(self).write_enable.pend(),
            final(self).read_data.cur() == old(self).read_data.pend(),
            final(self).read_data.pend() == old(self).read_data.pend(),
            currents(final(self).mem@) == pendings(old(self).mem@),
            pendings(final(self).mem@) == pendings(old(self).mem@),
    {
        let mut i: usize = 0;
        while i < MEM_WORDS
            invariant
                old(self).wf(),
                i <= MEM_WORDS,
                self.rst_n == old(self).rst_n,
                self.address == old(self).address,
                self.write_data == old(self).write_data,
                self.write_enable == old(self).write_enable,
                self.read_data == old(self).read_data,
                self.mem@.len() == MEM_WORDS,
                forall|j: int|
                    0 <= j < i ==> (#[trigger] self.mem@[j]).wf() && self.mem@[j].width() == 32
                        && self.mem@[j].dir() == Direction::Local && self.mem@[j].cur() == old(
                        self,
                    ).mem@[j].pend() && self.mem@[j].pend() == old(self).mem@[j].pend(),
                forall|j: int| i <= j < MEM_WORDS ==> self.mem@[j] == old(self).mem@[j],
            decreases MEM_WORDS - i,
        {
            let mut word: Signal = self.mem[i];
            word.commit();
            self.mem.set(i, word);
            i += 1;
        }
        proof {
            assert(currents(self.mem@) =~= pendings(old(self).mem@));
            assert(pendings(self.mem@) =~= pendings(old(self).mem@));
        }
        self.rst_n.commit();
        self.address.commit();
        self.write_data.commit();
        self.write_enable.commit();
        self.read_data.commit();
    }
}

impl Default for Memory {
    /// A fresh block: every signal and every word of storage zero in both
    /// states.
    fn default() -> (m: Memory)
        ensures
            m.wf(),
            m.rst_n.cur() == 0 && m.rst_n.pend() == 0,
            m.address.cur() == 0 && m.address.pend() == 0,
            m.write_data.cur() == 0 && m.write_data.pend() == 0,
            m.write_enable.cur() == 0 && m.write_enable.pend() == 0,
            m.read_data.cur() == 0 && m.read_data.pend() == 0,
            forall|j: int|
                0 <= j < MEM_WORDS ==> currents(m.mem@)[j] == 0 && pendings(m.mem@)[j] == 0,
    {
        let mut mem: Vec<Signal> = Vec::new();
        let mut i: usize = 0;
        while i < MEM_WORDS
            invariant
                i <= MEM_WORDS,
                mem@.len() == i,
                forall|j: int|
                    0 <= j < i ==> (#[trigger] mem@[j]).wf() && mem@[j].width() == 32
                        && mem@[j].dir() == Direction::Local && mem@[j].cur() == 0
                        && mem@[j].pend() == 0,
            decreases MEM_WORDS - i,
        {
            mem.push(Signal::new(Direction::Local, 32));
            i += 1;
        }
        Memory {
            rst_n: Signal::new(Direction::Input, 1),
            address: Signal::new(Direction::Input, 32),
            write_data: Signal::new(Direction::Input, 32),
            write_enable: Signal::new(Direction::Input, 1),
            read_data: Signal::new(Direction::Output, 32),
            mem,
        }
    }
}

} // verus!
