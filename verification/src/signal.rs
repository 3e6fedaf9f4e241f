//! The foundation of every block: a fixed-bit-width value cell with a
//! committed (`current`) and a staged (`pending`) state, plus the spec-level
//! view of a bank of such cells.

use crate::DatapathError;
use vstd::arithmetic::power2::{lemma2_to64, lemma_pow2_pos, lemma_pow2_strictly_increases, pow2};
use vstd::bits::lemma_u64_shl_is_mul;
use vstd::prelude::*;

verus! {

/// Who drives a signal: the block's environment (`Input`), the block's own
/// update logic (`Output`), or internal state private to the block (`Local`).
#[derive(Clone, Copy, PartialEq, Eq, Structural)]
pub enum Direction {
    Input,
    Output,
    Local,
}

/// A fixed-bit-width value cell with two states.
///
/// `current` is the value visible to every reader this cycle; `pending` is the
/// value staged by the block's update logic, invisible until a clock edge
/// ([`Signal::commit`]) makes pending current. The invariant [`Signal::wf`]
/// keeps both states within the declared width.
#[derive(Clone, Copy)]
pub struct Signal {
    width: u32,
    direction: Direction,
    current: u32,
    pending: u32,
}

impl Signal {
    /// Declared bit width, between 1 and 32.
    pub closed spec fn width(&self) -> u32 {
        self.width
    }

    /// Declared direction.
    pub closed spec fn dir(&self) -> Direction {
        self.direction
    }

    /// The committed value, visible to readers this cycle.
    pub closed spec fn cur(&self) -> u32 {
        self.current
    }

    /// The staged value, made visible by the next commit.
    pub closed spec fn pend(&self) -> u32 {
        self.pending
    }

    /// A value fits iff it is below 2^width.
    pub open spec fn fits(&self, v: u32) -> bool {
        (v as nat) < pow2(self.width() as nat)
    }

    /// Well-formed: a legal width, and both states within it.
    pub open spec fn wf(&self) -> bool {
        &&& 1 <= self.width() <= 32
        &&& self.fits(self.cur())
        &&& self.fits(self.pend())
    }

    /// A fresh signal holds 0 in both states.
    pub fn new(direction: Direction, width: u32) -> (s: Signal)
        requires
            1 <= width <= 32,
        ensures
            s.wf(),
            s.width() == width,
            s.dir() == direction,
            s.cur() == 0,
            s.pend() == 0,
    {
        proof {
            lemma_pow2_pos(width as nat);
        }
        Signal { width, direction, current: 0, pending: 0 }
    }

    /// The current value, as combinational logic reads it.
    pub fn val(&self) -> (v: u32)
        ensures
            v == self.cur(),
    {
        self.current
    }

    /// The staged value.
    pub fn staged(&self) -> (v: u32)
        ensures
            v == self.pend(),
    {
        self.pending
    }

    /// Whether `v` fits the declared width.
    fn in_width(&self, v: u32) -> (b: bool)
        requires
            self.wf(),
        ensures
            b == self.fits(v),
    {
        proof {
            lemma2_to64();
            lemma_pow2_strictly_increases(self.width as nat, 64);
            lemma_u64_shl_is_mul(1u64, self.width as u64);
        }
        (v as u64) < (1u64 << (self.width as u64))
    }

    /// Stage `v` for the next clock edge, rejecting a value wider than the
    /// signal: malformed wiring is a caught `WidthOverflow`, never a silent
    /// truncation. The current value is untouched either way.
    pub fn set_next(&mut self, v: u32) -> (r: Result<(), DatapathError>)
        requires
            old(self).wf(),
        ensures
            final(self).wf(),
            final(self).width() == old(self).width(),
            final(self).dir() == old(self).dir(),
            final(self).cur() == old(self).cur(),
            old(self).fits(v) ==> r is Ok && final(self).pend() == v,
            !old(self).fits(v) ==> r == Err::<(), DatapathError>(DatapathError::WidthOverflow)
                && final(self).pend() == old(self).pend(),
    {
        if self.in_width(v) {
            self.pending = v;
            Ok(())
        } else {
            Err(DatapathError::WidthOverflow)
        }
    }

    /// Drive an input from the block's environment: the explicit copy of a
    /// producer's committed output into a consumer's input before a tick's
    /// evaluation, so the value lands in both states at once.
    pub fn drive(&mut self, v: u32) -> (r: Result<(), DatapathError>)
        requires
            old(self).wf(),
            old(self).dir() == Direction::Input,
        ensures
            final(self).wf(),
            final(self).width() == old(self).width(),
            final(self).dir() == old(self).dir(),
            old(self).fits(v) ==> r is Ok && final(self).cur() == v && final(self).pend() == v,
            !old(self).fits(v) ==> r == Err::<(), DatapathError>(DatapathError::WidthOverflow)
                && final(self).cur() == old(self).cur()
                && final(self).pend() == old(self).pend(),
    {
        if self.in_width(v) {
            self.current = v;
            self.pending = v;
            Ok(())
        } else {
            Err(DatapathError::WidthOverflow)
        }
    }

    /// Stage a value the block's own update logic computed; the caller proves
    /// that it fits, so nothing can go wrong at run time.
    pub(crate) fn stage(&mut self, v: u32)
        requires
            old(self).wf(),
            old(self).fits(v),
        ensures
            final(self).wf(),
            final(self).width() == old(self).width(),
            final(self).dir() == old(self).dir(),
            final(self).cur() == old(self).cur(),
            final(self).pend() == v,
    {
        self.pending = v;
    }

    /// The clock edge: pending becomes current.
    pub fn commit(&mut self)
        requires
            old(self).wf(),
        ensures
            final(self).wf(),
            final(self).width() == old(self).width(),
            final(self).dir() == old(self).dir(),
            final(self).cur() == old(self).pend(),
            final(self).pend() == old(self).pend(),
    {
        self.current = self.pending;
    }
}

/// The committed values of a bank of signals.
pub open spec fn currents(sigs: Seq<Signal>) -> Seq<u32> {
    Seq::new(sigs.len(), |i: int| sigs[i].cur())
}

/// The staged values of a bank of signals.
pub open spec fn pendings(sigs: Seq<Signal>) -> Seq<u32> {
    Seq::new(sigs.len(), |i: int| sigs[i].pend())
}

/// A well-formed storage bank: `n` local signals of width `w`.
pub open spec fn storage_bank(sigs: Seq<Signal>, n: nat, w: u32) -> bool {
    &&& sigs.len() == n
    &&& forall|i: int|
        0 <= i < sigs.len() ==> (#[trigger] sigs[i]).wf() && sigs[i].width() == w
            && sigs[i].dir() == Direction::Local
}

} // verus!
