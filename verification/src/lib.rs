//! A cycle-accurate model of a minimal single-cycle, RISC-V-style processor
//! datapath: fixed-width two-phase signals and the five logic blocks built on
//! them — an arithmetic unit, an instruction decoder, a register file, a
//! word-addressed data memory, and an immediate sign-extension unit.
//!
//! Every block owns a set of [`signal::Signal`]s. An evaluation pass
//! (`update`) reads only committed signal values and stages pending ones; a
//! clock edge (`commit`) makes every pending value current at once. This
//! two-phase discipline is what keeps one block from observing another's
//! not-yet-committed value within a cycle.

use vstd::prelude::*;

pub mod alu;
pub mod control;
pub mod memory;
pub mod regfile;
pub mod signal;
pub mod signext;

verus! {

/// The explicit failure conditions of the datapath.
///
/// A misaligned memory write is deliberately not here: it is a defined no-op,
/// not an error.
#[derive(Clone, Copy, Debug, PartialEq, Eq, Structural)]
pub enum DatapathError {
    /// A value assigned to a signal exceeds the signal's declared bit width.
    WidthOverflow,
    /// A memory address maps outside the storage array.
    AddressOutOfRange,
}

} // verus!
