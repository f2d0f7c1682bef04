//! The ARM7 core, which runs no instructions of its own yet.
use vstd::prelude::*;

verus! {

/// The ARM7 processor state (none is kept yet).
pub struct ARM7 {}

impl ARM7 {
    /// A fresh ARM7.
    pub fn new() -> (r: ARM7) {
        ARM7 {}
    }

    /// Runs one instruction and returns the cycles it took; the ARM7 does
    /// not execute anything yet, so this takes none.
    pub fn emulate_instr(&mut self) -> (cycles: usize)
        ensures
            cycles == 0,
    {
        0
    }
}

} // verus!
