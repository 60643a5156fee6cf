//! The register context: the in-memory snapshot of one trap occurrence.

use crate::machine::Machine;
use vstd::prelude::*;

verus! {

/// The saved register snapshot for one trap occurrence. One instance lives
/// on the trap stack for the duration of one trap's handling; the
/// dispatcher fills the fields it is about to clobber, the handler reads
/// and rewrites the snapshot, and the chosen restore level decides which
/// fields flow back into the machine registers.
#[derive(Clone, Copy)]
pub struct FlowContext {
    /// Saved return/link register.
    pub ra: usize,
    /// Saved caller-saved temporaries; always saved and restored on the
    /// fast path.
    pub t: [usize; 7],
    /// Saved argument registers; restored at the argument restore level and
    /// above.
    pub a: [usize; 8],
    /// Saved callee-saved registers; restored only on a full restore.
    pub s: [usize; 12],
    /// Saved global pointer; written back only by `load_others`.
    pub gp: usize,
    /// Saved thread pointer; written back only by `load_others`.
    pub tp: usize,
    /// Stack pointer at trap time.
    pub sp: usize,
    /// Program counter to resume at.
    pub pc: usize,
}

/// Holds when every field of the context is zero.
pub open spec fn is_zeroed(c: FlowContext) -> bool {
    &&& c.ra == 0
    &&& forall|i: int| 0 <= i < 7 ==> c.t@[i] == 0
    &&& forall|i: int| 0 <= i < 8 ==> c.a@[i] == 0
    &&& forall|i: int| 0 <= i < 12 ==> c.s@[i] == 0
    &&& c.gp == 0
    &&& c.tp == 0
    &&& c.sp == 0
    &&& c.pc == 0
}

impl FlowContext {
    /// A fully zeroed context, for initialization before first use.
    pub fn zeroed() -> (c: FlowContext)
        ensures
            is_zeroed(c),
    {
        FlowContext {
            ra: 0,
            t: [0; 7],
            a: [0; 8],
            s: [0; 12],
            gp: 0,
            tp: 0,
            sp: 0,
            pc: 0,
        }
    }

    /// Write back the registers outside the graduated restore protocol, as
    /// part of resuming from a trap: the saved global and thread pointers go
    /// directly into the machine registers, the saved stack pointer into the
    /// scratch control register, and the saved program counter into the
    /// exception-return-address register.
    pub fn load_others(&self, m: &mut Machine)
        ensures
            *final(m) == (Machine {
                gp: self.gp,
                tp: self.tp,
                scratch: self.sp,
                era: self.pc,
                ..*old(m)
            }),
    {
        m.gp = self.gp;
        m.tp = self.tp;
        m.scratch = self.sp;
        m.era = self.pc;
    }
}

} // verus!
