//! The hardware-thread state model and the control/status register
//! primitives of the trap layer.

use vstd::prelude::*;

verus! {

/// The address of the dispatcher's entry label. Installing the trap vector
/// records this value in the exception-entry-base register, where it is kept
/// for inspection; a genuine exception may only be dispatched while it is
/// installed.
pub const TRAP_ENTRY_VECTOR: usize = 0x1c00_0000;

/// The architecturally visible state of one hardware thread: the
/// general-purpose register file, the program counter, and the four
/// control/status registers that trap handling reads or writes.
///
/// Every operation of this crate is a function on this state, so each
/// contract pins down the whole machine: the registers an operation does not
/// name are stated unchanged.
#[derive(Clone, Copy)]
pub struct Machine {
    /// Return/link register.
    pub ra: usize,
    /// Caller-saved temporary registers.
    pub t: [usize; 7],
    /// Argument registers.
    pub a: [usize; 8],
    /// Callee-saved registers.
    pub s: [usize; 12],
    /// Global pointer.
    pub gp: usize,
    /// Thread pointer.
    pub tp: usize,
    /// Stack pointer.
    pub sp: usize,
    /// Program counter of the code this thread is executing.
    pub pc: usize,
    /// Scratch-store control register: stashes the counterpart stack pointer
    /// across the privilege boundary.
    pub scratch: usize,
    /// Exception-return-address control register.
    pub era: usize,
    /// Exception-status/cause control register.
    pub estat: usize,
    /// Exception-entry-base control register: where a trap transfers control.
    pub eentry: usize,
}

/// The machine after `val` is written into the scratch control register:
/// nothing else moves.
pub open spec fn scratch_exchanged(m: Machine, val: usize) -> Machine {
    Machine { scratch: val, ..m }
}

/// Write `val` into the scratch control register and hand back what was
/// there before, as one non-interruptible swap. This is how the dispatcher
/// trades the active stack pointer for the stashed trap-stack pointer
/// without needing a spare general register.
pub fn exchange_scratch(m: &mut Machine, val: usize) -> (prev: usize)
    ensures
        prev == old(m).scratch,
        *final(m) == scratch_exchanged(*old(m), val),
{
    let prev = m.scratch;
    m.scratch = val;
    prev
}

/// Install the dispatcher as this hardware thread's trap vector by writing
/// its entry address into the exception-entry-base register. Idempotent;
/// must run before a genuine exception can be serviced; touches nothing
/// else.
pub fn load_direct_trap_entry(m: &mut Machine)
    ensures
        *final(m) == (Machine { eentry: TRAP_ENTRY_VECTOR, ..*old(m) }),
{
    m.eentry = TRAP_ENTRY_VECTOR;
}

} // verus!
