//! The laws of the trap layer, stated over the same spec functions that the
//! executable operations' contracts use.

use crate::context::FlowContext;
use crate::dispatch::FULL_RESTORE;
use crate::dispatch::HandlerStep;
use crate::dispatch::trap_entry_machine;
use crate::dispatch::trap_entry_stack;
use crate::dispatch::trap_raised;
use crate::dispatch::valid_trap_steps;
use crate::machine::Machine;
use crate::machine::TRAP_ENTRY_VECTOR;
use crate::machine::scratch_exchanged;
use crate::stack::TrapStack;
use vstd::prelude::*;

verus! {

/// After a round-trip through the dispatcher, every register group the
/// final restore level prescribes holds exactly what the handler wrote
/// into the context, every register group outside that set is left exactly
/// as the handler call left it, and the levels are nested: each level
/// restores a superset of the level below. Registers the protocol never
/// hands to the handler — the pointer-like registers, the stack pointer —
/// are untouched, the scratch register stashes the trap stack again, and
/// execution resumes at the exception return address.
pub proof fn lemma_graduated_restore(m: Machine, stack: TrapStack, steps: Seq<HandlerStep>)
    requires
        valid_trap_steps(steps),
    ensures
        ({
            let fin = steps.last();
            let m2 = trap_entry_machine(m, stack, steps);
            &&& fin.code == 0 ==> m2.ra == fin.ra_after && m2.t == fin.t_after && m2.a
                == fin.a_after && m2.s == m.s
            &&& fin.code == 1 ==> m2.a == fin.ctx_after.a && m2.ra == fin.ra_after && m2.t
                == fin.t_after && m2.s == m.s
            &&& fin.code == 2 ==> m2.a == fin.ctx_after.a && m2.ra == fin.ctx_after.ra && m2.t
                == fin.ctx_after.t && m2.s == m.s
            &&& fin.code == 3 ==> m2.a == fin.ctx_after.a && m2.ra == fin.ctx_after.ra && m2.t
                == fin.ctx_after.t && m2.s == fin.ctx_after.s
            &&& m2.gp == m.gp
            &&& m2.tp == m.tp
            &&& m2.sp == m.sp
            &&& m2.pc == m.era
            &&& m2.scratch == stack.base
            &&& m2.era == m.era
            &&& m2.estat == m.estat
            &&& m2.eentry == m.eentry
        }),
{
}

/// Two successive scratch exchanges, writing `x` then `y`, return first
/// the value stashed before the first call and then `x` itself, and leave
/// everything but the scratch register untouched: the exchange is a
/// faithful swap with no loss.
pub proof fn lemma_exchange_scratch_swap(m: Machine, x: usize, y: usize)
    ensures
        scratch_exchanged(m, x).scratch == x,
        scratch_exchanged(scratch_exchanged(m, x), y) == (Machine { scratch: y, ..m }),
{
}

/// A synthesized trap is dispatched with exactly the requested cause in
/// the exception-status register, and — the handler answering with a plain
/// level-0 return — execution resumes at the instruction following the
/// synthesis site, just as a genuine trap resumes at its successor.
pub proof fn lemma_soft_trap_round_trip(
    m: Machine,
    stack: TrapStack,
    cause: usize,
    steps: Seq<HandlerStep>,
)
    requires
        valid_trap_steps(steps),
        m.eentry == TRAP_ENTRY_VECTOR,
        steps.last().code == 0,
    ensures
        trap_raised(m, cause).estat == cause,
        trap_entry_machine(trap_raised(m, cause), stack, steps).estat == cause,
        trap_entry_machine(trap_raised(m, cause), stack, steps).pc == m.pc,
{
}

/// Saving then immediately restoring at the full level, with no
/// intervening handler mutation, is the identity on the whole register
/// file. The fast handler's step asks for the full path and leaves both
/// the context (as the minimal save wrote it) and the caller-saved
/// machine registers as it found them; the full handler's step returns a
/// full restore and leaves the context exactly as the callee-saved save
/// wrote it. The argument registers are the one group the dispatcher
/// never saves itself, so the round trip covers them only where the
/// context already staged their trap-time values.
pub proof fn lemma_full_restore_round_trip(
    m: Machine,
    stack: TrapStack,
    ask: HandlerStep,
    fin: HandlerStep,
)
    requires
        m.scratch == stack.base,
        stack.ctx.a == m.a,
        ask.code > FULL_RESTORE,
        ask.ctx_after == (FlowContext { ra: m.ra, t: m.t, ..stack.ctx }),
        ask.ra_after == m.ra,
        ask.t_after == m.t,
        ask.a_after == m.a,
        fin.code == FULL_RESTORE,
        fin.ctx_after == (FlowContext { s: m.s, ..ask.ctx_after }),
        fin.ra_after == m.ra,
        fin.t_after == m.t,
        fin.a_after == m.a,
    ensures
        valid_trap_steps(seq![ask, fin]),
        trap_entry_machine(m, stack, seq![ask, fin]) == (Machine { pc: m.era, ..m }),
{
    let steps = seq![ask, fin];
    assert(steps.last() == fin);
    assert(trap_entry_machine(m, stack, steps) =~= (Machine { pc: m.era, ..m }));
}

/// Back-to-back traps on one hardware thread never observe a stale
/// stashed stack pointer: each trap hands its own stack pointer back to
/// the interrupted code and leaves the trap stack's base stashed in the
/// scratch register, which is exactly the state the next trap's entry
/// exchange relies on.
pub proof fn lemma_no_stale_stack_pointer(
    m: Machine,
    stack: TrapStack,
    steps1: Seq<HandlerStep>,
    steps2: Seq<HandlerStep>,
)
    requires
        valid_trap_steps(steps1),
        valid_trap_steps(steps2),
        m.scratch == stack.base,
    ensures
        ({
            let m1 = trap_entry_machine(m, stack, steps1);
            let stack1 = trap_entry_stack(stack, steps1);
            let m2 = trap_entry_machine(m1, stack1, steps2);
            &&& m1.sp == m.sp
            &&& m1.scratch == stack.base
            &&& stack1.base == stack.base
            &&& m2.sp == m.sp
            &&& m2.scratch == stack.base
        }),
{
}

} // verus!
