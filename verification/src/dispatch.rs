//! The trap entry dispatcher: the control-flow protocol executed once per
//! trap, real or synthesized.
//!
//! The handler functions named by the trap-stack header are external code:
//! all the dispatcher sees of one invocation is the context contents it
//! leaves behind, the state in which it leaves the caller-saved machine
//! registers, and the restore-level code it returns. One invocation is
//! therefore modeled as a [`HandlerStep`] record, and one trap consumes a
//! sequence of them: first the fast handler's step, then one step per
//! re-invocation of the full handler, until a step returns a restore level.

use crate::context::FlowContext;
use crate::machine::Machine;
use crate::machine::exchange_scratch;
use crate::stack::TrapStack;
use vstd::prelude::*;

verus! {

/// The deepest restore-level code: restore the callee-saved registers and
/// everything below. A code above this value is not a restore level at
/// all — it asks the dispatcher to save the callee-saved registers and
/// re-invoke the full handler.
pub const FULL_RESTORE: usize = 3;

/// The observable outcome of one handler invocation: the register context
/// as the handler leaves it, the caller-saved machine registers as the
/// handler (and the call into it) leaves them, and the code it returns.
/// The callee-saved registers, the stack pointer, and the pointer-like
/// registers are preserved across the call by the calling convention, so
/// no field of the step describes them.
#[derive(Clone, Copy)]
pub struct HandlerStep {
    /// The context contents when the handler returns.
    pub ctx_after: FlowContext,
    /// The return/link register as the handler call leaves it.
    pub ra_after: usize,
    /// The caller-saved temporaries as the handler call leaves them.
    pub t_after: [usize; 7],
    /// The argument registers as the handler call leaves them.
    pub a_after: [usize; 8],
    /// The code the handler returns: a restore level up to
    /// [`FULL_RESTORE`], or above it to ask for the full-handler path.
    pub code: usize,
}

/// The handler invocations of one trap, in order: every step but the last
/// asks for the full-handler path, and the last returns a restore level,
/// so the trap runs to completion after exactly these invocations.
pub open spec fn valid_trap_steps(steps: Seq<HandlerStep>) -> bool {
    &&& steps.len() >= 1
    &&& steps.last().code <= FULL_RESTORE
    &&& forall|i: int| 0 <= i < steps.len() - 1 ==> #[trigger] steps[i].code > FULL_RESTORE
}

/// The machine state the dispatcher resumes with, given the state `m` it
/// was entered in, the trap stack `stack` whose base the scratch register
/// stashed, and the handler steps of this trap.
///
/// The final step's restore level selects, group by group, whether a
/// register group is reloaded from the context the handler left or keeps
/// the values the handler call left in the machine: level 1 and above
/// reloads the argument registers, level 2 and above also the link
/// register and the temporaries, and level 3 also the callee-saved
/// registers (which no handler call clobbers, so below level 3 they still
/// hold their trap-time values). The stack pointer is traded back through
/// the scratch register, and the exception-return instruction moves the
/// exception return address into the program counter.
pub open spec fn trap_entry_machine(m: Machine, stack: TrapStack, steps: Seq<HandlerStep>) -> Machine {
    let fin = steps.last();
    Machine {
        ra: if fin.code >= 2 { fin.ctx_after.ra } else { fin.ra_after },
        t: if fin.code >= 2 { fin.ctx_after.t } else { fin.t_after },
        a: if fin.code >= 1 { fin.ctx_after.a } else { fin.a_after },
        s: if fin.code == FULL_RESTORE { fin.ctx_after.s } else { m.s },
        pc: m.era,
        scratch: stack.base,
        ..m
    }
}

/// The trap stack as the dispatcher leaves it: the context holds what the
/// last handler invocation wrote, and the header slots are untouched.
pub open spec fn trap_entry_stack(stack: TrapStack, steps: Seq<HandlerStep>) -> TrapStack {
    TrapStack { ctx: steps.last().ctx_after, ..stack }
}

/// The machine state in which a trap with the given cause enters the
/// dispatcher: the exception return address holds the interrupted program
/// counter and the exception-status register holds the cause.
pub open spec fn trap_raised(m: Machine, cause: usize) -> Machine {
    Machine { era: m.pc, estat: cause, ..m }
}

/// The trap entry dispatcher. Runs once per trap, entered with the
/// interrupted thread's registers live and only the scratch register —
/// which stashes the trap stack's base — safe to touch:
///
/// 1. trade the stack pointer for the stashed trap-stack pointer;
/// 2. save the link register and the temporaries — the registers the
///    dispatcher is about to clobber — into the context;
/// 3. invoke the fast handler on the context; while the returned code asks
///    for more than a full restore, save the callee-saved registers into
///    the context and re-invoke the full handler;
/// 4. restore the register groups the final code prescribes, trade the
///    stack pointer back, and return from the exception.
pub fn trap_entry(m: &mut Machine, stack: &mut TrapStack, steps: &Vec<HandlerStep>)
    requires
        valid_trap_steps(steps@),
        old(m).scratch == old(stack).base,
    ensures
        *final(m) == trap_entry_machine(*old(m), *old(stack), steps@),
        *final(stack) == trap_entry_stack(*old(stack), steps@),
{
    // Entry: swap the active stack pointer with the stashed trap-stack
    // pointer, so there is somewhere to save registers without clobbering
    // any register first.
    let entry_sp = m.sp;
    let trap_sp = exchange_scratch(m, entry_sp);
    m.sp = trap_sp;

    // Minimal save: the dispatcher is about to clobber the link register
    // and the temporaries by calling the handler, so exactly those go into
    // the context first.
    stack.ctx.ra = m.ra;
    stack.ctx.t = m.t;

    // Invoke the fast handler.
    let n: usize = steps.len();
    let mut i: usize = 0;
    let step = steps[0];
    stack.ctx = step.ctx_after;
    m.ra = step.ra_after;
    m.t = step.t_after;
    m.a = step.a_after;
    let mut code = step.code;

    // Full-handler path: a code above FULL_RESTORE means the handler needs
    // the callee-saved registers populated; save them and re-invoke the
    // full handler, then decode its fresh code the same way.
    while code > FULL_RESTORE
        invariant
            valid_trap_steps(steps@),
            n == steps@.len(),
            i < steps@.len(),
            code == steps@[i as int].code,
            stack.ctx == steps@[i as int].ctx_after,
            m.ra == steps@[i as int].ra_after,
            m.t == steps@[i as int].t_after,
            m.a == steps@[i as int].a_after,
            *m == (Machine {
                ra: m.ra,
                t: m.t,
                a: m.a,
                sp: old(stack).base,
                scratch: old(m).sp,
                ..*old(m)
            }),
            *stack == (TrapStack { ctx: stack.ctx, ..*old(stack) }),
        decreases steps@.len() - i,
    {
        stack.ctx.s = m.s;
        proof {
            // A code above FULL_RESTORE cannot be the last step's, so a
            // further step exists.
            assert(i < steps@.len() - 1);
        }
        i = i + 1;
        let step = steps[i];
        stack.ctx = step.ctx_after;
        m.ra = step.ra_after;
        m.t = step.t_after;
        m.a = step.a_after;
        code = step.code;
    }
    // Graduated restore: level 3 reloads the callee-saved registers, level
    // 2 and above the link register and the temporaries, level 1 and above
    // the argument registers; level 0 reloads nothing.
    if code == FULL_RESTORE {
        m.s = stack.ctx.s;
    }
    if code >= 2 {
        m.ra = stack.ctx.ra;
        m.t = stack.ctx.t;
    }
    if code >= 1 {
        m.a = stack.ctx.a;
    }

    // Exit: swap the stack pointers back — the scratch register stashes
    // the trap stack again — and return from the exception, which resumes
    // at the saved exception return address.
    let cur_sp = m.sp;
    let caller_sp = exchange_scratch(m, cur_sp);
    m.sp = caller_sp;
    m.pc = m.era;
}

/// Synthesize a trap without a hardware exception: record the instruction
/// after the synthesis site as the exception return address, put `cause`
/// into the exception-status register, and branch into the dispatcher.
/// From the dispatcher's point of view this is indistinguishable from a
/// genuine trap with that cause, and a plain restore resumes right after
/// the synthesis site.
pub fn soft_trap(m: &mut Machine, stack: &mut TrapStack, cause: usize, steps: &Vec<HandlerStep>)
    requires
        valid_trap_steps(steps@),
        old(m).scratch == old(stack).base,
    ensures
        *final(m) == trap_entry_machine(trap_raised(*old(m), cause), *old(stack), steps@),
        *final(stack) == trap_entry_stack(*old(stack), steps@),
{
    m.era = m.pc;
    m.estat = cause;
    trap_entry(m, stack, steps);
}

/// A genuine hardware exception with the given cause: the hardware records
/// the interrupted program counter and the cause, then transfers control
/// to the installed trap vector — so dispatch is only defined while the
/// dispatcher's entry address is installed there.
pub fn hardware_trap(m: &mut Machine, stack: &mut TrapStack, cause: usize, steps: &Vec<HandlerStep>)
    requires
        valid_trap_steps(steps@),
        old(m).scratch == old(stack).base,
        old(m).eentry == crate::machine::TRAP_ENTRY_VECTOR,
    ensures
        *final(m) == trap_entry_machine(trap_raised(*old(m), cause), *old(stack), steps@),
        *final(stack) == trap_entry_stack(*old(stack), steps@),
{
    m.era = m.pc;
    m.estat = cause;
    trap_entry(m, stack, steps);
}

} // verus!
