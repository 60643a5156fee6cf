//! The trap stack region: the per-hardware-thread block the dispatcher
//! switches to, and the carve-out that reserves it from an active stack.

use crate::context::FlowContext;
use vstd::prelude::*;

verus! {

/// One hardware thread's trap stack region, reduced to what the dispatcher
/// reads through its header: the base address that the scratch register
/// stashes, the register context instance the region holds, and the two
/// handler entry addresses. The header layout contract is positional —
/// slot 0 the context pointer, slot 1 the fast-handler address, slot 2 the
/// full-handler address — and is established by the stack-provisioning
/// collaborator before traps are enabled.
#[derive(Clone, Copy)]
pub struct TrapStack {
    /// The stack-pointer value stashed in the scratch register between
    /// traps; the dispatcher runs on this stack.
    pub base: usize,
    /// The register context the header's first slot points at.
    pub ctx: FlowContext,
    /// The fast-handler entry address held in the header's second slot.
    pub fast_handler: usize,
    /// The full-handler entry address held in the header's third slot.
    pub full_handler: usize,
}

/// Reserve the tail of the stack that is active at `sp` for one trap
/// record of the given layout: step down past the record and round the
/// result down to its alignment. The returned address is the trap stack's
/// base; it is aligned, and the record fits between it and `sp`.
pub fn reuse_stack_for_trap(sp: usize, size: usize, align: usize) -> (base: usize)
    requires
        1 <= align,
        size <= sp,
    ensures
        base == ((sp - size) / (align as int)) * (align as int),
        base % align == 0,
        base <= sp - size,
        sp - size < base + align,
{
    let fitted: usize = sp - size;
    let quot: usize = fitted / align;
    proof {
        assert(quot * align + fitted % align == fitted
            && (quot * align) % (align as int) == 0
            && 0 <= fitted % align < align) by (nonlinear_arith)
            requires
                1 <= align,
                quot == fitted / align,
        ;
    }
    let base: usize = quot * align;
    base
}

} // verus!
