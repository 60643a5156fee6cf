use fast_trap::context::FlowContext;
use fast_trap::dispatch::HandlerStep;
use fast_trap::dispatch::hardware_trap;
use fast_trap::dispatch::soft_trap;
use fast_trap::dispatch::trap_entry;
use fast_trap::machine::Machine;
use fast_trap::machine::load_direct_trap_entry;
use fast_trap::stack::TrapStack;

const TRAP_SP: usize = 0x8000;

fn pre_trap_machine() -> Machine {
    Machine {
        ra: 11,
        t: [21, 22, 23, 24, 25, 26, 27],
        a: [31, 32, 33, 34, 35, 36, 37, 38],
        s: [41, 42, 43, 44, 45, 46, 47, 48, 49, 50, 51, 52],
        gp: 61,
        tp: 62,
        sp: 0x9000,
        pc: 0x1234,
        scratch: TRAP_SP,
        era: 0,
        estat: 0,
        eentry: 0,
    }
}

fn trap_stack() -> TrapStack {
    TrapStack {
        base: TRAP_SP,
        ctx: FlowContext::zeroed(),
        fast_handler: 0x100,
        full_handler: 0x200,
    }
}

/// A handler invocation that writes `ctx_after` and returns `code`, leaving
/// the caller-saved machine registers as the trapped code had them.
fn gentle_step(m: &Machine, ctx_after: FlowContext, code: usize) -> HandlerStep {
    HandlerStep { ctx_after, ra_after: m.ra, t_after: m.t, a_after: m.a, code }
}

/// A handler invocation that also leaves the caller-saved machine registers
/// clobbered with recognizable garbage.
fn clobbering_step(ctx_after: FlowContext, code: usize) -> HandlerStep {
    HandlerStep {
        ctx_after,
        ra_after: 0xdead,
        t_after: [0xd0, 0xd1, 0xd2, 0xd3, 0xd4, 0xd5, 0xd6],
        a_after: [0xe0, 0xe1, 0xe2, 0xe3, 0xe4, 0xe5, 0xe6, 0xe7],
        code,
    }
}

fn handler_written_context() -> FlowContext {
    FlowContext {
        ra: 111,
        t: [121, 122, 123, 124, 125, 126, 127],
        a: [131, 132, 133, 134, 135, 136, 137, 138],
        s: [141, 142, 143, 144, 145, 146, 147, 148, 149, 150, 151, 152],
        gp: 161,
        tp: 162,
        sp: 0x6000,
        pc: 0x5678,
    }
}

#[test]
fn level_zero_restores_nothing() {
    let mut m = pre_trap_machine();
    let mut stack = trap_stack();
    let steps = vec![clobbering_step(handler_written_context(), 0)];
    trap_entry(&mut m, &mut stack, &steps);
    // Every handler-visible group is exactly as the handler call left it.
    assert_eq!(m.ra, 0xdead);
    assert_eq!(m.t, [0xd0, 0xd1, 0xd2, 0xd3, 0xd4, 0xd5, 0xd6]);
    assert_eq!(m.a, [0xe0, 0xe1, 0xe2, 0xe3, 0xe4, 0xe5, 0xe6, 0xe7]);
    // Callee-saved registers were never touched.
    assert_eq!(m.s, [41, 42, 43, 44, 45, 46, 47, 48, 49, 50, 51, 52]);
    // The stack pointer went back to the interrupted code's stack.
    assert_eq!(m.sp, 0x9000);
    assert_eq!(m.scratch, TRAP_SP);
}

#[test]
fn level_one_restores_arguments_only() {
    let mut m = pre_trap_machine();
    let mut stack = trap_stack();
    let steps = vec![clobbering_step(handler_written_context(), 1)];
    trap_entry(&mut m, &mut stack, &steps);
    assert_eq!(m.a, [131, 132, 133, 134, 135, 136, 137, 138]);
    assert_eq!(m.ra, 0xdead);
    assert_eq!(m.t, [0xd0, 0xd1, 0xd2, 0xd3, 0xd4, 0xd5, 0xd6]);
    assert_eq!(m.s, [41, 42, 43, 44, 45, 46, 47, 48, 49, 50, 51, 52]);
}

#[test]
fn level_two_restores_link_temporaries_and_arguments() {
    let mut m = pre_trap_machine();
    let mut stack = trap_stack();
    let steps = vec![clobbering_step(handler_written_context(), 2)];
    trap_entry(&mut m, &mut stack, &steps);
    assert_eq!(m.ra, 111);
    assert_eq!(m.t, [121, 122, 123, 124, 125, 126, 127]);
    assert_eq!(m.a, [131, 132, 133, 134, 135, 136, 137, 138]);
    assert_eq!(m.s, [41, 42, 43, 44, 45, 46, 47, 48, 49, 50, 51, 52]);
}

#[test]
fn level_three_restores_the_full_set() {
    let mut m = pre_trap_machine();
    let mut stack = trap_stack();
    let steps = vec![clobbering_step(handler_written_context(), 3)];
    trap_entry(&mut m, &mut stack, &steps);
    assert_eq!(m.ra, 111);
    assert_eq!(m.t, [121, 122, 123, 124, 125, 126, 127]);
    assert_eq!(m.a, [131, 132, 133, 134, 135, 136, 137, 138]);
    assert_eq!(m.s, [141, 142, 143, 144, 145, 146, 147, 148, 149, 150, 151, 152]);
    // The pointer-like registers stay outside the graduated protocol.
    assert_eq!(m.gp, 61);
    assert_eq!(m.tp, 62);
    assert_eq!(m.sp, 0x9000);
}

#[test]
fn full_handler_path_reinvokes_until_a_restore_level() {
    let mut m = pre_trap_machine();
    let mut stack = trap_stack();
    let first = handler_written_context();
    let mut second = handler_written_context();
    second.ra = 211;
    second.s = [241, 242, 243, 244, 245, 246, 247, 248, 249, 250, 251, 252];
    let steps = vec![
        clobbering_step(first, 5),
        clobbering_step(first, 4),
        clobbering_step(second, 2),
    ];
    trap_entry(&mut m, &mut stack, &steps);
    // The context holds what the last invocation wrote.
    assert_eq!(stack.ctx.ra, 211);
    // Level 2: link register and temporaries from the last context ...
    assert_eq!(m.ra, 211);
    assert_eq!(m.t, [121, 122, 123, 124, 125, 126, 127]);
    // ... and the machine's callee-saved registers still untouched.
    assert_eq!(m.s, [41, 42, 43, 44, 45, 46, 47, 48, 49, 50, 51, 52]);
    assert_eq!(m.sp, 0x9000);
    assert_eq!(m.scratch, TRAP_SP);
}

#[test]
fn full_restore_round_trip_is_the_identity() {
    let mut m = pre_trap_machine();
    let mut stack = trap_stack();
    stack.ctx.a = m.a;
    // The fast handler asks for the full path without mutating anything;
    // the full handler returns a full restore without mutating anything.
    let mut saved = stack.ctx;
    saved.ra = m.ra;
    saved.t = m.t;
    let ask = gentle_step(&m, saved, 4);
    let mut saved_full = saved;
    saved_full.s = m.s;
    let fin = gentle_step(&m, saved_full, 3);
    let steps = vec![ask, fin];
    trap_entry(&mut m, &mut stack, &steps);
    let fresh = pre_trap_machine();
    assert_eq!(m.ra, fresh.ra);
    assert_eq!(m.t, fresh.t);
    assert_eq!(m.a, fresh.a);
    assert_eq!(m.s, fresh.s);
    assert_eq!(m.gp, fresh.gp);
    assert_eq!(m.tp, fresh.tp);
    assert_eq!(m.sp, fresh.sp);
    assert_eq!(m.scratch, fresh.scratch);
}

#[test]
fn soft_trap_scenario_marker_in_first_argument() {
    // Context initialized to zero; software trap with cause 7; the fast
    // handler writes a marker into the first argument register's slot and
    // returns level 1.
    let mut m = pre_trap_machine();
    let mut stack = trap_stack();
    let mut written = FlowContext::zeroed();
    written.a[0] = 0xbeef;
    let steps = vec![gentle_step(&m, written, 1)];
    soft_trap(&mut m, &mut stack, 7, &steps);
    // The dispatcher observed exactly cause 7.
    assert_eq!(m.estat, 7);
    // Execution resumes right after the synthesis site.
    assert_eq!(m.pc, 0x1234);
    // Resumed execution sees the marker ...
    assert_eq!(m.a[0], 0xbeef);
    assert_eq!(m.a[1], 0);
    // ... and the link register and temporaries as they were before the trap.
    assert_eq!(m.ra, 11);
    assert_eq!(m.t, [21, 22, 23, 24, 25, 26, 27]);
}

#[test]
fn hardware_trap_through_installed_vector() {
    let mut m = pre_trap_machine();
    load_direct_trap_entry(&mut m);
    let mut stack = trap_stack();
    let steps = vec![gentle_step(&m, handler_written_context(), 0)];
    hardware_trap(&mut m, &mut stack, 12, &steps);
    assert_eq!(m.estat, 12);
    assert_eq!(m.pc, 0x1234);
    assert_eq!(m.sp, 0x9000);
}

#[test]
fn back_to_back_traps_see_no_stale_stack_pointer() {
    let mut m = pre_trap_machine();
    let mut stack = trap_stack();
    let steps1 = vec![clobbering_step(handler_written_context(), 2)];
    soft_trap(&mut m, &mut stack, 3, &steps1);
    assert_eq!(m.sp, 0x9000);
    assert_eq!(m.scratch, TRAP_SP);
    // The second trap relies on exactly the state the first one left.
    let mut second_ctx = handler_written_context();
    second_ctx.a[0] = 0x77;
    let steps2 = vec![clobbering_step(second_ctx, 1)];
    soft_trap(&mut m, &mut stack, 9, &steps2);
    assert_eq!(m.sp, 0x9000);
    assert_eq!(m.scratch, TRAP_SP);
    assert_eq!(m.a[0], 0x77);
    assert_eq!(m.estat, 9);
}
