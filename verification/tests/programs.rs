use std::ops::ControlFlow;
use vm_bench::{
    compile_program, computed_goto, dispatch, halts_within, switch_based, switch_dispatch, Exit,
    If, Inst, VmContext,
};

fn sample_program() -> Vec<Inst> {
    vec![
        Inst::Begin,
        Inst::Push(1),
        Inst::If(If { if_true: 3, if_false: 4 }),
        Inst::Push(2),
        Inst::Push(0),
        Inst::Add,
        Inst::Stop,
    ]
}

/// Runs the program by switch dispatch and hands back how it ended, the
/// final stack and the final instruction pointer.
fn run_switch(program: &[Inst]) -> (ControlFlow<Exit>, Vec<u32>, usize) {
    assert!(halts_within(program, 100_000));
    let mut context = VmContext::default();
    let flow = switch_dispatch(program, &mut context);
    (flow, context.stack().to_vec(), context.ip())
}

/// The same by threaded dispatch over the compiled program.
fn run_threaded(program: &[Inst]) -> (ControlFlow<Exit>, Vec<u32>, usize) {
    assert!(halts_within(program, 100_000));
    let code = compile_program(program);
    let mut context = VmContext::new(&code);
    let flow = dispatch(&mut context);
    (flow, context.stack().to_vec(), context.ip())
}

#[test]
fn sample_program_switch_based() {
    let program = sample_program();
    assert_eq!(switch_based(&program), ControlFlow::Break(Exit::Stop));
    assert_eq!(run_switch(&program), (ControlFlow::Break(Exit::Stop), vec![2], 7));
}

#[test]
fn sample_program_computed_goto() {
    let program = sample_program();
    let code = compile_program(&program);
    assert_eq!(code.len(), 7);
    assert_eq!(computed_goto(&code), ControlFlow::Break(Exit::Stop));
    assert_eq!(run_threaded(&program), (ControlFlow::Break(Exit::Stop), vec![2], 7));
}

#[test]
fn sample_program_takes_the_false_branch_on_zero() {
    let mut program = sample_program();
    program[1] = Inst::Push(0);
    // The branch now goes to index 4, past the `Push(2)`. `Add` then finds
    // one value only, so this is not a program to run.
    assert!(!halts_within(&program, 100));
    // With a value below the condition the false branch adds 0 to it.
    let program = vec![
        Inst::Begin,
        Inst::Push(40),
        Inst::Push(0),
        Inst::If(If { if_true: 4, if_false: 5 }),
        Inst::Push(2),
        Inst::Push(0),
        Inst::Add,
        Inst::Stop,
    ];
    assert_eq!(run_switch(&program), (ControlFlow::Break(Exit::Stop), vec![40], 8));
    assert_eq!(run_threaded(&program), (ControlFlow::Break(Exit::Stop), vec![40], 8));
}

#[test]
fn push_then_stop_leaves_the_value() {
    for value in [0u32, 1, 7, 0x8000_0000, u32::MAX] {
        let program = vec![Inst::Push(value), Inst::Stop];
        assert_eq!(run_switch(&program), (ControlFlow::Break(Exit::Stop), vec![value], 2));
        assert_eq!(run_threaded(&program), (ControlFlow::Break(Exit::Stop), vec![value], 2));
    }
}

#[test]
fn add_wraps_at_two_to_the_32() {
    let program = vec![Inst::Begin, Inst::Push(4294967295), Inst::Push(1), Inst::Add, Inst::Stop];
    assert_eq!(run_switch(&program).1, vec![0]);
    assert_eq!(run_threaded(&program).1, vec![0]);

    let program = vec![Inst::Push(0xFFFF_FFF0), Inst::Push(0x25), Inst::Add, Inst::Stop];
    assert_eq!(run_switch(&program).1, vec![0x15]);
    assert_eq!(run_threaded(&program).1, vec![0x15]);

    let program = vec![Inst::Push(20), Inst::Push(22), Inst::Add, Inst::Stop];
    assert_eq!(run_switch(&program).1, vec![42]);
    assert_eq!(run_threaded(&program).1, vec![42]);
}

#[test]
fn mul_wraps_at_two_to_the_32() {
    let program = vec![Inst::Push(0x1_0000), Inst::Push(0x1_0000), Inst::Mul, Inst::Stop];
    assert_eq!(run_switch(&program).1, vec![0]);
    assert_eq!(run_threaded(&program).1, vec![0]);

    // 65537 * 65537 = 2^32 + 2^17 + 1
    let program = vec![Inst::Push(65537), Inst::Push(65537), Inst::Mul, Inst::Stop];
    assert_eq!(run_switch(&program).1, vec![131073]);
    assert_eq!(run_threaded(&program).1, vec![131073]);

    let program = vec![Inst::Push(u32::MAX), Inst::Push(u32::MAX), Inst::Mul, Inst::Stop];
    assert_eq!(run_switch(&program).1, vec![1]);
    assert_eq!(run_threaded(&program).1, vec![1]);

    let program = vec![Inst::Push(6), Inst::Push(7), Inst::Mul, Inst::Stop];
    assert_eq!(run_switch(&program).1, vec![42]);
    assert_eq!(run_threaded(&program).1, vec![42]);
}

#[test]
fn arithmetic_leaves_the_values_below_alone() {
    let program =
        vec![Inst::Push(9), Inst::Push(8), Inst::Push(2), Inst::Push(3), Inst::Mul, Inst::Stop];
    assert_eq!(run_switch(&program).1, vec![9, 8, 6]);
    assert_eq!(run_threaded(&program).1, vec![9, 8, 6]);
}

fn branch_program(condition: u32) -> Vec<Inst> {
    vec![
        Inst::Begin,
        Inst::Push(condition),
        Inst::If(If { if_true: 3, if_false: 5 }),
        Inst::Push(111),
        Inst::Stop,
        Inst::Push(222),
        Inst::Stop,
    ]
}

#[test]
fn if_jumps_to_if_false_on_zero() {
    assert_eq!(run_switch(&branch_program(0)), (ControlFlow::Break(Exit::Stop), vec![222], 7));
    assert_eq!(run_threaded(&branch_program(0)), (ControlFlow::Break(Exit::Stop), vec![222], 7));
}

#[test]
fn if_jumps_to_if_true_on_one() {
    assert_eq!(run_switch(&branch_program(1)), (ControlFlow::Break(Exit::Stop), vec![111], 5));
    assert_eq!(run_threaded(&branch_program(1)), (ControlFlow::Break(Exit::Stop), vec![111], 5));
}

#[test]
fn if_jumps_to_if_true_on_a_large_value() {
    let program = branch_program(0xFFFF_FFFF);
    assert_eq!(run_switch(&program), (ControlFlow::Break(Exit::Stop), vec![111], 5));
    assert_eq!(run_threaded(&program), (ControlFlow::Break(Exit::Stop), vec![111], 5));
}

#[test]
fn if_may_jump_backwards() {
    // The `If` at index 4 jumps to itself while it pops something other
    // than zero: it pops 1, 1 and then 0, and leaves the lowest value.
    let program = vec![
        Inst::Push(0),
        Inst::Push(0),
        Inst::Push(1),
        Inst::Push(1),
        Inst::If(If { if_true: 4, if_false: 5 }),
        Inst::Stop,
    ];
    assert!(!halts_within(&program, 6));
    assert!(halts_within(&program, 7));
    assert_eq!(run_switch(&program), (ControlFlow::Break(Exit::Stop), vec![0], 6));
    assert_eq!(run_threaded(&program), (ControlFlow::Break(Exit::Stop), vec![0], 6));
}

#[test]
fn a_chain_of_branches_and_arithmetic() {
    let program = vec![
        Inst::Begin,
        Inst::Push(3),
        Inst::Push(u32::MAX),
        // 3 + (2^32 - 1) = 2
        Inst::Add,
        Inst::Push(5),
        // 2 * 5 = 10
        Inst::Mul,
        // 10 is not zero: on to index 7
        Inst::If(If { if_true: 7, if_false: 10 }),
        Inst::Push(0),
        // 0: on to index 10
        Inst::If(If { if_true: 9, if_false: 10 }),
        Inst::Push(99),
        Inst::Stop,
    ];
    assert_eq!(run_switch(&program), (ControlFlow::Break(Exit::Stop), vec![], 11));
    assert_eq!(run_threaded(&program), (ControlFlow::Break(Exit::Stop), vec![], 11));
}

#[test]
fn the_stack_may_grow_past_its_inline_room() {
    let mut program = vec![Inst::Begin];
    for value in 0..100u32 {
        program.push(Inst::Push(value));
    }
    program.push(Inst::Stop);
    let expected: Vec<u32> = (0..100).collect();
    assert_eq!(run_switch(&program).1, expected);
    assert_eq!(run_threaded(&program).1, expected);

    // Fold them all into their sum.
    program.pop();
    for _ in 0..99 {
        program.push(Inst::Add);
    }
    program.push(Inst::Stop);
    assert_eq!(run_switch(&program).1, vec![4950]);
    assert_eq!(run_threaded(&program).1, vec![4950]);
}

#[test]
fn nothing_runs_after_stop() {
    let program = vec![Inst::Push(1), Inst::Stop, Inst::Push(2), Inst::Add, Inst::Stop];
    assert_eq!(run_switch(&program), (ControlFlow::Break(Exit::Stop), vec![1], 2));
    assert_eq!(run_threaded(&program), (ControlFlow::Break(Exit::Stop), vec![1], 2));
}

#[test]
fn begin_and_nop_change_nothing() {
    let program = vec![Inst::Begin, Inst::Nop, Inst::Push(5), Inst::Nop, Inst::Begin, Inst::Stop];
    assert_eq!(run_switch(&program), (ControlFlow::Break(Exit::Stop), vec![5], 6));
    assert_eq!(run_threaded(&program), (ControlFlow::Break(Exit::Stop), vec![5], 6));
}

#[test]
fn running_again_gives_the_same_result() {
    let program = sample_program();
    let code = compile_program(&program);
    let first = computed_goto(&code);
    let second = computed_goto(&code);
    assert_eq!(first, second);
    assert_eq!(first, ControlFlow::Break(Exit::Stop));

    let mut one = VmContext::new(&code);
    let mut two = VmContext::new(&code);
    assert_eq!(dispatch(&mut one), dispatch(&mut two));
    assert_eq!(one.stack(), two.stack());
    assert_eq!(one.stack(), &[2]);
    assert_eq!(one.ip(), two.ip());

    assert_eq!(switch_based(&program), switch_based(&program));
    assert_eq!(run_switch(&program), run_switch(&program));
}

#[test]
fn no_program_ends_in_a_system_error() {
    for program in [sample_program(), branch_program(0), branch_program(9)] {
        let (flow, _, _) = run_switch(&program);
        assert!(!matches!(flow, ControlFlow::Break(Exit::Error(_))));
        let (flow, _, _) = run_threaded(&program);
        assert!(!matches!(flow, ControlFlow::Break(Exit::Error(_))));
    }
}

#[test]
fn halts_within_refuses_what_the_loops_must_not_get() {
    // no instruction at all
    assert!(!halts_within(&[], 10));
    // runs off the end
    assert!(!halts_within(&[Inst::Begin, Inst::Push(1)], 10));
    // an operand is missing
    assert!(!halts_within(&[Inst::Push(1), Inst::Add, Inst::Stop], 10));
    assert!(!halts_within(&[Inst::Push(1), Inst::Mul, Inst::Stop], 10));
    assert!(!halts_within(&[Inst::If(If { if_true: 1, if_false: 1 }), Inst::Stop], 10));
    // a jump out of the program
    let out = vec![Inst::Push(1), Inst::If(If { if_true: 3, if_false: 2 }), Inst::Stop];
    assert!(!halts_within(&out, 10));
    // the other target is fine
    let inside = vec![Inst::Push(0), Inst::If(If { if_true: 3, if_false: 2 }), Inst::Stop];
    assert!(halts_within(&inside, 10));
    // never stops
    let forever = vec![Inst::Push(1), Inst::If(If { if_true: 0, if_false: 0 })];
    assert!(!halts_within(&forever, 10_000));
}

#[test]
fn halts_within_counts_the_instructions_before_the_stop() {
    let program = vec![Inst::Begin, Inst::Push(1), Inst::Nop, Inst::Stop];
    assert!(!halts_within(&program, 0));
    assert!(!halts_within(&program, 2));
    assert!(halts_within(&program, 3));
    assert!(halts_within(&program, 4));
    assert!(halts_within(&[Inst::Stop], 0));
}
