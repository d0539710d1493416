//! What holds of every program, stated over the definitions of
//! [`crate::semantics`] that the contracts of the handlers and of the
//! dispatch loops are written in.

use crate::compiled::{decode, CompiledInst};
use crate::inst::{If, Inst};
use crate::semantics::{
    defined, effect, final_state, halts, halts_after, halts_in, lemma_final_state_unique,
    lemma_outcome, outcome, outcome_after, steps, State,
};
use vstd::prelude::*;

verus! {

/// Both dispatch strategies agree. Where `code` is the compiled form of
/// `program`, threaded dispatch over `code` and switch dispatch over
/// `program`, entered in the same state, either both reach a `Stop` or
/// neither does, and they stop in the same state: the same stack, value for
/// value, and the same instruction pointer.
pub proof fn lemma_strategies_agree(code: Seq<CompiledInst>, program: Seq<Inst>, s: State)
    requires
        decode(code) == program,
    ensures
        halts(decode(code), s) == halts(program, s),
        outcome(decode(code), s) == outcome(program, s),
{
}

/// Running a program again gives the same result. The state in which an
/// execution stops depends on the program and on the state it starts from,
/// and on nothing else: whatever number of steps two runs take to reach the
/// `Stop`, they end in the same state, which is the one that the dispatch
/// loops promise.
pub proof fn lemma_rerun_agrees(program: Seq<Inst>, s: State, n: nat, m: nat)
    requires
        halts_in(program, s, n),
        halts_in(program, s, m),
    ensures
        final_state(program, s, n) == final_state(program, s, m),
        final_state(program, s, n) == outcome(program, s),
{
    lemma_final_state_unique(program, s, n, m);
    lemma_outcome(program, s, n);
}

/// The chained form of a handler does what the standalone form does and
/// then what the rest of the program does. An execution that stops fetches
/// an instruction and moves past it; that instruction can be executed, and
/// unless it is a `Stop` the execution from the state it leaves stops too,
/// in the same state as the whole.
pub proof fn lemma_first_step_then_rest(program: Seq<Inst>, s: State)
    requires
        halts(program, s),
    ensures
        s.ip < program.len(),
        halts_after(program, program[s.ip as int], s.advance()),
        outcome(program, s) == outcome_after(program, program[s.ip as int], s.advance()),
{
    let n = steps(program, s);
    if !(program[s.ip as int] is Stop) {
        let next = effect(program[s.ip as int], s.advance());
        lemma_outcome(program, next, (n - 1) as nat);
    }
}

/// The converse: where the instruction at the instruction pointer can be
/// executed and the execution from the state it leaves stops, the whole
/// execution stops.
pub proof fn lemma_stops_by_first_step(program: Seq<Inst>, s: State)
    requires
        s.ip < program.len(),
        halts_after(program, program[s.ip as int], s.advance()),
    ensures
        halts(program, s),
{
    if program[s.ip as int] is Stop {
        assert(halts_in(program, s, 0));
    } else {
        let next = effect(program[s.ip as int], s.advance());
        let n = steps(program, next);
        assert(halts_in(program, s, n + 1));
    }
}

/// A larger allowance of steps does no harm: an execution that reaches a
/// `Stop` within `n` steps reaches it within any `m` from `n` up.
pub proof fn lemma_more_steps_suffice(program: Seq<Inst>, s: State, n: nat, m: nat)
    requires
        halts_in(program, s, n),
        n <= m,
    ensures
        halts_in(program, s, m),
    decreases n,
{
    if !(program[s.ip as int] is Stop) {
        lemma_more_steps_suffice(
            program,
            effect(program[s.ip as int], s.advance()),
            (n - 1) as nat,
            (m - 1) as nat,
        );
    }
}

/// A `Push` followed at once by a `Stop` leaves exactly the pushed value on
/// the stack.
pub proof fn lemma_push_then_stop(value: u32)
    ensures
        halts(seq![Inst::Push(value), Inst::Stop], State::start()),
        outcome(seq![Inst::Push(value), Inst::Stop], State::start()).stack == seq![value],
{
    let program = seq![Inst::Push(value), Inst::Stop];
    reveal_with_fuel(halts_in, 2);
    reveal_with_fuel(final_state, 2);
    assert(halts_in(program, State::start(), 1));
    lemma_outcome(program, State::start(), 1);
    assert(final_state(program, State::start(), 1).stack =~= seq![value]);
}

/// `Add` and `Mul` compute ordinary addition and multiplication modulo 2^32
/// of the two values on top of the stack, the lower one on the left, and
/// leave the result in their place.
pub proof fn lemma_arithmetic_wraps(below: Seq<u32>, a: u32, b: u32, ip: nat)
    ensures
        effect(Inst::Add, State { ip, stack: below.push(a).push(b) }) == (State {
            ip,
            stack: below.push(((a + b) % 0x1_0000_0000) as u32),
        }),
        effect(Inst::Mul, State { ip, stack: below.push(a).push(b) }) == (State {
            ip,
            stack: below.push(((a * b) % 0x1_0000_0000) as u32),
        }),
{
    let stack = below.push(a).push(b);
    assert(stack.take(stack.len() - 2) =~= below);
}

/// `If` pops the condition and jumps to `if_false` when the condition is
/// zero, and to `if_true` when it is anything else.
pub proof fn lemma_branch_targets(targets: If, below: Seq<u32>, condition: u32, ip: nat)
    ensures
        defined(Inst::If(targets), State { ip, stack: below.push(condition) }),
        effect(Inst::If(targets), State { ip, stack: below.push(condition) }) == (State {
            ip: if condition == 0 {
                targets.if_false as nat
            } else {
                targets.if_true as nat
            },
            stack: below,
        }),
{
    assert(below.push(condition).drop_last() =~= below);
}

} // verus!
