//! What a program means: an abstract machine, one step of it, and a run to
//! the first `Stop`.
//!
//! The machine state is an instruction pointer and a stack. An instruction is
//! executed on the state whose pointer has already moved past it. Execution is
//! only defined while the pointer stays inside the program, every instruction
//! finds its operands, and the stack stays within [`stack_limit`].

use crate::inst::{Exit, Inst};
use crate::stack::stack_limit;
use std::ops::ControlFlow;
use vstd::prelude::*;

verus! {

/// The state of the abstract machine.
pub struct State {
    /// Index of the next instruction to fetch.
    pub ip: nat,
    /// The operand stack, bottom first.
    pub stack: Seq<u32>,
}

impl State {
    /// The state in which every execution starts.
    pub open spec fn start() -> State {
        State { ip: 0, stack: Seq::empty() }
    }

    /// The state after the instruction pointer has moved to the next index.
    pub open spec fn advance(self) -> State {
        State { ip: self.ip + 1, stack: self.stack }
    }
}

/// The sum of `a` and `b` modulo 2^32.
pub open spec fn add_wrapped(a: u32, b: u32) -> u32 {
    ((a + b) % 0x1_0000_0000) as u32
}

/// The product of `a` and `b` modulo 2^32.
pub open spec fn mul_wrapped(a: u32, b: u32) -> u32 {
    ((a * b) % 0x1_0000_0000) as u32
}

/// The stack without its top two values `a` (below) and `b` (on top), and
/// with `combined` in their place.
pub open spec fn fold_top(stack: Seq<u32>, combined: u32) -> Seq<u32> {
    stack.take(stack.len() - 2).push(combined)
}

/// Whether `inst` can be executed in state `s`: its operands are on the
/// stack, and there is room for what it pushes.
pub open spec fn defined(inst: Inst, s: State) -> bool {
    match inst {
        Inst::Begin | Inst::Nop | Inst::Stop => true,
        Inst::Push(_) => s.stack.len() <= stack_limit(),
        Inst::Add | Inst::Mul => 2 <= s.stack.len(),
        Inst::If(_) => 1 <= s.stack.len(),
    }
}

/// The state that executing `inst` in state `s` leaves.
///
/// `Add` and `Mul` take the top of the stack as their right operand and the
/// value below it as their left operand. `If` pops the condition and jumps to
/// `if_false` when it is zero, to `if_true` otherwise.
pub open spec fn effect(inst: Inst, s: State) -> State {
    match inst {
        Inst::Begin | Inst::Nop | Inst::Stop => s,
        Inst::Push(value) => State { ip: s.ip, stack: s.stack.push(value) },
        Inst::Add => {
            let b = s.stack[s.stack.len() - 1];
            let a = s.stack[s.stack.len() - 2];
            State { ip: s.ip, stack: fold_top(s.stack, add_wrapped(a, b)) }
        },
        Inst::Mul => {
            let b = s.stack[s.stack.len() - 1];
            let a = s.stack[s.stack.len() - 2];
            State { ip: s.ip, stack: fold_top(s.stack, mul_wrapped(a, b)) }
        },
        Inst::If(targets) => State {
            ip: if s.stack.last() == 0 {
                targets.if_false as nat
            } else {
                targets.if_true as nat
            },
            stack: s.stack.drop_last(),
        },
    }
}

/// What executing `inst` tells the dispatch loop: to stop, or to go on.
pub open spec fn signal(inst: Inst) -> ControlFlow<Exit> {
    if inst is Stop {
        ControlFlow::Break(Exit::Stop)
    } else {
        ControlFlow::Continue(())
    }
}

/// Whether the execution of `program` from state `s` is defined at every step
/// and reaches a `Stop` after at most `n` other instructions.
pub open spec fn halts_in(program: Seq<Inst>, s: State, n: nat) -> bool
    decreases n,
{
    &&& s.ip < program.len()
    &&& defined(program[s.ip as int], s.advance())
    &&& (program[s.ip as int] is Stop || (n > 0 && halts_in(
        program,
        effect(program[s.ip as int], s.advance()),
        (n - 1) as nat,
    )))
}

/// The state in which the execution of `program` from state `s` stops, if it
/// reaches a `Stop` after at most `n` other instructions: the state right
/// after that `Stop` was fetched.
pub open spec fn final_state(program: Seq<Inst>, s: State, n: nat) -> State
    decreases n,
{
    if program[s.ip as int] is Stop || n == 0 {
        s.advance()
    } else {
        final_state(program, effect(program[s.ip as int], s.advance()), (n - 1) as nat)
    }
}

/// Whether the execution of `program` from state `s` is defined at every step
/// and reaches a `Stop`.
pub open spec fn halts(program: Seq<Inst>, s: State) -> bool {
    exists|n: nat| halts_in(program, s, n)
}

/// A number of steps within which the execution of `program` from state `s`
/// reaches a `Stop`, if it does.
pub open spec fn steps(program: Seq<Inst>, s: State) -> nat {
    choose|n: nat| halts_in(program, s, n)
}

/// The state in which the execution of `program` from state `s` stops, if it
/// does.
pub open spec fn outcome(program: Seq<Inst>, s: State) -> State {
    final_state(program, s, steps(program, s))
}

/// Whether `inst` can be executed in state `s` and, unless it is a `Stop`,
/// the execution of `program` from the state it leaves reaches a `Stop`.
pub open spec fn halts_after(program: Seq<Inst>, inst: Inst, s: State) -> bool {
    defined(inst, s) && (inst is Stop || halts(program, effect(inst, s)))
}

/// The state in which the execution stops when `inst` is executed in state
/// `s` and `program` goes on from there: `s` itself if `inst` is a `Stop`.
pub open spec fn outcome_after(program: Seq<Inst>, inst: Inst, s: State) -> State {
    if inst is Stop {
        s
    } else {
        outcome(program, effect(inst, s))
    }
}

/// The state in which the execution stops does not depend on how many steps
/// were allowed, as long as they were enough.
pub proof fn lemma_final_state_unique(program: Seq<Inst>, s: State, n: nat, m: nat)
    requires
        halts_in(program, s, n),
        halts_in(program, s, m),
    ensures
        final_state(program, s, n) == final_state(program, s, m),
    decreases n,
{
    if !(program[s.ip as int] is Stop) {
        lemma_final_state_unique(
            program,
            effect(program[s.ip as int], s.advance()),
            (n - 1) as nat,
            (m - 1) as nat,
        );
    }
}

/// An execution that stops within `n` steps stops in the state that
/// [`outcome`] names.
pub proof fn lemma_outcome(program: Seq<Inst>, s: State, n: nat)
    requires
        halts_in(program, s, n),
    ensures
        halts(program, s),
        halts_in(program, s, steps(program, s)),
        outcome(program, s) == final_state(program, s, n),
{
    lemma_final_state_unique(program, s, n, steps(program, s));
}

} // verus!
