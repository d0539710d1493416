//! The two dispatch loops, and a bounded check of the condition under which
//! they may be entered.

use crate::compiled::{decode, CompiledInst};
use crate::context::VmContext;
use crate::inst::{Exit, Inst};
use crate::ops::{Add, Begin, Mul, Nop, Op, Push, Stop};
use crate::semantics::{
    defined, effect, final_state, halts, halts_in, lemma_outcome, outcome, signal, steps, State,
};
use std::ops::ControlFlow;
use vstd::prelude::*;

verus! {

/// Threaded dispatch from the state of `context`: fetches the compiled
/// instruction at the instruction pointer, moves the pointer past it and
/// invokes the handler stored in the instruction, again and again, until a
/// handler ends the execution. The loop stands in for a chain of tail calls
/// from handler to handler, so that a long execution does not grow the call
/// stack.
///
/// No jump target is held against the length of the program and no operand
/// is looked for before it is popped: the program must be one whose
/// execution from this state reaches a `Stop`.
pub fn dispatch(context: &mut VmContext) -> (flow: ControlFlow<Exit>)
    requires
        halts(old(context).program(), old(context)@),
    ensures
        flow == ControlFlow::<Exit, ()>::Break(Exit::Stop),
        final(context)@ == outcome(old(context).program(), old(context)@),
        final(context).code() == old(context).code(),
{
    let ghost program = context.program();
    let ghost mut left = steps(program, context@);
    proof {
        lemma_outcome(program, context@, left);
    }
    loop
        invariant
            context.code() == old(context).code(),
            program == old(context).program(),
            halts_in(program, context@, left),
            final_state(program, context@, left) == outcome(program, old(context)@),
        decreases left,
    {
        let inst = context.fetch();
        match inst.call(context) {
            ControlFlow::Break(exit) => {
                return ControlFlow::Break(exit);
            },
            ControlFlow::Continue(()) => {},
        }
        proof {
            left = (left - 1) as nat;
        }
    }
}

/// Executes a compiled program by threaded dispatch, on a context of its own
/// that starts at index 0 with an empty stack.
#[inline(never)]
pub fn computed_goto(code: &[CompiledInst]) -> (flow: ControlFlow<Exit>)
    requires
        halts(decode(code@), State::start()),
    ensures
        flow == ControlFlow::<Exit, ()>::Break(Exit::Stop),
{
    let mut context = VmContext::new(code);
    dispatch(&mut context)
}

/// The switch: branches on the kind of the instruction into the standalone
/// form of its handler.
fn switch_step(opcode: &Inst, context: &mut VmContext) -> (flow: ControlFlow<Exit>)
    requires
        defined(*opcode, old(context)@),
    ensures
        flow == signal(*opcode),
        final(context)@ == effect(*opcode, old(context)@),
        final(context).code() == old(context).code(),
{
    match opcode {
        Inst::Begin => Begin.execute_nodispatch(context),
        Inst::Nop => Nop.execute_nodispatch(context),
        Inst::Stop => Stop.execute_nodispatch(context),
        Inst::Push(val) => Push(*val).execute_nodispatch(context),
        Inst::Add => Add.execute_nodispatch(context),
        Inst::Mul => Mul.execute_nodispatch(context),
        Inst::If(targets) => targets.execute_nodispatch(context),
    }
}

/// Switch dispatch from the state of `context`: reads the instruction at the
/// instruction pointer, moves the pointer past it and branches on the kind of
/// the instruction into the standalone form of its handler, again and again,
/// until a handler ends the execution. The program must be one whose
/// execution from this state reaches a `Stop`.
pub fn switch_dispatch(code: &[Inst], context: &mut VmContext) -> (flow: ControlFlow<Exit>)
    requires
        halts(code@, old(context)@),
    ensures
        flow == ControlFlow::<Exit, ()>::Break(Exit::Stop),
        final(context)@ == outcome(code@, old(context)@),
        final(context).code() == old(context).code(),
{
    let ghost mut left = steps(code@, context@);
    proof {
        lemma_outcome(code@, context@, left);
    }
    loop
        invariant
            context.code() == old(context).code(),
            halts_in(code@, context@, left),
            final_state(code@, context@, left) == outcome(code@, old(context)@),
        decreases left,
    {
        let opcode = &code[context.ip()];
        context.advance();
        match switch_step(opcode, context) {
            ControlFlow::Break(exit) => {
                return ControlFlow::Break(exit);
            },
            ControlFlow::Continue(()) => {},
        }
        proof {
            left = (left - 1) as nat;
        }
    }
}

/// Executes a program by switch dispatch, on a context of its own that
/// starts at index 0 with an empty stack.
#[inline(never)]
pub fn switch_based(code: &[Inst]) -> (flow: ControlFlow<Exit>)
    requires
        halts(code@, State::start()),
    ensures
        flow == ControlFlow::<Exit, ()>::Break(Exit::Stop),
{
    let mut context = VmContext::default();
    switch_dispatch(code, &mut context)
}

/// Whether `inst` can be executed on `context`: whether its operands are on
/// the stack and there is room for what it pushes.
pub fn is_defined(inst: &Inst, context: &VmContext) -> (ok: bool)
    ensures
        ok == defined(*inst, context@),
{
    match inst {
        Inst::Begin | Inst::Nop | Inst::Stop => true,
        Inst::Push(_) => context.depth() <= usize::MAX / 16,
        Inst::Add | Inst::Mul => 2 <= context.depth(),
        Inst::If(_) => !context.is_empty(),
    }
}

/// Whether the execution of `code` from the start is defined at every step
/// and reaches a `Stop` after at most `budget` other instructions. It runs
/// the program with every check that the dispatch loops leave out, so a
/// caller that cannot prove that a program stops can find out here, up to a
/// bound, before it hands the program to them.
pub fn halts_within(code: &[Inst], budget: usize) -> (ok: bool)
    ensures
        ok == halts_in(code@, State::start(), budget as nat),
        ok ==> halts(code@, State::start()),
{
    let mut context = VmContext::default();
    let mut left = budget;
    loop
        invariant
            halts_in(code@, State::start(), budget as nat) == halts_in(
                code@,
                context@,
                left as nat,
            ),
        decreases left,
    {
        if context.ip() >= code.len() {
            return false;
        }
        let opcode = &code[context.ip()];
        context.advance();
        if !is_defined(opcode, &context) {
            return false;
        }
        match opcode {
            Inst::Stop => {
                return true;
            },
            _ => {},
        }
        if left == 0 {
            return false;
        }
        let _ = switch_step(opcode, &mut context);
        left = left - 1;
    }
}

} // verus!
