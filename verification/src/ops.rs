//! The handlers: one type for each kind of instruction, and what executing
//! it does to the context.

use crate::context::VmContext;
use crate::dispatch::dispatch;
use crate::inst::{Exit, If, Inst};
use crate::semantics::{defined, effect, halts_after, outcome_after, signal};
use std::ops::ControlFlow;
use vstd::prelude::*;

verus! {

/// An instruction that can be executed on a context whose instruction
/// pointer has already moved past it.
pub trait Op {
    /// The instruction that this value executes.
    spec fn inst(&self) -> Inst;

    /// The chained form: executes the instruction and goes on with the
    /// compiled program of the context until a `Stop` ends the execution.
    fn execute(&self, context: &mut VmContext) -> (flow: ControlFlow<Exit>)
        requires
            halts_after(old(context).program(), self.inst(), old(context)@),
        ensures
            flow == ControlFlow::<Exit, ()>::Break(Exit::Stop),
            final(context)@ == outcome_after(old(context).program(), self.inst(), old(context)@),
            final(context).code() == old(context).code(),
    ;

    /// The standalone form: executes the instruction and says whether the
    /// execution goes on.
    fn execute_nodispatch(&self, context: &mut VmContext) -> (flow: ControlFlow<Exit>)
        requires
            defined(self.inst(), old(context)@),
        ensures
            flow == signal(self.inst()),
            final(context)@ == effect(self.inst(), old(context)@),
            final(context).code() == old(context).code(),
    ;
}

/// Marks the start of a program.
#[derive(Copy, Clone)]
pub struct Begin;

impl Op for Begin {
    open spec fn inst(&self) -> Inst {
        Inst::Begin
    }

    #[inline(always)]
    fn execute(&self, context: &mut VmContext) -> (flow: ControlFlow<Exit>) {
        dispatch(context)
    }

    #[inline(always)]
    fn execute_nodispatch(&self, _context: &mut VmContext) -> (flow: ControlFlow<Exit>) {
        ControlFlow::Continue(())
    }
}

/// Does nothing.
#[derive(Copy, Clone)]
pub struct Nop;

impl Op for Nop {
    open spec fn inst(&self) -> Inst {
        Inst::Nop
    }

    #[inline(always)]
    fn execute(&self, context: &mut VmContext) -> (flow: ControlFlow<Exit>) {
        dispatch(context)
    }

    #[inline(always)]
    fn execute_nodispatch(&self, _context: &mut VmContext) -> (flow: ControlFlow<Exit>) {
        ControlFlow::Continue(())
    }
}

/// Ends the execution.
#[derive(Copy, Clone)]
pub struct Stop;

impl Op for Stop {
    open spec fn inst(&self) -> Inst {
        Inst::Stop
    }

    #[inline(always)]
    fn execute(&self, _context: &mut VmContext) -> (flow: ControlFlow<Exit>) {
        ControlFlow::Break(Exit::Stop)
    }

    #[inline(always)]
    fn execute_nodispatch(&self, _context: &mut VmContext) -> (flow: ControlFlow<Exit>) {
        ControlFlow::Break(Exit::Stop)
    }
}

/// Pushes its value.
#[derive(Copy, Clone)]
pub struct Push(pub u32);

impl Op for Push {
    open spec fn inst(&self) -> Inst {
        Inst::Push(self.0)
    }

    #[inline(always)]
    fn execute(&self, context: &mut VmContext) -> (flow: ControlFlow<Exit>) {
        context.push(self.0);
        dispatch(context)
    }

    #[inline(always)]
    fn execute_nodispatch(&self, context: &mut VmContext) -> (flow: ControlFlow<Exit>) {
        context.push(self.0);
        ControlFlow::Continue(())
    }
}

/// Replaces the top two values by their sum modulo 2^32.
#[derive(Copy, Clone)]
pub struct Add;

impl Op for Add {
    open spec fn inst(&self) -> Inst {
        Inst::Add
    }

    #[inline(always)]
    fn execute(&self, context: &mut VmContext) -> (flow: ControlFlow<Exit>) {
        let b = context.pop();
        let a = context.pop();
        context.push(a.wrapping_add(b));
        proof {
            lemma_folded(old(context)@.stack);
        }
        dispatch(context)
    }

    #[inline(always)]
    fn execute_nodispatch(&self, context: &mut VmContext) -> (flow: ControlFlow<Exit>) {
        let b = context.pop();
        let a = context.pop();
        context.push(a.wrapping_add(b));
        proof {
            lemma_folded(old(context)@.stack);
        }
        ControlFlow::Continue(())
    }
}

/// Replaces the top two values by their product modulo 2^32.
#[derive(Copy, Clone)]
pub struct Mul;

impl Op for Mul {
    open spec fn inst(&self) -> Inst {
        Inst::Mul
    }

    #[inline(always)]
    fn execute(&self, context: &mut VmContext) -> (flow: ControlFlow<Exit>) {
        let b = context.pop();
        let a = context.pop();
        context.push(a.wrapping_mul(b));
        proof {
            lemma_folded(old(context)@.stack);
        }
        dispatch(context)
    }

    #[inline(always)]
    fn execute_nodispatch(&self, context: &mut VmContext) -> (flow: ControlFlow<Exit>) {
        let b = context.pop();
        let a = context.pop();
        context.push(a.wrapping_mul(b));
        proof {
            lemma_folded(old(context)@.stack);
        }
        ControlFlow::Continue(())
    }
}

impl Op for If {
    open spec fn inst(&self) -> Inst {
        Inst::If(*self)
    }

    #[inline(always)]
    fn execute(&self, context: &mut VmContext) -> (flow: ControlFlow<Exit>) {
        let cond = context.pop();
        if cond == 0 {
            context.jump(self.if_false as usize);
        } else {
            context.jump(self.if_true as usize);
        }
        dispatch(context)
    }

    #[inline(always)]
    fn execute_nodispatch(&self, context: &mut VmContext) -> (flow: ControlFlow<Exit>) {
        let cond = context.pop();
        if cond == 0 {
            context.jump(self.if_false as usize);
        } else {
            context.jump(self.if_true as usize);
        }
        ControlFlow::Continue(())
    }
}

/// Popping twice leaves what lies below the top two values.
proof fn lemma_folded(stack: Seq<u32>)
    requires
        stack.len() >= 2,
    ensures
        stack.drop_last().drop_last() == stack.take(stack.len() - 2),
        stack.drop_last().last() == stack[stack.len() - 2],
{
}

} // verus!
