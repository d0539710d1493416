//! The execution context: the state that every handler works on.

use crate::compiled::{decode, CompiledInst};
use crate::inst::Inst;
use crate::semantics::State;
use crate::stack::{stack_limit, Stack};
use vstd::prelude::*;

verus! {

/// The state of one execution: the instruction pointer, the operand stack,
/// and the compiled program being run (empty under switch dispatch, where
/// the loop holds the program itself).
pub struct VmContext<'a> {
    ip: usize,
    code: &'a [CompiledInst],
    stack: Stack,
}

impl<'a> View for VmContext<'a> {
    type V = State;

    /// The machine state that the context holds.
    closed spec fn view(&self) -> State {
        State { ip: self.ip as nat, stack: self.stack@ }
    }
}

impl<'a> VmContext<'a> {
    /// The stack is never more than one value above the depth at which a
    /// push is still possible.
    #[verifier::type_invariant]
    spec fn within_limit(self) -> bool {
        self.stack@.len() <= stack_limit() + 1
    }

    /// The compiled program that the context runs.
    pub closed spec fn code(&self) -> Seq<CompiledInst> {
        self.code@
    }

    /// The program that the context runs, as plain instructions.
    pub open spec fn program(&self) -> Seq<Inst> {
        decode(self.code())
    }

    /// A context at the start of `code`, with an empty stack.
    pub fn new(code: &'a [CompiledInst]) -> (context: Self)
        ensures
            context@ == State::start(),
            context.code() == code@,
    {
        let context = VmContext { ip: 0, code, stack: Stack::new() };
        assert(context@.stack =~= Seq::<u32>::empty());
        context
    }

    /// The index of the next instruction to fetch.
    pub fn ip(&self) -> (ip: usize)
        ensures
            ip == self@.ip,
    {
        self.ip
    }

    /// The values on the stack, bottom first.
    pub fn stack(&self) -> (stack: &[u32])
        ensures
            stack@ == self@.stack,
    {
        self.stack.as_slice()
    }

    /// The number of values on the stack.
    pub fn depth(&self) -> (depth: usize)
        ensures
            depth == self@.stack.len(),
    {
        self.stack.len()
    }

    /// Whether the stack holds no value.
    pub fn is_empty(&self) -> (empty: bool)
        ensures
            empty == (self@.stack.len() == 0),
    {
        self.stack.is_empty()
    }

    /// Pushes `value` onto the stack.
    pub fn push(&mut self, value: u32)
        requires
            old(self)@.stack.len() <= stack_limit(),
        ensures
            final(self)@ == (State { ip: old(self)@.ip, stack: old(self)@.stack.push(value) }),
            final(self).code() == old(self).code(),
    {
        self.stack.push(value);
    }

    /// Pops the top of the stack. After it there is room for a push.
    pub fn pop(&mut self) -> (top: u32)
        requires
            old(self)@.stack.len() > 0,
        ensures
            top == old(self)@.stack.last(),
            final(self)@ == (State { ip: old(self)@.ip, stack: old(self)@.stack.drop_last() }),
            final(self)@.stack.len() <= stack_limit(),
            final(self).code() == old(self).code(),
    {
        proof {
            use_type_invariant(&*self);
        }
        self.stack.pop().expect("expected operand")
    }

    /// Sets the instruction pointer to `target`. The target is not held
    /// against the length of the program.
    pub fn jump(&mut self, target: usize)
        ensures
            final(self)@ == (State { ip: target as nat, stack: old(self)@.stack }),
            final(self).code() == old(self).code(),
    {
        proof {
            use_type_invariant(&*self);
        }
        self.ip = target;
    }

    /// Moves the instruction pointer to the next index.
    pub fn advance(&mut self)
        requires
            old(self)@.ip < usize::MAX,
        ensures
            final(self)@ == old(self)@.advance(),
            final(self).code() == old(self).code(),
    {
        proof {
            use_type_invariant(&*self);
        }
        self.ip = self.ip + 1;
    }

    /// Reads the compiled instruction at the instruction pointer and moves
    /// the pointer past it.
    pub fn fetch(&mut self) -> (inst: &'a CompiledInst)
        requires
            old(self)@.ip < old(self).code().len(),
        ensures
            *inst == old(self).code()[old(self)@.ip as int],
            final(self)@ == old(self)@.advance(),
            final(self).code() == old(self).code(),
    {
        let code = self.code;
        let inst = &code[self.ip];
        self.advance();
        inst
    }
}

impl<'a> Default for VmContext<'a> {
    /// A context with no compiled program, at index 0, with an empty stack.
    fn default() -> (context: Self)
        ensures
            context@ == State::start(),
            context.code() == Seq::<CompiledInst>::empty(),
    {
        let code: &[CompiledInst] = &[];
        VmContext::new(code)
    }
}

} // verus!
