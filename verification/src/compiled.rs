//! The compiled form of a program, for threaded dispatch.
//!
//! A compiled instruction pairs the operands of an instruction with the
//! handler that executes it. The handler is chosen once, by [`Opcode::compile`],
//! so that the dispatch loop never has to look at what kind of instruction it
//! has in hand. Verus has no function pointer type, so the handler is stored
//! by name.

use crate::context::VmContext;
use crate::inst::{Exit, If, Inst};
use crate::ops::{Add, Begin, Mul, Nop, Op, Push, Stop};
use crate::semantics::{defined, effect, signal};
use std::ops::ControlFlow;
use vstd::prelude::*;

verus! {

/// The operands of a compiled instruction: two words, as many as the largest
/// instruction needs. Nothing in it tells which instruction it belongs to;
/// the handler stored beside it knows how to read it.
#[derive(Clone, Copy)]
pub struct Opcode {
    first: u32,
    second: u32,
}

/// Names the routine of [`Opcode`] that executes a compiled instruction.
#[derive(Clone, Copy)]
pub enum Handler {
    /// [`Opcode::begin`]
    Begin,
    /// [`Opcode::nop`]
    Nop,
    /// [`Opcode::stop`]
    Stop,
    /// [`Opcode::push`]
    Push,
    /// [`Opcode::branch`]
    If,
    /// [`Opcode::add`]
    Add,
    /// [`Opcode::mul`]
    Mul,
}

/// An instruction together with the handler that executes it.
pub struct CompiledInst {
    opcode: Opcode,
    execute: Handler,
}

impl Handler {
    /// The instruction that this handler executes when it is given `opcode`.
    pub open spec fn reads(self, opcode: Opcode) -> Inst {
        match self {
            Handler::Begin => Inst::Begin,
            Handler::Nop => Inst::Nop,
            Handler::Stop => Inst::Stop,
            Handler::Push => Inst::Push(opcode.value()),
            Handler::If => Inst::If(opcode.targets()),
            Handler::Add => Inst::Add,
            Handler::Mul => Inst::Mul,
        }
    }
}

impl View for CompiledInst {
    type V = Inst;

    /// The instruction that this value was compiled from.
    closed spec fn view(&self) -> Inst {
        self.execute.reads(self.opcode)
    }
}

/// The program that a compiled program stands for.
pub open spec fn decode(code: Seq<CompiledInst>) -> Seq<Inst> {
    code.map_values(|inst: CompiledInst| inst@)
}

impl Opcode {
    /// The operands read as those of a `Push`: the value to push.
    pub closed spec fn value(self) -> u32 {
        self.first
    }

    /// The operands read as those of an `If`: the two jump targets.
    pub closed spec fn targets(self) -> If {
        If { if_true: self.first, if_false: self.second }
    }

    /// Compiles one instruction: stores its operands and binds the handler
    /// that executes it.
    pub fn compile(inst: Inst) -> (compiled: CompiledInst)
        ensures
            compiled@ == inst,
    {
        match inst {
            Inst::Begin => CompiledInst {
                opcode: Opcode { first: 0, second: 0 },
                execute: Handler::Begin,
            },
            Inst::Nop => CompiledInst {
                opcode: Opcode { first: 0, second: 0 },
                execute: Handler::Nop,
            },
            Inst::Stop => CompiledInst {
                opcode: Opcode { first: 0, second: 0 },
                execute: Handler::Stop,
            },
            Inst::Push(value) => CompiledInst {
                opcode: Opcode { first: value, second: 0 },
                execute: Handler::Push,
            },
            Inst::If(targets) => CompiledInst {
                opcode: Opcode { first: targets.if_true, second: targets.if_false },
                execute: Handler::If,
            },
            Inst::Add => CompiledInst {
                opcode: Opcode { first: 0, second: 0 },
                execute: Handler::Add,
            },
            Inst::Mul => CompiledInst {
                opcode: Opcode { first: 0, second: 0 },
                execute: Handler::Mul,
            },
        }
    }

    /// The handler of `Begin`.
    #[inline(never)]
    pub fn begin(&self, context: &mut VmContext) -> (flow: ControlFlow<Exit>)
        ensures
            flow == signal(Inst::Begin),
            final(context)@ == effect(Inst::Begin, old(context)@),
            final(context).code() == old(context).code(),
    {
        Begin.execute_nodispatch(context)
    }

    /// The handler of `Nop`.
    #[inline(never)]
    pub fn nop(&self, context: &mut VmContext) -> (flow: ControlFlow<Exit>)
        ensures
            flow == signal(Inst::Nop),
            final(context)@ == effect(Inst::Nop, old(context)@),
            final(context).code() == old(context).code(),
    {
        Nop.execute_nodispatch(context)
    }

    /// The handler of `Stop`.
    #[inline(never)]
    pub fn stop(&self, context: &mut VmContext) -> (flow: ControlFlow<Exit>)
        ensures
            flow == signal(Inst::Stop),
            final(context)@ == effect(Inst::Stop, old(context)@),
            final(context).code() == old(context).code(),
    {
        Stop.execute_nodispatch(context)
    }

    /// The handler of `Push`: reads the operands as a value to push.
    #[inline(never)]
    pub fn push(&self, context: &mut VmContext) -> (flow: ControlFlow<Exit>)
        requires
            defined(Inst::Push(self.value()), old(context)@),
        ensures
            flow == signal(Inst::Push(self.value())),
            final(context)@ == effect(Inst::Push(self.value()), old(context)@),
            final(context).code() == old(context).code(),
    {
        Push(self.first).execute_nodispatch(context)
    }

    /// The handler of `If`: reads the operands as two jump targets.
    #[inline(never)]
    pub fn branch(&self, context: &mut VmContext) -> (flow: ControlFlow<Exit>)
        requires
            defined(Inst::If(self.targets()), old(context)@),
        ensures
            flow == signal(Inst::If(self.targets())),
            final(context)@ == effect(Inst::If(self.targets()), old(context)@),
            final(context).code() == old(context).code(),
    {
        let targets = If { if_true: self.first, if_false: self.second };
        targets.execute_nodispatch(context)
    }

    /// The handler of `Add`.
    #[inline(never)]
    pub fn add(&self, context: &mut VmContext) -> (flow: ControlFlow<Exit>)
        requires
            defined(Inst::Add, old(context)@),
        ensures
            flow == signal(Inst::Add),
            final(context)@ == effect(Inst::Add, old(context)@),
            final(context).code() == old(context).code(),
    {
        Add.execute_nodispatch(context)
    }

    /// The handler of `Mul`.
    #[inline(never)]
    pub fn mul(&self, context: &mut VmContext) -> (flow: ControlFlow<Exit>)
        requires
            defined(Inst::Mul, old(context)@),
        ensures
            flow == signal(Inst::Mul),
            final(context)@ == effect(Inst::Mul, old(context)@),
            final(context).code() == old(context).code(),
    {
        Mul.execute_nodispatch(context)
    }
}

impl CompiledInst {
    /// Invokes the handler stored in the instruction on its operands.
    pub fn call(&self, context: &mut VmContext) -> (flow: ControlFlow<Exit>)
        requires
            defined(self@, old(context)@),
        ensures
            flow == signal(self@),
            final(context)@ == effect(self@, old(context)@),
            final(context).code() == old(context).code(),
    {
        match self.execute {
            Handler::Begin => self.opcode.begin(context),
            Handler::Nop => self.opcode.nop(context),
            Handler::Stop => self.opcode.stop(context),
            Handler::Push => self.opcode.push(context),
            Handler::If => self.opcode.branch(context),
            Handler::Add => self.opcode.add(context),
            Handler::Mul => self.opcode.mul(context),
        }
    }
}

/// Compiles a program, instruction by instruction. Jump targets are not held
/// against the length of the program.
pub fn compile_program(program: &[Inst]) -> (code: Vec<CompiledInst>)
    ensures
        decode(code@) == program@,
{
    let mut code: Vec<CompiledInst> = Vec::new();
    let mut i: usize = 0;
    while i < program.len()
        invariant
            i <= program.len(),
            code@.len() == i,
            forall|k: int| 0 <= k < i ==> (#[trigger] code@[k])@ == program@[k],
        decreases program.len() - i,
    {
        code.push(Opcode::compile(program[i]));
        i = i + 1;
    }
    assert(decode(code@) =~= program@);
    code
}

} // verus!
