//! The instruction set and the terminal outcomes.

use vstd::prelude::*;

verus! {

/// The two jump targets of a conditional branch, as absolute indices into the
/// instruction sequence.
#[derive(Clone, Copy, Debug, PartialEq, Eq, Structural)]
pub struct If {
    /// The offset of the instruction to jump to if the condition is true
    pub if_true: u32,
    /// The offset of the instruction to jump to if the condition is false
    pub if_false: u32,
}

/// One instruction of a program.
#[derive(Clone, Copy, Debug, PartialEq, Eq, Structural)]
pub enum Inst {
    /// Marks the start of a program; does nothing.
    Begin,
    /// Does nothing.
    Nop,
    /// Ends the execution.
    Stop,
    /// Pushes the value.
    Push(u32),
    /// Pops the condition and jumps to one of the two targets.
    If(If),
    /// Pops two values and pushes their sum, modulo 2^32.
    Add,
    /// Pops two values and pushes their product, modulo 2^32.
    Mul,
}

/// A failure of the machine itself. No instruction produces one yet.
#[derive(Clone, Copy, Debug, PartialEq, Eq, Structural)]
pub struct SystemError;

/// How an execution ended.
#[derive(Clone, Copy, Debug, PartialEq, Eq, Structural)]
pub enum Exit {
    /// A `Stop` instruction was executed.
    Stop,
    /// The machine failed.
    Error(SystemError),
}

} // verus!
