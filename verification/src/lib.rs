//! A small bytecode interpreter over an operand stack of 32-bit values, with
//! two ways of driving it: threaded dispatch over a compiled program, and a
//! switch over the plain instructions.
//!
//! What a program does is defined once, in [`semantics`], as a step function
//! on an abstract machine state. Every handler and both dispatch loops are
//! verified against that definition.

pub mod compiled;
pub mod context;
pub mod dispatch;
pub mod inst;
pub mod laws;
pub mod ops;
pub mod semantics;
pub mod stack;

pub use compiled::{compile_program, CompiledInst, Handler, Opcode};
pub use context::VmContext;
pub use dispatch::{computed_goto, dispatch, halts_within, is_defined, switch_based, switch_dispatch};
pub use inst::{Exit, If, Inst, SystemError};
pub use ops::{Add, Begin, Mul, Nop, Op, Push, Stop};
pub use stack::Stack;
