//! The operand stack, kept in a `smallvec::SmallVec` that holds sixteen
//! values inline before it allocates.
//!
//! Verus does not look inside the vector. What it holds is named by
//! [`stack_items`], and each method used by the interpreter is wrapped in a
//! function whose contract is taken on trust from the vector's source.

use smallvec::SmallVec;
use vstd::prelude::*;

verus! {

/// The operand stack of one execution.
#[verifier::external_body]
pub struct Stack {
    items: SmallVec<[u32; 16]>,
}

/// The values on the stack, bottom first.
pub uninterp spec fn stack_items(stack: Stack) -> Seq<u32>;

/// The greatest depth at which another value can still be pushed.
///
/// A full vector grows to the least power of two above its length, and
/// panics with "capacity overflow" if that number cannot be had or if that
/// many four-byte items take more than `isize::MAX` bytes. At a depth of
/// `usize::MAX / 16` or less the new buffer has at most `(usize::MAX + 1) / 16`
/// items, a quarter of the address space in bytes, which is below that.
pub open spec fn stack_limit() -> nat {
    (usize::MAX / 16) as nat
}

impl View for Stack {
    type V = Seq<u32>;

    open spec fn view(&self) -> Seq<u32> {
        stack_items(*self)
    }
}

impl Stack {
    /// `SmallVec::new`: an empty vector.
    #[verifier::external_body]
    pub(crate) fn new() -> (stack: Stack)
        ensures
            stack_items(stack) == Seq::<u32>::empty(),
    {
        Stack { items: SmallVec::new() }
    }

    /// `SmallVec::len`: the number of values held.
    #[verifier::external_body]
    pub(crate) fn len(&self) -> (n: usize)
        ensures
            n == stack_items(*self).len(),
    {
        self.items.len()
    }

    /// `SmallVec::is_empty`: whether no value is held.
    #[verifier::external_body]
    pub(crate) fn is_empty(&self) -> (empty: bool)
        ensures
            empty == (stack_items(*self).len() == 0),
    {
        self.items.is_empty()
    }

    /// `SmallVec::push`: appends the value and leaves the others in place.
    /// The depths at which growing the buffer can panic are left out, see
    /// [`stack_limit`]; at the others the call returns.
    #[verifier::external_body]
    pub(crate) fn push(&mut self, value: u32)
        requires
            stack_items(*old(self)).len() <= stack_limit(),
        ensures
            stack_items(*final(self)) == stack_items(*old(self)).push(value),
        no_unwind
    {
        self.items.push(value)
    }

    /// `SmallVec::pop`: removes and returns the last value, or returns `None`
    /// and changes nothing when the vector is empty. It has no panic in it.
    #[verifier::external_body]
    pub(crate) fn pop(&mut self) -> (top: Option<u32>)
        ensures
            stack_items(*old(self)).len() == 0 ==> top == None::<u32> && stack_items(*final(self))
                == stack_items(*old(self)),
            stack_items(*old(self)).len() > 0 ==> top == Some(stack_items(*old(self)).last())
                && stack_items(*final(self)) == stack_items(*old(self)).drop_last(),
        no_unwind
    {
        self.items.pop()
    }

    /// `SmallVec::as_slice`: the values held, bottom first.
    #[verifier::external_body]
    pub(crate) fn as_slice(&self) -> (items: &[u32])
        ensures
            items@ == stack_items(*self),
    {
        self.items.as_slice()
    }
}

} // verus!
