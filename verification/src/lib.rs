//! Two stack abstractions: a growable, contiguous-buffer stack
//! ([`stack::Stack`]) and a lock-guarded linked stack safe for concurrent use
//! ([`treiber::Stack`]).

use vstd::prelude::*;

pub mod laws;
pub mod stack;
pub mod treiber;

verus! {

/// Error produced when `pop` is asked for an element of an empty stack.
#[derive(Debug, PartialEq, Eq, Structural, Clone, Copy)]
pub struct EmptyStackError;

} // verus!
