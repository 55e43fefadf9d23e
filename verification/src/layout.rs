//! Sizes that fix the shape of a thread's stack and of a saved register image.

use vstd::prelude::*;

verus! {

/// Bytes in the private stack of one thread control block.
pub const STACK_SIZE: usize = 8192;

/// Callee-preserved registers kept in a saved register image.
pub const SAVED_REGS: usize = 12;

/// Slots in a saved register image: the resume address, then the registers.
pub const FRAME_WORDS: usize = 13;

/// Bytes in one slot of a saved register image.
pub const WORD_SIZE: usize = 8;

/// Bytes in a saved register image.
pub const FRAME_SIZE: usize = 104;

} // verus!
