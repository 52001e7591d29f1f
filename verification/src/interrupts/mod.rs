//! Interrupt handling: the stacks of the exception handlers and the
//! keyboard.
pub mod irq;

use vstd::prelude::*;

verus! {

/// Index, in the interrupt stack table of the task state segment, of the
/// stack the double fault handler runs on.
pub const DOUBLE_FAULT_IST_INDEX: usize = 0;

/// Interrupt vector of the keyboard: the first vector after the 32
/// exceptions, plus its interrupt line 1.
pub const KEYBOARD_VECTOR: usize = 33;

} // verus!
