//! Boot and trap dispatch for a Cortex-M class microcontroller, as a model
//! that can be run and reasoned about on any machine.
//!
//! Memory is a byte image, handlers are addresses, and whatever needs the
//! processor itself (calling the entry point, the breakpoint instruction) is
//! a [`reset::Action`] that the caller carries out.

pub mod exception;
pub mod fault;
pub mod frame;
pub mod interrupt;
pub mod memory;
pub mod reset;
