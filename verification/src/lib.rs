//! A minimal interactive process debugger for a single traced child process.
//!
//! The crate is organised around a small state machine: the session is
//! `Running` (the target executes, the controller waits), `Stopped` (the
//! target is halted, the controller dispatches one operator command) or
//! `Exited` (terminal).  Operator commands resume the target, single-step
//! it, or install a software breakpoint by rewriting one machine word of
//! target memory so that its low byte is the trap opcode.

pub mod engine;
pub mod fmtnum;
pub mod msg;
pub mod parse;
pub mod patch;
mod sys;
