//! Trusted wrappers around the OS trace interface.
//!
//! Every interaction with the target process goes through one of these
//! wrappers.  Their outcomes depend on the target process and on the kernel,
//! so none of them promises anything about the value it returns; the
//! verified callers in `engine` state what holds whatever comes back.
//! Errors are surfaced as the raw `errno` value.

use vstd::prelude::*;
use crate::engine::Event;

verus! {

/// Relies on nix::sys::wait::waitpid: blocks until the traced child changes
/// state once, and reports why.  Signal stops and exits are passed through
/// with their signal number or status; every other wait outcome is reported
/// as `Event::Other`.
#[verifier::external_body]
pub(crate) fn wait_event(pid: i32) -> (r: Result<Event, i32>) {
    match nix::sys::wait::waitpid(nix::unistd::Pid::from_raw(pid), None) {
        Ok(nix::sys::wait::WaitStatus::Stopped(_, sig)) => Ok(Event::Stopped(sig as i32)),
        Ok(nix::sys::wait::WaitStatus::Exited(_, status)) => Ok(Event::Exited(status)),
        Ok(_) => Ok(Event::Other),
        Err(e) => Err(e as i32),
    }
}

/// Relies on nix::sys::ptrace::cont (PTRACE_CONT): resumes the stopped
/// tracee, delivering no signal.
#[verifier::external_body]
pub(crate) fn pt_cont(pid: i32) -> (r: Result<(), i32>) {
    nix::sys::ptrace::cont(nix::unistd::Pid::from_raw(pid), None).map_err(|e| e as i32)
}

/// Relies on nix::sys::ptrace::step (PTRACE_SINGLESTEP): advances the
/// stopped tracee by one machine instruction, delivering no signal.
#[verifier::external_body]
pub(crate) fn pt_step(pid: i32) -> (r: Result<(), i32>) {
    nix::sys::ptrace::step(nix::unistd::Pid::from_raw(pid), None).map_err(|e| e as i32)
}

/// Relies on nix::sys::ptrace::read (PTRACE_PEEKDATA): reads the machine
/// word at `addr` in the tracee's memory.
#[verifier::external_body]
pub(crate) fn pt_read_word(pid: i32, addr: u64) -> (r: Result<u64, i32>) {
    match nix::sys::ptrace::read(
        nix::unistd::Pid::from_raw(pid),
        addr as nix::sys::ptrace::AddressType,
    ) {
        Ok(w) => Ok(w as u64),
        Err(e) => Err(e as i32),
    }
}

/// Relies on nix::sys::ptrace::write (PTRACE_POKEDATA): writes `word` at
/// `addr` in the tracee's memory.
#[verifier::external_body]
pub(crate) fn pt_write_word(pid: i32, addr: u64, word: u64) -> (r: Result<(), i32>) {
    nix::sys::ptrace::write(
        nix::unistd::Pid::from_raw(pid),
        addr as nix::sys::ptrace::AddressType,
        word as i64,
    ).map_err(|e| e as i32)
}

} // verus!
