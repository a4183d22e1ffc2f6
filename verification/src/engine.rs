//! The debugger control core: a state machine over one traced child.
//!
//! A session is `Running` (the target executes, the controller blocks in
//! wait), `Stopped` (the target is halted, the controller dispatches one
//! operator command) or `Exited` (terminal).  A resume or single-step
//! command re-enters `Running`; a breakpoint command, well-formed or not,
//! leaves the session `Stopped`; a target exit, or any failure of the trace
//! channel itself, ends the session.

use vstd::prelude::*;
use crate::fmtnum::dec_int;
use crate::fmtnum::i32_to_dec;
use crate::msg;
use crate::parse::Command;
use crate::parse::parse_command;
use crate::parse::spec_command_of;
use crate::parse::spec_trim;
use crate::parse::trim_str;
use crate::patch::TRAP_OPCODE;
use crate::patch::patched_word;
use crate::patch::word_byte;
use crate::sys;

verus! {

/// The three states of the wait/dispatch loop.
#[derive(Clone, Copy, PartialEq, Eq, Structural, Debug)]
pub enum SessionState {
    /// The target is resumed; the controller blocks waiting for it.
    Running,
    /// The target is halted; the controller reads operator commands.
    Stopped,
    /// The target has terminated (or the trace channel failed); terminal.
    Exited,
}

/// Why the target ceased running, as reported by one wait.
#[derive(Clone, Copy, PartialEq, Eq, Structural, Debug)]
pub enum Event {
    /// Halted by the signal with this number.
    Stopped(i32),
    /// Terminated with this exit status.
    Exited(i32),
    /// Any other wait outcome; not acted upon.
    Other,
}

/// A failure of the trace channel, carrying the raw `errno`.
#[derive(Clone, Copy, PartialEq, Eq, Structural, Debug)]
pub enum DebugError {
    /// The wait primitive itself failed.
    WaitFailed(i32),
    /// Resuming the target failed.
    ResumeFailed(i32),
    /// Single-stepping the target failed.
    StepFailed(i32),
    /// Reading or writing target memory failed.
    MemoryFailed(i32),
}

/// Diagnostic line for each error category.
pub open spec fn spec_error_message(e: DebugError) -> Seq<char> {
    match e {
        DebugError::WaitFailed(n) => "Debugger error: wait failed (errno "@ + dec_int(
            n as int,
        ) + ")"@,
        DebugError::ResumeFailed(n) => "Failed to continue process (errno "@ + dec_int(
            n as int,
        ) + ")"@,
        DebugError::StepFailed(n) => "Failed to single-step process (errno "@ + dec_int(
            n as int,
        ) + ")"@,
        DebugError::MemoryFailed(n) => "Failed to set breakpoint (errno "@ + dec_int(
            n as int,
        ) + ")"@,
    }
}

impl DebugError {
    /// Render the diagnostic line for this error.
    pub fn message(&self) -> (m: String)
        ensures
            m@ == spec_error_message(*self),
    {
        match self {
            DebugError::WaitFailed(n) => {
                let mut s = String::from_str("Debugger error: wait failed (errno ");
                s.append(i32_to_dec(*n).as_str());
                s.append(")");
                s
            },
            DebugError::ResumeFailed(n) => {
                let mut s = String::from_str("Failed to continue process (errno ");
                s.append(i32_to_dec(*n).as_str());
                s.append(")");
                s
            },
            DebugError::StepFailed(n) => {
                let mut s = String::from_str("Failed to single-step process (errno ");
                s.append(i32_to_dec(*n).as_str());
                s.append(")");
                s
            },
            DebugError::MemoryFailed(n) => {
                let mut s = String::from_str("Failed to set breakpoint (errno ");
                s.append(i32_to_dec(*n).as_str());
                s.append(")");
                s
            },
        }
    }
}

/// The state reached from `s` when one wait reports `e`: a signal stop
/// halts a running target, an exit ends the session, any other wait outcome
/// changes nothing, and `Exited` is terminal.
pub open spec fn state_after_event(s: SessionState, e: Event) -> SessionState {
    match s {
        SessionState::Running => match e {
            Event::Stopped(_) => SessionState::Stopped,
            Event::Exited(_) => SessionState::Exited,
            Event::Other => SessionState::Running,
        },
        SessionState::Stopped => SessionState::Stopped,
        SessionState::Exited => SessionState::Exited,
    }
}

/// The state reached from `s` by dispatching command `c`: a resume or
/// single-step re-enters `Running`; every other command, breakpoint
/// commands included, leaves a stopped session stopped, and `Exited` is
/// terminal.
pub open spec fn state_after_command(s: SessionState, c: Command) -> SessionState {
    match s {
        SessionState::Stopped => match c {
            Command::Resume => SessionState::Running,
            Command::StepOne => SessionState::Running,
            Command::SetBreakpoint(_) => SessionState::Stopped,
            Command::BadBreakpoint => SessionState::Stopped,
            Command::Unrecognized => SessionState::Stopped,
        },
        SessionState::Running => SessionState::Running,
        SessionState::Exited => SessionState::Exited,
    }
}

/// Executable transition on a wait event; exactly `state_after_event`.
pub fn next_state_on_event(s: SessionState, e: Event) -> (r: SessionState)
    ensures
        r == state_after_event(s, e),
{
    match s {
        SessionState::Running => match e {
            Event::Stopped(_) => SessionState::Stopped,
            Event::Exited(_) => SessionState::Exited,
            Event::Other => SessionState::Running,
        },
        SessionState::Stopped => SessionState::Stopped,
        SessionState::Exited => SessionState::Exited,
    }
}

/// Executable transition on a command; exactly `state_after_command`.
pub fn next_state_on_command(s: SessionState, c: Command) -> (r: SessionState)
    ensures
        r == state_after_command(s, c),
{
    match s {
        SessionState::Stopped => match c {
            Command::Resume => SessionState::Running,
            Command::StepOne => SessionState::Running,
            Command::SetBreakpoint(_) => SessionState::Stopped,
            Command::BadBreakpoint => SessionState::Stopped,
            Command::Unrecognized => SessionState::Stopped,
        },
        SessionState::Running => SessionState::Running,
        SessionState::Exited => SessionState::Exited,
    }
}

/// One wait resolves a running session to exactly one of the three states:
/// `Stopped` on a signal stop, `Exited` on an exit, and still `Running`
/// only for the uninformative wait outcomes that are not acted upon.
pub proof fn lemma_wait_resolves(e: Event)
    ensures
        e is Stopped ==> state_after_event(SessionState::Running, e) is Stopped,
        e is Exited ==> state_after_event(SessionState::Running, e) is Exited,
        e is Other ==> state_after_event(SessionState::Running, e) is Running,
{
}

/// Input that matches no action — an unrecognized line, or a breakpoint
/// line whose address is missing or malformed — leaves every session state
/// where it was.
pub proof fn lemma_invalid_input_is_inert(s: SessionState, c: Command)
    requires
        c is BadBreakpoint || c is Unrecognized,
    ensures
        state_after_command(s, c) == s,
{
}

/// `Exited` is absorbing: no wait event and no command leads out of it,
/// so nothing further is ever dispatched to a finished target.
pub proof fn lemma_exited_is_terminal(e: Event, c: Command)
    ensures
        state_after_event(SessionState::Exited, e) is Exited,
        state_after_command(SessionState::Exited, c) is Exited,
{
}

/// Install a software breakpoint at `addr` in the target's memory: read the
/// machine word there, force its low byte to the trap opcode, write the
/// word back.  On success the returned word is the one written; its low
/// byte is the trap opcode (its other bytes are the ones read, which no
/// contract can name since they depend on the target).
pub fn set_breakpoint(pid: i32, addr: u64) -> (r: Result<u64, DebugError>)
    ensures
        r matches Ok(w) ==> word_byte(w, 0) == TRAP_OPCODE,
        r matches Err(e) ==> e is MemoryFailed,
{
    let original = match sys::pt_read_word(pid, addr) {
        Ok(w) => w,
        Err(e) => {
            return Err(DebugError::MemoryFailed(e));
        },
    };
    let patched = patched_word(original);
    match sys::pt_write_word(pid, addr, patched) {
        Ok(_) => Ok(patched),
        Err(e) => Err(DebugError::MemoryFailed(e)),
    }
}

/// The operator's reply to one dispatched command.
pub struct CommandReply {
    /// Whether the command resumed the target (resume or single-step).
    pub resumed: bool,
    /// The status line to report, if the command produced one.
    pub message: Option<String>,
}

/// One debugger session: the identifier of the traced child and the state
/// of the wait/dispatch loop.
pub struct Session {
    /// The target's OS process identifier.
    pub pid: i32,
    /// Where the wait/dispatch loop stands.
    pub state: SessionState,
}

impl Session {
    /// A session over a freshly launched target: the target has been
    /// resumed into its first instructions, so the loop starts `Running`.
    pub fn new(pid: i32) -> (s: Session)
        ensures
            s.pid == pid,
            s.state is Running,
    {
        Session { pid, state: SessionState::Running }
    }

    /// Block until the target changes state once, and classify the outcome.
    /// The session moves exactly as `state_after_event` says: to `Stopped`
    /// on a signal stop, to `Exited` on an exit, staying `Running` on an
    /// uninformative wait outcome.  A failure of the wait primitive itself
    /// ends the session.
    pub fn wait_for_event(&mut self) -> (r: Result<Event, DebugError>)
        requires
            old(self).state is Running,
        ensures
            final(self).pid == old(self).pid,
            match r {
                Ok(e) => final(self).state == state_after_event(SessionState::Running, e),
                Err(er) => er is WaitFailed && final(self).state is Exited,
            },
    {
        match sys::wait_event(self.pid) {
            Ok(e) => {
                self.state = next_state_on_event(self.state, e);
                Ok(e)
            },
            Err(en) => {
                self.state = SessionState::Exited;
                Err(DebugError::WaitFailed(en))
            },
        }
    }

    /// Dispatch one line of operator input while the target is stopped.
    ///
    /// On success the session moves exactly as `state_after_command` says
    /// of the command the line denotes, and the reply tells the caller
    /// whether the target was resumed and which status line to report:
    /// resume and single-step produce none, a well-formed breakpoint
    /// command reports the address it patched, a malformed one the usage
    /// line, an unrecognized command the unknown-command line.  Malformed
    /// and unrecognized input never fails and never touches the target or
    /// the session.  An error means the trace channel itself failed, which
    /// ends the session; its category matches the command that was being
    /// performed.
    pub fn handle_command_line(&mut self, line: &str) -> (r: Result<CommandReply, DebugError>)
        requires
            old(self).state is Stopped,
        ensures
            final(self).pid == old(self).pid,
            ({
                let c = spec_command_of(line@);
                match r {
                    Ok(reply) => {
                        &&& final(self).state == state_after_command(SessionState::Stopped, c)
                        &&& reply.resumed == (c is Resume || c is StepOne)
                        &&& match c {
                            Command::Resume => reply.message is None,
                            Command::StepOne => reply.message is None,
                            Command::SetBreakpoint(a) => reply.message matches Some(m) && m@
                                == msg::spec_breakpoint_set_message(a),
                            Command::BadBreakpoint => reply.message matches Some(m) && m@
                                == msg::spec_invalid_breakpoint_message(),
                            Command::Unrecognized => reply.message matches Some(m) && m@
                                == msg::spec_unknown_command_message(spec_trim(line@)),
                        }
                    },
                    Err(e) => {
                        &&& final(self).state is Exited
                        &&& match c {
                            Command::Resume => e is ResumeFailed,
                            Command::StepOne => e is StepFailed,
                            Command::SetBreakpoint(_) => e is MemoryFailed,
                            Command::BadBreakpoint => false,
                            Command::Unrecognized => false,
                        }
                    },
                }
            }),
            (spec_command_of(line@) is BadBreakpoint || spec_command_of(line@) is Unrecognized)
                ==> r is Ok && *final(self) == *old(self),
    {
        let c = parse_command(line);
        match c {
            Command::Resume => {
                match sys::pt_cont(self.pid) {
                    Ok(_) => {
                        self.state = SessionState::Running;
                        Ok(CommandReply { resumed: true, message: None })
                    },
                    Err(e) => {
                        self.state = SessionState::Exited;
                        Err(DebugError::ResumeFailed(e))
                    },
                }
            },
            Command::StepOne => {
                match sys::pt_step(self.pid) {
                    Ok(_) => {
                        self.state = SessionState::Running;
                        Ok(CommandReply { resumed: true, message: None })
                    },
                    Err(e) => {
                        self.state = SessionState::Exited;
                        Err(DebugError::StepFailed(e))
                    },
                }
            },
            Command::SetBreakpoint(a) => {
                match set_breakpoint(self.pid, a) {
                    Ok(_) => Ok(
                        CommandReply { resumed: false, message: Some(msg::breakpoint_set_message(a)) },
                    ),
                    Err(e) => {
                        self.state = SessionState::Exited;
                        Err(e)
                    },
                }
            },
            Command::BadBreakpoint => Ok(
                CommandReply { resumed: false, message: Some(msg::invalid_breakpoint_message()) },
            ),
            Command::Unrecognized => {
                let t = trim_str(line);
                Ok(CommandReply { resumed: false, message: Some(msg::unknown_command_message(t)) })
            },
        }
    }
}

} // verus!
