use minidbg::engine::next_state_on_command;
use minidbg::engine::next_state_on_event;
use minidbg::engine::set_breakpoint;
use minidbg::engine::DebugError;
use minidbg::engine::Event;
use minidbg::engine::Session;
use minidbg::engine::SessionState;
use minidbg::parse::Command;

// A process identifier no live process can have, so every trace call on it
// fails and the tests need no real target.
const NO_SUCH_PID: i32 = -1;

#[test]
fn a_trap_while_running_stops_the_session() {
    // A target that traps immediately: the first wait reports a trap-class
    // signal stop before any command is read.
    let s = next_state_on_event(SessionState::Running, Event::Stopped(5));
    assert_eq!(s, SessionState::Stopped);
}

#[test]
fn an_exit_while_running_ends_the_session() {
    let s = next_state_on_event(SessionState::Running, Event::Exited(0));
    assert_eq!(s, SessionState::Exited);
}

#[test]
fn uninformative_wait_outcomes_change_nothing() {
    let s = next_state_on_event(SessionState::Running, Event::Other);
    assert_eq!(s, SessionState::Running);
}

#[test]
fn resume_and_step_reenter_running() {
    assert_eq!(
        next_state_on_command(SessionState::Stopped, Command::Resume),
        SessionState::Running
    );
    assert_eq!(
        next_state_on_command(SessionState::Stopped, Command::StepOne),
        SessionState::Running
    );
}

#[test]
fn breakpoint_commands_keep_the_session_stopped() {
    assert_eq!(
        next_state_on_command(SessionState::Stopped, Command::SetBreakpoint(0x401000)),
        SessionState::Stopped
    );
    assert_eq!(
        next_state_on_command(SessionState::Stopped, Command::BadBreakpoint),
        SessionState::Stopped
    );
    assert_eq!(
        next_state_on_command(SessionState::Stopped, Command::Unrecognized),
        SessionState::Stopped
    );
}

#[test]
fn exited_is_terminal_for_events_and_commands() {
    assert_eq!(
        next_state_on_event(SessionState::Exited, Event::Stopped(5)),
        SessionState::Exited
    );
    assert_eq!(
        next_state_on_event(SessionState::Exited, Event::Other),
        SessionState::Exited
    );
    assert_eq!(
        next_state_on_command(SessionState::Exited, Command::Resume),
        SessionState::Exited
    );
    assert_eq!(
        next_state_on_command(SessionState::Exited, Command::SetBreakpoint(0)),
        SessionState::Exited
    );
}

#[test]
fn a_new_session_is_running() {
    let s = Session::new(4242);
    assert_eq!(s.pid, 4242);
    assert_eq!(s.state, SessionState::Running);
}

#[test]
fn unrecognized_input_touches_neither_target_nor_session() {
    let mut s = Session { pid: NO_SUCH_PID, state: SessionState::Stopped };
    let r = s.handle_command_line("quit\n").expect("invalid input must not fail");
    assert!(!r.resumed);
    assert_eq!(r.message.as_deref(), Some("Unknown command: quit"));
    assert_eq!(s.state, SessionState::Stopped);
    assert_eq!(s.pid, NO_SUCH_PID);
}

#[test]
fn malformed_breakpoint_touches_neither_target_nor_session() {
    let mut s = Session { pid: NO_SUCH_PID, state: SessionState::Stopped };
    let r = s.handle_command_line("break\n").expect("invalid input must not fail");
    assert!(!r.resumed);
    assert_eq!(
        r.message.as_deref(),
        Some("Invalid breakpoint command. Usage: break <address>")
    );
    assert_eq!(s.state, SessionState::Stopped);
}

#[test]
fn a_failed_resume_ends_the_session() {
    let mut s = Session { pid: NO_SUCH_PID, state: SessionState::Stopped };
    let r = s.handle_command_line("continue\n");
    assert!(matches!(r, Err(DebugError::ResumeFailed(_))));
    assert_eq!(s.state, SessionState::Exited);
}

#[test]
fn a_failed_step_ends_the_session() {
    let mut s = Session { pid: NO_SUCH_PID, state: SessionState::Stopped };
    let r = s.handle_command_line("s\n");
    assert!(matches!(r, Err(DebugError::StepFailed(_))));
    assert_eq!(s.state, SessionState::Exited);
}

#[test]
fn a_failed_memory_patch_ends_the_session() {
    let mut s = Session { pid: NO_SUCH_PID, state: SessionState::Stopped };
    let r = s.handle_command_line("break 401000\n");
    assert!(matches!(r, Err(DebugError::MemoryFailed(_))));
    assert_eq!(s.state, SessionState::Exited);
}

#[test]
fn set_breakpoint_reports_a_memory_error_without_a_target() {
    let r = set_breakpoint(NO_SUCH_PID, 0x401000);
    assert!(matches!(r, Err(DebugError::MemoryFailed(_))));
}
