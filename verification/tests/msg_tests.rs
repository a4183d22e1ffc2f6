use minidbg::engine::DebugError;
use minidbg::fmtnum::i32_to_dec;
use minidbg::fmtnum::u64_to_dec;
use minidbg::fmtnum::u64_to_hex;
use minidbg::msg::breakpoint_set_message;
use minidbg::msg::exited_message;
use minidbg::msg::invalid_breakpoint_message;
use minidbg::msg::signal_name;
use minidbg::msg::stopped_message;
use minidbg::msg::unknown_command_message;

#[test]
fn stop_events_name_the_signal() {
    assert_eq!(
        stopped_message(1234, 5).as_str(),
        "Process 1234 stopped by signal SIGTRAP"
    );
    assert_eq!(
        stopped_message(77, 11).as_str(),
        "Process 77 stopped by signal SIGSEGV"
    );
}

#[test]
fn exit_events_carry_the_status() {
    assert_eq!(
        exited_message(1234, 0).as_str(),
        "Process 1234 exited with status 0"
    );
    assert_eq!(
        exited_message(9, 42).as_str(),
        "Process 9 exited with status 42"
    );
}

#[test]
fn breakpoint_confirmation_prints_the_address_in_hex() {
    assert_eq!(
        breakpoint_set_message(0x401000).as_str(),
        "Breakpoint set at address 0x401000"
    );
    assert_eq!(breakpoint_set_message(0).as_str(), "Breakpoint set at address 0x0");
    assert_eq!(
        breakpoint_set_message(u64::MAX).as_str(),
        "Breakpoint set at address 0xffffffffffffffff"
    );
}

#[test]
fn usage_line_for_malformed_breakpoints() {
    assert_eq!(
        invalid_breakpoint_message().as_str(),
        "Invalid breakpoint command. Usage: break <address>"
    );
}

#[test]
fn unknown_commands_are_echoed() {
    assert_eq!(
        unknown_command_message("blah").as_str(),
        "Unknown command: blah"
    );
}

#[test]
fn known_signals_are_named_and_others_numbered() {
    assert_eq!(signal_name(1).as_str(), "SIGHUP");
    assert_eq!(signal_name(9).as_str(), "SIGKILL");
    assert_eq!(signal_name(31).as_str(), "SIGSYS");
    assert_eq!(signal_name(0).as_str(), "0");
    assert_eq!(signal_name(99).as_str(), "99");
    assert_eq!(signal_name(-3).as_str(), "-3");
}

#[test]
fn numbers_render_exactly() {
    assert_eq!(u64_to_dec(0).as_str(), "0");
    assert_eq!(u64_to_dec(10).as_str(), "10");
    assert_eq!(
        u64_to_dec(18446744073709551615).as_str(),
        "18446744073709551615"
    );
    assert_eq!(u64_to_hex(0).as_str(), "0");
    assert_eq!(u64_to_hex(0xdeadbeef).as_str(), "deadbeef");
    assert_eq!(i32_to_dec(-5).as_str(), "-5");
    assert_eq!(i32_to_dec(i32::MIN).as_str(), "-2147483648");
    assert_eq!(i32_to_dec(i32::MAX).as_str(), "2147483647");
}

#[test]
fn error_messages_name_the_failed_action_and_errno() {
    assert_eq!(
        DebugError::WaitFailed(10).message().as_str(),
        "Debugger error: wait failed (errno 10)"
    );
    assert_eq!(
        DebugError::ResumeFailed(3).message().as_str(),
        "Failed to continue process (errno 3)"
    );
    assert_eq!(
        DebugError::StepFailed(3).message().as_str(),
        "Failed to single-step process (errno 3)"
    );
    assert_eq!(
        DebugError::MemoryFailed(14).message().as_str(),
        "Failed to set breakpoint (errno 14)"
    );
}
