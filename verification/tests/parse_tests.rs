use minidbg::parse::parse_breakpoint_command;
use minidbg::parse::parse_command;
use minidbg::parse::Command;

#[test]
fn breakpoint_address_is_read_in_hex() {
    assert_eq!(parse_breakpoint_command("break 401000"), Some(0x401000));
}

#[test]
fn breakpoint_without_argument_is_rejected() {
    assert_eq!(parse_breakpoint_command("break"), None);
}

#[test]
fn breakpoint_with_non_hex_argument_is_rejected() {
    assert_eq!(parse_breakpoint_command("break xyz"), None);
    assert_eq!(parse_breakpoint_command("break 0x10"), None);
    assert_eq!(parse_breakpoint_command("break -1"), None);
}

#[test]
fn breakpoint_takes_only_the_second_token() {
    assert_eq!(parse_breakpoint_command("break 10 20"), Some(0x10));
}

#[test]
fn breakpoint_accepts_leading_plus_and_either_case() {
    assert_eq!(parse_breakpoint_command("break +1A"), Some(0x1a));
    assert_eq!(parse_breakpoint_command("break CaFe"), Some(0xcafe));
    assert_eq!(parse_breakpoint_command("break +"), None);
}

#[test]
fn breakpoint_surrounding_whitespace_is_ignored() {
    assert_eq!(parse_breakpoint_command("  break \t 2a  "), Some(0x2a));
}

#[test]
fn breakpoint_address_overflow_is_rejected() {
    assert_eq!(
        parse_breakpoint_command("break ffffffffffffffff"),
        Some(u64::MAX)
    );
    assert_eq!(parse_breakpoint_command("break 10000000000000000"), None);
    assert_eq!(
        parse_breakpoint_command("break 0000000000000000001"),
        Some(1)
    );
}

#[test]
fn resume_and_step_have_one_alias_each() {
    assert_eq!(parse_command("continue"), Command::Resume);
    assert_eq!(parse_command("c"), Command::Resume);
    assert_eq!(parse_command("step"), Command::StepOne);
    assert_eq!(parse_command("s"), Command::StepOne);
}

#[test]
fn commands_are_trimmed_but_case_sensitive() {
    assert_eq!(parse_command("  continue \n"), Command::Resume);
    assert_eq!(parse_command("C"), Command::Unrecognized);
    assert_eq!(parse_command("Continue"), Command::Unrecognized);
    assert_eq!(parse_command("cont"), Command::Unrecognized);
}

#[test]
fn any_line_starting_with_break_is_a_breakpoint_attempt() {
    assert_eq!(parse_command("break 401000"), Command::SetBreakpoint(0x401000));
    assert_eq!(parse_command("break"), Command::BadBreakpoint);
    assert_eq!(parse_command("break zz"), Command::BadBreakpoint);
    assert_eq!(parse_command("breakfast 12"), Command::SetBreakpoint(0x12));
}

#[test]
fn anything_else_is_unrecognized() {
    assert_eq!(parse_command(""), Command::Unrecognized);
    assert_eq!(parse_command("   "), Command::Unrecognized);
    assert_eq!(parse_command("quit"), Command::Unrecognized);
    assert_eq!(parse_command("brea"), Command::Unrecognized);
}
