//! The human-readable status lines of the operator interface: one for every
//! stop event and one for every breakpoint action.

use vstd::prelude::*;
use crate::fmtnum::dec_int;
use crate::fmtnum::hex_digits;
use crate::fmtnum::i32_to_dec;
use crate::fmtnum::u64_to_hex;

verus! {

/// The conventional name of signal `sig` on the host platform, or its
/// decimal number for a value outside the table.
pub open spec fn spec_signal_name(sig: int) -> Seq<char> {
    if sig == 1 {
        "SIGHUP"@
    } else if sig == 2 {
        "SIGINT"@
    } else if sig == 3 {
        "SIGQUIT"@
    } else if sig == 4 {
        "SIGILL"@
    } else if sig == 5 {
        "SIGTRAP"@
    } else if sig == 6 {
        "SIGABRT"@
    } else if sig == 7 {
        "SIGBUS"@
    } else if sig == 8 {
        "SIGFPE"@
    } else if sig == 9 {
        "SIGKILL"@
    } else if sig == 10 {
        "SIGUSR1"@
    } else if sig == 11 {
        "SIGSEGV"@
    } else if sig == 12 {
        "SIGUSR2"@
    } else if sig == 13 {
        "SIGPIPE"@
    } else if sig == 14 {
        "SIGALRM"@
    } else if sig == 15 {
        "SIGTERM"@
    } else if sig == 16 {
        "SIGSTKFLT"@
    } else if sig == 17 {
        "SIGCHLD"@
    } else if sig == 18 {
        "SIGCONT"@
    } else if sig == 19 {
        "SIGSTOP"@
    } else if sig == 20 {
        "SIGTSTP"@
    } else if sig == 21 {
        "SIGTTIN"@
    } else if sig == 22 {
        "SIGTTOU"@
    } else if sig == 23 {
        "SIGURG"@
    } else if sig == 24 {
        "SIGXCPU"@
    } else if sig == 25 {
        "SIGXFSZ"@
    } else if sig == 26 {
        "SIGVTALRM"@
    } else if sig == 27 {
        "SIGPROF"@
    } else if sig == 28 {
        "SIGWINCH"@
    } else if sig == 29 {
        "SIGIO"@
    } else if sig == 30 {
        "SIGPWR"@
    } else if sig == 31 {
        "SIGSYS"@
    } else {
        dec_int(sig)
    }
}

/// Render the name of signal `sig`.
pub fn signal_name(sig: i32) -> (m: String)
    ensures
        m@ == spec_signal_name(sig as int),
{
    if sig == 1 {
        String::from_str("SIGHUP")
    } else if sig == 2 {
        String::from_str("SIGINT")
    } else if sig == 3 {
        String::from_str("SIGQUIT")
    } else if sig == 4 {
        String::from_str("SIGILL")
    } else if sig == 5 {
        String::from_str("SIGTRAP")
    } else if sig == 6 {
        String::from_str("SIGABRT")
    } else if sig == 7 {
        String::from_str("SIGBUS")
    } else if sig == 8 {
        String::from_str("SIGFPE")
    } else if sig == 9 {
        String::from_str("SIGKILL")
    } else if sig == 10 {
        String::from_str("SIGUSR1")
    } else if sig == 11 {
        String::from_str("SIGSEGV")
    } else if sig == 12 {
        String::from_str("SIGUSR2")
    } else if sig == 13 {
        String::from_str("SIGPIPE")
    } else if sig == 14 {
        String::from_str("SIGALRM")
    } else if sig == 15 {
        String::from_str("SIGTERM")
    } else if sig == 16 {
        String::from_str("SIGSTKFLT")
    } else if sig == 17 {
        String::from_str("SIGCHLD")
    } else if sig == 18 {
        String::from_str("SIGCONT")
    } else if sig == 19 {
        String::from_str("SIGSTOP")
    } else if sig == 20 {
        String::from_str("SIGTSTP")
    } else if sig == 21 {
        String::from_str("SIGTTIN")
    } else if sig == 22 {
        String::from_str("SIGTTOU")
    } else if sig == 23 {
        String::from_str("SIGURG")
    } else if sig == 24 {
        String::from_str("SIGXCPU")
    } else if sig == 25 {
        String::from_str("SIGXFSZ")
    } else if sig == 26 {
        String::from_str("SIGVTALRM")
    } else if sig == 27 {
        String::from_str("SIGPROF")
    } else if sig == 28 {
        String::from_str("SIGWINCH")
    } else if sig == 29 {
        String::from_str("SIGIO")
    } else if sig == 30 {
        String::from_str("SIGPWR")
    } else if sig == 31 {
        String::from_str("SIGSYS")
    } else {
        i32_to_dec(sig)
    }
}

/// Status line for a target halted by a signal.
pub open spec fn spec_stopped_message(pid: int, sig: int) -> Seq<char> {
    "Process "@ + dec_int(pid) + " stopped by signal "@ + spec_signal_name(sig)
}

pub fn stopped_message(pid: i32, sig: i32) -> (m: String)
    ensures
        m@ == spec_stopped_message(pid as int, sig as int),
{
    let mut s = String::from_str("Process ");
    s.append(i32_to_dec(pid).as_str());
    s.append(" stopped by signal ");
    s.append(signal_name(sig).as_str());
    s
}

/// Status line for a target that terminated with an exit status.
pub open spec fn spec_exited_message(pid: int, status: int) -> Seq<char> {
    "Process "@ + dec_int(pid) + " exited with status "@ + dec_int(status)
}

pub fn exited_message(pid: i32, status: i32) -> (m: String)
    ensures
        m@ == spec_exited_message(pid as int, status as int),
{
    let mut s = String::from_str("Process ");
    s.append(i32_to_dec(pid).as_str());
    s.append(" exited with status ");
    s.append(i32_to_dec(status).as_str());
    s
}

/// Status line for a successfully installed breakpoint.
pub open spec fn spec_breakpoint_set_message(addr: u64) -> Seq<char> {
    "Breakpoint set at address 0x"@ + hex_digits(addr as nat)
}

pub fn breakpoint_set_message(addr: u64) -> (m: String)
    ensures
        m@ == spec_breakpoint_set_message(addr),
{
    let mut s = String::from_str("Breakpoint set at address 0x");
    s.append(u64_to_hex(addr).as_str());
    s
}

/// Usage line for a malformed breakpoint command.
pub open spec fn spec_invalid_breakpoint_message() -> Seq<char> {
    "Invalid breakpoint command. Usage: break <address>"@
}

pub fn invalid_breakpoint_message() -> (m: String)
    ensures
        m@ == spec_invalid_breakpoint_message(),
{
    String::from_str("Invalid breakpoint command. Usage: break <address>")
}

/// Reply to a command line that matched nothing; `cmd` is the trimmed line.
pub open spec fn spec_unknown_command_message(cmd: Seq<char>) -> Seq<char> {
    "Unknown command: "@ + cmd
}

pub fn unknown_command_message(cmd: &str) -> (m: String)
    ensures
        m@ == spec_unknown_command_message(cmd@),
{
    let mut s = String::from_str("Unknown command: ");
    s.append(cmd);
    s
}

} // verus!
