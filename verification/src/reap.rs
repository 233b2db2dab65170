//! What the end of the server process means for the program's exit code.

use vstd::prelude::*;
use nix::libc;

verus! {

/// What a wait for the server process reported.
#[derive(Clone, Copy, Debug, PartialEq, Eq, Structural)]
pub enum WaitResult {
    /// The process ended by itself, with this exit code.
    Exited(i32),
    /// The process was ended by the signal with this number.
    Signaled(u8),
    /// The process has not ended: it runs, or was stopped or continued.
    Running,
    /// The wait failed.
    Failed,
}

/// The report of a wait call that returned `ret` and filled in `status`.
///
/// The call returns the number of the process that it reports of, 0 if there
/// is nothing to report yet, and less if it failed. The low seven bits of the
/// status are 0 after an exit, with the code in the next byte, and the number
/// of the signal after an end by one; with all seven set it is no end.
pub open spec fn decoded(ret: i32, status: i32) -> WaitResult {
    if ret == 0 {
        WaitResult::Running
    } else if ret < 0 {
        WaitResult::Failed
    } else if status & 0x7f == 0 {
        WaitResult::Exited((status >> 8) & 0xff)
    } else if status & 0x7f != 0x7f {
        WaitResult::Signaled((status & 0x7f) as u8)
    } else {
        WaitResult::Running
    }
}

/// `libc::WIFEXITED`: the low seven bits of the status are clear.
#[verifier::external_body]
fn wifexited(status: i32) -> (exited: bool)
    ensures
        exited == (status & 0x7f == 0),
{
    libc::WIFEXITED(status)
}

/// `libc::WEXITSTATUS`: the second byte of the status.
#[verifier::external_body]
fn wexitstatus(status: i32) -> (code: i32)
    ensures
        code == (status >> 8) & 0xff,
{
    libc::WEXITSTATUS(status)
}

/// `libc::WIFSIGNALED`: the low seven bits of the status are neither all clear
/// nor all set.
#[verifier::external_body]
fn wifsignaled(status: i32) -> (signaled: bool)
    ensures
        signaled == (status & 0x7f != 0 && status & 0x7f != 0x7f),
{
    libc::WIFSIGNALED(status)
}

/// `libc::WTERMSIG`: the low seven bits of the status.
#[verifier::external_body]
fn wtermsig(status: i32) -> (signo: i32)
    ensures
        signo == status & 0x7f,
{
    libc::WTERMSIG(status)
}

/// The report of a wait call that returned `ret` and filled in `status`.
pub fn wait_result(ret: i32, status: i32) -> (result: WaitResult)
    ensures
        result == decoded(ret, status),
{
    if ret == 0 {
        WaitResult::Running
    } else if ret < 0 {
        WaitResult::Failed
    } else if wifexited(status) {
        WaitResult::Exited(wexitstatus(status))
    } else if wifsignaled(status) {
        WaitResult::Signaled(wtermsig(status) as u8)
    } else {
        WaitResult::Running
    }
}

/// The exit code that a wait reports, if it reports the end of the process:
/// the process's own code, or 128 plus the number of the signal that ended it.
pub open spec fn exit_code(result: WaitResult) -> Option<i32> {
    match result {
        WaitResult::Exited(code) => Some(code),
        WaitResult::Signaled(signal) => Some((128 + signal) as i32),
        WaitResult::Running => None,
        WaitResult::Failed => None,
    }
}

/// The exit code that a blocking wait settles on: that of the process, or 0
/// where the wait did not report its end.
pub open spec fn settled_code(result: WaitResult) -> i32 {
    match exit_code(result) {
        Some(code) => code,
        None => 0,
    }
}

/// Judges a non-blocking wait: the exit code if the process has ended.
pub fn try_reap(result: WaitResult) -> (code: Option<i32>)
    ensures
        code == exit_code(result),
{
    match result {
        WaitResult::Exited(code) => Some(code),
        WaitResult::Signaled(signal) => Some(128 + signal as i32),
        WaitResult::Running => None,
        WaitResult::Failed => None,
    }
}

/// Judges a blocking wait: the exit code of the process, 0 if none was reported.
pub fn waitpid_blocking(result: WaitResult) -> (code: i32)
    ensures
        code == settled_code(result),
{
    match try_reap(result) {
        Some(code) => code,
        None => 0,
    }
}

/// Exit codes come through: a process that ended by itself left its code in the
/// second byte of a status whose first byte is 0, and that code is reported.
pub proof fn law_exit_code_is_decoded(ret: i32, code: i32)
    requires
        ret > 0,
        0 <= code <= 255,
    ensures
        decoded(ret, (code * 256) as i32) == WaitResult::Exited(code),
        exit_code(decoded(ret, (code * 256) as i32)) == Some(code),
        settled_code(decoded(ret, (code * 256) as i32)) == code,
{
    let status = (code * 256) as i32;
    assert(status & 0x7f == 0 && (status >> 8) & 0xff == code) by (bit_vector)
        requires
            status == code * 256,
            0 <= code <= 255,
    ;
}

/// A process that a signal ended is reported with the number of the signal,
/// whether or not it left a core file, and the exit code is 128 more.
pub proof fn law_ending_signal_is_decoded(ret: i32, signo: u8, core: bool)
    requires
        ret > 0,
        0 < signo < 127,
    ensures
        ({
            let status = if core {
                (signo + 128) as i32
            } else {
                signo as i32
            };
            &&& decoded(ret, status) == WaitResult::Signaled(signo)
            &&& exit_code(decoded(ret, status)) matches Some(code) && code == 128 + signo
            &&& settled_code(decoded(ret, status)) == 128 + signo
        }),
{
    assert((signo as i32) & 0x7f == signo && ((signo + 128) as i32) & 0x7f == signo)
        by (bit_vector)
        requires
            0 < signo < 127,
    ;
}

/// A status whose low seven bits are all set is that of a process that was
/// stopped or continued: it has not ended.
pub proof fn law_stopped_process_runs(ret: i32, rest: i32)
    requires
        ret > 0,
        0 <= rest < 0x100_0000,
    ensures
        decoded(ret, (rest * 128 + 127) as i32) == WaitResult::Running,
{
    let status = (rest * 128 + 127) as i32;
    assert(status & 0x7f == 0x7f) by (bit_vector)
        requires
            status == rest * 128 + 127,
            0 <= rest < 0x100_0000,
    ;
}

/// A wait that has nothing to report finds the process running, and one that
/// fails has failed, whatever the status.
pub proof fn law_wait_without_a_report(ret: i32, status: i32)
    requires
        ret <= 0,
    ensures
        ret == 0 ==> decoded(ret, status) == WaitResult::Running,
        ret < 0 ==> decoded(ret, status) == WaitResult::Failed,
{
}

/// An exit code is the process's own or 128 more than the signal that ended it;
/// where no end is reported there is none, and a wait without end settles on 0.
pub proof fn law_exit_codes(code: i32, signo: u8)
    ensures
        exit_code(WaitResult::Exited(code)) == Some(code),
        settled_code(WaitResult::Exited(code)) == code,
        exit_code(WaitResult::Signaled(signo)) matches Some(code) && code == 128 + signo,
        settled_code(WaitResult::Signaled(signo)) == 128 + signo,
        exit_code(WaitResult::Running) is None,
        exit_code(WaitResult::Failed) is None,
        settled_code(WaitResult::Running) == 0,
        settled_code(WaitResult::Failed) == 0,
{
}

} // verus!
