//! The messages that the program writes to its standard error.
//!
//! A spec function says how each message reads; the function of the same name
//! with `_text` builds it.

use vstd::prelude::*;

verus! {

/// The character of a decimal digit.
pub open spec fn digit_char(digit: nat) -> char {
    (48 + digit) as char
}

/// `n` in decimal, without leading zeros.
pub open spec fn decimal(n: nat) -> Seq<char>
    decreases n,
{
    if n < 10 {
        seq![digit_char(n)]
    } else {
        decimal(n / 10).push(digit_char(n % 10))
    }
}

/// `n` in decimal, with a minus sign if it is negative.
pub open spec fn signed_decimal(n: int) -> Seq<char> {
    if n < 0 {
        "-"@ + decimal((-n) as nat)
    } else {
        decimal(n as nat)
    }
}

pub open spec fn nul_in_argument() -> Seq<char> {
    "[mc-server-init] a program argument contains a NUL byte"@
}

pub open spec fn openpty_failed(error: Seq<char>) -> Seq<char> {
    "[mc-server-init] openpty failed: "@ + error
}

pub open spec fn sigprocmask_failed(error: Seq<char>) -> Seq<char> {
    "[mc-server-init] sigprocmask failed: "@ + error
}

pub open spec fn fork_failed(error: Seq<char>) -> Seq<char> {
    "[mc-server-init] fork failed: "@ + error
}

pub open spec fn exec_failed(error: Seq<char>) -> Seq<char> {
    "[mc-server-init] exec failed: "@ + error
}

pub open spec fn signalfd_failed(error: Seq<char>) -> Seq<char> {
    "[mc-server-init] signalfd failed: "@ + error
}

pub open spec fn mkfifo_failed(path: Seq<char>, error: Seq<char>) -> Seq<char> {
    "[mc-server-init] mkfifo "@ + path + " failed: "@ + error
}

pub open spec fn supervising(pid: i32, path: Seq<char>, timeout: u64) -> Seq<char> {
    "[mc-server-init] supervising pid "@ + signed_decimal(pid as int) + " (console pipe: "@ + path
        + ", stop after "@ + decimal(timeout as nat) + "s)"@
}

/// Starts with a line feed, so that it does not land on the server's prompt.
pub open spec fn stopping(command: Seq<char>) -> Seq<char> {
    "\n[mc-server-init] stopping: sending `"@ + command + "`"@
}

pub open spec fn stop_timed_out() -> Seq<char> {
    "[mc-server-init] stop timed out; sending SIGKILL"@
}

pub open spec fn poll_error(error: Seq<char>) -> Seq<char> {
    "[mc-server-init] poll error: "@ + error
}

/// The text of a decimal digit.
fn digit_text(digit: u64) -> (text: &'static str)
    requires
        digit < 10,
    ensures
        text@ == seq![digit_char(digit as nat)],
{
    proof {
        reveal_strlit("0");
        reveal_strlit("1");
        reveal_strlit("2");
        reveal_strlit("3");
        reveal_strlit("4");
        reveal_strlit("5");
        reveal_strlit("6");
        reveal_strlit("7");
        reveal_strlit("8");
        reveal_strlit("9");
    }
    let text = match digit {
        0 => "0",
        1 => "1",
        2 => "2",
        3 => "3",
        4 => "4",
        5 => "5",
        6 => "6",
        7 => "7",
        8 => "8",
        _ => "9",
    };
    assert(text@ =~= seq![digit_char(digit as nat)]);
    text
}

/// `n` in decimal.
fn decimal_text(n: u64) -> (text: String)
    ensures
        text@ == decimal(n as nat),
    decreases n,
{
    if n < 10 {
        digit_text(n).to_owned()
    } else {
        let mut text = decimal_text(n / 10);
        text.append(digit_text(n % 10));
        assert(text@ =~= decimal(n as nat));
        text
    }
}

/// `n` in decimal, with a minus sign if it is negative.
fn signed_decimal_text(n: i32) -> (text: String)
    ensures
        text@ == signed_decimal(n as int),
{
    if n < 0 {
        let magnitude: u64 = (-(n as i64)) as u64;
        "-".to_owned().concat(decimal_text(magnitude).as_str())
    } else {
        decimal_text(n as u64)
    }
}

/// `head` followed by `tail`.
fn joined(head: &str, tail: &String) -> (text: String)
    ensures
        text@ == head@ + tail@,
{
    head.to_owned().concat(tail.as_str())
}

pub(crate) fn nul_in_argument_text() -> (text: String)
    ensures
        text@ == nul_in_argument(),
{
    "[mc-server-init] a program argument contains a NUL byte".to_owned()
}

pub(crate) fn openpty_failed_text(error: &String) -> (text: String)
    ensures
        text@ == openpty_failed(error@),
{
    joined("[mc-server-init] openpty failed: ", error)
}

pub(crate) fn sigprocmask_failed_text(error: &String) -> (text: String)
    ensures
        text@ == sigprocmask_failed(error@),
{
    joined("[mc-server-init] sigprocmask failed: ", error)
}

pub(crate) fn fork_failed_text(error: &String) -> (text: String)
    ensures
        text@ == fork_failed(error@),
{
    joined("[mc-server-init] fork failed: ", error)
}

pub(crate) fn exec_failed_text(error: &String) -> (text: String)
    ensures
        text@ == exec_failed(error@),
{
    joined("[mc-server-init] exec failed: ", error)
}

pub(crate) fn signalfd_failed_text(error: &String) -> (text: String)
    ensures
        text@ == signalfd_failed(error@),
{
    joined("[mc-server-init] signalfd failed: ", error)
}

pub(crate) fn mkfifo_failed_text(path: &String, error: &String) -> (text: String)
    ensures
        text@ == mkfifo_failed(path@, error@),
{
    joined("[mc-server-init] mkfifo ", path).concat(" failed: ").concat(error.as_str())
}

pub(crate) fn supervising_text(pid: i32, path: &String, timeout: u64) -> (text: String)
    ensures
        text@ == supervising(pid, path@, timeout),
{
    joined("[mc-server-init] supervising pid ", &signed_decimal_text(pid)).concat(
        " (console pipe: ",
    ).concat(path.as_str()).concat(", stop after ").concat(
        decimal_text(timeout).as_str(),
    ).concat("s)")
}

pub(crate) fn stopping_text(command: &String) -> (text: String)
    ensures
        text@ == stopping(command@),
{
    joined("\n[mc-server-init] stopping: sending `", command).concat("`")
}

pub(crate) fn stop_timed_out_text() -> (text: String)
    ensures
        text@ == stop_timed_out(),
{
    "[mc-server-init] stop timed out; sending SIGKILL".to_owned()
}

pub(crate) fn poll_error_text(error: &String) -> (text: String)
    ensures
        text@ == poll_error(error@),
{
    joined("[mc-server-init] poll error: ", error)
}

/// The number that decimal digits stand for.
pub open spec fn read_back(text: Seq<char>) -> int
    decreases text.len(),
{
    if text.len() == 0 {
        0
    } else {
        10 * read_back(text.drop_last()) + (text.last() as int - '0' as int)
    }
}

/// A number in decimal reads back as that number, and is written in digits that
/// do not start with a zero unless the number is 0.
pub proof fn law_decimal_reads_back(n: nat)
    ensures
        read_back(decimal(n)) == n,
        decimal(n).len() > 0,
        forall|i: int| 0 <= i < decimal(n).len() ==> '0' <= #[trigger] decimal(n)[i] <= '9',
        n > 0 ==> decimal(n)[0] != '0',
        n == 0 ==> decimal(n).len() == 1,
    decreases n,
{
    if n < 10 {
        assert(decimal(n).drop_last() =~= Seq::<char>::empty());
        assert(read_back(Seq::<char>::empty()) == 0);
    } else {
        law_decimal_reads_back(n / 10);
        assert(decimal(n).drop_last() =~= decimal(n / 10));
    }
}

/// A negative number is written as a minus sign and the number without its sign.
pub proof fn law_sign_is_written(n: int)
    ensures
        n >= 0 ==> read_back(signed_decimal(n)) == n && signed_decimal(n)[0] != '-',
        n < 0 ==> signed_decimal(n)[0] == '-' && read_back(signed_decimal(n).drop_first()) == -n,
        n < 0 ==> signed_decimal(n).drop_first() == signed_decimal(-n),
{
    reveal_strlit("-");
    if n < 0 {
        law_decimal_reads_back((-n) as nat);
        assert(signed_decimal(n).drop_first() =~= decimal((-n) as nat));
    } else {
        law_decimal_reads_back(n as nat);
    }
}

/// What a message reports is told in full: a message about an error is what it
/// is without one, and the error behind it.
pub proof fn law_errors_are_told_in_full(error: Seq<char>)
    ensures
        openpty_failed(error) == openpty_failed(Seq::empty()) + error,
        sigprocmask_failed(error) == sigprocmask_failed(Seq::empty()) + error,
        fork_failed(error) == fork_failed(Seq::empty()) + error,
        exec_failed(error) == exec_failed(Seq::empty()) + error,
        signalfd_failed(error) == signalfd_failed(Seq::empty()) + error,
        poll_error(error) == poll_error(Seq::empty()) + error,
{
    let none = Seq::<char>::empty();
    assert(openpty_failed(error) =~= openpty_failed(none) + error);
    assert(sigprocmask_failed(error) =~= sigprocmask_failed(none) + error);
    assert(fork_failed(error) =~= fork_failed(none) + error);
    assert(exec_failed(error) =~= exec_failed(none) + error);
    assert(signalfd_failed(error) =~= signalfd_failed(none) + error);
    assert(poll_error(error) =~= poll_error(none) + error);
}

/// The message about the pipe names the path and then the error, both in full.
pub proof fn law_pipe_failure_names_path_and_error(path: Seq<char>, error: Seq<char>)
    ensures
        mkfifo_failed(path, error) == mkfifo_failed(path, Seq::empty()) + error,
        mkfifo_failed(path, error) == "[mc-server-init] mkfifo "@ + (path + " failed: "@) + error,
{
    assert(mkfifo_failed(path, error) =~= mkfifo_failed(path, Seq::empty()) + error);
    assert(mkfifo_failed(path, error) =~= "[mc-server-init] mkfifo "@ + (path + " failed: "@)
        + error);
}

/// The stop is announced on a line of its own, with the command in full between
/// two backquotes.
pub proof fn law_announcement_quotes_the_command(command: Seq<char>)
    ensures
        stopping(command)[0] == '\n',
        stopping(command) == stopping(Seq::empty()).drop_last() + command + "`"@,
{
    reveal_strlit("\n[mc-server-init] stopping: sending `");
    reveal_strlit("`");
    assert(stopping(command) =~= stopping(Seq::empty()).drop_last() + command + "`"@);
}

/// The start is announced with the number of the process, the path of the pipe
/// and the timeout in seconds, each in full.
pub proof fn law_start_names_process_path_and_timeout(pid: i32, path: Seq<char>, timeout: u64)
    ensures
        ({
            let process = "[mc-server-init] supervising pid "@ + signed_decimal(pid as int);
            let place = " (console pipe: "@ + path;
            let limit = ", stop after "@ + decimal(timeout as nat) + "s)"@;
            supervising(pid, path, timeout) == process + place + limit
        }),
{
    let process = "[mc-server-init] supervising pid "@ + signed_decimal(pid as int);
    let place = " (console pipe: "@ + path;
    let limit = ", stop after "@ + decimal(timeout as nat) + "s)"@;
    assert(supervising(pid, path, timeout) =~= process + place + limit);
}

} // verus!
