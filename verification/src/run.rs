//! The whole life of the program: it sets the terminal and the signals up,
//! starts the server in a child process, supervises it and tidies up.

use vstd::prelude::*;
use vstd::utf8::encode_utf8;
use crate::args::{byte_strings, c_strings, copied_all, encoded, free_of_nul, Cli, CliView};
use crate::event_loop::{start, Action, Event, EventLoop, LoopState, Phase};
use crate::text::{
    exec_failed, exec_failed_text, fork_failed, fork_failed_text, mkfifo_failed, mkfifo_failed_text,
    nul_in_argument, nul_in_argument_text, openpty_failed, openpty_failed_text, signalfd_failed,
    signalfd_failed_text, sigprocmask_failed, sigprocmask_failed_text, supervising,
    supervising_text,
};
use crate::winsize::{
    current_winsize, initial_winsize, is_terminal, or_fallback, queried, says_terminal, Winsize,
};

verus! {

/// Standard error: the highest of the standard descriptors.
pub const STDERR_FILENO: i32 = 2;

/// Permissions of the named pipe: only its owner reads and writes it.
pub const PIPE_MODE: u32 = 0o600;

/// Flags that the named pipe is opened with: for reading and writing, so that it
/// never reaches its end; not inherited by other programs; without blocking.
pub const PIPE_FLAGS: i32 = 0o2004002;

/// Exit code where the arguments cannot be used.
pub const EXIT_USAGE: i32 = 2;

/// Exit code where the set-up failed.
pub const EXIT_FAILURE: i32 = 1;

/// Exit code of a child that could not become the server.
pub const EXIT_NOT_EXECUTED: i32 = 127;

/// What the program is asked to do. `B` holds bytes, `T` text and `A` the
/// arguments of a program.
#[derive(Debug, PartialEq, Eq)]
pub enum RunAction<B, T, A> {
    /// Write a line to the standard error. Answered by `Done`.
    Log(T),
    /// Test whether the standard input is a terminal. Answered by `Returned`.
    IsTerminal,
    /// Query the size of the standard input's terminal. Answered by `Winsize`.
    GetWinsize,
    /// Open a pseudo-terminal of this size. Answered by `PtyOpened` or `Failed`.
    OpenPty(Winsize),
    /// Block the managed signals. Answered by `Done` or `Failed`.
    BlockSignals,
    /// Split into two processes. Answered by `InChild` and `InParent`, one in
    /// each, or by `Failed`.
    Fork,
    /// Become the leader of a new session. Answered by `Done`.
    NewSession,
    /// Make the pseudo-terminal's inner side the controlling terminal.
    /// Answered by `Done`.
    TakeTerminal,
    /// Make this descriptor the pseudo-terminal's inner side. Answered by `Done`.
    Redirect(i32),
    /// Close the inner side of the pseudo-terminal. Answered by `Done`.
    CloseInner,
    /// Close the outer side of the pseudo-terminal. Answered by `Done`.
    CloseOuter,
    /// Block no signals at all. Answered by `Done`.
    UnblockSignals,
    /// Become the program that the first argument names. Answered, if at all,
    /// by `Failed`.
    Exec(A),
    /// End the process at once with this code.
    ExitNow(i32),
    /// Open the descriptor that the managed signals are read from. Answered by
    /// `Done` or `Failed`.
    OpenSignals,
    /// Wait until the server has ended. Answered by `Done`.
    WaitChild,
    /// Remove the file at this path, if there is one. Answered by `Done`.
    RemovePipe(T),
    /// Make a named pipe at this path, with these permissions. Answered by
    /// `Done` or `Failed`.
    MakePipe(T, u32),
    /// Open the named pipe at this path, with these flags. Answered by `Done` or
    /// `Failed`.
    OpenPipe(T, i32),
    /// Read the mode of the standard input's terminal and keep it. Answered by
    /// `Returned`.
    GetTermios,
    /// Put the standard input's terminal into raw mode. Answered by `Returned`.
    SetRaw,
    /// Give the standard input's terminal the mode that was kept. Answered by
    /// `Done`.
    RestoreTermios,
    /// Do what the supervision asks for. Answered by `Supervised`.
    Supervise(Action<B, T>),
    /// End the program with this code.
    Exit(i32),
}

/// What the program reports of an action that it has performed.
#[derive(Debug)]
pub enum RunEvent<B, T> {
    /// The action is done; nothing else is known of its outcome.
    Done,
    /// The action failed, for the reason that the text names.
    Failed(T),
    /// What a call returned.
    Returned(i32),
    /// What the size query returned, and the size that it filled in.
    Winsize(i32, Winsize),
    /// The pseudo-terminal is open, and this is the descriptor of its inner side.
    PtyOpened(i32),
    /// This is the child process.
    InChild,
    /// This is the parent process, of a child with this number.
    InParent(i32),
    /// What became of an action of the supervision.
    Supervised(Event<B, T>),
}

/// Where the program stands: what it waits for. `L` is the supervision.
#[derive(Debug)]
pub enum RunPhase<T, L> {
    /// The text has been reported; the program ends with the code.
    Reporting(T, i32),
    /// Whether the standard input is a terminal, whose size to copy.
    AskingTerminal,
    /// The size of the standard input's terminal.
    AskingWinsize,
    /// A pseudo-terminal of this size.
    OpeningPty(Winsize),
    /// The managed signals are blocked.
    BlockingSignals,
    /// The process has been split.
    Forking,
    /// In the child: it has its own session.
    LeadingSession,
    /// In the child: it has a controlling terminal.
    TakingTerminal,
    /// In the child: this standard descriptor is redirected.
    Redirecting(i32),
    /// In the child: the spare descriptor of the inner side is closed.
    ClosingSpare,
    /// In the child: the outer side is closed.
    ClosingOuter,
    /// In the child: no signal is blocked.
    Unblocking,
    /// In the child: it has failed to become the server.
    Executing,
    /// In the child: the failure, for this reason, has been reported.
    ReportingExec(T),
    /// In the child: it is over.
    Quitting,
    /// The inner side of the pseudo-terminal is closed.
    ClosingInner,
    /// The descriptor for signals is open.
    OpeningSignals,
    /// The failure to open it, for this reason, has been reported.
    ReportingSignals(T),
    /// The server has ended, unsupervised.
    Abandoning,
    /// What an earlier run may have left at the pipe's path is removed.
    RemovingStale,
    /// The pipe is made.
    MakingPipe,
    /// The failure to make it, for this reason, has been reported.
    ReportingPipe(T),
    /// The pipe is open.
    OpeningPipe,
    /// Whether the standard input is a terminal, to put into raw mode.
    AskingStdin,
    /// The terminal's mode is kept.
    GettingTermios,
    /// The terminal is in raw mode.
    SettingRaw,
    /// The start of the supervision has been reported.
    ReportingStart,
    /// The next event of the supervision.
    Supervising(L),
    /// The terminal has its mode back; the program ends with the code.
    Restoring(i32),
    /// The pipe is removed; the program ends with the code.
    RemovingPipe(i32),
    /// Nothing: the program is over.
    Exited(i32),
}

/// The state of the program. Its view is a [`RunState`].
#[derive(Debug)]
pub struct Run {
    /// The command line.
    pub cli: Cli,
    /// The program arguments as the bytes of C strings.
    pub args: Vec<Vec<u8>>,
    /// The descriptor of the pseudo-terminal's inner side.
    pub inner_fd: i32,
    /// The number of the server's process.
    pub pid: i32,
    /// Whether the named pipe is open.
    pub piped: bool,
    /// Whether the standard input's terminal is in raw mode.
    pub raw: bool,
    /// What is waited for.
    pub phase: RunPhase<String, EventLoop>,
}

/// The state of the program, over sequences.
pub struct RunState {
    pub cli: CliView,
    pub args: Seq<Seq<u8>>,
    pub inner_fd: i32,
    pub pid: i32,
    pub piped: bool,
    pub raw: bool,
    pub phase: RunPhase<Seq<char>, LoopState>,
}

impl View for RunAction<Vec<u8>, String, Vec<Vec<u8>>> {
    type V = RunAction<Seq<u8>, Seq<char>, Seq<Seq<u8>>>;

    open spec fn view(&self) -> RunAction<Seq<u8>, Seq<char>, Seq<Seq<u8>>> {
        match self {
            RunAction::Log(text) => RunAction::Log(text@),
            RunAction::IsTerminal => RunAction::IsTerminal,
            RunAction::GetWinsize => RunAction::GetWinsize,
            RunAction::OpenPty(size) => RunAction::OpenPty(*size),
            RunAction::BlockSignals => RunAction::BlockSignals,
            RunAction::Fork => RunAction::Fork,
            RunAction::NewSession => RunAction::NewSession,
            RunAction::TakeTerminal => RunAction::TakeTerminal,
            RunAction::Redirect(fd) => RunAction::Redirect(*fd),
            RunAction::CloseInner => RunAction::CloseInner,
            RunAction::CloseOuter => RunAction::CloseOuter,
            RunAction::UnblockSignals => RunAction::UnblockSignals,
            RunAction::Exec(args) => RunAction::Exec(byte_strings(args@)),
            RunAction::ExitNow(code) => RunAction::ExitNow(*code),
            RunAction::OpenSignals => RunAction::OpenSignals,
            RunAction::WaitChild => RunAction::WaitChild,
            RunAction::RemovePipe(path) => RunAction::RemovePipe(path@),
            RunAction::MakePipe(path, mode) => RunAction::MakePipe(path@, *mode),
            RunAction::OpenPipe(path, flags) => RunAction::OpenPipe(path@, *flags),
            RunAction::GetTermios => RunAction::GetTermios,
            RunAction::SetRaw => RunAction::SetRaw,
            RunAction::RestoreTermios => RunAction::RestoreTermios,
            RunAction::Supervise(action) => RunAction::Supervise(action@),
            RunAction::Exit(code) => RunAction::Exit(*code),
        }
    }
}

impl View for RunEvent<Vec<u8>, String> {
    type V = RunEvent<Seq<u8>, Seq<char>>;

    open spec fn view(&self) -> RunEvent<Seq<u8>, Seq<char>> {
        match self {
            RunEvent::Done => RunEvent::Done,
            RunEvent::Failed(error) => RunEvent::Failed(error@),
            RunEvent::Returned(ret) => RunEvent::Returned(*ret),
            RunEvent::Winsize(ret, size) => RunEvent::Winsize(*ret, *size),
            RunEvent::PtyOpened(fd) => RunEvent::PtyOpened(*fd),
            RunEvent::InChild => RunEvent::InChild,
            RunEvent::InParent(pid) => RunEvent::InParent(*pid),
            RunEvent::Supervised(event) => RunEvent::Supervised(event@),
        }
    }
}

impl View for RunPhase<String, EventLoop> {
    type V = RunPhase<Seq<char>, LoopState>;

    open spec fn view(&self) -> RunPhase<Seq<char>, LoopState> {
        match self {
            RunPhase::Reporting(text, code) => RunPhase::Reporting(text@, *code),
            RunPhase::AskingTerminal => RunPhase::AskingTerminal,
            RunPhase::AskingWinsize => RunPhase::AskingWinsize,
            RunPhase::OpeningPty(size) => RunPhase::OpeningPty(*size),
            RunPhase::BlockingSignals => RunPhase::BlockingSignals,
            RunPhase::Forking => RunPhase::Forking,
            RunPhase::LeadingSession => RunPhase::LeadingSession,
            RunPhase::TakingTerminal => RunPhase::TakingTerminal,
            RunPhase::Redirecting(fd) => RunPhase::Redirecting(*fd),
            RunPhase::ClosingSpare => RunPhase::ClosingSpare,
            RunPhase::ClosingOuter => RunPhase::ClosingOuter,
            RunPhase::Unblocking => RunPhase::Unblocking,
            RunPhase::Executing => RunPhase::Executing,
            RunPhase::ReportingExec(error) => RunPhase::ReportingExec(error@),
            RunPhase::Quitting => RunPhase::Quitting,
            RunPhase::ClosingInner => RunPhase::ClosingInner,
            RunPhase::OpeningSignals => RunPhase::OpeningSignals,
            RunPhase::ReportingSignals(error) => RunPhase::ReportingSignals(error@),
            RunPhase::Abandoning => RunPhase::Abandoning,
            RunPhase::RemovingStale => RunPhase::RemovingStale,
            RunPhase::MakingPipe => RunPhase::MakingPipe,
            RunPhase::ReportingPipe(error) => RunPhase::ReportingPipe(error@),
            RunPhase::OpeningPipe => RunPhase::OpeningPipe,
            RunPhase::AskingStdin => RunPhase::AskingStdin,
            RunPhase::GettingTermios => RunPhase::GettingTermios,
            RunPhase::SettingRaw => RunPhase::SettingRaw,
            RunPhase::ReportingStart => RunPhase::ReportingStart,
            RunPhase::Supervising(event_loop) => RunPhase::Supervising(event_loop@),
            RunPhase::Restoring(code) => RunPhase::Restoring(*code),
            RunPhase::RemovingPipe(code) => RunPhase::RemovingPipe(*code),
            RunPhase::Exited(code) => RunPhase::Exited(*code),
        }
    }
}

impl View for Run {
    type V = RunState;

    open spec fn view(&self) -> RunState {
        RunState {
            cli: self.cli@,
            args: byte_strings(self.args@),
            inner_fd: self.inner_fd,
            pid: self.pid,
            piped: self.piped,
            raw: self.raw,
            phase: self.phase@,
        }
    }
}

/// The state in which the program starts: arguments that no C string can carry
/// are rejected, and otherwise the terminal's size is asked for.
pub open spec fn begin(cli: CliView) -> RunState {
    let usable = free_of_nul(cli.argv);
    RunState {
        cli,
        args: if usable { encoded(cli.argv) } else { Seq::empty() },
        inner_fd: (-1) as i32,
        pid: 0,
        piped: false,
        raw: false,
        phase: if usable {
            RunPhase::AskingTerminal
        } else {
            RunPhase::Reporting(nul_in_argument(), EXIT_USAGE)
        },
    }
}

impl RunState {
    /// This state, waiting for something else.
    pub open spec fn at(self, phase: RunPhase<Seq<char>, LoopState>) -> RunState {
        RunState { phase, ..self }
    }

    /// The action that is to be performed in this state.
    pub open spec fn action(self) -> RunAction<Seq<u8>, Seq<char>, Seq<Seq<u8>>> {
        let path = self.cli.console_pipe;
        match self.phase {
            RunPhase::Reporting(text, _) => RunAction::Log(text),
            RunPhase::AskingTerminal => RunAction::IsTerminal,
            RunPhase::AskingWinsize => RunAction::GetWinsize,
            RunPhase::OpeningPty(size) => RunAction::OpenPty(size),
            RunPhase::BlockingSignals => RunAction::BlockSignals,
            RunPhase::Forking => RunAction::Fork,
            RunPhase::LeadingSession => RunAction::NewSession,
            RunPhase::TakingTerminal => RunAction::TakeTerminal,
            RunPhase::Redirecting(fd) => RunAction::Redirect(fd),
            RunPhase::ClosingSpare => RunAction::CloseInner,
            RunPhase::ClosingOuter => RunAction::CloseOuter,
            RunPhase::Unblocking => RunAction::UnblockSignals,
            RunPhase::Executing => RunAction::Exec(self.args),
            RunPhase::ReportingExec(error) => RunAction::Log(exec_failed(error)),
            RunPhase::Quitting => RunAction::ExitNow(EXIT_NOT_EXECUTED),
            RunPhase::ClosingInner => RunAction::CloseInner,
            RunPhase::OpeningSignals => RunAction::OpenSignals,
            RunPhase::ReportingSignals(error) => RunAction::Log(signalfd_failed(error)),
            RunPhase::Abandoning => RunAction::WaitChild,
            RunPhase::RemovingStale => RunAction::RemovePipe(path),
            RunPhase::MakingPipe => RunAction::MakePipe(path, PIPE_MODE),
            RunPhase::ReportingPipe(error) => RunAction::Log(mkfifo_failed(path, error)),
            RunPhase::OpeningPipe => RunAction::OpenPipe(path, PIPE_FLAGS),
            RunPhase::AskingStdin => RunAction::IsTerminal,
            RunPhase::GettingTermios => RunAction::GetTermios,
            RunPhase::SettingRaw => RunAction::SetRaw,
            RunPhase::ReportingStart => RunAction::Log(
                supervising(self.pid, path, self.cli.stop_timeout),
            ),
            RunPhase::Supervising(event_loop) => RunAction::Supervise(event_loop.action()),
            RunPhase::Restoring(_) => RunAction::RestoreTermios,
            RunPhase::RemovingPipe(_) => RunAction::RemovePipe(path),
            RunPhase::Exited(code) => RunAction::Exit(code),
        }
    }

    /// Report `text` and end with `code`.
    pub open spec fn fail(self, text: Seq<char>, code: i32) -> RunState {
        self.at(RunPhase::Reporting(text, code))
    }

    /// Open a pseudo-terminal of the size of the program's own terminal.
    pub open spec fn sized(self, size: Option<Winsize>) -> RunState {
        self.at(RunPhase::OpeningPty(or_fallback(size)))
    }

    /// Go on redirecting the standard descriptors after `fd`. Then close the
    /// inner side's own descriptor, unless it is one of them.
    pub open spec fn redirected(self, fd: i32) -> RunState {
        if fd < STDERR_FILENO {
            self.at(RunPhase::Redirecting((fd + 1) as i32))
        } else if self.inner_fd > STDERR_FILENO {
            self.at(RunPhase::ClosingSpare)
        } else {
            self.at(RunPhase::ClosingOuter)
        }
    }

    /// Supervise the server from here on.
    pub open spec fn supervise(self) -> RunState {
        self.at(
            RunPhase::Supervising(
                start(self.cli.stop_command, self.cli.stop_timeout, self.piped),
            ),
        )
    }

    /// The supervision has moved on: tidy up if it is over.
    pub open spec fn supervised(self, event_loop: LoopState) -> RunState {
        match event_loop.phase {
            Phase::Finished(code) => if self.raw {
                self.at(RunPhase::Restoring(code))
            } else {
                self.at(RunPhase::RemovingPipe(code))
            },
            _ => self.at(RunPhase::Supervising(event_loop)),
        }
    }

    /// The state after `event`. An event that does not answer the action of
    /// this state changes nothing.
    pub open spec fn next(self, event: RunEvent<Seq<u8>, Seq<char>>) -> RunState {
        match (self.phase, event) {
            (RunPhase::Reporting(_, code), RunEvent::Done) => self.at(RunPhase::Exited(code)),
            (RunPhase::AskingTerminal, RunEvent::Returned(ret)) => if says_terminal(ret) {
                self.at(RunPhase::AskingWinsize)
            } else {
                self.sized(None)
            },
            (RunPhase::AskingWinsize, RunEvent::Winsize(ret, size)) => self.sized(
                queried(ret, size),
            ),
            (RunPhase::OpeningPty(_), RunEvent::PtyOpened(fd)) => (RunState {
                inner_fd: fd,
                ..self
            }).at(RunPhase::BlockingSignals),
            (RunPhase::OpeningPty(_), RunEvent::Failed(error)) => self.fail(
                openpty_failed(error),
                EXIT_FAILURE,
            ),
            (RunPhase::BlockingSignals, RunEvent::Done) => self.at(RunPhase::Forking),
            (RunPhase::BlockingSignals, RunEvent::Failed(error)) => self.fail(
                sigprocmask_failed(error),
                EXIT_FAILURE,
            ),
            (RunPhase::Forking, RunEvent::InChild) => self.at(RunPhase::LeadingSession),
            (RunPhase::Forking, RunEvent::InParent(pid)) => (RunState { pid, ..self }).at(
                RunPhase::ClosingInner,
            ),
            (RunPhase::Forking, RunEvent::Failed(error)) => self.fail(
                fork_failed(error),
                EXIT_FAILURE,
            ),
            (RunPhase::LeadingSession, RunEvent::Done) => self.at(RunPhase::TakingTerminal),
            (RunPhase::TakingTerminal, RunEvent::Done) => self.at(RunPhase::Redirecting(0)),
            (RunPhase::Redirecting(fd), RunEvent::Done) => self.redirected(fd),
            (RunPhase::ClosingSpare, RunEvent::Done) => self.at(RunPhase::ClosingOuter),
            (RunPhase::ClosingOuter, RunEvent::Done) => self.at(RunPhase::Unblocking),
            (RunPhase::Unblocking, RunEvent::Done) => self.at(RunPhase::Executing),
            (RunPhase::Executing, RunEvent::Failed(error)) => self.at(
                RunPhase::ReportingExec(error),
            ),
            (RunPhase::ReportingExec(_), RunEvent::Done) => self.at(RunPhase::Quitting),
            (RunPhase::ClosingInner, RunEvent::Done) => self.at(RunPhase::OpeningSignals),
            (RunPhase::OpeningSignals, RunEvent::Done) => self.at(RunPhase::RemovingStale),
            (RunPhase::OpeningSignals, RunEvent::Failed(error)) => self.at(
                RunPhase::ReportingSignals(error),
            ),
            (RunPhase::ReportingSignals(_), RunEvent::Done) => self.at(RunPhase::Abandoning),
            (RunPhase::Abandoning, RunEvent::Done) => self.at(RunPhase::Exited(EXIT_FAILURE)),
            (RunPhase::RemovingStale, RunEvent::Done) => self.at(RunPhase::MakingPipe),
            (RunPhase::MakingPipe, RunEvent::Done) => self.at(RunPhase::OpeningPipe),
            (RunPhase::MakingPipe, RunEvent::Failed(error)) => self.at(
                RunPhase::ReportingPipe(error),
            ),
            (RunPhase::ReportingPipe(_), RunEvent::Done) => self.at(RunPhase::OpeningPipe),
            (RunPhase::OpeningPipe, RunEvent::Done) => (RunState { piped: true, ..self }).at(
                RunPhase::AskingStdin,
            ),
            (RunPhase::OpeningPipe, RunEvent::Failed(_)) => (RunState { piped: false, ..self }).at(
                RunPhase::AskingStdin,
            ),
            (RunPhase::AskingStdin, RunEvent::Returned(ret)) => if says_terminal(ret) {
                self.at(RunPhase::GettingTermios)
            } else {
                self.at(RunPhase::ReportingStart)
            },
            (RunPhase::GettingTermios, RunEvent::Returned(ret)) => if ret == 0 {
                self.at(RunPhase::SettingRaw)
            } else {
                self.at(RunPhase::ReportingStart)
            },
            (RunPhase::SettingRaw, RunEvent::Returned(ret)) => (RunState {
                raw: ret == 0,
                ..self
            }).at(RunPhase::ReportingStart),
            (RunPhase::ReportingStart, RunEvent::Done) => self.supervise(),
            (RunPhase::Supervising(event_loop), RunEvent::Supervised(event)) => self.supervised(
                event_loop.next(event),
            ),
            (RunPhase::Restoring(code), RunEvent::Done) => self.at(RunPhase::RemovingPipe(code)),
            (RunPhase::RemovingPipe(code), RunEvent::Done) => self.at(RunPhase::Exited(code)),
            _ => self,
        }
    }
}

impl Run {
    /// Starts the program with the values of its command line.
    pub fn new(cli: Cli) -> (run: Run)
        requires
            cli@.argv.len() > 0,
            free_of_nul(cli@.argv) ==> !encode_utf8(cli@.console_pipe).contains(0u8),
        ensures
            run@ == begin(cli@),
    {
        match c_strings(&cli.argv) {
            Ok(args) => Run {
                cli,
                args,
                inner_fd: -1,
                pid: 0,
                piped: false,
                raw: false,
                phase: RunPhase::AskingTerminal,
            },
            Err(_) => {
                let args: Vec<Vec<u8>> = Vec::new();
                assert(byte_strings(args@) =~= Seq::<Seq<u8>>::empty());
                Run {
                    cli,
                    args,
                    inner_fd: -1,
                    pid: 0,
                    piped: false,
                    raw: false,
                    phase: RunPhase::Reporting(nul_in_argument_text(), EXIT_USAGE),
                }
            },
        }
    }

    /// The action that is to be performed next.
    pub fn action(&self) -> (action: RunAction<Vec<u8>, String, Vec<Vec<u8>>>)
        ensures
            action@ == self@.action(),
    {
        let path = &self.cli.console_pipe;
        match &self.phase {
            RunPhase::Reporting(text, _) => RunAction::Log(text.clone()),
            RunPhase::AskingTerminal => RunAction::IsTerminal,
            RunPhase::AskingWinsize => RunAction::GetWinsize,
            RunPhase::OpeningPty(size) => RunAction::OpenPty(*size),
            RunPhase::BlockingSignals => RunAction::BlockSignals,
            RunPhase::Forking => RunAction::Fork,
            RunPhase::LeadingSession => RunAction::NewSession,
            RunPhase::TakingTerminal => RunAction::TakeTerminal,
            RunPhase::Redirecting(fd) => RunAction::Redirect(*fd),
            RunPhase::ClosingSpare => RunAction::CloseInner,
            RunPhase::ClosingOuter => RunAction::CloseOuter,
            RunPhase::Unblocking => RunAction::UnblockSignals,
            RunPhase::Executing => RunAction::Exec(copied_all(&self.args)),
            RunPhase::ReportingExec(error) => RunAction::Log(exec_failed_text(error)),
            RunPhase::Quitting => RunAction::ExitNow(EXIT_NOT_EXECUTED),
            RunPhase::ClosingInner => RunAction::CloseInner,
            RunPhase::OpeningSignals => RunAction::OpenSignals,
            RunPhase::ReportingSignals(error) => RunAction::Log(signalfd_failed_text(error)),
            RunPhase::Abandoning => RunAction::WaitChild,
            RunPhase::RemovingStale => RunAction::RemovePipe(path.clone()),
            RunPhase::MakingPipe => RunAction::MakePipe(path.clone(), PIPE_MODE),
            RunPhase::ReportingPipe(error) => RunAction::Log(mkfifo_failed_text(path, error)),
            RunPhase::OpeningPipe => RunAction::OpenPipe(path.clone(), PIPE_FLAGS),
            RunPhase::AskingStdin => RunAction::IsTerminal,
            RunPhase::GettingTermios => RunAction::GetTermios,
            RunPhase::SettingRaw => RunAction::SetRaw,
            RunPhase::ReportingStart => RunAction::Log(
                supervising_text(self.pid, path, self.cli.stop_timeout),
            ),
            RunPhase::Supervising(event_loop) => RunAction::Supervise(event_loop.action()),
            RunPhase::Restoring(_) => RunAction::RestoreTermios,
            RunPhase::RemovingPipe(_) => RunAction::RemovePipe(path.clone()),
            RunPhase::Exited(code) => RunAction::Exit(*code),
        }
    }

    fn at(self, phase: RunPhase<String, EventLoop>) -> (next: Run)
        ensures
            next@ == self@.at(phase@),
    {
        Run { phase, ..self }
    }

    fn fail(self, text: String, code: i32) -> (next: Run)
        ensures
            next@ == self@.fail(text@, code),
    {
        self.at(RunPhase::Reporting(text, code))
    }

    fn sized(self, size: Option<Winsize>) -> (next: Run)
        ensures
            next@ == self@.sized(size),
    {
        self.at(RunPhase::OpeningPty(initial_winsize(size)))
    }

    fn redirected(self, fd: i32) -> (next: Run)
        ensures
            next@ == self@.redirected(fd),
    {
        if fd < STDERR_FILENO {
            self.at(RunPhase::Redirecting(fd + 1))
        } else if self.inner_fd > STDERR_FILENO {
            self.at(RunPhase::ClosingSpare)
        } else {
            self.at(RunPhase::ClosingOuter)
        }
    }

    fn supervise(self) -> (next: Run)
        ensures
            next@ == self@.supervise(),
    {
        let event_loop = EventLoop::new(
            self.cli.stop_command.clone(),
            self.cli.stop_timeout,
            self.piped,
        );
        self.at(RunPhase::Supervising(event_loop))
    }

    fn supervised(self, event_loop: EventLoop) -> (next: Run)
        ensures
            next@ == self@.supervised(event_loop@),
    {
        if let Phase::Finished(code) = event_loop.phase {
            if self.raw {
                self.at(RunPhase::Restoring(code))
            } else {
                self.at(RunPhase::RemovingPipe(code))
            }
        } else {
            self.at(RunPhase::Supervising(event_loop))
        }
    }

    /// Takes note of an event and moves on. An event that does not answer the
    /// current action changes nothing.
    pub fn step(self, event: RunEvent<Vec<u8>, String>) -> (next: Run)
        ensures
            next@ == self@.next(event@),
    {
        let Run { cli, args, inner_fd, pid, piped, raw, phase } = self;
        let here = Run { cli, args, inner_fd, pid, piped, raw, phase: RunPhase::AskingTerminal };
        match (phase, event) {
            (RunPhase::Reporting(_, code), RunEvent::Done) => here.at(RunPhase::Exited(code)),
            (RunPhase::AskingTerminal, RunEvent::Returned(ret)) => if is_terminal(ret) {
                here.at(RunPhase::AskingWinsize)
            } else {
                here.sized(None)
            },
            (RunPhase::AskingWinsize, RunEvent::Winsize(ret, size)) => here.sized(
                current_winsize(ret, size),
            ),
            (RunPhase::OpeningPty(_), RunEvent::PtyOpened(fd)) => (Run {
                inner_fd: fd,
                ..here
            }).at(RunPhase::BlockingSignals),
            (RunPhase::OpeningPty(_), RunEvent::Failed(error)) => here.fail(
                openpty_failed_text(&error),
                EXIT_FAILURE,
            ),
            (RunPhase::BlockingSignals, RunEvent::Done) => here.at(RunPhase::Forking),
            (RunPhase::BlockingSignals, RunEvent::Failed(error)) => here.fail(
                sigprocmask_failed_text(&error),
                EXIT_FAILURE,
            ),
            (RunPhase::Forking, RunEvent::InChild) => here.at(RunPhase::LeadingSession),
            (RunPhase::Forking, RunEvent::InParent(pid)) => (Run { pid, ..here }).at(
                RunPhase::ClosingInner,
            ),
            (RunPhase::Forking, RunEvent::Failed(error)) => here.fail(
                fork_failed_text(&error),
                EXIT_FAILURE,
            ),
            (RunPhase::LeadingSession, RunEvent::Done) => here.at(RunPhase::TakingTerminal),
            (RunPhase::TakingTerminal, RunEvent::Done) => here.at(RunPhase::Redirecting(0)),
            (RunPhase::Redirecting(fd), RunEvent::Done) => here.redirected(fd),
            (RunPhase::ClosingSpare, RunEvent::Done) => here.at(RunPhase::ClosingOuter),
            (RunPhase::ClosingOuter, RunEvent::Done) => here.at(RunPhase::Unblocking),
            (RunPhase::Unblocking, RunEvent::Done) => here.at(RunPhase::Executing),
            (RunPhase::Executing, RunEvent::Failed(error)) => here.at(
                RunPhase::ReportingExec(error),
            ),
            (RunPhase::ReportingExec(_), RunEvent::Done) => here.at(RunPhase::Quitting),
            (RunPhase::ClosingInner, RunEvent::Done) => here.at(RunPhase::OpeningSignals),
            (RunPhase::OpeningSignals, RunEvent::Done) => here.at(RunPhase::RemovingStale),
            (RunPhase::OpeningSignals, RunEvent::Failed(error)) => here.at(
                RunPhase::ReportingSignals(error),
            ),
            (RunPhase::ReportingSignals(_), RunEvent::Done) => here.at(RunPhase::Abandoning),
            (RunPhase::Abandoning, RunEvent::Done) => here.at(RunPhase::Exited(EXIT_FAILURE)),
            (RunPhase::RemovingStale, RunEvent::Done) => here.at(RunPhase::MakingPipe),
            (RunPhase::MakingPipe, RunEvent::Done) => here.at(RunPhase::OpeningPipe),
            (RunPhase::MakingPipe, RunEvent::Failed(error)) => here.at(
                RunPhase::ReportingPipe(error),
            ),
            (RunPhase::ReportingPipe(_), RunEvent::Done) => here.at(RunPhase::OpeningPipe),
            (RunPhase::OpeningPipe, RunEvent::Done) => (Run { piped: true, ..here }).at(
                RunPhase::AskingStdin,
            ),
            (RunPhase::OpeningPipe, RunEvent::Failed(_)) => (Run { piped: false, ..here }).at(
                RunPhase::AskingStdin,
            ),
            (RunPhase::AskingStdin, RunEvent::Returned(ret)) => if is_terminal(ret) {
                here.at(RunPhase::GettingTermios)
            } else {
                here.at(RunPhase::ReportingStart)
            },
            (RunPhase::GettingTermios, RunEvent::Returned(ret)) => if ret == 0 {
                here.at(RunPhase::SettingRaw)
            } else {
                here.at(RunPhase::ReportingStart)
            },
            (RunPhase::SettingRaw, RunEvent::Returned(ret)) => (Run {
                raw: ret == 0,
                ..here
            }).at(RunPhase::ReportingStart),
            (RunPhase::ReportingStart, RunEvent::Done) => here.supervise(),
            (RunPhase::Supervising(event_loop), RunEvent::Supervised(event)) => here.supervised(
                event_loop.step(event),
            ),
            (RunPhase::Restoring(code), RunEvent::Done) => here.at(RunPhase::RemovingPipe(code)),
            (RunPhase::RemovingPipe(code), RunEvent::Done) => here.at(RunPhase::Exited(code)),
            (phase, _) => here.at(phase),
        }
    }
}

} // verus!
