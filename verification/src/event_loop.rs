//! The supervision of a running server.
//!
//! One pass looks whether the server has ended, sleeps until something can be
//! read or the stop deadline calls, and then serves the server's output, the
//! named pipe, the standard input and the signals, in that order.
//!
//! A server may close its terminal long before it ends, so nothing but a kill
//! is followed by a wait without end: the passes go on without the terminal, a
//! second apart at most, and a stop keeps its deadline.

use vstd::prelude::*;
use crate::clock::{deadline_after, poll_timeout, sleep_until, stop_deadline, MAX_SLEEP_MILLIS};
use crate::console::{contains_etx, interrupts, stop_bytes, stop_line, strip_etx, without_etx};
use crate::poll::{
    intersects, known, reported, shares, Revents, EINTR, POLLERR, POLLHUP, POLLIN, POLLNVAL,
};
use crate::reap::{exit_code, settled_code, try_reap, waitpid_blocking, WaitResult};
use crate::signals::{asks_for, dispatch, Request, SIGKILL};
use crate::text::{
    poll_error, poll_error_text, stop_timed_out, stop_timed_out_text, stopping, stopping_text,
};
use crate::transfer::copied;
use crate::winsize::{current_winsize, is_terminal, queried, says_terminal, Winsize};

verus! {

/// Where bytes come from.
#[derive(Clone, Copy, Debug, PartialEq, Eq, Structural)]
pub enum Source {
    /// The server's side of the pseudo-terminal: what the server prints.
    Server,
    /// The named pipe for console commands.
    Pipe,
    /// The program's standard input.
    Stdin,
}

/// Where bytes go.
#[derive(Clone, Copy, Debug, PartialEq, Eq, Structural)]
pub enum Sink {
    /// The program's standard output.
    Stdout,
    /// The server's side of the pseudo-terminal: the server's console.
    Server,
}

/// What the supervision asks the program to do. `B` holds bytes and `T` text.
#[derive(Debug, PartialEq, Eq)]
pub enum Action<B, T> {
    /// Look whether the server has ended, without waiting. Answered by `Waited`.
    Reap,
    /// Wait until the server has ended. Answered by `Waited`.
    Wait,
    /// Read the clock. Answered by `Clock`.
    ReadClock,
    /// Wait for something to read from the pipe, the signal descriptor, the
    /// server if `server` is set, and the standard input if `stdin` is set,
    /// for `timeout` milliseconds or without end. Answered by `Polled` or
    /// `PollFailed`.
    Poll { server: bool, stdin: bool, timeout: Option<u16> },
    /// Do nothing for this many milliseconds. Answered by `Done`.
    Sleep(u16),
    /// Read once. Answered by `Read`.
    Read(Source),
    /// Write all of the bytes, as far as they are accepted. Answered by `Done`.
    Write(Sink, B),
    /// Write a line to the standard error. Answered by `Done`.
    Log(T),
    /// Send the signal with this number to the server. Answered by `Done`.
    Kill(i32),
    /// Read one pending signal. Answered by `Signal`.
    ReadSignal,
    /// Test whether the standard input is a terminal. Answered by `Terminal`.
    IsTerminal,
    /// Query the size of the standard input's terminal. Answered by `Winsize`.
    GetWinsize,
    /// Give the server's terminal this size. Answered by `Done`.
    SetWinsize(Winsize),
    /// Nothing more: the server is gone, and this is the exit code.
    Return(i32),
    /// Panic: the server runs, and there is no pipe to watch.
    Panic,
}

/// What the program reports of an action that it has performed.
#[derive(Debug)]
pub enum Event<B, T> {
    /// The action is done; nothing is known of its outcome.
    Done,
    /// What a wait for the server reported.
    Waited(WaitResult),
    /// A reading of the clock, in nanoseconds.
    Clock(u64),
    /// The poll returned.
    Polled(Revents),
    /// The poll failed with this error number, which the text explains.
    PollFailed(i32, T),
    /// What a read brought: nothing at the end of the input or on an error.
    Read(Option<B>),
    /// The pending signal that was read, if there was one.
    Signal(Option<i32>),
    /// What the terminal test returned.
    Terminal(i32),
    /// What the size query returned, and the size that it filled in.
    Winsize(i32, Winsize),
}

/// What comes after the stop command has been sent.
#[derive(Debug)]
pub enum Resume<B> {
    /// Pass these bytes from the standard input on, then serve the signals.
    Forward(B),
    /// Read the next pending signal.
    Signals,
}

/// Where the supervision stands: what it waits for.
#[derive(Debug)]
pub enum Phase<B, T> {
    /// The outcome of a look at the server, at the start of a pass.
    Reaping,
    /// The time, to compare with the stop deadline.
    CheckingDeadline,
    /// The overrun has been reported.
    ReportingOverrun,
    /// The server has been sent the kill signal.
    Killing,
    /// The end of the server, which has been killed.
    Waiting,
    /// The outcome of a poll with this timeout.
    Polling(Option<u16>),
    /// A sleep of this many milliseconds is over, where polls fail.
    Napping(u16),
    /// The failure of a poll, for this reason, has been reported.
    ReportingPollError(T),
    /// Output of the server.
    ReadingServer,
    /// The server's output has been passed on.
    WritingStdout(B),
    /// Commands from the pipe.
    ReadingPipe,
    /// The commands have been passed on.
    WritingPipe(B),
    /// Bytes from the standard input.
    ReadingStdin,
    /// The stop has been announced.
    AnnouncingStop(Resume<B>),
    /// The stop command has been sent.
    SendingStop(Resume<B>),
    /// The time, from which the stop deadline counts.
    TimingStop(Resume<B>),
    /// The bytes from the standard input have been passed on.
    ForwardingStdin(B),
    /// A pending signal.
    ReadingSignal,
    /// Whether the standard input is a terminal.
    AskingTerminal,
    /// The size of the standard input's terminal.
    AskingWinsize,
    /// The server's terminal has been given this size.
    Resizing(Winsize),
    /// Nothing: the server is gone.
    Finished(i32),
    /// Nothing: there is no pipe to watch.
    Stranded,
}

/// The state of the supervision. Its view is a [`LoopState`].
#[derive(Debug)]
pub struct EventLoop {
    /// Console command that stops the server.
    pub stop_command: String,
    /// Seconds that the server has to stop.
    pub stop_timeout: u64,
    /// Whether the named pipe is open.
    pub piped: bool,
    /// Whether the server's terminal is still watched.
    pub watch_server: bool,
    /// Whether the standard input is still watched.
    pub watch_stdin: bool,
    /// Whether polls work.
    pub can_poll: bool,
    /// The moment by which a stop that has begun must be over.
    pub stop_deadline: Option<u128>,
    /// What the poll of this pass reported of the pipe.
    pub pipe: i16,
    /// What the poll of this pass reported of the standard input.
    pub stdin: i16,
    /// What the poll of this pass reported of the signal descriptor.
    pub signals: i16,
    /// What is waited for.
    pub phase: Phase<Vec<u8>, String>,
}

/// The state of the supervision, over sequences.
pub struct LoopState {
    pub stop_command: Seq<char>,
    pub stop_timeout: u64,
    pub piped: bool,
    pub watch_server: bool,
    pub watch_stdin: bool,
    pub can_poll: bool,
    pub stop_deadline: Option<u128>,
    pub pipe: i16,
    pub stdin: i16,
    pub signals: i16,
    pub phase: Phase<Seq<u8>, Seq<char>>,
}

impl View for Resume<Vec<u8>> {
    type V = Resume<Seq<u8>>;

    open spec fn view(&self) -> Resume<Seq<u8>> {
        match self {
            Resume::Forward(bytes) => Resume::Forward(bytes@),
            Resume::Signals => Resume::Signals,
        }
    }
}

impl View for Phase<Vec<u8>, String> {
    type V = Phase<Seq<u8>, Seq<char>>;

    open spec fn view(&self) -> Phase<Seq<u8>, Seq<char>> {
        match self {
            Phase::Reaping => Phase::Reaping,
            Phase::CheckingDeadline => Phase::CheckingDeadline,
            Phase::ReportingOverrun => Phase::ReportingOverrun,
            Phase::Killing => Phase::Killing,
            Phase::Waiting => Phase::Waiting,
            Phase::Polling(timeout) => Phase::Polling(*timeout),
            Phase::Napping(millis) => Phase::Napping(*millis),
            Phase::ReportingPollError(error) => Phase::ReportingPollError(error@),
            Phase::ReadingServer => Phase::ReadingServer,
            Phase::WritingStdout(bytes) => Phase::WritingStdout(bytes@),
            Phase::ReadingPipe => Phase::ReadingPipe,
            Phase::WritingPipe(bytes) => Phase::WritingPipe(bytes@),
            Phase::ReadingStdin => Phase::ReadingStdin,
            Phase::AnnouncingStop(resume) => Phase::AnnouncingStop(resume@),
            Phase::SendingStop(resume) => Phase::SendingStop(resume@),
            Phase::TimingStop(resume) => Phase::TimingStop(resume@),
            Phase::ForwardingStdin(bytes) => Phase::ForwardingStdin(bytes@),
            Phase::ReadingSignal => Phase::ReadingSignal,
            Phase::AskingTerminal => Phase::AskingTerminal,
            Phase::AskingWinsize => Phase::AskingWinsize,
            Phase::Resizing(size) => Phase::Resizing(*size),
            Phase::Finished(code) => Phase::Finished(*code),
            Phase::Stranded => Phase::Stranded,
        }
    }
}

impl View for Action<Vec<u8>, String> {
    type V = Action<Seq<u8>, Seq<char>>;

    open spec fn view(&self) -> Action<Seq<u8>, Seq<char>> {
        match self {
            Action::Reap => Action::Reap,
            Action::Wait => Action::Wait,
            Action::ReadClock => Action::ReadClock,
            Action::Poll { server, stdin, timeout } => Action::Poll {
                server: *server,
                stdin: *stdin,
                timeout: *timeout,
            },
            Action::Sleep(millis) => Action::Sleep(*millis),
            Action::Read(source) => Action::Read(*source),
            Action::Write(sink, bytes) => Action::Write(*sink, bytes@),
            Action::Log(text) => Action::Log(text@),
            Action::Kill(signo) => Action::Kill(*signo),
            Action::ReadSignal => Action::ReadSignal,
            Action::IsTerminal => Action::IsTerminal,
            Action::GetWinsize => Action::GetWinsize,
            Action::SetWinsize(size) => Action::SetWinsize(*size),
            Action::Return(code) => Action::Return(*code),
            Action::Panic => Action::Panic,
        }
    }
}

/// The bytes that a read brought, as a sequence.
pub open spec fn read_view(bytes: Option<Vec<u8>>) -> Option<Seq<u8>> {
    match bytes {
        Some(bytes) => Some(bytes@),
        None => None,
    }
}

impl View for Event<Vec<u8>, String> {
    type V = Event<Seq<u8>, Seq<char>>;

    open spec fn view(&self) -> Event<Seq<u8>, Seq<char>> {
        match self {
            Event::Done => Event::Done,
            Event::Waited(result) => Event::Waited(*result),
            Event::Clock(now) => Event::Clock(*now),
            Event::Polled(revents) => Event::Polled(*revents),
            Event::PollFailed(errno, error) => Event::PollFailed(*errno, error@),
            Event::Read(bytes) => Event::Read(read_view(*bytes)),
            Event::Signal(signo) => Event::Signal(*signo),
            Event::Terminal(ret) => Event::Terminal(*ret),
            Event::Winsize(ret, size) => Event::Winsize(*ret, *size),
        }
    }
}

impl View for EventLoop {
    type V = LoopState;

    open spec fn view(&self) -> LoopState {
        LoopState {
            stop_command: self.stop_command@,
            stop_timeout: self.stop_timeout,
            piped: self.piped,
            watch_server: self.watch_server,
            watch_stdin: self.watch_stdin,
            can_poll: self.can_poll,
            stop_deadline: self.stop_deadline,
            pipe: self.pipe,
            stdin: self.stdin,
            signals: self.signals,
            phase: self.phase@,
        }
    }
}

/// The state in which the supervision of a new server starts, with the named
/// pipe open or not.
pub open spec fn start(stop_command: Seq<char>, stop_timeout: u64, piped: bool) -> LoopState {
    LoopState {
        stop_command,
        stop_timeout,
        piped,
        watch_server: true,
        watch_stdin: true,
        can_poll: true,
        stop_deadline: None,
        pipe: 0,
        stdin: 0,
        signals: 0,
        phase: Phase::Reaping,
    }
}

impl LoopState {
    /// This state, waiting for something else.
    pub open spec fn at(self, phase: Phase<Seq<u8>, Seq<char>>) -> LoopState {
        LoopState { phase, ..self }
    }

    /// The action that is to be performed in this state.
    pub open spec fn action(self) -> Action<Seq<u8>, Seq<char>> {
        match self.phase {
            Phase::Reaping => Action::Reap,
            Phase::CheckingDeadline => Action::ReadClock,
            Phase::ReportingOverrun => Action::Log(stop_timed_out()),
            Phase::Killing => Action::Kill(SIGKILL),
            Phase::Waiting => Action::Wait,
            Phase::Polling(timeout) => Action::Poll {
                server: self.watch_server,
                stdin: self.watch_stdin,
                timeout,
            },
            Phase::Napping(millis) => Action::Sleep(millis),
            Phase::ReportingPollError(error) => Action::Log(poll_error(error)),
            Phase::ReadingServer => Action::Read(Source::Server),
            Phase::WritingStdout(bytes) => Action::Write(Sink::Stdout, bytes),
            Phase::ReadingPipe => Action::Read(Source::Pipe),
            Phase::WritingPipe(bytes) => Action::Write(Sink::Server, bytes),
            Phase::ReadingStdin => Action::Read(Source::Stdin),
            Phase::AnnouncingStop(_) => Action::Log(stopping(self.stop_command)),
            Phase::SendingStop(_) => Action::Write(Sink::Server, stop_line(self.stop_command)),
            Phase::TimingStop(_) => Action::ReadClock,
            Phase::ForwardingStdin(bytes) => Action::Write(Sink::Server, bytes),
            Phase::ReadingSignal => Action::ReadSignal,
            Phase::AskingTerminal => Action::IsTerminal,
            Phase::AskingWinsize => Action::GetWinsize,
            Phase::Resizing(size) => Action::SetWinsize(size),
            Phase::Finished(code) => Action::Return(code),
            Phase::Stranded => Action::Panic,
        }
    }

    /// The exit code that a look at the server settles: the server's own if it
    /// has ended. A look that fails settles nothing while the server can still
    /// be heard, and 0 once it cannot.
    pub open spec fn look(self, result: WaitResult) -> Option<i32> {
        if result is Failed && !(self.watch_server && self.can_poll) {
            Some(settled_code(result))
        } else {
            exit_code(result)
        }
    }

    /// A look at the server reported `result`: look at the deadline if a stop is
    /// under way, and sleep, unless the server is gone. Without the pipe there
    /// is no going on.
    pub open spec fn looked(self, result: WaitResult) -> LoopState {
        match (self.look(result), self.stop_deadline) {
            (Some(code), _) => self.at(Phase::Finished(code)),
            (None, _) if !self.piped => self.at(Phase::Stranded),
            (None, Some(_)) => self.at(Phase::CheckingDeadline),
            (None, None) => self.idle(),
        }
    }

    /// No stop is under way: sleep until something can be read. The end of a
    /// server that can be heard is something to read; one that cannot be heard
    /// is looked at every second.
    pub open spec fn idle(self) -> LoopState {
        if self.watch_server && self.can_poll {
            self.at(Phase::Polling(None))
        } else {
            self.rest(MAX_SLEEP_MILLIS)
        }
    }

    /// Sleep for `millis` milliseconds, or until something can be read where
    /// polls work.
    pub open spec fn rest(self, millis: u16) -> LoopState {
        if self.can_poll {
            self.at(Phase::Polling(Some(millis)))
        } else {
            self.at(Phase::Napping(millis))
        }
    }

    /// The time is `now`: sleep until the deadline, or kill the server if it
    /// has passed.
    pub open spec fn timed(self, now: u64) -> LoopState {
        match self.stop_deadline {
            Some(deadline) => match sleep_until(deadline, now) {
                Some(millis) => self.rest(millis),
                None => self.at(Phase::ReportingOverrun),
            },
            None => self.idle(),
        }
    }

    /// The server's terminal hung up or its output ended: the server is on its
    /// way out. Its terminal is no longer watched, and the next pass looks
    /// whether it has ended.
    pub open spec fn hung_up(self) -> LoopState {
        (LoopState { watch_server: false, ..self }).at(Phase::Reaping)
    }

    /// The poll reported `revents`: serve the server first.
    pub open spec fn polled(self, revents: Revents) -> LoopState {
        let pass = LoopState {
            pipe: known(revents.pipe),
            stdin: if self.watch_stdin { known(revents.stdin) } else { 0 },
            signals: known(revents.signals),
            ..self
        };
        let server = if self.watch_server { known(revents.server) } else { 0 };
        if shares(server, POLLIN) {
            pass.at(Phase::ReadingServer)
        } else if shares(server, POLLHUP | POLLERR) {
            pass.hung_up()
        } else {
            pass.serve_pipe()
        }
    }

    /// The poll failed with the error number `errno`: start over if a signal
    /// interrupted it, and give up polling otherwise. Signals are still read.
    pub open spec fn poll_failed(self, errno: i32, error: Seq<char>) -> LoopState {
        if errno == EINTR {
            self.at(Phase::Reaping)
        } else {
            (LoopState { can_poll: false, ..self }).at(Phase::ReportingPollError(error))
        }
    }

    /// Serve the pipe, if there is something to read, or what comes after it.
    pub open spec fn serve_pipe(self) -> LoopState {
        if shares(self.pipe, POLLIN) {
            self.at(Phase::ReadingPipe)
        } else {
            self.serve_stdin()
        }
    }

    /// Serve the standard input, if there is something to read, or what comes
    /// after it. One that broke is no longer watched.
    pub open spec fn serve_stdin(self) -> LoopState {
        if shares(self.stdin, POLLIN) {
            self.at(Phase::ReadingStdin)
        } else if shares(self.stdin, POLLHUP | POLLERR | POLLNVAL) {
            (LoopState { watch_stdin: false, ..self }).serve_signals()
        } else {
            self.serve_signals()
        }
    }

    /// Serve the signals, if any is pending, or start the next pass.
    pub open spec fn serve_signals(self) -> LoopState {
        if shares(self.signals, POLLIN) {
            self.at(Phase::ReadingSignal)
        } else {
            self.at(Phase::Reaping)
        }
    }

    /// Begin a stop, unless one is under way already.
    pub open spec fn begin_stop(self, resume: Resume<Seq<u8>>) -> LoopState {
        if self.stop_deadline is None {
            self.at(Phase::AnnouncingStop(resume))
        } else {
            self.resume(resume)
        }
    }

    /// Go on with what a stop may have come between.
    pub open spec fn resume(self, resume: Resume<Seq<u8>>) -> LoopState {
        match resume {
            Resume::Forward(bytes) => if bytes.len() == 0 {
                self.serve_signals()
            } else {
                self.at(Phase::ForwardingStdin(bytes))
            },
            Resume::Signals => self.at(Phase::ReadingSignal),
        }
    }

    /// The standard input brought `bytes`: Ctrl+C begins a stop, and all other
    /// bytes are passed on.
    pub open spec fn typed(self, bytes: Seq<u8>) -> LoopState {
        let rest = Resume::Forward(without_etx(bytes));
        if interrupts(bytes) {
            self.begin_stop(rest)
        } else {
            self.resume(rest)
        }
    }

    /// The signal `signo` was pending.
    pub open spec fn signaled(self, signo: i32) -> LoopState {
        match asks_for(signo) {
            Request::Stop => self.begin_stop(Resume::Signals),
            Request::Resize => self.at(Phase::AskingTerminal),
            Request::Ignore => self.at(Phase::ReadingSignal),
        }
    }

    /// The state after `event`. An event that does not answer the action of
    /// this state changes nothing.
    pub open spec fn next(self, event: Event<Seq<u8>, Seq<char>>) -> LoopState {
        match (self.phase, event) {
            (Phase::Reaping, Event::Waited(result)) => self.looked(result),
            (Phase::CheckingDeadline, Event::Clock(now)) => self.timed(now),
            (Phase::ReportingOverrun, Event::Done) => self.at(Phase::Killing),
            (Phase::Killing, Event::Done) => self.at(Phase::Waiting),
            (Phase::Waiting, Event::Waited(result)) => self.at(
                Phase::Finished(settled_code(result)),
            ),
            (Phase::Polling(_), Event::Polled(revents)) => self.polled(revents),
            (Phase::Polling(_), Event::PollFailed(errno, error)) => self.poll_failed(errno, error),
            (Phase::Napping(_), Event::Done) => self.at(Phase::ReadingSignal),
            (Phase::ReportingPollError(_), Event::Done) => self.at(Phase::Reaping),
            (Phase::ReadingServer, Event::Read(Some(bytes))) => self.at(
                Phase::WritingStdout(bytes),
            ),
            (Phase::ReadingServer, Event::Read(None)) => self.hung_up(),
            (Phase::WritingStdout(_), Event::Done) => self.serve_pipe(),
            (Phase::ReadingPipe, Event::Read(Some(bytes))) => self.at(Phase::WritingPipe(bytes)),
            (Phase::ReadingPipe, Event::Read(None)) => self.serve_stdin(),
            (Phase::WritingPipe(_), Event::Done) => self.serve_stdin(),
            (Phase::ReadingStdin, Event::Read(Some(bytes))) => self.typed(bytes),
            (Phase::ReadingStdin, Event::Read(None)) => (LoopState {
                watch_stdin: false,
                ..self
            }).serve_signals(),
            (Phase::AnnouncingStop(resume), Event::Done) => self.at(Phase::SendingStop(resume)),
            (Phase::SendingStop(resume), Event::Done) => self.at(Phase::TimingStop(resume)),
            (Phase::TimingStop(resume), Event::Clock(now)) => (LoopState {
                stop_deadline: Some(deadline_after(now, self.stop_timeout)),
                ..self
            }).resume(resume),
            (Phase::ForwardingStdin(_), Event::Done) => self.serve_signals(),
            (Phase::ReadingSignal, Event::Signal(Some(signo))) => self.signaled(signo),
            (Phase::ReadingSignal, Event::Signal(None)) => self.at(Phase::Reaping),
            (Phase::AskingTerminal, Event::Terminal(ret)) => if says_terminal(ret) {
                self.at(Phase::AskingWinsize)
            } else {
                self.at(Phase::ReadingSignal)
            },
            (Phase::AskingWinsize, Event::Winsize(ret, size)) => match queried(ret, size) {
                Some(size) => self.at(Phase::Resizing(size)),
                None => self.at(Phase::ReadingSignal),
            },
            (Phase::Resizing(_), Event::Done) => self.at(Phase::ReadingSignal),
            _ => self,
        }
    }
}

impl EventLoop {
    /// Starts to supervise a server that `stop_command` stops, which may take
    /// `stop_timeout` seconds; `piped` says whether the named pipe is open.
    pub fn new(stop_command: String, stop_timeout: u64, piped: bool) -> (event_loop: EventLoop)
        ensures
            event_loop@ == start(stop_command@, stop_timeout, piped),
    {
        EventLoop {
            stop_command,
            stop_timeout,
            piped,
            watch_server: true,
            watch_stdin: true,
            can_poll: true,
            stop_deadline: None,
            pipe: 0,
            stdin: 0,
            signals: 0,
            phase: Phase::Reaping,
        }
    }

    /// The action that is to be performed next.
    pub fn action(&self) -> (action: Action<Vec<u8>, String>)
        ensures
            action@ == self@.action(),
    {
        match &self.phase {
            Phase::Reaping => Action::Reap,
            Phase::CheckingDeadline => Action::ReadClock,
            Phase::ReportingOverrun => Action::Log(stop_timed_out_text()),
            Phase::Killing => Action::Kill(SIGKILL),
            Phase::Waiting => Action::Wait,
            Phase::Polling(timeout) => Action::Poll {
                server: self.watch_server,
                stdin: self.watch_stdin,
                timeout: *timeout,
            },
            Phase::Napping(millis) => Action::Sleep(*millis),
            Phase::ReportingPollError(error) => Action::Log(poll_error_text(error)),
            Phase::ReadingServer => Action::Read(Source::Server),
            Phase::WritingStdout(bytes) => Action::Write(Sink::Stdout, copied(bytes.as_slice())),
            Phase::ReadingPipe => Action::Read(Source::Pipe),
            Phase::WritingPipe(bytes) => Action::Write(Sink::Server, copied(bytes.as_slice())),
            Phase::ReadingStdin => Action::Read(Source::Stdin),
            Phase::AnnouncingStop(_) => Action::Log(stopping_text(&self.stop_command)),
            Phase::SendingStop(_) => Action::Write(Sink::Server, stop_bytes(&self.stop_command)),
            Phase::TimingStop(_) => Action::ReadClock,
            Phase::ForwardingStdin(bytes) => Action::Write(Sink::Server, copied(bytes.as_slice())),
            Phase::ReadingSignal => Action::ReadSignal,
            Phase::AskingTerminal => Action::IsTerminal,
            Phase::AskingWinsize => Action::GetWinsize,
            Phase::Resizing(size) => Action::SetWinsize(*size),
            Phase::Finished(code) => Action::Return(*code),
            Phase::Stranded => Action::Panic,
        }
    }

    fn at(self, phase: Phase<Vec<u8>, String>) -> (next: EventLoop)
        ensures
            next@ == self@.at(phase@),
    {
        EventLoop { phase, ..self }
    }

    fn look(&self, result: WaitResult) -> (code: Option<i32>)
        ensures
            code == self@.look(result),
    {
        match result {
            WaitResult::Failed if !(self.watch_server && self.can_poll) => Some(
                waitpid_blocking(result),
            ),
            _ => try_reap(result),
        }
    }

    fn looked(self, result: WaitResult) -> (next: EventLoop)
        ensures
            next@ == self@.looked(result),
    {
        match (self.look(result), self.stop_deadline) {
            (Some(code), _) => self.at(Phase::Finished(code)),
            (None, _) if !self.piped => self.at(Phase::Stranded),
            (None, Some(_)) => self.at(Phase::CheckingDeadline),
            (None, None) => self.idle(),
        }
    }

    fn idle(self) -> (next: EventLoop)
        ensures
            next@ == self@.idle(),
    {
        if self.watch_server && self.can_poll {
            self.at(Phase::Polling(None))
        } else {
            self.rest(MAX_SLEEP_MILLIS)
        }
    }

    fn rest(self, millis: u16) -> (next: EventLoop)
        ensures
            next@ == self@.rest(millis),
    {
        if self.can_poll {
            self.at(Phase::Polling(Some(millis)))
        } else {
            self.at(Phase::Napping(millis))
        }
    }

    fn hung_up(self) -> (next: EventLoop)
        ensures
            next@ == self@.hung_up(),
    {
        (EventLoop { watch_server: false, ..self }).at(Phase::Reaping)
    }

    fn timed(self, now: u64) -> (next: EventLoop)
        ensures
            next@ == self@.timed(now),
    {
        match self.stop_deadline {
            Some(deadline) => match poll_timeout(deadline, now) {
                Some(millis) => self.rest(millis),
                None => self.at(Phase::ReportingOverrun),
            },
            None => self.idle(),
        }
    }

    fn polled(self, revents: Revents) -> (next: EventLoop)
        ensures
            next@ == self@.polled(revents),
    {
        let pass = EventLoop {
            pipe: reported(revents.pipe),
            stdin: if self.watch_stdin { reported(revents.stdin) } else { 0 },
            signals: reported(revents.signals),
            ..self
        };
        let server = if pass.watch_server { reported(revents.server) } else { 0 };
        if intersects(server, POLLIN) {
            pass.at(Phase::ReadingServer)
        } else if intersects(server, POLLHUP | POLLERR) {
            pass.hung_up()
        } else {
            pass.serve_pipe()
        }
    }

    fn poll_failed(self, errno: i32, error: String) -> (next: EventLoop)
        ensures
            next@ == self@.poll_failed(errno, error@),
    {
        if errno == EINTR {
            self.at(Phase::Reaping)
        } else {
            (EventLoop { can_poll: false, ..self }).at(Phase::ReportingPollError(error))
        }
    }

    fn serve_pipe(self) -> (next: EventLoop)
        ensures
            next@ == self@.serve_pipe(),
    {
        if intersects(self.pipe, POLLIN) {
            self.at(Phase::ReadingPipe)
        } else {
            self.serve_stdin()
        }
    }

    fn serve_stdin(self) -> (next: EventLoop)
        ensures
            next@ == self@.serve_stdin(),
    {
        if intersects(self.stdin, POLLIN) {
            self.at(Phase::ReadingStdin)
        } else if intersects(self.stdin, POLLHUP | POLLERR | POLLNVAL) {
            (EventLoop { watch_stdin: false, ..self }).serve_signals()
        } else {
            self.serve_signals()
        }
    }

    fn serve_signals(self) -> (next: EventLoop)
        ensures
            next@ == self@.serve_signals(),
    {
        if intersects(self.signals, POLLIN) {
            self.at(Phase::ReadingSignal)
        } else {
            self.at(Phase::Reaping)
        }
    }

    fn begin_stop(self, resume: Resume<Vec<u8>>) -> (next: EventLoop)
        ensures
            next@ == self@.begin_stop(resume@),
    {
        match self.stop_deadline {
            None => self.at(Phase::AnnouncingStop(resume)),
            Some(_) => self.resume(resume),
        }
    }

    fn resume(self, resume: Resume<Vec<u8>>) -> (next: EventLoop)
        ensures
            next@ == self@.resume(resume@),
    {
        match resume {
            Resume::Forward(bytes) => if bytes.len() == 0 {
                self.serve_signals()
            } else {
                self.at(Phase::ForwardingStdin(bytes))
            },
            Resume::Signals => self.at(Phase::ReadingSignal),
        }
    }

    fn typed(self, bytes: Vec<u8>) -> (next: EventLoop)
        ensures
            next@ == self@.typed(bytes@),
    {
        let rest = Resume::Forward(strip_etx(&bytes));
        if contains_etx(&bytes) {
            self.begin_stop(rest)
        } else {
            self.resume(rest)
        }
    }

    fn signaled(self, signo: i32) -> (next: EventLoop)
        ensures
            next@ == self@.signaled(signo),
    {
        match dispatch(signo) {
            Request::Stop => self.begin_stop(Resume::Signals),
            Request::Resize => self.at(Phase::AskingTerminal),
            Request::Ignore => self.at(Phase::ReadingSignal),
        }
    }

    /// Takes note of an event and moves on. An event that does not answer the
    /// current action changes nothing.
    pub fn step(self, event: Event<Vec<u8>, String>) -> (next: EventLoop)
        ensures
            next@ == self@.next(event@),
    {
        let EventLoop {
            stop_command,
            stop_timeout,
            piped,
            watch_server,
            watch_stdin,
            can_poll,
            stop_deadline: deadline,
            pipe,
            stdin,
            signals,
            phase,
        } = self;
        let here = EventLoop {
            stop_command,
            stop_timeout,
            piped,
            watch_server,
            watch_stdin,
            can_poll,
            stop_deadline: deadline,
            pipe,
            stdin,
            signals,
            phase: Phase::Reaping,
        };
        match (phase, event) {
            (Phase::Reaping, Event::Waited(result)) => here.looked(result),
            (Phase::CheckingDeadline, Event::Clock(now)) => here.timed(now),
            (Phase::ReportingOverrun, Event::Done) => here.at(Phase::Killing),
            (Phase::Killing, Event::Done) => here.at(Phase::Waiting),
            (Phase::Waiting, Event::Waited(result)) => here.at(
                Phase::Finished(waitpid_blocking(result)),
            ),
            (Phase::Polling(_), Event::Polled(revents)) => here.polled(revents),
            (Phase::Polling(_), Event::PollFailed(errno, error)) => here.poll_failed(errno, error),
            (Phase::Napping(_), Event::Done) => here.at(Phase::ReadingSignal),
            (Phase::ReportingPollError(_), Event::Done) => here.at(Phase::Reaping),
            (Phase::ReadingServer, Event::Read(Some(bytes))) => here.at(
                Phase::WritingStdout(bytes),
            ),
            (Phase::ReadingServer, Event::Read(None)) => here.hung_up(),
            (Phase::WritingStdout(_), Event::Done) => here.serve_pipe(),
            (Phase::ReadingPipe, Event::Read(Some(bytes))) => here.at(Phase::WritingPipe(bytes)),
            (Phase::ReadingPipe, Event::Read(None)) => here.serve_stdin(),
            (Phase::WritingPipe(_), Event::Done) => here.serve_stdin(),
            (Phase::ReadingStdin, Event::Read(Some(bytes))) => here.typed(bytes),
            (Phase::ReadingStdin, Event::Read(None)) => (EventLoop {
                watch_stdin: false,
                ..here
            }).serve_signals(),
            (Phase::AnnouncingStop(resume), Event::Done) => here.at(Phase::SendingStop(resume)),
            (Phase::SendingStop(resume), Event::Done) => here.at(Phase::TimingStop(resume)),
            (Phase::TimingStop(resume), Event::Clock(now)) => (EventLoop {
                stop_deadline: Some(stop_deadline(now, stop_timeout)),
                ..here
            }).resume(resume),
            (Phase::ForwardingStdin(_), Event::Done) => here.serve_signals(),
            (Phase::ReadingSignal, Event::Signal(Some(signo))) => here.signaled(signo),
            (Phase::ReadingSignal, Event::Signal(None)) => here.at(Phase::Reaping),
            (Phase::AskingTerminal, Event::Terminal(ret)) => if is_terminal(ret) {
                here.at(Phase::AskingWinsize)
            } else {
                here.at(Phase::ReadingSignal)
            },
            (Phase::AskingWinsize, Event::Winsize(ret, size)) => match current_winsize(ret, size) {
                Some(size) => here.at(Phase::Resizing(size)),
                None => here.at(Phase::ReadingSignal),
            },
            (Phase::Resizing(_), Event::Done) => here.at(Phase::ReadingSignal),
            (phase, _) => here.at(phase),
        }
    }
}

} // verus!
