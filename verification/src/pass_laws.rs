//! What one pass of the supervision owes to whom.
//!
//! A pass begins with a look at the server. The poll in it reports who has
//! something to read, and all of them are served before the next pass begins.

use vstd::prelude::*;
use crate::event_loop::{start, Action, Event, LoopState, Phase, Resume, Source};
use crate::loop_laws::{
    after, flagged, last_reading, lemma_stop_state, lemma_stop_time, loses_server, stop_requested,
    stop_time, Entry,
};
use crate::poll::{known, law_masks_add_up, shares, POLLERR, POLLHUP, POLLIN, POLLNVAL};

verus! {

/// Whether `event` is an outcome that `action` can have.
pub open spec fn answers(action: Action<Seq<u8>, Seq<char>>, event: Entry) -> bool {
    match event {
        Event::Done => match action {
            Action::Sleep(_) => true,
            Action::Write(_, _) => true,
            Action::Log(_) => true,
            Action::Kill(_) => true,
            Action::SetWinsize(_) => true,
            _ => false,
        },
        Event::Waited(_) => action is Reap || action is Wait,
        Event::Clock(_) => action is ReadClock,
        Event::Polled(_) => action is Poll,
        Event::PollFailed(_, _) => action is Poll,
        Event::Read(_) => action is Read,
        Event::Signal(_) => action is ReadSignal,
        Event::Terminal(_) => action is IsTerminal,
        Event::Winsize(_, _) => action is GetWinsize,
    }
}

/// An event that is no outcome of the current action changes nothing.
pub proof fn law_stray_events_change_nothing(state: LoopState, event: Entry)
    requires
        !answers(state.action(), event),
    ensures
        state.next(event) == state,
{
}

/// How many actions a pass has ahead of it at most, signals aside.
pub open spec fn steps_ahead(phase: Phase<Seq<u8>, Seq<char>>) -> nat {
    match phase {
        Phase::Reaping => 21,
        Phase::CheckingDeadline => 20,
        Phase::Polling(_) => 19,
        Phase::Napping(_) => 19,
        Phase::ReportingPollError(_) => 18,
        Phase::ReadingServer => 18,
        Phase::WritingStdout(_) => 17,
        Phase::ReadingPipe => 16,
        Phase::WritingPipe(_) => 15,
        Phase::ReadingStdin => 14,
        Phase::AnnouncingStop(Resume::Forward(_)) => 13,
        Phase::SendingStop(Resume::Forward(_)) => 12,
        Phase::TimingStop(Resume::Forward(_)) => 11,
        Phase::ForwardingStdin(_) => 10,
        Phase::AnnouncingStop(Resume::Signals) => 9,
        Phase::SendingStop(Resume::Signals) => 8,
        Phase::TimingStop(Resume::Signals) => 7,
        Phase::AskingTerminal => 6,
        Phase::AskingWinsize => 5,
        Phase::Resizing(_) => 4,
        Phase::ReadingSignal => 3,
        Phase::ReportingOverrun => 3,
        Phase::Killing => 2,
        Phase::Waiting => 1,
        Phase::Finished(_) => 0,
        Phase::Stranded => 0,
    }
}

/// No pass goes on for ever: every outcome of an action brings the pass nearer
/// to its end or begins the next one, but for a pending signal, which is served
/// before the next one is read.
pub proof fn law_every_answer_moves_on(state: LoopState, event: Entry)
    requires
        answers(state.action(), event),
        !(event matches Event::Signal(Some(_))),
    ensures
        state.next(event).phase is Reaping || steps_ahead(state.next(event).phase) < steps_ahead(
            state.phase,
        ),
{
}

/// Whose reports of this pass are still to be served.
pub struct Owed {
    pub server: bool,
    pub pipe: bool,
    pub stdin: bool,
    pub signals: bool,
}

/// Nobody.
pub open spec fn nobody() -> Owed {
    Owed { server: false, pipe: false, stdin: false, signals: false }
}

/// Who is still to be served after `history`: whoever the poll reported to have
/// something to read, until it is read, and the signals until none is pending.
/// After a sleep in place of a poll the signals are served. Once the server's
/// terminal is lost, nobody is served in this pass.
pub open spec fn owed(state: LoopState, history: Seq<Entry>) -> Owed
    decreases history.len(),
{
    if history.len() == 0 {
        nobody()
    } else {
        let before = after(state, history.drop_last());
        let earlier = owed(state, history.drop_last());
        match (before.action(), history.last()) {
            (Action::Poll { server, stdin, .. }, Event::Polled(revents)) => if loses_server(
                before,
                history.last(),
            ) {
                nobody()
            } else {
                Owed {
                    server: server && flagged(revents.server, POLLIN),
                    pipe: flagged(revents.pipe, POLLIN),
                    stdin: stdin && flagged(revents.stdin, POLLIN),
                    signals: flagged(revents.signals, POLLIN),
                }
            },
            (Action::Sleep(_), Event::Done) => Owed { signals: true, ..nobody() },
            (Action::Read(Source::Server), Event::Read(Some(_))) => Owed {
                server: false,
                ..earlier
            },
            (Action::Read(Source::Server), Event::Read(None)) => nobody(),
            (Action::Read(Source::Pipe), Event::Read(_)) => Owed { pipe: false, ..earlier },
            (Action::Read(Source::Stdin), Event::Read(_)) => Owed { stdin: false, ..earlier },
            (Action::ReadSignal, Event::Signal(None)) => Owed { signals: false, ..earlier },
            _ => earlier,
        }
    }
}

/// How the state keeps who is still to be served.
spec fn keeps_owed(state: LoopState, owed: Owed) -> bool {
    let pipe = shares(state.pipe, POLLIN);
    let stdin = shares(state.stdin, POLLIN);
    let signals = shares(state.signals, POLLIN);
    owed == match state.phase {
        Phase::ReadingServer => Owed { server: true, pipe, stdin, signals },
        Phase::WritingStdout(_) => Owed { server: false, pipe, stdin, signals },
        Phase::ReadingPipe => Owed { server: false, pipe: true, stdin, signals },
        Phase::WritingPipe(_) => Owed { server: false, pipe: false, stdin, signals },
        Phase::ReadingStdin => Owed { server: false, pipe: false, stdin: true, signals },
        Phase::AnnouncingStop(Resume::Forward(_)) => Owed { signals, ..nobody() },
        Phase::SendingStop(Resume::Forward(_)) => Owed { signals, ..nobody() },
        Phase::TimingStop(Resume::Forward(_)) => Owed { signals, ..nobody() },
        Phase::ForwardingStdin(_) => Owed { signals, ..nobody() },
        Phase::AnnouncingStop(Resume::Signals) => Owed { signals: true, ..nobody() },
        Phase::SendingStop(Resume::Signals) => Owed { signals: true, ..nobody() },
        Phase::TimingStop(Resume::Signals) => Owed { signals: true, ..nobody() },
        Phase::ReadingSignal => Owed { signals: true, ..nobody() },
        Phase::AskingTerminal => Owed { signals: true, ..nobody() },
        Phase::AskingWinsize => Owed { signals: true, ..nobody() },
        Phase::Resizing(_) => Owed { signals: true, ..nobody() },
        _ => nobody(),
    }
}

/// What a poll reports is what the state makes of it.
proof fn lemma_flags(revents: Option<i16>)
    ensures
        flagged(revents, POLLIN) <==> shares(known(revents), POLLIN),
        flagged(revents, POLLHUP) || flagged(revents, POLLERR) <==> shares(
            known(revents),
            POLLHUP | POLLERR,
        ),
        flagged(revents, POLLHUP) || flagged(revents, POLLERR) || flagged(revents, POLLNVAL)
            <==> shares(known(revents), POLLHUP | POLLERR | POLLNVAL),
        !shares(0, POLLIN),
        !shares(0, POLLHUP | POLLERR),
        !shares(0, POLLHUP | POLLERR | POLLNVAL),
{
    law_masks_add_up(known(revents), POLLHUP, POLLERR);
    law_masks_add_up(known(revents), POLLHUP | POLLERR, POLLNVAL);
    assert(forall|mask: i16| 0i16 & mask == 0) by (bit_vector);
}

proof fn lemma_owed(command: Seq<char>, timeout: u64, piped: bool, history: Seq<Entry>)
    ensures
        keeps_owed(
            after(start(command, timeout, piped), history),
            owed(start(command, timeout, piped), history),
        ),
    decreases history.len(),
{
    if history.len() > 0 {
        lemma_owed(command, timeout, piped, history.drop_last());
        if let Event::Polled(revents) = history.last() {
            lemma_flags(revents.server);
            lemma_flags(revents.pipe);
            lemma_flags(revents.stdin);
            lemma_flags(revents.signals);
        }
    }
}

/// Everyone who has something to read is served before the next pass begins:
/// neither what the server printed, nor a command from the pipe, nor typed
/// input, nor a pending signal is passed over, whatever else was served or is no
/// longer watched. And they are served in that order, and nobody else is.
pub proof fn law_whoever_is_ready_is_served(
    command: Seq<char>,
    timeout: u64,
    piped: bool,
    history: Seq<Entry>,
)
    ensures
        ({
            let due = owed(start(command, timeout, piped), history);
            match after(start(command, timeout, piped), history).action() {
                Action::Read(Source::Server) => due.server,
                Action::Read(Source::Pipe) => due.pipe && !due.server,
                Action::Read(Source::Stdin) => due.stdin && !due.pipe && !due.server,
                Action::ReadSignal => due == (Owed { signals: true, ..nobody() }),
                Action::Reap => due == nobody(),
                Action::Poll { .. } => due == nobody(),
                Action::Sleep(_) => due == nobody(),
                Action::Wait => due == nobody(),
                Action::Kill(_) => due == nobody(),
                _ => true,
            }
        }),
{
    lemma_owed(command, timeout, piped, history);
}

/// Whether the server's terminal was lost.
pub open spec fn server_lost(state: LoopState, history: Seq<Entry>) -> bool
    decreases history.len(),
{
    history.len() > 0 && (server_lost(state, history.drop_last()) || loses_server(
        after(state, history.drop_last()),
        history.last(),
    ))
}

/// Whether polls have failed for another reason than a signal.
pub open spec fn polls_failed(state: LoopState, history: Seq<Entry>) -> bool
    decreases history.len(),
{
    history.len() > 0 && (polls_failed(state, history.drop_last()) || (after(
        state,
        history.drop_last(),
    ).action() is Poll && (history.last() matches Event::PollFailed(errno, _) && errno != 4)))
}

/// Whether the last poll reported that the standard input broke, with nothing
/// left to read, and the server's terminal was not lost in that pass.
pub open spec fn stdin_breaks(state: LoopState, history: Seq<Entry>) -> bool
    decreases history.len(),
{
    history.len() > 0 && match (after(state, history.drop_last()).action(), history.last()) {
        (Action::Poll { stdin, .. }, Event::Polled(revents)) => {
            &&& stdin
            &&& !loses_server(after(state, history.drop_last()), history.last())
            &&& !flagged(revents.stdin, POLLIN)
            &&& flagged(revents.stdin, POLLHUP) || flagged(revents.stdin, POLLERR) || flagged(
                revents.stdin,
                POLLNVAL,
            )
        },
        (Action::Read(Source::Server), Event::Read(None)) => false,
        _ => stdin_breaks(state, history.drop_last()),
    }
}

/// Whether the standard input was at its end in a read, or had broken by the end
/// of a pass.
pub open spec fn stdin_ended(state: LoopState, history: Seq<Entry>) -> bool
    decreases history.len(),
{
    history.len() > 0 && match (after(state, history.drop_last()).action(), history.last()) {
        (Action::Read(Source::Stdin), Event::Read(None)) => true,
        (Action::Reap, Event::Waited(_)) => stdin_ended(state, history.drop_last())
            || stdin_breaks(state, history.drop_last()),
        _ => stdin_ended(state, history.drop_last()),
    }
}

/// How the state keeps what is still watched.
spec fn keeps_watch(state: LoopState, lost: bool, failed: bool, breaks: bool, ended: bool) -> bool {
    &&& state.watch_server == !lost
    &&& state.can_poll == !failed
    &&& match state.phase {
        Phase::ReadingServer => state.watch_stdin == !ended && breaks_later(state, breaks),
        Phase::WritingStdout(_) => state.watch_stdin == !ended && breaks_later(state, breaks),
        Phase::ReadingPipe => state.watch_stdin == !ended && breaks_later(state, breaks),
        Phase::WritingPipe(_) => state.watch_stdin == !ended && breaks_later(state, breaks),
        Phase::CheckingDeadline => state.watch_stdin == !ended && (breaks ==> ended),
        Phase::Polling(_) => state.watch_stdin == !ended && (breaks ==> ended) && !failed,
        Phase::Napping(_) => state.watch_stdin == !ended && (breaks ==> ended) && failed,
        _ => state.watch_stdin == !(ended || breaks),
    }
}

spec fn breaks_later(state: LoopState, breaks: bool) -> bool {
    breaks <==> !shares(state.stdin, POLLIN) && shares(state.stdin, POLLHUP | POLLERR | POLLNVAL)
}

proof fn lemma_watch(command: Seq<char>, timeout: u64, piped: bool, history: Seq<Entry>)
    ensures
        ({
            let state = start(command, timeout, piped);
            keeps_watch(
                after(state, history),
                server_lost(state, history),
                polls_failed(state, history),
                stdin_breaks(state, history),
                stdin_ended(state, history),
            )
        }),
    decreases history.len(),
{
    if history.len() > 0 {
        lemma_watch(command, timeout, piped, history.drop_last());
        if let Event::Polled(revents) = history.last() {
            lemma_flags(revents.server);
            lemma_flags(revents.stdin);
        }
    }
}

/// A poll watches the server's terminal until it is lost and the standard input
/// until it ends or breaks, and never stops watching one of them before. Only
/// where polls fail the supervision sleeps instead.
pub proof fn law_poll_watches_what_is_left(
    command: Seq<char>,
    timeout: u64,
    piped: bool,
    history: Seq<Entry>,
)
    ensures
        ({
            let state = start(command, timeout, piped);
            let action = after(state, history).action();
            &&& action matches Action::Poll { server, stdin, .. } ==> {
                &&& server == !server_lost(state, history)
                &&& stdin == !stdin_ended(state, history)
                &&& !polls_failed(state, history)
            }
            &&& action is Sleep ==> polls_failed(state, history)
        }),
{
    lemma_watch(command, timeout, piped, history);
}

/// Whether the clock was read to compare it with the deadline of a stop.
spec fn has_compared(state: LoopState, reading: Option<u64>) -> bool {
    let left = state.stop_deadline->0 - reading->0;
    match state.phase {
        Phase::Polling(Some(millis)) => state.stop_deadline is Some ==> {
            &&& reading is Some
            &&& 0 < left
            &&& millis == if left < 1_000_000_000 { left / 1_000_000 } else { 1000 }
        },
        Phase::Napping(millis) => if state.stop_deadline is Some {
            &&& reading is Some
            &&& 0 < left
            &&& millis == if left < 1_000_000_000 { left / 1_000_000 } else { 1000 }
        } else {
            millis == 1000
        },
        _ => true,
    }
}

proof fn lemma_compared(command: Seq<char>, timeout: u64, piped: bool, history: Seq<Entry>)
    ensures
        ({
            let state = start(command, timeout, piped);
            let now = after(state, history);
            &&& has_compared(now, last_reading(state, history))
            &&& now.phase matches Phase::Polling(Some(millis)) ==> (now.stop_deadline is None
                ==> millis == 1000)
        }),
    decreases history.len(),
{
    if history.len() > 0 {
        lemma_compared(command, timeout, piped, history.drop_last());
        lemma_stop_state(command, timeout, piped, history.drop_last());
    }
}

/// How long the supervision waits: without a stop for ever while the server's
/// terminal is watched, and for a second otherwise; with a stop until the
/// timeout after it, counted from the last reading of the clock, in whole
/// milliseconds, and for a second at most.
pub proof fn law_waits_are_exact(
    command: Seq<char>,
    timeout: u64,
    piped: bool,
    history: Seq<Entry>,
)
    ensures
        ({
            let state = start(command, timeout, piped);
            let stopping = stop_requested(state, history);
            let left = stop_time(state, history)->0 + timeout * 1_000_000_000 - last_reading(
                state,
                history,
            )->0;
            let exact = if !stopping {
                1000
            } else if left < 1_000_000_000 {
                left / 1_000_000
            } else {
                1000
            };
            match after(state, history).action() {
                Action::Poll { timeout: None, .. } => !stopping && !server_lost(state, history),
                Action::Poll { timeout: Some(millis), .. } => {
                    &&& stopping || server_lost(state, history)
                    &&& stopping ==> 0 < left
                    &&& millis == exact
                },
                Action::Sleep(millis) => {
                    &&& stopping ==> 0 < left
                    &&& millis == exact
                },
                _ => true,
            }
        }),
{
    lemma_compared(command, timeout, piped, history);
    lemma_watch(command, timeout, piped, history);
    lemma_stop_state(command, timeout, piped, history);
    lemma_stop_time(command, timeout, piped, history);
}

} // verus!
