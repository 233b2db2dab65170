//! What holds of every course that a supervision can take.
//!
//! A history is the sequence of the events that were handed to a supervision
//! since it started.

use vstd::prelude::*;
use vstd::utf8::encode_utf8;
use crate::clock::{
    deadline_after, law_sleep_ends_by_deadline, sleep_until, MAX_SLEEP_MILLIS, NANOS_PER_MILLI,
    NANOS_PER_SEC,
};
use crate::console::{law_ctrl_c_is_never_forwarded, stop_line, without_etx, ETX};
use crate::event_loop::{start, Action, Event, EventLoop, LoopState, Phase, Resume, Sink, Source};
use crate::poll::{known, law_masks_add_up, shares, POLLERR, POLLHUP, POLLIN, POLLNVAL};
use crate::reap::WaitResult;
use crate::signals::SIGKILL;
use crate::text::{poll_error, stop_timed_out, stopping};
use crate::winsize::Winsize;

verus! {

/// An event of a history.
pub type Entry = Event<Seq<u8>, Seq<char>>;

/// The state that `history` leads to from `state`.
pub open spec fn after(state: LoopState, history: Seq<Entry>) -> LoopState
    decreases history.len(),
{
    if history.len() == 0 {
        state
    } else {
        after(state, history.drop_last()).next(history.last())
    }
}

/// Whether `event`, in `state`, asks for a stop: Ctrl+C typed on the standard
/// input, or one of the signals that end a program.
pub open spec fn asks_to_stop(state: LoopState, event: Entry) -> bool {
    match (state.action(), event) {
        (Action::Read(Source::Stdin), Event::Read(Some(bytes))) => bytes.contains(3u8),
        (Action::ReadSignal, Event::Signal(Some(signo))) => signo == 2 || signo == 15,
        _ => false,
    }
}

/// Whether a stop was asked for.
pub open spec fn stop_requested(state: LoopState, history: Seq<Entry>) -> bool
    decreases history.len(),
{
    history.len() > 0 && (stop_requested(state, history.drop_last()) || asks_to_stop(
        after(state, history.drop_last()),
        history.last(),
    ))
}

/// The bytes that the program finished writing to `sink`.
pub open spec fn written(state: LoopState, history: Seq<Entry>, sink: Sink) -> Seq<u8>
    decreases history.len(),
{
    if history.len() == 0 {
        Seq::empty()
    } else {
        written(state, history.drop_last(), sink) + match (
            after(state, history.drop_last()).action(),
            history.last(),
        ) {
            (Action::Write(to, bytes), Event::Done) if to == sink => bytes,
            _ => Seq::empty(),
        }
    }
}

/// The bytes that the program read from the server.
pub open spec fn server_output(state: LoopState, history: Seq<Entry>) -> Seq<u8>
    decreases history.len(),
{
    if history.len() == 0 {
        Seq::empty()
    } else {
        server_output(state, history.drop_last()) + match (
            after(state, history.drop_last()).action(),
            history.last(),
        ) {
            (Action::Read(Source::Server), Event::Read(Some(bytes))) => bytes,
            _ => Seq::empty(),
        }
    }
}

/// What `event` adds to the input of the server's console: the bytes from the
/// pipe as they are, the bytes from the standard input without Ctrl+C, and
/// the stop line where a stop is asked for that was not asked for before.
pub open spec fn console_share(state: LoopState, requested: bool, event: Entry) -> Seq<u8> {
    let stop = if asks_to_stop(state, event) && !requested {
        encode_utf8(state.stop_command).push(10u8)
    } else {
        Seq::empty()
    };
    match (state.action(), event) {
        (Action::Read(Source::Pipe), Event::Read(Some(bytes))) => bytes,
        (Action::Read(Source::Stdin), Event::Read(Some(bytes))) => stop + without_etx(bytes),
        _ => stop,
    }
}

/// The whole input of the server's console.
pub open spec fn console_input(state: LoopState, history: Seq<Entry>) -> Seq<u8>
    decreases history.len(),
{
    if history.len() == 0 {
        Seq::empty()
    } else {
        let earlier = history.drop_last();
        console_input(state, earlier) + console_share(
            after(state, earlier),
            stop_requested(state, earlier),
            history.last(),
        )
    }
}

/// The bytes that are still to be written to the standard output.
pub open spec fn output_due(state: LoopState) -> Seq<u8> {
    match state.phase {
        Phase::WritingStdout(bytes) => bytes,
        _ => Seq::empty(),
    }
}

/// The bytes that are still to be forwarded after a stop.
pub open spec fn resume_due(resume: Resume<Seq<u8>>) -> Seq<u8> {
    match resume {
        Resume::Forward(bytes) => bytes,
        Resume::Signals => Seq::empty(),
    }
}

/// The bytes that are still to be written to the server's console.
pub open spec fn console_due(state: LoopState) -> Seq<u8> {
    match state.phase {
        Phase::WritingPipe(bytes) => bytes,
        Phase::ForwardingStdin(bytes) => bytes,
        Phase::AnnouncingStop(resume) => stop_line(state.stop_command) + resume_due(resume),
        Phase::SendingStop(resume) => stop_line(state.stop_command) + resume_due(resume),
        Phase::TimingStop(resume) => resume_due(resume),
        _ => Seq::empty(),
    }
}

/// Whether a stop has begun and its deadline is not set yet.
pub open spec fn stop_is_beginning(state: LoopState) -> bool {
    state.phase is AnnouncingStop || state.phase is SendingStop || state.phase is TimingStop
}

/// The time at which the stop line had been written, if it has been.
pub open spec fn stop_time(state: LoopState, history: Seq<Entry>) -> Option<u64>
    decreases history.len(),
{
    if history.len() == 0 {
        None
    } else {
        let earlier = history.drop_last();
        match (stop_time(state, earlier), after(state, earlier).phase, history.last()) {
            (Some(time), _, _) => Some(time),
            (None, Phase::TimingStop(_), Event::Clock(now)) => Some(now),
            _ => None,
        }
    }
}

/// How often the stop line was written.
pub open spec fn stops_sent(state: LoopState, history: Seq<Entry>) -> nat
    decreases history.len(),
{
    if history.len() == 0 {
        0
    } else {
        let earlier = history.drop_last();
        stops_sent(state, earlier) + if after(state, earlier).phase is SendingStop
            && history.last() is Done {
            1nat
        } else {
            0nat
        }
    }
}

/// The last reading of the clock that was asked for.
pub open spec fn last_reading(state: LoopState, history: Seq<Entry>) -> Option<u64>
    decreases history.len(),
{
    if history.len() == 0 {
        None
    } else {
        match (after(state, history.drop_last()).action(), history.last()) {
            (Action::ReadClock, Event::Clock(now)) => Some(now),
            _ => last_reading(state, history.drop_last()),
        }
    }
}

/// Whether the server's terminal is watched by polls that work.
pub open spec fn hears_server(state: LoopState) -> bool {
    state.watch_server && state.can_poll
}

/// The exit code that the last wait for the server gave, if it gave one: a
/// look at the server gives one if it settles the matter, a wait without end
/// always does.
pub open spec fn code_given(state: LoopState, history: Seq<Entry>) -> Option<i32>
    decreases history.len(),
{
    if history.len() == 0 {
        None
    } else {
        match (after(state, history.drop_last()).action(), history.last()) {
            (Action::Reap, Event::Waited(WaitResult::Exited(code))) => Some(code),
            (Action::Reap, Event::Waited(WaitResult::Signaled(signo))) => Some(
                (128 + signo) as i32,
            ),
            (Action::Reap, Event::Waited(WaitResult::Failed)) => if hears_server(
                after(state, history.drop_last()),
            ) {
                None
            } else {
                Some(0)
            },
            (Action::Reap, Event::Waited(WaitResult::Running)) => None,
            (Action::Wait, Event::Waited(WaitResult::Exited(code))) => Some(code),
            (Action::Wait, Event::Waited(WaitResult::Signaled(signo))) => Some(
                (128 + signo) as i32,
            ),
            (Action::Wait, Event::Waited(_)) => Some(0),
            _ => code_given(state, history.drop_last()),
        }
    }
}

/// The stop command, the timeout and the pipe stay what they were.
proof fn lemma_settings_stay(state: LoopState, history: Seq<Entry>)
    ensures
        after(state, history).stop_command == state.stop_command,
        after(state, history).stop_timeout == state.stop_timeout,
        after(state, history).piped == state.piped,
    decreases history.len(),
{
    if history.len() > 0 {
        lemma_settings_stay(state, history.drop_last());
    }
}

/// Whatever happens, the stop command and the timeout stay those that the
/// supervision started with, and so does the pipe.
pub proof fn law_settings_stay(
    command: Seq<char>,
    timeout: u64,
    piped: bool,
    history: Seq<Entry>,
)
    ensures
        after(start(command, timeout, piped), history).stop_command == command,
        after(start(command, timeout, piped), history).stop_timeout == timeout,
        after(start(command, timeout, piped), history).piped == piped,
{
    lemma_settings_stay(start(command, timeout, piped), history);
}

/// A stop was asked for exactly if one is beginning or has its deadline, and
/// never both.
pub(crate) proof fn lemma_stop_state(
    command: Seq<char>,
    timeout: u64,
    piped: bool,
    history: Seq<Entry>,
)
    ensures
        ({
            let state = after(start(command, timeout, piped), history);
            &&& stop_requested(start(command, timeout, piped), history) <==> (state.stop_deadline
                is Some || stop_is_beginning(state))
            &&& !(state.stop_deadline is Some && stop_is_beginning(state))
            &&& state.phase is CheckingDeadline ==> state.stop_deadline is Some
            &&& state.phase matches Phase::Polling(sleep) ==> (sleep is None
                <==> state.stop_deadline is None && state.watch_server)
            &&& (state.phase is ReportingOverrun || state.phase is Killing || state.phase
                is Waiting) ==> state.stop_deadline is Some
        }),
    decreases history.len(),
{
    if history.len() > 0 {
        lemma_stop_state(command, timeout, piped, history.drop_last());
    }
}

/// Everything that the server prints goes to the standard output, unchanged
/// and in order: what was read from the server is what was written to the
/// standard output and what is being written.
pub proof fn law_server_output_is_relayed(
    command: Seq<char>,
    timeout: u64,
    piped: bool,
    history: Seq<Entry>,
)
    ensures
        server_output(start(command, timeout, piped), history) == written(
            start(command, timeout, piped),
            history,
            Sink::Stdout,
        ) + output_due(after(start(command, timeout, piped), history)),
    decreases history.len(),
{
    let state = start(command, timeout, piped);
    if history.len() > 0 {
        law_server_output_is_relayed(command, timeout, piped, history.drop_last());
    }
    assert(server_output(state, history) =~= written(state, history, Sink::Stdout) + output_due(
        after(state, history),
    ));
}

/// What `event`, in `state`, adds to what was written to the server's console.
spec fn console_written(state: LoopState, event: Entry) -> Seq<u8> {
    match (state.action(), event) {
        (Action::Write(Sink::Server, bytes), Event::Done) => bytes,
        _ => Seq::empty(),
    }
}

/// Of what is due and what comes in, each event writes a part and leaves the
/// rest due.
proof fn lemma_console_step(state: LoopState, requested: bool, event: Entry)
    requires
        requested <==> (state.stop_deadline is Some || stop_is_beginning(state)),
    ensures
        console_due(state) + console_share(state, requested, event) == console_written(state, event)
            + console_due(state.next(event)),
{
    let none = Seq::<u8>::empty();
    let share = console_share(state, requested, event);
    let due = console_due(state.next(event));
    assert(none + share =~= share);
    assert(none + due =~= due);
    assert(console_due(state) + none =~= console_due(state));
    assert(console_written(state, event) + none =~= console_written(state, event));
}

/// The server's console receives the commands from the pipe unchanged, the
/// standard input without Ctrl+C, and the stop line once, when a stop is first
/// asked for; nothing else, and all of it in the order in which it came in.
#[verifier::rlimit(30)]
pub proof fn law_console_input_is_relayed(
    command: Seq<char>,
    timeout: u64,
    piped: bool,
    history: Seq<Entry>,
)
    ensures
        console_input(start(command, timeout, piped), history) == written(
            start(command, timeout, piped),
            history,
            Sink::Server,
        ) + console_due(after(start(command, timeout, piped), history)),
    decreases history.len(),
{
    let state = start(command, timeout, piped);
    if history.len() > 0 {
        let earlier = history.drop_last();
        let before = after(state, earlier);
        let requested = stop_requested(state, earlier);
        let share = console_share(before, requested, history.last());
        let now = console_written(before, history.last());
        let due = console_due(after(state, history));
        law_console_input_is_relayed(command, timeout, piped, earlier);
        lemma_stop_state(command, timeout, piped, earlier);
        lemma_console_step(before, requested, history.last());
        let sent = written(state, earlier, Sink::Server);
        assert((sent + console_due(before)) + share =~= sent + (console_due(before) + share));
        assert(sent + (now + due) =~= (sent + now) + due);
        assert(written(state, history, Sink::Server) == sent + now);
    }
}

/// The stop line is written at most once, however often a stop is asked for,
/// and once it has been written and timed, exactly once.
pub proof fn law_stop_is_sent_once(
    command: Seq<char>,
    timeout: u64,
    piped: bool,
    history: Seq<Entry>,
)
    ensures
        stops_sent(start(command, timeout, piped), history) <= 1,
        stop_time(start(command, timeout, piped), history) is Some ==> stops_sent(
            start(command, timeout, piped),
            history,
        ) == 1,
        !stop_requested(start(command, timeout, piped), history) ==> stops_sent(
            start(command, timeout, piped),
            history,
        ) == 0,
{
    lemma_stop_state(command, timeout, piped, history);
    lemma_stop_time(command, timeout, piped, history);
}

/// The deadline counts from the time at which the stop line was written, and
/// the stop line was written once exactly if that time was or is being taken.
#[verifier::rlimit(30)]
pub(crate) proof fn lemma_stop_time(
    command: Seq<char>,
    timeout: u64,
    piped: bool,
    history: Seq<Entry>,
)
    ensures
        ({
            let state = after(start(command, timeout, piped), history);
            let sent = stops_sent(start(command, timeout, piped), history);
            &&& state.stop_deadline == match stop_time(start(command, timeout, piped), history) {
                Some(time) => Some(deadline_after(time, timeout)),
                None => None,
            }
            &&& sent == if state.stop_deadline is Some || state.phase is TimingStop {
                1nat
            } else {
                0nat
            }
        }),
    decreases history.len(),
{
    if history.len() > 0 {
        lemma_stop_time(command, timeout, piped, history.drop_last());
        lemma_stop_state(command, timeout, piped, history.drop_last());
        lemma_settings_stay(start(command, timeout, piped), history.drop_last());
    }
}

/// The stop deadline lies the timeout after the time at which the stop line
/// had been written.
pub proof fn law_deadline_counts_from_stop(
    command: Seq<char>,
    timeout: u64,
    piped: bool,
    history: Seq<Entry>,
)
    ensures
        match (
            stop_time(start(command, timeout, piped), history),
            after(start(command, timeout, piped), history).stop_deadline,
        ) {
            (Some(time), Some(deadline)) => deadline == time + timeout * NANOS_PER_SEC,
            (None, None) => true,
            _ => false,
        },
{
    lemma_stop_time(command, timeout, piped, history);
}

/// Once a stop has its deadline, nothing moves it: asking again for a stop
/// gives the server no more time.
pub proof fn law_deadline_never_moves(
    command: Seq<char>,
    timeout: u64,
    piped: bool,
    history: Seq<Entry>,
    later: Seq<Entry>,
)
    requires
        after(start(command, timeout, piped), history).stop_deadline is Some,
    ensures
        after(start(command, timeout, piped), history + later).stop_deadline == after(
            start(command, timeout, piped),
            history,
        ).stop_deadline,
    decreases later.len(),
{
    if later.len() == 0 {
        assert(history + later =~= history);
    } else {
        law_deadline_never_moves(command, timeout, piped, history, later.drop_last());
        assert((history + later).drop_last() =~= history + later.drop_last());
        lemma_stop_state(command, timeout, piped, history + later.drop_last());
    }
}

/// The sleep of a poll and a kill that is being carried out rest on the last
/// reading of the clock.
proof fn lemma_last_reading(command: Seq<char>, timeout: u64, piped: bool, history: Seq<Entry>)
    ensures
        ({
            let state = after(start(command, timeout, piped), history);
            let reading = last_reading(start(command, timeout, piped), history);
            &&& state.phase matches Phase::Polling(Some(millis)) ==> {
                &&& millis <= MAX_SLEEP_MILLIS
                &&& state.stop_deadline matches Some(deadline) ==> {
                    &&& reading is Some
                    &&& sleep_until(deadline, reading->0) == Some(millis)
                }
            }
            &&& state.phase matches Phase::Napping(millis) ==> {
                &&& millis <= MAX_SLEEP_MILLIS
                &&& state.stop_deadline matches Some(deadline) ==> {
                    &&& reading is Some
                    &&& sleep_until(deadline, reading->0) == Some(millis)
                }
            }
            &&& (state.phase is ReportingOverrun || state.phase is Killing) ==> {
                &&& reading is Some
                &&& state.stop_deadline is Some
                &&& reading->0 >= state.stop_deadline->0
            }
        }),
    decreases history.len(),
{
    if history.len() > 0 {
        lemma_last_reading(command, timeout, piped, history.drop_last());
        lemma_stop_state(command, timeout, piped, history.drop_last());
    }
}

/// The server is killed only after it was asked to stop and overran the
/// timeout: the stop line had been written at a time `time`, and the clock has
/// reached `time` plus the timeout. No signal but SIGKILL is ever sent.
pub proof fn law_kill_only_after_timeout(
    command: Seq<char>,
    timeout: u64,
    piped: bool,
    history: Seq<Entry>,
    signo: i32,
)
    requires
        after(start(command, timeout, piped), history).action() == Action::<
            Seq<u8>,
            Seq<char>,
        >::Kill(signo),
    ensures
        signo == 9,
        stops_sent(start(command, timeout, piped), history) == 1,
        stop_time(start(command, timeout, piped), history) matches Some(time) && last_reading(
            start(command, timeout, piped),
            history,
        ) matches Some(now) && now >= time + timeout * NANOS_PER_SEC,
{
    lemma_last_reading(command, timeout, piped, history);
    lemma_stop_time(command, timeout, piped, history);
}

/// Whether `code` is the exit code that `result` stands for where the server must
/// have ended: its own, 128 more than the signal that ended it, or 0 where
/// neither is known.
pub open spec fn is_code_of(code: i32, result: WaitResult) -> bool {
    match result {
        WaitResult::Exited(own) => code == own,
        WaitResult::Signaled(signo) => code == 128 + signo,
        WaitResult::Running => code == 0,
        WaitResult::Failed => code == 0,
    }
}

/// A server that overran is killed at once, whether or not its terminal still
/// answers: the pass that finds it running and the clock at the deadline kills
/// it as soon as the overrun is reported, and the supervision ends with what
/// the wait for the server gives, 0 if that reports no end.
pub proof fn law_overrun_is_killed(state: LoopState, now: u64, result: WaitResult)
    requires
        state.action() == Action::<Seq<u8>, Seq<char>>::Reap,
        state.piped,
        state.stop_deadline matches Some(deadline) && now >= deadline,
    ensures
        ({
            let timed = state.next(Event::Waited(WaitResult::Running));
            let reported = timed.next(Event::Clock(now));
            let overrun = reported.next(Event::Done);
            let killed = overrun.next(Event::Done);
            &&& timed.action() == Action::<Seq<u8>, Seq<char>>::ReadClock
            &&& reported.action() == Action::<Seq<u8>, Seq<char>>::Log(stop_timed_out())
            &&& overrun.action() == Action::<Seq<u8>, Seq<char>>::Kill(9)
            &&& killed.action() == Action::<Seq<u8>, Seq<char>>::Wait
            &&& killed.next(Event::Waited(result)).action() matches Action::Return(code)
                && is_code_of(code, result)
        }),
{
}

/// How often the server was killed.
pub open spec fn kills(state: LoopState, history: Seq<Entry>) -> nat
    decreases history.len(),
{
    if history.len() == 0 {
        0
    } else {
        kills(state, history.drop_last()) + match (
            after(state, history.drop_last()).action(),
            history.last(),
        ) {
            (Action::Kill(_), Event::Done) => 1nat,
            _ => 0nat,
        }
    }
}

/// Whether the server was sent SIGKILL.
pub open spec fn killed(state: LoopState, history: Seq<Entry>) -> bool
    decreases history.len(),
{
    history.len() > 0 && (killed(state, history.drop_last()) || (after(
        state,
        history.drop_last(),
    ).action() == Action::<Seq<u8>, Seq<char>>::Kill(SIGKILL) && history.last() is Done))
}

/// Whether a wait for the server reported its end.
pub open spec fn end_reported(state: LoopState, history: Seq<Entry>) -> bool
    decreases history.len(),
{
    history.len() > 0 && match (after(state, history.drop_last()).action(), history.last()) {
        (Action::Reap, Event::Waited(WaitResult::Exited(_))) => true,
        (Action::Reap, Event::Waited(WaitResult::Signaled(_))) => true,
        (Action::Wait, Event::Waited(WaitResult::Exited(_))) => true,
        (Action::Wait, Event::Waited(WaitResult::Signaled(_))) => true,
        _ => end_reported(state, history.drop_last()),
    }
}

/// By phase: whether the server was killed, and whether its end was reported.
proof fn lemma_kills(command: Seq<char>, timeout: u64, piped: bool, history: Seq<Entry>)
    ensures
        ({
            let phase = after(start(command, timeout, piped), history).phase;
            let count = kills(start(command, timeout, piped), history);
            &&& count <= 1
            &&& killed(start(command, timeout, piped), history) <==> count == 1
            &&& phase is Waiting ==> count == 1
            &&& !(phase is Waiting || phase is Finished) ==> count == 0
            &&& end_reported(start(command, timeout, piped), history) ==> phase is Finished
        }),
    decreases history.len(),
{
    if history.len() > 0 {
        lemma_kills(command, timeout, piped, history.drop_last());
    }
}

/// The server is killed once at most, and never after its end was reported,
/// when its process number may be another's.
pub proof fn law_kill_is_sent_once(
    command: Seq<char>,
    timeout: u64,
    piped: bool,
    history: Seq<Entry>,
)
    ensures
        kills(start(command, timeout, piped), history) <= 1,
        after(start(command, timeout, piped), history).action() is Kill ==> {
            &&& kills(start(command, timeout, piped), history) == 0
            &&& !end_reported(start(command, timeout, piped), history)
        },
{
    lemma_kills(command, timeout, piped, history);
}

/// A stop is bounded: the supervision waits without end for a server only
/// after it has killed it. In particular a server that was asked to stop is
/// never waited for without end, whatever becomes of its terminal.
pub proof fn law_stop_is_bounded(command: Seq<char>, timeout: u64, piped: bool, history: Seq<Entry>)
    ensures
        after(start(command, timeout, piped), history).action() is Wait ==> {
            &&& stop_requested(start(command, timeout, piped), history)
            &&& killed(start(command, timeout, piped), history)
        },
{
    lemma_kills(command, timeout, piped, history);
    lemma_stop_state(command, timeout, piped, history);
}

/// A poll waits without end only while no stop is under way and the server can
/// be heard. Otherwise it waits a second at most, and never beyond the deadline
/// of a stop.
pub proof fn law_poll_is_bounded(
    command: Seq<char>,
    timeout: u64,
    piped: bool,
    history: Seq<Entry>,
    server: bool,
    stdin: bool,
    sleep: Option<u16>,
)
    requires
        after(start(command, timeout, piped), history).action() == (Action::<
            Seq<u8>,
            Seq<char>,
        >::Poll { server, stdin, timeout: sleep }),
    ensures
        sleep is None <==> server && !stop_requested(start(command, timeout, piped), history),
        sleep matches Some(millis) ==> millis <= MAX_SLEEP_MILLIS,
        stop_requested(start(command, timeout, piped), history) ==> (sleep matches Some(millis)
            && stop_time(start(command, timeout, piped), history) matches Some(time)
            && last_reading(start(command, timeout, piped), history) matches Some(now) && now
            + millis * NANOS_PER_MILLI <= time + timeout * NANOS_PER_SEC),
{
    lemma_last_reading(command, timeout, piped, history);
    lemma_stop_time(command, timeout, piped, history);
    lemma_stop_state(command, timeout, piped, history);
    if let Some(deadline) = after(start(command, timeout, piped), history).stop_deadline {
        law_sleep_ends_by_deadline(
            deadline,
            last_reading(start(command, timeout, piped), history)->0,
        );
    }
}

/// Where polls fail, the supervision sleeps a second at most, and never beyond
/// the deadline of a stop.
pub proof fn law_nap_is_bounded(
    command: Seq<char>,
    timeout: u64,
    piped: bool,
    history: Seq<Entry>,
    millis: u16,
)
    requires
        after(start(command, timeout, piped), history).action() == Action::<
            Seq<u8>,
            Seq<char>,
        >::Sleep(millis),
    ensures
        millis <= MAX_SLEEP_MILLIS,
        stop_requested(start(command, timeout, piped), history) ==> (stop_time(
            start(command, timeout, piped),
            history,
        ) matches Some(time) && last_reading(
            start(command, timeout, piped),
            history,
        ) matches Some(now) && now + millis * NANOS_PER_MILLI <= time + timeout * NANOS_PER_SEC),
{
    lemma_last_reading(command, timeout, piped, history);
    lemma_stop_time(command, timeout, piped, history);
    lemma_stop_state(command, timeout, piped, history);
    if let Some(deadline) = after(start(command, timeout, piped), history).stop_deadline {
        law_sleep_ends_by_deadline(
            deadline,
            last_reading(start(command, timeout, piped), history)->0,
        );
    }
}

/// The supervision ends only when the server has been waited for, and with the
/// code that the wait gave.
pub proof fn law_exit_code_is_the_servers(
    command: Seq<char>,
    timeout: u64,
    piped: bool,
    history: Seq<Entry>,
    code: i32,
)
    requires
        after(start(command, timeout, piped), history).action() == Action::<
            Seq<u8>,
            Seq<char>,
        >::Return(code),
    ensures
        code_given(start(command, timeout, piped), history) == Some(code),
    decreases history.len(),
{
    if history.len() > 0 {
        let before = after(start(command, timeout, piped), history.drop_last());
        if before.phase is Finished {
            law_exit_code_is_the_servers(command, timeout, piped, history.drop_last(), code);
        }
    }
}

/// Nothing follows the end of the supervision, nor a panic.
pub proof fn law_end_is_final(state: LoopState, history: Seq<Entry>)
    requires
        state.phase is Finished || state.phase is Stranded,
    ensures
        after(state, history) == state,
    decreases history.len(),
{
    if history.len() > 0 {
        law_end_is_final(state, history.drop_last());
    }
}

/// Nothing is shared with the empty set of event bits.
proof fn lemma_no_bits(mask: i16)
    ensures
        !shares(0, mask),
{
    assert(0i16 & mask == 0) by (bit_vector);
}

/// What is no longer watched is not read in this pass.
spec fn closed_is_left_alone(state: LoopState) -> bool {
    &&& !state.watch_stdin ==> {
        &&& !(state.phase is ReadingStdin)
        &&& (state.phase is ReadingServer || state.phase is WritingStdout
            || state.phase is ReadingPipe || state.phase is WritingPipe) ==> state.stdin == 0
    }
    &&& !state.watch_server ==> !(state.phase is ReadingServer)
    &&& !state.can_poll ==> !(state.phase is Polling)
}

proof fn lemma_closed_is_left_alone(
    command: Seq<char>,
    timeout: u64,
    piped: bool,
    history: Seq<Entry>,
)
    ensures
        closed_is_left_alone(after(start(command, timeout, piped), history)),
    decreases history.len(),
{
    if history.len() > 0 {
        lemma_closed_is_left_alone(command, timeout, piped, history.drop_last());
        lemma_no_bits(POLLIN);
        lemma_no_bits(POLLHUP | POLLERR | POLLNVAL);
    }
}

/// Once the standard input is at its end or broken, it is never polled or read
/// again.
pub proof fn law_stdin_stays_closed(
    command: Seq<char>,
    timeout: u64,
    piped: bool,
    history: Seq<Entry>,
    later: Seq<Entry>,
)
    requires
        !after(start(command, timeout, piped), history).watch_stdin,
    ensures
        ({
            let state = after(start(command, timeout, piped), history + later);
            &&& !state.watch_stdin
            &&& state.action() != Action::<Seq<u8>, Seq<char>>::Read(Source::Stdin)
            &&& state.action() matches Action::Poll { stdin, .. } ==> !stdin
        }),
    decreases later.len(),
{
    lemma_closed_is_left_alone(command, timeout, piped, history + later);
    if later.len() == 0 {
        assert(history + later =~= history);
    } else {
        law_stdin_stays_closed(command, timeout, piped, history, later.drop_last());
        assert((history + later).drop_last() =~= history + later.drop_last());
    }
}

/// Once the server's terminal hung up or its output ended, it is never polled
/// or read again.
pub proof fn law_hung_up_server_stays_closed(
    command: Seq<char>,
    timeout: u64,
    piped: bool,
    history: Seq<Entry>,
    later: Seq<Entry>,
)
    requires
        !after(start(command, timeout, piped), history).watch_server,
    ensures
        ({
            let state = after(start(command, timeout, piped), history + later);
            &&& !state.watch_server
            &&& state.action() != Action::<Seq<u8>, Seq<char>>::Read(Source::Server)
            &&& state.action() matches Action::Poll { server, .. } ==> !server
        }),
    decreases later.len(),
{
    lemma_closed_is_left_alone(command, timeout, piped, history + later);
    if later.len() == 0 {
        assert(history + later =~= history);
    } else {
        law_hung_up_server_stays_closed(command, timeout, piped, history, later.drop_last());
        assert((history + later).drop_last() =~= history + later.drop_last());
    }
}

/// Once a poll has failed, there is no other.
pub proof fn law_failed_poll_is_the_last(
    command: Seq<char>,
    timeout: u64,
    piped: bool,
    history: Seq<Entry>,
    later: Seq<Entry>,
)
    requires
        !after(start(command, timeout, piped), history).can_poll,
    ensures
        !after(start(command, timeout, piped), history + later).can_poll,
        !(after(start(command, timeout, piped), history + later).action() is Poll),
    decreases later.len(),
{
    lemma_closed_is_left_alone(command, timeout, piped, history + later);
    if later.len() == 0 {
        assert(history + later =~= history);
    } else {
        law_failed_poll_is_the_last(command, timeout, piped, history, later.drop_last());
        assert((history + later).drop_last() =~= history + later.drop_last());
    }
}

/// A standard input that ends is no longer watched.
pub proof fn law_end_of_stdin_is_noticed(state: LoopState)
    requires
        state.action() == Action::<Seq<u8>, Seq<char>>::Read(Source::Stdin),
    ensures
        !state.next(Event::Read(None)).watch_stdin,
{
}

/// How a stop goes: SIGTERM and SIGINT, where none is under way, are announced,
/// then the stop line is written, then the clock is read, and the deadline lies
/// the timeout after that; then the remaining signals are read.
pub proof fn law_signal_begins_stop(state: LoopState, signo: i32, now: u64)
    requires
        state.action() == Action::<Seq<u8>, Seq<char>>::ReadSignal,
        state.stop_deadline is None,
        signo == 15 || signo == 2,
    ensures
        ({
            let announced = state.next(Event::Signal(Some(signo)));
            let sent = announced.next(Event::Done);
            let timed = sent.next(Event::Done);
            let done = timed.next(Event::Clock(now));
            &&& announced.action() == Action::<Seq<u8>, Seq<char>>::Log(
                stopping(state.stop_command),
            )
            &&& sent.action() == Action::<Seq<u8>, Seq<char>>::Write(
                Sink::Server,
                encode_utf8(state.stop_command).push(10u8),
            )
            &&& timed.action() == Action::<Seq<u8>, Seq<char>>::ReadClock
            &&& done.stop_deadline matches Some(deadline) && deadline == now + state.stop_timeout
                * 1_000_000_000
            &&& done.action() == Action::<Seq<u8>, Seq<char>>::ReadSignal
            &&& done == (LoopState { stop_deadline: done.stop_deadline, ..state })
        }),
{
}

/// A typed Ctrl+C begins a stop in the same way; what was typed with it is
/// written to the console behind the stop line.
pub proof fn law_ctrl_c_begins_stop(state: LoopState, bytes: Seq<u8>, now: u64)
    requires
        state.action() == Action::<Seq<u8>, Seq<char>>::Read(Source::Stdin),
        state.stop_deadline is None,
        bytes.contains(3u8),
    ensures
        ({
            let announced = state.next(Event::Read(Some(bytes)));
            let sent = announced.next(Event::Done);
            let timed = sent.next(Event::Done);
            let done = timed.next(Event::Clock(now));
            &&& announced.action() == Action::<Seq<u8>, Seq<char>>::Log(
                stopping(state.stop_command),
            )
            &&& sent.action() == Action::<Seq<u8>, Seq<char>>::Write(
                Sink::Server,
                encode_utf8(state.stop_command).push(10u8),
            )
            &&& timed.action() == Action::<Seq<u8>, Seq<char>>::ReadClock
            &&& done.stop_deadline matches Some(deadline) && deadline == now + state.stop_timeout
                * 1_000_000_000
            &&& without_etx(bytes).len() > 0 ==> done.action() == Action::<
                Seq<u8>,
                Seq<char>,
            >::Write(Sink::Server, without_etx(bytes))
            &&& done == (LoopState {
                stop_deadline: done.stop_deadline,
                phase: done.phase,
                ..state
            })
            &&& without_etx(bytes).len() == 0 ==> done.action() == signals_or_next_pass(state)
            &&& without_etx(bytes).len() > 0 ==> done.next(Event::Done).action()
                == signals_or_next_pass(state)
        }),
{
}

/// What follows once the standard input is served: the signals, if the poll
/// reported any, and the next pass otherwise.
pub open spec fn signals_or_next_pass(state: LoopState) -> Action<Seq<u8>, Seq<char>> {
    if state.signals & POLLIN != 0 {
        Action::ReadSignal
    } else {
        Action::Reap
    }
}

/// Typed input that asks for no stop, or for one that is under way already, is
/// written to the console without its Ctrl+C bytes, at once, and nothing is
/// written if there is nothing else; then the signals are served.
pub proof fn law_typed_input_is_forwarded(state: LoopState, bytes: Seq<u8>)
    requires
        state.action() == Action::<Seq<u8>, Seq<char>>::Read(Source::Stdin),
        state.stop_deadline is Some || !bytes.contains(3u8),
    ensures
        ({
            let typed = state.next(Event::Read(Some(bytes)));
            &&& typed == (LoopState { phase: typed.phase, ..state })
            &&& without_etx(bytes).len() > 0 ==> {
                &&& typed.action() == Action::<Seq<u8>, Seq<char>>::Write(
                    Sink::Server,
                    without_etx(bytes),
                )
                &&& typed.next(Event::Done).action() == signals_or_next_pass(state)
            }
            &&& without_etx(bytes).len() == 0 ==> typed.action() == signals_or_next_pass(state)
            &&& !bytes.contains(3u8) ==> without_etx(bytes) == bytes
        }),
{
    law_ctrl_c_is_never_forwarded(bytes);
}

/// What is forwarded from the standard input never holds Ctrl+C.
pub proof fn law_forwarded_input_holds_no_ctrl_c(
    command: Seq<char>,
    timeout: u64,
    piped: bool,
    history: Seq<Entry>,
)
    ensures
        match after(start(command, timeout, piped), history).phase {
            Phase::ForwardingStdin(bytes) => !bytes.contains(ETX) && bytes.len() > 0,
            Phase::AnnouncingStop(Resume::Forward(bytes)) => !bytes.contains(ETX),
            Phase::SendingStop(Resume::Forward(bytes)) => !bytes.contains(ETX),
            Phase::TimingStop(Resume::Forward(bytes)) => !bytes.contains(ETX),
            _ => true,
        },
    decreases history.len(),
{
    if history.len() > 0 {
        law_forwarded_input_holds_no_ctrl_c(command, timeout, piped, history.drop_last());
        if let Event::Read(Some(bytes)) = history.last() {
            law_ctrl_c_is_never_forwarded(bytes);
        }
    }
}

/// A resize of the program's terminal reaches the server's terminal. Without a
/// terminal, or if its size cannot be had, nothing is resized, and the remaining
/// signals are read.
pub proof fn law_resize_is_propagated(state: LoopState, ret: i32, size: Winsize)
    requires
        state.action() == Action::<Seq<u8>, Seq<char>>::ReadSignal,
    ensures
        ({
            let asked = state.next(Event::Signal(Some(28)));
            let queried = asked.next(Event::Terminal(1));
            let resized = queried.next(Event::Winsize(0, size));
            &&& asked.action() == Action::<Seq<u8>, Seq<char>>::IsTerminal
            &&& queried.action() == Action::<Seq<u8>, Seq<char>>::GetWinsize
            &&& resized.action() == Action::<Seq<u8>, Seq<char>>::SetWinsize(size)
            &&& resized.next(Event::Done) == state
            &&& ret != 1 ==> asked.next(Event::Terminal(ret)) == state
            &&& ret != 0 ==> queried.next(Event::Winsize(ret, size)) == state
        }),
{
}

/// All pending signals are read before anything else: one that asks for
/// nothing, or for a stop that is under way already, changes nothing, and only
/// when none is left does the next pass start.
pub proof fn law_signals_are_drained(state: LoopState, signo: i32)
    requires
        state.action() == Action::<Seq<u8>, Seq<char>>::ReadSignal,
    ensures
        signo != 2 && signo != 15 && signo != 28 ==> state.next(Event::Signal(Some(signo)))
            == state,
        (signo == 2 || signo == 15) && state.stop_deadline is Some ==> state.next(
            Event::Signal(Some(signo)),
        ) == state,
        state.next(Event::Signal(None)).action() == Action::<Seq<u8>, Seq<char>>::Reap,
{
}

/// Whether the supervision has looked at the server, and found it running,
/// since it last slept.
pub open spec fn looked_since_rest(state: LoopState, history: Seq<Entry>) -> bool
    decreases history.len(),
{
    history.len() > 0 && match (after(state, history.drop_last()).action(), history.last()) {
        (Action::Reap, Event::Waited(result)) => result is Running || result is Failed,
        (Action::Poll { .. }, Event::Polled(_)) => false,
        (Action::Poll { .. }, Event::PollFailed(_, _)) => false,
        (Action::Sleep(_), Event::Done) => false,
        _ => looked_since_rest(state, history.drop_last()),
    }
}

/// The supervision never sleeps twice without a look at the server in between:
/// an end of the server that woke it is noticed before the next sleep.
pub proof fn law_every_pass_looks_at_the_server(
    command: Seq<char>,
    timeout: u64,
    piped: bool,
    history: Seq<Entry>,
)
    ensures
        ({
            let state = after(start(command, timeout, piped), history);
            state.phase is Polling || state.phase is Napping || state.phase is CheckingDeadline
        }) ==> looked_since_rest(start(command, timeout, piped), history),
    decreases history.len(),
{
    if history.len() > 0 {
        law_every_pass_looks_at_the_server(command, timeout, piped, history.drop_last());
    }
}

/// Whether the clock has been compared with the stop deadline since the
/// supervision last slept.
pub open spec fn checked_since_rest(state: LoopState, history: Seq<Entry>) -> bool
    decreases history.len(),
{
    history.len() > 0 && match (after(state, history.drop_last()).phase, history.last()) {
        (Phase::CheckingDeadline, Event::Clock(_)) => true,
        (Phase::Polling(_), Event::Polled(_)) => false,
        (Phase::Polling(_), Event::PollFailed(_, _)) => false,
        (Phase::Napping(_), Event::Done) => false,
        _ => checked_since_rest(state, history.drop_last()),
    }
}

/// While a stop is under way, the supervision never sleeps without having
/// compared the clock with the deadline first.
pub proof fn law_every_pass_checks_the_deadline(
    command: Seq<char>,
    timeout: u64,
    piped: bool,
    history: Seq<Entry>,
)
    ensures
        (after(start(command, timeout, piped), history).phase is Polling || after(
            start(command, timeout, piped),
            history,
        ).phase is Napping) && stop_requested(start(command, timeout, piped), history)
            ==> checked_since_rest(start(command, timeout, piped), history),
    decreases history.len(),
{
    if history.len() > 0 {
        law_every_pass_checks_the_deadline(command, timeout, piped, history.drop_last());
        lemma_stop_state(command, timeout, piped, history.drop_last());
        lemma_stop_state(command, timeout, piped, history);
    }
}

/// An end of the server that a look reports ends the supervision, with the
/// server's own exit code or 128 more than the signal that ended it.
pub proof fn law_end_of_server_is_noticed(state: LoopState, code: i32, signo: u8)
    requires
        state.action() == Action::<Seq<u8>, Seq<char>>::Reap,
    ensures
        state.next(Event::Waited(WaitResult::Exited(code))).action() == Action::<
            Seq<u8>,
            Seq<char>,
        >::Return(code),
        state.next(Event::Waited(WaitResult::Signaled(signo))).action() matches Action::Return(code)
            && code == 128 + signo,
{
}

/// While the server has not ended, a look changes nothing but what comes next:
/// with a stop under way, the time is compared with its deadline; otherwise the
/// supervision waits for something to read, for a second at most if the server's
/// terminal is lost, and where polls fail it sleeps for a second.
pub proof fn law_running_server_is_left_alone(state: LoopState, result: WaitResult)
    requires
        state.action() == Action::<Seq<u8>, Seq<char>>::Reap,
        state.piped,
        result is Running || (result is Failed && hears_server(state)),
    ensures
        ({
            let looked = state.next(Event::Waited(result));
            &&& looked == (LoopState { phase: looked.phase, ..state })
            &&& looked.action() == if state.stop_deadline is Some {
                Action::<Seq<u8>, Seq<char>>::ReadClock
            } else if !state.can_poll {
                Action::Sleep(1000)
            } else {
                Action::Poll {
                    server: state.watch_server,
                    stdin: state.watch_stdin,
                    timeout: if state.watch_server {
                        None
                    } else {
                        Some(1000)
                    },
                }
            }
        }),
{
}

/// Before the deadline of a stop, the supervision waits until the deadline, in
/// whole milliseconds and for a second at most; the server is not killed.
pub proof fn law_stop_is_given_its_time(state: LoopState, now: u64)
    requires
        state.action() == Action::<Seq<u8>, Seq<char>>::Reap,
        state.piped,
        state.stop_deadline matches Some(deadline) && now < deadline,
    ensures
        ({
            let timed = state.next(Event::Waited(WaitResult::Running)).next(Event::Clock(now));
            let left = state.stop_deadline->0 - now;
            let millis = if left < 1_000_000_000 {
                left / 1_000_000
            } else {
                1000
            };
            &&& timed == (LoopState { phase: timed.phase, ..state })
            &&& timed.action() == if state.can_poll {
                Action::<Seq<u8>, Seq<char>>::Poll {
                    server: state.watch_server,
                    stdin: state.watch_stdin,
                    timeout: Some(millis as u16),
                }
            } else {
                Action::Sleep(millis as u16)
            }
        }),
{
}

/// A poll that a signal interrupted is repeated by the next pass, and nothing
/// else changes.
pub proof fn law_interrupted_poll_is_repeated(state: LoopState, error: Seq<char>)
    requires
        state.action() is Poll,
    ensures
        state.next(Event::PollFailed(4, error)) == (LoopState { phase: Phase::Reaping, ..state }),
{
}

/// A sleep in place of a poll is followed by the pending signals.
pub proof fn law_signals_are_read_after_a_nap(state: LoopState)
    requires
        state.action() is Sleep,
    ensures
        state.next(Event::Done) == (LoopState { phase: Phase::ReadingSignal, ..state }),
{
}

/// What was read is written at once and as it is: the server's output to the
/// standard output, commands from the pipe to the server's console.
pub proof fn law_bytes_are_passed_on_at_once(state: LoopState, bytes: Seq<u8>)
    ensures
        state.action() == Action::<Seq<u8>, Seq<char>>::Read(Source::Server) ==> state.next(
            Event::Read(Some(bytes)),
        ).action() == Action::<Seq<u8>, Seq<char>>::Write(Sink::Stdout, bytes),
        state.action() == Action::<Seq<u8>, Seq<char>>::Read(Source::Pipe) ==> state.next(
            Event::Read(Some(bytes)),
        ).action() == Action::<Seq<u8>, Seq<char>>::Write(Sink::Server, bytes),
{
}

/// Once the server cannot be heard any more, a look that finds nothing to wait
/// for ends the supervision with 0.
pub proof fn law_lost_server_is_settled(state: LoopState)
    requires
        state.action() == Action::<Seq<u8>, Seq<char>>::Reap,
        !state.watch_server || !state.can_poll,
    ensures
        state.next(Event::Waited(WaitResult::Failed)).action() == Action::<
            Seq<u8>,
            Seq<char>,
        >::Return(0),
{
}

/// Whether a poll reported `flag` among the event bits of a descriptor.
pub open spec fn flagged(revents: Option<i16>, flag: i16) -> bool {
    revents matches Some(bits) && bits & flag != 0
}

/// Whether `event`, in `state`, is the loss of the server's terminal: it hung
/// up without more output, or its output ended.
pub open spec fn loses_server(state: LoopState, event: Entry) -> bool {
    match (state.action(), event) {
        (Action::Poll { server, .. }, Event::Polled(revents)) => server && !flagged(
            revents.server,
            POLLIN,
        ) && (flagged(revents.server, POLLHUP) || flagged(revents.server, POLLERR)),
        (Action::Read(Source::Server), Event::Read(None)) => true,
        _ => false,
    }
}

/// A server whose terminal is lost is looked at next. If that reports its end,
/// or that there is nothing to wait for, the supervision ends as a wait for the
/// server would have it. While the server still runs, a stop that is under way
/// keeps its deadline, and otherwise the supervision goes on without the
/// server's terminal, so that a stop can still be asked for, and looks at the
/// server again within a second.
pub proof fn law_hangup_is_followed_up(state: LoopState, event: Entry, result: WaitResult)
    requires
        loses_server(state, event),
        state.piped,
    ensures
        ({
            let lost = state.next(event);
            let looked = lost.next(Event::Waited(result));
            &&& lost.action() == Action::<Seq<u8>, Seq<char>>::Reap
            &&& !lost.watch_server
            &&& lost.stop_deadline == state.stop_deadline
            &&& !(result is Running) ==> (looked.action() matches Action::Return(code)
                && is_code_of(code, result))
            &&& result is Running && state.stop_deadline is Some ==> looked.action() == Action::<
                Seq<u8>,
                Seq<char>,
            >::ReadClock
            &&& result is Running && state.stop_deadline is None && state.can_poll
                ==> looked.action() == (Action::<Seq<u8>, Seq<char>>::Poll {
                server: false,
                stdin: state.watch_stdin,
                timeout: Some(1000),
            })
        }),
{
    if let Event::Polled(revents) = event {
        law_masks_add_up(known(revents.server), POLLHUP, POLLERR);
    }
}

/// A poll that fails, unless a signal interrupted it, is reported, and then the
/// server is looked at; while it still runs, a stop keeps its deadline, and
/// otherwise the supervision sleeps for a second and reads the pending signals,
/// so that a stop can still be asked for.
pub proof fn law_failed_poll_is_followed_up(
    state: LoopState,
    errno: i32,
    error: Seq<char>,
    result: WaitResult,
)
    requires
        state.action() is Poll,
        state.piped,
        errno != 4,
    ensures
        ({
            let failed = state.next(Event::PollFailed(errno, error));
            let reported = failed.next(Event::Done);
            let looked = reported.next(Event::Waited(result));
            &&& failed.action() == Action::<Seq<u8>, Seq<char>>::Log(poll_error(error))
            &&& reported.action() == Action::<Seq<u8>, Seq<char>>::Reap
            &&& reported.stop_deadline == state.stop_deadline
            &&& !(result is Running) ==> (looked.action() matches Action::Return(code)
                && is_code_of(code, result))
            &&& result is Running && state.stop_deadline is Some ==> looked.action() == Action::<
                Seq<u8>,
                Seq<char>,
            >::ReadClock
            &&& result is Running && state.stop_deadline is None ==> {
                &&& looked.action() == Action::<Seq<u8>, Seq<char>>::Sleep(1000)
                &&& looked.next(Event::Done).action() == Action::<Seq<u8>, Seq<char>>::ReadSignal
            }
        }),
{
}

/// When the supervision goes to sleep, nothing is held back: the server's
/// console has received all of its input, and the standard output all that the
/// server printed.
pub proof fn law_nothing_is_held_back(
    command: Seq<char>,
    timeout: u64,
    piped: bool,
    history: Seq<Entry>,
)
    requires
        ({
            let state = after(start(command, timeout, piped), history);
            state.phase is Polling || state.phase is Napping
        }),
    ensures
        written(start(command, timeout, piped), history, Sink::Server) == console_input(
            start(command, timeout, piped),
            history,
        ),
        written(start(command, timeout, piped), history, Sink::Stdout) == server_output(
            start(command, timeout, piped),
            history,
        ),
{
    let state = start(command, timeout, piped);
    law_console_input_is_relayed(command, timeout, piped, history);
    law_server_output_is_relayed(command, timeout, piped, history);
    assert(written(state, history, Sink::Server) + Seq::<u8>::empty() =~= written(
        state,
        history,
        Sink::Server,
    ));
    assert(written(state, history, Sink::Stdout) + Seq::<u8>::empty() =~= written(
        state,
        history,
        Sink::Stdout,
    ));
}

/// Without the pipe nothing is done but one look at the server: if it has
/// ended, its exit code is the result, and otherwise the program panics.
pub proof fn law_supervision_needs_the_pipe(command: Seq<char>, timeout: u64, result: WaitResult)
    ensures
        start(command, timeout, false).action() == Action::<Seq<u8>, Seq<char>>::Reap,
        ({
            let action = start(command, timeout, false).next(Event::Waited(result)).action();
            match result {
                WaitResult::Running => action is Panic,
                WaitResult::Failed => action is Panic,
                _ => action matches Action::Return(code) && is_code_of(code, result),
            }
        }),
{
}

/// The pipe stays what it was, and without it there is no second pass.
proof fn lemma_pipe(command: Seq<char>, timeout: u64, piped: bool, history: Seq<Entry>)
    ensures
        ({
            let state = after(start(command, timeout, piped), history);
            &&& state.piped == piped
            &&& state.phase is Stranded ==> !piped
            &&& !piped ==> state.watch_server && state.can_poll && match state.phase {
                Phase::Reaping => true,
                Phase::Stranded => true,
                Phase::Finished(_) => end_reported(start(command, timeout, piped), history),
                _ => false,
            }
        }),
    decreases history.len(),
{
    if history.len() > 0 {
        lemma_pipe(command, timeout, piped, history.drop_last());
    }
}

/// The program panics only without the pipe. Without it, nothing is relayed and
/// no signal is served, and the supervision gives an exit code only if the
/// server's end was reported.
pub proof fn law_panic_only_without_pipe(
    command: Seq<char>,
    timeout: u64,
    piped: bool,
    history: Seq<Entry>,
)
    ensures
        ({
            let action = after(start(command, timeout, piped), history).action();
            &&& action is Panic ==> !piped
            &&& !piped ==> (action is Reap || action is Panic || (action is Return
                && end_reported(start(command, timeout, piped), history)))
        }),
{
    lemma_pipe(command, timeout, piped, history);
}

/// An action stands for what it carries, all of it.
pub proof fn law_actions_are_shown_whole(action: Action<Vec<u8>, String>)
    ensures
        match action {
            Action::Poll { server, stdin, timeout } => action@ == (Action::<
                Seq<u8>,
                Seq<char>,
            >::Poll { server, stdin, timeout }),
            Action::Sleep(millis) => action@ == Action::<Seq<u8>, Seq<char>>::Sleep(millis),
            Action::Read(source) => action@ == Action::<Seq<u8>, Seq<char>>::Read(source),
            Action::Write(sink, bytes) => action@ == Action::<Seq<u8>, Seq<char>>::Write(
                sink,
                bytes@,
            ),
            Action::Log(text) => action@ == Action::<Seq<u8>, Seq<char>>::Log(text@),
            Action::Kill(signo) => action@ == Action::<Seq<u8>, Seq<char>>::Kill(signo),
            Action::SetWinsize(size) => action@ == Action::<Seq<u8>, Seq<char>>::SetWinsize(size),
            Action::Return(code) => action@ == Action::<Seq<u8>, Seq<char>>::Return(code),
            Action::Reap => action@ is Reap,
            Action::Wait => action@ is Wait,
            Action::ReadClock => action@ is ReadClock,
            Action::ReadSignal => action@ is ReadSignal,
            Action::IsTerminal => action@ is IsTerminal,
            Action::GetWinsize => action@ is GetWinsize,
            Action::Panic => action@ is Panic,
        },
{
}

/// An event stands for what it carries, all of it.
pub proof fn law_events_are_shown_whole(event: Event<Vec<u8>, String>)
    ensures
        match event {
            Event::Done => event@ is Done,
            Event::Waited(result) => event@ == Entry::Waited(result),
            Event::Clock(now) => event@ == Entry::Clock(now),
            Event::Polled(revents) => event@ == Entry::Polled(revents),
            Event::PollFailed(errno, error) => event@ == Entry::PollFailed(errno, error@),
            Event::Read(Some(bytes)) => event@ == Entry::Read(Some(bytes@)),
            Event::Read(None) => event@ == Entry::Read(None),
            Event::Signal(signo) => event@ == Entry::Signal(signo),
            Event::Terminal(ret) => event@ == Entry::Terminal(ret),
            Event::Winsize(ret, size) => event@ == Entry::Winsize(ret, size),
        },
{
}

/// The supervision's record stands for what it holds.
pub proof fn law_record_is_shown_whole(event_loop: EventLoop)
    ensures
        event_loop@.stop_command == event_loop.stop_command@,
        event_loop@.stop_timeout == event_loop.stop_timeout,
        event_loop@.piped == event_loop.piped,
        event_loop@.watch_server == event_loop.watch_server,
        event_loop@.watch_stdin == event_loop.watch_stdin,
        event_loop@.can_poll == event_loop.can_poll,
        event_loop@.stop_deadline == event_loop.stop_deadline,
        event_loop@.pipe == event_loop.pipe,
        event_loop@.stdin == event_loop.stdin,
        event_loop@.signals == event_loop.signals,
{
}

} // verus!
