use mc_server_init::event_loop::{Action, Event, EventLoop, Sink, Source};
use mc_server_init::poll::{Revents, POLLERR, POLLHUP, POLLIN, POLLNVAL};
use mc_server_init::reap::WaitResult;
use mc_server_init::winsize::Winsize;
use nix::libc;

type Doing = Action<Vec<u8>, String>;
type Happened = Event<Vec<u8>, String>;

const SECOND: u64 = 1_000_000_000;
const QUIET: Revents = Revents { server: Some(0), pipe: Some(0), signals: Some(0), stdin: Some(0) };

fn new_loop() -> EventLoop {
    EventLoop::new("stop".to_string(), 60, true)
}

/// Hands the events over, one after the other, and checks the action that each
/// one answers.
fn play(event_loop: EventLoop, script: Vec<(Doing, Happened)>) -> EventLoop {
    let mut event_loop = event_loop;
    for (action, event) in script {
        assert_eq!(event_loop.action(), action);
        event_loop = event_loop.step(event);
    }
    event_loop
}

fn running() -> (Doing, Happened) {
    (Action::Reap, Event::Waited(WaitResult::Running))
}

fn polled(stdin: bool, timeout: Option<u16>, revents: Revents) -> (Doing, Happened) {
    (Action::Poll { server: true, stdin, timeout }, Event::Polled(revents))
}

/// A poll without the server's terminal.
fn polled_alone(timeout: Option<u16>, revents: Revents) -> (Doing, Happened) {
    (Action::Poll { server: false, stdin: true, timeout }, Event::Polled(revents))
}

fn read(source: Source, bytes: &[u8]) -> (Doing, Happened) {
    (Action::Read(source), Event::Read(Some(bytes.to_vec())))
}

fn write(sink: Sink, bytes: &[u8]) -> (Doing, Happened) {
    (Action::Write(sink, bytes.to_vec()), Event::Done)
}

fn log(text: &str) -> (Doing, Happened) {
    (Action::Log(text.to_string()), Event::Done)
}

fn signal(signo: i32) -> (Doing, Happened) {
    (Action::ReadSignal, Event::Signal(Some(signo)))
}

fn drained() -> (Doing, Happened) {
    (Action::ReadSignal, Event::Signal(None))
}

/// A pass in which a stop is asked for by SIGTERM at the time `now`.
fn stop_at(now: u64) -> Vec<(Doing, Happened)> {
    vec![
        running(),
        polled(true, None, Revents { signals: Some(POLLIN), ..QUIET }),
        signal(libc::SIGTERM),
        log("\n[mc-server-init] stopping: sending `stop`"),
        write(Sink::Server, b"stop\n"),
        (Action::ReadClock, Event::Clock(now)),
        drained(),
    ]
}

#[test]
fn end_of_server_returns_its_code() {
    let event_loop = play(
        new_loop(),
        vec![(Action::Reap, Event::Waited(WaitResult::Exited(7)))],
    );
    assert_eq!(event_loop.action(), Action::Return(7));
    assert_eq!(event_loop.step(Event::Done).action(), Action::Return(7));
}

#[test]
fn server_output_goes_to_stdout() {
    let event_loop = play(
        new_loop(),
        vec![
            running(),
            polled(true, None, Revents { server: Some(POLLIN | POLLHUP), ..QUIET }),
            read(Source::Server, b"> \x1b[0m"),
            write(Sink::Stdout, b"> \x1b[0m"),
        ],
    );
    assert_eq!(event_loop.action(), Action::Reap);
}

#[test]
fn end_of_output_looks_at_the_server() {
    let event_loop = play(
        new_loop(),
        vec![
            running(),
            polled(true, None, Revents { server: Some(POLLIN), ..QUIET }),
            (Action::Read(Source::Server), Event::Read(None)),
            (Action::Reap, Event::Waited(WaitResult::Signaled(11))),
        ],
    );
    assert_eq!(event_loop.action(), Action::Return(139));
}

#[test]
fn hangup_looks_at_the_server() {
    for bits in [POLLHUP, POLLERR] {
        let event_loop = play(
            new_loop(),
            vec![
                running(),
                polled(true, None, Revents { server: Some(bits), pipe: Some(POLLIN), ..QUIET }),
                (Action::Reap, Event::Waited(WaitResult::Exited(4))),
            ],
        );
        assert_eq!(event_loop.action(), Action::Return(4));
    }
}

#[test]
fn failed_wait_after_a_hangup_returns_0() {
    let event_loop = play(
        new_loop(),
        vec![
            (Action::Reap, Event::Waited(WaitResult::Failed)),
            polled(true, None, Revents { server: Some(POLLHUP), ..QUIET }),
            (Action::Reap, Event::Waited(WaitResult::Failed)),
        ],
    );
    assert_eq!(event_loop.action(), Action::Return(0));
}

#[test]
fn server_that_hung_up_is_not_watched() {
    let event_loop = play(
        new_loop(),
        vec![
            running(),
            polled(true, None, Revents { server: Some(POLLHUP), ..QUIET }),
            running(),
            polled_alone(
                Some(1000),
                Revents { server: Some(POLLIN), signals: Some(POLLIN), ..QUIET },
            ),
            signal(libc::SIGCHLD),
            drained(),
            (Action::Reap, Event::Waited(WaitResult::Exited(6))),
        ],
    );
    assert_eq!(event_loop.action(), Action::Return(6));
}

#[test]
fn server_that_hung_up_is_looked_at_every_second() {
    let event_loop = play(
        new_loop(),
        vec![
            running(),
            polled(true, None, Revents { server: Some(POLLHUP), ..QUIET }),
            running(),
            polled_alone(Some(1000), QUIET),
            running(),
            polled_alone(Some(1000), QUIET),
            (Action::Reap, Event::Waited(WaitResult::Failed)),
        ],
    );
    assert_eq!(event_loop.action(), Action::Return(0));
}

#[test]
fn server_without_a_pipe_is_looked_at_once() {
    let new_loop = || EventLoop::new("stop".to_string(), 60, false);
    let looks = [
        (WaitResult::Exited(7), Action::Return(7)),
        (WaitResult::Signaled(9), Action::Return(137)),
        (WaitResult::Running, Action::Panic),
        (WaitResult::Failed, Action::Panic),
    ];
    for (result, action) in looks {
        let event_loop = play(new_loop(), vec![(Action::Reap, Event::Waited(result))]);
        assert_eq!(event_loop.action(), action);
        assert_eq!(event_loop.step(Event::Done).action(), action);
    }
}

#[test]
fn hangup_during_a_stop_keeps_the_deadline() {
    let event_loop = play(new_loop(), stop_at(0));
    let event_loop = play(
        event_loop,
        vec![
            running(),
            (Action::ReadClock, Event::Clock(SECOND)),
            polled(true, Some(1000), Revents { server: Some(POLLHUP), ..QUIET }),
            running(),
            (Action::ReadClock, Event::Clock(59 * SECOND + 500_000_000)),
            polled_alone(Some(500), QUIET),
            running(),
            (Action::ReadClock, Event::Clock(60 * SECOND)),
            log("[mc-server-init] stop timed out; sending SIGKILL"),
            (Action::Kill(libc::SIGKILL), Event::Done),
            (Action::Wait, Event::Waited(WaitResult::Signaled(9))),
        ],
    );
    assert_eq!(event_loop.action(), Action::Return(137));
}

#[test]
fn end_of_output_during_a_stop_keeps_the_deadline() {
    let event_loop = play(new_loop(), stop_at(0));
    let event_loop = play(
        event_loop,
        vec![
            running(),
            (Action::ReadClock, Event::Clock(SECOND)),
            polled(true, Some(1000), Revents { server: Some(POLLIN), ..QUIET }),
            (Action::Read(Source::Server), Event::Read(None)),
            running(),
            (Action::ReadClock, Event::Clock(61 * SECOND)),
            log("[mc-server-init] stop timed out; sending SIGKILL"),
            (Action::Kill(libc::SIGKILL), Event::Done),
            (Action::Wait, Event::Waited(WaitResult::Signaled(9))),
        ],
    );
    assert_eq!(event_loop.action(), Action::Return(137));
}

#[test]
fn stop_after_a_hangup_is_bounded() {
    let event_loop = play(
        new_loop(),
        vec![
            running(),
            polled(true, None, Revents { server: Some(POLLHUP), ..QUIET }),
            running(),
            polled_alone(Some(1000), Revents { signals: Some(POLLIN), ..QUIET }),
            signal(libc::SIGTERM),
            log("\n[mc-server-init] stopping: sending `stop`"),
            write(Sink::Server, b"stop\n"),
            (Action::ReadClock, Event::Clock(0)),
            drained(),
            running(),
            (Action::ReadClock, Event::Clock(60 * SECOND)),
            log("[mc-server-init] stop timed out; sending SIGKILL"),
            (Action::Kill(libc::SIGKILL), Event::Done),
            (Action::Wait, Event::Waited(WaitResult::Signaled(9))),
        ],
    );
    assert_eq!(event_loop.action(), Action::Return(137));
}

#[test]
fn failed_poll_during_a_stop_keeps_the_deadline() {
    let event_loop = play(new_loop(), stop_at(0));
    let event_loop = play(
        event_loop,
        vec![
            running(),
            (Action::ReadClock, Event::Clock(SECOND)),
            (
                Action::Poll { server: true, stdin: true, timeout: Some(1000) },
                Event::PollFailed(libc::ENOMEM, "ENOMEM".to_string()),
            ),
            log("[mc-server-init] poll error: ENOMEM"),
            running(),
            (Action::ReadClock, Event::Clock(60 * SECOND - 7_000_000)),
            (Action::Sleep(7), Event::Done),
            drained(),
            running(),
            (Action::ReadClock, Event::Clock(60 * SECOND)),
            log("[mc-server-init] stop timed out; sending SIGKILL"),
            (Action::Kill(libc::SIGKILL), Event::Done),
            (Action::Wait, Event::Waited(WaitResult::Signaled(9))),
        ],
    );
    assert_eq!(event_loop.action(), Action::Return(137));
}

#[test]
fn stop_after_a_failed_poll_is_bounded() {
    let event_loop = play(
        EventLoop::new("stop".to_string(), 0, true),
        vec![
            running(),
            (
                Action::Poll { server: true, stdin: true, timeout: None },
                Event::PollFailed(libc::ENOMEM, "ENOMEM".to_string()),
            ),
            log("[mc-server-init] poll error: ENOMEM"),
            running(),
            (Action::Sleep(1000), Event::Done),
            signal(libc::SIGINT),
            log("\n[mc-server-init] stopping: sending `stop`"),
            write(Sink::Server, b"stop\n"),
            (Action::ReadClock, Event::Clock(5)),
            drained(),
            running(),
            (Action::ReadClock, Event::Clock(5)),
            log("[mc-server-init] stop timed out; sending SIGKILL"),
        ],
    );
    assert_eq!(event_loop.action(), Action::Kill(libc::SIGKILL));
}

#[test]
fn pipe_goes_to_the_console() {
    let event_loop = play(
        new_loop(),
        vec![
            running(),
            polled(true, None, Revents { pipe: Some(POLLIN), ..QUIET }),
            read(Source::Pipe, b"say \x03 hi\n"),
            write(Sink::Server, b"say \x03 hi\n"),
        ],
    );
    assert_eq!(event_loop.action(), Action::Reap);
}

#[test]
fn empty_pipe_is_passed_over() {
    let event_loop = play(
        new_loop(),
        vec![
            running(),
            polled(true, None, Revents { pipe: Some(POLLIN), stdin: Some(POLLIN), ..QUIET }),
            (Action::Read(Source::Pipe), Event::Read(None)),
        ],
    );
    assert_eq!(event_loop.action(), Action::Read(Source::Stdin));
}

#[test]
fn stdin_goes_to_the_console() {
    let event_loop = play(
        new_loop(),
        vec![
            running(),
            polled(true, None, Revents { stdin: Some(POLLIN), ..QUIET }),
            read(Source::Stdin, b"list\r"),
            write(Sink::Server, b"list\r"),
        ],
    );
    assert_eq!(event_loop.action(), Action::Reap);
}

#[test]
fn all_sources_are_served_in_one_pass() {
    let ready = Some(POLLIN);
    let event_loop = play(
        new_loop(),
        vec![
            running(),
            polled(
                true,
                None,
                Revents { server: ready, pipe: ready, signals: ready, stdin: ready },
            ),
            read(Source::Server, b"out"),
            write(Sink::Stdout, b"out"),
            read(Source::Pipe, b"pipe\n"),
            write(Sink::Server, b"pipe\n"),
            read(Source::Stdin, b"in"),
            write(Sink::Server, b"in"),
            signal(libc::SIGCHLD),
            signal(libc::SIGHUP),
            drained(),
        ],
    );
    assert_eq!(event_loop.action(), Action::Reap);
}

#[test]
fn end_of_stdin_is_no_longer_watched() {
    let event_loop = play(
        new_loop(),
        vec![
            running(),
            polled(true, None, Revents { stdin: Some(POLLIN), ..QUIET }),
            (Action::Read(Source::Stdin), Event::Read(None)),
            running(),
            polled(false, None, Revents { stdin: Some(POLLIN), ..QUIET }),
        ],
    );
    assert_eq!(event_loop.action(), Action::Reap);
}

#[test]
fn broken_stdin_is_no_longer_watched() {
    for bits in [POLLHUP, POLLERR, POLLNVAL] {
        let event_loop = play(
            new_loop(),
            vec![
                running(),
                polled(true, None, Revents { stdin: Some(bits), ..QUIET }),
                running(),
            ],
        );
        assert_eq!(event_loop.action(), Action::Poll { server: true, stdin: false, timeout: None });
    }
}

#[test]
fn unreadable_reports_are_ignored() {
    let unknown = Revents { server: None, pipe: None, signals: None, stdin: None };
    let event_loop = play(new_loop(), vec![running(), polled(true, None, unknown), running()]);
    assert_eq!(event_loop.action(), Action::Poll { server: true, stdin: true, timeout: None });
}

#[test]
fn bits_without_meaning_here_are_ignored() {
    let other = Some(libc::POLLOUT | libc::POLLPRI | POLLNVAL);
    let revents = Revents { server: other, pipe: other, signals: other, stdin: Some(0) };
    let event_loop = play(new_loop(), vec![running(), polled(true, None, revents)]);
    assert_eq!(event_loop.action(), Action::Reap);
}

#[test]
fn sigterm_stops_the_server() {
    let event_loop = play(new_loop(), stop_at(5));
    assert_eq!(event_loop.stop_deadline, Some(60_000_000_005));
    assert_eq!(event_loop.action(), Action::Reap);
}

#[test]
fn second_request_changes_nothing() {
    let event_loop = play(new_loop(), stop_at(0));
    let event_loop = play(
        event_loop,
        vec![
            running(),
            (Action::ReadClock, Event::Clock(SECOND)),
            polled(
                true,
                Some(1000),
                Revents { signals: Some(POLLIN), stdin: Some(POLLIN), ..QUIET },
            ),
            read(Source::Stdin, b"\x03"),
            signal(libc::SIGINT),
            signal(libc::SIGTERM),
            drained(),
        ],
    );
    assert_eq!(event_loop.stop_deadline, Some(60_000_000_000));
    assert_eq!(event_loop.action(), Action::Reap);
}

#[test]
fn ctrl_c_stops_the_server() {
    let event_loop = play(
        EventLoop::new("end".to_string(), 1, true),
        vec![
            running(),
            polled(true, None, Revents { stdin: Some(POLLIN), ..QUIET }),
            read(Source::Stdin, b"a\x03b"),
            log("\n[mc-server-init] stopping: sending `end`"),
            write(Sink::Server, b"end\n"),
            (Action::ReadClock, Event::Clock(2)),
            write(Sink::Server, b"ab"),
        ],
    );
    assert_eq!(event_loop.stop_deadline, Some(1_000_000_002));
    assert_eq!(event_loop.action(), Action::Reap);
}

#[test]
fn bare_ctrl_c_forwards_nothing() {
    let event_loop = play(
        new_loop(),
        vec![
            running(),
            polled(true, None, Revents { stdin: Some(POLLIN), signals: Some(POLLIN), ..QUIET }),
            read(Source::Stdin, b"\x03"),
            log("\n[mc-server-init] stopping: sending `stop`"),
            write(Sink::Server, b"stop\n"),
            (Action::ReadClock, Event::Clock(0)),
        ],
    );
    assert_eq!(event_loop.action(), Action::ReadSignal);
}

#[test]
fn overrun_is_killed() {
    let event_loop = play(new_loop(), stop_at(0));
    let event_loop = play(
        event_loop,
        vec![
            running(),
            (Action::ReadClock, Event::Clock(60 * SECOND - 1)),
            polled(true, Some(0), QUIET),
            running(),
            (Action::ReadClock, Event::Clock(60 * SECOND)),
            log("[mc-server-init] stop timed out; sending SIGKILL"),
            (Action::Kill(libc::SIGKILL), Event::Done),
            (Action::Wait, Event::Waited(WaitResult::Signaled(9))),
        ],
    );
    assert_eq!(event_loop.action(), Action::Return(137));
}

#[test]
fn timely_end_is_not_killed() {
    let event_loop = play(new_loop(), stop_at(0));
    let event_loop = play(
        event_loop,
        vec![
            running(),
            (Action::ReadClock, Event::Clock(59 * SECOND + 500_000_000)),
            polled(true, Some(500), QUIET),
            (Action::Reap, Event::Waited(WaitResult::Exited(0))),
        ],
    );
    assert_eq!(event_loop.action(), Action::Return(0));
}

#[test]
fn resize_is_propagated() {
    let size = Winsize { ws_row: 50, ws_col: 132, ws_xpixel: 0, ws_ypixel: 0 };
    let event_loop = play(
        new_loop(),
        vec![
            running(),
            polled(true, None, Revents { signals: Some(POLLIN), ..QUIET }),
            signal(libc::SIGWINCH),
            (Action::IsTerminal, Event::Terminal(1)),
            (Action::GetWinsize, Event::Winsize(0, size)),
            (Action::SetWinsize(size), Event::Done),
            signal(libc::SIGWINCH),
            (Action::IsTerminal, Event::Terminal(1)),
            (Action::GetWinsize, Event::Winsize(-1, size)),
            signal(libc::SIGWINCH),
            (Action::IsTerminal, Event::Terminal(0)),
            drained(),
        ],
    );
    assert_eq!(event_loop.action(), Action::Reap);
}

#[test]
fn interrupted_poll_starts_the_next_pass() {
    let event_loop = play(
        new_loop(),
        vec![
            running(),
            (
                Action::Poll { server: true, stdin: true, timeout: None },
                Event::PollFailed(libc::EINTR, "EINTR: Interrupted system call".to_string()),
            ),
        ],
    );
    assert_eq!(event_loop.action(), Action::Reap);
}

#[test]
fn failed_poll_is_reported() {
    let event_loop = play(
        new_loop(),
        vec![
            running(),
            (
                Action::Poll { server: true, stdin: true, timeout: None },
                Event::PollFailed(libc::EINVAL, "EINVAL: Invalid argument".to_string()),
            ),
            log("[mc-server-init] poll error: EINVAL: Invalid argument"),
            (Action::Reap, Event::Waited(WaitResult::Exited(1))),
        ],
    );
    assert_eq!(event_loop.action(), Action::Return(1));
}

#[test]
fn stray_events_change_nothing() {
    let event_loop = new_loop().step(Event::Done).step(Event::Clock(3)).step(Event::Read(None));
    assert_eq!(event_loop.action(), Action::Reap);
}
