use mc_server_init::args::Cli;
use mc_server_init::event_loop::{Action, Event};
use mc_server_init::reap::WaitResult;
use mc_server_init::run::{Run, RunAction, RunEvent, PIPE_FLAGS};
use mc_server_init::winsize::Winsize;
use nix::libc;

type Doing = RunAction<Vec<u8>, String, Vec<Vec<u8>>>;
type Happened = RunEvent<Vec<u8>, String>;

const SIZE: Winsize = Winsize { ws_row: 50, ws_col: 132, ws_xpixel: 0, ws_ypixel: 0 };
const FALLBACK: Winsize = Winsize { ws_row: 24, ws_col: 80, ws_xpixel: 0, ws_ypixel: 0 };
const PIPE: &str = "/tmp/console-in";

fn program(argv: &[&str]) -> Run {
    Run::new(Cli {
        console_pipe: PIPE.to_string(),
        stop_timeout: 60,
        stop_command: "stop".to_string(),
        argv: argv.iter().map(|arg| arg.to_string()).collect(),
    })
}

/// Hands the events over, one after the other, and checks the action that each
/// one answers.
fn play(run: Run, script: Vec<(Doing, Happened)>) -> Run {
    let mut run = run;
    for (action, event) in script {
        assert_eq!(run.action(), action);
        run = run.step(event);
    }
    run
}

fn log(text: &str) -> (Doing, Happened) {
    (RunAction::Log(text.to_string()), RunEvent::Done)
}

fn failed(action: Doing) -> (Doing, Happened) {
    (action, RunEvent::Failed("EIO: I/O error".to_string()))
}

/// Up to the fork, without a terminal.
fn to_fork(inner_fd: i32) -> Run {
    play(
        program(&["java", "-jar"]),
        vec![
            (RunAction::IsTerminal, RunEvent::Returned(0)),
            (RunAction::OpenPty(FALLBACK), RunEvent::PtyOpened(inner_fd)),
            (RunAction::BlockSignals, RunEvent::Done),
        ],
    )
}

/// Up to the opening of the named pipe.
fn to_pipe() -> Run {
    play(
        to_fork(4),
        vec![
            (RunAction::Fork, RunEvent::InParent(17)),
            (RunAction::CloseInner, RunEvent::Done),
            (RunAction::OpenSignals, RunEvent::Done),
            (RunAction::RemovePipe(PIPE.to_string()), RunEvent::Done),
            (RunAction::MakePipe(PIPE.to_string(), 0o600), RunEvent::Done),
        ],
    )
}

/// Up to the question whether the standard input is a terminal.
fn to_stdin() -> Run {
    play(
        to_pipe(),
        vec![(RunAction::OpenPipe(PIPE.to_string(), PIPE_FLAGS), RunEvent::Done)],
    )
}

fn start() -> (Doing, Happened) {
    log("[mc-server-init] supervising pid 17 (console pipe: /tmp/console-in, stop after 60s)")
}

fn ended(code: i32) -> (Doing, Happened) {
    (
        RunAction::Supervise(Action::Reap),
        RunEvent::Supervised(Event::Waited(WaitResult::Exited(code))),
    )
}

#[test]
fn nul_in_argument_exits_with_2() {
    let run = play(
        program(&["java", "a\0b"]),
        vec![log("[mc-server-init] a program argument contains a NUL byte")],
    );
    assert_eq!(run.action(), RunAction::Exit(2));
}

#[test]
fn nul_in_argument_comes_before_nul_in_path() {
    let run = play(
        Run::new(Cli {
            console_pipe: "/tmp/\0".to_string(),
            stop_timeout: 60,
            stop_command: "stop".to_string(),
            argv: vec!["java\0".to_string()],
        }),
        vec![log("[mc-server-init] a program argument contains a NUL byte")],
    );
    assert_eq!(run.action(), RunAction::Exit(2));
}

#[test]
fn own_terminal_gives_the_size() {
    let run = play(
        program(&["java"]),
        vec![
            (RunAction::IsTerminal, RunEvent::Returned(1)),
            (RunAction::GetWinsize, RunEvent::Winsize(0, SIZE)),
        ],
    );
    assert_eq!(run.action(), RunAction::OpenPty(SIZE));
}

#[test]
fn unknown_size_falls_back() {
    let run = play(
        program(&["java"]),
        vec![
            (RunAction::IsTerminal, RunEvent::Returned(1)),
            (RunAction::GetWinsize, RunEvent::Winsize(-1, SIZE)),
        ],
    );
    assert_eq!(run.action(), RunAction::OpenPty(FALLBACK));
}

#[test]
fn failed_openpty_exits_with_1() {
    let run = play(
        program(&["java"]),
        vec![
            (RunAction::IsTerminal, RunEvent::Returned(0)),
            failed(RunAction::OpenPty(FALLBACK)),
            log("[mc-server-init] openpty failed: EIO: I/O error"),
        ],
    );
    assert_eq!(run.action(), RunAction::Exit(1));
}

#[test]
fn failed_block_exits_with_1() {
    let run = play(
        program(&["java"]),
        vec![
            (RunAction::IsTerminal, RunEvent::Returned(0)),
            (RunAction::OpenPty(FALLBACK), RunEvent::PtyOpened(4)),
            failed(RunAction::BlockSignals),
            log("[mc-server-init] sigprocmask failed: EIO: I/O error"),
        ],
    );
    assert_eq!(run.action(), RunAction::Exit(1));
}

#[test]
fn failed_fork_exits_with_1() {
    let run = play(
        to_fork(4),
        vec![
            failed(RunAction::Fork),
            log("[mc-server-init] fork failed: EIO: I/O error"),
        ],
    );
    assert_eq!(run.action(), RunAction::Exit(1));
}

#[test]
fn failed_signalfd_waits_and_exits_with_1() {
    let run = play(
        to_fork(4),
        vec![
            (RunAction::Fork, RunEvent::InParent(17)),
            (RunAction::CloseInner, RunEvent::Done),
            failed(RunAction::OpenSignals),
            log("[mc-server-init] signalfd failed: EIO: I/O error"),
            (RunAction::WaitChild, RunEvent::Done),
        ],
    );
    assert_eq!(run.action(), RunAction::Exit(1));
}

#[test]
fn child_becomes_the_server() {
    let run = play(
        to_fork(4),
        vec![
            (RunAction::Fork, RunEvent::InChild),
            (RunAction::NewSession, RunEvent::Done),
            (RunAction::TakeTerminal, RunEvent::Done),
            (RunAction::Redirect(0), RunEvent::Done),
            (RunAction::Redirect(1), RunEvent::Done),
            (RunAction::Redirect(2), RunEvent::Done),
            (RunAction::CloseInner, RunEvent::Done),
            (RunAction::CloseOuter, RunEvent::Done),
            (RunAction::UnblockSignals, RunEvent::Done),
            failed(RunAction::Exec(vec![b"java".to_vec(), b"-jar".to_vec()])),
            log("[mc-server-init] exec failed: EIO: I/O error"),
        ],
    );
    assert_eq!(run.action(), RunAction::ExitNow(127));
}

#[test]
fn standard_descriptor_is_not_closed_in_the_child() {
    for inner_fd in 0..3 {
        let run = play(
            to_fork(inner_fd),
            vec![
                (RunAction::Fork, RunEvent::InChild),
                (RunAction::NewSession, RunEvent::Done),
                (RunAction::TakeTerminal, RunEvent::Done),
                (RunAction::Redirect(0), RunEvent::Done),
                (RunAction::Redirect(1), RunEvent::Done),
                (RunAction::Redirect(2), RunEvent::Done),
            ],
        );
        assert_eq!(run.action(), RunAction::CloseOuter);
    }
}

#[test]
fn failed_mkfifo_is_reported() {
    let run = play(
        to_fork(4),
        vec![
            (RunAction::Fork, RunEvent::InParent(17)),
            (RunAction::CloseInner, RunEvent::Done),
            (RunAction::OpenSignals, RunEvent::Done),
            (RunAction::RemovePipe(PIPE.to_string()), RunEvent::Done),
            failed(RunAction::MakePipe(PIPE.to_string(), 0o600)),
            log("[mc-server-init] mkfifo /tmp/console-in failed: EIO: I/O error"),
        ],
    );
    assert_eq!(run.action(), RunAction::OpenPipe(PIPE.to_string(), PIPE_FLAGS));
}

#[test]
fn pipe_is_opened_for_both_ends_without_blocking() {
    assert_eq!(PIPE_FLAGS, libc::O_RDWR | libc::O_CLOEXEC | libc::O_NONBLOCK);
}

#[test]
fn unopened_pipe_panics_while_the_server_runs() {
    let run = play(
        to_pipe(),
        vec![
            failed(RunAction::OpenPipe(PIPE.to_string(), PIPE_FLAGS)),
            (RunAction::IsTerminal, RunEvent::Returned(1)),
            (RunAction::GetTermios, RunEvent::Returned(0)),
            (RunAction::SetRaw, RunEvent::Returned(0)),
            start(),
            (
                RunAction::Supervise(Action::Reap),
                RunEvent::Supervised(Event::Waited(WaitResult::Running)),
            ),
        ],
    );
    assert_eq!(run.action(), RunAction::Supervise(Action::Panic));
    let run = run.step(RunEvent::Supervised(Event::Waited(WaitResult::Exited(0))));
    assert_eq!(run.action(), RunAction::Supervise(Action::Panic));
    assert_eq!(run.step(RunEvent::Done).action(), RunAction::Supervise(Action::Panic));
}

#[test]
fn unopened_pipe_does_not_hide_the_servers_end() {
    let run = play(
        to_pipe(),
        vec![
            failed(RunAction::OpenPipe(PIPE.to_string(), PIPE_FLAGS)),
            (RunAction::IsTerminal, RunEvent::Returned(0)),
            start(),
            ended(3),
            (RunAction::RemovePipe(PIPE.to_string()), RunEvent::Done),
        ],
    );
    assert_eq!(run.action(), RunAction::Exit(3));
}

#[test]
fn raw_terminal_is_restored() {
    let run = play(
        to_stdin(),
        vec![
            (RunAction::IsTerminal, RunEvent::Returned(1)),
            (RunAction::GetTermios, RunEvent::Returned(0)),
            (RunAction::SetRaw, RunEvent::Returned(0)),
            start(),
            ended(5),
            (RunAction::RestoreTermios, RunEvent::Done),
            (RunAction::RemovePipe(PIPE.to_string()), RunEvent::Done),
        ],
    );
    assert_eq!(run.action(), RunAction::Exit(5));
}

#[test]
fn terminal_that_is_not_raw_is_left_alone() {
    let attempts: Vec<Vec<(Doing, Happened)>> = vec![
        vec![(RunAction::IsTerminal, RunEvent::Returned(0))],
        vec![
            (RunAction::IsTerminal, RunEvent::Returned(1)),
            (RunAction::GetTermios, RunEvent::Returned(-1)),
        ],
        vec![
            (RunAction::IsTerminal, RunEvent::Returned(1)),
            (RunAction::GetTermios, RunEvent::Returned(0)),
            (RunAction::SetRaw, RunEvent::Returned(-1)),
        ],
    ];
    for attempt in attempts {
        let run = play(to_stdin(), attempt);
        let run = play(
            run,
            vec![
                start(),
                ended(0),
                (RunAction::RemovePipe(PIPE.to_string()), RunEvent::Done),
            ],
        );
        assert_eq!(run.action(), RunAction::Exit(0));
    }
}

#[test]
fn supervision_goes_on_until_the_server_ends() {
    let run = play(
        to_stdin(),
        vec![
            (RunAction::IsTerminal, RunEvent::Returned(0)),
            start(),
            (
                RunAction::Supervise(Action::Reap),
                RunEvent::Supervised(Event::Waited(WaitResult::Running)),
            ),
            (
                RunAction::Supervise(Action::Poll { server: true, stdin: true, timeout: None }),
                RunEvent::Supervised(Event::PollFailed(4, String::new())),
            ),
            ended(143),
        ],
    );
    assert_eq!(run.action(), RunAction::RemovePipe(PIPE.to_string()));
}

#[test]
fn negative_process_numbers_are_printed_with_a_sign() {
    let run = play(
        to_fork(4),
        vec![
            (RunAction::Fork, RunEvent::InParent(-2147483648)),
            (RunAction::CloseInner, RunEvent::Done),
            (RunAction::OpenSignals, RunEvent::Done),
            (RunAction::RemovePipe(PIPE.to_string()), RunEvent::Done),
            (RunAction::MakePipe(PIPE.to_string(), 0o600), RunEvent::Done),
            (RunAction::OpenPipe(PIPE.to_string(), PIPE_FLAGS), RunEvent::Done),
            (RunAction::IsTerminal, RunEvent::Returned(0)),
        ],
    );
    assert_eq!(
        run.action(),
        RunAction::Log(
            "[mc-server-init] supervising pid -2147483648 (console pipe: /tmp/console-in, \
             stop after 60s)"
                .to_string()
        )
    );
}

#[test]
fn end_of_the_program_is_final() {
    let run = play(
        program(&["\0"]),
        vec![log("[mc-server-init] a program argument contains a NUL byte")],
    );
    assert_eq!(run.step(RunEvent::Done).action(), RunAction::Exit(2));
}
