//! What holds of every course that the program can take.
//!
//! A history is the sequence of the events that the program was handed since
//! it started.

use vstd::prelude::*;
use vstd::utf8::encode_utf8;
use crate::args::{
    free_of_nul, law_every_argument_is_encoded, law_one_nul_spoils_the_arguments, CliView,
};
use crate::event_loop::{start, Action, Event, LoopState, Phase};
use crate::loop_laws;
use crate::loop_laws::{
    code_given, end_reported, is_code_of, law_exit_code_is_the_servers,
    law_panic_only_without_pipe,
};
use crate::reap::WaitResult;
use crate::run::{
    begin, Run, RunAction, RunEvent, RunPhase, RunState, EXIT_FAILURE, EXIT_USAGE, PIPE_FLAGS,
};
use crate::text::{
    exec_failed, fork_failed, mkfifo_failed, nul_in_argument, openpty_failed, signalfd_failed,
    sigprocmask_failed, supervising,
};
use crate::winsize::Winsize;

verus! {

/// An event of a history.
pub type RunEntry = RunEvent<Seq<u8>, Seq<char>>;

/// An action, over sequences.
pub type Doing = RunAction<Seq<u8>, Seq<char>, Seq<Seq<u8>>>;

/// The state that `history` leads to from `state`.
pub open spec fn after(state: RunState, history: Seq<RunEntry>) -> RunState
    decreases history.len(),
{
    if history.len() == 0 {
        state
    } else {
        after(state, history.drop_last()).next(history.last())
    }
}

/// The events that the supervision was handed.
pub open spec fn loop_history(state: RunState, history: Seq<RunEntry>) -> Seq<loop_laws::Entry>
    decreases history.len(),
{
    if history.len() == 0 {
        Seq::empty()
    } else {
        let earlier = loop_history(state, history.drop_last());
        match (after(state, history.drop_last()).phase, history.last()) {
            (RunPhase::Supervising(_), RunEvent::Supervised(event)) => earlier.push(event),
            _ => earlier,
        }
    }
}

/// Whether the named pipe was opened.
pub open spec fn pipe_is_open(state: RunState, history: Seq<RunEntry>) -> bool
    decreases history.len(),
{
    history.len() > 0 && match (after(state, history.drop_last()).action(), history.last()) {
        (RunAction::OpenPipe(_, _), RunEvent::Done) => true,
        (RunAction::OpenPipe(_, _), RunEvent::Failed(_)) => false,
        _ => pipe_is_open(state, history.drop_last()),
    }
}

/// The state in which the supervision starts in the course of `history`.
pub open spec fn supervision_start(cli: CliView, history: Seq<RunEntry>) -> LoopState {
    start(cli.stop_command, cli.stop_timeout, pipe_is_open(begin(cli), history))
}

/// The state of the supervision that `history` leads to, once it has started.
pub open spec fn supervision(cli: CliView, history: Seq<RunEntry>) -> LoopState {
    loop_laws::after(supervision_start(cli, history), loop_history(begin(cli), history))
}

/// Whether the program left the standard input's terminal in raw mode.
pub open spec fn terminal_is_raw(state: RunState, history: Seq<RunEntry>) -> bool
    decreases history.len(),
{
    history.len() > 0 && match (after(state, history.drop_last()).action(), history.last()) {
        (RunAction::SetRaw, RunEvent::Returned(ret)) => ret == 0,
        (RunAction::RestoreTermios, RunEvent::Done) => false,
        _ => terminal_is_raw(state, history.drop_last()),
    }
}

/// Whether the program tried to make the named pipe and has not removed it since.
pub open spec fn pipe_is_left(state: RunState, history: Seq<RunEntry>) -> bool
    decreases history.len(),
{
    history.len() > 0 && match (after(state, history.drop_last()).action(), history.last()) {
        (RunAction::MakePipe(_, _), RunEvent::Done) => true,
        (RunAction::MakePipe(_, _), RunEvent::Failed(_)) => true,
        (RunAction::RemovePipe(_), RunEvent::Done) => false,
        _ => pipe_is_left(state, history.drop_last()),
    }
}

/// Whether the managed signals are blocked.
pub open spec fn signals_are_blocked(state: RunState, history: Seq<RunEntry>) -> bool
    decreases history.len(),
{
    history.len() > 0 && match (after(state, history.drop_last()).action(), history.last()) {
        (RunAction::BlockSignals, RunEvent::Done) => true,
        (RunAction::UnblockSignals, RunEvent::Done) => false,
        _ => signals_are_blocked(state, history.drop_last()),
    }
}

/// The state after `count` actions were performed, of which nothing else is
/// known.
pub open spec fn all_done(state: RunState, count: nat) -> RunState
    decreases count,
{
    if count == 0 {
        state
    } else {
        all_done(state, (count - 1) as nat).next(RunEvent::Done)
    }
}

/// Whether a process is the child, on its way to become the server.
pub open spec fn is_child(state: RunState) -> bool {
    match state.phase {
        RunPhase::LeadingSession => true,
        RunPhase::TakingTerminal => true,
        RunPhase::Redirecting(_) => true,
        RunPhase::ClosingSpare => true,
        RunPhase::ClosingOuter => true,
        RunPhase::Unblocking => true,
        RunPhase::Executing => true,
        RunPhase::ReportingExec(_) => true,
        RunPhase::Quitting => true,
        _ => false,
    }
}

/// The actions by which the child becomes the server.
pub open spec fn child_actions(inner_fd: i32, args: Seq<Seq<u8>>) -> Seq<Doing> {
    let redirect: Seq<Doing> = seq![
        RunAction::NewSession,
        RunAction::TakeTerminal,
        RunAction::Redirect(0),
        RunAction::Redirect(1),
        RunAction::Redirect(2),
    ];
    let close: Seq<Doing> = if inner_fd > 2 {
        seq![RunAction::CloseInner]
    } else {
        Seq::empty()
    };
    let exec: Seq<Doing> = seq![
        RunAction::CloseOuter,
        RunAction::UnblockSignals,
        RunAction::Exec(args),
    ];
    redirect + close + exec
}

/// The command line stays what it was.
proof fn lemma_cli_stays(state: RunState, history: Seq<RunEntry>)
    ensures
        after(state, history).cli == state.cli,
    decreases history.len(),
{
    if history.len() > 0 {
        lemma_cli_stays(state, history.drop_last());
    }
}

/// The program knows whether the named pipe was opened.
proof fn lemma_piped(cli: CliView, history: Seq<RunEntry>)
    ensures
        after(begin(cli), history).piped == pipe_is_open(begin(cli), history),
    decreases history.len(),
{
    if history.len() > 0 {
        lemma_piped(cli, history.drop_last());
    }
}

/// How the phase, the events of the supervision and the exit code go together.
proof fn lemma_course(cli: CliView, history: Seq<RunEntry>)
    ensures
        ({
            let events = loop_history(begin(cli), history);
            let usable = free_of_nul(cli.argv);
            let given = if usable { EXIT_FAILURE } else { EXIT_USAGE };
            let phase = after(begin(cli), history).phase;
            &&& match phase {
                RunPhase::Supervising(state) => state == supervision(cli, history)
                    && !(state.phase is Finished),
                RunPhase::Restoring(code) => events.len() > 0 && supervision(cli, history).phase
                    == Phase::<Seq<u8>, Seq<char>>::Finished(code),
                RunPhase::RemovingPipe(code) => events.len() > 0 && supervision(cli, history).phase
                    == Phase::<Seq<u8>, Seq<char>>::Finished(code),
                RunPhase::Exited(code) => if events.len() > 0 {
                    supervision(cli, history).phase == Phase::<Seq<u8>, Seq<char>>::Finished(code)
                } else {
                    code == given
                },
                RunPhase::Reporting(_, code) => events.len() == 0 && code == given,
                _ => events.len() == 0,
            }
            &&& !usable ==> events.len() == 0 && (phase is Reporting || phase is Exited)
        }),
    decreases history.len(),
{
    if history.len() > 0 {
        let earlier = history.drop_last();
        lemma_course(cli, earlier);
        lemma_cli_stays(begin(cli), earlier);
        lemma_piped(cli, earlier);
        lemma_piped(cli, history);
        let events = loop_history(begin(cli), history);
        if let (RunPhase::Supervising(_), RunEvent::Supervised(event)) = (
            after(begin(cli), earlier).phase,
            history.last(),
        ) {
            assert(events.drop_last() =~= loop_history(begin(cli), earlier));
        }
    }
}

/// While the server is supervised, the supervision is the one that its own
/// events led to: whatever holds of every supervision holds of this one.
pub proof fn law_supervision_runs_its_course(
    cli: CliView,
    history: Seq<RunEntry>,
    action: Action<Seq<u8>, Seq<char>>,
)
    requires
        after(begin(cli), history).action() == Doing::Supervise(action),
    ensures
        action == supervision(cli, history).action(),
{
    lemma_course(cli, history);
}

/// A program that supervised the server ends only when the supervision is
/// over, and with the exit code of the server.
pub proof fn law_exit_code_is_propagated(cli: CliView, history: Seq<RunEntry>, code: i32)
    requires
        after(begin(cli), history).action() == Doing::Exit(code),
        loop_history(begin(cli), history).len() > 0,
    ensures
        supervision(cli, history).action() == Action::<Seq<u8>, Seq<char>>::Return(code),
        code_given(supervision_start(cli, history), loop_history(begin(cli), history)) == Some(
            code,
        ),
{
    lemma_course(cli, history);
    law_exit_code_is_the_servers(
        cli.stop_command,
        cli.stop_timeout,
        pipe_is_open(begin(cli), history),
        loop_history(begin(cli), history),
        code,
    );
}

/// A program that never supervised the server ends with 2 if an argument holds
/// a NUL byte, and with 1 otherwise.
pub proof fn law_exit_code_without_server(cli: CliView, history: Seq<RunEntry>, code: i32)
    requires
        after(begin(cli), history).action() == Doing::Exit(code),
        loop_history(begin(cli), history).len() == 0,
    ensures
        code == if free_of_nul(cli.argv) {
            1int
        } else {
            2int
        },
{
    lemma_course(cli, history);
}

/// Arguments with a NUL byte are reported, and nothing else is done with them.
pub proof fn law_nul_is_rejected(cli: CliView)
    requires
        !free_of_nul(cli.argv),
    ensures
        begin(cli).action() == Doing::Log(nul_in_argument()),
        begin(cli).next(RunEvent::Done).action() == Doing::Exit(2),
{
}

/// Nothing follows the end of the program.
pub proof fn law_exit_is_final(state: RunState, history: Seq<RunEntry>)
    requires
        state.phase is Exited,
    ensures
        after(state, history) == state,
    decreases history.len(),
{
    if history.len() > 0 {
        law_exit_is_final(state, history.drop_last());
    }
}

/// What is left to tidy up, by phase.
proof fn lemma_leftovers(cli: CliView, history: Seq<RunEntry>)
    ensures
        ({
            let state = after(begin(cli), history);
            let raw = terminal_is_raw(begin(cli), history);
            let pipe = pipe_is_left(begin(cli), history);
            match state.phase {
                RunPhase::ReportingPipe(_) => !raw && !state.raw && pipe,
                RunPhase::OpeningPipe => !raw && !state.raw && pipe,
                RunPhase::AskingStdin => !raw && !state.raw && pipe,
                RunPhase::GettingTermios => !raw && !state.raw && pipe,
                RunPhase::SettingRaw => !raw && !state.raw && pipe,
                RunPhase::ReportingStart => raw == state.raw && pipe,
                RunPhase::Supervising(_) => raw == state.raw && pipe,
                RunPhase::Restoring(_) => raw && pipe,
                RunPhase::RemovingPipe(_) => !raw && pipe,
                RunPhase::Exited(_) => !raw && !pipe,
                _ => !raw && !state.raw && !pipe,
            }
        }),
    decreases history.len(),
{
    if history.len() > 0 {
        lemma_leftovers(cli, history.drop_last());
    }
}

/// When the program ends with an exit code, the terminal is out of raw mode and
/// the named pipe is removed, whatever happened before.
pub proof fn law_program_tidies_up(cli: CliView, history: Seq<RunEntry>, code: i32)
    requires
        after(begin(cli), history).action() == Doing::Exit(code),
    ensures
        !terminal_is_raw(begin(cli), history),
        !pipe_is_left(begin(cli), history),
{
    lemma_leftovers(cli, history);
}

/// In which phases the managed signals are blocked.
proof fn lemma_signals(cli: CliView, history: Seq<RunEntry>)
    ensures
        ({
            let blocked = signals_are_blocked(begin(cli), history);
            match after(begin(cli), history).phase {
                RunPhase::Reporting(_, _) => true,
                RunPhase::AskingTerminal => !blocked,
                RunPhase::AskingWinsize => !blocked,
                RunPhase::OpeningPty(_) => !blocked,
                RunPhase::BlockingSignals => !blocked,
                RunPhase::Executing => !blocked,
                RunPhase::ReportingExec(_) => !blocked,
                RunPhase::Quitting => !blocked,
                RunPhase::Exited(_) => true,
                _ => blocked,
            }
        }),
    decreases history.len(),
{
    if history.len() > 0 {
        lemma_signals(cli, history.drop_last());
    }
}

/// The managed signals are blocked before the process is split and throughout
/// the supervision, so that none is lost or breaks into a write; the server
/// starts with none blocked.
pub proof fn law_signals_are_blocked_in_time(cli: CliView, history: Seq<RunEntry>)
    ensures
        after(begin(cli), history).action() is Fork ==> signals_are_blocked(begin(cli), history),
        after(begin(cli), history).action() is Supervise ==> signals_are_blocked(
            begin(cli),
            history,
        ),
        after(begin(cli), history).action() is Exec ==> !signals_are_blocked(begin(cli), history),
{
    lemma_signals(cli, history);
}

/// The child gets a session of its own and the pseudo-terminal as its
/// controlling terminal and standard descriptors, closes what it does not
/// need, unblocks the signals and becomes the server, in this order.
#[verifier::rlimit(30)]
pub proof fn law_child_becomes_server(state: RunState, step: nat)
    requires
        state.action() is Fork,
        step < child_actions(state.inner_fd, state.args).len(),
    ensures
        all_done(state.next(RunEvent::InChild), step).action() == child_actions(
            state.inner_fd,
            state.args,
        )[step as int],
{
    reveal_with_fuel(all_done, 10);
    assert(step < 9);
}

/// A child that cannot become the server says so and ends with 127.
pub proof fn law_failed_exec_is_reported(state: RunState, error: Seq<char>)
    requires
        state.action() is Exec,
    ensures
        state.next(RunEvent::Failed(error)).action() == Doing::Log(exec_failed(error)),
        state.next(RunEvent::Failed(error)).next(RunEvent::Done).action() == Doing::ExitNow(127),
{
}

/// The child never does the parent's work: it never supervises, never touches
/// the named pipe or the terminal's mode, and never tidies up.
pub proof fn law_child_stays_child(state: RunState, history: Seq<RunEntry>)
    requires
        is_child(state),
    ensures
        is_child(after(state, history)),
    decreases history.len(),
{
    if history.len() > 0 {
        law_child_stays_child(state, history.drop_last());
    }
}

/// The pseudo-terminal gets the size of the program's own terminal, and 24
/// rows of 80 characters where there is none or its size cannot be had.
pub proof fn law_size_is_copied(state: RunState, terminal: i32, query: i32, size: Winsize)
    requires
        state.phase is AskingTerminal,
    ensures
        ({
            let standard = Winsize { ws_row: 24, ws_col: 80, ws_xpixel: 0, ws_ypixel: 0 };
            let asked = state.next(RunEvent::Returned(terminal));
            &&& terminal == 1 ==> {
                &&& asked.action() == Doing::GetWinsize
                &&& asked.next(RunEvent::Winsize(query, size)).action() == Doing::OpenPty(
                    if query == 0 {
                        size
                    } else {
                        standard
                    },
                )
            }
            &&& terminal != 1 ==> asked.action() == Doing::OpenPty(standard)
        }),
{
}

/// A set-up step that fails is reported, and the program ends with 1; if the
/// server runs by then, it is waited for first.
pub proof fn law_failed_setup_is_reported(state: RunState, error: Seq<char>)
    ensures
        ({
            let failed = state.next(RunEvent::Failed(error));
            &&& state.action() is OpenPty ==> {
                &&& failed.action() == Doing::Log(openpty_failed(error))
                &&& failed.next(RunEvent::Done).action() == Doing::Exit(1)
            }
            &&& state.action() is BlockSignals ==> {
                &&& failed.action() == Doing::Log(sigprocmask_failed(error))
                &&& failed.next(RunEvent::Done).action() == Doing::Exit(1)
            }
            &&& state.action() is Fork ==> {
                &&& failed.action() == Doing::Log(fork_failed(error))
                &&& failed.next(RunEvent::Done).action() == Doing::Exit(1)
            }
            &&& state.action() is OpenSignals ==> {
                &&& failed.action() == Doing::Log(signalfd_failed(error))
                &&& failed.next(RunEvent::Done).action() == Doing::WaitChild
                &&& failed.next(RunEvent::Done).next(RunEvent::Done).action() == Doing::Exit(1)
            }
        }),
{
}

/// The named pipe replaces whatever is at its path and is opened; if it cannot
/// be made, that is reported, and the program goes on. It goes on for now if the
/// pipe cannot be opened, too, and keeps that in mind.
pub proof fn law_pipe_is_set_up(state: RunState, error: Seq<char>)
    requires
        state.action() is OpenSignals,
    ensures
        ({
            let path = state.cli.console_pipe;
            let removing = state.next(RunEvent::Done);
            let making = removing.next(RunEvent::Done);
            let failed = making.next(RunEvent::Failed(error));
            let opening = making.next(RunEvent::Done);
            &&& removing.action() == Doing::RemovePipe(path)
            &&& making.action() == Doing::MakePipe(path, 0o600)
            &&& opening.action() == Doing::OpenPipe(path, PIPE_FLAGS)
            &&& failed.action() == Doing::Log(mkfifo_failed(path, error))
            &&& failed.next(RunEvent::Done) == opening
            &&& opening.next(RunEvent::Done).action() == Doing::IsTerminal
            &&& opening.next(RunEvent::Done).piped
            &&& opening.next(RunEvent::Failed(error)).action() == Doing::IsTerminal
            &&& !opening.next(RunEvent::Failed(error)).piped
        }),
{
}

/// If the pipe could not be opened, the first look at the server decides: if it
/// has ended, the program tidies up to end with its exit code, and otherwise the
/// program panics.
pub proof fn law_first_look_decides_without_pipe(state: RunState, result: WaitResult)
    requires
        state.phase == RunPhase::<Seq<char>, LoopState>::Supervising(
            start(state.cli.stop_command, state.cli.stop_timeout, false),
        ),
    ensures
        ({
            let looked = state.next(RunEvent::Supervised(Event::Waited(result)));
            if result is Running || result is Failed {
                looked.action() == Doing::Supervise(Action::Panic)
            } else {
                let tidied = if state.raw {
                    looked.next(RunEvent::Done)
                } else {
                    looked
                };
                &&& state.raw ==> looked.action() == Doing::RestoreTermios
                &&& tidied.action() == Doing::RemovePipe(state.cli.console_pipe)
                &&& tidied.phase matches RunPhase::RemovingPipe(code) && is_code_of(code, result)
                &&& tidied.next(RunEvent::Done).action() matches RunAction::Exit(code)
                    && is_code_of(code, result)
            }
        }),
{
}

/// The program panics only if the pipe could not be opened, and leaves the pipe
/// and the terminal as they are. If it could not be opened, the program does
/// not poll, relay or stop anything, and it ends with an exit code of the server
/// only if the server's end was reported.
pub proof fn law_program_needs_the_pipe(cli: CliView, history: Seq<RunEntry>)
    ensures
        ({
            let state = after(begin(cli), history);
            let open = pipe_is_open(begin(cli), history);
            let events = loop_history(begin(cli), history);
            &&& state.action() == Doing::Supervise(Action::Panic) ==> {
                &&& !open
                &&& pipe_is_left(begin(cli), history)
                &&& terminal_is_raw(begin(cli), history) == state.raw
            }
            &&& state.action() matches RunAction::Supervise(action) ==> !open ==> (action is Reap
                || action is Panic)
            &&& state.action() is Exit && events.len() > 0 && !open ==> end_reported(
                supervision_start(cli, history),
                events,
            )
        }),
{
    lemma_course(cli, history);
    lemma_leftovers(cli, history);
    law_panic_only_without_pipe(
        cli.stop_command,
        cli.stop_timeout,
        pipe_is_open(begin(cli), history),
        loop_history(begin(cli), history),
    );
}

/// Nothing follows a panic: no exit code is given any more.
pub proof fn law_panic_is_final(state: RunState, history: Seq<RunEntry>)
    requires
        state.action() == Doing::Supervise(Action::Panic),
    ensures
        after(state, history) == state,
    decreases history.len(),
{
    if history.len() > 0 {
        law_panic_is_final(state, history.drop_last());
    }
}

/// A terminal on the standard input is put into raw mode if its mode could be
/// kept, and the supervision starts either way, after it is announced.
pub proof fn law_terminal_goes_raw(state: RunState, terminal: i32, get: i32, set: i32)
    requires
        state.phase is AskingStdin,
    ensures
        ({
            let asked = state.next(RunEvent::Returned(terminal));
            let kept = asked.next(RunEvent::Returned(get));
            let ready = if terminal != 1 {
                asked
            } else if get != 0 {
                kept
            } else {
                kept.next(RunEvent::Returned(set))
            };
            &&& terminal == 1 ==> asked.action() == Doing::GetTermios
            &&& terminal == 1 && get == 0 ==> kept.action() == Doing::SetRaw
            &&& terminal == 1 && get == 0 ==> ready.raw == (set == 0)
            &&& terminal != 1 || get != 0 ==> ready.raw == state.raw
            &&& ready.action() == Doing::Log(
                supervising(state.pid, state.cli.console_pipe, state.cli.stop_timeout),
            )
            &&& ready.next(RunEvent::Done).action() == Doing::Supervise(
                start(state.cli.stop_command, state.cli.stop_timeout, state.piped).action(),
            )
        }),
{
}

/// The program starts with a NUL byte reported exactly if a byte of an argument
/// is 0, and with its set-up otherwise.
pub proof fn law_only_nul_is_rejected(cli: CliView)
    ensures
        ({
            let spoiled = exists|i: int, j: int|
                0 <= i < cli.argv.len() && 0 <= j < encode_utf8(cli.argv[i]).len()
                    && #[trigger] encode_utf8(cli.argv[i])[j] == 0;
            &&& spoiled ==> begin(cli).action() == Doing::Log(nul_in_argument())
            &&& !spoiled ==> begin(cli).action() == Doing::IsTerminal
        }),
{
    law_one_nul_spoils_the_arguments(cli.argv);
}

/// The prepared arguments stay what they were.
proof fn lemma_args_stay(state: RunState, history: Seq<RunEntry>)
    ensures
        after(state, history).args == state.args,
    decreases history.len(),
{
    if history.len() > 0 {
        lemma_args_stay(state, history.drop_last());
    }
}

/// The server gets every argument of the command line, in its place and in
/// UTF-8, and no other.
pub proof fn law_server_gets_its_arguments(
    cli: CliView,
    history: Seq<RunEntry>,
    args: Seq<Seq<u8>>,
)
    requires
        after(begin(cli), history).action() == Doing::Exec(args),
    ensures
        args.len() == cli.argv.len(),
        forall|i: int| 0 <= i < cli.argv.len() ==> #[trigger] args[i] == encode_utf8(cli.argv[i]),
{
    lemma_args_stay(begin(cli), history);
    lemma_course(cli, history);
    law_every_argument_is_encoded(cli.argv, Seq::empty());
}

/// Whether `event` is an outcome that `action` can have.
pub open spec fn answers(action: Doing, event: RunEntry) -> bool {
    match event {
        RunEvent::Done => match action {
            RunAction::Log(_) => true,
            RunAction::BlockSignals => true,
            RunAction::NewSession => true,
            RunAction::TakeTerminal => true,
            RunAction::Redirect(_) => true,
            RunAction::CloseInner => true,
            RunAction::CloseOuter => true,
            RunAction::UnblockSignals => true,
            RunAction::OpenSignals => true,
            RunAction::WaitChild => true,
            RunAction::RemovePipe(_) => true,
            RunAction::MakePipe(_, _) => true,
            RunAction::OpenPipe(_, _) => true,
            RunAction::RestoreTermios => true,
            _ => false,
        },
        RunEvent::Failed(_) => match action {
            RunAction::OpenPty(_) => true,
            RunAction::BlockSignals => true,
            RunAction::Fork => true,
            RunAction::Exec(_) => true,
            RunAction::OpenSignals => true,
            RunAction::MakePipe(_, _) => true,
            RunAction::OpenPipe(_, _) => true,
            _ => false,
        },
        RunEvent::Returned(_) => action is IsTerminal || action is GetTermios || action is SetRaw,
        RunEvent::Winsize(_, _) => action is GetWinsize,
        RunEvent::PtyOpened(_) => action is OpenPty,
        RunEvent::InChild => action is Fork,
        RunEvent::InParent(_) => action is Fork,
        RunEvent::Supervised(_) => action is Supervise,
    }
}

/// An event that is no outcome of the current action changes nothing.
pub proof fn law_stray_events_change_nothing(state: RunState, event: RunEntry)
    requires
        !answers(state.action(), event),
    ensures
        state.next(event) == state,
{
}

/// How many actions the program has ahead of it at most, the supervision taken
/// for one.
pub open spec fn steps_ahead(phase: RunPhase<Seq<char>, LoopState>) -> nat {
    match phase {
        RunPhase::AskingTerminal => 30,
        RunPhase::AskingWinsize => 29,
        RunPhase::OpeningPty(_) => 28,
        RunPhase::BlockingSignals => 27,
        RunPhase::Forking => 26,
        RunPhase::LeadingSession => 25,
        RunPhase::TakingTerminal => 24,
        RunPhase::Redirecting(fd) => if fd < 2 {
            (23 - fd) as nat
        } else {
            21
        },
        RunPhase::ClosingSpare => 20,
        RunPhase::ClosingOuter => 19,
        RunPhase::Unblocking => 18,
        RunPhase::Executing => 17,
        RunPhase::ReportingExec(_) => 16,
        RunPhase::Quitting => 0,
        RunPhase::ClosingInner => 25,
        RunPhase::OpeningSignals => 24,
        RunPhase::RemovingStale => 23,
        RunPhase::MakingPipe => 22,
        RunPhase::ReportingPipe(_) => 21,
        RunPhase::OpeningPipe => 20,
        RunPhase::AskingStdin => 19,
        RunPhase::GettingTermios => 18,
        RunPhase::SettingRaw => 17,
        RunPhase::ReportingStart => 16,
        RunPhase::Supervising(_) => 15,
        RunPhase::Restoring(_) => 14,
        RunPhase::RemovingPipe(_) => 13,
        RunPhase::ReportingSignals(_) => 2,
        RunPhase::Abandoning => 1,
        RunPhase::Reporting(_, _) => 1,
        RunPhase::Exited(_) => 0,
    }
}

/// The program never turns back: every outcome of an action but those of the
/// supervision brings it nearer to its end.
pub proof fn law_every_answer_moves_on(state: RunState, event: RunEntry)
    requires
        answers(state.action(), event),
        !(state.action() is Supervise),
    ensures
        steps_ahead(state.next(event).phase) < steps_ahead(state.phase),
{
}

/// What the program keeps in mind changes only with the outcome that brings it:
/// the inner side's descriptor when the terminal is opened, the number of the
/// server's process when it is started, the pipe and the raw mode when they are
/// set up. The command line and the arguments never change.
pub proof fn law_only_outcomes_are_remembered(state: RunState, event: RunEntry)
    ensures
        ({
            let next = state.next(event);
            &&& next.cli == state.cli
            &&& next.args == state.args
            &&& next.inner_fd == match (state.action(), event) {
                (RunAction::OpenPty(_), RunEvent::PtyOpened(fd)) => fd,
                _ => state.inner_fd,
            }
            &&& next.pid == match (state.action(), event) {
                (RunAction::Fork, RunEvent::InParent(pid)) => pid,
                _ => state.pid,
            }
            &&& next.piped == match (state.action(), event) {
                (RunAction::OpenPipe(_, _), RunEvent::Done) => true,
                (RunAction::OpenPipe(_, _), RunEvent::Failed(_)) => false,
                _ => state.piped,
            }
            &&& next.raw == match (state.action(), event) {
                (RunAction::SetRaw, RunEvent::Returned(ret)) => ret == 0,
                _ => state.raw,
            }
        }),
{
}

/// Once the terminal is open, the signals are blocked, then the process is
/// split, and the parent closes the inner side and opens the descriptor for the
/// signals.
pub proof fn law_setup_runs_in_order(state: RunState, fd: i32, pid: i32)
    requires
        state.action() is OpenPty,
    ensures
        ({
            let opened = state.next(RunEvent::PtyOpened(fd));
            let blocked = opened.next(RunEvent::Done);
            let parent = blocked.next(RunEvent::InParent(pid));
            &&& opened.action() == Doing::BlockSignals
            &&& blocked.action() == Doing::Fork
            &&& parent.action() == Doing::CloseInner
            &&& parent.next(RunEvent::Done).action() == Doing::OpenSignals
        }),
{
}

/// The supervision has its way until it gives an exit code. Then the terminal
/// gets its mode back if it was changed, the pipe is removed, and the program
/// ends with that code.
pub proof fn law_end_is_tidied_up(state: RunState, supervision: LoopState, event: loop_laws::Entry)
    requires
        state.phase == RunPhase::<Seq<char>, LoopState>::Supervising(supervision),
    ensures
        ({
            let action = supervision.next(event).action();
            let next = state.next(RunEvent::Supervised(event));
            let tidied = if state.raw {
                next.next(RunEvent::Done)
            } else {
                next
            };
            &&& !(action is Return) ==> next.action() == Doing::Supervise(action)
            &&& action matches Action::Return(code) ==> {
                &&& state.raw ==> next.action() == Doing::RestoreTermios
                &&& tidied.action() == Doing::RemovePipe(state.cli.console_pipe)
                &&& tidied.next(RunEvent::Done).action() == Doing::Exit(code)
            }
        }),
{
}

/// An action stands for what it carries, all of it.
pub proof fn law_actions_are_shown_whole(action: RunAction<Vec<u8>, String, Vec<Vec<u8>>>)
    ensures
        match action {
            RunAction::Log(text) => action@ == Doing::Log(text@),
            RunAction::OpenPty(size) => action@ == Doing::OpenPty(size),
            RunAction::Redirect(fd) => action@ == Doing::Redirect(fd),
            RunAction::Exec(args) => action@ matches RunAction::Exec(shown) && shown.len()
                == args@.len() && forall|i: int|
                0 <= i < args@.len() ==> shown[i] == #[trigger] args@[i]@,
            RunAction::ExitNow(code) => action@ == Doing::ExitNow(code),
            RunAction::RemovePipe(path) => action@ == Doing::RemovePipe(path@),
            RunAction::MakePipe(path, mode) => action@ == Doing::MakePipe(path@, mode),
            RunAction::OpenPipe(path, flags) => action@ == Doing::OpenPipe(path@, flags),
            RunAction::Supervise(inner) => action@ == Doing::Supervise(inner@),
            RunAction::Exit(code) => action@ == Doing::Exit(code),
            RunAction::IsTerminal => action@ is IsTerminal,
            RunAction::GetWinsize => action@ is GetWinsize,
            RunAction::BlockSignals => action@ is BlockSignals,
            RunAction::Fork => action@ is Fork,
            RunAction::NewSession => action@ is NewSession,
            RunAction::TakeTerminal => action@ is TakeTerminal,
            RunAction::CloseInner => action@ is CloseInner,
            RunAction::CloseOuter => action@ is CloseOuter,
            RunAction::UnblockSignals => action@ is UnblockSignals,
            RunAction::OpenSignals => action@ is OpenSignals,
            RunAction::WaitChild => action@ is WaitChild,
            RunAction::GetTermios => action@ is GetTermios,
            RunAction::SetRaw => action@ is SetRaw,
            RunAction::RestoreTermios => action@ is RestoreTermios,
        },
{
}

/// An event stands for what it carries, all of it.
pub proof fn law_events_are_shown_whole(event: RunEvent<Vec<u8>, String>)
    ensures
        match event {
            RunEvent::Done => event@ is Done,
            RunEvent::Failed(error) => event@ == RunEntry::Failed(error@),
            RunEvent::Returned(ret) => event@ == RunEntry::Returned(ret),
            RunEvent::Winsize(ret, size) => event@ == RunEntry::Winsize(ret, size),
            RunEvent::PtyOpened(fd) => event@ == RunEntry::PtyOpened(fd),
            RunEvent::InChild => event@ is InChild,
            RunEvent::InParent(pid) => event@ == RunEntry::InParent(pid),
            RunEvent::Supervised(inner) => event@ == RunEntry::Supervised(inner@),
        },
{
}

/// The program's record stands for what it holds.
pub proof fn law_record_is_shown_whole(run: Run)
    ensures
        run@.cli == run.cli@,
        run@.args.len() == run.args@.len(),
        forall|i: int| 0 <= i < run.args@.len() ==> run@.args[i] == #[trigger] run.args@[i]@,
        run@.inner_fd == run.inner_fd,
        run@.pid == run.pid,
        run@.piped == run.piped,
        run@.raw == run.raw,
{
}

} // verus!
