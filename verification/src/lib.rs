//! The decisions of a PID-1 init that runs a game server behind a
//! pseudo-terminal.
//!
//! The program around this library performs system calls and nothing else: it
//! asks [`run::Run`] for the next action, performs it, and hands the outcome
//! back as an event. What to do next, which bytes go where, when the server is
//! asked to stop, when it is killed and with which code the program exits are
//! decided here.

pub mod args;
pub mod clock;
pub mod console;
pub mod event_loop;
pub mod loop_laws;
pub mod pass_laws;
pub mod poll;
pub mod reap;
pub mod run;
pub mod run_laws;
pub mod signals;
pub mod text;
pub mod transfer;
pub mod winsize;

