//! The signals that the program manages.

use vstd::prelude::*;
use nix::sys::signal::{SigSet, Signal};

verus! {

/// Interrupt from the keyboard.
pub const SIGINT: i32 = 2;

/// Kill.
pub const SIGKILL: i32 = 9;

/// Termination request.
pub const SIGTERM: i32 = 15;

/// A child changed state.
pub const SIGCHLD: i32 = 17;

/// The terminal was resized.
pub const SIGWINCH: i32 = 28;

/// The outside set of signals, opaque but for [`members`].
#[verifier::external_type_specification]
#[verifier::external_body]
pub struct ExSigSet(nix::sys::signal::SigSet);

/// The numbers of the signals that a set holds.
pub uninterp spec fn members(set: SigSet) -> Set<i32>;

/// `nix::sys::signal::SigSet::empty`: a set that holds no signal.
#[verifier::external_body]
fn sigset_empty() -> (set: SigSet)
    ensures
        members(set) == Set::<i32>::empty(),
{
    SigSet::empty()
}

/// `nix::sys::signal::SigSet::add`, for the signal with the given number: the
/// set holds that signal besides those that it held.
#[verifier::external_body]
fn sigset_add(set: &mut SigSet, signo: i32)
    requires
        signo == SIGINT || signo == SIGTERM || signo == SIGCHLD || signo == SIGWINCH,
    ensures
        members(*final(set)) == members(*old(set)).insert(signo),
{
    set.add(Signal::try_from(signo).unwrap())
}

/// The signals that are blocked and read from a descriptor instead.
pub fn managed_signals() -> (mask: SigSet)
    ensures
        members(mask) == set![SIGTERM, SIGINT, SIGCHLD, SIGWINCH],
{
    let mut mask = sigset_empty();
    sigset_add(&mut mask, SIGTERM);
    sigset_add(&mut mask, SIGINT);
    sigset_add(&mut mask, SIGCHLD);
    sigset_add(&mut mask, SIGWINCH);
    assert(members(mask) =~= set![SIGTERM, SIGINT, SIGCHLD, SIGWINCH]);
    mask
}

/// The signal mask that the server starts with: nothing is blocked.
pub fn server_signals() -> (mask: SigSet)
    ensures
        members(mask) == Set::<i32>::empty(),
{
    sigset_empty()
}

/// What a delivered signal asks for.
#[derive(Clone, Copy, Debug, PartialEq, Eq, Structural)]
pub enum Request {
    /// Ask the server to stop.
    Stop,
    /// Give the server's terminal the size of the program's own.
    Resize,
    /// Nothing here: the end of the server is noticed on the next pass.
    Ignore,
}

/// What the signal `signo` asks for.
pub open spec fn asks_for(signo: i32) -> Request {
    if signo == SIGTERM || signo == SIGINT {
        Request::Stop
    } else if signo == SIGWINCH {
        Request::Resize
    } else {
        Request::Ignore
    }
}

/// What the signal `signo` asks for.
pub fn dispatch(signo: i32) -> (request: Request)
    ensures
        request == asks_for(signo),
{
    if signo == SIGTERM || signo == SIGINT {
        Request::Stop
    } else if signo == SIGWINCH {
        Request::Resize
    } else {
        Request::Ignore
    }
}

/// The signal that a read of `count` bytes brought, where one record has
/// `size` bytes and names the signal `signo`: none unless the record came
/// whole, which also is how the end of the pending signals shows.
pub open spec fn delivered(count: isize, size: usize, signo: u32) -> Option<i32> {
    if count == size {
        Some(signo as i32)
    } else {
        None
    }
}

/// The signal that one read from the signal descriptor brought, if any.
pub fn drain_signals(count: isize, size: usize, signo: u32) -> (signal: Option<i32>)
    ensures
        signal == delivered(count, size, signo),
{
    if count >= 0 && count as usize == size {
        Some(signo as i32)
    } else {
        None
    }
}

/// A stop is asked for by signals 2 and 15 and no other, a resize by 28 alone.
pub proof fn law_requests(signo: i32)
    ensures
        asks_for(signo) == Request::Stop <==> signo == 2 || signo == 15,
        asks_for(signo) == Request::Resize <==> signo == 28,
        asks_for(signo) == Request::Ignore <==> signo != 2 && signo != 15 && signo != 28,
{
}

/// A record that came whole delivers the signal that it names, and nothing
/// shorter or longer delivers any.
pub proof fn law_whole_record_delivers_its_signal(count: isize, size: usize, signo: u32)
    ensures
        delivered(count, size, signo) is Some <==> count == size,
        count == size && signo <= i32::MAX ==> (delivered(count, size, signo) matches Some(number)
            && number == signo),
        count == size && signo > i32::MAX ==> (delivered(count, size, signo) matches Some(number)
            && number == signo - 0x1_0000_0000),
{
    assert(signo > 0x7fff_ffff ==> signo as i32 == signo - 0x1_0000_0000) by (bit_vector);
}

} // verus!
