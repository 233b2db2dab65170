//! The size of a terminal.

use vstd::prelude::*;

verus! {

/// The size of a terminal, in characters and in pixels.
#[derive(Clone, Copy, Debug, PartialEq, Eq, Structural)]
pub struct Winsize {
    pub ws_row: u16,
    pub ws_col: u16,
    pub ws_xpixel: u16,
    pub ws_ypixel: u16,
}

/// The size where the program has no terminal of its own: 24 rows of 80
/// characters.
pub open spec fn fallback() -> Winsize {
    Winsize { ws_row: 24, ws_col: 80, ws_xpixel: 0, ws_ypixel: 0 }
}

/// Whether a terminal test that returned `ret` found a terminal.
pub open spec fn says_terminal(ret: i32) -> bool {
    ret == 1
}

/// The size that a query that returned `ret` and filled in `size` reports.
pub open spec fn queried(ret: i32, size: Winsize) -> Option<Winsize> {
    if ret == 0 {
        Some(size)
    } else {
        None
    }
}

/// The size of the server's terminal: that of the program's own if it has one.
pub open spec fn or_fallback(size: Option<Winsize>) -> Winsize {
    match size {
        Some(size) => size,
        None => fallback(),
    }
}

/// Whether a terminal test that returned `ret` found a terminal.
pub fn is_terminal(ret: i32) -> (found: bool)
    ensures
        found == says_terminal(ret),
{
    ret == 1
}

/// The size that a query that returned `ret` and filled in `size` reports.
pub fn current_winsize(ret: i32, size: Winsize) -> (current: Option<Winsize>)
    ensures
        current == queried(ret, size),
{
    if ret == 0 {
        Some(size)
    } else {
        None
    }
}

/// The size of the server's terminal.
pub fn initial_winsize(size: Option<Winsize>) -> (initial: Winsize)
    ensures
        initial == or_fallback(size),
{
    match size {
        Some(size) => size,
        None => Winsize { ws_row: 24, ws_col: 80, ws_xpixel: 0, ws_ypixel: 0 },
    }
}

/// Only an answer of 1 says that there is a terminal, and only a query that
/// returns 0 has a size to report: the one that it filled in.
pub proof fn law_answers_about_the_terminal(ret: i32, size: Winsize)
    ensures
        says_terminal(ret) <==> ret == 1,
        queried(ret, size) is Some <==> ret == 0,
        queried(ret, size) matches Some(found) ==> found == size,
{
}

/// A size that is known is used, and otherwise 24 rows of 80 characters, of no
/// known size in pixels.
pub proof fn law_known_size_is_used(size: Winsize)
    ensures
        or_fallback(Some(size)) == size,
        or_fallback(None).ws_row == 24,
        or_fallback(None).ws_col == 80,
        or_fallback(None).ws_xpixel == 0,
        or_fallback(None).ws_ypixel == 0,
{
}

} // verus!
