//! What a poll reported of each descriptor.

use vstd::prelude::*;
use nix::poll::PollFlags;

verus! {

/// There is data to read.
pub const POLLIN: i16 = 0x1;

/// Error condition.
pub const POLLERR: i16 = 0x8;

/// The other side hung up.
pub const POLLHUP: i16 = 0x10;

/// The descriptor is not open.
pub const POLLNVAL: i16 = 0x20;

/// The error number of a call that a signal interrupted.
pub const EINTR: i32 = 4;

/// What a poll reported of each descriptor: the event bits, or `None` where
/// the kernel reported bits that have no name.
#[derive(Clone, Copy, Debug, PartialEq, Eq, Structural)]
pub struct Revents {
    /// The server's side of the pseudo-terminal.
    pub server: Option<i16>,
    /// The named pipe for console commands.
    pub pipe: Option<i16>,
    /// The descriptor that signals are read from.
    pub signals: Option<i16>,
    /// The program's own standard input.
    pub stdin: Option<i16>,
}

/// Whether `bits` and `mask` have a bit in common.
pub open spec fn shares(bits: i16, mask: i16) -> bool {
    bits & mask != 0
}

/// The reported bits, none where the report could not be read.
pub open spec fn known(revents: Option<i16>) -> i16 {
    match revents {
        Some(bits) => bits,
        None => 0,
    }
}

/// `nix::poll::PollFlags::intersects` on two sets given by their bits: true
/// when the sets share a flag.
#[verifier::external_body]
pub(crate) fn intersects(bits: i16, mask: i16) -> (shared: bool)
    ensures
        shared == shares(bits, mask),
{
    PollFlags::from_bits_retain(bits).intersects(PollFlags::from_bits_retain(mask))
}

/// The reported bits, none where the report could not be read.
pub(crate) fn reported(revents: Option<i16>) -> (bits: i16)
    ensures
        bits == known(revents),
{
    match revents {
        Some(bits) => bits,
        None => 0,
    }
}

/// A report that could be read is taken as it is, and one that could not be
/// read reports nothing.
pub proof fn law_reports_are_taken_as_they_are(bits: i16)
    ensures
        known(Some(bits)) == bits,
        known(None) == 0,
{
}

/// Event bits are told apart by their place: data is the lowest bit, an error
/// the fourth, a hang-up the fifth, a closed descriptor the sixth.
pub proof fn law_event_bits_are_told_apart(bits: u8)
    ensures
        shares(bits as i16, POLLIN) <==> bits % 2 == 1,
        shares(bits as i16, POLLERR) <==> bits / 8 % 2 == 1,
        shares(bits as i16, POLLHUP) <==> bits / 16 % 2 == 1,
        shares(bits as i16, POLLNVAL) <==> bits / 32 % 2 == 1,
{
    assert((bits as i16) & 0x1 != 0 <==> bits % 2 == 1) by (bit_vector);
    assert((bits as i16) & 0x8 != 0 <==> bits / 8 % 2 == 1) by (bit_vector);
    assert((bits as i16) & 0x10 != 0 <==> bits / 16 % 2 == 1) by (bit_vector);
    assert((bits as i16) & 0x20 != 0 <==> bits / 32 % 2 == 1) by (bit_vector);
}

/// To share a bit with two masks together is to share one with either; to share
/// one is mutual; and a set shares one with itself unless it is empty.
pub proof fn law_masks_add_up(bits: i16, one: i16, other: i16)
    ensures
        shares(bits, one | other) <==> shares(bits, one) || shares(bits, other),
        shares(bits, one) <==> shares(one, bits),
        shares(bits, bits) <==> bits != 0,
        shares(bits & one, one) <==> shares(bits, one),
{
    assert(bits & (one | other) != 0 <==> bits & one != 0 || bits & other != 0) by (bit_vector);
    assert(bits & one == one & bits) by (bit_vector);
    assert(bits & bits == bits) by (bit_vector);
    assert((bits & one) & one == bits & one) by (bit_vector);
}

} // verus!
