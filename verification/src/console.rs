//! The bytes that go to the server's console.

use vstd::prelude::*;
use vstd::utf8::encode_utf8;
use crate::transfer::copied;

verus! {

/// The byte that a terminal in raw mode sends for Ctrl+C.
pub const ETX: u8 = 0x03;

/// Whether Ctrl+C was typed among `bytes`.
pub open spec fn interrupts(bytes: Seq<u8>) -> bool {
    bytes.contains(ETX)
}

/// `bytes` without the Ctrl+C bytes.
pub open spec fn without_etx(bytes: Seq<u8>) -> Seq<u8> {
    bytes.filter(|byte: u8| byte != ETX)
}

/// The line that asks the server to stop: the command and a line feed.
pub open spec fn stop_line(command: Seq<char>) -> Seq<u8> {
    encode_utf8(command).push(10u8)
}

/// Whether Ctrl+C was typed among `bytes`.
pub fn contains_etx(bytes: &Vec<u8>) -> (found: bool)
    ensures
        found == interrupts(bytes@),
{
    let mut i: usize = 0;
    while i < bytes.len()
        invariant
            i <= bytes.len(),
            forall|j: int| 0 <= j < i ==> bytes@[j] != ETX,
        decreases bytes.len() - i,
    {
        if bytes[i] == ETX {
            assert(bytes@[i as int] == ETX);
            return true;
        }
        i += 1;
    }
    false
}

/// The bytes to pass on: all but Ctrl+C, in order.
pub fn strip_etx(bytes: &Vec<u8>) -> (rest: Vec<u8>)
    ensures
        rest@ == without_etx(bytes@),
{
    let mut rest: Vec<u8> = Vec::new();
    let mut i: usize = 0;
    let ghost keep = |byte: u8| byte != ETX;
    assert(bytes@.take(0).filter(keep) =~= Seq::<u8>::empty()) by {
        reveal(Seq::filter);
    }
    while i < bytes.len()
        invariant
            i <= bytes.len(),
            keep == (|byte: u8| byte != ETX),
            rest@ == bytes@.take(i as int).filter(keep),
        decreases bytes.len() - i,
    {
        proof {
            reveal(Seq::filter);
            assert(bytes@.take(i + 1).drop_last() =~= bytes@.take(i as int));
        }
        if bytes[i] != ETX {
            rest.push(bytes[i]);
        }
        i += 1;
    }
    assert(bytes@.take(i as int) =~= bytes@);
    rest
}

/// The line that asks the server to stop.
pub fn stop_bytes(command: &String) -> (line: Vec<u8>)
    ensures
        line@ == stop_line(command@),
{
    let mut line = copied(command.as_str().as_bytes());
    line.push(10);
    line
}

/// No Ctrl+C byte is passed on, and input without one is passed on unchanged.
pub proof fn law_ctrl_c_is_never_forwarded(bytes: Seq<u8>)
    ensures
        !without_etx(bytes).contains(ETX),
        !interrupts(bytes) ==> without_etx(bytes) == bytes,
    decreases bytes.len(),
{
    reveal(Seq::filter);
    let keep = |byte: u8| byte != ETX;
    if bytes.len() > 0 {
        let front = bytes.drop_last();
        law_ctrl_c_is_never_forwarded(front);
        let kept = front.filter(keep);
        if bytes.last() != ETX {
            assert forall|i: int| 0 <= i < kept.push(bytes.last()).len() implies kept.push(
                bytes.last(),
            )[i] != ETX by {
                if i < kept.len() {
                    assert(kept.contains(kept[i]));
                }
            }
        }
        if !interrupts(bytes) {
            assert(bytes.last() != ETX) by {
                assert(bytes[bytes.len() - 1] == bytes.last());
            }
            assert(!interrupts(front)) by {
                if interrupts(front) {
                    let i = choose|i: int| 0 <= i < front.len() && front[i] == ETX;
                    assert(bytes[i] == ETX);
                }
            }
            assert(bytes =~= front.push(bytes.last()));
        }
    }
}

/// Only Ctrl+C bytes are taken out, wherever they stand: input that arrives in
/// two pieces is passed on as the pieces are, and every other byte is kept.
pub proof fn law_other_bytes_are_forwarded(one: Seq<u8>, other: Seq<u8>, byte: u8)
    ensures
        without_etx(one + other) == without_etx(one) + without_etx(other),
        without_etx(seq![byte]) == if byte == 3 {
            Seq::<u8>::empty()
        } else {
            seq![byte]
        },
    decreases other.len(),
{
    reveal(Seq::filter);
    assert(without_etx(Seq::empty()) =~= Seq::<u8>::empty());
    assert(seq![byte].drop_last() =~= Seq::<u8>::empty());
    assert(without_etx(seq![byte]) =~= if byte == 3 {
        Seq::<u8>::empty()
    } else {
        seq![byte]
    });
    if other.len() == 0 {
        assert(one + other =~= one);
        assert(without_etx(one) + without_etx(other) =~= without_etx(one));
    } else {
        law_other_bytes_are_forwarded(one, other.drop_last(), byte);
        assert((one + other).drop_last() =~= one + other.drop_last());
        assert((one + other).last() == other.last());
        assert(without_etx(one + other) =~= without_etx(one) + without_etx(other));
    }
}

/// Ctrl+C is noticed wherever it stands, and nothing else is taken for it.
pub proof fn law_ctrl_c_is_noticed(bytes: Seq<u8>)
    ensures
        interrupts(bytes) <==> exists|i: int| 0 <= i < bytes.len() && bytes[i] == 3,
        interrupts(bytes) <==> without_etx(bytes).len() < bytes.len(),
    decreases bytes.len(),
{
    reveal(Seq::filter);
    if bytes.len() > 0 {
        let front = bytes.drop_last();
        law_ctrl_c_is_noticed(front);
        assert(bytes[bytes.len() - 1] == bytes.last());
        if interrupts(front) {
            let i = choose|i: int| 0 <= i < front.len() && front[i] == ETX;
            assert(bytes[i] == ETX);
        }
        if interrupts(bytes) && bytes.last() != ETX {
            let i = choose|i: int| 0 <= i < bytes.len() && bytes[i] == ETX;
            assert(front[i] == ETX);
        }
    }
}

/// The stop line is the command, in UTF-8, and one line feed behind it.
pub proof fn law_stop_line_is_the_command(command: Seq<char>)
    ensures
        stop_line(command).len() == encode_utf8(command).len() + 1,
        encode_utf8(command).is_prefix_of(stop_line(command)),
        stop_line(command).last() == 10,
{
    assert(encode_utf8(command) =~= stop_line(command).take(encode_utf8(command).len() as int));
}

} // verus!
