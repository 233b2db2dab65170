//! Reading from and writing to descriptors that move fewer bytes than asked.

use vstd::prelude::*;

verus! {

/// Size of the buffer that descriptors are read into.
pub const BUF: usize = 8192;

/// A copy of `bytes`.
pub(crate) fn copied(bytes: &[u8]) -> (copy: Vec<u8>)
    ensures
        copy@ == bytes@,
{
    let mut copy: Vec<u8> = Vec::new();
    copy.extend_from_slice(bytes);
    assert(copy@ =~= bytes@);
    copy
}

/// What a read that returned `count` brought into `buf`: the first `count`
/// bytes, or nothing at the end of the input and on an error.
pub open spec fn received(count: isize, buf: Seq<u8>) -> Option<Seq<u8>> {
    if count > 0 {
        Some(buf.take(count as int))
    } else {
        None
    }
}

/// What a read that returned `count` brought into `buf`.
pub fn read_fd(count: isize, buf: &[u8]) -> (bytes: Option<Vec<u8>>)
    requires
        count <= buf@.len(),
    ensures
        bytes is Some <==> received(count, buf@) is Some,
        bytes matches Some(bytes) ==> Some(bytes@) == received(count, buf@),
        bytes is Some <==> count > 0,
        bytes matches Some(bytes) ==> bytes@.len() == count && forall|i: int|
            0 <= i < count ==> bytes@[i] == buf@[i],
{
    if count > 0 {
        let chunk = vstd::slice::slice_subrange(buf, 0, count as usize);
        assert(chunk@ =~= buf@.take(count as int));
        Some(copied(chunk))
    } else {
        None
    }
}

/// What is left to write of `rest` after a write that returned `count`: the
/// bytes behind those that were accepted, or nothing once a write accepts
/// none, when the remainder is dropped.
pub open spec fn left_after(rest: Seq<u8>, count: int) -> Seq<u8> {
    if count <= 0 {
        Seq::empty()
    } else {
        rest.skip(count)
    }
}

/// The bytes of `rest` that a write that returned `count` accepted.
pub open spec fn taken_by(rest: Seq<u8>, count: int) -> Seq<u8> {
    if count <= 0 {
        Seq::empty()
    } else {
        rest.take(count)
    }
}

/// Writes a buffer piece by piece. Its view is what is left to write.
#[derive(Debug)]
pub struct WriteAll {
    buf: Vec<u8>,
    sent: usize,
}

impl View for WriteAll {
    type V = Seq<u8>;

    closed spec fn view(&self) -> Seq<u8> {
        self.buf@.skip(self.sent as int)
    }
}

impl WriteAll {
    #[verifier::type_invariant]
    spec fn wf(self) -> bool {
        self.sent <= self.buf.len()
    }

    /// Starts writing all of `buf`.
    pub fn new(buf: Vec<u8>) -> (writer: WriteAll)
        ensures
            writer@ == buf@,
    {
        let writer = WriteAll { buf, sent: 0 };
        assert(writer@ =~= buf@);
        writer
    }

    /// What to write next, or `None` when nothing is left.
    pub fn rest(&self) -> (rest: Option<&[u8]>)
        ensures
            rest is None <==> self@.len() == 0,
            rest matches Some(bytes) ==> bytes@ == self@,
    {
        proof {
            use_type_invariant(self);
        }
        let len = self.buf.len();
        if self.sent == len {
            None
        } else {
            let bytes = vstd::slice::slice_subrange(self.buf.as_slice(), self.sent, len);
            assert(bytes@ =~= self@);
            Some(bytes)
        }
    }

    /// Takes note of a write of the rest that returned `count`.
    pub fn wrote(self, count: isize) -> (writer: WriteAll)
        requires
            count <= self@.len(),
        ensures
            writer@ == left_after(self@, count as int),
            count <= 0 ==> writer@.len() == 0,
            count > 0 ==> writer@ == self@.skip(count as int),
    {
        proof {
            use_type_invariant(&self);
        }
        let ghost before = self@;
        let WriteAll { buf, sent } = self;
        let writer = if count <= 0 {
            let len = buf.len();
            WriteAll { buf, sent: len }
        } else {
            WriteAll { buf, sent: sent + count as usize }
        };
        assert(writer@ =~= left_after(before, count as int));
        writer
    }
}

/// A read brings as many bytes as it counted, each as it stands in the buffer,
/// and nothing if it counted none.
pub proof fn law_read_brings_what_it_counted(count: isize, buf: Seq<u8>)
    requires
        count <= buf.len(),
    ensures
        received(count, buf) is Some <==> count > 0,
        received(count, buf) matches Some(bytes) ==> bytes.len() == count && forall|i: int|
            0 <= i < count ==> bytes[i] == buf[i],
{
}

/// A write that accepts something leaves what stands behind the bytes that it
/// accepted, in its order; one that accepts nothing leaves nothing to write.
pub proof fn law_write_leaves_what_it_did_not_accept(rest: Seq<u8>, count: int)
    requires
        count <= rest.len(),
    ensures
        count <= 0 ==> left_after(rest, count).len() == 0,
        count > 0 ==> left_after(rest, count).len() == rest.len() - count,
        count > 0 ==> forall|i: int|
            count <= i < rest.len() ==> left_after(rest, count)[i - count] == #[trigger] rest[i],
{
    if count > 0 {
        assert forall|i: int| count <= i < rest.len() implies left_after(rest, count)[i - count]
            == #[trigger] rest[i] by {
            assert(rest.skip(count)[i - count] == rest[i]);
        }
    }
}

/// Whether `counts` are what successive writes of `buf` can return: each
/// accepts no more than it was given, and there is none once nothing is left.
pub open spec fn possible_counts(buf: Seq<u8>, counts: Seq<int>) -> bool
    decreases counts.len(),
{
    counts.len() == 0 || {
        &&& buf.len() > 0
        &&& counts[0] <= buf.len()
        &&& possible_counts(left_after(buf, counts[0]), counts.drop_first())
    }
}

/// What is left of `buf` after writes that returned `counts`.
pub open spec fn left_after_all(buf: Seq<u8>, counts: Seq<int>) -> Seq<u8>
    decreases counts.len(),
{
    if counts.len() == 0 {
        buf
    } else {
        left_after_all(left_after(buf, counts[0]), counts.drop_first())
    }
}

/// All bytes that writes of `buf` that returned `counts` accepted, in order.
pub open spec fn taken_by_all(buf: Seq<u8>, counts: Seq<int>) -> Seq<u8>
    decreases counts.len(),
{
    if counts.len() == 0 {
        Seq::empty()
    } else {
        taken_by(buf, counts[0]) + taken_by_all(left_after(buf, counts[0]), counts.drop_first())
    }
}

/// However the writes are cut, what arrives is a prefix of the buffer: nothing
/// is repeated, skipped or reordered.
pub proof fn law_writes_deliver_a_prefix(buf: Seq<u8>, counts: Seq<int>)
    requires
        possible_counts(buf, counts),
    ensures
        taken_by_all(buf, counts).is_prefix_of(buf),
    decreases counts.len(),
{
    if counts.len() > 0 {
        let rest = left_after(buf, counts[0]);
        law_writes_deliver_a_prefix(rest, counts.drop_first());
        let tail = taken_by_all(rest, counts.drop_first());
        if counts[0] > 0 {
            assert(buf =~= buf.take(counts[0]) + rest);
            assert(taken_by_all(buf, counts) =~= buf.take((counts[0] + tail.len()) as int));
        } else {
            assert(taken_by_all(buf, counts) =~= Seq::<u8>::empty());
        }
    }
}

/// Writes that all accept something lose nothing: what arrived and what is
/// left make up the buffer, so the whole buffer arrives once nothing is left.
pub proof fn law_successful_writes_deliver_all(buf: Seq<u8>, counts: Seq<int>)
    requires
        possible_counts(buf, counts),
        forall|i: int| 0 <= i < counts.len() ==> counts[i] > 0,
    ensures
        taken_by_all(buf, counts) + left_after_all(buf, counts) == buf,
        left_after_all(buf, counts).len() == 0 ==> taken_by_all(buf, counts) == buf,
    decreases counts.len(),
{
    if counts.len() > 0 {
        let rest = left_after(buf, counts[0]);
        assert forall|i: int| 0 <= i < counts.drop_first().len() implies counts.drop_first()[i]
            > 0 by {
            assert(counts.drop_first()[i] == counts[i + 1]);
        }
        law_successful_writes_deliver_all(rest, counts.drop_first());
        assert(buf =~= buf.take(counts[0]) + rest);
        assert(taken_by_all(buf, counts) + left_after_all(buf, counts) =~= buf.take(counts[0]) + (
        taken_by_all(rest, counts.drop_first()) + left_after_all(rest, counts.drop_first())));
    } else {
        assert(taken_by_all(buf, counts) + left_after_all(buf, counts) =~= buf);
    }
    if left_after_all(buf, counts).len() == 0 {
        assert(taken_by_all(buf, counts) =~= taken_by_all(buf, counts) + left_after_all(
            buf,
            counts,
        ));
    }
}

} // verus!
