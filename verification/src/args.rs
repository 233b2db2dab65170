//! The command line: its values and the program arguments as C strings.

use vstd::prelude::*;
use vstd::utf8::encode_utf8;
use crate::transfer::copied;

verus! {

/// Named pipe for console commands, unless another is given.
pub const DEFAULT_CONSOLE_PIPE: &'static str = "/tmp/console-in";

/// Seconds to wait for a graceful stop, unless given otherwise.
pub const DEFAULT_STOP_TIMEOUT: u64 = 60;

/// Console command that stops the server, unless another is given.
pub const DEFAULT_STOP_COMMAND: &'static str = "stop";

/// The values of the command line.
#[derive(Debug)]
pub struct Cli {
    /// Named pipe that console commands are read from.
    pub console_pipe: String,
    /// Seconds to wait for a graceful stop before the server is killed.
    pub stop_timeout: u64,
    /// Console command sent to the server on shutdown.
    pub stop_command: String,
    /// The server program and its arguments.
    pub argv: Vec<String>,
}

/// What the values of the command line stand for.
pub struct CliView {
    pub console_pipe: Seq<char>,
    pub stop_timeout: u64,
    pub stop_command: Seq<char>,
    pub argv: Seq<Seq<char>>,
}

/// The texts of `strings`.
pub open spec fn texts(strings: Seq<String>) -> Seq<Seq<char>> {
    Seq::new(strings.len(), |i: int| strings[i]@)
}

/// The contents of `vecs`.
pub open spec fn byte_strings(vecs: Seq<Vec<u8>>) -> Seq<Seq<u8>> {
    Seq::new(vecs.len(), |i: int| vecs[i]@)
}

impl View for Cli {
    type V = CliView;

    open spec fn view(&self) -> CliView {
        CliView {
            console_pipe: self.console_pipe@,
            stop_timeout: self.stop_timeout,
            stop_command: self.stop_command@,
            argv: texts(self.argv@),
        }
    }
}

/// A program argument holds a NUL byte, so no C string can carry it.
#[derive(Clone, Copy, Debug, PartialEq, Eq, Structural)]
pub struct NulByte;

/// Whether no argument of `argv` holds a NUL byte.
pub open spec fn free_of_nul(argv: Seq<Seq<char>>) -> bool {
    forall|i: int| 0 <= i < argv.len() ==> !encode_utf8(#[trigger] argv[i]).contains(0u8)
}

/// The arguments as the bytes of C strings, without the final NUL.
pub open spec fn encoded(argv: Seq<Seq<char>>) -> Seq<Seq<u8>> {
    Seq::new(argv.len(), |i: int| encode_utf8(argv[i]))
}

/// Whether a NUL byte is among `bytes`.
fn contains_nul(bytes: &[u8]) -> (found: bool)
    ensures
        found == bytes@.contains(0u8),
{
    let mut i: usize = 0;
    while i < bytes.len()
        invariant
            i <= bytes@.len(),
            forall|j: int| 0 <= j < i ==> bytes@[j] != 0,
        decreases bytes@.len() - i,
    {
        if bytes[i] == 0 {
            assert(bytes@[i as int] == 0);
            return true;
        }
        i += 1;
    }
    false
}

/// The program and its arguments as the bytes of C strings. Arguments that
/// hold a NUL byte are rejected.
pub fn c_strings(argv: &Vec<String>) -> (strings: Result<Vec<Vec<u8>>, NulByte>)
    ensures
        strings is Ok <==> free_of_nul(texts(argv@)),
        strings matches Ok(strings) ==> byte_strings(strings@) == encoded(texts(argv@)),
        strings matches Ok(strings) ==> strings@.len() == argv@.len() && forall|i: int|
            0 <= i < argv@.len() ==> #[trigger] strings@[i]@ == encode_utf8(argv@[i]@),
        strings is Err <==> exists|i: int|
            0 <= i < argv@.len() && encode_utf8(#[trigger] argv@[i]@).contains(0u8),
{
    let mut strings: Vec<Vec<u8>> = Vec::new();
    let mut i: usize = 0;
    while i < argv.len()
        invariant
            i <= argv.len(),
            strings.len() == i,
            forall|j: int| 0 <= j < i ==> #[trigger] strings@[j]@ == encode_utf8(argv@[j]@),
            forall|j: int| 0 <= j < i ==> !encode_utf8(#[trigger] argv@[j]@).contains(0u8),
        decreases argv.len() - i,
    {
        let bytes = argv[i].as_str().as_bytes();
        if contains_nul(bytes) {
            assert(encode_utf8(argv@[i as int]@).contains(0u8));
            assert(encode_utf8(texts(argv@)[i as int]).contains(0u8));
            return Err(NulByte);
        }
        strings.push(copied(bytes));
        i += 1;
    }
    assert(byte_strings(strings@) =~= encoded(texts(argv@)));
    Ok(strings)
}

/// A copy of `strings`.
pub(crate) fn copied_all(strings: &Vec<Vec<u8>>) -> (copy: Vec<Vec<u8>>)
    ensures
        byte_strings(copy@) == byte_strings(strings@),
{
    let mut copy: Vec<Vec<u8>> = Vec::new();
    let mut i: usize = 0;
    while i < strings.len()
        invariant
            i <= strings.len(),
            copy.len() == i,
            forall|j: int| 0 <= j < i ==> #[trigger] copy@[j]@ == strings@[j]@,
        decreases strings.len() - i,
    {
        copy.push(copied(strings[i].as_slice()));
        i += 1;
    }
    assert(byte_strings(copy@) =~= byte_strings(strings@));
    copy
}

/// The command line is taken over as it was given: each text as it is, and the
/// arguments one for one.
pub proof fn law_command_line_is_kept(cli: Cli)
    ensures
        cli@.console_pipe == cli.console_pipe@,
        cli@.stop_timeout == cli.stop_timeout,
        cli@.stop_command == cli.stop_command@,
        cli@.argv.len() == cli.argv@.len(),
        forall|i: int| 0 <= i < cli.argv@.len() ==> cli@.argv[i] == #[trigger] cli.argv@[i]@,
{
}

/// Byte strings are taken over one for one.
pub proof fn law_byte_strings_are_kept(vecs: Seq<Vec<u8>>)
    ensures
        byte_strings(vecs).len() == vecs.len(),
        forall|i: int| 0 <= i < vecs.len() ==> byte_strings(vecs)[i] == #[trigger] vecs[i]@,
{
}

/// The C strings are as many as the arguments, and each holds the UTF-8 bytes of
/// the argument in its place, so an argument more is a C string more.
pub proof fn law_every_argument_is_encoded(argv: Seq<Seq<char>>, more: Seq<char>)
    ensures
        encoded(argv).len() == argv.len(),
        forall|i: int| 0 <= i < argv.len() ==> #[trigger] encoded(argv)[i] == encode_utf8(argv[i]),
        encoded(argv.push(more)) == encoded(argv).push(encode_utf8(more)),
{
    assert(encoded(argv.push(more)) =~= encoded(argv).push(encode_utf8(more)));
}

/// Arguments are unusable exactly if a byte of one of them is 0.
pub proof fn law_one_nul_spoils_the_arguments(argv: Seq<Seq<char>>)
    ensures
        !free_of_nul(argv) <==> exists|i: int, j: int|
            0 <= i < argv.len() && 0 <= j < encode_utf8(argv[i]).len() && #[trigger] encode_utf8(
                argv[i],
            )[j] == 0,
{
    if !free_of_nul(argv) {
        let i = choose|i: int|
            0 <= i < argv.len() && encode_utf8(#[trigger] argv[i]).contains(0u8);
        let j = choose|j: int| 0 <= j < encode_utf8(argv[i]).len() && encode_utf8(argv[i])[j] == 0;
        assert(encode_utf8(argv[i])[j] == 0);
    }
}

} // verus!
