//! Commands: single lines of text for the controller.

use vstd::prelude::*;
use vstd::slice::slice_to_vec;
use vstd::string::StringSliceAdditionalSpecFns;

verus! {

/// The byte that ends a command on the wire.
pub const LINE_END: u8 = 10;

/// One instruction for the controller, as the bytes of its text without a
/// line terminator. A command is never changed once it is built.
#[derive(Debug)]
pub struct Command {
    bytes: Vec<u8>,
}

impl View for Command {
    type V = Seq<u8>;

    closed spec fn view(&self) -> Seq<u8> {
        self.bytes@
    }
}

/// What goes over the wire for a command: its text and one line terminator.
pub open spec fn framed(text: Seq<u8>) -> Seq<u8> {
    text.push(LINE_END)
}

impl Command {
    /// Wraps the bytes of a command's text.
    pub fn new(bytes: Vec<u8>) -> (command: Command)
        ensures
            command@ == bytes@,
    {
        Command { bytes }
    }

    /// Builds a command from its text.
    pub fn from_text(text: &str) -> (command: Command)
        ensures
            command@ == text.spec_bytes(),
    {
        Command { bytes: slice_to_vec(text.as_bytes()) }
    }

    /// The bytes of the command's text.
    pub fn as_bytes(&self) -> (bytes: &[u8])
        ensures
            bytes@ == self@,
    {
        self.bytes.as_slice()
    }

    /// Number of bytes in the command's text.
    pub fn len(&self) -> (len: usize)
        ensures
            len == self@.len(),
    {
        self.bytes.len()
    }

    /// Serialises the command for the wire.
    pub fn frame(&self) -> (line: Vec<u8>)
        ensures
            line@ == framed(self@),
    {
        let mut line: Vec<u8> = Vec::new();
        let mut i: usize = 0;
        while i < self.bytes.len()
            invariant
                i <= self.bytes@.len(),
                line@ == self.bytes@.take(i as int),
            decreases self.bytes@.len() - i,
        {
            line.push(self.bytes[i]);
            i = i + 1;
        }
        proof {
            assert(self.bytes@.take(i as int) =~= self.bytes@);
        }
        line.push(LINE_END);
        line
    }

    /// A second command with the same text.
    pub fn duplicate(&self) -> (copy: Command)
        ensures
            copy@ == self@,
    {
        Command { bytes: slice_to_vec(self.bytes.as_slice()) }
    }
}

} // verus!
