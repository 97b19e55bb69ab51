//! In-memory standard streams of one invocation.

use vstd::prelude::*;
use vstd::utf8::encode_utf8;

verus! {

/// The output and error streams of an invocation, together with what is
/// known about the terminal they are attached to.
///
/// Everything written is buffered; the caller forwards the buffers to the
/// real streams.
pub struct IoStreams {
    /// Bytes written to standard output so far.
    pub out: Vec<u8>,
    /// Bytes written to standard error so far.
    pub err_out: Vec<u8>,
    /// Standard input is attached to a terminal.
    pub stdin_tty: bool,
    /// Standard output is attached to a terminal.
    pub stdout_tty: bool,
    /// Prompting has been switched off.
    pub never_prompt: bool,
    /// Output is coloured.
    pub color_enabled: bool,
}

impl IoStreams {
    /// The user can be asked questions: prompting is not switched off and
    /// both standard input and standard output are terminals.
    pub open spec fn spec_can_prompt(&self) -> bool {
        !self.never_prompt && self.stdin_tty && self.stdout_tty
    }

    /// The terminal state is the same in `self` and `other`; only the
    /// buffers may differ.
    pub open spec fn same_terminal(&self, other: &IoStreams) -> bool {
        &&& self.stdin_tty == other.stdin_tty
        &&& self.stdout_tty == other.stdout_tty
        &&& self.never_prompt == other.never_prompt
        &&& self.color_enabled == other.color_enabled
    }

    /// Streams with empty buffers for the given terminal state.
    pub fn new(stdin_tty: bool, stdout_tty: bool, color_enabled: bool) -> (io: IoStreams)
        ensures
            io.out@ == Seq::<u8>::empty(),
            io.err_out@ == Seq::<u8>::empty(),
            io.stdin_tty == stdin_tty,
            io.stdout_tty == stdout_tty,
            io.color_enabled == color_enabled,
            !io.never_prompt,
    {
        IoStreams {
            out: Vec::new(),
            err_out: Vec::new(),
            stdin_tty,
            stdout_tty,
            never_prompt: false,
            color_enabled,
        }
    }

    /// Streams for tests: nothing is a terminal, no colour, empty buffers.
    pub fn test() -> (io: IoStreams)
        ensures
            io.out@ == Seq::<u8>::empty(),
            io.err_out@ == Seq::<u8>::empty(),
            !io.stdin_tty,
            !io.stdout_tty,
            !io.color_enabled,
            !io.never_prompt,
    {
        IoStreams::new(false, false, false)
    }

    /// Whether the user can be asked questions.
    #[verifier::when_used_as_spec(spec_can_prompt)]
    pub fn can_prompt(&self) -> (b: bool)
        ensures
            b == self.spec_can_prompt(),
    {
        !self.never_prompt && self.stdin_tty && self.stdout_tty
    }

    /// Appends `bytes` to standard output.
    pub fn write_out(&mut self, bytes: &[u8])
        ensures
            final(self).out@ == old(self).out@ + bytes@,
            final(self).err_out == old(self).err_out,
            final(self).same_terminal(old(self)),
    {
        let n: usize = bytes.len();
        let mut i: usize = 0;
        while i < n
            invariant
                n == bytes@.len(),
                i <= n,
                self.out@ == old(self).out@ + bytes@.take(i as int),
                self.err_out == old(self).err_out,
                self.same_terminal(old(self)),
            decreases n - i,
        {
            self.out.push(bytes[i]);
            i = i + 1;
        }
    }

    /// Appends `bytes` to standard error.
    pub fn write_err(&mut self, bytes: &[u8])
        ensures
            final(self).err_out@ == old(self).err_out@ + bytes@,
            final(self).out == old(self).out,
            final(self).same_terminal(old(self)),
    {
        let n: usize = bytes.len();
        let mut i: usize = 0;
        while i < n
            invariant
                n == bytes@.len(),
                i <= n,
                self.err_out@ == old(self).err_out@ + bytes@.take(i as int),
                self.out == old(self).out,
                self.same_terminal(old(self)),
            decreases n - i,
        {
            self.err_out.push(bytes[i]);
            i = i + 1;
        }
    }

    /// Appends the UTF-8 encoding of `text` to standard output.
    pub fn print(&mut self, text: &str)
        ensures
            final(self).out@ == old(self).out@ + encode_utf8(text@),
            final(self).err_out == old(self).err_out,
            final(self).same_terminal(old(self)),
    {
        self.write_out(text.as_bytes());
    }

    /// Appends the UTF-8 encoding of `text` to standard error.
    pub fn eprint(&mut self, text: &str)
        ensures
            final(self).err_out@ == old(self).err_out@ + encode_utf8(text@),
            final(self).out == old(self).out,
            final(self).same_terminal(old(self)),
    {
        self.write_err(text.as_bytes());
    }
}

} // verus!
