//! Terminal bookkeeping: the guard around command execution, the cleanup
//! of the keyboard protocol, and the loading indicator's text.
use vstd::prelude::*;
use crate::fmt::{decimal, push_char, push_decimal, push_str};

verus! {

/// Guard that restores the terminal when it goes; the test guard leaves the
/// terminal alone.
#[derive(Debug)]
pub struct TerminalStateGuard {
    pub skip_terminal_ops: bool,
}

impl TerminalStateGuard {
    /// A guard that restores the terminal.
    pub fn new() -> (g: Self)
        ensures
            !g.skip_terminal_ops,
    {
        TerminalStateGuard { skip_terminal_ops: false }
    }

    /// A guard for tests, which leaves the terminal alone.
    pub fn new_for_test() -> (g: Self)
        ensures
            g.skip_terminal_ops,
    {
        TerminalStateGuard { skip_terminal_ops: true }
    }

    /// Whether dropping the guard restores the terminal.
    pub fn restores_on_drop(&self) -> (b: bool)
        ensures
            b == !self.skip_terminal_ops,
    {
        !self.skip_terminal_ops
    }
}

impl Default for TerminalStateGuard {
    /// A guard that restores the terminal.
    fn default() -> (g: Self)
        ensures
            !g.skip_terminal_ops,
    {
        Self::new()
    }
}

/// The answers of the terminal to the keyboard protocol query, by machine.
#[derive(Clone, Copy, Debug, PartialEq, Eq, Structural)]
pub enum ByteOutput {
    Arm,
    X86,
}

/// The length of an answer.
pub open spec fn output_len(b: ByteOutput) -> nat {
    match b {
        ByteOutput::Arm => 26,
        ByteOutput::X86 => 6,
    }
}

/// The last byte of an answer.
pub open spec fn output_last(b: ByteOutput) -> u8 {
    match b {
        ByteOutput::Arm => 50,
        ByteOutput::X86 => 99,
    }
}

impl ByteOutput {
    /// The length of the answer.
    pub fn len(&self) -> (n: usize)
        ensures
            n == output_len(*self),
    {
        match self {
            ByteOutput::Arm => 26,
            ByteOutput::X86 => 6,
        }
    }

    /// The last byte of the answer.
    pub fn last(&self) -> (b: u8)
        ensures
            b == output_last(*self),
    {
        match self {
            ByteOutput::Arm => 50,
            ByteOutput::X86 => 99,
        }
    }
}

/// Whether `bytes` is a whole answer: as long as one of the known answers
/// and ending in its last byte.
pub open spec fn answer_complete(bytes: Seq<u8>) -> bool {
    exists|b: ByteOutput| bytes.len() == output_len(b) && bytes.last() == output_last(b)
}

/// Whether the bytes read from the terminal are a whole answer (see
/// `answer_complete`).
pub fn byte_sequence_valid(bytes: &[u8]) -> (r: bool)
    ensures
        r == answer_complete(bytes@),
{
    let n = bytes.len();
    let arm = n == 26 && bytes[n - 1] == 50;
    let x86 = n == 6 && bytes[n - 1] == 99;
    proof {
        if arm {
            assert(bytes@.len() == output_len(ByteOutput::Arm) && bytes@.last() == output_last(ByteOutput::Arm));
        }
        if x86 {
            assert(bytes@.len() == output_len(ByteOutput::X86) && bytes@.last() == output_last(ByteOutput::X86));
        }
    }
    arm || x86
}

/// Terminal handling for exec sessions: whether leaving raw mode must clean
/// up the keyboard protocol.
#[derive(Debug)]
pub struct TuiTerminalHandler {
    pub cleanup_needed: bool,
}

impl TuiTerminalHandler {
    /// A handler with nothing to clean up.
    pub fn new() -> (h: Self)
        ensures
            !h.cleanup_needed,
    {
        TuiTerminalHandler { cleanup_needed: false }
    }

    /// Raw mode is on: leaving it will need the cleanup.
    pub fn entered_raw_mode(&mut self)
        ensures
            final(self).cleanup_needed,
    {
        self.cleanup_needed = true;
    }

    /// Raw mode is off: whether the cleanup is to be done now, which it then
    /// no longer needs.
    pub fn take_cleanup(&mut self) -> (r: bool)
        ensures
            r == old(self).cleanup_needed,
            !final(self).cleanup_needed,
    {
        let r = self.cleanup_needed;
        self.cleanup_needed = false;
        r
    }
}

/// The text of the loading indicator: the animation frame, and the number
/// of operations when there are several.
pub open spec fn loading_text(frame: char, count: nat) -> Seq<char> {
    if count > 1 {
        seq![frame] + " Loading... ("@ + decimal(count) + " operations)"@
    } else {
        seq![frame] + " Loading..."@
    }
}

/// A spinner with a count of the running operations.
pub struct LoadingIndicator {}

impl LoadingIndicator {
    pub fn new() -> (l: Self) {
        LoadingIndicator {}
    }

    /// The indicator's text (see `loading_text`).
    pub fn text(frame: char, count: u64) -> (s: String)
        ensures
            s@ == loading_text(frame, count as nat),
    {
        let mut s = String::new();
        push_char(&mut s, frame);
        if count > 1 {
            push_str(&mut s, " Loading... (");
            push_decimal(&mut s, count);
            push_str(&mut s, " operations)");
        } else {
            push_str(&mut s, " Loading...");
        }
        proof {
            assert(s@ =~= loading_text(frame, count as nat));
        }
        s
    }

    /// The inline indicator's text: the frame and "Loading...".
    pub fn inline_text(frame: char) -> (s: String)
        ensures
            s@ == seq![frame] + " Loading..."@,
    {
        let mut s = String::new();
        push_char(&mut s, frame);
        push_str(&mut s, " Loading...");
        proof {
            assert(s@ =~= seq![frame] + " Loading..."@);
        }
        s
    }
}

} // verus!
