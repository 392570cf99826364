//! The value describing one pending write: its text, the stream it is bound
//! for, and whether a trailing newline is appended on delivery.

use vstd::prelude::*;

verus! {

/// Which of the two standard output streams a message is bound for.
#[derive(Debug, Copy, Clone, PartialEq, Eq, Structural)]
pub enum OutputKind {
    /// Deliver to the standard output stream.
    Stdout,
    /// Deliver to the standard error stream.
    Stderr,
}

/// One pending write.  Immutable once constructed.
#[derive(Debug)]
pub struct Message {
    pub string: String,
    pub output: OutputKind,
    pub should_append_line: bool,
}

impl Message {
    /// The text as it is rendered on delivery: the stored content, with a
    /// trailing newline when the flag asks for one.
    pub open spec fn spec_rendered(self) -> Seq<char> {
        if self.should_append_line {
            self.string@ + "\n"@
        } else {
            self.string@
        }
    }

    pub fn str(&self) -> (r: &str)
        ensures
            r@ == self.string@,
    {
        self.string.as_str()
    }

    pub fn output_kind(&self) -> (r: OutputKind)
        ensures
            r == self.output,
    {
        self.output
    }

    pub fn standard(print_me: &str) -> (r: Message)
        ensures
            r.string@ == print_me@,
            r.output == OutputKind::Stdout,
            !r.should_append_line,
    {
        Message { string: print_me.to_owned(), output: OutputKind::Stdout, should_append_line: false }
    }

    pub fn standard_ln(print_me: &str) -> (r: Message)
        ensures
            r.string@ == print_me@,
            r.output == OutputKind::Stdout,
            r.should_append_line,
    {
        Message { string: print_me.to_owned(), output: OutputKind::Stdout, should_append_line: true }
    }

    pub fn error(print_me: &str) -> (r: Message)
        ensures
            r.string@ == print_me@,
            r.output == OutputKind::Stderr,
            !r.should_append_line,
    {
        Message { string: print_me.to_owned(), output: OutputKind::Stderr, should_append_line: false }
    }

    pub fn error_ln(print_me: &str) -> (r: Message)
        ensures
            r.string@ == print_me@,
            r.output == OutputKind::Stderr,
            r.should_append_line,
    {
        Message { string: print_me.to_owned(), output: OutputKind::Stderr, should_append_line: true }
    }

    /// An identical copy; the queue hands owned messages around.
    pub fn duplicate(&self) -> (r: Message)
        ensures
            r == *self,
    {
        Message {
            string: self.string.clone(),
            output: self.output,
            should_append_line: self.should_append_line,
        }
    }

    /// Renders the delivered text.
    pub fn render(&self) -> (r: String)
        ensures
            r@ == self.spec_rendered(),
    {
        let mut s = self.string.clone();
        if self.should_append_line {
            s.append("\n");
        }
        s
    }
}

} // verus!
