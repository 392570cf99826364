//! The port through which the queue reaches the outside world.  `Console`
//! mode hands messages to the process's real standard streams; `Scripted`
//! mode is a deterministic double that answers from a fixed list of outcomes
//! and records every message it accepts, so behaviour under failure can be
//! pinned down exactly and exercised by tests.

use std::io::Write;
use vstd::prelude::*;
use crate::message::Message;
use crate::message::OutputKind;

verus! {

/// How a [`MessageWriter`] answers writes.
#[derive(Debug, Copy, Clone, PartialEq, Eq, Structural)]
pub enum WriterMode {
    /// Deliver to the process's standard output and error streams.
    Console,
    /// Answer from the scripted outcomes and record accepted messages.
    Scripted,
}

/// A destination for messages.  The drain worker and the submission fast
/// path write through one of these.
pub struct MessageWriter {
    pub mode: WriterMode,
    /// Outcomes still to hand out, consumed front to back; once the list is
    /// spent every further write succeeds.  Meaningful only in `Scripted`
    /// mode.
    pub outcomes: Vec<bool>,
    /// Every message accepted so far, in acceptance order.  Meaningful only
    /// in `Scripted` mode.
    pub written: Vec<Message>,
}

impl MessageWriter {
    pub open spec fn is_scripted(self) -> bool {
        self.mode == WriterMode::Scripted
    }

    /// The next scripted write succeeds.
    pub open spec fn next_ok(self) -> bool {
        self.outcomes@.len() == 0 || self.outcomes@[0]
    }

    /// Every pending scripted outcome is a success.
    pub open spec fn all_ok(self) -> bool {
        forall|i: int| 0 <= i < self.outcomes@.len() ==> self.outcomes@[i]
    }

    /// A writer for the real standard streams.
    pub fn console() -> (r: MessageWriter)
        ensures
            r.mode == WriterMode::Console,
    {
        MessageWriter { mode: WriterMode::Console, outcomes: Vec::new(), written: Vec::new() }
    }

    /// A deterministic writer whose next writes fail or succeed as
    /// `outcomes` dictates.
    pub fn scripted(outcomes: Vec<bool>) -> (r: MessageWriter)
        ensures
            r.mode == WriterMode::Scripted,
            r.outcomes == outcomes,
            r.written@ == Seq::<Message>::empty(),
    {
        MessageWriter { mode: WriterMode::Scripted, outcomes, written: Vec::new() }
    }

    /// Attempts to deliver `msg`.  In `Console` mode the result is whatever
    /// the OS reported, and nothing else about it is promised; in `Scripted`
    /// mode the next scripted outcome decides, and an accepted message is
    /// recorded.
    pub fn write(&mut self, msg: &Message) -> (r: Result<(), String>)
        ensures
            final(self).mode == old(self).mode,
            old(self).mode == WriterMode::Console ==> *final(self) == *old(self),
            old(self).is_scripted() ==> {
                &&& final(self).outcomes@ == if old(self).outcomes@.len() == 0 {
                    old(self).outcomes@
                } else {
                    old(self).outcomes@.skip(1)
                }
                &&& (r is Ok <==> old(self).next_ok())
                &&& (old(self).next_ok() ==> final(self).written@ == old(self).written@ + seq![
                    *msg,
                ])
                &&& (!old(self).next_ok() ==> final(self).written@ == old(self).written@ && (
                r matches Err(e) && e@ == "Forced write failure"@))
            },
            old(self).all_ok() ==> final(self).all_ok(),
            old(self).is_scripted() && old(self).all_ok() ==> r is Ok,
    {
        match self.mode {
            WriterMode::Console => {
                let text = msg.render();
                match msg.output_kind() {
                    OutputKind::Stdout => write_stdout(text.as_str()),
                    OutputKind::Stderr => write_stderr(text.as_str()),
                }
            },
            WriterMode::Scripted => {
                let ghost pre = *self;
                let ok: bool = if self.outcomes.len() == 0 {
                    true
                } else {
                    self.outcomes.remove(0)
                };
                proof {
                    if pre.outcomes@.len() > 0 {
                        assert(self.outcomes@ =~= pre.outcomes@.skip(1));
                        if pre.all_ok() {
                            assert forall|i: int|
                                0 <= i < self.outcomes@.len() implies self.outcomes@[i] by {
                                assert(self.outcomes@[i] == pre.outcomes@[i + 1]);
                            }
                        }
                    }
                }
                if ok {
                    self.written.push(msg.duplicate());
                    Ok(())
                } else {
                    Err(forced_failure_text())
                }
            },
        }
    }
}

/// The error text a scripted failure reports.
pub fn forced_failure_text() -> (r: String)
    ensures
        r@ == "Forced write failure"@,
{
    String::from_str("Forced write failure")
}

/// Relies on `std::io::Stdout`: `write!` (`Write::write_fmt`) puts `text` on
/// the standard output stream and `Write::flush` pushes it out; the OS
/// error's text is returned on failure.  Nothing is promised of the outcome:
/// whether the write succeeds depends on the process's environment.
#[verifier::external_body]
fn write_stdout(text: &str) -> (r: Result<(), String>) {
    let mut out = std::io::stdout().lock();
    if let Err(e) = write!(out, "{}", text) {
        return Err(format!("{}", e));
    }
    if let Err(e) = out.flush() {
        return Err(format!("{}", e));
    }
    Ok(())
}

/// Relies on `std::io::Stderr`: `write!` (`Write::write_fmt`) puts `text` on
/// the standard error stream and `Write::flush` pushes it out; the OS
/// error's text is returned on failure.  Nothing is promised of the outcome:
/// whether the write succeeds depends on the process's environment.
#[verifier::external_body]
fn write_stderr(text: &str) -> (r: Result<(), String>) {
    let mut err = std::io::stderr().lock();
    if let Err(e) = write!(err, "{}", text) {
        return Err(format!("{}", e));
    }
    if let Err(e) = err.flush() {
        return Err(format!("{}", e));
    }
    Ok(())
}

} // verus!
