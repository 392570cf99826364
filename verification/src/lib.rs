//! A resilient replacement for the standard output macros: text handed to the
//! library is delivered to stdout or stderr even when a write transiently
//! fails.  Undelivered messages wait in a bounded FIFO queue, a single drain
//! worker retries them under configurable policies, and retry exhaustion can
//! fall back to an append-only log sink.
//!
//! The queue, the policies and the single-flight drain state machine are
//! verified; the thin shell that owns the locks, spawns worker threads and
//! touches the file system lives outside this crate's `src` tree.

pub mod async_impl;
pub mod config;
pub mod laws;
pub mod message;
pub mod parse;
pub mod printing_state;
pub mod queue;
pub mod writer;

use vstd::prelude::*;

verus! {

} // verus!
