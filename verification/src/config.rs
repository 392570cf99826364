//! The tunable parameters that govern the queue, the retry policy and the
//! fallback behaviour.  The process-wide globals of a classic logging setup
//! are replaced by an explicit `Config` value handed by reference to the
//! queue, the drain worker and the policy code; each tunable keeps its own
//! module with `get` and `set`.

use vstd::prelude::*;
use crate::config::on_max_retries_reached::On_MaxRetriesReached;
use crate::config::on_queue_full::On_QueueFull;
use crate::config::on_queue_printing_fail::On_QueuePrintingFail;

pub mod allow_logging_print_failures;
pub mod env_vars;
pub mod log_io_path;
pub mod max_queue_length;
pub mod max_retries;
pub mod on_max_retries_reached;
pub mod on_queue_full;
pub mod on_queue_printing_fail;

verus! {

/// Every tunable the library consults.  Each value is read independently at
/// its own decision point; no grouping of settings is promised.
#[derive(Debug)]
pub struct Config {
    /// Successive attempts a drain session makes before the exhaustion
    /// handler runs.
    pub max_retries: usize,
    /// Capacity of the queue of undelivered messages.
    pub max_queue_length: usize,
    /// What happens to an insertion when the queue is at capacity.
    pub on_queue_full: On_QueueFull,
    /// What the drain worker does when a write fails.
    pub on_queue_printing_fail: On_QueuePrintingFail,
    /// What happens when the retry budget is used up.
    pub on_max_retries_reached: On_MaxRetriesReached,
    /// Whether a synthetic diagnostic message is queued in front of a message
    /// that failed to print.
    pub allow_logging_print_failures: bool,
    /// Path of the append-only fallback log; empty when unset.
    pub log_io_path: String,
}

impl Config {
    /// The out-of-the-box settings.
    pub open spec fn is_default(self) -> bool {
        &&& self.max_retries == 64
        &&& self.max_queue_length == 1024
        &&& self.on_queue_full == On_QueueFull::KeepNewest
        &&& self.on_queue_printing_fail == On_QueuePrintingFail::TryUntilMaxRetries
        &&& self.on_max_retries_reached == On_MaxRetriesReached::Return
        &&& self.allow_logging_print_failures
        &&& self.log_io_path@ == Seq::<char>::empty()
    }
}

impl Default for Config {
    fn default() -> (r: Config)
        ensures
            r.is_default(),
    {
        Config {
            max_retries: 64,
            max_queue_length: 1024,
            on_queue_full: On_QueueFull::KeepNewest,
            on_queue_printing_fail: On_QueuePrintingFail::TryUntilMaxRetries,
            on_max_retries_reached: On_MaxRetriesReached::Return,
            allow_logging_print_failures: true,
            log_io_path: String::new(),
        }
    }
}

} // verus!
