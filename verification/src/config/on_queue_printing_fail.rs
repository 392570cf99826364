//! Determines what the drain worker does when printing a queued message
//! fails.
//! 0. **TryUntilMaxRetries**: keep retrying until
//!    [`max_retries`](crate::config::max_retries) attempts have failed, then
//!    do whatever [`on_max_retries_reached`](crate::config::on_max_retries_reached)
//!    asks for.  A successful write does not spend an attempt.
//! 1. **Return**: stop the drain session; the queue is retried the next time
//!    a message is submitted.
//!
//! Default: [TryUntilMaxRetries](On_QueuePrintingFail::TryUntilMaxRetries)

use vstd::prelude::*;
use crate::config::Config;
use crate::parse::str_eq;

verus! {

/// Environment variable consulted by the bulk loader for this tunable.
pub const ENV_NAME: &'static str = "COMFY_PRINT_ON_QUEUE_PRINTING_FAIL";

/// The retry policy applied when the drain worker's write fails.
#[derive(Debug, Copy, Clone, PartialEq, Eq, Structural)]
pub enum On_QueuePrintingFail {
    /// Retry until the attempt budget is spent.
    TryUntilMaxRetries,
    /// Give up at once; a later submission retriggers the drain.
    Return,
}

impl On_QueuePrintingFail {
    pub fn from_str(s: &str) -> (r: Result<On_QueuePrintingFail, String>)
        ensures
            s@ == "0"@ || s@ == "TryUntilMaxRetries"@ ==> r == Ok::<On_QueuePrintingFail, String>(
                On_QueuePrintingFail::TryUntilMaxRetries,
            ),
            s@ == "1"@ || s@ == "Return"@ ==> r == Ok::<On_QueuePrintingFail, String>(
                On_QueuePrintingFail::Return,
            ),
            !(s@ == "0"@ || s@ == "TryUntilMaxRetries"@ || s@ == "1"@ || s@ == "Return"@) ==> (
            r matches Err(e) && e@ == "Invalid string value for On_QueuePrintingFail: "@ + s@),
    {
        proof {
            reveal_strlit("0");
            reveal_strlit("1");
            reveal_strlit("TryUntilMaxRetries");
            reveal_strlit("Return");
            assert("0"@.len() == 1 && "1"@.len() == 1);
            assert("TryUntilMaxRetries"@.len() == 18 && "Return"@.len() == 6);
            assert("0"@[0] == '0' && "1"@[0] == '1');
        }
        if str_eq(s, "0") || str_eq(s, "TryUntilMaxRetries") {
            Ok(On_QueuePrintingFail::TryUntilMaxRetries)
        } else if str_eq(s, "1") || str_eq(s, "Return") {
            Ok(On_QueuePrintingFail::Return)
        } else {
            let mut e = String::from_str("Invalid string value for On_QueuePrintingFail: ");
            e.append(s);
            Err(e)
        }
    }
}

pub fn get(config: &Config) -> (r: On_QueuePrintingFail)
    ensures
        r == config.on_queue_printing_fail,
{
    config.on_queue_printing_fail
}

pub fn set(config: &mut Config, new_value: On_QueuePrintingFail)
    ensures
        *final(config) == (Config { on_queue_printing_fail: new_value, ..*old(config) }),
{
    config.on_queue_printing_fail = new_value;
}

} // verus!
