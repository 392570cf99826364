//! Determines what happens once [`max_retries`](crate::config::max_retries)
//! failed attempts have been spent on the queue.
//! 0. **Return**: do nothing; the queue stays populated for the next trigger.
//! 1. **WriteToDisk**: attempt to flush the stored messages, in order, to the
//!    sink named by [`log_io_path`](crate::config::log_io_path); every message
//!    flushed successfully leaves the queue.
//!
//! Default: [Return](On_MaxRetriesReached::Return)

use vstd::prelude::*;
use crate::config::Config;
use crate::parse::str_eq;

verus! {

/// Environment variable consulted by the bulk loader for this tunable.
pub const ENV_NAME: &'static str = "COMFY_PRINT_ON_MAX_RETRIES_REACHED";

/// The exhaustion policy: applied when the retry budget runs out.
#[derive(Debug, Copy, Clone, PartialEq, Eq, Structural)]
pub enum On_MaxRetriesReached {
    /// Abandon the drain; the queue keeps the undelivered messages.
    Return,
    /// Flush the queued messages to the configured fallback log.
    WriteToDisk,
}

impl On_MaxRetriesReached {
    pub fn from_str(s: &str) -> (r: Result<On_MaxRetriesReached, String>)
        ensures
            s@ == "0"@ || s@ == "Return"@ ==> r == Ok::<On_MaxRetriesReached, String>(
                On_MaxRetriesReached::Return,
            ),
            s@ == "1"@ || s@ == "WriteToDisk"@ ==> r == Ok::<On_MaxRetriesReached, String>(
                On_MaxRetriesReached::WriteToDisk,
            ),
            !(s@ == "0"@ || s@ == "Return"@ || s@ == "1"@ || s@ == "WriteToDisk"@) ==> (
            r matches Err(e) && e@ == "Invalid string value for On_MaxRetriesReached: "@ + s@),
    {
        proof {
            reveal_strlit("0");
            reveal_strlit("1");
            reveal_strlit("Return");
            reveal_strlit("WriteToDisk");
            assert("0"@.len() == 1 && "1"@.len() == 1);
            assert("Return"@.len() == 6 && "WriteToDisk"@.len() == 11);
            assert("0"@[0] == '0' && "1"@[0] == '1');
        }
        if str_eq(s, "0") || str_eq(s, "Return") {
            Ok(On_MaxRetriesReached::Return)
        } else if str_eq(s, "1") || str_eq(s, "WriteToDisk") {
            Ok(On_MaxRetriesReached::WriteToDisk)
        } else {
            let mut e = String::from_str("Invalid string value for On_MaxRetriesReached: ");
            e.append(s);
            Err(e)
        }
    }
}

pub fn get(config: &Config) -> (r: On_MaxRetriesReached)
    ensures
        r == config.on_max_retries_reached,
{
    config.on_max_retries_reached
}

pub fn set(config: &mut Config, new_value: On_MaxRetriesReached)
    ensures
        *final(config) == (Config { on_max_retries_reached: new_value, ..*old(config) }),
{
    config.on_max_retries_reached = new_value;
}

} // verus!
