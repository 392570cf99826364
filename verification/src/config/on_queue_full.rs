//! Determines what happens to a message pushed while the queue already holds
//! `max_queue_length` entries.
//! 0. **KeepNewest**: evict the oldest queued message and append the new one.
//! 1. **KeepOldest**: keep the queue as it is and discard the new message.
//!
//! Default: [KeepNewest](On_QueueFull::KeepNewest)

use vstd::prelude::*;
use crate::config::Config;
use crate::parse::str_eq;

verus! {

/// Environment variable consulted by the bulk loader for this tunable.
pub const ENV_NAME: &'static str = "COMFY_PRINT_ON_QUEUE_FULL";

/// The overflow policy: the rule applied when an insert would exceed the
/// queue's capacity.
#[derive(Debug, Copy, Clone, PartialEq, Eq, Structural)]
pub enum On_QueueFull {
    /// Evict the oldest queued message to make room for the new one.
    KeepNewest,
    /// Discard the new message; the queue keeps what it already holds.
    KeepOldest,
}

impl On_QueueFull {
    pub fn from_str(s: &str) -> (r: Result<On_QueueFull, String>)
        ensures
            s@ == "0"@ || s@ == "KeepNewest"@ ==> r == Ok::<On_QueueFull, String>(
                On_QueueFull::KeepNewest,
            ),
            s@ == "1"@ || s@ == "KeepOldest"@ ==> r == Ok::<On_QueueFull, String>(
                On_QueueFull::KeepOldest,
            ),
            !(s@ == "0"@ || s@ == "KeepNewest"@ || s@ == "1"@ || s@ == "KeepOldest"@) ==> (
            r matches Err(e) && e@ == "Invalid string value for On_QueueFull: "@ + s@),
    {
        proof {
            reveal_strlit("0");
            reveal_strlit("1");
            reveal_strlit("KeepNewest");
            reveal_strlit("KeepOldest");
            assert("0"@.len() == 1 && "1"@.len() == 1);
            assert("KeepNewest"@.len() == 10 && "KeepOldest"@.len() == 10);
            assert("0"@[0] == '0' && "1"@[0] == '1');
            assert("KeepNewest"@[4] == 'N' && "KeepOldest"@[4] == 'O');
        }
        if str_eq(s, "0") || str_eq(s, "KeepNewest") {
            Ok(On_QueueFull::KeepNewest)
        } else if str_eq(s, "1") || str_eq(s, "KeepOldest") {
            Ok(On_QueueFull::KeepOldest)
        } else {
            let mut e = String::from_str("Invalid string value for On_QueueFull: ");
            e.append(s);
            Err(e)
        }
    }
}

pub fn get(config: &Config) -> (r: On_QueueFull)
    ensures
        r == config.on_queue_full,
{
    config.on_queue_full
}

pub fn set(config: &mut Config, new_value: On_QueueFull)
    ensures
        *final(config) == (Config { on_queue_full: new_value, ..*old(config) }),
{
    config.on_queue_full = new_value;
}

} // verus!
