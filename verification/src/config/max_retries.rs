//! Maximum number of successive attempts a drain session makes to print the
//! stored queue.  Consulted only while `on_queue_printing_fail` is
//! `TryUntilMaxRetries`; a fresh drain session starts with a fresh attempt
//! counter.
//!
//! Default: **64**

use vstd::prelude::*;
use crate::config::Config;

verus! {

/// Environment variable consulted by the bulk loader for this tunable.
pub const ENV_NAME: &'static str = "COMFY_PRINT_MAX_RETRIES";

pub fn get(config: &Config) -> (r: usize)
    ensures
        r == config.max_retries,
{
    config.max_retries
}

pub fn set(config: &mut Config, new_value: usize)
    ensures
        *final(config) == (Config { max_retries: new_value, ..*old(config) }),
{
    config.max_retries = new_value;
}

} // verus!
