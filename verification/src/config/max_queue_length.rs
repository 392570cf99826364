//! Maximum number of messages the queue of undelivered output may hold.
//! When a write fails, messages wait in the shared queue until a drain
//! session delivers them; once the queue is full, [`on_queue_full`]
//! (crate::config::on_queue_full) decides what happens to further pushes.
//!
//! Default: **1024**

use vstd::prelude::*;
use crate::config::Config;

verus! {

/// Environment variable consulted by the bulk loader for this tunable.
pub const ENV_NAME: &'static str = "COMFY_PRINT_MAX_QUEUE_LENGTH";

pub fn get(config: &Config) -> (r: usize)
    ensures
        r == config.max_queue_length,
{
    config.max_queue_length
}

pub fn set(config: &mut Config, new_value: usize)
    ensures
        *final(config) == (Config { max_queue_length: new_value, ..*old(config) }),
{
    config.max_queue_length = new_value;
}

} // verus!
