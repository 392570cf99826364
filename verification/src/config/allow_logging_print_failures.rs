//! Whether a failed write is recorded by queueing a synthetic diagnostic
//! message in front of the message that failed.  The diagnostics are ordinary
//! error-stream messages and compete for queue capacity like any other entry.
//!
//! Default: **true**

use vstd::prelude::*;
use crate::config::Config;

verus! {

/// Environment variable consulted by the bulk loader for this tunable.
pub const ENV_NAME: &'static str = "COMFY_PRINT_ALLOW_LOGGING_PRINT_FAILURES";

pub fn get(config: &Config) -> (r: bool)
    ensures
        r == config.allow_logging_print_failures,
{
    config.allow_logging_print_failures
}

pub fn set(config: &mut Config, new_value: bool)
    ensures
        *final(config) == (Config { allow_logging_print_failures: new_value, ..*old(config) }),
{
    config.allow_logging_print_failures = new_value;
}

} // verus!
