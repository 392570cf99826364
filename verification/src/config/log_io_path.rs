//! Path of the sink the queue is flushed to when
//! [`on_max_retries_reached`](crate::config::on_max_retries_reached) is set to
//! `WriteToDisk`.  The path must include the file name; the embedding shell
//! that owns the file system appends to the file, creating it — and any
//! missing parent directory — on first use.
//!
//! Default: empty (unset)

use vstd::prelude::*;
use crate::config::Config;

verus! {

/// Environment variable consulted by the bulk loader for this tunable.
pub const ENV_NAME: &'static str = "COMFY_PRINT_DISK_LOG_PATH";

/// Appends the stored path to `append_in_me`.
pub fn get(config: &Config, append_in_me: &mut String)
    ensures
        final(append_in_me)@ == old(append_in_me)@ + config.log_io_path@,
{
    append_in_me.append(config.log_io_path.as_str());
}

/// Stores the path.  Validating it and creating missing directories is the
/// embedding shell's side of the contract, done before the path is stored.
pub fn set(config: &mut Config, new_value: &str)
    ensures
        final(config).log_io_path@ == new_value@,
        *final(config) == (Config { log_io_path: final(config).log_io_path, ..*old(config) }),
{
    config.log_io_path = new_value.to_owned();
}

} // verus!
