//! The bulk loader: takes the raw text of every configuration environment
//! variable (read by the embedding shell) and overrides each tunable whose
//! text is present and parses, leaving the others untouched and reporting a
//! per-variable result.

use vstd::prelude::*;
use crate::config::Config;
use crate::config::allow_logging_print_failures;
use crate::config::log_io_path;
use crate::config::max_queue_length;
use crate::config::max_retries;
use crate::config::on_max_retries_reached;
use crate::config::on_max_retries_reached::On_MaxRetriesReached;
use crate::config::on_queue_full;
use crate::config::on_queue_full::On_QueueFull;
use crate::config::on_queue_printing_fail;
use crate::config::on_queue_printing_fail::On_QueuePrintingFail;
use crate::parse::parse_bool;
use crate::parse::parse_usize;
use crate::parse::parses_as_usize;
use crate::parse::dec_val;

verus! {

/// Errors from loading one tunable from its environment variable.
#[derive(Debug, Copy, Clone, PartialEq, Eq, Structural)]
pub enum LoadVarError {
    /// The variable is absent from the environment, or its value is not
    /// readable text.
    VarError,
    /// The variable had a value, but the value did not parse.
    ParseError,
    /// The disk-path variable parsed, but preparing the path failed.  Raised
    /// by the embedding shell that owns the file system, never by
    /// [`load_all`] itself.
    IOError,
}

/// The raw text of each configuration environment variable, `None` where the
/// variable is absent.
pub struct EnvValues {
    pub max_retries: Option<String>,
    pub max_queue_length: Option<String>,
    pub allow_logging_print_failures: Option<String>,
    pub on_queue_printing_fail: Option<String>,
    pub on_max_retries_reached: Option<String>,
    pub log_io_path: Option<String>,
    pub on_queue_full: Option<String>,
}

/// Per-variable results of one bulk load.
#[derive(Debug)]
pub struct LoadVarsResult {
    pub max_retries: Result<usize, LoadVarError>,
    pub max_queue_length: Result<usize, LoadVarError>,
    pub allow_logging_print_failures: Result<bool, LoadVarError>,
    pub on_retry_printing_fail: Result<On_QueuePrintingFail, LoadVarError>,
    pub on_max_retries_reached: Result<On_MaxRetriesReached, LoadVarError>,
    pub log_io_path: Result<String, LoadVarError>,
    pub on_push_queue_full: Result<On_QueueFull, LoadVarError>,
}

/// The text names the `TryUntilMaxRetries` retry policy.
pub open spec fn names_try_until(s: Seq<char>) -> bool {
    s == "0"@ || s == "TryUntilMaxRetries"@
}

/// The text names the `Return` retry policy.
pub open spec fn names_fail_return(s: Seq<char>) -> bool {
    s == "1"@ || s == "Return"@
}

/// The text names the `Return` exhaustion policy.
pub open spec fn names_exhaust_return(s: Seq<char>) -> bool {
    s == "0"@ || s == "Return"@
}

/// The text names the `WriteToDisk` exhaustion policy.
pub open spec fn names_write_to_disk(s: Seq<char>) -> bool {
    s == "1"@ || s == "WriteToDisk"@
}

/// The text names the `KeepNewest` overflow policy.
pub open spec fn names_keep_newest(s: Seq<char>) -> bool {
    s == "0"@ || s == "KeepNewest"@
}

/// The text names the `KeepOldest` overflow policy.
pub open spec fn names_keep_oldest(s: Seq<char>) -> bool {
    s == "1"@ || s == "KeepOldest"@
}

/// Loads one `usize` tunable; `write` selects the field.
fn load_max_retries_var(config: &mut Config, v: &Option<String>) -> (r: Result<
    usize,
    LoadVarError,
>)
    ensures
        v is None ==> (r == Err::<usize, LoadVarError>(LoadVarError::VarError) && *final(config) == *old(config)),
        v matches Some(s) ==> parses_as_usize(s@) ==> (*final(config) == (Config { max_retries: dec_val(s@) as usize, ..*old(config) }) && r == Ok::<usize, LoadVarError>(final(config).max_retries)),
        v matches Some(s) ==> !parses_as_usize(s@) ==> (r == Err::<usize, LoadVarError>(LoadVarError::ParseError) && *final(config) == *old(config)),
{
    match v {
        None => Err(LoadVarError::VarError),
        Some(s) => match parse_usize(s.as_str()) {
            Some(n) => {
                max_retries::set(config, n);
                Ok(n)
            },
            None => Err(LoadVarError::ParseError),
        },
    }
}

fn load_max_queue_length_var(config: &mut Config, v: &Option<String>) -> (r: Result<
    usize,
    LoadVarError,
>)
    ensures
        v is None ==> (r == Err::<usize, LoadVarError>(LoadVarError::VarError) && *final(config) == *old(config)),
        v matches Some(s) ==> parses_as_usize(s@) ==> (*final(config) == (Config { max_queue_length: dec_val(s@) as usize, ..*old(config) }) && r == Ok::<usize, LoadVarError>(final(config).max_queue_length)),
        v matches Some(s) ==> !parses_as_usize(s@) ==> (r == Err::<usize, LoadVarError>(LoadVarError::ParseError) && *final(config) == *old(config)),
{
    match v {
        None => Err(LoadVarError::VarError),
        Some(s) => match parse_usize(s.as_str()) {
            Some(n) => {
                max_queue_length::set(config, n);
                Ok(n)
            },
            None => Err(LoadVarError::ParseError),
        },
    }
}

fn load_allow_logging_var(config: &mut Config, v: &Option<String>) -> (r: Result<
    bool,
    LoadVarError,
>)
    ensures
        v is None ==> (r == Err::<bool, LoadVarError>(LoadVarError::VarError) && *final(config) == *old(config)),
        v matches Some(s) ==> s@ == "true"@ ==> (*final(config) == (Config { allow_logging_print_failures: true, ..*old(config) }) && r == Ok::<bool, LoadVarError>(true)),
        v matches Some(s) ==> s@ == "false"@ ==> (*final(config) == (Config { allow_logging_print_failures: false, ..*old(config) }) && r == Ok::<bool, LoadVarError>(false)),
        v matches Some(s) ==> s@ != "true"@ && s@ != "false"@ ==> (r == Err::<bool, LoadVarError>(LoadVarError::ParseError) && *final(config) == *old(config)),
{
    match v {
        None => Err(LoadVarError::VarError),
        Some(s) => match parse_bool(s.as_str()) {
            Some(b) => {
                allow_logging_print_failures::set(config, b);
                Ok(b)
            },
            None => Err(LoadVarError::ParseError),
        },
    }
}

fn load_on_queue_printing_fail_var(config: &mut Config, v: &Option<String>) -> (r: Result<
    On_QueuePrintingFail,
    LoadVarError,
>)
    ensures
        v is None ==> (r == Err::<On_QueuePrintingFail, LoadVarError>(LoadVarError::VarError) && *final(config) == *old(config)),
        v matches Some(s) ==> names_try_until(s@) ==> (*final(config) == (Config { on_queue_printing_fail: On_QueuePrintingFail::TryUntilMaxRetries, ..*old(config) }) && r == Ok::<On_QueuePrintingFail, LoadVarError>(On_QueuePrintingFail::TryUntilMaxRetries)),
        v matches Some(s) ==> names_fail_return(s@) ==> (*final(config) == (Config { on_queue_printing_fail: On_QueuePrintingFail::Return, ..*old(config) }) && r == Ok::<On_QueuePrintingFail, LoadVarError>(On_QueuePrintingFail::Return)),
        v matches Some(s) ==> !names_try_until(s@) && !names_fail_return(s@) ==> (r == Err::<On_QueuePrintingFail, LoadVarError>(LoadVarError::ParseError) && *final(config) == *old(config)),
{
    match v {
        None => Err(LoadVarError::VarError),
        Some(s) => match On_QueuePrintingFail::from_str(s.as_str()) {
            Ok(x) => {
                on_queue_printing_fail::set(config, x);
                Ok(x)
            },
            Err(_) => Err(LoadVarError::ParseError),
        },
    }
}

fn load_on_max_retries_reached_var(config: &mut Config, v: &Option<String>) -> (r: Result<
    On_MaxRetriesReached,
    LoadVarError,
>)
    ensures
        v is None ==> (r == Err::<On_MaxRetriesReached, LoadVarError>(LoadVarError::VarError) && *final(config) == *old(config)),
        v matches Some(s) ==> names_exhaust_return(s@) ==> (*final(config) == (Config { on_max_retries_reached: On_MaxRetriesReached::Return, ..*old(config) }) && r == Ok::<On_MaxRetriesReached, LoadVarError>(On_MaxRetriesReached::Return)),
        v matches Some(s) ==> names_write_to_disk(s@) ==> (*final(config) == (Config { on_max_retries_reached: On_MaxRetriesReached::WriteToDisk, ..*old(config) }) && r == Ok::<On_MaxRetriesReached, LoadVarError>(On_MaxRetriesReached::WriteToDisk)),
        v matches Some(s) ==> !names_exhaust_return(s@) && !names_write_to_disk(s@) ==> (r == Err::<On_MaxRetriesReached, LoadVarError>(LoadVarError::ParseError) && *final(config) == *old(config)),
{
    match v {
        None => Err(LoadVarError::VarError),
        Some(s) => match On_MaxRetriesReached::from_str(s.as_str()) {
            Ok(x) => {
                on_max_retries_reached::set(config, x);
                Ok(x)
            },
            Err(_) => Err(LoadVarError::ParseError),
        },
    }
}

fn load_log_io_path_var(config: &mut Config, v: &Option<String>) -> (r: Result<
    String,
    LoadVarError,
>)
    ensures
        v is None ==> (r == Err::<String, LoadVarError>(LoadVarError::VarError) && *final(config) == *old(config)),
        v matches Some(s) ==> (final(config).log_io_path@ == s@ && *final(config) == (Config { log_io_path: final(config).log_io_path, ..*old(config) }) && (r matches Ok(p) && p@ == s@)),
{
    match v {
        None => Err(LoadVarError::VarError),
        Some(s) => {
            log_io_path::set(config, s.as_str());
            Ok(s.clone())
        },
    }
}

fn load_on_queue_full_var(config: &mut Config, v: &Option<String>) -> (r: Result<
    On_QueueFull,
    LoadVarError,
>)
    ensures
        v is None ==> (r == Err::<On_QueueFull, LoadVarError>(LoadVarError::VarError) && *final(config) == *old(config)),
        v matches Some(s) ==> names_keep_newest(s@) ==> (*final(config) == (Config { on_queue_full: On_QueueFull::KeepNewest, ..*old(config) }) && r == Ok::<On_QueueFull, LoadVarError>(On_QueueFull::KeepNewest)),
        v matches Some(s) ==> names_keep_oldest(s@) ==> (*final(config) == (Config { on_queue_full: On_QueueFull::KeepOldest, ..*old(config) }) && r == Ok::<On_QueueFull, LoadVarError>(On_QueueFull::KeepOldest)),
        v matches Some(s) ==> !names_keep_newest(s@) && !names_keep_oldest(s@) ==> (r == Err::<On_QueueFull, LoadVarError>(LoadVarError::ParseError) && *final(config) == *old(config)),
{
    match v {
        None => Err(LoadVarError::VarError),
        Some(s) => match On_QueueFull::from_str(s.as_str()) {
            Ok(x) => {
                on_queue_full::set(config, x);
                Ok(x)
            },
            Err(_) => Err(LoadVarError::ParseError),
        },
    }
}

/// Overrides every tunable whose variable is present and parses; each other
/// tunable keeps its value.  Returns what happened to each variable.
#[verifier::rlimit(100)]
pub fn load_all(config: &mut Config, env: &EnvValues) -> (r: LoadVarsResult)
    ensures
        env.max_retries is None ==> (r.max_retries == Err::<usize, LoadVarError>(LoadVarError::VarError) && final(config).max_retries == old(config).max_retries),
        env.max_retries matches Some(s) ==> parses_as_usize(s@) ==> (final(config).max_retries == dec_val(s@) && r.max_retries == Ok::<usize, LoadVarError>(final(config).max_retries)),
        env.max_retries matches Some(s) ==> !parses_as_usize(s@) ==> (r.max_retries == Err::<usize, LoadVarError>(LoadVarError::ParseError) && final(config).max_retries == old(config).max_retries),
        env.max_queue_length is None ==> (r.max_queue_length == Err::<usize, LoadVarError>(LoadVarError::VarError) && final(config).max_queue_length == old(config).max_queue_length),
        env.max_queue_length matches Some(s) ==> parses_as_usize(s@) ==> (final(config).max_queue_length == dec_val(s@) && r.max_queue_length == Ok::<usize, LoadVarError>(final(config).max_queue_length)),
        env.max_queue_length matches Some(s) ==> !parses_as_usize(s@) ==> (r.max_queue_length == Err::<usize, LoadVarError>(LoadVarError::ParseError) && final(config).max_queue_length == old(config).max_queue_length),
        env.allow_logging_print_failures is None ==> (r.allow_logging_print_failures == Err::<bool, LoadVarError>(LoadVarError::VarError) && final(config).allow_logging_print_failures == old(config).allow_logging_print_failures),
        env.allow_logging_print_failures matches Some(s) ==> s@ == "true"@ ==> (final(config).allow_logging_print_failures && r.allow_logging_print_failures == Ok::<bool, LoadVarError>(true)),
        env.allow_logging_print_failures matches Some(s) ==> s@ == "false"@ ==> (!final(config).allow_logging_print_failures && r.allow_logging_print_failures == Ok::<bool, LoadVarError>(false)),
        env.allow_logging_print_failures matches Some(s) ==> s@ != "true"@ && s@ != "false"@ ==> (r.allow_logging_print_failures == Err::<bool, LoadVarError>(LoadVarError::ParseError) && final(config).allow_logging_print_failures == old(config).allow_logging_print_failures),
        env.on_queue_printing_fail is None ==> (r.on_retry_printing_fail == Err::<On_QueuePrintingFail, LoadVarError>(LoadVarError::VarError) && final(config).on_queue_printing_fail == old(config).on_queue_printing_fail),
        env.on_queue_printing_fail matches Some(s) ==> names_try_until(s@) ==> (final(config).on_queue_printing_fail == On_QueuePrintingFail::TryUntilMaxRetries && r.on_retry_printing_fail == Ok::<On_QueuePrintingFail, LoadVarError>(On_QueuePrintingFail::TryUntilMaxRetries)),
        env.on_queue_printing_fail matches Some(s) ==> names_fail_return(s@) ==> (final(config).on_queue_printing_fail == On_QueuePrintingFail::Return && r.on_retry_printing_fail == Ok::<On_QueuePrintingFail, LoadVarError>(On_QueuePrintingFail::Return)),
        env.on_queue_printing_fail matches Some(s) ==> !names_try_until(s@) && !names_fail_return(s@) ==> (r.on_retry_printing_fail == Err::<On_QueuePrintingFail, LoadVarError>(LoadVarError::ParseError) && final(config).on_queue_printing_fail == old(config).on_queue_printing_fail),
        env.on_max_retries_reached is None ==> (r.on_max_retries_reached == Err::<On_MaxRetriesReached, LoadVarError>(LoadVarError::VarError) && final(config).on_max_retries_reached == old(config).on_max_retries_reached),
        env.on_max_retries_reached matches Some(s) ==> names_exhaust_return(s@) ==> (final(config).on_max_retries_reached == On_MaxRetriesReached::Return && r.on_max_retries_reached == Ok::<On_MaxRetriesReached, LoadVarError>(On_MaxRetriesReached::Return)),
        env.on_max_retries_reached matches Some(s) ==> names_write_to_disk(s@) ==> (final(config).on_max_retries_reached == On_MaxRetriesReached::WriteToDisk && r.on_max_retries_reached == Ok::<On_MaxRetriesReached, LoadVarError>(On_MaxRetriesReached::WriteToDisk)),
        env.on_max_retries_reached matches Some(s) ==> !names_exhaust_return(s@) && !names_write_to_disk(s@) ==> (r.on_max_retries_reached == Err::<On_MaxRetriesReached, LoadVarError>(LoadVarError::ParseError) && final(config).on_max_retries_reached == old(config).on_max_retries_reached),
        env.log_io_path is None ==> (r.log_io_path matches Err(e) && e == LoadVarError::VarError && final(config).log_io_path@ == old(config).log_io_path@),
        env.log_io_path matches Some(s) ==> (final(config).log_io_path@ == s@ && (r.log_io_path matches Ok(p) && p@ == s@)),
        env.on_queue_full is None ==> (r.on_push_queue_full == Err::<On_QueueFull, LoadVarError>(LoadVarError::VarError) && final(config).on_queue_full == old(config).on_queue_full),
        env.on_queue_full matches Some(s) ==> names_keep_newest(s@) ==> (final(config).on_queue_full == On_QueueFull::KeepNewest && r.on_push_queue_full == Ok::<On_QueueFull, LoadVarError>(On_QueueFull::KeepNewest)),
        env.on_queue_full matches Some(s) ==> names_keep_oldest(s@) ==> (final(config).on_queue_full == On_QueueFull::KeepOldest && r.on_push_queue_full == Ok::<On_QueueFull, LoadVarError>(On_QueueFull::KeepOldest)),
        env.on_queue_full matches Some(s) ==> !names_keep_newest(s@) && !names_keep_oldest(s@) ==> (r.on_push_queue_full == Err::<On_QueueFull, LoadVarError>(LoadVarError::ParseError) && final(config).on_queue_full == old(config).on_queue_full),
{
    let max_retries_r = load_max_retries_var(config, &env.max_retries);
    let max_queue_length_r = load_max_queue_length_var(config, &env.max_queue_length);
    let allow_logging_r = load_allow_logging_var(config, &env.allow_logging_print_failures);
    let on_fail_r = load_on_queue_printing_fail_var(config, &env.on_queue_printing_fail);
    let on_exhaust_r = load_on_max_retries_reached_var(config, &env.on_max_retries_reached);
    let log_io_path_r = load_log_io_path_var(config, &env.log_io_path);
    let on_full_r = load_on_queue_full_var(config, &env.on_queue_full);

    LoadVarsResult {
        max_retries: max_retries_r,
        max_queue_length: max_queue_length_r,
        allow_logging_print_failures: allow_logging_r,
        on_retry_printing_fail: on_fail_r,
        on_max_retries_reached: on_exhaust_r,
        log_io_path: log_io_path_r,
        on_push_queue_full: on_full_r,
    }
}

} // verus!
