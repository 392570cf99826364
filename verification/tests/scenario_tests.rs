//! End-to-end scenarios for the queue's guarantees, and the parsing layer.

use comfy_print::async_impl::comfy_print_async;
use comfy_print::async_impl::start_printing_queue;
use comfy_print::async_impl::DrainOutcome;
use comfy_print::config::allow_logging_print_failures;
use comfy_print::config::env_vars::load_all;
use comfy_print::config::env_vars::EnvValues;
use comfy_print::config::env_vars::LoadVarError;
use comfy_print::config::max_queue_length;
use comfy_print::config::on_max_retries_reached::On_MaxRetriesReached;
use comfy_print::config::on_queue_full;
use comfy_print::config::on_queue_full::On_QueueFull;
use comfy_print::config::on_queue_printing_fail::On_QueuePrintingFail;
use comfy_print::config::Config;
use comfy_print::message::Message;
use comfy_print::message::OutputKind;
use comfy_print::parse::parse_bool;
use comfy_print::parse::parse_usize;
use comfy_print::parse::str_eq;
use comfy_print::queue::PrintSystem;
use comfy_print::writer::MessageWriter;

/// Fast path only: a healthy submission is delivered at once and causes
/// zero queue growth.
#[test]
fn healthy_submission_leaves_queue_empty() {
    let mut sys = PrintSystem::new(Config::default());
    let mut writer = MessageWriter::scripted(Vec::new());
    let needs_drain = comfy_print_async(&mut sys, &mut writer, Message::standard_ln("hello"));
    assert!(!needs_drain);
    assert_eq!(sys.queue.len(), 0);
    assert_eq!(writer.written.len(), 1);
    assert_eq!(writer.written[0].str(), "hello");
    assert_eq!(writer.written[0].output_kind(), OutputKind::Stdout);
}

/// Capacity one: two messages with the first write forced to fail settle the
/// queue at one entry; a later healthy submission drains it to zero.
#[test]
fn capacity_one_settles_then_drains() {
    let mut config = Config::default();
    max_queue_length::set(&mut config, 1);
    let mut sys = PrintSystem::new(config);

    let mut failing = MessageWriter::scripted(vec![false; 100]);
    comfy_print_async(&mut sys, &mut failing, Message::standard_ln("first"));
    assert_eq!(sys.queue.len(), 1);
    comfy_print_async(&mut sys, &mut failing, Message::standard_ln("second"));
    assert_eq!(sys.queue.len(), 1);

    let mut healthy = MessageWriter::scripted(Vec::new());
    comfy_print_async(&mut sys, &mut healthy, Message::standard_ln("third"));
    let outcome = start_printing_queue(&mut sys, &mut healthy);
    assert_eq!(outcome, DrainOutcome::Emptied);
    assert_eq!(sys.queue.len(), 0);
}

/// Capacity five with `KeepNewest`: eight forced-failing submissions leave
/// exactly the five most recent messages queued.
#[test]
fn keep_newest_keeps_five_most_recent() {
    let mut config = Config::default();
    allow_logging_print_failures::set(&mut config, false);
    max_queue_length::set(&mut config, 5);
    on_queue_full::set(&mut config, On_QueueFull::KeepNewest);
    let mut sys = PrintSystem::new(config);

    let mut failing = MessageWriter::scripted(vec![false; 100]);
    for index in 1..=8 {
        let text = format!("msg_{}", index);
        comfy_print_async(&mut sys, &mut failing, Message::standard_ln(text.as_str()));
    }
    assert_eq!(sys.queue.len(), 5);
    let texts: Vec<&str> = sys.queue.iter().map(|m| m.str()).collect();
    assert_eq!(texts, vec!["msg_4", "msg_5", "msg_6", "msg_7", "msg_8"]);
}

/// A failed fast-path write records a diagnostic in front of the message,
/// with the exact failure text, bound for the error stream.
#[test]
fn failure_diagnostic_content() {
    let mut config = Config::default();
    allow_logging_print_failures::set(&mut config, true);
    let mut sys = PrintSystem::new(config);
    let mut failing = MessageWriter::scripted(vec![false]);
    comfy_print_async(&mut sys, &mut failing, Message::standard_ln("payload"));

    assert_eq!(sys.queue.len(), 2);
    assert_eq!(sys.queue[0].output_kind(), OutputKind::Stderr);
    assert_eq!(
        sys.queue[0].str(),
        "comfy_print::comfy_print_async(): Failed to print message, creating queue...\n\
         Error: Forced write failure."
    );
    assert_eq!(sys.queue[1].str(), "payload");
}

/// The rendered text honours the trailing-newline flag.
#[test]
fn message_constructors_and_render() {
    let m = Message::standard("a");
    assert_eq!(m.str(), "a");
    assert_eq!(m.output_kind(), OutputKind::Stdout);
    assert_eq!(m.render(), "a");

    let m = Message::standard_ln("a");
    assert_eq!(m.render(), "a\n");

    let m = Message::error("b");
    assert_eq!(m.output_kind(), OutputKind::Stderr);
    assert_eq!(m.render(), "b");

    let m = Message::error_ln("b");
    assert_eq!(m.output_kind(), OutputKind::Stderr);
    assert_eq!(m.render(), "b\n");
}

#[test]
fn parse_usize_accepts_digits_only() {
    assert_eq!(parse_usize("0"), Some(0));
    assert_eq!(parse_usize("123"), Some(123));
    assert_eq!(parse_usize("18446744073709551615"), Some(usize::MAX));
    assert_eq!(parse_usize("18446744073709551616"), None);
    assert_eq!(parse_usize(""), None);
    assert_eq!(parse_usize("12a"), None);
    assert_eq!(parse_usize("-1"), None);
    assert_eq!(parse_usize(" 1"), None);
}

#[test]
fn parse_bool_accepts_exact_keywords() {
    assert_eq!(parse_bool("true"), Some(true));
    assert_eq!(parse_bool("false"), Some(false));
    assert_eq!(parse_bool("True"), None);
    assert_eq!(parse_bool(""), None);
}

#[test]
fn str_eq_compares_exactly() {
    assert!(str_eq("abc", "abc"));
    assert!(!str_eq("abc", "abd"));
    assert!(!str_eq("abc", "abcd"));
    assert!(str_eq("", ""));
}

#[test]
fn policy_from_str_accepts_names_and_digits() {
    assert_eq!(On_QueuePrintingFail::from_str("0"), Ok(On_QueuePrintingFail::TryUntilMaxRetries));
    assert_eq!(
        On_QueuePrintingFail::from_str("TryUntilMaxRetries"),
        Ok(On_QueuePrintingFail::TryUntilMaxRetries)
    );
    assert_eq!(On_QueuePrintingFail::from_str("1"), Ok(On_QueuePrintingFail::Return));
    assert_eq!(On_QueuePrintingFail::from_str("Return"), Ok(On_QueuePrintingFail::Return));
    assert_eq!(
        On_QueuePrintingFail::from_str("bogus"),
        Err("Invalid string value for On_QueuePrintingFail: bogus".to_string())
    );

    assert_eq!(On_MaxRetriesReached::from_str("0"), Ok(On_MaxRetriesReached::Return));
    assert_eq!(On_MaxRetriesReached::from_str("WriteToDisk"), Ok(On_MaxRetriesReached::WriteToDisk));
    assert_eq!(
        On_MaxRetriesReached::from_str("nope"),
        Err("Invalid string value for On_MaxRetriesReached: nope".to_string())
    );

    assert_eq!(On_QueueFull::from_str("KeepNewest"), Ok(On_QueueFull::KeepNewest));
    assert_eq!(On_QueueFull::from_str("1"), Ok(On_QueueFull::KeepOldest));
    assert_eq!(
        On_QueueFull::from_str("middle"),
        Err("Invalid string value for On_QueueFull: middle".to_string())
    );
}

#[test]
fn load_all_reports_each_variable() {
    let mut config = Config::default();
    let env = EnvValues {
        max_retries: Some("7".to_string()),
        max_queue_length: Some("not a number".to_string()),
        allow_logging_print_failures: Some("false".to_string()),
        on_queue_printing_fail: None,
        on_max_retries_reached: Some("WriteToDisk".to_string()),
        log_io_path: Some("queue.log".to_string()),
        on_queue_full: Some("KeepOldest".to_string()),
    };
    let result = load_all(&mut config, &env);

    assert_eq!(result.max_retries, Ok(7));
    assert_eq!(config.max_retries, 7);
    assert_eq!(result.max_queue_length, Err(LoadVarError::ParseError));
    assert_eq!(config.max_queue_length, 1024);
    assert_eq!(result.allow_logging_print_failures, Ok(false));
    assert!(!config.allow_logging_print_failures);
    assert_eq!(result.on_retry_printing_fail, Err(LoadVarError::VarError));
    assert_eq!(config.on_queue_printing_fail, On_QueuePrintingFail::TryUntilMaxRetries);
    assert_eq!(result.on_max_retries_reached, Ok(On_MaxRetriesReached::WriteToDisk));
    assert_eq!(config.on_max_retries_reached, On_MaxRetriesReached::WriteToDisk);
    assert_eq!(result.log_io_path, Ok("queue.log".to_string()));
    assert_eq!(config.log_io_path, "queue.log");
    assert_eq!(result.on_push_queue_full, Ok(On_QueueFull::KeepOldest));
    assert_eq!(config.on_queue_full, On_QueueFull::KeepOldest);
}

/// `KeepOldest` discards new messages once the queue is full.
#[test]
fn keep_oldest_discards_new_messages() {
    let mut config = Config::default();
    allow_logging_print_failures::set(&mut config, false);
    max_queue_length::set(&mut config, 2);
    on_queue_full::set(&mut config, On_QueueFull::KeepOldest);
    let mut sys = PrintSystem::new(config);

    let mut failing = MessageWriter::scripted(vec![false; 10]);
    comfy_print_async(&mut sys, &mut failing, Message::standard_ln("one"));
    comfy_print_async(&mut sys, &mut failing, Message::standard_ln("two"));
    comfy_print_async(&mut sys, &mut failing, Message::standard_ln("three"));
    assert_eq!(sys.queue.len(), 2);
    let texts: Vec<&str> = sys.queue.iter().map(|m| m.str()).collect();
    assert_eq!(texts, vec!["one", "two"]);
}
