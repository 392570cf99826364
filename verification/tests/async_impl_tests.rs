//! Behaviour of the submission path and the drain worker, driven through a
//! scripted writer where failures must be forced.

use comfy_print::async_impl::comfy_print_async;
use comfy_print::async_impl::start_printing_queue;
use comfy_print::async_impl::DrainOutcome;
use comfy_print::config::allow_logging_print_failures;
use comfy_print::config::Config;
use comfy_print::message::Message;
use comfy_print::printing_state::ArbitrationOutcome;
use comfy_print::queue::PrintSystem;
use comfy_print::writer::MessageWriter;

#[test]
fn test_when_queue_is_empty() {
    let mut sys = PrintSystem::new(Config::default());
    let mut writer = MessageWriter::console();
    comfy_print_async(&mut sys, &mut writer, Message::standard_ln("Test message"));
    assert_eq!(sys.queue.len(), 0);
}

#[test]
fn test_when_queue_is_not_empty() {
    // Just so the error messages don't interfere with the test.
    let mut config = Config::default();
    allow_logging_print_failures::set(&mut config, false);
    let mut sys = PrintSystem::new(config);

    // Every write fails while this writer is in use.
    let mut failing = MessageWriter::scripted(vec![false; 200]);
    let d1 = comfy_print_async(&mut sys, &mut failing, Message::standard_ln("Test message_1"));
    comfy_print_async(&mut sys, &mut failing, Message::standard_ln("Test message_2"));
    comfy_print_async(&mut sys, &mut failing, Message::standard_ln("Test message_3"));
    assert!(d1);

    // The first failed submission arbitrates for a drain worker.
    let outcome = sys.state.arbitrate(true, false);
    assert_eq!(outcome, ArbitrationOutcome::StartWorker);
    sys.state.on_worker_spawned();
    assert_eq!(sys.state.is_busy(false), true);

    // Later submitters find the machine busy and stand down.
    assert_eq!(sys.state.arbitrate(true, false), ArbitrationOutcome::StandDown);

    // The worker runs until the retry budget is spent; every write fails.
    start_printing_queue(&mut sys, &mut failing);
    sys.state.on_drain_finished();
    assert_eq!(sys.state.is_busy(true), false);
    assert_eq!(sys.queue.len(), 3);

    // Writes succeed again: the next submission drains everything.
    let mut healthy = MessageWriter::scripted(Vec::new());
    let d4 = comfy_print_async(&mut sys, &mut healthy, Message::standard_ln("Test message_4"));
    assert!(d4);
    assert_eq!(sys.state.arbitrate(true, true), ArbitrationOutcome::StartWorker);
    sys.state.on_worker_spawned();
    assert_eq!(sys.state.is_busy(false), true);

    let outcome = start_printing_queue(&mut sys, &mut healthy);
    sys.state.on_drain_finished();
    assert_eq!(outcome, DrainOutcome::Emptied);
    assert_eq!(sys.state.is_busy(true), false);
    assert_eq!(sys.queue.len(), 0);

    // Delivery kept submission order: first in, first out.
    let texts: Vec<&str> = healthy.written.iter().map(|m| m.str()).collect();
    assert_eq!(
        texts,
        vec!["Test message_1", "Test message_2", "Test message_3", "Test message_4"]
    );
}
