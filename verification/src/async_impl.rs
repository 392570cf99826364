//! The submission path and the drain worker: deliver now when the queue is
//! empty, otherwise queue and drain later, retrying failed writes under the
//! configured policies and falling back to the log sink when the retry
//! budget is spent.

use vstd::prelude::*;
use crate::config::on_max_retries_reached::On_MaxRetriesReached;
use crate::config::on_queue_printing_fail::On_QueuePrintingFail;
use crate::config::Config;
use crate::message::Message;
use crate::queue::PrintSystem;
use crate::queue::enqueue_spec;
use crate::queue::is_notice;
use crate::queue::notice_applies;
use crate::queue::requeue_spec;
use crate::writer::MessageWriter;
use crate::writer::WriterMode;

verus! {

/// Diagnostic description recorded when the submission fast path fails.
pub const SUBMIT_FAIL_DESC: &'static str =
    "comfy_print::comfy_print_async(): Failed to print message, creating queue...";

/// Diagnostic description recorded when the drain worker's write fails.
pub const DRAIN_FAIL_DESC: &'static str =
    "comfy_print::print_until_empty(): Failed to print first message in queue.";

/// Diagnostic description recorded when a flush to the log sink fails.
pub const FLUSH_FAIL_DESC: &'static str =
    "comfy_print::flush_queue_to(): Failed to write a message to the log sink.";

/// What the retry policy decides after a failed write.
#[derive(Debug, Copy, Clone, PartialEq, Eq, Structural)]
pub enum DrainDecision {
    /// Retry at once: the attempt budget is not spent.
    Retry,
    /// Stop the drain session; the queue stays for the next trigger.
    Stop,
    /// The attempt budget is spent: apply the exhaustion policy.
    Exhausted,
}

/// How a drain session ended.
#[derive(Debug, Copy, Clone, PartialEq, Eq, Structural)]
pub enum DrainOutcome {
    /// The queue was drained to empty.
    Emptied,
    /// The session gave up per policy; the queue keeps what is undelivered.
    Stopped,
    /// The retry budget is spent and the exhaustion policy asks for the
    /// queue to be flushed to the log sink.
    DiskFlushRequested,
}

/// How a flush to the log sink ended.
#[derive(Debug, Copy, Clone, PartialEq, Eq, Structural)]
pub enum FlushOutcome {
    /// Every queued message reached the sink; the queue is empty.
    Flushed,
    /// A sink write failed; the remainder stays queued.
    Halted,
}

/// What the retry policy decides after a failed write, given the attempts
/// already spent in this session.
pub open spec fn drain_decision_spec(config: Config, retries: usize, max_retries: usize)
    -> DrainDecision {
    match config.on_queue_printing_fail {
        On_QueuePrintingFail::Return => DrainDecision::Stop,
        On_QueuePrintingFail::TryUntilMaxRetries => if retries < max_retries {
            DrainDecision::Retry
        } else {
            DrainDecision::Exhausted
        },
    }
}

/// `q_new` is what a failed write of `msg` (error text `err`) leaves in the
/// queue: `msg` reinserted at the head under the overflow policy, with a
/// diagnostic headed by `desc` in front of it when diagnostics apply.
pub open spec fn requeued_with_notice(
    desc: Seq<char>,
    config: Config,
    q_old: Seq<Message>,
    msg: Message,
    err: Seq<char>,
    q_new: Seq<Message>,
) -> bool {
    let q1 = requeue_spec(q_old, config, msg);
    if notice_applies(config, q1) {
        q_new.len() == q1.len() + 1 && q_new.skip(1) == q1 && is_notice(q_new[0], desc, err)
    } else {
        q_new == q1
    }
}

/// Main entry of the submission path.  Delivers `msg` at once when the queue
/// is empty (the fast path); otherwise queues it under the overflow policy.
/// A failed fast-path write queues the message — head position, diagnostic
/// in front — unless the queue's capacity is zero, in which case the message
/// is dropped.  Returns whether the caller should arbitrate for a drain
/// worker.  Never returns an error and never panics.
pub fn comfy_print_async(sys: &mut PrintSystem, writer: &mut MessageWriter, msg: Message) -> (needs_drain: bool)
    ensures
        final(sys).config == old(sys).config,
        final(sys).state == old(sys).state,
        final(writer).mode == old(writer).mode,
        old(writer).all_ok() ==> final(writer).all_ok(),
        old(sys).bounded() ==> final(sys).bounded(),
        old(sys).queue@.len() > 0 ==> final(sys).queue@ == enqueue_spec(
            old(sys).queue@,
            old(sys).config,
            msg,
        ) && needs_drain && *final(writer) == *old(writer),
        old(sys).queue@.len() == 0 && !needs_drain ==> final(sys).queue@ == old(sys).queue@,
        old(sys).queue@.len() == 0 && needs_drain ==> old(sys).config.max_queue_length > 0
            && exists|err: Seq<char>|
            requeued_with_notice(
                SUBMIT_FAIL_DESC@,
                old(sys).config,
                old(sys).queue@,
                msg,
                err,
                final(sys).queue@,
            ),
        old(sys).queue@.len() == 0 && old(writer).is_scripted() ==> final(writer).outcomes@ == (
        if old(writer).outcomes@.len() == 0 {
            old(writer).outcomes@
        } else {
            old(writer).outcomes@.skip(1)
        }),
        old(sys).queue@.len() == 0 && old(writer).is_scripted() && old(writer).next_ok() ==> (
        !needs_drain && final(writer).written@ == old(writer).written@ + seq![msg]),
        old(sys).queue@.len() == 0 && old(writer).is_scripted() && !old(writer).next_ok() ==> (
        final(writer).written@ == old(writer).written@ && (old(sys).config.max_queue_length == 0
            ==> !needs_drain) && (old(sys).config.max_queue_length > 0 ==> needs_drain
            && requeued_with_notice(
            SUBMIT_FAIL_DESC@,
            old(sys).config,
            old(sys).queue@,
            msg,
            "Forced write failure"@,
            final(sys).queue@,
        ))),
{
    if sys.queue.len() == 0 {
        let ghost q0 = sys.queue@;
        match writer.write(&msg) {
            Ok(()) => false,
            Err(err) => {
                if sys.config.max_queue_length == 0 {
                    false
                } else {
                    sys.requeue_front(msg);
                    sys.try_insert_write_err(SUBMIT_FAIL_DESC, err.as_str());
                    proof {
                        assert(requeued_with_notice(
                            SUBMIT_FAIL_DESC@,
                            sys.config,
                            q0,
                            msg,
                            err@,
                            sys.queue@,
                        ));
                    }
                    true
                }
            },
        }
    } else {
        sys.enqueue_back(msg);
        true
    }
}

/// Reinserts the failed message, records the diagnostic, and decides how the
/// drain session goes on: retry while the budget lasts under
/// `TryUntilMaxRetries`, stop at once under `Return`, and hand over to the
/// exhaustion policy when the budget is spent.
pub fn handle_write_failure(
    sys: &mut PrintSystem,
    msg: Message,
    err: &str,
    retries: usize,
    max_retries: usize,
) -> (decision: DrainDecision)
    ensures
        final(sys).config == old(sys).config,
        final(sys).state == old(sys).state,
        old(sys).bounded() ==> final(sys).bounded(),
        requeued_with_notice(
            DRAIN_FAIL_DESC@,
            old(sys).config,
            old(sys).queue@,
            msg,
            err@,
            final(sys).queue@,
        ),
        decision == drain_decision_spec(old(sys).config, retries, max_retries),
{
    sys.requeue_front(msg);
    sys.try_insert_write_err(DRAIN_FAIL_DESC, err);
    match sys.config.on_queue_printing_fail {
        On_QueuePrintingFail::Return => DrainDecision::Stop,
        On_QueuePrintingFail::TryUntilMaxRetries => {
            if retries < max_retries {
                DrainDecision::Retry
            } else {
                DrainDecision::Exhausted
            }
        },
    }
}

/// The drain worker: repeatedly removes the head message and writes it,
/// applying the retry policy on failure, until the queue is empty or a
/// policy stops the session.  When every write succeeds, the session
/// delivers exactly the queued messages in queue order.  The queue lock
/// discipline (never held across a write) is the embedding shell's side; the
/// worker itself never panics.
#[verifier::loop_isolation(false)]
pub fn print_until_empty(
    sys: &mut PrintSystem,
    writer: &mut MessageWriter,
    max_retries: usize,
    retries: usize,
) -> (r: DrainOutcome)
    requires
        retries <= max_retries,
    ensures
        final(sys).config == old(sys).config,
        final(sys).state == old(sys).state,
        final(writer).mode == old(writer).mode,
        old(writer).mode == WriterMode::Console ==> *final(writer) == *old(writer),
        old(writer).all_ok() ==> final(writer).all_ok(),
        old(sys).bounded() ==> final(sys).bounded(),
        r == DrainOutcome::Emptied ==> final(sys).queue@.len() == 0,
        r == DrainOutcome::Stopped ==> old(sys).config.on_queue_printing_fail
            == On_QueuePrintingFail::Return || old(sys).config.on_max_retries_reached
            == On_MaxRetriesReached::Return,
        r == DrainOutcome::DiskFlushRequested ==> old(sys).config.on_queue_printing_fail
            == On_QueuePrintingFail::TryUntilMaxRetries
            && old(sys).config.on_max_retries_reached == On_MaxRetriesReached::WriteToDisk,
        old(writer).is_scripted() && old(writer).all_ok() ==> r == DrainOutcome::Emptied
            && final(sys).queue@.len() == 0 && final(writer).written@ == old(writer).written@
            + old(sys).queue@,
{
    let ghost cfg0 = sys.config;
    let ghost st0 = sys.state;
    let ghost q0 = sys.queue@;
    let ghost w0 = *writer;
    let ghost b0 = sys.bounded();
    let mut retries = retries;
    let ghost mut k: int = 0;
    loop
        invariant
            retries <= max_retries,
            sys.config == cfg0,
            sys.state == st0,
            writer.mode == w0.mode,
            w0.mode == WriterMode::Console ==> *writer == w0,
            b0 ==> sys.bounded(),
            w0.all_ok() ==> writer.all_ok(),
            w0.is_scripted() && w0.all_ok() ==> 0 <= k <= q0.len() && sys.queue@ == q0.skip(k)
                && writer.written@ == w0.written@ + q0.take(k),
        decreases max_retries - retries, sys.queue.len(),
    {
        match sys.take_head() {
            None => {
                proof {
                    if w0.is_scripted() && w0.all_ok() {
                        assert(k == q0.len());
                        assert(q0.take(k) =~= q0);
                    }
                }
                return DrainOutcome::Emptied;
            },
            Some(msg) => {
                match writer.write(&msg) {
                    Ok(()) => {
                        proof {
                            if w0.is_scripted() && w0.all_ok() {
                                assert(msg == q0[k]);
                                assert(q0.skip(k).skip(1) =~= q0.skip(k + 1));
                                assert(w0.written@ + q0.take(k) + seq![msg] =~= w0.written@
                                    + q0.take(k + 1));
                                k = k + 1;
                            }
                        }
                    },
                    Err(err) => {
                        match handle_write_failure(sys, msg, err.as_str(), retries, max_retries) {
                            DrainDecision::Retry => {
                                retries = retries + 1;
                            },
                            DrainDecision::Stop => {
                                return DrainOutcome::Stopped;
                            },
                            DrainDecision::Exhausted => {
                                match sys.config.on_max_retries_reached {
                                    On_MaxRetriesReached::Return => {
                                        return DrainOutcome::Stopped;
                                    },
                                    On_MaxRetriesReached::WriteToDisk => {
                                        return DrainOutcome::DiskFlushRequested;
                                    },
                                }
                            },
                        }
                    },
                }
            },
        }
    }
}

/// Starts one drain session with a fresh attempt counter and the configured
/// budget.
pub fn start_printing_queue(sys: &mut PrintSystem, writer: &mut MessageWriter) -> (r:
    DrainOutcome)
    ensures
        final(sys).config == old(sys).config,
        final(sys).state == old(sys).state,
        final(writer).mode == old(writer).mode,
        old(writer).mode == WriterMode::Console ==> *final(writer) == *old(writer),
        old(writer).all_ok() ==> final(writer).all_ok(),
        old(sys).bounded() ==> final(sys).bounded(),
        r == DrainOutcome::Emptied ==> final(sys).queue@.len() == 0,
        r == DrainOutcome::DiskFlushRequested ==> old(sys).config.on_queue_printing_fail
            == On_QueuePrintingFail::TryUntilMaxRetries
            && old(sys).config.on_max_retries_reached == On_MaxRetriesReached::WriteToDisk,
        old(writer).is_scripted() && old(writer).all_ok() ==> r == DrainOutcome::Emptied
            && final(sys).queue@.len() == 0 && final(writer).written@ == old(writer).written@
            + old(sys).queue@,
{
    let max_retries = sys.config.max_retries;
    print_until_empty(sys, writer, max_retries, 0)
}

/// Restores a message whose flush to the log sink failed and records the
/// diagnostic; the flush halts after this.
pub fn flush_write_failed(sys: &mut PrintSystem, msg: Message, err: &str)
    ensures
        final(sys).config == old(sys).config,
        final(sys).state == old(sys).state,
        old(sys).bounded() ==> final(sys).bounded(),
        requeued_with_notice(
            FLUSH_FAIL_DESC@,
            old(sys).config,
            old(sys).queue@,
            msg,
            err@,
            final(sys).queue@,
        ),
{
    sys.requeue_front(msg);
    sys.try_insert_write_err(FLUSH_FAIL_DESC, err);
}

/// The exhaustion fallback: hands every queued message, in order, to `sink`,
/// removing each on success; a failed sink write restores the message,
/// records a diagnostic and halts, leaving the remainder queued.  When every
/// sink write succeeds, the sink receives exactly the queued messages in
/// queue order and the queue ends empty.
#[verifier::loop_isolation(false)]
pub fn flush_queue_to(sys: &mut PrintSystem, sink: &mut MessageWriter) -> (r: FlushOutcome)
    ensures
        final(sys).config == old(sys).config,
        final(sys).state == old(sys).state,
        final(sink).mode == old(sink).mode,
        old(sink).mode == WriterMode::Console ==> *final(sink) == *old(sink),
        old(sink).all_ok() ==> final(sink).all_ok(),
        old(sys).bounded() ==> final(sys).bounded(),
        r == FlushOutcome::Flushed ==> final(sys).queue@.len() == 0,
        old(sink).is_scripted() && old(sink).all_ok() ==> r == FlushOutcome::Flushed
            && final(sys).queue@.len() == 0 && final(sink).written@ == old(sink).written@
            + old(sys).queue@,
{
    let ghost cfg0 = sys.config;
    let ghost st0 = sys.state;
    let ghost q0 = sys.queue@;
    let ghost w0 = *sink;
    let ghost b0 = sys.bounded();
    let ghost mut k: int = 0;
    loop
        invariant
            sys.config == cfg0,
            sys.state == st0,
            sink.mode == w0.mode,
            w0.mode == WriterMode::Console ==> *sink == w0,
            b0 ==> sys.bounded(),
            w0.all_ok() ==> sink.all_ok(),
            w0.is_scripted() && w0.all_ok() ==> 0 <= k <= q0.len() && sys.queue@ == q0.skip(k)
                && sink.written@ == w0.written@ + q0.take(k),
        decreases sys.queue.len(),
    {
        match sys.take_head() {
            None => {
                proof {
                    if w0.is_scripted() && w0.all_ok() {
                        assert(k == q0.len());
                        assert(q0.take(k) =~= q0);
                    }
                }
                return FlushOutcome::Flushed;
            },
            Some(msg) => {
                match sink.write(&msg) {
                    Ok(()) => {
                        proof {
                            if w0.is_scripted() && w0.all_ok() {
                                assert(msg == q0[k]);
                                assert(q0.skip(k).skip(1) =~= q0.skip(k + 1));
                                assert(w0.written@ + q0.take(k) + seq![msg] =~= w0.written@
                                    + q0.take(k + 1));
                                k = k + 1;
                            }
                        }
                    },
                    Err(err) => {
                        flush_write_failed(sys, msg, err.as_str());
                        return FlushOutcome::Halted;
                    },
                }
            },
        }
    }
}

} // verus!
