//! The bounded FIFO of undelivered messages and its transitions: appending
//! under the overflow policy, head reinsertion of failed messages, and the
//! synthetic diagnostics recorded in front of them.

use vstd::prelude::*;
use crate::config::Config;
use crate::config::on_queue_full::On_QueueFull;
use crate::message::Message;
use crate::message::OutputKind;
use crate::printing_state::PrintingState;

verus! {

/// The resilient output system: the bounded queue of undelivered messages,
/// the tunables, and the single-flight drain state.  An embedding shell
/// keeps one such value behind its lock; insertion order is delivery order
/// within a stream.
pub struct PrintSystem {
    pub queue: Vec<Message>,
    pub config: Config,
    pub state: PrintingState,
}

/// What appending `msg` leaves in the queue: append while under capacity; at
/// capacity, `KeepNewest` evicts the oldest entry and appends, `KeepOldest`
/// discards the new message.
pub open spec fn enqueue_spec(q: Seq<Message>, config: Config, msg: Message) -> Seq<Message> {
    if q.len() < config.max_queue_length {
        q.push(msg)
    } else if config.on_queue_full == On_QueueFull::KeepNewest && q.len() > 0 {
        q.skip(1).push(msg)
    } else {
        q
    }
}

/// What reinserting a failed message at the head leaves in the queue: insert
/// while under capacity; at capacity, `KeepOldest` drops the queue's last
/// entry to make room at the front, and `KeepNewest` discards the failed
/// message in favour of what was queued after it.
pub open spec fn requeue_spec(q: Seq<Message>, config: Config, msg: Message) -> Seq<Message> {
    if q.len() < config.max_queue_length {
        seq![msg] + q
    } else if config.on_queue_full == On_QueueFull::KeepOldest && q.len() > 0 {
        seq![msg] + q.drop_last()
    } else {
        q
    }
}

/// The text of a synthetic diagnostic: what failed, then the error.
pub open spec fn notice_text(desc: Seq<char>, err: Seq<char>) -> Seq<char> {
    desc + "\nError: "@ + err + "."@
}

/// `m` is the synthetic diagnostic for `desc` and `err`: bound for the error
/// stream, with a trailing newline.
pub open spec fn is_notice(m: Message, desc: Seq<char>, err: Seq<char>) -> bool {
    m.string@ == notice_text(desc, err) && m.output == OutputKind::Stderr && m.should_append_line
}

/// A synthetic diagnostic is recorded only when diagnostics are enabled and
/// the queue has room for one.
pub open spec fn notice_applies(config: Config, q: Seq<Message>) -> bool {
    config.allow_logging_print_failures && q.len() < config.max_queue_length
}

/// What recording a diagnostic in front of `q` leaves in the queue, where
/// `n` is the diagnostic message.
pub open spec fn notice_spec(q: Seq<Message>, config: Config, n: Message) -> Seq<Message> {
    if notice_applies(config, q) {
        seq![n] + q
    } else {
        q
    }
}

impl PrintSystem {
    /// The queue respects its configured capacity.
    pub open spec fn bounded(self) -> bool {
        self.queue@.len() <= self.config.max_queue_length
    }

    /// An empty, idle system with the given tunables.
    pub fn new(config: Config) -> (r: PrintSystem)
        ensures
            r.queue@ == Seq::<Message>::empty(),
            r.config == config,
            r.state == PrintingState::Idle,
    {
        PrintSystem { queue: Vec::new(), config, state: PrintingState::Idle }
    }

    /// Appends `msg` under the overflow policy: the submission slow path.
    pub fn enqueue_back(&mut self, msg: Message)
        ensures
            final(self).queue@ == enqueue_spec(old(self).queue@, old(self).config, msg),
            final(self).config == old(self).config,
            final(self).state == old(self).state,
            old(self).bounded() ==> final(self).bounded(),
    {
        let ghost pre = self.queue@;
        if self.queue.len() < self.config.max_queue_length {
            self.queue.push(msg);
        } else if self.config.on_queue_full == On_QueueFull::KeepNewest && self.queue.len() > 0 {
            self.queue.remove(0);
            self.queue.push(msg);
            proof {
                assert(self.queue@ =~= pre.skip(1).push(msg));
            }
        }
    }

    /// Reinserts a failed message at the head, respecting capacity: delivery
    /// keeps failed items first.
    pub fn requeue_front(&mut self, msg: Message)
        ensures
            final(self).queue@ == requeue_spec(old(self).queue@, old(self).config, msg),
            final(self).config == old(self).config,
            final(self).state == old(self).state,
            old(self).bounded() ==> final(self).bounded(),
    {
        let ghost pre = self.queue@;
        if self.queue.len() < self.config.max_queue_length {
            self.queue.insert(0, msg);
            proof {
                assert(self.queue@ =~= seq![msg] + pre);
            }
        } else if self.config.on_queue_full == On_QueueFull::KeepOldest && self.queue.len() > 0 {
            self.queue.pop();
            self.queue.insert(0, msg);
            proof {
                assert(self.queue@ =~= seq![msg] + pre.drop_last());
            }
        }
    }

    /// Removes and returns the head message: the next one owed to its
    /// stream.
    pub fn take_head(&mut self) -> (r: Option<Message>)
        ensures
            old(self).queue@.len() == 0 ==> r is None && *final(self) == *old(self),
            old(self).queue@.len() > 0 ==> r == Some(old(self).queue@[0]) && final(self).queue@
                == old(self).queue@.skip(1) && final(self).config == old(self).config
                && final(self).state == old(self).state,
            old(self).bounded() ==> final(self).bounded(),
    {
        if self.queue.len() == 0 {
            None
        } else {
            let m = self.queue.remove(0);
            proof {
                assert(self.queue@ =~= old(self).queue@.skip(1));
            }
            Some(m)
        }
    }

    /// Records a synthetic diagnostic in front of the queue, when enabled
    /// and there is room.
    pub fn try_insert_write_err(&mut self, desc: &str, err: &str)
        ensures
            final(self).config == old(self).config,
            final(self).state == old(self).state,
            !notice_applies(old(self).config, old(self).queue@) ==> final(self).queue@ == old(
                self,
            ).queue@,
            notice_applies(old(self).config, old(self).queue@) ==> final(self).queue@.len()
                == old(self).queue@.len() + 1 && final(self).queue@.skip(1) == old(self).queue@
                && is_notice(final(self).queue@[0], desc@, err@),
            old(self).bounded() ==> final(self).bounded(),
    {
        if !self.config.allow_logging_print_failures {
            return ;
        }
        if self.queue.len() < self.config.max_queue_length {
            let ghost pre = self.queue@;
            let mut text = desc.to_owned();
            text.append("\nError: ");
            text.append(err);
            text.append(".");
            let n = Message { string: text, output: OutputKind::Stderr, should_append_line: true };
            let ghost gn = n;
            self.queue.insert(0, n);
            proof {
                assert(self.queue@ =~= seq![gn] + pre);
                assert(self.queue@.skip(1) =~= pre);
                assert(is_notice(gn, desc@, err@));
            }
        }
    }
}

} // verus!
