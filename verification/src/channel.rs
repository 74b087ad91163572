//! The event channel: a push-callback subscription as a pollable sequence.
//!
//! The native event source pushes events from a foreign thread; the consumer
//! polls on its own thread.  `EventChannel` is the state shared between the
//! two sides: a FIFO queue of decoded events, the lifecycle of the native
//! connection handle, and whether a consumer is suspended waiting to be
//! woken.  The unverified boundary holds one such channel under a single
//! exclusive lock, held only across one operation here: the producer callback
//! calls `on_native_event`, the consumer's poll calls `poll_next`, and the
//! drop path calls `teardown`.

use vstd::prelude::*;

use crate::receiver::{ReceiverEvent, ReceiverEventData};

verus! {

/// What one consumer poll resolves to.
#[derive(Clone, Debug, PartialEq, Eq)]
pub enum PollOutcome {
    /// The native connection must be established first (lazy activation on
    /// the first poll); the caller subscribes and reports back through
    /// `mark_subscribed`.
    Subscribe,
    /// The next queued event, in push order.
    Event(ReceiverEvent),
    /// Nothing queued yet: the consumer suspends; its notification hook is
    /// registered and the next enqueue will wake it.
    Pending,
    /// The producer side is closed and the queue is drained: no more items.
    Finished,
}

/// The mathematical state of a channel: its queue as a sequence, oldest
/// first, and its lifecycle flags.
#[verifier::ext_equal]
pub struct ChannelModel {
    pub queue: Seq<ReceiverEvent>,
    pub producer_open: bool,
    pub subscribed: bool,
    pub handle_live: bool,
    pub waker_registered: bool,
}

impl ChannelModel {
    /// A channel before its first poll: nothing queued, producer open, no
    /// native connection yet.
    pub open spec fn fresh(self) -> bool {
        &&& self.queue == Seq::<ReceiverEvent>::empty()
        &&& self.producer_open
        &&& !self.subscribed
        &&& !self.handle_live
        &&& !self.waker_registered
    }

    /// The channel after one producer push: while the producer side is open
    /// the event is appended (the `Unsubscribed` event closes the producer
    /// side behind itself) and a registered consumer hook is consumed by the
    /// wake; after the close, pushes change nothing.
    pub open spec fn push_spec(self, ev: ReceiverEvent) -> ChannelModel {
        if self.producer_open {
            ChannelModel {
                queue: self.queue.push(ev),
                producer_open: !(ev.data is Unsubscribed),
                waker_registered: false,
                ..self
            }
        } else {
            self
        }
    }

    /// Whether one producer push wakes a suspended consumer.
    pub open spec fn push_wakes(self) -> bool {
        self.producer_open && self.waker_registered
    }

    /// What one consumer poll resolves to.
    pub open spec fn poll_result_spec(self) -> PollOutcome {
        if !self.subscribed {
            PollOutcome::Subscribe
        } else if self.queue.len() > 0 {
            PollOutcome::Event(self.queue[0])
        } else if self.producer_open {
            PollOutcome::Pending
        } else {
            PollOutcome::Finished
        }
    }

    /// The channel after one consumer poll: the consumer's hook is stored,
    /// and a yielded event leaves the queue.
    pub open spec fn poll_next_spec(self) -> ChannelModel {
        if self.subscribed && self.queue.len() > 0 {
            ChannelModel { queue: self.queue.drop_first(), waker_registered: true, ..self }
        } else {
            ChannelModel { waker_registered: true, ..self }
        }
    }

    /// The channel once the native subscribe call returned a handle.
    pub open spec fn subscribe_spec(self) -> ChannelModel {
        ChannelModel { subscribed: true, handle_live: true, ..self }
    }

    /// The channel after one teardown: the handle is no longer live.
    pub open spec fn teardown_spec(self) -> ChannelModel {
        ChannelModel { handle_live: false, ..self }
    }
}

/// The state of one live event subscription.
///
/// `queue` holds the decoded events not yet handed to the consumer, oldest
/// first.  `producer_open` is cleared by the designated `Unsubscribed` event,
/// after which nothing is enqueued any more.  `subscribed` records that the
/// native subscribe call was made, `handle_live` that the returned connection
/// handle has not been released yet.  `waker_registered` records that the
/// consumer's notification hook is stored and unconsumed.
pub struct EventChannel {
    queue: Vec<ReceiverEvent>,
    producer_open: bool,
    subscribed: bool,
    handle_live: bool,
    waker_registered: bool,
}

impl View for EventChannel {
    type V = ChannelModel;

    closed spec fn view(&self) -> ChannelModel {
        ChannelModel {
            queue: self.queue@,
            producer_open: self.producer_open,
            subscribed: self.subscribed,
            handle_live: self.handle_live,
            waker_registered: self.waker_registered,
        }
    }
}

impl EventChannel {
    /// Create the channel for one subscription.
    pub fn new() -> (c: Self)
        ensures
            c@.fresh(),
    {
        EventChannel {
            queue: Vec::new(),
            producer_open: true,
            subscribed: false,
            handle_live: false,
            waker_registered: false,
        }
    }

    /// Record that the native subscribe call was made and returned a live
    /// connection handle.  Performed once per channel.
    pub fn mark_subscribed(&mut self)
        requires
            !old(self)@.subscribed,
        ensures
            final(self)@ == old(self)@.subscribe_spec(),
    {
        self.subscribed = true;
        self.handle_live = true;
        proof {
            assert(self@ =~= old(self)@.subscribe_spec());
        }
    }

    /// One push from the native event source (runs on a foreign thread,
    /// under the channel's lock).  Returns whether the caller must wake the
    /// suspended consumer.
    pub fn on_native_event(&mut self, ev: ReceiverEvent) -> (wake: bool)
        ensures
            final(self)@ == old(self)@.push_spec(ev),
            wake == old(self)@.push_wakes(),
    {
        if self.producer_open {
            let closing = match ev.data {
                ReceiverEventData::Unsubscribed => true,
                _ => false,
            };
            self.queue.push(ev);
            if closing {
                self.producer_open = false;
            }
            let wake = self.waker_registered;
            self.waker_registered = false;
            proof {
                assert(self@ =~= old(self)@.push_spec(ev));
            }
            wake
        } else {
            proof {
                assert(self@ =~= old(self)@.push_spec(ev));
            }
            false
        }
    }

    /// One consumer poll (under the channel's lock): establish the
    /// connection first if none exists yet; otherwise yield the next queued
    /// event in push order, suspend if none is queued, or report the end of
    /// the sequence once the producer side is closed and drained.
    pub fn poll_next(&mut self) -> (r: PollOutcome)
        ensures
            r == old(self)@.poll_result_spec(),
            final(self)@ == old(self)@.poll_next_spec(),
    {
        self.waker_registered = true;
        if !self.subscribed {
            proof {
                assert(self@ =~= old(self)@.poll_next_spec());
            }
            PollOutcome::Subscribe
        } else if self.queue.len() > 0 {
            let ev = self.queue.remove(0);
            proof {
                assert(self@.queue =~= old(self)@.queue.drop_first());
                assert(self@ =~= old(self)@.poll_next_spec());
            }
            PollOutcome::Event(ev)
        } else if self.producer_open {
            proof {
                assert(self@ =~= old(self)@.poll_next_spec());
            }
            PollOutcome::Pending
        } else {
            proof {
                assert(self@ =~= old(self)@.poll_next_spec());
            }
            PollOutcome::Finished
        }
    }

    /// Release the channel's claim on the native connection handle.  Returns
    /// whether the caller must perform the native release now: true exactly
    /// once over the channel's lifetime, however the channel ends and however
    /// often teardown runs.
    pub fn teardown(&mut self) -> (release: bool)
        ensures
            release == old(self)@.handle_live,
            final(self)@ == old(self)@.teardown_spec(),
    {
        let release = self.handle_live;
        self.handle_live = false;
        proof {
            assert(self@ =~= old(self)@.teardown_spec());
        }
        release
    }
}

/// The channel after a sequence of producer pushes.
pub open spec fn push_all_spec(c: ChannelModel, evs: Seq<ReceiverEvent>) -> ChannelModel
    decreases evs.len(),
{
    if evs.len() == 0 {
        c
    } else {
        push_all_spec(c.push_spec(evs[0]), evs.drop_first())
    }
}

/// The first `n` events a consumer draws from the channel by polling.
pub open spec fn drain_spec(c: ChannelModel, n: nat) -> Seq<ReceiverEvent>
    decreases n,
{
    if n == 0 {
        Seq::empty()
    } else {
        match c.poll_result_spec() {
            PollOutcome::Event(ev) => seq![ev] + drain_spec(c.poll_next_spec(), (n - 1) as nat),
            _ => Seq::empty(),
        }
    }
}

proof fn lemma_push_all_appends(c: ChannelModel, evs: Seq<ReceiverEvent>)
    requires
        c.producer_open,
        forall|i: int| 0 <= i < evs.len() ==> !(#[trigger] evs[i].data is Unsubscribed),
    ensures
        push_all_spec(c, evs).queue == c.queue + evs,
        push_all_spec(c, evs).producer_open,
        push_all_spec(c, evs).subscribed == c.subscribed,
    decreases evs.len(),
{
    if evs.len() == 0 {
        assert(c.queue + evs =~= c.queue);
    } else {
        let c1 = c.push_spec(evs[0]);
        lemma_push_all_appends(c1, evs.drop_first());
        assert(c1.queue + evs.drop_first() =~= c.queue + evs);
    }
}

proof fn lemma_drain_yields_queue(c: ChannelModel)
    requires
        c.subscribed,
    ensures
        drain_spec(c, c.queue.len()) == c.queue,
    decreases c.queue.len(),
{
    if c.queue.len() == 0 {
        assert(drain_spec(c, 0) =~= c.queue);
    } else {
        let c1 = c.poll_next_spec();
        lemma_drain_yields_queue(c1);
        assert(seq![c.queue[0]] + c.queue.drop_first() =~= c.queue);
    }
}

/// The channel preserves enqueue order: whatever sequence of ordinary events
/// the native side pushes into a live, empty channel, polling yields exactly
/// that sequence, in push order.
pub proof fn lemma_fifo_order(c: ChannelModel, evs: Seq<ReceiverEvent>)
    requires
        c.queue == Seq::<ReceiverEvent>::empty(),
        c.producer_open,
        c.subscribed,
        forall|i: int| 0 <= i < evs.len() ==> !(#[trigger] evs[i].data is Unsubscribed),
    ensures
        drain_spec(push_all_spec(c, evs), evs.len()) == evs,
{
    lemma_push_all_appends(c, evs);
    let filled = push_all_spec(c, evs);
    assert(filled.queue =~= evs);
    lemma_drain_yields_queue(filled);
}

/// Teardown is idempotent: the first teardown of a subscribed channel
/// releases the native handle, and every further teardown — whatever pushes
/// or polls happened in between — finds nothing live to release, so the
/// handle is never double-released.
pub proof fn lemma_teardown_releases_once(c: ChannelModel)
    ensures
        !c.teardown_spec().handle_live,
        c.teardown_spec().teardown_spec() == c.teardown_spec(),
{
}

} // verus!
