//! The frame transport: moving spectrum frames from the periodic fetch
//! activity to the presentation loop.
//!
//! Three buffers circulate.  The fetch activity round-trips one buffer
//! through the native fetch call; on success it exchanges it — moves, never
//! copies — with the single shared buffer (`FrameExchange`), under a lock the
//! unverified boundary holds only across that swap.  The presentation loop,
//! on its own schedule, exchanges the shared buffer with its private one the
//! same way.  A frame left unread when a newer one arrives is simply
//! overwritten: the contract is freshest-available, not every-frame-observed.
//!
//! `FrameTransport` is the decision state of the fetch activity itself: it
//! starts fetching on the receiver's `Started` event, issues one fetch per
//! tick of the configured period, and stops on `Stopped`.  The unverified
//! boundary runs the timer loop and performs the fetches it is told to issue.

use vstd::prelude::*;

use crate::common::FftFrame;
use crate::receiver::ReceiverEventData;

verus! {

/// The one buffer shared between the fetch activity and the presentation
/// loop, with a flag telling whether it holds a frame not yet seen by the
/// consumer.
pub struct FrameExchange {
    pub slot: FftFrame,
    pub fresh: bool,
}

impl FrameExchange {
    /// Create the exchange around an initial (empty) buffer.
    pub fn new(initial: FftFrame) -> (x: Self)
        ensures
            x.slot == initial,
            !x.fresh,
    {
        FrameExchange { slot: initial, fresh: false }
    }

    /// Producer side: hand a freshly fetched frame to the consumer, taking
    /// the previously shared buffer back for reuse.  A pure exchange: no
    /// frame is copied and none is dropped.
    pub fn publish(&mut self, frame: FftFrame) -> (prev: FftFrame)
        ensures
            final(self).slot == frame,
            final(self).fresh,
            prev == old(self).slot,
    {
        let mut buf = frame;
        core::mem::swap(&mut self.slot, &mut buf);
        self.fresh = true;
        buf
    }

    /// Consumer side: take whatever frame is shared, leaving a scratch
    /// buffer in its place, and learn whether it is new since the last take.
    pub fn take(&mut self, scratch: FftFrame) -> (r: (FftFrame, bool))
        ensures
            r.0 == old(self).slot,
            r.1 == old(self).fresh,
            final(self).slot == scratch,
            !final(self).fresh,
    {
        let mut buf = scratch;
        core::mem::swap(&mut self.slot, &mut buf);
        let was_fresh = self.fresh;
        self.fresh = false;
        (buf, was_fresh)
    }
}

/// Whether the fetch activity runs after one receiver event: `Started` starts
/// it, `Stopped` stops it, every other event leaves it as it was.
pub open spec fn running_after_event(running: bool, data: ReceiverEventData) -> bool {
    match data {
        ReceiverEventData::Started => true,
        ReceiverEventData::Stopped => false,
        _ => running,
    }
}

/// One step the fetch activity's state goes through: a receiver event
/// delivered to it, or one tick of its fetch timer.
pub enum TransportStep {
    Notify(ReceiverEventData),
    Tick,
}

/// Whether the fetch activity runs after a sequence of steps.
pub open spec fn running_after(init: bool, steps: Seq<TransportStep>) -> bool
    decreases steps.len(),
{
    if steps.len() == 0 {
        init
    } else {
        let r = match steps[0] {
            TransportStep::Notify(data) => running_after_event(init, data),
            TransportStep::Tick => init,
        };
        running_after(r, steps.drop_first())
    }
}

/// Whether the step at position `k` issues a fetch: it is a tick and the
/// activity is running when it arrives.
pub open spec fn issues_fetch_at(init: bool, steps: Seq<TransportStep>, k: int) -> bool {
    steps[k] is Tick && running_after(init, steps.take(k))
}

/// The decision state of the periodic fetch activity.
///
/// `fetches` counts the fetches issued so far (it exists for the resource
/// accounting the liveness law and its tests rely on).
pub struct FrameTransport {
    pub running: bool,
    pub fetches: u64,
}

impl FrameTransport {
    /// The transport before any event: not fetching.
    pub fn new() -> (t: Self)
        ensures
            !t.running,
            t.fetches == 0,
    {
        FrameTransport { running: false, fetches: 0 }
    }

    /// Deliver one receiver event to the transport: `Started` starts the
    /// periodic fetching, `Stopped` stops it, everything else changes
    /// nothing.
    pub fn on_event(&mut self, data: &ReceiverEventData)
        ensures
            final(self).running == running_after_event(old(self).running, *data),
            final(self).fetches == old(self).fetches,
    {
        match data {
            ReceiverEventData::Started => {
                self.running = true;
            },
            ReceiverEventData::Stopped => {
                self.running = false;
            },
            _ => {},
        }
    }

    /// One tick of the fetch timer: a fetch is issued exactly while the
    /// receiver is started.
    pub fn on_tick(&mut self) -> (issue: bool)
        requires
            old(self).fetches < u64::MAX,
        ensures
            issue == old(self).running,
            final(self).running == old(self).running,
            final(self).fetches == old(self).fetches + (if issue { 1int } else { 0int }),
    {
        if self.running {
            self.fetches = self.fetches + 1;
            true
        } else {
            false
        }
    }
}

proof fn lemma_running_persists(init: bool, steps: Seq<TransportStep>)
    requires
        init,
        forall|k: int| 0 <= k < steps.len() ==> !(#[trigger] steps[k] matches TransportStep::Notify(d) && d is Stopped),
    ensures
        running_after(init, steps),
    decreases steps.len(),
{
    if steps.len() > 0 {
        assert(!(steps[0] matches TransportStep::Notify(d) && d is Stopped));
        let r = match steps[0] {
            TransportStep::Notify(data) => running_after_event(init, data),
            TransportStep::Tick => init,
        };
        assert(r);
        lemma_running_persists(r, steps.drop_first());
    }
}

proof fn lemma_stopped_persists(init: bool, steps: Seq<TransportStep>)
    requires
        !init,
        forall|k: int| 0 <= k < steps.len() ==> !(#[trigger] steps[k] matches TransportStep::Notify(d) && d is Started),
    ensures
        !running_after(init, steps),
    decreases steps.len(),
{
    if steps.len() > 0 {
        assert(!(steps[0] matches TransportStep::Notify(d) && d is Started));
        let r = match steps[0] {
            TransportStep::Notify(data) => running_after_event(init, data),
            TransportStep::Tick => init,
        };
        assert(!r);
        lemma_stopped_persists(r, steps.drop_first());
    }
}

proof fn lemma_running_after_split(init: bool, steps: Seq<TransportStep>, i: int, k: int)
    requires
        0 <= i <= k <= steps.len(),
    ensures
        running_after(init, steps.take(k)) == running_after(
            running_after(init, steps.take(i)),
            steps.subrange(i, k),
        ),
    decreases i,
{
    if i == 0 {
        assert(steps.take(0) =~= Seq::<TransportStep>::empty());
        assert(steps.subrange(0, k) =~= steps.take(k));
    } else {
        let rest = steps.drop_first();
        let r0 = match steps[0] {
            TransportStep::Notify(data) => running_after_event(init, data),
            TransportStep::Tick => init,
        };
        assert(steps.take(k)[0] == steps[0]);
        assert(steps.take(k).drop_first() =~= rest.take(k - 1));
        assert(running_after(init, steps.take(k)) == running_after(r0, rest.take(k - 1)));
        assert(steps.take(i)[0] == steps[0]);
        assert(steps.take(i).drop_first() =~= rest.take(i - 1));
        assert(running_after(init, steps.take(i)) == running_after(r0, rest.take(i - 1)));
        lemma_running_after_split(r0, rest, i - 1, k - 1);
        assert(rest.subrange(i - 1, k - 1) =~= steps.subrange(i, k));
    }
}

/// Liveness of the periodic fetch: once the activity is running at step `i`
/// (for instance, right after a `Started` event), every tick up to the next
/// `Stopped` event issues a fetch.
pub proof fn lemma_fetch_while_started(init: bool, steps: Seq<TransportStep>, i: int, k: int)
    requires
        0 <= i <= k < steps.len(),
        running_after(init, steps.take(i)),
        forall|m: int| i <= m < k ==> !(#[trigger] steps[m] matches TransportStep::Notify(d) && d is Stopped),
        steps[k] is Tick,
    ensures
        issues_fetch_at(init, steps, k),
{
    let mid = running_after(init, steps.take(i));
    let window = steps.subrange(i, k);
    assert forall|m: int| 0 <= m < window.len() implies !(#[trigger] window[m] matches TransportStep::Notify(d)
        && d is Stopped) by {
        assert(window[m] == steps[m + i]);
    }
    lemma_running_persists(mid, window);
    lemma_running_after_split(init, steps, i, k);
}

/// Quiescence after a stop: once the activity is stopped at step `i` (for
/// instance, right after a `Stopped` event), no tick up to the next
/// `Started` event issues a fetch.
pub proof fn lemma_no_fetch_while_stopped(init: bool, steps: Seq<TransportStep>, i: int, k: int)
    requires
        0 <= i <= k < steps.len(),
        !running_after(init, steps.take(i)),
        forall|m: int| i <= m < k ==> !(#[trigger] steps[m] matches TransportStep::Notify(d) && d is Started),
    ensures
        !issues_fetch_at(init, steps, k),
{
    let mid = running_after(init, steps.take(i));
    let window = steps.subrange(i, k);
    assert forall|m: int| 0 <= m < window.len() implies !(#[trigger] window[m] matches TransportStep::Notify(d)
        && d is Started) by {
        assert(window[m] == steps[m + i]);
    }
    lemma_stopped_persists(mid, window);
    lemma_running_after_split(init, steps, i, k);
}

/// The length the fetch buffer must have before the next fetch: grown to the
/// bin count the receiver reports, never shrunk.
pub fn required_fft_len(current: usize, bin_count: usize) -> (r: usize)
    ensures
        r >= current,
        r >= bin_count,
        r == (if bin_count > current { bin_count } else { current }),
{
    if bin_count > current {
        bin_count
    } else {
        current
    }
}

/// Grow a frame's sample buffer for a fetch of `fft_size` bins, never
/// shrinking it; what the buffer already held is kept and new samples read
/// as zero until the fetch overwrites them.
pub fn grow_for_fetch(frame: &mut FftFrame, fft_size: usize)
    ensures
        final(frame).data@.len() == (if fft_size > old(frame).data@.len() {
            fft_size as int
        } else {
            old(frame).data@.len() as int
        }),
        final(frame).data@.subrange(0, old(frame).data@.len() as int) == old(frame).data@,
        final(frame).timestamp == old(frame).timestamp,
        final(frame).freq == old(frame).freq,
        final(frame).sample_rate == old(frame).sample_rate,
{
    if fft_size > frame.data.len() {
        frame.data.resize(fft_size, 0);
    }
    proof {
        assert(frame.data@.subrange(0, old(frame).data@.len() as int) =~= old(frame).data@);
    }
}

/// The fetch period, in milliseconds, for a configured display refresh rate
/// in frames per second.
pub fn fetch_period_ms(refresh_rate: u32) -> (r: u32)
    requires
        refresh_rate >= 1,
    ensures
        r == 1000u32 / refresh_rate,
{
    1000 / refresh_rate
}

} // verus!
