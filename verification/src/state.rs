//! The presentation loop's view of the receiver, kept current from events.

use vstd::prelude::*;

use crate::receiver::{ReceiverEvent, ReceiverEventData};

verus! {

/// What the presentation loop knows of the receiver: whether it is started,
/// its input rate and decimation, and its center frequency.
#[derive(Clone, Copy, Debug, PartialEq, Eq, Structural)]
pub struct ReceiverState {
    pub is_playing: bool,
    pub input_rate: i32,
    pub decim: i32,
    pub center_freq: i64,
}

/// An event delivered to the presentation loop: a receiver state change, or
/// notice that a new spectrum frame arrived.
#[derive(Clone, Debug, PartialEq, Eq)]
pub enum Event {
    ReceiverEvent(ReceiverEvent),
    NewFftFrame,
}

/// The state after one receiver event: started/stopped toggle the playing
/// flag, the frequency, rate and decimation changes overwrite their fields,
/// and every other event leaves the state as it was.
pub open spec fn apply_event_spec(s: ReceiverState, data: ReceiverEventData) -> ReceiverState {
    match data {
        ReceiverEventData::Started => ReceiverState { is_playing: true, ..s },
        ReceiverEventData::Stopped => ReceiverState { is_playing: false, ..s },
        ReceiverEventData::RfFreqChanged(freq) => ReceiverState { center_freq: freq, ..s },
        ReceiverEventData::InputRateChanged(rate) => ReceiverState { input_rate: rate, ..s },
        ReceiverEventData::InputDecimChanged(decim) => ReceiverState { decim: decim, ..s },
        _ => s,
    }
}

impl Default for ReceiverState {
    fn default() -> (s: Self)
        ensures
            !s.is_playing,
            s.input_rate == 0,
            s.decim == 0,
            s.center_freq == 0,
    {
        ReceiverState { is_playing: false, input_rate: 0, decim: 0, center_freq: 0 }
    }
}

impl ReceiverState {
    /// Update the state from one receiver event.
    pub fn apply_event(&mut self, data: &ReceiverEventData)
        ensures
            *final(self) == apply_event_spec(*old(self), *data),
    {
        match data {
            ReceiverEventData::Started => {
                self.is_playing = true;
            },
            ReceiverEventData::Stopped => {
                self.is_playing = false;
            },
            ReceiverEventData::RfFreqChanged(freq) => {
                self.center_freq = *freq;
            },
            ReceiverEventData::InputRateChanged(rate) => {
                self.input_rate = *rate;
            },
            ReceiverEventData::InputDecimChanged(decim) => {
                self.decim = *decim;
            },
            _ => {},
        }
    }

    /// Process one queued presentation-loop event: receiver events update the
    /// state, a new-frame notice changes nothing here (the frame itself flows
    /// through the frame transport).
    pub fn step(&mut self, event: &Event)
        ensures
            *final(self) == (match event {
                Event::ReceiverEvent(ev) => apply_event_spec(*old(self), ev.data),
                Event::NewFftFrame => *old(self),
            }),
    {
        match event {
            Event::ReceiverEvent(ev) => {
                self.apply_event(&ev.data);
            },
            Event::NewFftFrame => {},
        }
    }

    /// The lower edge of the frequency span the current rate covers around
    /// the center frequency.
    pub fn freq_from(&self) -> (f: i64)
        requires
            self.input_rate >= 0,
            self.center_freq - self.input_rate / 2 >= i64::MIN,
        ensures
            f == self.center_freq - self.input_rate / 2,
    {
        self.center_freq - (self.input_rate as u64 / 2) as i64
    }

    /// The upper edge of the frequency span the current rate covers around
    /// the center frequency.
    pub fn freq_to(&self) -> (f: i64)
        requires
            self.input_rate >= 0,
            self.center_freq + self.input_rate / 2 <= i64::MAX,
        ensures
            f == self.center_freq + self.input_rate / 2,
    {
        self.center_freq + (self.input_rate as u64 / 2) as i64
    }
}

} // verus!
