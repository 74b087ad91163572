//! Shared frame and time types.

use vstd::prelude::*;

verus! {

/// A capture time: seconds and nanoseconds since an epoch chosen by the
/// native receiver.
#[derive(Clone, Copy, Debug, PartialEq, Eq, Structural)]
pub struct Timestamp {
    pub seconds: u64,
    pub nanos: u32,
}

impl Default for Timestamp {
    fn default() -> (t: Self)
        ensures
            t.seconds == 0,
            t.nanos == 0,
    {
        Timestamp { seconds: 0, nanos: 0 }
    }
}

/// One snapshot of spectral magnitude samples plus its metadata.
///
/// Each entry of `data` carries one bin's power sample exactly as the native
/// side wrote it, as the 32-bit pattern of its binary floating-point
/// encoding.  This crate never interprets the patterns numerically: frames
/// are moved, swapped and resized here, and the presentation side decodes the
/// samples when it converts them to decibel magnitudes.  `freq` is the center
/// frequency in Hz and `sample_rate` the input rate in Hz; together they
/// define the frequency support of the bin sequence.
#[derive(Clone, Debug, PartialEq, Eq)]
pub struct FftFrame {
    pub data: Vec<u32>,
    pub timestamp: Timestamp,
    pub freq: i64,
    pub sample_rate: i32,
}

impl Default for FftFrame {
    fn default() -> (f: Self)
        ensures
            f.data@ == Seq::<u32>::empty(),
            f.timestamp.seconds == 0,
            f.timestamp.nanos == 0,
            f.freq == 0,
            f.sample_rate == 0,
    {
        FftFrame { data: Vec::new(), timestamp: Timestamp { seconds: 0, nanos: 0 }, freq: 0, sample_rate: 0 }
    }
}

impl FftFrame {
    /// Record the metadata a completed fetch reported for the samples now in
    /// `data`.
    pub fn set_metadata(&mut self, timestamp: Timestamp, freq: i64, sample_rate: i32)
        ensures
            final(self).data@ == old(self).data@,
            final(self).timestamp == timestamp,
            final(self).freq == freq,
            final(self).sample_rate == sample_rate,
    {
        self.timestamp = timestamp;
        self.freq = freq;
        self.sample_rate = sample_rate;
    }
}

} // verus!
