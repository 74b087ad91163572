//! Decoding of native events from their wire form.
//!
//! The native event source hands every event over as a tagged record: a kind
//! tag, a source identifier, a timestamp, and a kind-dependent payload.  The
//! unverified boundary reads the raw record and reduces it to a `WirePayload`
//! of plain values; `decode_event` — the single place that knows the tag
//! table — turns the pair of tag and payload into a typed `ReceiverEvent`,
//! with `Unknown` as the fallback for every tag this client does not decode
//! (the VFO-scoped and IQ-recording kinds) and for a payload whose shape does
//! not match its tag.

use vstd::prelude::*;

use crate::common::Timestamp;
use crate::receiver::{GainStage, ReceiverEvent, ReceiverEventData, window_for_code, window_from_code};

verus! {

pub const TAG_UNSUBSCRIBED: u32 = 0;
pub const TAG_SYNC_START: u32 = 1;
pub const TAG_SYNC_END: u32 = 2;
pub const TAG_STARTED: u32 = 3;
pub const TAG_STOPPED: u32 = 4;
pub const TAG_INPUT_DEVICE_CHANGED: u32 = 5;
pub const TAG_ANTENNA_CHANGED: u32 = 6;
pub const TAG_INPUT_RATE_CHANGED: u32 = 7;
pub const TAG_INPUT_DECIM_CHANGED: u32 = 8;
pub const TAG_IQ_SWAP_CHANGED: u32 = 9;
pub const TAG_DC_CANCEL_CHANGED: u32 = 10;
pub const TAG_IQ_BALANCE_CHANGED: u32 = 11;
pub const TAG_RF_FREQ_CHANGED: u32 = 12;
pub const TAG_GAIN_STAGES_CHANGED: u32 = 13;
pub const TAG_ANTENNAS_CHANGED: u32 = 14;
pub const TAG_AUTO_GAIN_CHANGED: u32 = 15;
pub const TAG_GAIN_CHANGED: u32 = 16;
pub const TAG_FREQ_CORR_CHANGED: u32 = 17;
pub const TAG_FFT_SIZE_CHANGED: u32 = 18;
pub const TAG_FFT_WINDOW_CHANGED: u32 = 19;

/// A native event payload reduced to plain values.
///
/// Payloads that the native side reports as binary floating-point values are
/// carried as the 64-bit patterns of their encoding, uninterpreted.
#[derive(Clone, Debug, PartialEq, Eq)]
pub enum WirePayload {
    Empty,
    Text(String),
    TextList(Vec<String>),
    Int(i32),
    Int64(i64),
    Flag(bool),
    DoubleBits(u64),
    NamedDouble(String, u64),
    Stages(Vec<GainStage>),
}

/// The event data a tag and payload decode to.
///
/// Tags 0 through 4 carry no payload.  Tags 5 through 19 each demand one
/// payload shape; any other shape decodes to `Unknown`, as does a window code
/// outside the named windows and every tag past 19 (the VFO-scoped and
/// IQ-recording kinds, deliberately left undecoded).
pub open spec fn decoded_data(tag: u32, payload: WirePayload) -> ReceiverEventData {
    if tag == TAG_UNSUBSCRIBED {
        ReceiverEventData::Unsubscribed
    } else if tag == TAG_SYNC_START {
        ReceiverEventData::SyncStart
    } else if tag == TAG_SYNC_END {
        ReceiverEventData::SyncEnd
    } else if tag == TAG_STARTED {
        ReceiverEventData::Started
    } else if tag == TAG_STOPPED {
        ReceiverEventData::Stopped
    } else if tag == TAG_INPUT_DEVICE_CHANGED {
        match payload {
            WirePayload::Text(device) => ReceiverEventData::InputDeviceChanged(device),
            _ => ReceiverEventData::Unknown,
        }
    } else if tag == TAG_ANTENNA_CHANGED {
        match payload {
            WirePayload::Text(antenna) => ReceiverEventData::AntennaChanged(antenna),
            _ => ReceiverEventData::Unknown,
        }
    } else if tag == TAG_INPUT_RATE_CHANGED {
        match payload {
            WirePayload::Int(rate) => ReceiverEventData::InputRateChanged(rate),
            _ => ReceiverEventData::Unknown,
        }
    } else if tag == TAG_INPUT_DECIM_CHANGED {
        match payload {
            WirePayload::Int(decim) => ReceiverEventData::InputDecimChanged(decim),
            _ => ReceiverEventData::Unknown,
        }
    } else if tag == TAG_IQ_SWAP_CHANGED {
        match payload {
            WirePayload::Flag(enabled) => ReceiverEventData::IqSwapChanged(enabled),
            _ => ReceiverEventData::Unknown,
        }
    } else if tag == TAG_DC_CANCEL_CHANGED {
        match payload {
            WirePayload::Flag(enabled) => ReceiverEventData::DcCancelChanged(enabled),
            _ => ReceiverEventData::Unknown,
        }
    } else if tag == TAG_IQ_BALANCE_CHANGED {
        match payload {
            WirePayload::Flag(enabled) => ReceiverEventData::IqBalanceChanged(enabled),
            _ => ReceiverEventData::Unknown,
        }
    } else if tag == TAG_RF_FREQ_CHANGED {
        match payload {
            WirePayload::Int64(freq) => ReceiverEventData::RfFreqChanged(freq),
            _ => ReceiverEventData::Unknown,
        }
    } else if tag == TAG_GAIN_STAGES_CHANGED {
        match payload {
            WirePayload::Stages(stages) => ReceiverEventData::GainStagesChanged(stages),
            _ => ReceiverEventData::Unknown,
        }
    } else if tag == TAG_ANTENNAS_CHANGED {
        match payload {
            WirePayload::TextList(antennas) => ReceiverEventData::AntennasChanged(antennas),
            _ => ReceiverEventData::Unknown,
        }
    } else if tag == TAG_AUTO_GAIN_CHANGED {
        match payload {
            WirePayload::Flag(enabled) => ReceiverEventData::AutoGainChanged(enabled),
            _ => ReceiverEventData::Unknown,
        }
    } else if tag == TAG_GAIN_CHANGED {
        match payload {
            WirePayload::NamedDouble(name, value) => ReceiverEventData::GainChanged(name, value),
            _ => ReceiverEventData::Unknown,
        }
    } else if tag == TAG_FREQ_CORR_CHANGED {
        match payload {
            WirePayload::DoubleBits(ppm) => ReceiverEventData::FreqCorrChanged(ppm),
            _ => ReceiverEventData::Unknown,
        }
    } else if tag == TAG_FFT_SIZE_CHANGED {
        match payload {
            WirePayload::Int(size) => ReceiverEventData::FftSizeChanged(size),
            _ => ReceiverEventData::Unknown,
        }
    } else if tag == TAG_FFT_WINDOW_CHANGED {
        match payload {
            WirePayload::Int(code) => match window_for_code(code) {
                Some(w) => ReceiverEventData::FftWindowChanged(w),
                None => ReceiverEventData::Unknown,
            },
            _ => ReceiverEventData::Unknown,
        }
    } else {
        ReceiverEventData::Unknown
    }
}

/// Decode one native event from its wire form.
pub fn decode_event(tag: u32, id: i64, timestamp: Timestamp, payload: WirePayload) -> (ev: ReceiverEvent)
    ensures
        ev.id == id,
        ev.timestamp == timestamp,
        ev.data == decoded_data(tag, payload),
{
    let data = match tag {
        TAG_UNSUBSCRIBED => ReceiverEventData::Unsubscribed,
        TAG_SYNC_START => ReceiverEventData::SyncStart,
        TAG_SYNC_END => ReceiverEventData::SyncEnd,
        TAG_STARTED => ReceiverEventData::Started,
        TAG_STOPPED => ReceiverEventData::Stopped,
        TAG_INPUT_DEVICE_CHANGED => match payload {
            WirePayload::Text(device) => ReceiverEventData::InputDeviceChanged(device),
            _ => ReceiverEventData::Unknown,
        },
        TAG_ANTENNA_CHANGED => match payload {
            WirePayload::Text(antenna) => ReceiverEventData::AntennaChanged(antenna),
            _ => ReceiverEventData::Unknown,
        },
        TAG_INPUT_RATE_CHANGED => match payload {
            WirePayload::Int(rate) => ReceiverEventData::InputRateChanged(rate),
            _ => ReceiverEventData::Unknown,
        },
        TAG_INPUT_DECIM_CHANGED => match payload {
            WirePayload::Int(decim) => ReceiverEventData::InputDecimChanged(decim),
            _ => ReceiverEventData::Unknown,
        },
        TAG_IQ_SWAP_CHANGED => match payload {
            WirePayload::Flag(enabled) => ReceiverEventData::IqSwapChanged(enabled),
            _ => ReceiverEventData::Unknown,
        },
        TAG_DC_CANCEL_CHANGED => match payload {
            WirePayload::Flag(enabled) => ReceiverEventData::DcCancelChanged(enabled),
            _ => ReceiverEventData::Unknown,
        },
        TAG_IQ_BALANCE_CHANGED => match payload {
            WirePayload::Flag(enabled) => ReceiverEventData::IqBalanceChanged(enabled),
            _ => ReceiverEventData::Unknown,
        },
        TAG_RF_FREQ_CHANGED => match payload {
            WirePayload::Int64(freq) => ReceiverEventData::RfFreqChanged(freq),
            _ => ReceiverEventData::Unknown,
        },
        TAG_GAIN_STAGES_CHANGED => match payload {
            WirePayload::Stages(stages) => ReceiverEventData::GainStagesChanged(stages),
            _ => ReceiverEventData::Unknown,
        },
        TAG_ANTENNAS_CHANGED => match payload {
            WirePayload::TextList(antennas) => ReceiverEventData::AntennasChanged(antennas),
            _ => ReceiverEventData::Unknown,
        },
        TAG_AUTO_GAIN_CHANGED => match payload {
            WirePayload::Flag(enabled) => ReceiverEventData::AutoGainChanged(enabled),
            _ => ReceiverEventData::Unknown,
        },
        TAG_GAIN_CHANGED => match payload {
            WirePayload::NamedDouble(name, value) => ReceiverEventData::GainChanged(name, value),
            _ => ReceiverEventData::Unknown,
        },
        TAG_FREQ_CORR_CHANGED => match payload {
            WirePayload::DoubleBits(ppm) => ReceiverEventData::FreqCorrChanged(ppm),
            _ => ReceiverEventData::Unknown,
        },
        TAG_FFT_SIZE_CHANGED => match payload {
            WirePayload::Int(size) => ReceiverEventData::FftSizeChanged(size),
            _ => ReceiverEventData::Unknown,
        },
        TAG_FFT_WINDOW_CHANGED => match payload {
            WirePayload::Int(code) => match window_from_code(code) {
                Some(w) => ReceiverEventData::FftWindowChanged(w),
                None => ReceiverEventData::Unknown,
            },
            _ => ReceiverEventData::Unknown,
        },
        _ => ReceiverEventData::Unknown,
    };
    ReceiverEvent { id, timestamp, data }
}

} // verus!
