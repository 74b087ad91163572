//! Receiver-scoped state-change events and their payload types.

use vstd::prelude::*;

use crate::common::Timestamp;

verus! {

/// An FFT window function, by name.
#[derive(Clone, Copy, Debug, PartialEq, Eq, Structural)]
pub enum WindowType {
    Hamming,
    Hann,
    Blackman,
    Rectangular,
    Kaiser,
    BlackmanHarris,
    Bartlett,
    FlatTop,
    Nuttall,
    NuttallCFD,
    Welch,
    Parzen,
    Exponential,
    Riemann,
    Gaussian,
    Tukey,
}

/// The window named by a native window code: codes 0 through 15 are the named
/// windows in wire order; every other code is unrecognized.
pub open spec fn window_for_code(code: i32) -> Option<WindowType> {
    if code == 0 {
        Some(WindowType::Hamming)
    } else if code == 1 {
        Some(WindowType::Hann)
    } else if code == 2 {
        Some(WindowType::Blackman)
    } else if code == 3 {
        Some(WindowType::Rectangular)
    } else if code == 4 {
        Some(WindowType::Kaiser)
    } else if code == 5 {
        Some(WindowType::BlackmanHarris)
    } else if code == 6 {
        Some(WindowType::Bartlett)
    } else if code == 7 {
        Some(WindowType::FlatTop)
    } else if code == 8 {
        Some(WindowType::Nuttall)
    } else if code == 9 {
        Some(WindowType::NuttallCFD)
    } else if code == 10 {
        Some(WindowType::Welch)
    } else if code == 11 {
        Some(WindowType::Parzen)
    } else if code == 12 {
        Some(WindowType::Exponential)
    } else if code == 13 {
        Some(WindowType::Riemann)
    } else if code == 14 {
        Some(WindowType::Gaussian)
    } else if code == 15 {
        Some(WindowType::Tukey)
    } else {
        None
    }
}

/// The native wire code of a window.
pub open spec fn code_for_window(w: WindowType) -> i32 {
    match w {
        WindowType::Hamming => 0,
        WindowType::Hann => 1,
        WindowType::Blackman => 2,
        WindowType::Rectangular => 3,
        WindowType::Kaiser => 4,
        WindowType::BlackmanHarris => 5,
        WindowType::Bartlett => 6,
        WindowType::FlatTop => 7,
        WindowType::Nuttall => 8,
        WindowType::NuttallCFD => 9,
        WindowType::Welch => 10,
        WindowType::Parzen => 11,
        WindowType::Exponential => 12,
        WindowType::Riemann => 13,
        WindowType::Gaussian => 14,
        WindowType::Tukey => 15,
    }
}

/// Decode a native window code.
pub fn window_from_code(code: i32) -> (w: Option<WindowType>)
    ensures
        w == window_for_code(code),
{
    match code {
        0 => Some(WindowType::Hamming),
        1 => Some(WindowType::Hann),
        2 => Some(WindowType::Blackman),
        3 => Some(WindowType::Rectangular),
        4 => Some(WindowType::Kaiser),
        5 => Some(WindowType::BlackmanHarris),
        6 => Some(WindowType::Bartlett),
        7 => Some(WindowType::FlatTop),
        8 => Some(WindowType::Nuttall),
        9 => Some(WindowType::NuttallCFD),
        10 => Some(WindowType::Welch),
        11 => Some(WindowType::Parzen),
        12 => Some(WindowType::Exponential),
        13 => Some(WindowType::Riemann),
        14 => Some(WindowType::Gaussian),
        15 => Some(WindowType::Tukey),
        _ => None,
    }
}

/// Encode a window as its native wire code.
pub fn window_code(w: WindowType) -> (code: i32)
    ensures
        code == code_for_window(w),
{
    match w {
        WindowType::Hamming => 0,
        WindowType::Hann => 1,
        WindowType::Blackman => 2,
        WindowType::Rectangular => 3,
        WindowType::Kaiser => 4,
        WindowType::BlackmanHarris => 5,
        WindowType::Bartlett => 6,
        WindowType::FlatTop => 7,
        WindowType::Nuttall => 8,
        WindowType::NuttallCFD => 9,
        WindowType::Welch => 10,
        WindowType::Parzen => 11,
        WindowType::Exponential => 12,
        WindowType::Riemann => 13,
        WindowType::Gaussian => 14,
        WindowType::Tukey => 15,
    }
}

/// Encoding a window and decoding the code gives the window back.
///
/// With `window_from_code` and `window_code` proved against the two spec
/// tables, this pins the tables as mutual inverses on the named windows.
pub proof fn lemma_window_code_round_trip(w: WindowType)
    ensures
        window_for_code(code_for_window(w)) == Some(w),
{
}

/// One adjustable gain stage of the receiver, as reported by the native side.
///
/// `start`, `stop`, `step` and `value` carry the stage's bounds and current
/// setting exactly as the native side reported them, as the 64-bit patterns
/// of their binary floating-point encoding; this crate carries them through
/// without interpreting them numerically.
#[derive(Clone, Debug, PartialEq, Eq)]
pub struct GainStage {
    pub name: String,
    pub start: u64,
    pub stop: u64,
    pub step: u64,
    pub value: u64,
}

/// A state-change notification pushed by the receiver.
///
/// Numeric payloads that the native side reports as binary floating-point
/// values (`GainChanged`, `FreqCorrChanged`) are carried as the 64-bit
/// patterns of their encoding, uninterpreted.  `Unknown` stands for every
/// native event kind this client does not decode.
#[derive(Clone, Debug, PartialEq, Eq)]
pub enum ReceiverEventData {
    Unsubscribed,
    SyncStart,
    SyncEnd,
    Started,
    Stopped,
    InputDeviceChanged(String),
    AntennaChanged(String),
    InputRateChanged(i32),
    InputDecimChanged(i32),
    IqSwapChanged(bool),
    DcCancelChanged(bool),
    IqBalanceChanged(bool),
    RfFreqChanged(i64),
    GainStagesChanged(Vec<GainStage>),
    AntennasChanged(Vec<String>),
    AutoGainChanged(bool),
    GainChanged(String, u64),
    FreqCorrChanged(u64),
    FftSizeChanged(i32),
    FftWindowChanged(WindowType),
    Unknown,
}

/// One event of a subscription: a source identifier, the time the native side
/// raised it, and the decoded payload.
#[derive(Clone, Debug, PartialEq, Eq)]
pub struct ReceiverEvent {
    pub id: i64,
    pub timestamp: Timestamp,
    pub data: ReceiverEventData,
}

} // verus!
