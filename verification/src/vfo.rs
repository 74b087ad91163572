//! VFO-scoped types.
//!
//! The native event source also raises VFO-scoped events; this client leaves
//! their payloads undecoded (they reach consumers as `Unknown` receiver
//! events), so `VfoEventData` has no decoded variants yet.

use vstd::prelude::*;

use crate::common::Timestamp;

verus! {

/// A demodulator, by name.
#[derive(Clone, Copy, Debug, PartialEq, Eq, Structural)]
pub enum Demod {
    Off,
    Raw,
    Am,
    AmSync,
    Lsb,
    Usb,
    Cwl,
    Cwu,
    Nfm,
    WfmMono,
    WfmStereo,
    WfmStereoOirt,
}

/// The demodulator named by a native demodulator code: codes 0 through 11 are
/// the named demodulators in wire order; every other code is unrecognized.
pub open spec fn demod_for_code(code: i32) -> Option<Demod> {
    if code == 0 {
        Some(Demod::Off)
    } else if code == 1 {
        Some(Demod::Raw)
    } else if code == 2 {
        Some(Demod::Am)
    } else if code == 3 {
        Some(Demod::AmSync)
    } else if code == 4 {
        Some(Demod::Lsb)
    } else if code == 5 {
        Some(Demod::Usb)
    } else if code == 6 {
        Some(Demod::Cwl)
    } else if code == 7 {
        Some(Demod::Cwu)
    } else if code == 8 {
        Some(Demod::Nfm)
    } else if code == 9 {
        Some(Demod::WfmMono)
    } else if code == 10 {
        Some(Demod::WfmStereo)
    } else if code == 11 {
        Some(Demod::WfmStereoOirt)
    } else {
        None
    }
}

/// Decode a native demodulator code.
pub fn demod_from_code(code: i32) -> (d: Option<Demod>)
    ensures
        d == demod_for_code(code),
{
    match code {
        0 => Some(Demod::Off),
        1 => Some(Demod::Raw),
        2 => Some(Demod::Am),
        3 => Some(Demod::AmSync),
        4 => Some(Demod::Lsb),
        5 => Some(Demod::Usb),
        6 => Some(Demod::Cwl),
        7 => Some(Demod::Cwu),
        8 => Some(Demod::Nfm),
        9 => Some(Demod::WfmMono),
        10 => Some(Demod::WfmStereo),
        11 => Some(Demod::WfmStereoOirt),
        _ => None,
    }
}

/// Payload of a decoded VFO-scoped event; no kinds are decoded yet.
#[derive(Clone, Copy, Debug, PartialEq, Eq, Structural)]
pub enum VfoEventData {
    Undecoded,
}

/// One VFO-scoped event: a source identifier, the time the native side raised
/// it, and the payload.
#[derive(Clone, Copy, Debug, PartialEq, Eq, Structural)]
pub struct VfoEvent {
    pub id: i64,
    pub timestamp: Timestamp,
    pub data: VfoEventData,
}

} // verus!
