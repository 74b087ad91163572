//! Error codes of the native receiver service.
//!
//! The native side reports every command outcome as a plain integer status
//! code; `error_from_code` maps a code to its named error, falling back to
//! `UnknownError` for codes this client does not recognize.

use vstd::prelude::*;

verus! {

/// A status code reported by the native receiver, by name.
///
/// `Success` is the designated success code; everything else is a domain
/// error.
/// `UnknownError` stands both for unrecognized native codes and for a
/// completion channel that was torn down before the native side responded.
#[derive(Clone, Copy, Debug, PartialEq, Eq, Structural)]
pub enum VioletError {
    Success,
    WorkerBusy,
    GainNotFound,
    AlreadyRecording,
    AlreadyNotRecording,
    InvalidInputDevice,
    InvalidFilter,
    InvalidFilterOffset,
    InvalidCwOffset,
    InvalidDemod,
    VfoNotFound,
    DemodIsOff,
    NotRunning,
    CouldntCreateFile,
    SnifferAlreadyActive,
    SnifferAlreadyInactive,
    InsufficientBufferSize,
    RdsAlreadyActive,
    RdsAlreadyInactive,
    UnknownError,
}

pub type VioletResult<T> = Result<T, VioletError>;

/// The error named by a native status code: codes 0 through 18 are the named
/// statuses in wire order, 99999 and every other code are `UnknownError`.
pub open spec fn error_for_code(code: i32) -> VioletError {
    if code == 0 {
        VioletError::Success
    } else if code == 1 {
        VioletError::WorkerBusy
    } else if code == 2 {
        VioletError::GainNotFound
    } else if code == 3 {
        VioletError::AlreadyRecording
    } else if code == 4 {
        VioletError::AlreadyNotRecording
    } else if code == 5 {
        VioletError::InvalidInputDevice
    } else if code == 6 {
        VioletError::InvalidFilter
    } else if code == 7 {
        VioletError::InvalidFilterOffset
    } else if code == 8 {
        VioletError::InvalidCwOffset
    } else if code == 9 {
        VioletError::InvalidDemod
    } else if code == 10 {
        VioletError::VfoNotFound
    } else if code == 11 {
        VioletError::DemodIsOff
    } else if code == 12 {
        VioletError::NotRunning
    } else if code == 13 {
        VioletError::CouldntCreateFile
    } else if code == 14 {
        VioletError::SnifferAlreadyActive
    } else if code == 15 {
        VioletError::SnifferAlreadyInactive
    } else if code == 16 {
        VioletError::InsufficientBufferSize
    } else if code == 17 {
        VioletError::RdsAlreadyActive
    } else if code == 18 {
        VioletError::RdsAlreadyInactive
    } else {
        VioletError::UnknownError
    }
}

/// Decode a native status code into its named error.
pub fn error_from_code(code: i32) -> (e: VioletError)
    ensures
        e == error_for_code(code),
{
    match code {
        0 => VioletError::Success,
        1 => VioletError::WorkerBusy,
        2 => VioletError::GainNotFound,
        3 => VioletError::AlreadyRecording,
        4 => VioletError::AlreadyNotRecording,
        5 => VioletError::InvalidInputDevice,
        6 => VioletError::InvalidFilter,
        7 => VioletError::InvalidFilterOffset,
        8 => VioletError::InvalidCwOffset,
        9 => VioletError::InvalidDemod,
        10 => VioletError::VfoNotFound,
        11 => VioletError::DemodIsOff,
        12 => VioletError::NotRunning,
        13 => VioletError::CouldntCreateFile,
        14 => VioletError::SnifferAlreadyActive,
        15 => VioletError::SnifferAlreadyInactive,
        16 => VioletError::InsufficientBufferSize,
        17 => VioletError::RdsAlreadyActive,
        18 => VioletError::RdsAlreadyInactive,
        _ => VioletError::UnknownError,
    }
}

} // verus!
