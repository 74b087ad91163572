use violetrx::error::{error_from_code, VioletError};
use violetrx::receiver::{window_code, window_from_code, WindowType};
use violetrx::vfo::{demod_from_code, Demod};

#[test]
fn error_codes_decode_to_named_statuses() {
    assert_eq!(error_from_code(0), VioletError::Success);
    assert_eq!(error_from_code(1), VioletError::WorkerBusy);
    assert_eq!(error_from_code(2), VioletError::GainNotFound);
    assert_eq!(error_from_code(3), VioletError::AlreadyRecording);
    assert_eq!(error_from_code(4), VioletError::AlreadyNotRecording);
    assert_eq!(error_from_code(5), VioletError::InvalidInputDevice);
    assert_eq!(error_from_code(6), VioletError::InvalidFilter);
    assert_eq!(error_from_code(7), VioletError::InvalidFilterOffset);
    assert_eq!(error_from_code(8), VioletError::InvalidCwOffset);
    assert_eq!(error_from_code(9), VioletError::InvalidDemod);
    assert_eq!(error_from_code(10), VioletError::VfoNotFound);
    assert_eq!(error_from_code(11), VioletError::DemodIsOff);
    assert_eq!(error_from_code(12), VioletError::NotRunning);
    assert_eq!(error_from_code(13), VioletError::CouldntCreateFile);
    assert_eq!(error_from_code(14), VioletError::SnifferAlreadyActive);
    assert_eq!(error_from_code(15), VioletError::SnifferAlreadyInactive);
    assert_eq!(error_from_code(16), VioletError::InsufficientBufferSize);
    assert_eq!(error_from_code(17), VioletError::RdsAlreadyActive);
    assert_eq!(error_from_code(18), VioletError::RdsAlreadyInactive);
}

#[test]
fn unrecognized_error_codes_fall_back_to_unknown() {
    assert_eq!(error_from_code(19), VioletError::UnknownError);
    assert_eq!(error_from_code(99999), VioletError::UnknownError);
    assert_eq!(error_from_code(-1), VioletError::UnknownError);
    assert_eq!(error_from_code(i32::MAX), VioletError::UnknownError);
    assert_eq!(error_from_code(i32::MIN), VioletError::UnknownError);
}

#[test]
fn window_codes_round_trip() {
    let windows = [
        WindowType::Hamming,
        WindowType::Hann,
        WindowType::Blackman,
        WindowType::Rectangular,
        WindowType::Kaiser,
        WindowType::BlackmanHarris,
        WindowType::Bartlett,
        WindowType::FlatTop,
        WindowType::Nuttall,
        WindowType::NuttallCFD,
        WindowType::Welch,
        WindowType::Parzen,
        WindowType::Exponential,
        WindowType::Riemann,
        WindowType::Gaussian,
        WindowType::Tukey,
    ];
    for (i, w) in windows.iter().enumerate() {
        assert_eq!(window_code(*w), i as i32);
        assert_eq!(window_from_code(i as i32), Some(*w));
    }
    assert_eq!(window_from_code(16), None);
    assert_eq!(window_from_code(-1), None);
}

#[test]
fn demod_codes_decode() {
    assert_eq!(demod_from_code(0), Some(Demod::Off));
    assert_eq!(demod_from_code(5), Some(Demod::Usb));
    assert_eq!(demod_from_code(11), Some(Demod::WfmStereoOirt));
    assert_eq!(demod_from_code(12), None);
    assert_eq!(demod_from_code(-3), None);
}
