use violetrx::common::Timestamp;
use violetrx::receiver::{GainStage, ReceiverEventData, WindowType};
use violetrx::wire::{
    decode_event, WirePayload, TAG_ANTENNAS_CHANGED, TAG_ANTENNA_CHANGED, TAG_AUTO_GAIN_CHANGED,
    TAG_DC_CANCEL_CHANGED, TAG_FFT_SIZE_CHANGED, TAG_FFT_WINDOW_CHANGED, TAG_FREQ_CORR_CHANGED,
    TAG_GAIN_CHANGED, TAG_GAIN_STAGES_CHANGED, TAG_INPUT_DECIM_CHANGED, TAG_INPUT_DEVICE_CHANGED,
    TAG_INPUT_RATE_CHANGED, TAG_IQ_BALANCE_CHANGED, TAG_IQ_SWAP_CHANGED, TAG_RF_FREQ_CHANGED,
    TAG_STARTED, TAG_STOPPED, TAG_SYNC_END, TAG_SYNC_START, TAG_UNSUBSCRIBED,
};

fn ts() -> Timestamp {
    Timestamp { seconds: 5, nanos: 6 }
}

fn data_of(tag: u32, payload: WirePayload) -> ReceiverEventData {
    decode_event(tag, 7, ts(), payload).data
}

#[test]
fn decoded_events_carry_id_and_timestamp() {
    let ev = decode_event(TAG_STARTED, 42, ts(), WirePayload::Empty);
    assert_eq!(ev.id, 42);
    assert_eq!(ev.timestamp, ts());
    assert_eq!(ev.data, ReceiverEventData::Started);
}

#[test]
fn payloadless_tags_decode_by_tag_alone() {
    assert_eq!(data_of(TAG_UNSUBSCRIBED, WirePayload::Empty), ReceiverEventData::Unsubscribed);
    assert_eq!(data_of(TAG_SYNC_START, WirePayload::Empty), ReceiverEventData::SyncStart);
    assert_eq!(data_of(TAG_SYNC_END, WirePayload::Empty), ReceiverEventData::SyncEnd);
    assert_eq!(data_of(TAG_STARTED, WirePayload::Empty), ReceiverEventData::Started);
    assert_eq!(data_of(TAG_STOPPED, WirePayload::Empty), ReceiverEventData::Stopped);
}

#[test]
fn payload_tags_decode_their_values() {
    assert_eq!(
        data_of(TAG_INPUT_DEVICE_CHANGED, WirePayload::Text(String::from("rtl=0"))),
        ReceiverEventData::InputDeviceChanged(String::from("rtl=0")),
    );
    assert_eq!(
        data_of(TAG_ANTENNA_CHANGED, WirePayload::Text(String::from("RX B"))),
        ReceiverEventData::AntennaChanged(String::from("RX B")),
    );
    assert_eq!(
        data_of(TAG_INPUT_RATE_CHANGED, WirePayload::Int(2_048_000)),
        ReceiverEventData::InputRateChanged(2_048_000),
    );
    assert_eq!(
        data_of(TAG_INPUT_DECIM_CHANGED, WirePayload::Int(8)),
        ReceiverEventData::InputDecimChanged(8),
    );
    assert_eq!(data_of(TAG_IQ_SWAP_CHANGED, WirePayload::Flag(true)), ReceiverEventData::IqSwapChanged(true));
    assert_eq!(
        data_of(TAG_DC_CANCEL_CHANGED, WirePayload::Flag(false)),
        ReceiverEventData::DcCancelChanged(false),
    );
    assert_eq!(
        data_of(TAG_IQ_BALANCE_CHANGED, WirePayload::Flag(true)),
        ReceiverEventData::IqBalanceChanged(true),
    );
    assert_eq!(
        data_of(TAG_RF_FREQ_CHANGED, WirePayload::Int64(433_920_000)),
        ReceiverEventData::RfFreqChanged(433_920_000),
    );
    assert_eq!(
        data_of(TAG_AUTO_GAIN_CHANGED, WirePayload::Flag(true)),
        ReceiverEventData::AutoGainChanged(true),
    );
    assert_eq!(
        data_of(TAG_FFT_SIZE_CHANGED, WirePayload::Int(8192)),
        ReceiverEventData::FftSizeChanged(8192),
    );
}

#[test]
fn gain_and_correction_values_ride_through_as_bit_patterns() {
    let gain = 12.5f64;
    assert_eq!(
        data_of(TAG_GAIN_CHANGED, WirePayload::NamedDouble(String::from("LNA"), gain.to_bits())),
        ReceiverEventData::GainChanged(String::from("LNA"), gain.to_bits()),
    );
    let ppm = -1.5f64;
    assert_eq!(
        data_of(TAG_FREQ_CORR_CHANGED, WirePayload::DoubleBits(ppm.to_bits())),
        ReceiverEventData::FreqCorrChanged(ppm.to_bits()),
    );
}

#[test]
fn antenna_and_gain_stage_lists_decode() {
    let antennas = vec![String::from("RX A"), String::from("RX B")];
    assert_eq!(
        data_of(TAG_ANTENNAS_CHANGED, WirePayload::TextList(antennas.clone())),
        ReceiverEventData::AntennasChanged(antennas),
    );
    let stage = GainStage {
        name: String::from("IF"),
        start: 0f64.to_bits(),
        stop: 40f64.to_bits(),
        step: 0.5f64.to_bits(),
        value: 20f64.to_bits(),
    };
    assert_eq!(
        data_of(TAG_GAIN_STAGES_CHANGED, WirePayload::Stages(vec![stage.clone()])),
        ReceiverEventData::GainStagesChanged(vec![stage]),
    );
}

#[test]
fn window_changes_decode_named_windows_only() {
    assert_eq!(
        data_of(TAG_FFT_WINDOW_CHANGED, WirePayload::Int(1)),
        ReceiverEventData::FftWindowChanged(WindowType::Hann),
    );
    assert_eq!(
        data_of(TAG_FFT_WINDOW_CHANGED, WirePayload::Int(15)),
        ReceiverEventData::FftWindowChanged(WindowType::Tukey),
    );
    assert_eq!(data_of(TAG_FFT_WINDOW_CHANGED, WirePayload::Int(99)), ReceiverEventData::Unknown);
}

#[test]
fn mismatched_payload_shapes_decode_to_unknown() {
    assert_eq!(data_of(TAG_INPUT_RATE_CHANGED, WirePayload::Flag(true)), ReceiverEventData::Unknown);
    assert_eq!(data_of(TAG_RF_FREQ_CHANGED, WirePayload::Int(1)), ReceiverEventData::Unknown);
    assert_eq!(data_of(TAG_GAIN_CHANGED, WirePayload::Empty), ReceiverEventData::Unknown);
}

#[test]
fn undecoded_native_kinds_fall_back_to_unknown() {
    // the IQ-recording and VFO-scoped kinds sit past the decoded tags
    for tag in 20u32..=54u32 {
        assert_eq!(data_of(tag, WirePayload::Empty), ReceiverEventData::Unknown);
    }
    assert_eq!(data_of(1000, WirePayload::Empty), ReceiverEventData::Unknown);
}
