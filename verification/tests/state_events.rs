use violetrx::common::Timestamp;
use violetrx::receiver::{ReceiverEvent, ReceiverEventData};
use violetrx::state::{Event, ReceiverState};

fn ev(data: ReceiverEventData) -> ReceiverEvent {
    ReceiverEvent { id: 1, timestamp: Timestamp { seconds: 0, nanos: 0 }, data }
}

#[test]
fn receiver_events_update_the_state() {
    let mut s = ReceiverState::default();
    assert!(!s.is_playing);

    s.apply_event(&ReceiverEventData::Started);
    assert!(s.is_playing);

    s.apply_event(&ReceiverEventData::RfFreqChanged(144_800_000));
    assert_eq!(s.center_freq, 144_800_000);

    s.apply_event(&ReceiverEventData::InputRateChanged(2_400_000));
    assert_eq!(s.input_rate, 2_400_000);

    s.apply_event(&ReceiverEventData::InputDecimChanged(4));
    assert_eq!(s.decim, 4);

    s.apply_event(&ReceiverEventData::Stopped);
    assert!(!s.is_playing);
    assert_eq!(s.center_freq, 144_800_000);
}

#[test]
fn unrelated_events_leave_the_state_alone() {
    let mut s = ReceiverState::default();
    s.apply_event(&ReceiverEventData::RfFreqChanged(7_000_000));
    let before = s;
    s.apply_event(&ReceiverEventData::AntennaChanged(String::from("RX A")));
    s.apply_event(&ReceiverEventData::IqSwapChanged(true));
    s.apply_event(&ReceiverEventData::Unknown);
    assert_eq!(s, before);
}

#[test]
fn loop_steps_dispatch_receiver_events_only() {
    let mut s = ReceiverState::default();
    s.step(&Event::ReceiverEvent(ev(ReceiverEventData::InputRateChanged(1_024_000))));
    assert_eq!(s.input_rate, 1_024_000);
    let before = s;
    s.step(&Event::NewFftFrame);
    assert_eq!(s, before);
}

#[test]
fn frequency_span_edges_follow_center_and_rate() {
    let mut s = ReceiverState::default();
    s.apply_event(&ReceiverEventData::RfFreqChanged(100_000_000));
    s.apply_event(&ReceiverEventData::InputRateChanged(2_048_000));
    assert_eq!(s.freq_from(), 100_000_000 - 1_024_000);
    assert_eq!(s.freq_to(), 100_000_000 + 1_024_000);
}
