use violetrx::common::{FftFrame, Timestamp};
use violetrx::receiver::ReceiverEventData;
use violetrx::transport::{
    fetch_period_ms, grow_for_fetch, required_fft_len, FrameExchange, FrameTransport,
};

fn frame(tag: u32) -> FftFrame {
    FftFrame {
        data: vec![tag],
        timestamp: Timestamp { seconds: tag as u64, nanos: 0 },
        freq: 0,
        sample_rate: 0,
    }
}

#[test]
fn fetches_run_between_started_and_stopped_only() {
    // Simulated window: ticks before the start, while started, and after the
    // stop; the fetch count must match exactly the started ticks.
    let mut t = FrameTransport::new();
    assert!(!t.on_tick());
    assert!(!t.on_tick());
    t.on_event(&ReceiverEventData::Started);
    assert!(t.on_tick());
    assert!(t.on_tick());
    assert!(t.on_tick());
    t.on_event(&ReceiverEventData::Stopped);
    assert!(!t.on_tick());
    assert!(!t.on_tick());
    assert_eq!(t.fetches, 3);
}

#[test]
fn unrelated_events_do_not_disturb_the_fetch_loop() {
    let mut t = FrameTransport::new();
    t.on_event(&ReceiverEventData::Started);
    t.on_event(&ReceiverEventData::RfFreqChanged(7_000_000));
    assert!(t.on_tick());
    t.on_event(&ReceiverEventData::InputRateChanged(250_000));
    assert!(t.on_tick());
    assert_eq!(t.fetches, 2);
}

#[test]
fn exchange_moves_frames_both_ways() {
    let mut x = FrameExchange::new(frame(0));
    // producer publishes a fresh frame and gets the old buffer back
    let reclaimed = x.publish(frame(1));
    assert_eq!(reclaimed.data, vec![0]);
    // consumer takes the fresh frame, leaving its scratch buffer
    let (got, fresh) = x.take(frame(2));
    assert!(fresh);
    assert_eq!(got.data, vec![1]);
    // nothing new since: the consumer gets its own old buffer back, stale
    let (stale, fresh2) = x.take(frame(3));
    assert!(!fresh2);
    assert_eq!(stale.data, vec![2]);
}

#[test]
fn newer_frames_overwrite_unread_ones() {
    let mut x = FrameExchange::new(frame(0));
    let _ = x.publish(frame(1));
    let _ = x.publish(frame(2));
    let (got, fresh) = x.take(frame(9));
    assert!(fresh);
    assert_eq!(got.data, vec![2]);
}

#[test]
fn fetch_buffers_grow_and_never_shrink() {
    assert_eq!(required_fft_len(0, 4096), 4096);
    assert_eq!(required_fft_len(4096, 1024), 4096);
    assert_eq!(required_fft_len(4096, 8192), 8192);

    let mut f = frame(7);
    grow_for_fetch(&mut f, 4);
    assert_eq!(f.data, vec![7, 0, 0, 0]);
    grow_for_fetch(&mut f, 2);
    assert_eq!(f.data, vec![7, 0, 0, 0]);
}

#[test]
fn fetch_period_follows_the_refresh_rate() {
    assert_eq!(fetch_period_ms(30), 33);
    assert_eq!(fetch_period_ms(60), 16);
    assert_eq!(fetch_period_ms(1), 1000);
}

#[test]
fn frame_metadata_is_recorded_after_a_fetch() {
    let mut f = FftFrame::default();
    f.data = vec![1, 2, 3];
    f.set_metadata(Timestamp { seconds: 10, nanos: 20 }, 100_000_000, 2_048_000);
    assert_eq!(f.data, vec![1, 2, 3]);
    assert_eq!(f.timestamp, Timestamp { seconds: 10, nanos: 20 });
    assert_eq!(f.freq, 100_000_000);
    assert_eq!(f.sample_rate, 2_048_000);
}
