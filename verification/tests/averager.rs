use violetrx::fftaverager::{FftAverager, MagnitudeFrame, COEFF_ONE};

fn frame(bins: Vec<i64>, freq: i64, sample_rate: i32) -> MagnitudeFrame {
    MagnitudeFrame { bins, freq, sample_rate }
}

/// The smoothing coefficient the display derives for a refresh rate and
/// averaging strength, as the fixed-point fraction of `COEFF_ONE`:
/// `rate^(-1.75 * (1 - alpha))` shaped by the fixed exponent `0.7`.
fn coeff_for(rate: f64, alpha: f64) -> u32 {
    let a = rate.powf(-1.75 * (1.0 - alpha)).powf(0.7);
    (a * COEFF_ONE as f64).round() as u32
}

/// Power `p` over `n` bins as milli-decibels: `10 * log10(p / n^2)`.
fn milli_db(p: f64, n: usize) -> i64 {
    (10.0 * (p / (n as f64 * n as f64)).log10() * 1000.0).round() as i64
}

#[test]
fn first_update_after_reset_is_the_scaled_input() {
    // rate 30, averaging strength one half: the derived coefficient is about
    // an eighth (30^(-0.6125) of the unit).
    let coeff = coeff_for(30.0, 0.5);
    assert!((coeff as f64 / COEFF_ONE as f64 - 0.12448).abs() < 0.001);

    let mut a = FftAverager::new(coeff);
    let v: i64 = COEFF_ONE as i64;
    a.step(&frame(vec![v], 7_000_000, 48_000));
    // running state was reset to zero, so the first update is exactly v * a
    assert_eq!(a.iir, vec![coeff as i64]);
}

#[test]
fn repeated_identical_input_approaches_the_input_monotonically() {
    let coeff = coeff_for(30.0, 0.5);
    let mut a = FftAverager::new(coeff);
    let v = milli_db(1.0, 4096);
    let f = frame(vec![v], 7_000_000, 48_000);
    a.step(&f);
    let mut prev = a.iir[0];
    assert!(v < 0 && prev < 0);
    for _ in 0..400 {
        a.step(&f);
        let cur = a.iir[0];
        // moves toward v, never past it
        assert!(cur <= prev || prev == cur);
        assert!(cur >= v);
        if prev == cur {
            break;
        }
        prev = cur;
    }
    // long-run value sits within a fixed-point rounding step of the input
    assert!((prev - v).abs() <= COEFF_ONE as i64 / coeff as i64 + 1);
}

#[test]
fn bin_count_change_resets_the_running_state_to_the_new_size() {
    let coeff = COEFF_ONE / 2;
    let mut a = FftAverager::new(coeff);
    a.step(&frame(vec![1000, 1000], 7_000_000, 48_000));
    a.step(&frame(vec![1000, 1000], 7_000_000, 48_000));
    assert_eq!(a.iir, vec![750, 750]);

    // a different bin count clears the running array to the new size filled
    // with zeros before the update is applied
    a.step(&frame(vec![1000, 1000, 1000], 7_000_000, 48_000));
    assert_eq!(a.iir, vec![500, 500, 500]);
}

#[test]
fn sample_rate_or_frequency_change_resets_the_running_state() {
    let coeff = COEFF_ONE / 2;
    let mut a = FftAverager::new(coeff);
    a.step(&frame(vec![1000], 7_000_000, 48_000));
    a.step(&frame(vec![1000], 7_000_000, 96_000));
    assert_eq!(a.iir, vec![500]);
    a.step(&frame(vec![1000], 7_100_000, 96_000));
    assert_eq!(a.iir, vec![500]);
}

#[test]
fn matching_frames_keep_the_history() {
    let coeff = COEFF_ONE / 2;
    let mut a = FftAverager::new(coeff);
    a.step(&frame(vec![1000], 7_000_000, 48_000));
    assert_eq!(a.iir, vec![500]);
    a.step(&frame(vec![0], 7_000_000, 48_000));
    assert_eq!(a.iir, vec![250]);
}

#[test]
fn reset_discards_the_history() {
    let mut a = FftAverager::new(COEFF_ONE);
    a.step(&frame(vec![100, 200], 7_000_000, 48_000));
    a.reset();
    assert!(a.iir.is_empty());
}

#[test]
fn coefficient_changes_keep_the_history() {
    let mut a = FftAverager::new(COEFF_ONE);
    a.step(&frame(vec![100], 7_000_000, 48_000));
    a.set_coeff(COEFF_ONE / 4);
    assert_eq!(a.iir, vec![100]);
    a.step(&frame(vec![200], 7_000_000, 48_000));
    assert_eq!(a.iir, vec![125]);
}
