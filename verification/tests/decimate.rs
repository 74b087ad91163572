use violetrx::fftaverager::{DecimatedFftFrame, FftAverager, MagnitudeFrame, Viewport, COEFF_ONE};

/// An averager whose running state holds exactly `bins` under the given
/// support (one full-strength update from a reset state).
fn averager_with(bins: Vec<i64>, freq: i64, sample_rate: i32) -> FftAverager {
    let mut a = FftAverager::new(COEFF_ONE);
    a.step(&MagnitudeFrame { bins, freq, sample_rate });
    a
}

/// The viewport spanning exactly the frame's frequency support.
fn spanning_viewport(freq: i64, sample_rate: i32, width_px: u32) -> Viewport {
    let fb = freq - (sample_rate / 2) as i64;
    Viewport { left: fb, right: fb + sample_rate as i64, width_px }
}

#[test]
fn wide_viewport_yields_one_point_per_bin() {
    // M bins into W >= M columns: exactly M points, each its own bin
    let bins: Vec<i64> = vec![-70_000, -50_000, -90_000, -60_000];
    let a = averager_with(bins.clone(), 100_000_000, 2_048_000);
    let vp = spanning_viewport(100_000_000, 2_048_000, 640);
    let r = a.decimate(&vp);
    assert_eq!(r.data, bins);
}

#[test]
fn narrow_viewport_keeps_the_column_maxima() {
    // eight bins into four columns: two bins per column, the larger survives
    let bins: Vec<i64> = vec![-70_000, -50_000, -90_000, -60_000, -40_000, -80_000, -30_000, -20_000];
    let a = averager_with(bins, 100_000_000, 2_048_000);
    let vp = spanning_viewport(100_000_000, 2_048_000, 4);
    let r = a.decimate(&vp);
    assert_eq!(r.data, vec![-50_000, -60_000, -40_000, -20_000]);
}

#[test]
fn narrow_viewport_never_yields_more_points_than_columns() {
    let bins: Vec<i64> = (0..1000).map(|i| -(i as i64) * 10).collect();
    let a = averager_with(bins, 100_000_000, 2_048_000);
    let vp = spanning_viewport(100_000_000, 2_048_000, 7);
    let r = a.decimate(&vp);
    // the right edge rounds outward onto the bin at the edge, which may
    // occupy one extra column beyond the viewport's own
    assert!(r.data.len() <= 8);
    assert!(r.data.len() >= 7);
}

#[test]
fn empty_running_state_decimates_to_nothing() {
    let a = FftAverager::new(COEFF_ONE);
    let vp = Viewport { left: 0, right: 1_000_000, width_px: 640 };
    let r: DecimatedFftFrame = a.decimate(&vp);
    assert!(r.data.is_empty());
    assert_eq!(r.left, 0);
    assert_eq!(r.right, 0);
}

#[test]
fn decimated_bounds_are_the_considered_bin_frequencies() {
    let bins: Vec<i64> = vec![0; 8];
    let a = averager_with(bins, 100_000_000, 2_048_000);
    let vp = spanning_viewport(100_000_000, 2_048_000, 640);
    let r = a.decimate(&vp);
    let fb = 100_000_000 - 1_024_000;
    // first bin considered is bin zero, last is the final bin
    assert_eq!(r.left, fb);
    assert_eq!(r.right, fb + 7 * 2_048_000 / 8);
}

#[test]
fn off_screen_bins_are_clamped_out() {
    // viewport covering only the upper half of the span
    let bins: Vec<i64> = vec![-10, -20, -30, -40];
    let a = averager_with(bins, 1_000_000, 800);
    let fb = 1_000_000 - 400;
    let vp = Viewport { left: fb + 400, right: fb + 800, width_px: 640 };
    let r = a.decimate(&vp);
    // bins 2 and 3 are in view; the begin index rounds down onto bin 2
    assert_eq!(r.left, fb + 2 * 200);
    assert_eq!(r.right, fb + 3 * 200);
    assert_eq!(r.data, vec![-30, -40]);
}

#[test]
fn large_frames_decimate_within_the_column_budget() {
    let n = 1 << 20;
    let bins: Vec<i64> = (0..n).map(|i| -100_000 + (i as i64 % 977)).collect();
    let a = averager_with(bins, 100_000_000, 2_048_000);
    let vp = spanning_viewport(100_000_000, 2_048_000, 640);
    let r = a.decimate(&vp);
    assert!(r.data.len() <= 641);
    assert!(r.data.len() >= 640);
}

#[test]
fn decimation_is_recomputed_not_persisted() {
    let bins: Vec<i64> = vec![-10_000, -20_000, -30_000];
    let a = averager_with(bins.clone(), 100_000_000, 2_048_000);
    let vp = spanning_viewport(100_000_000, 2_048_000, 300);
    let first = a.decimate(&vp);
    let second = a.decimate(&vp);
    assert_eq!(first.data, second.data);
    assert_eq!(first.data, bins);
    assert_eq!((first.left, first.right), (second.left, second.right));
}
