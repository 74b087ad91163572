//! Spectral post-processing: recursive magnitude averaging and per-pixel
//! decimation.
//!
//! Bin magnitudes are handled here as integers in milli-decibels.  The
//! conversion of raw power samples to decibels, and the derivation of the
//! smoothing coefficient from the configured display rate and averaging
//! strength, are binary floating-point computations and live with the
//! unverified presentation boundary; everything downstream of them — the
//! reset-on-shape-change rule, the recursive update itself, and the
//! decimation of the running array to pixel columns — is verified here.

use vstd::prelude::*;

use vstd::arithmetic::div_mod::{
    lemma_basic_div, lemma_div_is_ordered, lemma_div_multiples_vanish,
    lemma_div_multiples_vanish_quotient, lemma_div_of0, lemma_hoist_over_denominator,
};
use vstd::arithmetic::mul::lemma_mul_inequality;
use vstd::pervasive::VecAdditionalExecFns;

verus! {

/// The fixed-point unit of the smoothing coefficient: a coefficient `c`
/// stands for the fraction `c / COEFF_ONE` of the way each update moves the
/// running value toward the new one.
pub const COEFF_ONE: u32 = 65536;

/// Magnitudes live in milli-decibels; every magnitude this module accepts or
/// produces stays within this bound (far wider than any physical level), so
/// the fixed-point update arithmetic cannot overflow.
pub const MAG_LIMIT: i64 = 1099511627776;

/// One frame of bin magnitudes in milli-decibels, with the frequency support
/// they were captured under.
pub struct MagnitudeFrame {
    pub bins: Vec<i64>,
    pub freq: i64,
    pub sample_rate: i32,
}

impl MagnitudeFrame {
    /// Every magnitude is within the module's working range.
    pub open spec fn wf(self) -> bool {
        forall|i: int| 0 <= i < self.bins@.len() ==> -MAG_LIMIT <= #[trigger] self.bins@[i] <= MAG_LIMIT
    }
}

/// One recursive-averaging update: the running value `r` moves the fraction
/// `c / COEFF_ONE` of its distance toward the new value `v`, rounded toward
/// `r`.
pub open spec fn iir_step(r: int, v: int, c: int) -> int {
    if v >= r {
        r + ((v - r) * c) / (COEFF_ONE as int)
    } else {
        r - ((r - v) * c) / (COEFF_ONE as int)
    }
}

proof fn lemma_scaled_delta_bounds(d: int, c: int)
    requires
        0 <= d,
        0 <= c <= COEFF_ONE as int,
    ensures
        0 <= (d * c) / (COEFF_ONE as int) <= d,
{
    let one = COEFF_ONE as int;
    lemma_mul_inequality(c, one, d);
    assert(d * c == c * d) by (nonlinear_arith);
    assert(d * one == one * d) by (nonlinear_arith);
    lemma_div_is_ordered(d * c, d * one, one);
    lemma_div_multiples_vanish(d, one);
    lemma_div_is_ordered(0, d * c, one);
}

/// Each update lands between the running value and the new value: the
/// running value approaches the input monotonically and never overshoots it.
pub proof fn lemma_iir_step_approaches(r: int, v: int, c: int)
    requires
        0 <= c <= COEFF_ONE as int,
    ensures
        r <= v ==> r <= iir_step(r, v, c) <= v,
        v <= r ==> v <= iir_step(r, v, c) <= r,
{
    if v >= r {
        lemma_scaled_delta_bounds(v - r, c);
    } else {
        lemma_scaled_delta_bounds(r - v, c);
    }
}

/// From a reset (all-zero) running value, the first update is exactly the
/// input scaled by the smoothing coefficient.
pub proof fn lemma_iir_first_update(v: int, c: int)
    requires
        0 <= c <= COEFF_ONE as int,
    ensures
        v >= 0 ==> iir_step(0, v, c) == (v * c) / (COEFF_ONE as int),
        v < 0 ==> iir_step(0, v, c) == -(((-v) * c) / (COEFF_ONE as int)),
{
}

/// The running value after `n` updates with the same input.
pub open spec fn iir_iterate(r: int, v: int, c: int, n: nat) -> int
    decreases n,
{
    if n == 0 {
        r
    } else {
        iir_step(iir_iterate(r, v, c, (n - 1) as nat), v, c)
    }
}

/// Under repeated identical input the running value is monotone in the
/// direction of the input and never passes it.
pub proof fn lemma_iir_iterate_monotone(r: int, v: int, c: int, n: nat)
    requires
        0 <= c <= COEFF_ONE as int,
    ensures
        r <= v ==> r <= iir_iterate(r, v, c, n) <= iir_iterate(r, v, c, n + 1) <= v,
        v <= r ==> v <= iir_iterate(r, v, c, n + 1) <= iir_iterate(r, v, c, n) <= r,
    decreases n,
{
    if n == 0 {
        lemma_iir_step_approaches(r, v, c);
    } else {
        lemma_iir_iterate_monotone(r, v, c, (n - 1) as nat);
        lemma_iir_step_approaches(iir_iterate(r, v, c, n), v, c);
    }
}

fn iir_update(r: i64, v: i64, c: u32) -> (u: i64)
    requires
        -MAG_LIMIT <= r <= MAG_LIMIT,
        -MAG_LIMIT <= v <= MAG_LIMIT,
        c <= COEFF_ONE,
    ensures
        u == iir_step(r as int, v as int, c as int),
        r <= v ==> r <= u <= v,
        v <= r ==> v <= u <= r,
{
    proof {
        lemma_iir_step_approaches(r as int, v as int, c as int);
    }
    if v >= r {
        let d = (v - r) as u64;
        let scaled = d * (c as u64) / (COEFF_ONE as u64);
        proof {
            lemma_scaled_delta_bounds(d as int, c as int);
        }
        r + scaled as i64
    } else {
        let d = (r - v) as u64;
        let scaled = d * (c as u64) / (COEFF_ONE as u64);
        proof {
            lemma_scaled_delta_bounds(d as int, c as int);
        }
        r - scaled as i64
    }
}

/// The recursive averager: a running magnitude per bin, the frequency
/// support it was accumulated under, and the smoothing coefficient.
pub struct FftAverager {
    pub iir: Vec<i64>,
    pub freq: i64,
    pub sample_rate: i32,
    pub coeff: u32,
}

/// Whether an incoming frame no longer matches the running state's shape:
/// a change of sample rate, center frequency or bin count discards the
/// accumulated history.
pub open spec fn needs_reset(a: FftAverager, frame: MagnitudeFrame) -> bool {
    ||| frame.sample_rate != a.sample_rate
    ||| frame.freq != a.freq
    ||| frame.bins@.len() != a.iir@.len()
}

impl FftAverager {
    /// The coefficient is in range and every running magnitude is within the
    /// module's working range.
    pub open spec fn wf(self) -> bool {
        &&& self.coeff <= COEFF_ONE
        &&& forall|i: int| 0 <= i < self.iir@.len() ==> -MAG_LIMIT <= #[trigger] self.iir@[i] <= MAG_LIMIT
    }

    /// Create an averager with no accumulated history.
    pub fn new(coeff: u32) -> (a: Self)
        requires
            coeff <= COEFF_ONE,
        ensures
            a.wf(),
            a.iir@ == Seq::<i64>::empty(),
            a.freq == 0,
            a.sample_rate == 0,
            a.coeff == coeff,
    {
        FftAverager { iir: Vec::new(), freq: 0, sample_rate: 0, coeff }
    }

    /// Change the smoothing coefficient; the accumulated history stays.
    pub fn set_coeff(&mut self, coeff: u32)
        requires
            coeff <= COEFF_ONE,
        ensures
            *final(self) == (FftAverager { coeff, ..*old(self) }),
    {
        self.coeff = coeff;
    }

    /// Discard the accumulated history; the next frame starts from zeros.
    pub fn reset(&mut self)
        ensures
            final(self).iir@ == Seq::<i64>::empty(),
            final(self).freq == old(self).freq,
            final(self).sample_rate == old(self).sample_rate,
            final(self).coeff == old(self).coeff,
    {
        self.iir.clear();
    }

    /// Fold one frame into the running state.
    ///
    /// If the frame's sample rate, center frequency or bin count differs from
    /// the running state's, the running array is first cleared to the new
    /// size filled with zeros, and the frame's support is adopted; the update
    /// is then applied to that fresh state.  Per bin, the running value moves
    /// the coefficient's fraction of its distance toward the frame's value.
    pub fn step(&mut self, frame: &MagnitudeFrame)
        requires
            old(self).wf(),
            frame.wf(),
        ensures
            final(self).wf(),
            final(self).coeff == old(self).coeff,
            final(self).freq == frame.freq,
            final(self).sample_rate == frame.sample_rate,
            final(self).iir@.len() == frame.bins@.len(),
            ({
                let base = if needs_reset(*old(self), *frame) {
                    Seq::new(frame.bins@.len(), |i: int| 0i64)
                } else {
                    old(self).iir@
                };
                forall|i: int| 0 <= i < frame.bins@.len()
                    ==> #[trigger] final(self).iir@[i] == iir_step(base[i] as int, frame.bins@[i] as int, old(self).coeff as int)
            }),
    {
        if frame.sample_rate != self.sample_rate || frame.freq != self.freq || frame.bins.len() != self.iir.len() {
            self.iir.clear();
            self.iir.resize(frame.bins.len(), 0);
            self.sample_rate = frame.sample_rate;
            self.freq = frame.freq;
            proof {
                assert(self.iir@ =~= Seq::new(frame.bins@.len(), |i: int| 0i64));
            }
        }
        let ghost base = self.iir@;
        let n = frame.bins.len();
        let mut i: usize = 0;
        while i < n
            invariant
                n == frame.bins@.len(),
                self.iir@.len() == n,
                i <= n,
                frame.wf(),
                self.coeff == old(self).coeff,
                self.coeff <= COEFF_ONE,
                self.freq == frame.freq,
                self.sample_rate == frame.sample_rate,
                base == (if needs_reset(*old(self), *frame) {
                    Seq::new(frame.bins@.len(), |k: int| 0i64)
                } else {
                    old(self).iir@
                }),
                forall|k: int| 0 <= k < n ==> -MAG_LIMIT <= #[trigger] base[k] <= MAG_LIMIT,
                forall|k: int| i <= k < n ==> #[trigger] self.iir@[k] == base[k],
                forall|k: int| 0 <= k < i ==> #[trigger] self.iir@[k] == iir_step(base[k] as int, frame.bins@[k] as int, self.coeff as int),
                forall|k: int| 0 <= k < i ==> -MAG_LIMIT <= #[trigger] self.iir@[k] <= MAG_LIMIT,
            decreases n - i,
        {
            let v = frame.bins[i];
            let r = self.iir[i];
            let u = iir_update(r, v, self.coeff);
            self.iir.set(i, u);
            i = i + 1;
        }
    }
}

/// The visible span the presentation loop maps to pixel columns: its
/// frequency bounds in Hz and its width in pixel columns.
///
/// The bounds here (and on the averager's own frequency fields) keep every
/// intermediate product of the column arithmetic far inside 128 bits.
pub struct Viewport {
    pub left: i64,
    pub right: i64,
    pub width_px: u32,
}

impl Viewport {
    /// A non-empty span of sane magnitude and at least one pixel column.
    pub open spec fn wf(self) -> bool {
        &&& 1 <= self.width_px <= 65536
        &&& self.left < self.right
        &&& -70368744177664 <= self.left
        &&& self.right <= 70368744177664
    }
}

/// A display-ready series: one magnitude per occupied pixel column, in
/// column order, plus the frequencies (Hz, rounded down) of the first and
/// last bin considered, so the renderer can map columns back to frequency.
pub struct DecimatedFftFrame {
    pub data: Vec<i64>,
    pub left: i64,
    pub right: i64,
}

/// The frequency of the lowest bin: half the sample rate below the center.
pub open spec fn freq_begin(freq: int, rate: int) -> int {
    freq - rate / 2
}

/// `n` times the offset of bin `i`'s frequency above the viewport's left
/// edge (scaling by the bin count `n` keeps the arithmetic integral: bin
/// `i` sits at `freq_begin + i * rate / n`).
pub open spec fn bin_offset_scaled(fb: int, rate: int, n: int, left: int, i: int) -> int {
    fb * n + i * rate - left * n
}

/// The pixel column bin `i` maps to: its offset above the left edge times
/// the column density, clamped below at column zero.
pub open spec fn bin_col(fb: int, rate: int, n: int, left: int, span: int, width: int, i: int) -> int {
    let d = bin_offset_scaled(fb, rate, n, left, i);
    if d <= 0 {
        0
    } else {
        (d * width) / (span * n)
    }
}

/// The first bin considered: the bin at the viewport's left edge, rounded
/// down, clamped into the frame.
pub open spec fn begin_index(fb: int, rate: int, n: int, left: int) -> int {
    if left <= fb {
        0
    } else {
        let raw = ((left - fb) * n) / rate;
        if raw > n - 1 {
            n - 1
        } else {
            raw
        }
    }
}

/// The last bin considered: the bin at the viewport's right edge, rounded
/// up, clamped into the frame.
pub open spec fn end_index(fb: int, rate: int, n: int, right: int) -> int {
    if right <= fb {
        0
    } else {
        let raw = ((right - fb) * n + rate - 1) / rate;
        if raw > n - 1 {
            n - 1
        } else {
            raw
        }
    }
}

pub open spec fn max_i64(a: i64, b: i64) -> i64 {
    if a >= b {
        a
    } else {
        b
    }
}

/// Min/max decimation of one run of bins: walking bins in order of their
/// (nondecreasing) columns, bins of one column fold into that column's
/// maximum, and a column change emits the finished maximum.  `cur_col` and
/// `cur_val` carry the column being folded and its maximum so far; the last
/// column's maximum is emitted at the end.
pub open spec fn decimate_spec(cols: Seq<int>, vals: Seq<i64>, cur_col: int, cur_val: i64) -> Seq<i64>
    decreases vals.len(),
{
    if vals.len() == 0 {
        seq![cur_val]
    } else if cols[0] == cur_col {
        decimate_spec(cols.drop_first(), vals.drop_first(), cur_col, max_i64(cur_val, vals[0]))
    } else {
        seq![cur_val] + decimate_spec(cols.drop_first(), vals.drop_first(), cols[0], vals[0])
    }
}

proof fn lemma_mul_range(a: int, lo: int, hi: int, b: int, bhi: int)
    requires
        lo <= a <= hi,
        0 <= b <= bhi,
        lo <= 0 <= hi,
    ensures
        lo * bhi <= a * b <= hi * bhi,
{
    assert(lo * bhi <= a * b && a * b <= hi * bhi) by (nonlinear_arith)
        requires
            lo <= a <= hi,
            0 <= b <= bhi,
            lo <= 0 <= hi,
    ;
}

fn col_exec(fb: i128, rate: i128, n: i128, left: i128, span: i128, width: i128, i: i128) -> (c: i128)
    requires
        1 <= rate <= 0x80000000,
        1 <= n <= 0x1000000,
        -0x800000000000 <= fb <= 0x800000000000,
        -0x800000000000 <= left <= 0x800000000000,
        1 <= span <= 0x1000000000000,
        1 <= width <= 0x10000,
        0 <= i < n,
    ensures
        c == bin_col(fb as int, rate as int, n as int, left as int, span as int, width as int, i as int),
        c >= 0,
{
    proof {
        lemma_mul_range(fb as int, -0x800000000000, 0x800000000000, n as int, 0x1000000);
        lemma_mul_range(left as int, -0x800000000000, 0x800000000000, n as int, 0x1000000);
        lemma_mul_range(i as int, 0, 0x1000000, rate as int, 0x80000000);
    }
    let d = fb * n + i * rate - left * n;
    if d <= 0 {
        0
    } else {
        proof {
            lemma_mul_range(d as int, 0, 0x4000000000000000000, width as int, 0x10000);
            lemma_mul_range(span as int, 0, 0x1000000000000, n as int, 0x1000000);
            assert(span as int * n as int >= 1) by (nonlinear_arith)
                requires
                    span as int >= 1,
                    n as int >= 1,
            ;
            lemma_div_is_ordered(0, d as int * width as int, span as int * n as int);
        }
        (d * width) / (span * n)
    }
}

impl FftAverager {
    /// The running state is small enough for the column arithmetic: the
    /// frame has at most two-to-the-twenty-fourth bins, a positive sample
    /// rate when non-empty, and a center frequency of sane magnitude.
    pub open spec fn decimation_ready(self) -> bool {
        &&& self.iir@.len() <= 16777216
        &&& (self.iir@.len() > 0 ==> 1 <= self.sample_rate)
        &&& -70368744177664 <= self.freq <= 70368744177664
    }

    /// The columns of the considered bins past the first one.
    pub open spec fn considered_cols(self, vp: Viewport) -> Seq<int> {
        let n = self.iir@.len() as int;
        let rate = self.sample_rate as int;
        let fb = freq_begin(self.freq as int, rate);
        let b = begin_index(fb, rate, n, vp.left as int);
        let e = end_index(fb, rate, n, vp.right as int);
        Seq::new((e - b) as nat, |j: int| bin_col(fb, rate, n, vp.left as int, vp.right - vp.left, vp.width_px as int, b + 1 + j))
    }

    /// The values of the considered bins past the first one.
    pub open spec fn considered_vals(self, vp: Viewport) -> Seq<i64> {
        let n = self.iir@.len() as int;
        let rate = self.sample_rate as int;
        let fb = freq_begin(self.freq as int, rate);
        let b = begin_index(fb, rate, n, vp.left as int);
        let e = end_index(fb, rate, n, vp.right as int);
        Seq::new((e - b) as nat, |j: int| self.iir@[b + 1 + j])
    }

    /// The decimated series: the considered bins (those in view, the edges
    /// rounded outward and clamped into the frame), grouped by pixel column,
    /// one maximum per occupied column, in column order.
    pub open spec fn decimated_data(self, vp: Viewport) -> Seq<i64> {
        if self.iir@.len() == 0 {
            Seq::empty()
        } else {
            let n = self.iir@.len() as int;
            let rate = self.sample_rate as int;
            let fb = freq_begin(self.freq as int, rate);
            let b = begin_index(fb, rate, n, vp.left as int);
            decimate_spec(
                self.considered_cols(vp),
                self.considered_vals(vp),
                bin_col(fb, rate, n, vp.left as int, vp.right - vp.left, vp.width_px as int, b),
                self.iir@[b],
            )
        }
    }

    /// Decimate the running array for display: one maximum per occupied
    /// pixel column over the bins inside the viewport, plus the frequencies
    /// of the first and last bin considered.  Recomputed from scratch on
    /// every call; nothing is kept.
    pub fn decimate(&self, vp: &Viewport) -> (r: DecimatedFftFrame)
        requires
            self.wf(),
            self.decimation_ready(),
            vp.wf(),
        ensures
            r.data@ == self.decimated_data(*vp),
            self.iir@.len() == 0 ==> r.data@.len() == 0 && r.left == 0 && r.right == 0,
            self.iir@.len() > 0 ==> {
                let n = self.iir@.len() as int;
                let rate = self.sample_rate as int;
                let fb = freq_begin(self.freq as int, rate);
                &&& r.left == fb + (begin_index(fb, rate, n, vp.left as int) * rate) / n
                &&& r.right == fb + (end_index(fb, rate, n, vp.right as int) * rate) / n
            },
    {
        if self.iir.len() == 0 {
            return DecimatedFftFrame { data: Vec::new(), left: 0, right: 0 };
        }
        let n = self.iir.len();
        let n_i = n as i128;
        let rate_i = self.sample_rate as i128;
        let half = (self.sample_rate as u32) / 2;
        let fb = self.freq as i128 - half as i128;
        let left_i = vp.left as i128;
        let right_i = vp.right as i128;
        let span = right_i - left_i;
        let width = vp.width_px as i128;
        proof {
            assert(fb == freq_begin(self.freq as int, self.sample_rate as int));
        }

        let b: usize = if left_i <= fb {
            0
        } else {
            proof {
                lemma_mul_range(left_i - fb, 0, 0x2000000000000, n_i as int, 0x1000000);
                lemma_div_is_ordered(0, (left_i - fb) as int * n_i as int, rate_i as int);
            }
            let raw = ((left_i - fb) * n_i) / rate_i;
            if raw > n_i - 1 {
                n - 1
            } else {
                raw as usize
            }
        };
        let e: usize = if right_i <= fb {
            0
        } else {
            proof {
                lemma_mul_range(right_i - fb, 0, 0x2000000000000, n_i as int, 0x1000000);
                lemma_div_is_ordered(0, (right_i - fb) as int * n_i as int, rate_i as int);
            }
            let raw = ((right_i - fb) * n_i + rate_i - 1) / rate_i;
            if raw > n_i - 1 {
                n - 1
            } else {
                raw as usize
            }
        };
        proof {
            assert(b == begin_index(fb as int, rate_i as int, n as int, vp.left as int));
            assert(e == end_index(fb as int, rate_i as int, n as int, vp.right as int));
            if left_i > fb {
                lemma_mul_range(right_i - left_i, 0, 0x2000000000000, n_i as int, 0x1000000);
                assert((right_i - fb) as int * n_i as int == (left_i - fb) as int * n_i as int + (right_i - left_i) as int
                    * n_i as int) by (nonlinear_arith);
                lemma_div_is_ordered(
                    (left_i - fb) as int * n_i as int,
                    (right_i - fb) as int * n_i as int + rate_i as int - 1,
                    rate_i as int,
                );
            }
            assert(b <= e);
            assert(e < n);
        }

        let ghost cols = self.considered_cols(*vp);
        let ghost vals = self.considered_vals(*vp);
        let ghost target = self.decimated_data(*vp);

        let mut cur_x = col_exec(fb, rate_i, n_i, left_i, span, width, b as i128);
        let mut cur_val = self.iir[b];
        let mut data: Vec<i64> = Vec::new();
        let mut i: usize = b + 1;
        proof {
            assert(cols.skip(0) =~= cols);
            assert(vals.skip(0) =~= vals);
            assert(target == decimate_spec(cols, vals, cur_x as int, cur_val));
            assert(data@ + decimate_spec(cols, vals, cur_x as int, cur_val) =~= decimate_spec(
                cols,
                vals,
                cur_x as int,
                cur_val,
            ));
        }
        while i <= e
            invariant
                self.wf(),
                self.decimation_ready(),
                vp.wf(),
                n == self.iir@.len(),
                n >= 1,
                n_i == n as int,
                rate_i == self.sample_rate as int,
                1 <= rate_i,
                fb == freq_begin(self.freq as int, self.sample_rate as int),
                left_i == vp.left as int,
                right_i == vp.right as int,
                span == vp.right - vp.left,
                width == vp.width_px as int,
                b == begin_index(fb as int, rate_i as int, n as int, vp.left as int),
                e == end_index(fb as int, rate_i as int, n as int, vp.right as int),
                b <= e < n,
                b + 1 <= i <= e + 1,
                cols == self.considered_cols(*vp),
                vals == self.considered_vals(*vp),
                target == self.decimated_data(*vp),
                cols.len() == e - b,
                vals.len() == e - b,
                target == data@ + decimate_spec(
                    cols.skip(i - b - 1),
                    vals.skip(i - b - 1),
                    cur_x as int,
                    cur_val,
                ),
            decreases e + 1 - i,
        {
            let ghost k: int = i - b - 1;
            let x = col_exec(fb, rate_i, n_i, left_i, span, width, i as i128);
            let v = self.iir[i];
            proof {
                assert(cols.skip(k)[0] == cols[k]);
                assert(cols[k] == bin_col(fb as int, rate_i as int, n as int, vp.left as int, span as int, width as int, i as int));
                assert(vals.skip(k)[0] == vals[k]);
                assert(vals[k] == self.iir@[i as int]);
                assert(cols.skip(k).drop_first() =~= cols.skip(k + 1));
                assert(vals.skip(k).drop_first() =~= vals.skip(k + 1));
            }
            if x == cur_x {
                cur_val = if cur_val >= v {
                    cur_val
                } else {
                    v
                };
            } else {
                data.push(cur_val);
                cur_val = v;
                cur_x = x;
            }
            i = i + 1;
        }
        proof {
            assert(cols.skip(e - b) =~= Seq::<int>::empty());
            assert(vals.skip(e - b) =~= Seq::<i64>::empty());
            assert(decimate_spec(cols.skip(e - b), vals.skip(e - b), cur_x as int, cur_val) == seq![cur_val]);
        }
        data.push(cur_val);
        proof {
            assert(data@ =~= target);
        }

        proof {
            lemma_mul_range(b as int, 0, 0x1000000, rate_i as int, 0x80000000);
            lemma_mul_range(e as int, 0, 0x1000000, rate_i as int, 0x80000000);
            lemma_div_is_ordered(0, b as int * rate_i as int, n_i as int);
            lemma_div_is_ordered(0, e as int * rate_i as int, n_i as int);
            assert(b as int * rate_i as int <= n_i as int * rate_i as int) by (nonlinear_arith)
                requires
                    0 <= b as int <= n_i as int,
                    0 <= rate_i as int,
            ;
            assert(e as int * rate_i as int <= n_i as int * rate_i as int) by (nonlinear_arith)
                requires
                    0 <= e as int <= n_i as int,
                    0 <= rate_i as int,
            ;
            lemma_div_is_ordered(b as int * rate_i as int, n_i as int * rate_i as int, n_i as int);
            lemma_div_is_ordered(e as int * rate_i as int, n_i as int * rate_i as int, n_i as int);
            lemma_div_multiples_vanish(rate_i as int, n_i as int);
        }
        let out_left = fb + (b as i128 * rate_i) / n_i;
        let out_right = fb + (e as i128 * rate_i) / n_i;
        DecimatedFftFrame { data, left: out_left as i64, right: out_right as i64 }
    }
}

proof fn lemma_begin_le_end(fb: int, rate: int, n: int, left: int, right: int)
    requires
        1 <= rate,
        1 <= n,
        left < right,
    ensures
        0 <= begin_index(fb, rate, n, left) <= end_index(fb, rate, n, right) <= n - 1,
{
    let b = begin_index(fb, rate, n, left);
    let e = end_index(fb, rate, n, right);
    if right > fb {
        let num_e = (right - fb) * n + rate - 1;
        assert((right - fb) * n >= n) by (nonlinear_arith)
            requires
                right - fb >= 1,
                n >= 1,
        ;
        lemma_div_is_ordered(0, num_e, rate);
        lemma_div_of0(rate);
    }
    if left > fb {
        let num_b = (left - fb) * n;
        assert(num_b >= 0) by (nonlinear_arith)
            requires
                num_b == (left - fb) * n,
                left - fb >= 1,
                n >= 1,
        ;
        lemma_div_is_ordered(0, num_b, rate);
        lemma_div_of0(rate);
        lemma_mul_inequality(left - fb, right - fb, n);
        lemma_div_is_ordered((left - fb) * n, (right - fb) * n + rate - 1, rate);
    }
}

proof fn lemma_decimate_all_new(cols: Seq<int>, vals: Seq<i64>, cur_col: int, cur_val: i64)
    requires
        cols.len() == vals.len(),
        forall|j: int| 0 <= j < cols.len() ==> #[trigger] cols[j] > (if j == 0 { cur_col } else { cols[j - 1] }),
    ensures
        decimate_spec(cols, vals, cur_col, cur_val) == seq![cur_val] + vals,
    decreases vals.len(),
{
    if vals.len() == 0 {
        assert(decimate_spec(cols, vals, cur_col, cur_val) =~= seq![cur_val] + vals);
    } else {
        assert(cols[0] > cur_col);
        let rc = cols.drop_first();
        let rv = vals.drop_first();
        assert forall|j: int| 0 <= j < rc.len() implies #[trigger] rc[j] > (if j == 0 { cols[0] } else { rc[j - 1] }) by {
            assert(rc[j] == cols[j + 1]);
            if j > 0 {
                assert(rc[j - 1] == cols[j]);
            }
        }
        lemma_decimate_all_new(rc, rv, cols[0], vals[0]);
        assert(seq![cur_val] + (seq![vals[0]] + rv) =~= seq![cur_val] + vals);
    }
}

proof fn lemma_decimate_len_le(cols: Seq<int>, vals: Seq<i64>, cur_col: int, cur_val: i64)
    requires
        cols.len() == vals.len(),
        cols.len() > 0 ==> cur_col <= cols[0],
        forall|j: int| 1 <= j < cols.len() ==> cols[j - 1] <= #[trigger] cols[j],
    ensures
        decimate_spec(cols, vals, cur_col, cur_val).len() <= (if cols.len() == 0 {
            1int
        } else {
            cols.last() - cur_col + 1
        }),
    decreases vals.len(),
{
    if vals.len() > 0 {
        let rc = cols.drop_first();
        let rv = vals.drop_first();
        assert forall|j: int| 1 <= j < rc.len() implies rc[j - 1] <= #[trigger] rc[j] by {
            assert(rc[j] == cols[j + 1]);
            assert(rc[j - 1] == cols[j]);
            assert(cols[j] <= cols[j + 1]);
        }
        if rc.len() > 0 {
            assert(rc[0] == cols[1]);
            assert(cols[0] <= cols[1]);
            assert(rc.last() == cols.last());
        }
        if cols[0] == cur_col {
            lemma_decimate_len_le(rc, rv, cur_col, max_i64(cur_val, vals[0]));
        } else {
            lemma_decimate_len_le(rc, rv, cols[0], vals[0]);
        }
    }
}

proof fn lemma_decimate_len_le_bins(cols: Seq<int>, vals: Seq<i64>, cur_col: int, cur_val: i64)
    requires
        cols.len() == vals.len(),
    ensures
        decimate_spec(cols, vals, cur_col, cur_val).len() <= vals.len() + 1,
    decreases vals.len(),
{
    if vals.len() > 0 {
        if cols[0] == cur_col {
            lemma_decimate_len_le_bins(cols.drop_first(), vals.drop_first(), cur_col, max_i64(cur_val, vals[0]));
        } else {
            lemma_decimate_len_le_bins(cols.drop_first(), vals.drop_first(), cols[0], vals[0]);
        }
    }
}

proof fn lemma_col_nonneg(fb: int, rate: int, n: int, left: int, span: int, width: int, i: int)
    requires
        1 <= rate,
        1 <= n,
        1 <= span,
        1 <= width,
    ensures
        bin_col(fb, rate, n, left, span, width, i) >= 0,
{
    let d = bin_offset_scaled(fb, rate, n, left, i);
    if d > 0 {
        assert(d * width >= 0 && span * n >= 1) by (nonlinear_arith)
            requires
                d >= 1,
                width >= 1,
                span >= 1,
                n >= 1,
        ;
        lemma_div_is_ordered(0, d * width, span * n);
        lemma_div_of0(span * n);
    }
}

proof fn lemma_col_monotone(fb: int, rate: int, n: int, left: int, span: int, width: int, i: int, j: int)
    requires
        1 <= rate,
        1 <= n,
        1 <= span,
        1 <= width,
        i <= j,
    ensures
        bin_col(fb, rate, n, left, span, width, i) <= bin_col(fb, rate, n, left, span, width, j),
{
    let di = bin_offset_scaled(fb, rate, n, left, i);
    let dj = bin_offset_scaled(fb, rate, n, left, j);
    assert(di <= dj) by (nonlinear_arith)
        requires
            di == fb * n + i * rate - left * n,
            dj == fb * n + j * rate - left * n,
            i <= j,
            rate >= 1,
    ;
    lemma_col_nonneg(fb, rate, n, left, span, width, j);
    if di > 0 {
        assert(span * n >= 1) by (nonlinear_arith)
            requires
                span >= 1,
                n >= 1,
        ;
        lemma_mul_inequality(di, dj, width);
        lemma_div_is_ordered(di * width, dj * width, span * n);
    }
}

proof fn lemma_col_below_width(fb: int, rate: int, n: int, left: int, span: int, width: int, i: int)
    requires
        1 <= rate,
        1 <= n,
        1 <= span,
        1 <= width,
        bin_offset_scaled(fb, rate, n, left, i) < span * n,
    ensures
        bin_col(fb, rate, n, left, span, width, i) <= width - 1,
{
    let d = bin_offset_scaled(fb, rate, n, left, i);
    let s = span * n;
    assert(s >= 1) by (nonlinear_arith)
        requires
            s == span * n,
            span >= 1,
            n >= 1,
    ;
    if d > 0 {
        lemma_mul_inequality(d, s - 1, width);
        assert((s - 1) * width <= s * (width - 1) + (s - 1)) by (nonlinear_arith)
            requires
                s >= 1,
                width >= 1,
        ;
        lemma_div_is_ordered(d * width, s * (width - 1) + (s - 1), s);
        lemma_hoist_over_denominator(s - 1, width - 1, s as nat);
        lemma_basic_div(s - 1, s);
        assert((s - 1) + (width - 1) * s == s * (width - 1) + (s - 1)) by (nonlinear_arith);
    }
}

/// Decimation into a viewport at least as wide as the frame: when the
/// viewport spans exactly the frame's frequency support and there is at
/// least one pixel column per bin, decimation changes nothing — it yields
/// exactly one point per bin, each the bin's own value (the maximum of its
/// one-element column).
pub proof fn lemma_decimate_exact_when_wide(a: FftAverager, vp: Viewport)
    requires
        a.wf(),
        a.decimation_ready(),
        vp.wf(),
        a.iir@.len() >= 1,
        vp.left == freq_begin(a.freq as int, a.sample_rate as int),
        vp.right == vp.left + a.sample_rate,
        vp.width_px >= a.iir@.len(),
    ensures
        a.decimated_data(vp) == a.iir@,
{
    let n = a.iir@.len() as int;
    let rate = a.sample_rate as int;
    let fb = freq_begin(a.freq as int, rate);
    let left = vp.left as int;
    let span = vp.right - vp.left;
    let width = vp.width_px as int;
    let b = begin_index(fb, rate, n, left);
    let e = end_index(fb, rate, n, vp.right as int);
    assert(b == 0);
    assert(span == rate);

    // The right edge rounds up to one past the last bin, so the clamp picks
    // the last bin.
    let raw = ((vp.right - fb) * n + rate - 1) / rate;
    assert((vp.right - fb) * n + rate - 1 == (rate - 1) + n * rate) by (nonlinear_arith)
        requires
            vp.right - fb == rate,
    ;
    lemma_hoist_over_denominator(rate - 1, n, rate as nat);
    lemma_basic_div(rate - 1, rate);
    assert(raw == n);
    assert(e == n - 1);

    // Over this viewport the column of bin i is (i * width) / n.
    assert forall|i: int| 0 <= i < n implies #[trigger] bin_col(fb, rate, n, left, span, width, i) == (i * width)
        / n by {
        let d = bin_offset_scaled(fb, rate, n, left, i);
        assert(d == i * rate) by (nonlinear_arith)
            requires
                d == fb * n + i * rate - fb * n,
        ;
        if i == 0 {
            assert(d == 0) by (nonlinear_arith)
                requires
                    d == 0 * rate,
            ;
            lemma_div_of0(n);
        } else {
            assert(d >= 1) by (nonlinear_arith)
                requires
                    d == i * rate,
                    i >= 1,
                    rate >= 1,
            ;
            lemma_div_multiples_vanish_quotient(rate, i * width, n);
            assert(d * width == rate * (i * width)) by (nonlinear_arith)
                requires
                    d == i * rate,
            ;
            assert(span * n == rate * n);
            assert((d * width) / (span * n) == (i * width) / n);
        }
    }

    // With at least one column per bin the columns strictly increase.
    assert forall|i: int| 0 <= i < n - 1 implies #[trigger] bin_col(fb, rate, n, left, span, width, i) < bin_col(
        fb,
        rate,
        n,
        left,
        span,
        width,
        i + 1,
    ) by {
        assert(i * width + n <= (i + 1) * width) by (nonlinear_arith)
            requires
                width >= n,
                i >= 0,
        ;
        lemma_hoist_over_denominator(i * width, 1, n as nat);
        lemma_div_is_ordered(i * width + n, (i + 1) * width, n);
    }

    let cols = a.considered_cols(vp);
    let vals = a.considered_vals(vp);
    assert forall|j: int| 0 <= j < cols.len() implies #[trigger] cols[j] > (if j == 0 {
        bin_col(fb, rate, n, left, span, width, 0)
    } else {
        cols[j - 1]
    }) by {
        assert(cols[j] == bin_col(fb, rate, n, left, span, width, j + 1));
        if j > 0 {
            assert(cols[j - 1] == bin_col(fb, rate, n, left, span, width, j));
        }
    }
    lemma_decimate_all_new(cols, vals, bin_col(fb, rate, n, left, span, width, 0), a.iir@[0]);
    assert(seq![a.iir@[0]] + vals =~= a.iir@);
}

/// Decimation never yields more points than the viewport has pixel columns —
/// provided the last considered bin lies strictly below the viewport's right
/// edge (an upper edge that rounds outward onto a bin exactly at the right
/// edge can occupy one extra column) — and never more points than the frame
/// has bins.
pub proof fn lemma_decimate_within_width(a: FftAverager, vp: Viewport)
    requires
        a.wf(),
        a.decimation_ready(),
        vp.wf(),
        a.iir@.len() >= 1,
        ({
            let n = a.iir@.len() as int;
            let rate = a.sample_rate as int;
            let fb = freq_begin(a.freq as int, rate);
            let e = end_index(fb, rate, n, vp.right as int);
            bin_offset_scaled(fb, rate, n, vp.left as int, e) < (vp.right - vp.left) * n
        }),
    ensures
        a.decimated_data(vp).len() <= vp.width_px,
        a.decimated_data(vp).len() <= a.iir@.len(),
{
    let n = a.iir@.len() as int;
    let rate = a.sample_rate as int;
    let fb = freq_begin(a.freq as int, rate);
    let left = vp.left as int;
    let span = vp.right - vp.left;
    let width = vp.width_px as int;
    let b = begin_index(fb, rate, n, left);
    let e = end_index(fb, rate, n, vp.right as int);
    let cols = a.considered_cols(vp);
    let vals = a.considered_vals(vp);
    let c0 = bin_col(fb, rate, n, left, span, width, b);
    lemma_begin_le_end(fb, rate, n, left, vp.right as int);
    assert(0 <= b <= e <= n - 1);
    assert(vals.len() == e - b);
    assert(cols.len() == e - b);
    assert(vals.len() <= n - 1);
    lemma_decimate_len_le_bins(cols, vals, c0, a.iir@[b]);

    assert forall|j: int| 1 <= j < cols.len() implies cols[j - 1] <= #[trigger] cols[j] by {
        assert(cols[j] == bin_col(fb, rate, n, left, span, width, b + 1 + j));
        assert(cols[j - 1] == bin_col(fb, rate, n, left, span, width, b + j));
        lemma_col_monotone(fb, rate, n, left, span, width, b + j, b + 1 + j);
    }
    if cols.len() > 0 {
        assert(cols[0] == bin_col(fb, rate, n, left, span, width, b + 1));
        lemma_col_monotone(fb, rate, n, left, span, width, b, b + 1);
    }
    lemma_decimate_len_le(cols, vals, c0, a.iir@[b]);
    lemma_col_nonneg(fb, rate, n, left, span, width, b);
    if cols.len() > 0 {
        assert(cols.len() == e - b);
        assert(cols[cols.len() - 1] == bin_col(fb, rate, n, left, span, width, b + 1 + (cols.len() - 1)));
        assert(b + 1 + (cols.len() - 1) == e);
        assert(cols.last() == bin_col(fb, rate, n, left, span, width, e));
        lemma_col_below_width(fb, rate, n, left, span, width, e);
    }
}

proof fn lemma_decimate_membership(cols: Seq<int>, vals: Seq<i64>, cur_col: int, cur_val: i64)
    requires
        cols.len() == vals.len(),
    ensures
        forall|k: int| 0 <= k < decimate_spec(cols, vals, cur_col, cur_val).len()
            ==> #[trigger] decimate_spec(cols, vals, cur_col, cur_val)[k] == cur_val || vals.contains(
            decimate_spec(cols, vals, cur_col, cur_val)[k],
        ),
    decreases vals.len(),
{
    let out = decimate_spec(cols, vals, cur_col, cur_val);
    if vals.len() == 0 {
    } else {
        let rc = cols.drop_first();
        let rv = vals.drop_first();
        if cols[0] == cur_col {
            let m = max_i64(cur_val, vals[0]);
            lemma_decimate_membership(rc, rv, cur_col, m);
            let rout = decimate_spec(rc, rv, cur_col, m);
            assert(out == rout);
            assert forall|k: int| 0 <= k < out.len() implies #[trigger] out[k] == cur_val || vals.contains(
                out[k],
            ) by {
                if rout[k] == m {
                    if m != cur_val {
                        assert(vals[0] == m);
                        assert(vals.contains(m));
                    }
                } else {
                    let j = choose|j: int| 0 <= j < rv.len() && rv[j] == rout[k];
                    assert(vals[j + 1] == rout[k]);
                    assert(vals.contains(rout[k]));
                }
            }
        } else {
            lemma_decimate_membership(rc, rv, cols[0], vals[0]);
            let rout = decimate_spec(rc, rv, cols[0], vals[0]);
            assert(out == seq![cur_val] + rout);
            assert forall|k: int| 0 <= k < out.len() implies #[trigger] out[k] == cur_val || vals.contains(
                out[k],
            ) by {
                if k > 0 {
                    assert(out[k] == rout[k - 1]);
                    if rout[k - 1] == vals[0] {
                        assert(vals.contains(vals[0]));
                    } else {
                        let j = choose|j: int| 0 <= j < rv.len() && rv[j] == rout[k - 1];
                        assert(vals[j + 1] == rout[k - 1]);
                        assert(vals.contains(rout[k - 1]));
                    }
                }
            }
        }
    }
}

proof fn lemma_decimate_dominates(cols: Seq<int>, vals: Seq<i64>, cur_col: int, cur_val: i64)
    requires
        cols.len() == vals.len(),
    ensures
        exists|k: int| 0 <= k < decimate_spec(cols, vals, cur_col, cur_val).len()
            && #[trigger] decimate_spec(cols, vals, cur_col, cur_val)[k] >= cur_val,
        forall|j: int| #![trigger vals[j]] 0 <= j < vals.len() ==> exists|k: int|
            0 <= k < decimate_spec(cols, vals, cur_col, cur_val).len()
                && #[trigger] decimate_spec(cols, vals, cur_col, cur_val)[k] >= vals[j],
    decreases vals.len(),
{
    let out = decimate_spec(cols, vals, cur_col, cur_val);
    if vals.len() == 0 {
        assert(out[0] >= cur_val);
    } else {
        let rc = cols.drop_first();
        let rv = vals.drop_first();
        if cols[0] == cur_col {
            let m = max_i64(cur_val, vals[0]);
            lemma_decimate_dominates(rc, rv, cur_col, m);
            let rout = decimate_spec(rc, rv, cur_col, m);
            assert(out == rout);
            let k0 = choose|k: int| 0 <= k < rout.len() && rout[k] >= m;
            assert(out[k0] >= cur_val);
            assert(out[k0] >= vals[0]);
            assert forall|j: int| #![trigger vals[j]] 0 <= j < vals.len() implies exists|k: int|
                0 <= k < out.len() && #[trigger] out[k] >= vals[j] by {
                if j == 0 {
                    assert(out[k0] >= vals[0]);
                } else {
                    let kj = choose|k: int| 0 <= k < rout.len() && #[trigger] rout[k] >= rv[j - 1];
                    assert(out[kj] >= vals[j]);
                }
            }
        } else {
            lemma_decimate_dominates(rc, rv, cols[0], vals[0]);
            let rout = decimate_spec(rc, rv, cols[0], vals[0]);
            assert(out == seq![cur_val] + rout);
            assert(out[0] >= cur_val);
            let k0 = choose|k: int| 0 <= k < rout.len() && rout[k] >= vals[0];
            assert(out[k0 + 1] == rout[k0]);
            assert forall|j: int| #![trigger vals[j]] 0 <= j < vals.len() implies exists|k: int|
                0 <= k < out.len() && #[trigger] out[k] >= vals[j] by {
                if j == 0 {
                    assert(out[k0 + 1] >= vals[0]);
                } else {
                    let kj = choose|k: int| 0 <= k < rout.len() && #[trigger] rout[k] >= rv[j - 1];
                    assert(out[kj + 1] == rout[kj]);
                    assert(out[kj + 1] >= vals[j]);
                }
            }
        }
    }
}

/// Every decimated point is a value among the considered bins, and no
/// considered bin exceeds every decimated point: together with the column
/// grouping of `decimate_spec` this is peak-preserving decimation — each
/// emitted point is the maximum of the bins folded into it, so no peak is
/// lost and none is invented.
#[verifier::rlimit(100)]
#[verifier::spinoff_prover]
pub proof fn lemma_decimate_peaks(a: FftAverager, vp: Viewport)
    requires
        a.wf(),
        a.decimation_ready(),
        vp.wf(),
        a.iir@.len() >= 1,
    ensures
        ({
            let n = a.iir@.len() as int;
            let rate = a.sample_rate as int;
            let fb = freq_begin(a.freq as int, rate);
            let b = begin_index(fb, rate, n, vp.left as int);
            let e = end_index(fb, rate, n, vp.right as int);
            let out = a.decimated_data(vp);
            &&& forall|k: int| #![trigger out[k]] 0 <= k < out.len() ==> exists|i: int|
                b <= i <= e && out[k] == #[trigger] a.iir@[i]
            &&& forall|i: int| #![trigger a.iir@[i]] b <= i <= e ==> exists|k: int|
                0 <= k < out.len() && #[trigger] out[k] >= a.iir@[i]
        }),
{
    let n = a.iir@.len() as int;
    let rate = a.sample_rate as int;
    let fb = freq_begin(a.freq as int, rate);
    let b = begin_index(fb, rate, n, vp.left as int);
    let e = end_index(fb, rate, n, vp.right as int);
    lemma_begin_le_end(fb, rate, n, vp.left as int, vp.right as int);
    let cols = a.considered_cols(vp);
    let vals = a.considered_vals(vp);
    let c0 = bin_col(fb, rate, n, vp.left as int, vp.right - vp.left, vp.width_px as int, b);
    let out = a.decimated_data(vp);
    lemma_decimate_membership(cols, vals, c0, a.iir@[b]);
    lemma_decimate_dominates(cols, vals, c0, a.iir@[b]);
    assert forall|k: int| #![trigger out[k]] 0 <= k < out.len() implies exists|i: int|
        b <= i <= e && out[k] == #[trigger] a.iir@[i] by {
        if out[k] == a.iir@[b] {
            assert(b <= b <= e && out[k] == a.iir@[b]);
        } else {
            assert(vals.contains(out[k]));
            let j = choose|j: int| 0 <= j < vals.len() && vals[j] == out[k];
            assert(vals[j] == a.iir@[b + 1 + j]);
            assert(b <= b + 1 + j <= e && out[k] == a.iir@[b + 1 + j]);
        }
    }
    assert forall|i: int| #![trigger a.iir@[i]] b <= i <= e implies exists|k: int|
        0 <= k < out.len() && #[trigger] out[k] >= a.iir@[i] by {
        if i == b {
            let k0 = choose|k: int| 0 <= k < out.len() && out[k] >= a.iir@[b];
            assert(0 <= k0 < out.len() && out[k0] >= a.iir@[i]);
        } else {
            assert(vals[i - b - 1] == a.iir@[i]);
            let kj = choose|k: int| 0 <= k < out.len() && out[k] >= vals[i - b - 1];
            assert(0 <= kj < out.len() && out[kj] >= a.iir@[i]);
        }
    }
}

} // verus!
