//! Fixed-point arithmetic used throughout the mixing pipeline.
//!
//! Gains and filter coefficients are integers scaled by `FP_ONE`, so a stored
//! value of `FP_ONE` stands for a gain of one. Samples are plain integers
//! whose magnitude never exceeds `SAMPLE_LIMIT`.

use vstd::prelude::*;

verus! {

/// The fixed-point scale: the stored value that stands for a gain of one.
pub const FP_ONE: i64 = 1024;

/// Largest magnitude a sample may carry.
pub const SAMPLE_LIMIT: i64 = 16777216;

/// Largest magnitude a biquad coefficient may carry (a gain of four).
pub const COEF_LIMIT: i64 = 4096;

/// Largest sample count a single render frame may ask for.
pub const MAX_FRAME: usize = 1048576;

/// Largest number of inputs an effect may hold.
pub const MAX_INPUTS: usize = 4096;

/// Largest magnitude a world coordinate may carry.
pub const POS_LIMIT: i64 = 1048576;

/// Largest radius or maximum distance of a source.
pub const DIST_LIMIT: i64 = 4194304;

/// Largest rolloff factor (a factor of sixteen, in fixed point).
pub const ROLLOFF_LIMIT: i64 = 16384;

/// The gain applied at sample `i` of a frame of `amount` samples while the
/// distance gain ramps linearly from `prev` to `cur`.
pub open spec fn ramp_gain(prev: int, cur: int, i: int, amount: int) -> int {
    (prev * (amount - i) + cur * i) / amount
}

/// Scaling of a sample by a fixed-point gain, rounding towards zero, so that
/// a negative sample is attenuated exactly as its positive mirror image.
pub open spec fn scale_sample(s: int, g: int) -> int {
    if s >= 0 {
        (s * g) / (FP_ONE as int)
    } else {
        -((-s * g) / (FP_ONE as int))
    }
}

/// Rescaling of a fixed-point product back to the base scale, rounding
/// towards zero so positive and negative values are treated alike.
pub open spec fn fp_rescale(v: int) -> int {
    if v >= 0 {
        v / (FP_ONE as int)
    } else {
        -((-v) / (FP_ONE as int))
    }
}

/// Computes `fp_rescale` on machine integers.
pub fn fp_div(v: i64) -> (r: i64)
    requires
        i64::MIN < v,
    ensures
        r == fp_rescale(v as int),
        v >= 0 ==> 0 <= r <= v,
        v < 0 ==> v <= r <= 0,
{
    if v >= 0 {
        ((v as u64) / (FP_ONE as u64)) as i64
    } else {
        let m: u64 = ((-v) as u64) / (FP_ONE as u64);
        -(m as i64)
    }
}

/// Clamping of an integer to the sample range.
pub open spec fn clamp_sample_spec(v: int) -> int {
    if v < -(SAMPLE_LIMIT as int) {
        -(SAMPLE_LIMIT as int)
    } else if v > SAMPLE_LIMIT as int {
        SAMPLE_LIMIT as int
    } else {
        v
    }
}

/// The ramp at a constant gain is that gain at every sample: the first frame
/// after a connection, seeded with the current distance gain, is steady.
pub proof fn lemma_ramp_steady(d: int, i: int, amount: int)
    requires
        0 <= i < amount,
        0 <= d,
    ensures
        ramp_gain(d, d, i, amount) == d,
{
    assert(d * (amount - i) + d * i == d * amount) by (nonlinear_arith);
    assert(d * amount / amount == d) by (nonlinear_arith)
        requires 0 < amount && 0 <= d;
}

/// The ramp stays between its two endpoints.
pub proof fn lemma_ramp_bounds(prev: int, cur: int, i: int, amount: int)
    requires
        0 <= i <= amount,
        0 < amount,
        0 <= prev,
        0 <= cur,
    ensures
        0 <= ramp_gain(prev, cur, i, amount),
        prev <= cur ==> prev <= ramp_gain(prev, cur, i, amount) <= cur,
        cur <= prev ==> cur <= ramp_gain(prev, cur, i, amount) <= prev,
{
    let lo = if prev <= cur { prev } else { cur };
    let hi = if prev <= cur { cur } else { prev };
    assert(lo * amount <= prev * (amount - i) + cur * i <= hi * amount) by (nonlinear_arith)
        requires 0 <= i <= amount && lo <= prev <= hi && lo <= cur <= hi && 0 <= lo;
    assert(lo <= (prev * (amount - i) + cur * i) / amount <= hi) by (nonlinear_arith)
        requires
            0 < amount && 0 <= lo && lo * amount <= prev * (amount - i) + cur * i <= hi * amount;
}

/// How close the last sample of a frame comes to the target gain: the gap
/// times the frame length stays below `|cur - prev| + amount`, so the gap
/// itself vanishes as the frame length grows - consecutive frames splice
/// without an audible step.
pub proof fn lemma_ramp_settles(prev: int, cur: int, amount: int)
    requires
        0 < amount,
        0 <= prev,
        0 <= cur,
    ensures
        amount * (ramp_gain(prev, cur, amount - 1, amount) - cur)
            <= (if prev >= cur { prev - cur } else { cur - prev }),
        amount * (cur - ramp_gain(prev, cur, amount - 1, amount))
            < (if prev >= cur { prev - cur } else { cur - prev }) + amount,
{
    let diff = if prev >= cur { prev - cur } else { cur - prev };
    let num = prev * (amount - (amount - 1)) + cur * (amount - 1);
    assert(prev * (amount - (amount - 1)) + cur * (amount - 1) == prev + cur * amount - cur)
        by (nonlinear_arith);
    let g = num / amount;
    assert(num == amount * g + num % amount && 0 <= num % amount < amount) by {
        vstd::arithmetic::div_mod::lemma_fundamental_div_mod(num, amount);
        vstd::arithmetic::div_mod::lemma_mod_bound(num, amount);
    }
    assert(amount * (g - cur) == amount * g - cur * amount) by (nonlinear_arith);
    assert(amount * (cur - g) == cur * amount - amount * g) by (nonlinear_arith);
}

/// Computes `ramp_gain` on machine integers.
pub fn lerp_gain(prev: i64, cur: i64, i: usize, amount: usize) -> (g: i64)
    requires
        0 <= prev <= FP_ONE,
        0 <= cur <= FP_ONE,
        i < amount,
        amount <= MAX_FRAME,
    ensures
        g == ramp_gain(prev as int, cur as int, i as int, amount as int),
        0 <= g <= FP_ONE,
{
    proof {
        lemma_ramp_bounds(prev as int, cur as int, i as int, amount as int);
        assert(prev * (amount - i) <= FP_ONE * MAX_FRAME && cur * i <= FP_ONE * MAX_FRAME)
            by (nonlinear_arith)
            requires 0 <= prev <= FP_ONE && 0 <= cur <= FP_ONE && 0 <= i < amount
                && amount <= MAX_FRAME;
    }
    let num: u64 = (prev as u64) * ((amount - i) as u64) + (cur as u64) * (i as u64);
    (num / (amount as u64)) as i64
}

/// Scales a sample by a fixed-point gain on machine integers.
pub fn apply_gain(s: i64, g: i64) -> (r: i64)
    requires
        -SAMPLE_LIMIT <= s <= SAMPLE_LIMIT,
        0 <= g <= FP_ONE,
    ensures
        r == scale_sample(s as int, g as int),
        -SAMPLE_LIMIT <= r <= SAMPLE_LIMIT,
{
    proof {
        lemma_scale_sample_bounds(s as int, g as int);
        let m = if s >= 0 { s as int } else { -(s as int) };
        assert(m * g <= SAMPLE_LIMIT * FP_ONE) by (nonlinear_arith)
            requires 0 <= m <= SAMPLE_LIMIT && 0 <= g <= FP_ONE;
    }
    if s >= 0 {
        (((s as u64) * (g as u64)) / (FP_ONE as u64)) as i64
    } else {
        let m: u64 = (((-s) as u64) * (g as u64)) / (FP_ONE as u64);
        -(m as i64)
    }
}

/// A sample scaled by a gain of at most one keeps its magnitude bound.
pub proof fn lemma_scale_sample_bounds(s: int, g: int)
    requires
        -(SAMPLE_LIMIT as int) <= s <= SAMPLE_LIMIT as int,
        0 <= g <= FP_ONE as int,
    ensures
        s >= 0 ==> 0 <= scale_sample(s, g) <= s,
        s < 0 ==> s <= scale_sample(s, g) <= 0,
        -(SAMPLE_LIMIT as int) <= scale_sample(s, g) <= SAMPLE_LIMIT as int,
{
    let m = if s >= 0 { s } else { -s };
    assert(0 <= m * g <= m * (FP_ONE as int)) by (nonlinear_arith)
        requires 0 <= m && 0 <= g <= FP_ONE as int;
    assert(0 <= (m * g) / (FP_ONE as int) <= m) by (nonlinear_arith)
        requires 0 <= m * g <= m * (FP_ONE as int);
}

/// Clamps an accumulated value back into the sample range.
pub fn clamp_sample(v: i64) -> (r: i64)
    requires
        i64::MIN < v,
    ensures
        r == clamp_sample_spec(v as int),
{
    if v < -SAMPLE_LIMIT {
        -SAMPLE_LIMIT
    } else if v > SAMPLE_LIMIT {
        SAMPLE_LIMIT
    } else {
        v
    }
}

/// A quotient is bounded by `cap` whenever its numerator is at most
/// `denom * cap`.
pub proof fn lemma_div_bound(num: int, denom: int, cap: int)
    requires
        0 < denom,
        0 <= num,
        num <= denom * cap,
    ensures
        0 <= num / denom <= cap,
{
    assert(0 <= num / denom <= cap) by (nonlinear_arith)
        requires 0 < denom && 0 <= num && num <= denom * cap;
}

/// The floor of the square root, as the unique value the characterization
/// below picks out.
pub open spec fn floor_sqrt(n: int) -> int {
    choose|r: int| 0 <= r && #[trigger] (r * r) <= n < (r + 1) * (r + 1)
}

/// Any value satisfying the square-root characterization is `floor_sqrt`.
pub proof fn lemma_floor_sqrt(n: int, r: int)
    requires
        0 <= r,
        r * r <= n,
        n < (r + 1) * (r + 1),
    ensures
        floor_sqrt(n) == r,
{
    assert(0 <= r && r * r <= n < (r + 1) * (r + 1));
    let r2 = floor_sqrt(n);
    assert(0 <= r2 && r2 * r2 <= n < (r2 + 1) * (r2 + 1));
    assert(r2 == r) by (nonlinear_arith)
        requires 0 <= r && r * r <= n < (r + 1) * (r + 1)
            && 0 <= r2 && r2 * r2 <= n < (r2 + 1) * (r2 + 1);
}

/// The integer square root: the greatest `r` with `r * r <= n`.
pub fn isqrt(n: u64) -> (r: u64)
    ensures
        r * r <= n,
        (r + 1) * (r + 1) > n,
        r == floor_sqrt(n as int),
{
    if n == 0 {
        proof {
            lemma_floor_sqrt(0, 0);
        }
        return 0;
    }
    let mut lo: u64 = 0;
    let mut hi: u64 = 4294967296;
    while lo + 1 < hi
        invariant
            lo < hi <= 4294967296,
            lo * lo <= n,
            hi * hi > n,
        decreases hi - lo,
    {
        let mid: u64 = lo + (hi - lo) / 2;
        proof {
            assert(mid * mid <= 4294967295 * 4294967295) by (nonlinear_arith)
                requires 0 <= mid < 4294967296;
        }
        if mid * mid <= n {
            lo = mid;
        } else {
            hi = mid;
        }
    }
    proof {
        lemma_floor_sqrt(n as int, lo as int);
    }
    lo
}

} // verus!
