//! Second-order (biquad) digital filters and the stereo input filter built
//! from a pair of them.

use vstd::prelude::*;

use crate::fixed::{clamp_sample, clamp_sample_spec, fp_div, fp_rescale, COEF_LIMIT, SAMPLE_LIMIT};

verus! {

/// A generic second-order digital filter in direct form: five fixed-point
/// coefficients and the running state of the last two inputs and outputs.
#[derive(Clone, Copy, Debug, PartialEq, Eq, Structural)]
pub struct Biquad {
    pub b0: i64,
    pub b1: i64,
    pub b2: i64,
    pub a1: i64,
    pub a2: i64,
    pub x1: i64,
    pub x2: i64,
    pub y1: i64,
    pub y2: i64,
}

impl Biquad {
    /// Coefficients within the fixed-point range, state within the sample
    /// range.
    pub open spec fn wf(self) -> bool {
        &&& -COEF_LIMIT <= self.b0 <= COEF_LIMIT
        &&& -COEF_LIMIT <= self.b1 <= COEF_LIMIT
        &&& -COEF_LIMIT <= self.b2 <= COEF_LIMIT
        &&& -COEF_LIMIT <= self.a1 <= COEF_LIMIT
        &&& -COEF_LIMIT <= self.a2 <= COEF_LIMIT
        &&& -SAMPLE_LIMIT <= self.x1 <= SAMPLE_LIMIT
        &&& -SAMPLE_LIMIT <= self.x2 <= SAMPLE_LIMIT
        &&& -SAMPLE_LIMIT <= self.y1 <= SAMPLE_LIMIT
        &&& -SAMPLE_LIMIT <= self.y2 <= SAMPLE_LIMIT
    }

    /// The output the filter produces for input `x`: the direct-form
    /// difference equation, rescaled and saturated to the sample range.
    pub open spec fn response(self, x: int) -> int {
        clamp_sample_spec(
            fp_rescale(
                self.b0 * x + self.b1 * self.x1 + self.b2 * self.x2 - self.a1 * self.y1 - self.a2
                    * self.y2,
            ),
        )
    }

    /// The filter state after feeding input `x`.
    pub open spec fn stepped(self, x: i64) -> Biquad {
        Biquad {
            x1: x,
            x2: self.x1,
            y1: self.response(x as int) as i64,
            y2: self.y1,
            ..self
        }
    }

    /// A filter with the given coefficients and a quiet history.
    pub fn new(b0: i64, b1: i64, b2: i64, a1: i64, a2: i64) -> (f: Biquad)
        requires
            -COEF_LIMIT <= b0 <= COEF_LIMIT,
            -COEF_LIMIT <= b1 <= COEF_LIMIT,
            -COEF_LIMIT <= b2 <= COEF_LIMIT,
            -COEF_LIMIT <= a1 <= COEF_LIMIT,
            -COEF_LIMIT <= a2 <= COEF_LIMIT,
        ensures
            f == (Biquad { b0, b1, b2, a1, a2, x1: 0, x2: 0, y1: 0, y2: 0 }),
            f.wf(),
    {
        Biquad { b0, b1, b2, a1, a2, x1: 0, x2: 0, y1: 0, y2: 0 }
    }

    /// Feeds one sample through the filter, returning the filtered sample and
    /// advancing the running state.
    pub fn feed(&mut self, x: i64) -> (y: i64)
        requires
            old(self).wf(),
            -SAMPLE_LIMIT <= x <= SAMPLE_LIMIT,
        ensures
            y == old(self).response(x as int),
            *final(self) == old(self).stepped(x),
            final(self).wf(),
            -SAMPLE_LIMIT <= y <= SAMPLE_LIMIT,
    {
        proof {
            lemma_biquad_sum_bounds(*self, x as int);
        }
        let acc: i64 = self.b0 * x + self.b1 * self.x1 + self.b2 * self.x2 - self.a1 * self.y1
            - self.a2 * self.y2;
        let y = clamp_sample(fp_div(acc));
        self.x2 = self.x1;
        self.x1 = x;
        self.y2 = self.y1;
        self.y1 = y;
        y
    }
}

/// Each product of a coefficient and a state value, and their sum, stays far
/// inside the machine range.
proof fn lemma_biquad_sum_bounds(f: Biquad, x: int)
    requires
        f.wf(),
        -SAMPLE_LIMIT <= x <= SAMPLE_LIMIT,
    ensures
        -COEF_LIMIT * SAMPLE_LIMIT <= f.b0 * x <= COEF_LIMIT * SAMPLE_LIMIT,
        -COEF_LIMIT * SAMPLE_LIMIT <= f.b1 * f.x1 <= COEF_LIMIT * SAMPLE_LIMIT,
        -COEF_LIMIT * SAMPLE_LIMIT <= f.b2 * f.x2 <= COEF_LIMIT * SAMPLE_LIMIT,
        -COEF_LIMIT * SAMPLE_LIMIT <= f.a1 * f.y1 <= COEF_LIMIT * SAMPLE_LIMIT,
        -COEF_LIMIT * SAMPLE_LIMIT <= f.a2 * f.y2 <= COEF_LIMIT * SAMPLE_LIMIT,
{
    assert(-COEF_LIMIT * SAMPLE_LIMIT <= f.b0 * x <= COEF_LIMIT * SAMPLE_LIMIT
        && -COEF_LIMIT * SAMPLE_LIMIT <= f.b1 * f.x1 <= COEF_LIMIT * SAMPLE_LIMIT
        && -COEF_LIMIT * SAMPLE_LIMIT <= f.b2 * f.x2 <= COEF_LIMIT * SAMPLE_LIMIT
        && -COEF_LIMIT * SAMPLE_LIMIT <= f.a1 * f.y1 <= COEF_LIMIT * SAMPLE_LIMIT
        && -COEF_LIMIT * SAMPLE_LIMIT <= f.a2 * f.y2 <= COEF_LIMIT * SAMPLE_LIMIT)
        by (nonlinear_arith)
        requires f.wf() && -SAMPLE_LIMIT <= x <= SAMPLE_LIMIT;
}

/// A stereo input filter: one biquad per channel, each with its own running
/// state that persists from frame to frame.
#[derive(Clone, Copy, Debug, PartialEq, Eq, Structural)]
pub struct InputFilter {
    pub left: Biquad,
    pub right: Biquad,
}

impl InputFilter {
    /// Both channels well-formed.
    pub open spec fn wf(self) -> bool {
        self.left.wf() && self.right.wf()
    }

    /// An input filter that runs the given biquad on each channel.
    pub fn new(biquad: Biquad) -> (f: InputFilter)
        ensures
            f == (InputFilter { left: biquad, right: biquad }),
    {
        InputFilter { left: biquad, right: biquad }
    }

    /// The stereo output for a stereo input.
    pub open spec fn response(self, l: int, r: int) -> (int, int) {
        (self.left.response(l), self.right.response(r))
    }

    /// The filter state after feeding a stereo input.
    pub open spec fn stepped(self, l: i64, r: i64) -> InputFilter {
        InputFilter { left: self.left.stepped(l), right: self.right.stepped(r) }
    }

    /// Feeds one stereo sample through the two channels.
    pub fn feed(&mut self, left_sample: i64, right_sample: i64) -> (y: (i64, i64))
        requires
            old(self).wf(),
            -SAMPLE_LIMIT <= left_sample <= SAMPLE_LIMIT,
            -SAMPLE_LIMIT <= right_sample <= SAMPLE_LIMIT,
        ensures
            (y.0 as int, y.1 as int) == old(self).response(left_sample as int, right_sample as int),
            *final(self) == old(self).stepped(left_sample, right_sample),
            final(self).wf(),
            -SAMPLE_LIMIT <= y.0 <= SAMPLE_LIMIT,
            -SAMPLE_LIMIT <= y.1 <= SAMPLE_LIMIT,
    {
        (self.left.feed(left_sample), self.right.feed(right_sample))
    }
}

} // verus!
