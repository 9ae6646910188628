//! Vesting curves: how much of a payment is still unvested at a given time.
//! The curve is held as plain values; validation, range and evaluation are
//! done by `wynd_utils::Curve`.
use vstd::prelude::*;

verus! {

/// A curve `y = f(x)` over time `x` (seconds).  `SaturatingLinear` is
/// `min_y` before `min_x`, `max_y` after `max_x` and linear in between;
/// `PiecewiseLinear` generalises it to several `(x, y)` steps.
#[derive(Clone, Debug, PartialEq, Eq)]
pub enum VestingCurve {
    Constant { y: u128 },
    SaturatingLinear { min_x: u64, min_y: u128, max_x: u64, max_y: u128 },
    PiecewiseLinear { steps: Vec<(u64, u128)> },
}

/// The mathematical value of a curve.
pub enum CurveModel {
    Constant { y: u128 },
    SaturatingLinear { min_x: u64, min_y: u128, max_x: u64, max_y: u128 },
    PiecewiseLinear { steps: Seq<(u64, u128)> },
}

impl View for VestingCurve {
    type V = CurveModel;

    open spec fn view(&self) -> CurveModel {
        match self {
            VestingCurve::Constant { y } => CurveModel::Constant { y: *y },
            VestingCurve::SaturatingLinear { min_x, min_y, max_x, max_y } => CurveModel::SaturatingLinear {
                min_x: *min_x,
                min_y: *min_y,
                max_x: *max_x,
                max_y: *max_y,
            },
            VestingCurve::PiecewiseLinear { steps } => CurveModel::PiecewiseLinear { steps: steps@ },
        }
    }
}

/// Why a curve does not fit what was asked of it.
#[derive(Clone, Copy, Debug, PartialEq, Eq, Structural)]
pub enum CurveError {
    NotMonotonic,
    MonotonicIncreasing,
    MonotonicDecreasing,
    PointsOutOfOrder,
    MissingSteps,
}

/// Every step lies strictly after the previous one, and the first after time 0.
pub open spec fn steps_in_order(steps: Seq<(u64, u128)>) -> bool {
    forall|i: int|
        0 <= i < steps.len() ==> #[trigger] steps[i].0 > (if i == 0 {
            0
        } else {
            steps[i - 1].0 as int
        })
}

/// Some step rises above the one before it.
pub open spec fn steps_rise(steps: Seq<(u64, u128)>) -> bool {
    exists|i: int| 0 <= i < steps.len() - 1 && #[trigger] steps[i + 1].1 > steps[i].1
}

/// Some step falls below the one before it.
pub open spec fn steps_fall(steps: Seq<(u64, u128)>) -> bool {
    exists|i: int| 0 <= i < steps.len() - 1 && #[trigger] steps[i + 1].1 < steps[i].1
}

/// The verdict of `validate_monotonic_decreasing`: the curve must be well
/// formed and never rise.
pub open spec fn decreasing_check(c: CurveModel) -> Result<(), CurveError> {
    match c {
        CurveModel::Constant { .. } => Ok(()),
        CurveModel::SaturatingLinear { min_x, min_y, max_x, max_y } => if max_x <= min_x {
            Err(CurveError::PointsOutOfOrder)
        } else if max_y > min_y {
            Err(CurveError::MonotonicIncreasing)
        } else {
            Ok(())
        },
        CurveModel::PiecewiseLinear { steps } => if steps.len() == 0 {
            Err(CurveError::MissingSteps)
        } else if !steps_in_order(steps) {
            Err(CurveError::PointsOutOfOrder)
        } else if steps_rise(steps) && steps_fall(steps) {
            Err(CurveError::NotMonotonic)
        } else if steps_rise(steps) {
            Err(CurveError::MonotonicIncreasing)
        } else {
            Ok(())
        },
    }
}

/// The lowest and highest values of the curve's defining points.
pub open spec fn range_spec(c: CurveModel, r: (u128, u128)) -> bool {
    match c {
        CurveModel::Constant { y } => r == (y, y),
        CurveModel::SaturatingLinear { min_y, max_y, .. } => r == (if max_y > min_y {
            (min_y, max_y)
        } else {
            (max_y, min_y)
        }),
        CurveModel::PiecewiseLinear { steps } => {
            &&& exists|i: int| 0 <= i < steps.len() && #[trigger] steps[i].1 == r.0
            &&& exists|i: int| 0 <= i < steps.len() && #[trigger] steps[i].1 == r.1
            &&& forall|i: int| 0 <= i < steps.len() ==> r.0 <= #[trigger] steps[i].1 <= r.1
        },
    }
}

/// `range` is defined unless the curve is piecewise with no step.
pub open spec fn has_range(c: CurveModel) -> bool {
    match c {
        CurveModel::PiecewiseLinear { steps } => steps.len() > 0,
        _ => true,
    }
}

/// The index of the step that a piecewise evaluation at `x` ends on, when
/// the search starts at step `j`: the first step after `x`, or the last one.
pub open spec fn next_step(steps: Seq<(u64, u128)>, x: u64, j: int) -> int
    decreases steps.len() - j,
{
    if j >= steps.len() - 1 || x < steps[j].0 {
        j
    } else {
        next_step(steps, x, j + 1)
    }
}

pub open spec fn abs_diff(a: u128, b: u128) -> int {
    if a > b {
        a - b
    } else {
        b - a
    }
}

/// Evaluating the curve at `x` interpolates between two points without the
/// intermediate product leaving the `u128` range, and never divides by zero.
pub open spec fn evaluates_at(c: CurveModel, x: u64) -> bool {
    match c {
        CurveModel::Constant { .. } => true,
        CurveModel::SaturatingLinear { min_x, min_y, max_x, max_y } => (min_x <= x <= max_x)
            ==> (min_x < max_x && abs_diff(max_y, min_y) * (x - min_x) <= u128::MAX),
        CurveModel::PiecewiseLinear { steps } => steps.len() > 0 && {
            let j = next_step(steps, x, 0);
            (0 < j && x != steps[j - 1].0 && x < steps[j].0) ==> abs_diff(steps[j].1, steps[j - 1].1)
                * (x - steps[j - 1].0) <= u128::MAX
        },
    }
}

/// The point at `x` on the line from `(x0, y0)` to `(x1, y1)`, rounded
/// towards `y0`.
pub open spec fn interpolate(x0: u64, y0: u128, x1: u64, y1: u128, x: u64) -> int {
    if y1 > y0 {
        y0 + (y1 - y0) * (x - x0) / (x1 - x0)
    } else {
        y0 - (y0 - y1) * (x - x0) / (x1 - x0)
    }
}

/// The value of a piecewise curve at `x`: the first step's value before the
/// first step, the last step's after the last one, a step's value on it, and
/// the line between the two steps around `x` in between.
pub open spec fn piecewise_value(steps: Seq<(u64, u128)>, x: u64) -> int {
    let j = next_step(steps, x, 0);
    if j == 0 {
        steps[0].1 as int
    } else if x == steps[j - 1].0 {
        steps[j - 1].1 as int
    } else if x >= steps[j].0 {
        steps[j].1 as int
    } else {
        interpolate(steps[j - 1].0, steps[j - 1].1, steps[j].0, steps[j].1, x)
    }
}

/// The value of the curve at time `x`.
pub open spec fn curve_value(c: CurveModel, x: u64) -> int {
    match c {
        CurveModel::Constant { y } => y as int,
        CurveModel::SaturatingLinear { min_x, min_y, max_x, max_y } => if x < min_x {
            min_y as int
        } else if x > max_x {
            max_y as int
        } else {
            interpolate(min_x, min_y, max_x, max_y, x)
        },
        CurveModel::PiecewiseLinear { steps } => piecewise_value(steps, x),
    }
}

/// The `wynd_utils::Curve` built from the same points as a curve.
pub uninterp spec fn wynd_curve_of(c: CurveModel) -> wynd_utils::Curve;

/// Calls `wynd_utils::Curve::validate_monotonic_decreasing` on the wynd form
/// of `c`; its source checks the points' order and that no step rises, as
/// `decreasing_check` says.
#[verifier::external_body]
pub(crate) fn wynd_validate_monotonic_decreasing(c: &VestingCurve, w: &wynd_utils::Curve) -> (r: Result<(), CurveError>)
    requires
        *w == wynd_curve_of(c@),
    ensures
        r == decreasing_check(c@),
{
    w.validate_monotonic_decreasing().map_err(|e| match e {
        wynd_utils::CurveError::NotMonotonic => CurveError::NotMonotonic,
        wynd_utils::CurveError::MonotonicIncreasing => CurveError::MonotonicIncreasing,
        wynd_utils::CurveError::MonotonicDecreasing => CurveError::MonotonicDecreasing,
        wynd_utils::CurveError::PointsOutOfOrder => CurveError::PointsOutOfOrder,
        wynd_utils::CurveError::MissingSteps => CurveError::MissingSteps,
    })
}

/// Calls `wynd_utils::Curve::range` on the wynd form of `c`: the lowest and
/// highest `y` of the curve's points.  It panics on a piecewise curve
/// without steps.
#[verifier::external_body]
pub(crate) fn wynd_range(c: &VestingCurve, w: &wynd_utils::Curve) -> (r: (u128, u128))
    requires
        *w == wynd_curve_of(c@),
        has_range(c@),
    ensures
        range_spec(c@, r),
{
    w.range()
}

/// Calls `wynd_utils::Curve::value` on the wynd form of `c`, whose source
/// evaluates the curve at `x` as `curve_value` states: saturating outside
/// the curve's points, linear with the product taken before the division in
/// between.  It panics unless `evaluates_at`.
#[verifier::external_body]
pub(crate) fn wynd_value(c: &VestingCurve, w: &wynd_utils::Curve, x: u64) -> (r: u128)
    requires
        *w == wynd_curve_of(c@),
        evaluates_at(c@, x),
    ensures
        r == curve_value(c@, x),
{
    w.value(x).u128()
}

impl VestingCurve {
    /// Builds the `wynd_utils::Curve` with the same points.
    #[verifier::external_body]
    pub(crate) fn to_wynd(&self) -> (r: wynd_utils::Curve)
        ensures
            r == wynd_curve_of(self@),
    {
        match self {
            VestingCurve::Constant { y } => wynd_utils::Curve::constant(*y),
            VestingCurve::SaturatingLinear { min_x, min_y, max_x, max_y } =>
                wynd_utils::Curve::saturating_linear((*min_x, *min_y), (*max_x, *max_y)),
            VestingCurve::PiecewiseLinear { steps } => wynd_utils::Curve::PiecewiseLinear(wynd_utils::PiecewiseLinear {
                steps: steps.iter().map(|(x, y)| (*x, cosmwasm_std::Uint128::new(*y))).collect(),
            }),
        }
    }

    /// Checks that the curve is well formed and never rises.
    pub fn validate_monotonic_decreasing(&self) -> (r: Result<(), CurveError>)
        ensures
            r == decreasing_check(self@),
    {
        let w = self.to_wynd();
        wynd_validate_monotonic_decreasing(self, &w)
    }

    /// The lowest and highest `y` of the curve's points.
    pub fn range(&self) -> (r: (u128, u128))
        requires
            has_range(self@),
        ensures
            range_spec(self@, r),
    {
        let w = self.to_wynd();
        wynd_range(self, &w)
    }

    /// The curve's value at time `x`.
    pub fn value(&self, x: u64) -> (r: u128)
        requires
            evaluates_at(self@, x),
        ensures
            r == curve_value(self@, x),
    {
        let w = self.to_wynd();
        wynd_value(self, &w, x)
    }

    /// A curve that falls linearly from `(min_x, min_y)` to `(max_x, max_y)`.
    pub fn saturating_linear(low: (u64, u128), high: (u64, u128)) -> (c: VestingCurve)
        ensures
            c@ == (CurveModel::SaturatingLinear {
                min_x: low.0,
                min_y: low.1,
                max_x: high.0,
                max_y: high.1,
            }),
    {
        VestingCurve::SaturatingLinear { min_x: low.0, min_y: low.1, max_x: high.0, max_y: high.1 }
    }
}

/// The wynd curve type, held opaque.
#[verifier::external_type_specification]
#[verifier::external_body]
pub struct ExWyndCurve(wynd_utils::Curve);

/// Where the search for the step around `x` ends, starting at step `j`:
/// past every step it skipped, and before the step it ends on unless that
/// is the last one.
pub proof fn lemma_next_step(steps: Seq<(u64, u128)>, x: u64, j: int)
    requires
        0 <= j < steps.len(),
    ensures
        j <= next_step(steps, x, j) < steps.len(),
        forall|k: int| j <= k < next_step(steps, x, j) ==> x >= #[trigger] steps[k].0,
        next_step(steps, x, j) < steps.len() - 1 ==> x < steps[next_step(steps, x, j)].0,
    decreases steps.len() - j,
{
    if !(j >= steps.len() - 1 || x < steps[j].0) {
        lemma_next_step(steps, x, j + 1);
    }
}

/// `d * a / w` grows with `a`, from 0 up to `d` at `a == w`.
pub proof fn lemma_scaled_fraction(d: int, a: int, b: int, w: int)
    requires
        0 <= d,
        0 <= a <= b <= w,
        0 < w,
    ensures
        0 <= d * a / w <= d * b / w <= d,
{
    vstd::arithmetic::mul::lemma_mul_inequality(0, a, d);
    vstd::arithmetic::mul::lemma_mul_inequality(a, b, d);
    vstd::arithmetic::mul::lemma_mul_inequality(b, w, d);
    vstd::arithmetic::mul::lemma_mul_is_commutative(a, d);
    vstd::arithmetic::mul::lemma_mul_is_commutative(b, d);
    vstd::arithmetic::mul::lemma_mul_is_commutative(w, d);
    vstd::arithmetic::div_mod::lemma_div_pos_is_pos(d * a, w);
    vstd::arithmetic::div_mod::lemma_div_is_ordered(d * a, d * b, w);
    vstd::arithmetic::div_mod::lemma_div_is_ordered(d * b, d * w, w);
    vstd::arithmetic::div_mod::lemma_div_multiples_vanish(d, w);
}

/// A point of the line between two points lies between their values.
pub proof fn lemma_interpolate_between(x0: u64, y0: u128, x1: u64, y1: u128, x: u64)
    requires
        x0 <= x <= x1,
        x0 < x1,
    ensures
        y1 > y0 ==> y0 <= interpolate(x0, y0, x1, y1, x) <= y1,
        y1 <= y0 ==> y1 <= interpolate(x0, y0, x1, y1, x) <= y0,
{
    let d = if y1 > y0 {
        y1 - y0
    } else {
        y0 - y1
    };
    lemma_scaled_fraction(d, x - x0, x1 - x0, x1 - x0);
}

/// On a falling line, a later point is never higher.
pub proof fn lemma_interpolate_falls(x0: u64, y0: u128, x1: u64, y1: u128, xa: u64, xb: u64)
    requires
        y1 <= y0,
        x0 <= xa <= xb <= x1,
        x0 < x1,
    ensures
        interpolate(x0, y0, x1, y1, xb) <= interpolate(x0, y0, x1, y1, xa),
{
    lemma_scaled_fraction((y0 - y1) as int, xa - x0, xb - x0, x1 - x0);
}

/// Law: a curve's value lies within its range, the lowest and highest
/// value of its points.
pub proof fn lemma_value_in_range(c: CurveModel, x: u64, lo: u128, hi: u128)
    requires
        evaluates_at(c, x),
        range_spec(c, (lo, hi)),
    ensures
        lo <= curve_value(c, x) <= hi,
{
    match c {
        CurveModel::Constant { .. } => {},
        CurveModel::SaturatingLinear { min_x, min_y, max_x, max_y } => {
            if min_x <= x <= max_x {
                lemma_interpolate_between(min_x, min_y, max_x, max_y, x);
            }
        },
        CurveModel::PiecewiseLinear { steps } => {
            let j = next_step(steps, x, 0);
            lemma_next_step(steps, x, 0);
            assert(lo <= steps[0].1 <= hi);
            if j > 0 {
                assert(x >= steps[j - 1].0);
                assert(lo <= steps[j - 1].1 <= hi);
                assert(lo <= steps[j].1 <= hi);
                if x != steps[j - 1].0 && x < steps[j].0 {
                    lemma_interpolate_between(steps[j - 1].0, steps[j - 1].1, steps[j].0, steps[j].1, x);
                }
            }
        },
    }
}

/// The steps' values never rise, from any step to any later one.
pub proof fn lemma_steps_fall(steps: Seq<(u64, u128)>, a: int, b: int)
    requires
        !steps_rise(steps),
        0 <= a <= b < steps.len(),
    ensures
        steps[b].1 <= steps[a].1,
    decreases b - a,
{
    if a < b {
        lemma_steps_fall(steps, a, b - 1);
        assert(!(steps[(b - 1) + 1].1 > steps[b - 1].1));
    }
}

/// The value of a falling piecewise curve lies between the values of the
/// two steps around `x`.
proof fn lemma_piecewise_around(steps: Seq<(u64, u128)>, x: u64)
    requires
        steps.len() > 0,
        steps_in_order(steps),
        !steps_rise(steps),
    ensures
        next_step(steps, x, 0) == 0 ==> piecewise_value(steps, x) == steps[0].1,
        next_step(steps, x, 0) > 0 ==> steps[next_step(steps, x, 0)].1 <= piecewise_value(steps, x)
            <= steps[next_step(steps, x, 0) - 1].1,
{
    let j = next_step(steps, x, 0);
    lemma_next_step(steps, x, 0);
    if j > 0 {
        lemma_steps_fall(steps, j - 1, j);
        assert(x >= steps[j - 1].0);
        if x != steps[j - 1].0 && x < steps[j].0 {
            lemma_interpolate_between(steps[j - 1].0, steps[j - 1].1, steps[j].0, steps[j].1, x);
        }
    }
}

/// Law: a curve that passes `validate_monotonic_decreasing` never rises:
/// its value at a later time is at most its value at an earlier one.
pub proof fn lemma_value_nonincreasing(c: CurveModel, x1: u64, x2: u64)
    requires
        decreasing_check(c) is Ok,
        x1 <= x2,
    ensures
        curve_value(c, x2) <= curve_value(c, x1),
{
    match c {
        CurveModel::Constant { .. } => {},
        CurveModel::SaturatingLinear { min_x, min_y, max_x, max_y } => {
            if min_x <= x2 <= max_x {
                lemma_interpolate_between(min_x, min_y, max_x, max_y, x2);
            }
            if min_x <= x1 <= max_x {
                lemma_interpolate_between(min_x, min_y, max_x, max_y, x1);
                if x2 <= max_x {
                    lemma_interpolate_falls(min_x, min_y, max_x, max_y, x1, x2);
                }
            }
        },
        CurveModel::PiecewiseLinear { steps } => {
            let j1 = next_step(steps, x1, 0);
            let j2 = next_step(steps, x2, 0);
            lemma_next_step(steps, x1, 0);
            lemma_next_step(steps, x2, 0);
            lemma_piecewise_around(steps, x1);
            lemma_piecewise_around(steps, x2);
            if j1 > j2 {
                assert(x1 >= steps[j2].0);
                assert(false);
            }
            if j1 < j2 {
                lemma_steps_fall(steps, j1, j2 - 1);
            } else if j1 > 0 {
                let j = j1;
                assert(x1 >= steps[j - 1].0);
                if x1 != steps[j - 1].0 && x1 < steps[j].0 && x2 < steps[j].0 {
                    lemma_interpolate_falls(steps[j - 1].0, steps[j - 1].1, steps[j].0, steps[j].1, x1, x2);
                }
            }
        },
    }
}

/// Law: a piecewise curve whose steps come one after the other in time,
/// after time 0, and never rise passes `validate_monotonic_decreasing`;
/// flat stretches (cliffs, plateaus) are allowed.
pub proof fn lemma_falling_steps_pass(steps: Seq<(u64, u128)>)
    requires
        steps.len() > 0,
        steps[0].0 > 0,
        forall|i: int| 0 < i < steps.len() ==> #[trigger] steps[i].0 > steps[i - 1].0,
        forall|i: int| 0 < i < steps.len() ==> #[trigger] steps[i].1 <= steps[i - 1].1,
    ensures
        decreasing_check(CurveModel::PiecewiseLinear { steps }) is Ok,
{
    assert forall|i: int| 0 <= i < steps.len() implies #[trigger] steps[i].0 > (if i == 0 {
        0
    } else {
        steps[i - 1].0 as int
    }) by {
        if i > 0 {
            assert(steps[i].0 > steps[i - 1].0);
        }
    }
    assert(!steps_rise(steps)) by {
        if steps_rise(steps) {
            let i = choose|i: int| 0 <= i < steps.len() - 1 && #[trigger] steps[i + 1].1 > steps[i].1;
            assert(steps[i + 1].1 <= steps[(i + 1) - 1].1);
        }
    }
}

} // verus!
