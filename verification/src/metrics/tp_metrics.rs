//! True-positive values: what a matched pair contributes to the curve.

use vstd::prelude::*;

verus! {

use crate::math::{FIX_ONE, HALF_TURN};
use crate::object::DynamicObject;
use crate::result::PerceptionResult;

/// A strategy for the value a true positive contributes to the running
/// sum of the precision-recall curve.
pub trait TPMetrics: Sized {
    /// The contributed value, as a fraction of `FIX_ONE`.
    spec fn spec_value(&self, r: PerceptionResult) -> int;

    /// Returns the contributed value of `result`.
    fn get_value(&self, result: &PerceptionResult) -> (v: i64)
        requires
            result.wf(),
        ensures
            v == self.spec_value(*result),
            0 <= v <= FIX_ONE,
    ;
}

/// The plain average-precision value: a full `FIX_ONE` for any result
/// with a ground truth, zero for a false positive.
pub open spec fn spec_tp_value_ap(r: PerceptionResult) -> int {
    match r.ground_truth_object {
        Some(_) => FIX_ONE as int,
        None => 0,
    }
}

/// The absolute heading difference wrapped into `[0, HALF_TURN]`:
/// a raw difference beyond half a turn is replaced by its complement.
pub open spec fn spec_heading_error(e_yaw: int, g_yaw: int) -> int {
    let diff = if e_yaw - g_yaw >= 0 {
        e_yaw - g_yaw
    } else {
        g_yaw - e_yaw
    };
    if diff > HALF_TURN {
        2 * HALF_TURN - diff
    } else {
        diff
    }
}

/// The heading-weighted value `1 - err / pi`, scaled by `FIX_ONE` and
/// clamped into `[0, FIX_ONE]`.
pub open spec fn spec_aph_weight(err: int) -> int {
    let v = (FIX_ONE * (HALF_TURN - err)) / (HALF_TURN as int);
    if v < 0 {
        0
    } else if v > FIX_ONE {
        FIX_ONE as int
    } else {
        v
    }
}

/// The heading-weighted value of a result: the APH weight of the wrapped
/// heading error between estimation and ground truth.
pub open spec fn spec_tp_value_aph(r: PerceptionResult) -> int {
    match r.ground_truth_object {
        Some(g) => spec_aph_weight(
            spec_heading_error(
                r.estimated_object.orientation.yaw as int,
                g.orientation.yaw as int,
            ),
        ),
        None => 0,
    }
}

/// Heading-wrap law: headings that differ by exactly half a turn (pi)
/// give a heading-weighted value of zero, and identical headings give the
/// full value.
pub proof fn lemma_aph_heading_wrap(r: PerceptionResult, g: DynamicObject)
    requires
        r.ground_truth_object == Some(g),
    ensures
        spec_heading_error(r.estimated_object.orientation.yaw as int, g.orientation.yaw as int)
            == HALF_TURN ==> spec_tp_value_aph(r) == 0,
        spec_heading_error(r.estimated_object.orientation.yaw as int, g.orientation.yaw as int)
            == 0 ==> spec_tp_value_aph(r) == FIX_ONE,
{
    let err = spec_heading_error(
        r.estimated_object.orientation.yaw as int,
        g.orientation.yaw as int,
    );
    if err == HALF_TURN {
        assert(FIX_ONE * (HALF_TURN - HALF_TURN as int) == 0) by (nonlinear_arith);
        vstd::arithmetic::div_mod::lemma_div_of0(HALF_TURN as int);
    }
    if err == 0 {
        assert(FIX_ONE * (HALF_TURN - 0) == HALF_TURN * (FIX_ONE as int)) by (nonlinear_arith);
        vstd::arithmetic::div_mod::lemma_div_multiples_vanish(FIX_ONE as int, HALF_TURN as int);
    }
}

/// The plain average-precision strategy.
#[derive(Debug)]
pub struct TPMetricsAP;

impl TPMetrics for TPMetricsAP {
    open spec fn spec_value(&self, r: PerceptionResult) -> int {
        spec_tp_value_ap(r)
    }

    fn get_value(&self, result: &PerceptionResult) -> (v: i64) {
        match &result.ground_truth_object {
            Some(_) => FIX_ONE,
            None => 0,
        }
    }
}

/// The heading-weighted strategy.
#[derive(Debug)]
pub struct TPMetricsAPH;

impl TPMetrics for TPMetricsAPH {
    open spec fn spec_value(&self, r: PerceptionResult) -> int {
        spec_tp_value_aph(r)
    }

    fn get_value(&self, result: &PerceptionResult) -> (v: i64) {
        match &result.ground_truth_object {
            Some(gt) => {
                let e_yaw = result.estimated_object.orientation.yaw;
                let g_yaw = gt.orientation.yaw;
                let raw: i64 = if e_yaw >= g_yaw {
                    e_yaw - g_yaw
                } else {
                    g_yaw - e_yaw
                };
                let err: i64 = if raw > HALF_TURN {
                    2 * HALF_TURN - raw
                } else {
                    raw
                };
                proof {
                    assert(-4_000_000_000_000 <= FIX_ONE as int * ((HALF_TURN - err) as int)
                        <= 4_000_000_000_000) by (nonlinear_arith)
                        requires
                            -HALF_TURN <= HALF_TURN - err <= 3 * HALF_TURN,
                            FIX_ONE == 1_000_000,
                            HALF_TURN == 1_000_000,
                    ;
                }
                let num: i128 = FIX_ONE as i128 * (HALF_TURN - err) as i128;
                let v: i128 = crate::math::div_floor_i128(num, HALF_TURN as i128);
                proof {
                    vstd::arithmetic::div_mod::lemma_div_is_ordered(
                        -4_000_000_000_000,
                        num as int,
                        HALF_TURN as int,
                    );
                    vstd::arithmetic::div_mod::lemma_div_is_ordered(
                        num as int,
                        4_000_000_000_000,
                        HALF_TURN as int,
                    );
                }
                if v < 0 {
                    0
                } else if v > FIX_ONE as i128 {
                    FIX_ONE
                } else {
                    v as i64
                }
            },
            None => 0,
        }
    }
}

} // verus!
