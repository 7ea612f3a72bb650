//! Per-label precision-recall curves and their average precision.

use vstd::prelude::*;

verus! {

use crate::math::{FIX_ONE, div_floor_i128};
use crate::matching::MatchingMode;
use crate::result::PerceptionResult;
use crate::result::wf_results;
use crate::metrics::tp_metrics::TPMetrics;

/// Largest admissible number of accumulated results for one label: keeps
/// every fixed-point sum of the curve within `i64`.
pub const MAX_RESULTS_PER_LABEL: u64 = 1_000_000_000_000;

/// The running true-positive sum (as a fraction of `FIX_ONE`) over the
/// first `k` results: a matched result adds its true-positive value, any
/// other result adds nothing.
pub open spec fn spec_tp_cum<T: TPMetrics>(
    m: T,
    results: Seq<PerceptionResult>,
    mode: MatchingMode,
    thr: int,
    k: int,
) -> int
    decreases k,
{
    if k <= 0 {
        0
    } else {
        spec_tp_cum(m, results, mode, thr, k - 1) + if results[k - 1].spec_result_correct(
            mode,
            thr,
        ) {
            m.spec_value(results[k - 1])
        } else {
            0
        }
    }
}

/// The running false-positive count over the first `k` results: any
/// result that is not matched counts one.
pub open spec fn spec_fp_cum(
    results: Seq<PerceptionResult>,
    mode: MatchingMode,
    thr: int,
    k: int,
) -> int
    decreases k,
{
    if k <= 0 {
        0
    } else {
        spec_fp_cum(results, mode, thr, k - 1) + if results[k - 1].spec_result_correct(
            mode,
            thr,
        ) {
            0int
        } else {
            1int
        }
    }
}

/// The precision sequence: entry `i` is the true-positive sum after
/// `i + 1` results over the number of results seen, as a fraction of
/// `FIX_ONE`.
pub open spec fn spec_precisions<T: TPMetrics>(
    m: T,
    results: Seq<PerceptionResult>,
    mode: MatchingMode,
    thr: int,
) -> Seq<int> {
    Seq::new(results.len(), |i: int| spec_tp_cum(m, results, mode, thr, i + 1) / (i + 1))
}

/// The recall sequence: entry `i` is the true-positive sum after `i + 1`
/// results over the ground-truth count, as a fraction of `FIX_ONE`; zero
/// throughout when there is no ground truth.
pub open spec fn spec_recalls<T: TPMetrics>(
    m: T,
    results: Seq<PerceptionResult>,
    mode: MatchingMode,
    thr: int,
    gt: int,
) -> Seq<int> {
    Seq::new(
        results.len(),
        |i: int|
            if gt > 0 {
                spec_tp_cum(m, results, mode, thr, i + 1) / gt
            } else {
                0
            },
    )
}

/// The precision envelope after scanning `t` points backward from the
/// last one: the scan starts from the last (precision, recall) pair and
/// keeps a point only when its precision exceeds the precision kept last.
pub open spec fn spec_envelope_steps(ps: Seq<int>, rs: Seq<int>, t: int) -> Seq<(int, int)>
    decreases t,
{
    let n = ps.len() as int;
    if t <= 0 {
        seq![(ps[n - 1], rs[n - 1])]
    } else {
        let prev = spec_envelope_steps(ps, rs, t - 1);
        let i = n - 1 - t;
        if ps[i] > prev.last().0 {
            prev.push((ps[i], rs[i]))
        } else {
            prev
        }
    }
}

/// The full precision envelope of a non-empty curve.
pub open spec fn spec_envelope(ps: Seq<int>, rs: Seq<int>) -> Seq<(int, int)> {
    spec_envelope_steps(ps, rs, ps.len() - 1)
}

/// The integral of the envelope over its first `k` steps: each kept point
/// contributes its precision times the recall decrease to its successor.
pub open spec fn spec_env_sum(env: Seq<(int, int)>, k: int) -> int
    decreases k,
{
    if k <= 0 {
        0
    } else {
        spec_env_sum(env, k - 1) + env[k - 1].0 * (env[k - 1].1 - env[k].1)
    }
}

/// The average precision of one label's curve, as a fraction of
/// `FIX_ONE`.  With no results and no ground truths the value is
/// undefined (`None`); with no results but some ground truths it is zero.
pub open spec fn spec_calculate_ap<T: TPMetrics>(
    m: T,
    results: Seq<PerceptionResult>,
    gt: int,
    mode: MatchingMode,
    thr: int,
) -> Option<int> {
    if results.len() == 0 {
        if gt == 0 {
            None
        } else {
            Some(0)
        }
    } else {
        let env = spec_envelope(
            spec_precisions(m, results, mode, thr),
            spec_recalls(m, results, mode, thr, gt),
        );
        Some(spec_env_sum(env, env.len() - 1) / (FIX_ONE as int))
    }
}

/// Whether a computed optional score equals a specified one.
pub open spec fn spec_matches_ap(x: Option<i64>, y: Option<int>) -> bool {
    match (x, y) {
        (Option::None, Option::None) => true,
        (Option::Some(a), Option::Some(b)) => a == b,
        _ => false,
    }
}

/// The running true-positive sum never decreases.
proof fn lemma_tp_cum_monotone<T: TPMetrics>(
    m: T,
    results: Seq<PerceptionResult>,
    mode: MatchingMode,
    thr: int,
    k1: int,
    k2: int,
)
    requires
        k1 <= k2,
        forall|r: PerceptionResult| 0 <= #[trigger] m.spec_value(r),
    ensures
        spec_tp_cum(m, results, mode, thr, k1) <= spec_tp_cum(m, results, mode, thr, k2),
    decreases k2 - k1,
{
    if k1 < k2 {
        lemma_tp_cum_monotone(m, results, mode, thr, k1, k2 - 1);
    }
}

/// Calculates average precision for one label and one matching mode.
#[derive(Debug)]
pub struct Ap {
    /// The label's results, in original assignment order.
    pub results: Vec<PerceptionResult>,
    /// How many ground truths the label has.
    pub num_ground_truth: usize,
}

impl Ap {
    /// Remember one label's result list and ground-truth count.
    pub fn new(results: &Vec<PerceptionResult>, num_ground_truth: &usize) -> (r: Ap)
        ensures
            r.results@ == results@,
            r.num_ground_truth == *num_ground_truth,
    {
        let mut copied: Vec<PerceptionResult> = Vec::new();
        let n = results.len();
        let mut k: usize = 0;
        while k < n
            invariant
                n == results@.len(),
                0 <= k <= n,
                copied@ == results@.subrange(0, k as int),
            decreases n - k,
        {
            copied.push(results[k]);
            k = k + 1;
        }
        proof {
            assert(copied@ =~= results@);
        }
        Ap { results: copied, num_ground_truth: *num_ground_truth }
    }

    /// Compute the running true-positive sums and false-positive counts.
    pub fn calculate_tp_fp<T: TPMetrics>(
        &self,
        tp_metrics: T,
        matching_mode: &MatchingMode,
        threshold: &i64,
    ) -> (r: (Vec<i64>, Vec<i64>))
        requires
            wf_results(self.results@),
            self.results@.len() <= MAX_RESULTS_PER_LABEL,
            forall|x: PerceptionResult| 0 <= #[trigger] tp_metrics.spec_value(x) <= FIX_ONE,
        ensures
            r.0@.len() == self.results@.len(),
            r.1@.len() == self.results@.len(),
            forall|i: int|
                0 <= i < self.results@.len() ==> r.0@[i] == spec_tp_cum(
                    tp_metrics,
                    self.results@,
                    *matching_mode,
                    *threshold as int,
                    i + 1,
                ),
            forall|i: int|
                0 <= i < self.results@.len() ==> r.1@[i] == spec_fp_cum(
                    self.results@,
                    *matching_mode,
                    *threshold as int,
                    i + 1,
                ),
            forall|i: int| 0 <= i < self.results@.len() ==> 0 <= #[trigger] r.0@[i] <= 1_000_000 * (
            i + 1),
    {
        let n = self.results.len();
        let mut tp_list: Vec<i64> = Vec::new();
        let mut fp_list: Vec<i64> = Vec::new();
        let mut tp_sum: i64 = 0;
        let mut fp_sum: i64 = 0;
        let mut k: usize = 0;
        while k < n
            invariant
                n == self.results@.len() <= MAX_RESULTS_PER_LABEL,
                wf_results(self.results@),
                forall|x: PerceptionResult| 0 <= #[trigger] tp_metrics.spec_value(x) <= FIX_ONE,
                0 <= k <= n,
                tp_list@.len() == k,
                fp_list@.len() == k,
                tp_sum == spec_tp_cum(
                    tp_metrics,
                    self.results@,
                    *matching_mode,
                    *threshold as int,
                    k as int,
                ),
                fp_sum == spec_fp_cum(self.results@, *matching_mode, *threshold as int, k as int),
                0 <= tp_sum <= 1_000_000 * (k as int),
                0 <= fp_sum <= k,
                forall|i: int|
                    0 <= i < k ==> tp_list@[i] == spec_tp_cum(
                        tp_metrics,
                        self.results@,
                        *matching_mode,
                        *threshold as int,
                        i + 1,
                    ),
                forall|i: int|
                    0 <= i < k ==> fp_list@[i] == spec_fp_cum(
                        self.results@,
                        *matching_mode,
                        *threshold as int,
                        i + 1,
                    ),
                forall|i: int| 0 <= i < k ==> 0 <= #[trigger] tp_list@[i] <= 1_000_000 * (i + 1),
            decreases n - k,
        {
            let result = &self.results[k];
            let is_correct = match result.is_result_correct(matching_mode, threshold) {
                Ok(b) => b,
                Err(_) => false,
            };
            if is_correct {
                let v = tp_metrics.get_value(result);
                tp_sum = tp_sum + v;
            } else {
                fp_sum = fp_sum + 1;
            }
            tp_list.push(tp_sum);
            fp_list.push(fp_sum);
            k = k + 1;
        }
        (tp_list, fp_list)
    }

    /// Compute the precision and recall sequences from the running
    /// true-positive sums.
    pub fn calculate_precision_recall(&self, tp_list: &Vec<i64>) -> (r: (Vec<i64>, Vec<i64>))
        requires
            tp_list@.len() == self.results@.len(),
            forall|i: int| 0 <= i < tp_list@.len() ==> 0 <= #[trigger] tp_list@[i] <= 1_000_000 * (
            i + 1),
            tp_list@.len() <= MAX_RESULTS_PER_LABEL,
        ensures
            r.0@.len() == tp_list@.len(),
            r.1@.len() == tp_list@.len(),
            forall|i: int|
                0 <= i < tp_list@.len() ==> r.0@[i] == tp_list@[i] as int / (i + 1),
            forall|i: int|
                0 <= i < tp_list@.len() ==> r.1@[i] == if self.num_ground_truth > 0 {
                    tp_list@[i] as int / (self.num_ground_truth as int)
                } else {
                    0
                },
            forall|i: int| 0 <= i < tp_list@.len() ==> 0 <= #[trigger] r.0@[i] <= FIX_ONE,
            forall|i: int| 0 <= i < tp_list@.len() ==> 0 <= #[trigger] r.1@[i] <= #[trigger] tp_list@[i],
    {
        let n = tp_list.len();
        let mut precision_list: Vec<i64> = Vec::new();
        let mut recall_list: Vec<i64> = Vec::new();
        let mut k: usize = 0;
        while k < n
            invariant
                n == tp_list@.len() <= MAX_RESULTS_PER_LABEL,
                forall|i: int| 0 <= i < n ==> 0 <= #[trigger] tp_list@[i] <= 1_000_000 * (i + 1),
                0 <= k <= n,
                precision_list@.len() == k,
                recall_list@.len() == k,
                forall|i: int| 0 <= i < k ==> precision_list@[i] == tp_list@[i] as int / (i + 1),
                forall|i: int|
                    0 <= i < k ==> recall_list@[i] == if self.num_ground_truth > 0 {
                        tp_list@[i] as int / (self.num_ground_truth as int)
                    } else {
                        0
                    },
                forall|i: int| 0 <= i < k ==> 0 <= #[trigger] precision_list@[i] <= FIX_ONE,
                forall|i: int|
                    0 <= i < k ==> 0 <= #[trigger] recall_list@[i] <= #[trigger] tp_list@[i],
            decreases n - k,
        {
            let tp = tp_list[k];
            let precision: i64 = {
                let q = div_floor_i128(tp as i128, k as i128 + 1);
                proof {
                    lemma_quotient_range(tp as int, k as int + 1, 1_000_000);
                }
                q as i64
            };
            let recall: i64 = if self.num_ground_truth > 0 {
                let q = div_floor_i128(tp as i128, self.num_ground_truth as i128);
                proof {
                    vstd::arithmetic::div_mod::lemma_div_is_ordered(
                        0,
                        tp as int,
                        self.num_ground_truth as int,
                    );
                    vstd::arithmetic::div_mod::lemma_div_of0(self.num_ground_truth as int);
                    lemma_div_le_self(tp as int, self.num_ground_truth as int);
                }
                q as i64
            } else {
                0
            };
            precision_list.push(precision);
            recall_list.push(recall);
            k = k + 1;
        }
        (precision_list, recall_list)
    }

    /// Build the precision envelope of the curve, scanning backward from
    /// the last point.
    pub fn interpolate_precision_recall(
        &self,
        precision_list: Vec<i64>,
        recall_list: Vec<i64>,
    ) -> (r: (Vec<i64>, Vec<i64>))
        requires
            precision_list@.len() == recall_list@.len(),
        ensures
            precision_list@.len() == 0 ==> r.0@.len() == 0 && r.1@.len() == 0,
            precision_list@.len() > 0 ==> {
                let env = spec_envelope(
                    seq_to_int(precision_list@),
                    seq_to_int(recall_list@),
                );
                &&& r.0@.len() == env.len()
                &&& r.1@.len() == env.len()
                &&& forall|k: int|
                    0 <= k < env.len() ==> (#[trigger] env[k]).0 == r.0@[k] && env[k].1 == r.1@[k]
            },
    {
        let n = precision_list.len();
        if n == 0 {
            let empty_p: Vec<i64> = Vec::new();
            let empty_r: Vec<i64> = Vec::new();
            return (empty_p, empty_r);
        }
        let mut max_precision_list: Vec<i64> = Vec::new();
        let mut max_recall_list: Vec<i64> = Vec::new();
        max_precision_list.push(precision_list[n - 1]);
        max_recall_list.push(recall_list[n - 1]);
        let ghost ps = seq_to_int(precision_list@);
        let ghost rs = seq_to_int(recall_list@);
        proof {
            assert(spec_envelope_steps(ps, rs, 0) =~= seq![(ps[n - 1], rs[n - 1])]);
        }
        let mut t: usize = 1;
        while t < n
            invariant
                n == precision_list@.len() == recall_list@.len(),
                ps == seq_to_int(precision_list@),
                rs == seq_to_int(recall_list@),
                1 <= t <= n,
                max_precision_list@.len() == max_recall_list@.len(),
                max_precision_list@.len() >= 1,
                max_precision_list@.len() == spec_envelope_steps(ps, rs, t as int - 1).len(),
                forall|k: int|
                    0 <= k < spec_envelope_steps(ps, rs, t as int - 1).len() ==> (
                    #[trigger] spec_envelope_steps(ps, rs, t as int - 1)[k]).0
                        == max_precision_list@[k] && spec_envelope_steps(ps, rs, t as int - 1)[k].1
                        == max_recall_list@[k],
            decreases n - t,
        {
            let i = n - 1 - t;
            let ghost env_prev = spec_envelope_steps(ps, rs, t as int - 1);
            let last = max_precision_list[max_precision_list.len() - 1];
            proof {
                assert(env_prev.last().0 == last);
            }
            if precision_list[i] > last {
                max_precision_list.push(precision_list[i]);
                max_recall_list.push(recall_list[i]);
                proof {
                    let env = spec_envelope_steps(ps, rs, t as int);
                    assert(env =~= env_prev.push((ps[i as int], rs[i as int])));
                }
            }
            t = t + 1;
        }
        (max_precision_list, max_recall_list)
    }

    /// Calculate the average precision (or the heading-weighted average
    /// precision, by the choice of `tp_metrics`) of the label's curve.
    /// The value is undefined exactly when the label has no results and
    /// no ground truths.
    pub fn calculate_ap<T: TPMetrics>(
        &self,
        tp_metrics: T,
        matching_mode: &MatchingMode,
        threshold: &i64,
    ) -> (r: Option<i64>)
        requires
            wf_results(self.results@),
            self.results@.len() <= MAX_RESULTS_PER_LABEL,
            forall|x: PerceptionResult| 0 <= #[trigger] tp_metrics.spec_value(x) <= FIX_ONE,
        ensures
            spec_matches_ap(
                r,
                spec_calculate_ap(
                    tp_metrics,
                    self.results@,
                    self.num_ground_truth as int,
                    *matching_mode,
                    *threshold as int,
                ),
            ),
            r is None <==> (self.results@.len() == 0 && self.num_ground_truth == 0),
    {
        let (tp_list, fp_list) = self.calculate_tp_fp(tp_metrics, matching_mode, threshold);
        let _ = fp_list;
        let (precision_list, recall_list) = self.calculate_precision_recall(&tp_list);
        let ghost ps = seq_to_int(precision_list@);
        let ghost rs = seq_to_int(recall_list@);
        proof {
            assert(ps =~= spec_precisions(
                tp_metrics,
                self.results@,
                *matching_mode,
                *threshold as int,
            ));
            assert(rs =~= spec_recalls(
                tp_metrics,
                self.results@,
                *matching_mode,
                *threshold as int,
                self.num_ground_truth as int,
            ));
        }
        let ghost rl0 = recall_list@;
        let (max_precision_list, max_recall_list) = self.interpolate_precision_recall(
            precision_list,
            recall_list,
        );
        if self.results.is_empty() {
            if self.num_ground_truth == 0 {
                None
            } else {
                Some(0)
            }
        } else {
            proof {
                let gt = self.num_ground_truth as int;
                assert forall|i: int, j: int| 0 <= i <= j < rs.len() implies #[trigger] rs[i]
                    <= #[trigger] rs[j] by {
                    if gt > 0 {
                        lemma_tp_cum_monotone(
                            tp_metrics,
                            self.results@,
                            *matching_mode,
                            *threshold as int,
                            i + 1,
                            j + 1,
                        );
                        vstd::arithmetic::div_mod::lemma_div_is_ordered(
                            spec_tp_cum(
                                tp_metrics,
                                self.results@,
                                *matching_mode,
                                *threshold as int,
                                i + 1,
                            ),
                            spec_tp_cum(
                                tp_metrics,
                                self.results@,
                                *matching_mode,
                                *threshold as int,
                                j + 1,
                            ),
                            gt,
                        );
                    }
                }
                assert forall|i: int| 0 <= i < rs.len() implies 0 <= #[trigger] rs[i]
                    <= 1_000_000_000_000_000_000 by {
                    assert(rs[i] == rl0[i] as int);
                    assert(0 <= rl0[i] <= tp_list@[i]);
                    assert(tp_list@[i] <= 1_000_000 * (i + 1));
                }
                lemma_envelope_props(ps, rs, ps.len() as int - 1);
            }
            let ghost env = spec_envelope(ps, rs);
            let len = max_precision_list.len();
            let mut sum: i128 = 0;
            let mut k: usize = 0;
            while k + 1 < len
                invariant
                    len == max_precision_list@.len() == max_recall_list@.len(),
                    len == env.len(),
                    forall|j: int|
                        0 <= j < env.len() ==> (#[trigger] env[j]).0 == max_precision_list@[j]
                            && env[j].1 == max_recall_list@[j],
                    forall|j: int| 0 <= j < env.len() ==> 0 <= (#[trigger] env[j]).0 <= 1_000_000,
                    forall|j: int|
                        0 <= j < env.len() ==> 0 <= (#[trigger] env[j]).1
                            <= 1_000_000_000_000_000_000,
                    forall|j: int| 0 <= j < env.len() - 1 ==> (#[trigger] env[j + 1]).1 <= env[j].1,
                    0 <= k < len,
                    sum == spec_env_sum(env, k as int),
                    0 <= sum <= 1_000_000 * (env[0].1 - env[k as int].1),
                decreases len - k,
            {
                let p = max_precision_list[k];
                proof {
                    assert(env[k as int + 1].1 <= env[k as int].1);
                    assert(0 <= (env[k as int]).1 && 0 <= (env[k as int + 1]).1);
                }
                let dr: i64 = max_recall_list[k] - max_recall_list[k + 1];
                proof {
                    assert(0 <= p as int * (dr as int) && p as int * (dr as int) <= 1_000_000 * (
                    dr as int)) by (nonlinear_arith)
                        requires
                            0 <= p <= 1_000_000,
                            0 <= dr,
                    ;
                }
                let term: i128 = p as i128 * dr as i128;
                sum = sum + term;
                k = k + 1;
            }
            let ap128: i128 = div_floor_i128(sum, FIX_ONE as i128);
            proof {
                vstd::arithmetic::div_mod::lemma_div_is_ordered(0, sum as int, FIX_ONE as int);
                vstd::arithmetic::div_mod::lemma_div_of0(FIX_ONE as int);
                vstd::arithmetic::div_mod::lemma_div_is_ordered(
                    sum as int,
                    1_000_000_000_000_000_000_000_000,
                    FIX_ONE as int,
                );
            }
            Some(ap128 as i64)
        }
    }
}

/// The views of a fixed-point list as mathematical integers.
pub open spec fn seq_to_int(s: Seq<i64>) -> Seq<int> {
    s.map_values(|x: i64| x as int)
}

/// A non-negative value bounded by `b` times the divisor divides down to
/// the range `[0, b]`.
proof fn lemma_quotient_range(num: int, den: int, b: int)
    requires
        0 < den,
        0 <= b,
        0 <= num <= b * den,
    ensures
        0 <= num / den <= b,
{
    vstd::arithmetic::div_mod::lemma_div_is_ordered(0, num, den);
    vstd::arithmetic::div_mod::lemma_div_is_ordered(num, b * den, den);
    vstd::arithmetic::div_mod::lemma_div_multiples_vanish(b, den);
    assert(b * den == den * b) by (nonlinear_arith);
    vstd::arithmetic::div_mod::lemma_div_of0(den);
}

/// A non-negative value divided by a positive divisor never grows.
proof fn lemma_div_le_self(num: int, den: int)
    requires
        0 <= num,
        0 < den,
    ensures
        0 <= num / den <= num,
{
    vstd::arithmetic::div_mod::lemma_div_is_ordered(0, num, den);
    vstd::arithmetic::div_mod::lemma_div_of0(den);
    vstd::arithmetic::div_mod::lemma_div_is_ordered_by_denominator(num, 1, den);
    vstd::arithmetic::div_mod::lemma_div_basics(num);
}

/// The envelope of a curve with fraction-bounded precisions and
/// non-decreasing recalls: precisions stay fractions, recalls stay
/// bounded and non-increasing along the scan, and the head recall is the
/// curve's last recall.
proof fn lemma_envelope_props(ps: Seq<int>, rs: Seq<int>, t: int)
    requires
        ps.len() == rs.len(),
        ps.len() >= 1,
        0 <= t <= ps.len() - 1,
        forall|i: int| 0 <= i < ps.len() ==> 0 <= #[trigger] ps[i] <= 1_000_000,
        forall|i: int| 0 <= i < rs.len() ==> 0 <= #[trigger] rs[i] <= 1_000_000_000_000_000_000,
        forall|i: int, j: int| 0 <= i <= j < rs.len() ==> #[trigger] rs[i] <= #[trigger] rs[j],
    ensures
        spec_envelope_steps(ps, rs, t).len() >= 1,
        forall|k: int|
            0 <= k < spec_envelope_steps(ps, rs, t).len() ==> 0 <= (#[trigger] spec_envelope_steps(
                ps,
                rs,
                t,
            )[k]).0 <= 1_000_000,
        forall|k: int|
            0 <= k < spec_envelope_steps(ps, rs, t).len() ==> 0 <= (#[trigger] spec_envelope_steps(
                ps,
                rs,
                t,
            )[k]).1 <= 1_000_000_000_000_000_000,
        forall|k: int|
            0 <= k < spec_envelope_steps(ps, rs, t).len() - 1 ==> (#[trigger] spec_envelope_steps(
                ps,
                rs,
                t,
            )[k + 1]).1 <= spec_envelope_steps(ps, rs, t)[k].1,
        spec_envelope_steps(ps, rs, t).last().1 >= rs[ps.len() - 1 - t],
        spec_envelope_steps(ps, rs, t).last().1 <= 1_000_000_000_000_000_000,
    decreases t,
{
    let n = ps.len() as int;
    if t > 0 {
        lemma_envelope_props(ps, rs, t - 1);
        let prev = spec_envelope_steps(ps, rs, t - 1);
        let i = n - 1 - t;
        if ps[i] > prev.last().0 {
            let cur = prev.push((ps[i], rs[i]));
            assert(rs[i] <= rs[i + 1]);
            assert(prev.last().1 >= rs[i + 1]);
            assert forall|k: int| 0 <= k < cur.len() - 1 implies (#[trigger] cur[k + 1]).1
                <= cur[k].1 by {
                if k + 1 < prev.len() {
                    assert(prev[k + 1].1 <= prev[k].1);
                } else {
                    assert(cur[k] == prev.last());
                    assert(cur[k + 1] == (ps[i], rs[i]));
                }
            }
        }
    }
}

} // verus!
