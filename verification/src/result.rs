//! Pairing estimated objects with ground-truth objects.
//!
//! The greedy one-to-one assignment walks the estimations in list order;
//! each takes the not-yet-consumed ground truth of equal label with the
//! smallest center distance (the engine's pairing default).  Consumption is
//! tracked with stable index markers, so the score table never has to be
//! reshaped.  Estimations left without a ground truth become false
//! positives, appended after the paired results.

pub mod frame;

use vstd::prelude::*;

verus! {

use crate::matching::{
    CenterDistanceMatching, MatchingMode, MatchingResult, spec_center_distance_score,
    spec_is_better, is_better_for_mode,
};
use crate::object::DynamicObject;
use vstd::multiset::Multiset;

/// A matched pair of an estimated object and an optional ground-truth
/// object.  A missing ground truth means the result is a false positive.
#[derive(Debug, Clone, Copy)]
pub struct PerceptionResult {
    pub estimated_object: DynamicObject,
    pub ground_truth_object: Option<DynamicObject>,
}

impl PerceptionResult {
    /// The estimation, and the ground truth when there is one, are within
    /// the representable limits.
    pub open spec fn wf(self) -> bool {
        &&& self.estimated_object.wf()
        &&& match self.ground_truth_object {
            Some(g) => g.wf(),
            None => true,
        }
    }

    /// Whether both objects carry the same label; `false` for a false
    /// positive.
    pub open spec fn spec_label_correct(self) -> bool {
        match self.ground_truth_object {
            Some(g) => self.estimated_object.label == g.label,
            None => false,
        }
    }

    /// Whether the pair matches under the given mode and threshold;
    /// `false` for a false positive.
    pub open spec fn spec_result_correct(self, mode: MatchingMode, threshold: int) -> bool {
        match self.ground_truth_object {
            Some(g) => spec_is_better(mode, self.estimated_object, g, threshold),
            None => false,
        }
    }

    /// Pair an estimation with its assigned ground truth (`None` for a
    /// false positive).
    pub fn new(
        estimated_object: DynamicObject,
        ground_truth_object: Option<DynamicObject>,
    ) -> (r: PerceptionResult)
        ensures
            r.estimated_object == estimated_object,
            r.ground_truth_object == ground_truth_object,
    {
        PerceptionResult { estimated_object, ground_truth_object }
    }

    /// Returns whether estimation and ground truth carry the same label.
    pub fn is_label_correct(&self) -> (r: bool)
        ensures
            r == self.spec_label_correct(),
    {
        match &self.ground_truth_object {
            Some(gt) => self.estimated_object.label == gt.label,
            None => false,
        }
    }

    /// Returns whether the result is a true positive: it has a ground
    /// truth and the mode's match predicate holds for the threshold.
    pub fn is_result_correct(&self, matching_mode: &MatchingMode, threshold: &i64) -> (r:
        MatchingResult<bool>)
        requires
            self.wf(),
        ensures
            r matches Ok(b) && b == self.spec_result_correct(*matching_mode, *threshold as int),
    {
        let is_correct = match &self.ground_truth_object {
            Some(gt) => is_better_for_mode(matching_mode, &self.estimated_object, gt, threshold),
            None => false,
        };
        Ok(is_correct)
    }
}

/// Every object of the list is within the representable limits.
pub open spec fn wf_objects(objects: Seq<DynamicObject>) -> bool {
    forall|i: int| 0 <= i < objects.len() ==> (#[trigger] objects[i]).wf()
}

/// Every result of the list is within the representable limits.
pub open spec fn wf_results(results: Seq<PerceptionResult>) -> bool {
    forall|i: int| 0 <= i < results.len() ==> (#[trigger] results[i]).wf()
}

/// Whether a ground truth may be assigned to an estimation at all: the
/// labels must agree.
pub open spec fn spec_eligible(e: DynamicObject, g: DynamicObject) -> bool {
    e.label == g.label
}

/// The pairing score: the center distance (the engine's default).
pub open spec fn spec_pair_score(e: DynamicObject, g: DynamicObject) -> int {
    spec_center_distance_score(e, g)
}

/// The set of consumed ground-truth indices described by a marker list.
pub open spec fn spec_used_set(used: Seq<bool>) -> Set<int> {
    Set::new(|j: int| 0 <= j < used.len() && used[j])
}

/// The ground-truth column an estimation selects among the first `k`
/// columns: eligible, not yet consumed, of numerically smallest score with
/// the largest index winning ties; `-1` when no column qualifies.
pub open spec fn spec_best_gt_to(
    e: DynamicObject,
    gts: Seq<DynamicObject>,
    used: Set<int>,
    k: int,
) -> int
    decreases k,
{
    if k <= 0 {
        -1
    } else {
        let m = spec_best_gt_to(e, gts, used, k - 1);
        let j = k - 1;
        if used.contains(j) || !spec_eligible(e, gts[j]) {
            m
        } else if m < 0 {
            j
        } else if spec_pair_score(e, gts[j]) <= spec_pair_score(e, gts[m]) {
            j
        } else {
            m
        }
    }
}

/// The ground-truth column an estimation selects, or `-1`.
pub open spec fn spec_best_gt(e: DynamicObject, gts: Seq<DynamicObject>, used: Set<int>) -> int {
    spec_best_gt_to(e, gts, used, gts.len() as int)
}

/// The paired results produced from estimation `i` on, given the already
/// consumed ground-truth columns.
pub open spec fn spec_assign_pairs(
    est: Seq<DynamicObject>,
    gts: Seq<DynamicObject>,
    used: Set<int>,
    i: int,
) -> Seq<PerceptionResult>
    decreases est.len() - i,
{
    if i < 0 || i >= est.len() {
        Seq::empty()
    } else {
        let j = spec_best_gt(est[i], gts, used);
        if j >= 0 {
            seq![
                PerceptionResult {
                    estimated_object: est[i],
                    ground_truth_object: Some(gts[j]),
                },
            ] + spec_assign_pairs(est, gts, used.insert(j), i + 1)
        } else {
            spec_assign_pairs(est, gts, used, i + 1)
        }
    }
}

/// The false-positive results produced from estimation `i` on: the
/// estimations that select no column, in list order.
pub open spec fn spec_assign_fps(
    est: Seq<DynamicObject>,
    gts: Seq<DynamicObject>,
    used: Set<int>,
    i: int,
) -> Seq<PerceptionResult>
    decreases est.len() - i,
{
    if i < 0 || i >= est.len() {
        Seq::empty()
    } else {
        let j = spec_best_gt(est[i], gts, used);
        if j >= 0 {
            spec_assign_fps(est, gts, used.insert(j), i + 1)
        } else {
            seq![PerceptionResult { estimated_object: est[i], ground_truth_object: None }]
                + spec_assign_fps(est, gts, used, i + 1)
        }
    }
}

/// The whole assignment: the paired results in estimation order, followed
/// by the false positives in estimation order.
pub open spec fn spec_perception_results(est: Seq<DynamicObject>, gts: Seq<DynamicObject>)
    -> Seq<PerceptionResult> {
    spec_assign_pairs(est, gts, Set::empty(), 0) + spec_assign_fps(est, gts, Set::empty(), 0)
}

/// The estimated object of a result.
pub open spec fn spec_estimated_of(r: PerceptionResult) -> DynamicObject {
    r.estimated_object
}

/// Together, the paired results and the false positives from `i` on carry
/// exactly the estimations from `i` on: as many results as estimations,
/// and each estimation exactly once.
proof fn lemma_assign_partition(
    est: Seq<DynamicObject>,
    gts: Seq<DynamicObject>,
    used: Set<int>,
    i: int,
)
    requires
        0 <= i <= est.len(),
    ensures
        spec_assign_pairs(est, gts, used, i).len() + spec_assign_fps(est, gts, used, i).len()
            == est.len() - i,
        spec_assign_pairs(est, gts, used, i).map_values(|r: PerceptionResult| spec_estimated_of(r))
            .to_multiset().add(
            spec_assign_fps(est, gts, used, i).map_values(
                |r: PerceptionResult| spec_estimated_of(r),
            ).to_multiset(),
        ) == est.subrange(i, est.len() as int).to_multiset(),
    decreases est.len() - i,
{
    broadcast use vstd::seq_lib::group_to_multiset_ensures;

    let f = |r: PerceptionResult| spec_estimated_of(r);
    if i == est.len() {
        assert(spec_assign_pairs(est, gts, used, i).map_values(f) =~= Seq::<DynamicObject>::empty());
        assert(spec_assign_fps(est, gts, used, i).map_values(f) =~= Seq::<DynamicObject>::empty());
        assert(est.subrange(i, est.len() as int) =~= Seq::<DynamicObject>::empty());
        assert(Seq::<DynamicObject>::empty().to_multiset() =~= Multiset::<DynamicObject>::empty());
    } else {
        let j = spec_best_gt(est[i], gts, used);
        let rest = est.subrange(i + 1, est.len() as int);
        assert(est.subrange(i, est.len() as int) =~= rest.insert(0, est[i]));
        vstd::seq_lib::to_multiset_insert(rest, 0, est[i]);
        if j >= 0 {
            let used2 = used.insert(j);
            lemma_assign_partition(est, gts, used2, i + 1);
            let head = PerceptionResult {
                estimated_object: est[i],
                ground_truth_object: Some(gts[j]),
            };
            let tail = spec_assign_pairs(est, gts, used2, i + 1);
            assert(spec_assign_pairs(est, gts, used, i).map_values(f) =~= tail.map_values(
                f,
            ).insert(0, est[i]));
            vstd::seq_lib::to_multiset_insert(tail.map_values(f), 0, est[i]);
            assert(spec_assign_fps(est, gts, used, i) == spec_assign_fps(est, gts, used2, i + 1));
            assert(spec_assign_pairs(est, gts, used, i).map_values(f).to_multiset().add(
                spec_assign_fps(est, gts, used, i).map_values(f).to_multiset(),
            ) =~= est.subrange(i, est.len() as int).to_multiset());
        } else {
            lemma_assign_partition(est, gts, used, i + 1);
            let tail = spec_assign_fps(est, gts, used, i + 1);
            assert(spec_assign_fps(est, gts, used, i).map_values(f) =~= tail.map_values(f).insert(
                0,
                est[i],
            ));
            vstd::seq_lib::to_multiset_insert(tail.map_values(f), 0, est[i]);
            assert(spec_assign_pairs(est, gts, used, i) == spec_assign_pairs(
                est,
                gts,
                used,
                i + 1,
            ));
            assert(spec_assign_pairs(est, gts, used, i).map_values(f).to_multiset().add(
                spec_assign_fps(est, gts, used, i).map_values(f).to_multiset(),
            ) =~= est.subrange(i, est.len() as int).to_multiset());
        }
    }
}

/// Every estimation appears in the assignment exactly once, as a true or
/// as a false positive: the results are as many as the estimations, and
/// their estimated objects are the estimations themselves.
pub proof fn lemma_results_cover_estimations(est: Seq<DynamicObject>, gts: Seq<DynamicObject>)
    ensures
        spec_perception_results(est, gts).len() == est.len(),
        spec_perception_results(est, gts).map_values(|r: PerceptionResult| spec_estimated_of(r))
            .to_multiset() == est.to_multiset(),
{
    broadcast use vstd::seq_lib::group_to_multiset_ensures;

    let f = |r: PerceptionResult| spec_estimated_of(r);
    lemma_assign_partition(est, gts, Set::empty(), 0);
    let pairs = spec_assign_pairs(est, gts, Set::empty(), 0);
    let fps = spec_assign_fps(est, gts, Set::empty(), 0);
    assert(est.subrange(0, est.len() as int) =~= est);
    assert(spec_perception_results(est, gts).map_values(f) =~= pairs.map_values(f) + fps.map_values(
        f,
    ));
    vstd::seq_lib::lemma_multiset_commutative(pairs.map_values(f), fps.map_values(f));
}

/// The assignment is a function of the two input lists alone: two runs on
/// identical, same-order inputs yield the identical result list.
pub proof fn lemma_assignment_deterministic(
    est: Seq<DynamicObject>,
    gts: Seq<DynamicObject>,
    r1: Seq<PerceptionResult>,
    r2: Seq<PerceptionResult>,
)
    requires
        r1 == spec_perception_results(est, gts),
        r2 == spec_perception_results(est, gts),
    ensures
        r1 == r2,
{
}

/// Build the dense N x M score table: one row per estimation, one column
/// per ground truth, holding the pairing score where the labels agree and
/// nothing where they differ.
fn get_score_table(
    estimated_objects: &Vec<DynamicObject>,
    ground_truth_objects: &Vec<DynamicObject>,
) -> (table: Vec<Vec<Option<i64>>>)
    requires
        wf_objects(estimated_objects@),
        wf_objects(ground_truth_objects@),
    ensures
        table@.len() == estimated_objects@.len(),
        forall|i: int|
            0 <= i < table@.len() ==> (#[trigger] table@[i])@.len()
                == ground_truth_objects@.len(),
        forall|i: int, j: int|
            0 <= i < table@.len() && 0 <= j < ground_truth_objects@.len() ==> ((
            #[trigger] table@[i]@[j]) is Some <==> spec_eligible(
                estimated_objects@[i],
                ground_truth_objects@[j],
            )),
        forall|i: int, j: int|
            0 <= i < table@.len() && 0 <= j < ground_truth_objects@.len()
                ==> ((#[trigger] table@[i]@[j]) matches Some(s) ==> s == spec_pair_score(
                estimated_objects@[i],
                ground_truth_objects@[j],
            )),
{
    let matching_method = CenterDistanceMatching;
    let num_est = estimated_objects.len();
    let num_gt = ground_truth_objects.len();
    let mut score_table: Vec<Vec<Option<i64>>> = Vec::new();
    let mut i: usize = 0;
    while i < num_est
        invariant
            num_est == estimated_objects@.len(),
            num_gt == ground_truth_objects@.len(),
            wf_objects(estimated_objects@),
            wf_objects(ground_truth_objects@),
            0 <= i <= num_est,
            score_table@.len() == i,
            forall|a: int| 0 <= a < i ==> (#[trigger] score_table@[a])@.len() == num_gt,
            forall|a: int, b: int|
                0 <= a < i && 0 <= b < num_gt ==> ((#[trigger] score_table@[a]@[b]) is Some
                    <==> spec_eligible(estimated_objects@[a], ground_truth_objects@[b])),
            forall|a: int, b: int|
                0 <= a < i && 0 <= b < num_gt ==> ((#[trigger] score_table@[a]@[b]) matches Some(s)
                    ==> s == spec_pair_score(estimated_objects@[a], ground_truth_objects@[b])),
        decreases num_est - i,
    {
        let est = estimated_objects[i];
        let mut row: Vec<Option<i64>> = Vec::new();
        let mut j: usize = 0;
        while j < num_gt
            invariant
                num_gt == ground_truth_objects@.len(),
                wf_objects(ground_truth_objects@),
                est.wf(),
                est == estimated_objects@[i as int],
                0 <= i < estimated_objects@.len(),
                0 <= j <= num_gt,
                row@.len() == j,
                forall|b: int|
                    0 <= b < j ==> ((#[trigger] row@[b]) is Some <==> spec_eligible(
                        estimated_objects@[i as int],
                        ground_truth_objects@[b],
                    )),
                forall|b: int|
                    0 <= b < j ==> ((#[trigger] row@[b]) matches Some(s) ==> s == spec_pair_score(
                        estimated_objects@[i as int],
                        ground_truth_objects@[b],
                    )),
            decreases num_gt - j,
        {
            if est.label == ground_truth_objects[j].label {
                let score = matching_method.calculate_matching_score(
                    &est,
                    &ground_truth_objects[j],
                );
                row.push(Some(score));
            } else {
                row.push(None);
            }
            j = j + 1;
        }
        score_table.push(row);
        i = i + 1;
    }
    score_table
}

/// Build the list of perception results for one frame: the greedy
/// one-to-one assignment of ground truths to estimations.
pub fn get_perception_results(
    estimated_objects: &Vec<DynamicObject>,
    ground_truth_objects: &Vec<DynamicObject>,
) -> (results: Vec<PerceptionResult>)
    requires
        wf_objects(estimated_objects@),
        wf_objects(ground_truth_objects@),
    ensures
        results@ == spec_perception_results(estimated_objects@, ground_truth_objects@),
        results@.len() == estimated_objects@.len(),
        wf_results(results@),
{
    let score_table = get_score_table(estimated_objects, ground_truth_objects);
    let n = estimated_objects.len();
    let m = ground_truth_objects.len();
    let mut used: Vec<bool> = Vec::new();
    let mut k: usize = 0;
    while k < m
        invariant
            0 <= k <= m,
            used@.len() == k,
            forall|j: int| 0 <= j < k ==> !(#[trigger] used@[j]),
        decreases m - k,
    {
        used.push(false);
        k = k + 1;
    }
    let mut pairs: Vec<PerceptionResult> = Vec::new();
    let mut fp_results: Vec<PerceptionResult> = Vec::new();
    proof {
        assert(spec_used_set(used@) =~= Set::<int>::empty());
    }
    let mut i: usize = 0;
    while i < n
        invariant
            n == estimated_objects@.len(),
            m == ground_truth_objects@.len(),
            wf_objects(estimated_objects@),
            wf_objects(ground_truth_objects@),
            score_table@.len() == n,
            forall|a: int| 0 <= a < n ==> (#[trigger] score_table@[a])@.len() == m,
            forall|a: int, b: int|
                0 <= a < n && 0 <= b < m ==> ((#[trigger] score_table@[a]@[b]) is Some
                    <==> spec_eligible(estimated_objects@[a], ground_truth_objects@[b])),
            forall|a: int, b: int|
                0 <= a < n && 0 <= b < m ==> ((#[trigger] score_table@[a]@[b]) matches Some(s)
                    ==> s == spec_pair_score(estimated_objects@[a], ground_truth_objects@[b])),
            used@.len() == m,
            0 <= i <= n,
            spec_assign_pairs(estimated_objects@, ground_truth_objects@, Set::empty(), 0) == pairs@
                + spec_assign_pairs(
                estimated_objects@,
                ground_truth_objects@,
                spec_used_set(used@),
                i as int,
            ),
            spec_assign_fps(estimated_objects@, ground_truth_objects@, Set::empty(), 0)
                == fp_results@ + spec_assign_fps(
                estimated_objects@,
                ground_truth_objects@,
                spec_used_set(used@),
                i as int,
            ),
            wf_results(pairs@),
            wf_results(fp_results@),
        decreases n - i,
    {
        let est = estimated_objects[i];
        let ghost uset = spec_used_set(used@);
        let mut has_best: bool = false;
        let mut best_j: usize = 0;
        let mut best_score: i64 = 0;
        let mut j: usize = 0;
        while j < m
            invariant
                n == estimated_objects@.len(),
                m == ground_truth_objects@.len(),
                wf_objects(ground_truth_objects@),
                est.wf(),
                0 <= i < n,
                est == estimated_objects@[i as int],
                score_table@.len() == n,
                forall|a: int| 0 <= a < n ==> (#[trigger] score_table@[a])@.len() == m,
                forall|b: int|
                    0 <= b < m ==> ((#[trigger] score_table@[i as int]@[b]) is Some
                        <==> spec_eligible(est, ground_truth_objects@[b])),
                forall|b: int|
                    0 <= b < m ==> ((#[trigger] score_table@[i as int]@[b]) matches Some(s) ==> s
                        == spec_pair_score(est, ground_truth_objects@[b])),
                used@.len() == m,
                uset == spec_used_set(used@),
                0 <= j <= m,
                !has_best ==> spec_best_gt_to(est, ground_truth_objects@, uset, j as int) == -1,
                has_best ==> best_j < j && spec_best_gt_to(est, ground_truth_objects@, uset, j as int)
                    == best_j as int && best_score == spec_pair_score(
                    est,
                    ground_truth_objects@[best_j as int],
                ),
            decreases m - j,
        {
            if !used[j] {
                match score_table[i][j] {
                    Some(score) => {
                        if !has_best || score <= best_score {
                            has_best = true;
                            best_j = j;
                            best_score = score;
                        }
                    },
                    None => {},
                }
            }
            j = j + 1;
        }
        let ghost pairs_before = pairs@;
        let ghost fps_before = fp_results@;
        let ghost used_before = used@;
        if has_best {
            pairs.push(
                PerceptionResult {
                    estimated_object: est,
                    ground_truth_object: Some(ground_truth_objects[best_j]),
                },
            );
            used.set(best_j, true);
            proof {
                assert(spec_used_set(used@) =~= uset.insert(best_j as int));
                assert(spec_best_gt(est, ground_truth_objects@, uset) == best_j as int);
                assert(pairs@ =~= pairs_before + seq![
                    PerceptionResult {
                        estimated_object: est,
                        ground_truth_object: Some(ground_truth_objects@[best_j as int]),
                    },
                ]);
                assert(pairs_before + spec_assign_pairs(
                    estimated_objects@,
                    ground_truth_objects@,
                    uset,
                    i as int,
                ) =~= pairs@ + spec_assign_pairs(
                    estimated_objects@,
                    ground_truth_objects@,
                    uset.insert(best_j as int),
                    i as int + 1,
                ));
            }
        } else {
            fp_results.push(PerceptionResult { estimated_object: est, ground_truth_object: None });
            proof {
                assert(spec_best_gt(est, ground_truth_objects@, uset) == -1);
                assert(fp_results@ =~= fps_before + seq![
                    PerceptionResult { estimated_object: est, ground_truth_object: None },
                ]);
                assert(fps_before + spec_assign_fps(
                    estimated_objects@,
                    ground_truth_objects@,
                    uset,
                    i as int,
                ) =~= fp_results@ + spec_assign_fps(
                    estimated_objects@,
                    ground_truth_objects@,
                    uset,
                    i as int + 1,
                ));
            }
        }
        i = i + 1;
    }
    let mut results = pairs;
    results.append(&mut fp_results);
    proof {
        lemma_results_cover_estimations(estimated_objects@, ground_truth_objects@);
    }
    results
}

} // verus!
