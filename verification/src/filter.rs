//! Filtering objects to the evaluation scope and grouping them by label.

use vstd::prelude::*;

verus! {

use crate::config::FilterParams;
use crate::label::Label;
use crate::object::DynamicObject;
use crate::result::{PerceptionResult, wf_objects, wf_results};
use crate::threshold::{spec_label_position, get_label_threshold};

/// Whether `object` is kept by the filter: its label must be a target
/// label, its position must be within the per-label x and y bounds, and —
/// where those filters apply — its point count must reach the per-label
/// minimum and its instance id must be listed.
pub open spec fn spec_is_target_object(
    object: DynamicObject,
    target_labels: Seq<Label>,
    max_x_positions: Seq<i64>,
    max_y_positions: Seq<i64>,
    min_point_numbers: Option<Vec<i64>>,
    target_uuids: Option<Vec<u64>>,
) -> bool {
    match spec_label_position(target_labels, object.label) {
        Some(i) => {
            &&& -max_x_positions[i] < object.position.x < max_x_positions[i]
            &&& -max_y_positions[i] < object.position.y < max_y_positions[i]
            &&& match min_point_numbers {
                Some(thresholds) => match object.pointcloud_num {
                    Some(pt_num) => thresholds@[i] <= pt_num,
                    None => true,
                },
                None => true,
            }
            &&& match target_uuids {
                Some(uuids) => match object.uuid {
                    Some(uuid) => uuids@.contains(uuid),
                    None => false,
                },
                None => true,
            }
        },
        None => false,
    }
}

/// Returns whether `object` is kept by the filter.
pub fn is_target_object(
    object: &DynamicObject,
    target_labels: &Vec<Label>,
    max_x_positions: &Vec<i64>,
    max_y_positions: &Vec<i64>,
    min_point_numbers: &Option<Vec<i64>>,
    target_uuids: &Option<Vec<u64>>,
) -> (r: bool)
    requires
        max_x_positions@.len() == target_labels@.len(),
        max_y_positions@.len() == target_labels@.len(),
        min_point_numbers matches Some(v) ==> v@.len() == target_labels@.len(),
    ensures
        r == spec_is_target_object(
            *object,
            target_labels@,
            max_x_positions@,
            max_y_positions@,
            *min_point_numbers,
            *target_uuids,
        ),
{
    let mut is_target = contains_label(target_labels, &object.label);
    if !is_target {
        return false;
    }
    is_target = is_target && {
        match get_label_threshold(&object.label, target_labels, max_x_positions) {
            Some(max_x_position) => -(max_x_position as i128) < object.position.x as i128
                && object.position.x < max_x_position,
            None => false,
        }
    };
    is_target = is_target && {
        match get_label_threshold(&object.label, target_labels, max_y_positions) {
            Some(max_y_position) => -(max_y_position as i128) < object.position.y as i128
                && object.position.y < max_y_position,
            None => false,
        }
    };
    is_target = is_target && {
        match min_point_numbers {
            Some(thresholds) => match object.pointcloud_num {
                Some(pt_num) => match get_label_threshold(
                    &object.label,
                    target_labels,
                    thresholds,
                ) {
                    Some(min_point_number) => min_point_number <= pt_num,
                    None => false,
                },
                None => true,
            },
            None => true,
        }
    };
    is_target = is_target && {
        match target_uuids {
            Some(uuids) => match object.uuid {
                Some(uuid) => contains_u64(uuids, uuid),
                None => false,
            },
            None => true,
        }
    };
    is_target
}

/// Whether `labels` holds `label`.
fn contains_label(labels: &Vec<Label>, label: &Label) -> (r: bool)
    ensures
        r == (spec_label_position(labels@, *label) is Some),
{
    proof {
        crate::threshold::lemma_label_position(labels@, *label);
    }
    let n = labels.len();
    let mut k: usize = 0;
    while k < n
        invariant
            n == labels@.len(),
            0 <= k <= n,
            forall|j: int| 0 <= j < k ==> labels@[j] != *label,
            match spec_label_position(labels@, *label) {
                Some(i) => 0 <= i < n && labels@[i] == *label,
                None => forall|j: int| 0 <= j < n ==> labels@[j] != *label,
            },
        decreases n - k,
    {
        if labels[k] == *label {
            return true;
        }
        k = k + 1;
    }
    false
}

/// Whether `values` holds `value`.
fn contains_u64(values: &Vec<u64>, value: u64) -> (r: bool)
    ensures
        r == values@.contains(value),
{
    let n = values.len();
    let mut k: usize = 0;
    while k < n
        invariant
            n == values@.len(),
            0 <= k <= n,
            forall|j: int| 0 <= j < k ==> values@[j] != value,
        decreases n - k,
    {
        if values[k] == value {
            return true;
        }
        k = k + 1;
    }
    false
}

/// Whether `object` is kept by `filter_params`: ground truths are also
/// held to the point-count and instance-id filters, estimations only to
/// the label and position filters.
pub open spec fn spec_keeps(object: DynamicObject, is_gt: bool, params: FilterParams) -> bool {
    spec_is_target_object(
        object,
        params.target_labels@,
        params.max_x_positions@,
        params.max_y_positions@,
        if is_gt {
            params.min_point_numbers
        } else {
            None
        },
        if is_gt {
            params.target_uuids
        } else {
            None
        },
    )
}

/// The kept objects among the first `k`, in order.
pub open spec fn spec_filter_objects_to(
    objects: Seq<DynamicObject>,
    is_gt: bool,
    params: FilterParams,
    k: int,
) -> Seq<DynamicObject>
    decreases k,
{
    if k <= 0 {
        Seq::empty()
    } else {
        let prefix = spec_filter_objects_to(objects, is_gt, params, k - 1);
        if spec_keeps(objects[k - 1], is_gt, params) {
            prefix + seq![objects[k - 1]]
        } else {
            prefix
        }
    }
}

/// The kept objects, in order.
pub open spec fn spec_filter_objects(
    objects: Seq<DynamicObject>,
    is_gt: bool,
    params: FilterParams,
) -> Seq<DynamicObject> {
    spec_filter_objects_to(objects, is_gt, params, objects.len() as int)
}

/// Filter objects with the given parameters; returns the kept objects.
pub fn filter_objects(
    objects: &Vec<DynamicObject>,
    is_gt: bool,
    filter_params: &FilterParams,
) -> (r: Vec<DynamicObject>)
    requires
        filter_params.wf(),
    ensures
        r@ == spec_filter_objects(objects@, is_gt, *filter_params),
        wf_objects(objects@) ==> wf_objects(r@),
{
    let mut ret: Vec<DynamicObject> = Vec::new();
    let n = objects.len();
    let mut k: usize = 0;
    while k < n
        invariant
            n == objects@.len(),
            filter_params.wf(),
            0 <= k <= n,
            ret@ == spec_filter_objects_to(objects@, is_gt, *filter_params, k as int),
            wf_objects(objects@) ==> wf_objects(ret@),
        decreases n - k,
    {
        let object = &objects[k];
        let is_target = if is_gt {
            is_target_object(
                object,
                &filter_params.target_labels,
                &filter_params.max_x_positions,
                &filter_params.max_y_positions,
                &filter_params.min_point_numbers,
                &filter_params.target_uuids,
            )
        } else {
            is_target_object(
                object,
                &filter_params.target_labels,
                &filter_params.max_x_positions,
                &filter_params.max_y_positions,
                &None,
                &None,
            )
        };
        let ghost before = ret@;
        if is_target {
            ret.push(objects[k]);
            proof {
                assert(ret@ =~= before + seq![objects@[k as int]]);
            }
        }
        k = k + 1;
    }
    ret
}

/// The objects of `objects` that carry `label`, in order (first `k` only).
pub open spec fn spec_objects_with_label_to(
    objects: Seq<DynamicObject>,
    label: Label,
    k: int,
) -> Seq<DynamicObject>
    decreases k,
{
    if k <= 0 {
        Seq::empty()
    } else {
        let prefix = spec_objects_with_label_to(objects, label, k - 1);
        if objects[k - 1].label == label {
            prefix + seq![objects[k - 1]]
        } else {
            prefix
        }
    }
}

/// The objects of `objects` that carry `label`, in order.
pub open spec fn spec_objects_with_label(objects: Seq<DynamicObject>, label: Label)
    -> Seq<DynamicObject> {
    spec_objects_with_label_to(objects, label, objects.len() as int)
}

/// The results of `results` whose estimation carries `label` (first `k`
/// only).
pub open spec fn spec_results_with_label_to(
    results: Seq<PerceptionResult>,
    label: Label,
    k: int,
) -> Seq<PerceptionResult>
    decreases k,
{
    if k <= 0 {
        Seq::empty()
    } else {
        let prefix = spec_results_with_label_to(results, label, k - 1);
        if results[k - 1].estimated_object.label == label {
            prefix + seq![results[k - 1]]
        } else {
            prefix
        }
    }
}

/// The results of `results` whose estimation carries `label`, in order.
pub open spec fn spec_results_with_label(results: Seq<PerceptionResult>, label: Label)
    -> Seq<PerceptionResult> {
    spec_results_with_label_to(results, label, results.len() as int)
}

/// Group objects by target label: entry `i` holds, in input order, the
/// objects whose label is `target_labels[i]`.
pub fn hash_objects(objects: &Vec<DynamicObject>, target_labels: &Vec<Label>) -> (r: Vec<
    Vec<DynamicObject>,
>)
    ensures
        r@.len() == target_labels@.len(),
        forall|i: int|
            0 <= i < target_labels@.len() ==> (#[trigger] r@[i])@ == spec_objects_with_label(
                objects@,
                target_labels@[i],
            ),
{
    let m = target_labels.len();
    let mut r: Vec<Vec<DynamicObject>> = Vec::new();
    let mut t: usize = 0;
    while t < m
        invariant
            m == target_labels@.len(),
            0 <= t <= m,
            r@.len() == t,
            forall|i: int|
                0 <= i < t ==> (#[trigger] r@[i])@ == spec_objects_with_label(
                    objects@,
                    target_labels@[i],
                ),
        decreases m - t,
    {
        let label = target_labels[t];
        let mut group: Vec<DynamicObject> = Vec::new();
        let n = objects.len();
        let mut k: usize = 0;
        while k < n
            invariant
                n == objects@.len(),
                0 <= k <= n,
                group@ == spec_objects_with_label_to(objects@, label, k as int),
            decreases n - k,
        {
            let ghost before = group@;
            if objects[k].label == label {
                group.push(objects[k]);
                proof {
                    assert(group@ =~= before + seq![objects@[k as int]]);
                }
            }
            k = k + 1;
        }
        r.push(group);
        t = t + 1;
    }
    r
}

/// Count objects by target label: entry `i` holds the number of objects
/// whose label is `target_labels[i]`.
pub fn hash_num_objects(objects: &Vec<DynamicObject>, target_labels: &Vec<Label>) -> (r: Vec<
    usize,
>)
    ensures
        r@.len() == target_labels@.len(),
        forall|i: int|
            0 <= i < target_labels@.len() ==> r@[i] == spec_objects_with_label(
                objects@,
                target_labels@[i],
            ).len(),
{
    let m = target_labels.len();
    let mut r: Vec<usize> = Vec::new();
    let mut t: usize = 0;
    while t < m
        invariant
            m == target_labels@.len(),
            0 <= t <= m,
            r@.len() == t,
            forall|i: int|
                0 <= i < t ==> r@[i] == spec_objects_with_label(
                    objects@,
                    target_labels@[i],
                ).len(),
        decreases m - t,
    {
        let label = target_labels[t];
        let mut count: usize = 0;
        let n = objects.len();
        let mut k: usize = 0;
        while k < n
            invariant
                n == objects@.len(),
                0 <= k <= n,
                count == spec_objects_with_label_to(objects@, label, k as int).len(),
                count <= k,
            decreases n - k,
        {
            if objects[k].label == label {
                count = count + 1;
            }
            k = k + 1;
        }
        r.push(count);
        t = t + 1;
    }
    r
}

/// Group results by the target label of their estimation: entry `i`
/// holds, in input order, the results whose estimated label is
/// `target_labels[i]`.
pub fn hash_results(results: &Vec<PerceptionResult>, target_labels: &Vec<Label>) -> (r: Vec<
    Vec<PerceptionResult>,
>)
    ensures
        r@.len() == target_labels@.len(),
        forall|i: int|
            0 <= i < target_labels@.len() ==> (#[trigger] r@[i])@ == spec_results_with_label(
                results@,
                target_labels@[i],
            ),
        wf_results(results@) ==> forall|i: int|
            0 <= i < target_labels@.len() ==> wf_results((#[trigger] r@[i])@),
{
    let m = target_labels.len();
    let mut r: Vec<Vec<PerceptionResult>> = Vec::new();
    let mut t: usize = 0;
    while t < m
        invariant
            m == target_labels@.len(),
            0 <= t <= m,
            r@.len() == t,
            forall|i: int|
                0 <= i < t ==> (#[trigger] r@[i])@ == spec_results_with_label(
                    results@,
                    target_labels@[i],
                ),
            wf_results(results@) ==> forall|i: int|
                0 <= i < t ==> wf_results((#[trigger] r@[i])@),
        decreases m - t,
    {
        let label = target_labels[t];
        let mut group: Vec<PerceptionResult> = Vec::new();
        let n = results.len();
        let mut k: usize = 0;
        while k < n
            invariant
                n == results@.len(),
                0 <= k <= n,
                group@ == spec_results_with_label_to(results@, label, k as int),
                wf_results(results@) ==> wf_results(group@),
            decreases n - k,
        {
            let ghost before = group@;
            if results[k].estimated_object.label == label {
                group.push(results[k]);
                proof {
                    assert(group@ =~= before + seq![results@[k as int]]);
                }
            }
            k = k + 1;
        }
        r.push(group);
        t = t + 1;
    }
    r
}

/// Count results by the target label of their estimation.
pub fn hash_num_results(results: &Vec<PerceptionResult>, target_labels: &Vec<Label>) -> (r: Vec<
    usize,
>)
    ensures
        r@.len() == target_labels@.len(),
        forall|i: int|
            0 <= i < target_labels@.len() ==> r@[i] == spec_results_with_label(
                results@,
                target_labels@[i],
            ).len(),
{
    let m = target_labels.len();
    let mut r: Vec<usize> = Vec::new();
    let mut t: usize = 0;
    while t < m
        invariant
            m == target_labels@.len(),
            0 <= t <= m,
            r@.len() == t,
            forall|i: int|
                0 <= i < t ==> r@[i] == spec_results_with_label(
                    results@,
                    target_labels@[i],
                ).len(),
        decreases m - t,
    {
        let label = target_labels[t];
        let mut count: usize = 0;
        let n = results.len();
        let mut k: usize = 0;
        while k < n
            invariant
                n == results@.len(),
                0 <= k <= n,
                count == spec_results_with_label_to(results@, label, k as int).len(),
                count <= k,
            decreases n - k,
        {
            if results[k].estimated_object.label == label {
                count = count + 1;
            }
            k = k + 1;
        }
        r.push(count);
        t = t + 1;
    }
    r
}

} // verus!
