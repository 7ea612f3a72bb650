//! Looking up the threshold that belongs to a label.
//!
//! Threshold lists are index-aligned with the list of target labels: the
//! threshold for a label stands at the index of the label's first
//! occurrence among the target labels.

use vstd::prelude::*;

verus! {

use crate::label::Label;

/// The index of the first occurrence of `label` in `labels`, if any.
pub open spec fn spec_label_position(labels: Seq<Label>, label: Label) -> Option<int>
    decreases labels.len(),
{
    if labels.len() == 0 {
        None
    } else if labels[0] == label {
        Some(0)
    } else {
        match spec_label_position(labels.drop_first(), label) {
            Some(i) => Some(i + 1),
            None => None,
        }
    }
}

/// The first occurrence really is an occurrence, and the first one.
pub proof fn lemma_label_position(labels: Seq<Label>, label: Label)
    ensures
        match spec_label_position(labels, label) {
            Some(i) => 0 <= i < labels.len() && labels[i] == label && forall|j: int|
                0 <= j < i ==> labels[j] != label,
            None => forall|j: int| 0 <= j < labels.len() ==> labels[j] != label,
        },
    decreases labels.len(),
{
    if labels.len() > 0 && labels[0] != label {
        let rest = labels.drop_first();
        lemma_label_position(rest, label);
        match spec_label_position(rest, label) {
            Some(i) => {
                assert(labels[i + 1] == rest[i]);
                assert forall|j: int| 0 <= j < i + 1 implies labels[j] != label by {
                    if j > 0 {
                        assert(labels[j] == rest[j - 1]);
                    }
                }
            },
            None => {
                assert forall|j: int| 0 <= j < labels.len() implies labels[j] != label by {
                    if j > 0 {
                        assert(labels[j] == rest[j - 1]);
                    }
                }
            },
        }
    }
}

/// Returns the threshold aligned with `label`'s first occurrence among
/// `target_labels`, or `None` when the label is not a target.
pub fn get_label_threshold<T: Copy>(
    label: &Label,
    target_labels: &Vec<Label>,
    thresholds: &Vec<T>,
) -> (r: Option<T>)
    requires
        thresholds@.len() == target_labels@.len(),
    ensures
        match spec_label_position(target_labels@, *label) {
            Some(i) => r matches Some(t) && t == thresholds@[i],
            None => r is None,
        },
{
    proof {
        lemma_label_position(target_labels@, *label);
    }
    let n = target_labels.len();
    let mut k: usize = 0;
    while k < n
        invariant
            n == target_labels@.len() == thresholds@.len(),
            0 <= k <= n,
            forall|j: int| 0 <= j < k ==> target_labels@[j] != *label,
            match spec_label_position(target_labels@, *label) {
                Some(i) => 0 <= i < n && target_labels@[i] == *label && forall|j: int|
                    0 <= j < i ==> target_labels@[j] != *label,
                None => forall|j: int| 0 <= j < n ==> target_labels@[j] != *label,
            },
        decreases n - k,
    {
        if target_labels[k] == *label {
            proof {
                let pos = spec_label_position(target_labels@, *label);
                assert(pos is Some);
                let i = pos->0;
                if i < k {
                    assert(target_labels@[i] == *label);
                }
                if i > k {
                    assert(target_labels@[k as int] != *label);
                }
            }
            return Some(thresholds[k]);
        }
        k = k + 1;
    }
    None
}

/// Extracts the threshold value that corresponds to a label.
#[derive(Debug, Clone)]
pub struct LabelThreshold {
    pub label: Label,
    pub target_labels: Vec<Label>,
}

impl LabelThreshold {
    /// Remember a label together with the target-label list it is to be
    /// looked up in.
    pub fn new(label: &Label, target_labels: &Vec<Label>) -> (r: LabelThreshold)
        ensures
            r.label == *label,
            r.target_labels@ == target_labels@,
    {
        let mut copied: Vec<Label> = Vec::new();
        let n = target_labels.len();
        let mut k: usize = 0;
        while k < n
            invariant
                n == target_labels@.len(),
                0 <= k <= n,
                copied@ == target_labels@.subrange(0, k as int),
            decreases n - k,
        {
            copied.push(target_labels[k]);
            k = k + 1;
        }
        proof {
            assert(copied@ =~= target_labels@);
        }
        LabelThreshold { label: *label, target_labels: copied }
    }

    /// Returns the threshold aligned with this label's first occurrence.
    pub fn get_threshold<T: Copy>(&self, thresholds: &Vec<T>) -> (r: Option<T>)
        requires
            thresholds@.len() == self.target_labels@.len(),
        ensures
            match spec_label_position(self.target_labels@, self.label) {
                Some(i) => r matches Some(t) && t == thresholds@[i],
                None => r is None,
            },
    {
        get_label_threshold(&self.label, &self.target_labels, thresholds)
    }
}

} // verus!
