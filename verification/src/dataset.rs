//! Ground-truth frames, as the dataset collaborator hands them over.

use vstd::prelude::*;

verus! {

use crate::object::DynamicObject;
use crate::result::wf_objects;

/// How far (in milliseconds) a frame's timestamp may lie from a query
/// timestamp and still count as the current frame.
pub const TIME_THRESHOLD: i64 = 75;

/// The ground-truth objects of one frame.
#[derive(Debug)]
pub struct FrameGroundTruth {
    /// Timestamp of the frame, in microseconds.
    pub timestamp: i64,
    /// The frame's ground-truth objects, in dataset order.
    pub objects: Vec<DynamicObject>,
}

impl FrameGroundTruth {
    /// Every object of the frame is within the representable limits.
    pub open spec fn wf(self) -> bool {
        wf_objects(self.objects@)
    }
}

impl Clone for FrameGroundTruth {
    fn clone(&self) -> (r: FrameGroundTruth)
        ensures
            r.timestamp == self.timestamp,
            r.objects@ == self.objects@,
    {
        let mut objects: Vec<DynamicObject> = Vec::new();
        let n = self.objects.len();
        let mut k: usize = 0;
        while k < n
            invariant
                n == self.objects@.len(),
                0 <= k <= n,
                objects@ == self.objects@.subrange(0, k as int),
            decreases n - k,
        {
            objects.push(self.objects[k]);
            k = k + 1;
        }
        proof {
            assert(objects@ =~= self.objects@);
        }
        FrameGroundTruth { timestamp: self.timestamp, objects }
    }
}

/// A microsecond timestamp in whole milliseconds, rounded toward minus
/// infinity.
pub open spec fn spec_ms(t: int) -> int {
    t / 1000
}

/// The distance of two timestamps in whole milliseconds.
pub open spec fn spec_time_diff(a: int, b: int) -> int {
    if spec_ms(a) - spec_ms(b) >= 0 {
        spec_ms(a) - spec_ms(b)
    } else {
        spec_ms(b) - spec_ms(a)
    }
}

/// The first index among `[0, k)` whose frame timestamp is nearest to
/// `ts` (earlier index wins ties).
pub open spec fn spec_nearest_idx_to(frames: Seq<FrameGroundTruth>, ts: int, k: int) -> int
    decreases k,
{
    if k <= 1 {
        0
    } else {
        let m = spec_nearest_idx_to(frames, ts, k - 1);
        if spec_time_diff(frames[k - 1].timestamp as int, ts) < spec_time_diff(
            frames[m].timestamp as int,
            ts,
        ) {
            k - 1
        } else {
            m
        }
    }
}

/// The index of the frame nearest to `ts`.
pub open spec fn spec_nearest_idx(frames: Seq<FrameGroundTruth>, ts: int) -> int {
    spec_nearest_idx_to(frames, ts, frames.len() as int)
}

/// A microsecond timestamp in whole milliseconds.
fn to_ms(t: i64) -> (r: i64)
    ensures
        r == spec_ms(t as int),
{
    let q = crate::math::div_floor_i128(t as i128, 1000);
    proof {
        vstd::arithmetic::div_mod::lemma_div_is_ordered(i64::MIN as int, t as int, 1000);
        vstd::arithmetic::div_mod::lemma_div_is_ordered(t as int, i64::MAX as int, 1000);
    }
    q as i64
}

/// The millisecond distance of two timestamps.
fn time_diff_ms(a: i64, b: i64) -> (r: i64)
    ensures
        r == spec_time_diff(a as int, b as int),
        r >= 0,
{
    let am = to_ms(a);
    let bm = to_ms(b);
    let d: i128 = am as i128 - bm as i128;
    if d >= 0 {
        d as i64
    } else {
        (-d) as i64
    }
}

/// Extract the frame whose timestamp is nearest to `timestamp`, when it is
/// within the time threshold; `None` otherwise, and for an empty list.
pub fn get_current_frame(frame_ground_truths: &Vec<FrameGroundTruth>, timestamp: i64) -> (r:
    Option<FrameGroundTruth>)
    ensures
        frame_ground_truths@.len() == 0 ==> r is None,
        frame_ground_truths@.len() > 0 ==> {
            let b = spec_nearest_idx(frame_ground_truths@, timestamp as int);
            if spec_time_diff(frame_ground_truths@[b].timestamp as int, timestamp as int)
                < TIME_THRESHOLD {
                r matches Some(f) && f.timestamp == frame_ground_truths@[b].timestamp && f.objects@
                    == frame_ground_truths@[b].objects@
            } else {
                r is None
            }
        },
{
    let n = frame_ground_truths.len();
    if n == 0 {
        return None;
    }
    let mut min_index: usize = 0;
    let mut min_diff: i64 = time_diff_ms(frame_ground_truths[0].timestamp, timestamp);
    let mut k: usize = 1;
    while k < n
        invariant
            n == frame_ground_truths@.len(),
            1 <= k <= n,
            0 <= min_index < k,
            min_index as int == spec_nearest_idx_to(frame_ground_truths@, timestamp as int, k as int),
            min_diff == spec_time_diff(
                frame_ground_truths@[min_index as int].timestamp as int,
                timestamp as int,
            ),
        decreases n - k,
    {
        let diff = time_diff_ms(frame_ground_truths[k].timestamp, timestamp);
        if diff < min_diff {
            min_index = k;
            min_diff = diff;
        }
        k = k + 1;
    }
    if min_diff < TIME_THRESHOLD {
        Some(frame_ground_truths[min_index].clone())
    } else {
        None
    }
}

} // verus!
