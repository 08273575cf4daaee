//! Properties of the cache and of the worker's decisions that hold across calls.
use crate::cache::{
    admitted, is_greatest_key, is_least_key, lemma_min_max_keys, max_key, min_key, DecodedFrame,
    CAPACITY,
};
use crate::worker::{fresh, needs_seek, DecoderView};
use vstd::prelude::*;

verus! {

/// A full cache holds distinct smallest and largest indices.
proof fn lemma_full_min_below_max(m: Map<u32, DecodedFrame>)
    requires
        m.dom().finite(),
        m.len() == CAPACITY,
    ensures
        is_least_key(m, min_key(m)),
        is_greatest_key(m, max_key(m)),
        min_key(m) < max_key(m),
{
    lemma_min_max_keys(m);
    if min_key(m) == max_key(m) {
        assert(m.dom() =~= set![min_key(m)]);
        assert(m.dom().len() == 1);
    }
}

/// While the playhead moves forward (the target lies above the index requested
/// before it), a frame stored into a full cache evicts the entry with the
/// smallest index and keeps every other one, the largest among them.
pub proof fn lemma_forward_scrub_evicts_smallest(
    m: Map<u32, DecodedFrame>,
    key: u32,
    frame: DecodedFrame,
    target: u32,
    last_active: u32,
)
    requires
        m.dom().finite(),
        m.len() == CAPACITY,
        !m.contains_key(key),
        target > last_active,
    ensures
        admitted(m, key, frame, target, Some(last_active)) == m.remove(min_key(m)).insert(
            key,
            frame,
        ),
        is_least_key(m, min_key(m)),
        forall|j: u32|
            m.contains_key(j) && j != min_key(m) ==> #[trigger] admitted(
                m,
                key,
                frame,
                target,
                Some(last_active),
            ).contains_key(j),
        admitted(m, key, frame, target, Some(last_active)).contains_key(max_key(m)),
{
    lemma_full_min_below_max(m);
}

/// While the playhead moves back (the target lies below the index requested
/// before it), a frame stored into a full cache evicts the entry with the
/// largest index and keeps every other one, the smallest among them.
pub proof fn lemma_backward_scrub_evicts_largest(
    m: Map<u32, DecodedFrame>,
    key: u32,
    frame: DecodedFrame,
    target: u32,
    last_active: u32,
)
    requires
        m.dom().finite(),
        m.len() == CAPACITY,
        !m.contains_key(key),
        target < last_active,
    ensures
        admitted(m, key, frame, target, Some(last_active)) == m.remove(max_key(m)).insert(
            key,
            frame,
        ),
        is_greatest_key(m, max_key(m)),
        admitted(m, key, frame, target, Some(last_active)).contains_key(min_key(m)),
{
    lemma_full_min_below_max(m);
}

/// Two requests for the same index, with no other request between them, where
/// the cache holds that index: both are answered from the cache, with the same
/// frame, since answering from the cache leaves the cache as it was.
pub proof fn lemma_repeated_request_same_frame(v: DecoderView, frame: u32)
    requires
        v.wf(),
        v.cache.contains_key(frame),
    ensures
        ({
            let after_first = DecoderView { last_active: Some(frame), target: None, ..v };
            &&& after_first.wf()
            &&& after_first.cache.contains_key(frame)
            &&& after_first.cache[frame] == v.cache[frame]
        }),
{
}

/// Asking for `f2` below the index of the last decoded frame seeks, and the
/// worker then stands where a new worker for the same stream stands after
/// being asked for `f2`: the same seek position, an empty cache, nothing decoded
/// and nothing answered. Only the index requested before differs, which sets
/// the direction of eviction and nothing else.
pub proof fn lemma_backward_request_as_fresh(v: DecoderView, f2: u32)
    requires
        v.wf(),
        v.last_decoded matches Some(d) && f2 < d,
        !v.cache.contains_key(f2),
    ensures
        needs_seek(v.last_decoded, f2),
        needs_seek(fresh(v.time_base, v.frame_rate).last_decoded, f2),
        !fresh(v.time_base, v.frame_rate).cache.contains_key(f2),
        (DecoderView {
            cache: Map::empty(),
            last_decoded: None,
            target: Some(f2),
            answered: false,
            ..v
        }) == (DecoderView {
            cache: Map::empty(),
            last_decoded: None,
            target: Some(f2),
            answered: false,
            last_active: v.last_active,
            ..fresh(v.time_base, v.frame_rate)
        }),
{
}

} // verus!
