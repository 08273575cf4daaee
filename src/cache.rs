//! The bounded frame cache and its direction-aware eviction.
use std::collections::BTreeMap;
use std::sync::Arc;
use vstd::prelude::*;
use vstd::relations::{is_maximal, is_minimal, total_ordering};

verus! {

/// One decoded frame: a single RGBA plane, shared and never mutated.
pub type DecodedFrame = Arc<Vec<u8>>;

/// How many frames the cache holds at most.
pub const CAPACITY: usize = 50;

/// Half the admission window: frames within this distance of a target are cached.
pub const HALF_WINDOW: u32 = 25;

/// Relies on Arc::clone: the result points to the same allocation, so it is the
/// same frame.
#[verifier::external_body]
pub(crate) fn share(frame: &DecodedFrame) -> (r: DecodedFrame)
    ensures
        r == *frame,
{
    Arc::clone(frame)
}

/// `k` is an index of `m` no larger than any other.
pub open spec fn is_least_key(m: Map<u32, DecodedFrame>, k: u32) -> bool {
    m.contains_key(k) && forall|j: u32| m.contains_key(j) ==> k <= j
}

/// `k` is an index of `m` no smaller than any other.
pub open spec fn is_greatest_key(m: Map<u32, DecodedFrame>, k: u32) -> bool {
    m.contains_key(k) && forall|j: u32| m.contains_key(j) ==> j <= k
}

/// Relies on BTreeMap::first_key_value: the entry with the minimum key, `None`
/// for an empty map.
#[verifier::external_body]
fn first_key(m: &BTreeMap<u32, DecodedFrame>) -> (r: Option<u32>)
    ensures
        match r {
            Some(k) => is_least_key(m@, k),
            None => m@.dom().is_empty(),
        },
{
    m.first_key_value().map(|(k, _)| *k)
}

/// Relies on BTreeMap::last_key_value: the entry with the maximum key, `None`
/// for an empty map.
#[verifier::external_body]
fn last_key(m: &BTreeMap<u32, DecodedFrame>) -> (r: Option<u32>)
    ensures
        match r {
            Some(k) => is_greatest_key(m@, k),
            None => m@.dom().is_empty(),
        },
{
    m.last_key_value().map(|(k, _)| *k)
}

/// The order of frame indices.
pub open spec fn key_leq(a: u32, b: u32) -> bool {
    a <= b
}

/// The smallest cached index.
pub open spec fn min_key(m: Map<u32, DecodedFrame>) -> u32 {
    m.dom().find_unique_minimal(|a: u32, b: u32| key_leq(a, b))
}

/// The largest cached index.
pub open spec fn max_key(m: Map<u32, DecodedFrame>) -> u32 {
    m.dom().find_unique_maximal(|a: u32, b: u32| key_leq(a, b))
}

/// A finite cache that holds something has a smallest and a largest index.
pub proof fn lemma_min_max_keys(m: Map<u32, DecodedFrame>)
    requires
        m.dom().finite(),
        m.len() > 0,
    ensures
        is_least_key(m, min_key(m)),
        is_greatest_key(m, max_key(m)),
{
    let r = |a: u32, b: u32| key_leq(a, b);
    assert(total_ordering(r));
    m.dom().find_unique_minimal_ensures(r);
    m.dom().find_unique_maximal_ensures(r);
    let lo = min_key(m);
    let hi = max_key(m);
    assert(is_minimal(r, lo, m.dom()));
    assert(is_maximal(r, hi, m.dom()));
    assert forall|j: u32| m.contains_key(j) implies lo <= j && j <= hi by {
        assert(r(j, lo) ==> r(lo, j));
        assert(r(hi, j) ==> r(j, hi));
    }
}

/// The index that goes when a frame is stored into a full cache: the smallest
/// when the playhead moves forward (`target > last_active`), the largest when it
/// moves back, and when it stays, the smallest if `key` lies above every cached
/// index, else the largest.
pub open spec fn victim(m: Map<u32, DecodedFrame>, key: u32, target: u32, last_active: u32) -> u32 {
    if target > last_active || (target == last_active && key > max_key(m)) {
        min_key(m)
    } else {
        max_key(m)
    }
}

/// The cache after frame `frame` at index `key` is stored into a cache `m`,
/// while the decode for `target` runs and `last_active` is the index most
/// recently requested before it. An index already cached keeps its frame. A
/// cache at capacity first evicts `victim`, or is cleared when no request came
/// before.
pub open spec fn admitted(
    m: Map<u32, DecodedFrame>,
    key: u32,
    frame: DecodedFrame,
    target: u32,
    last_active: Option<u32>,
) -> Map<u32, DecodedFrame> {
    if m.contains_key(key) {
        m
    } else if m.len() < CAPACITY {
        m.insert(key, frame)
    } else {
        match last_active {
            None => Map::empty().insert(key, frame),
            Some(la) => m.remove(victim(m, key, target, la)).insert(key, frame),
        }
    }
}

/// Frames already decoded, by index, at most `CAPACITY` of them.
pub struct FrameCache {
    map: BTreeMap<u32, DecodedFrame>,
}

impl View for FrameCache {
    type V = Map<u32, DecodedFrame>;

    closed spec fn view(&self) -> Map<u32, DecodedFrame> {
        self.map@
    }
}

impl FrameCache {
    /// Finitely many entries, and no more than the capacity.
    pub open spec fn wf(&self) -> bool {
        self@.dom().finite() && self@.len() <= CAPACITY
    }

    /// An empty cache.
    pub fn new() -> (r: FrameCache)
        ensures
            r.wf(),
            r@ == Map::<u32, DecodedFrame>::empty(),
    {
        FrameCache { map: BTreeMap::new() }
    }

    /// The number of cached frames.
    pub fn len(&self) -> (r: usize)
        ensures
            r == self@.len(),
    {
        self.map.len()
    }

    /// Whether a frame is cached at `key`.
    pub fn contains(&self, key: u32) -> (r: bool)
        ensures
            r == self@.contains_key(key),
    {
        self.map.contains_key(&key)
    }

    /// The smallest cached index, `None` for an empty cache.
    pub fn smallest(&self) -> (r: Option<u32>)
        requires
            self.wf(),
        ensures
            match r {
                Some(k) => self@.len() > 0 && k == min_key(self@),
                None => self@.len() == 0,
            },
    {
        let r = first_key(&self.map);
        proof {
            if let Some(k) = r {
                lemma_min_max_keys(self@);
                assert(k <= min_key(self@) && min_key(self@) <= k);
            }
        }
        r
    }

    /// The largest cached index, `None` for an empty cache.
    pub fn largest(&self) -> (r: Option<u32>)
        requires
            self.wf(),
        ensures
            match r {
                Some(k) => self@.len() > 0 && k == max_key(self@),
                None => self@.len() == 0,
            },
    {
        let r = last_key(&self.map);
        proof {
            if let Some(k) = r {
                lemma_min_max_keys(self@);
                assert(k <= max_key(self@) && max_key(self@) <= k);
            }
        }
        r
    }

    /// The frame cached at `key`, if any.
    pub fn get(&self, key: u32) -> (r: Option<DecodedFrame>)
        ensures
            r == (if self@.contains_key(key) {
                Some(self@[key])
            } else {
                None::<DecodedFrame>
            }),
    {
        match self.map.get(&key) {
            Some(f) => Some(share(f)),
            None => None,
        }
    }

    /// Removes every entry.
    pub fn clear(&mut self)
        ensures
            final(self).wf(),
            final(self)@ == Map::<u32, DecodedFrame>::empty(),
    {
        self.map.clear();
    }

    /// Stores `frame` at index `key` while the decode for `target` runs, with
    /// `last_active` the index most recently requested before it: an index
    /// already cached keeps its frame, and a full cache evicts as `admitted` says.
    pub fn store(&mut self, key: u32, frame: DecodedFrame, target: u32, last_active: Option<u32>)
        requires
            old(self).wf(),
        ensures
            final(self).wf(),
            final(self)@ == admitted(old(self)@, key, frame, target, last_active),
    {
        if self.map.contains_key(&key) {
            return;
        }
        if self.map.len() >= CAPACITY {
            match last_active {
                None => {
                    self.map.clear();
                },
                Some(la) => {
                    let lo = match self.smallest() {
                        Some(k) => k,
                        None => 0,
                    };
                    let hi = match self.largest() {
                        Some(k) => k,
                        None => 0,
                    };
                    let v = if target > la || (target == la && key > hi) {
                        lo
                    } else {
                        hi
                    };
                    let ghost before = self@;
                    proof {
                        lemma_min_max_keys(before);
                        assert(before.contains_key(v));
                    }
                    self.map.remove(&v);
                    proof {
                        assert(self@.dom() =~= before.dom().remove(v));
                        assert(self@.len() == before.len() - 1);
                    }
                },
            }
        }
        let ghost before = self@;
        self.map.insert(key, frame);
        proof {
            assert(self@.dom() =~= before.dom().insert(key));
            assert(self@.len() == before.len() + 1);
        }
    }
}

} // verus!
