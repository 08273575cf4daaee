//! The decisions of the decode worker, as a state machine. The loop that owns
//! the container and the decoder feeds it events and carries out its actions.
use crate::cache::{
    admitted, max_key, min_key, share, DecodedFrame, FrameCache, CAPACITY, HALF_WINDOW,
};
use crate::frame_index::{frame_of, seek_micros, seek_micros_of, ts_to_frame, Rational};
use vstd::prelude::*;

verus! {

/// What the worker does first for a new request.
pub enum RequestStart {
    /// The frame was cached: answer with it; the request is done.
    Cached(DecodedFrame),
    /// Flush the decoder, drop any stashed packet and seek the container to this
    /// position, in microseconds; then feed packets.
    Seek(i64),
    /// Feed packets from where decoding stands, the stashed packet first.
    Resume,
}

/// What the worker does with the next packet of the container.
pub enum PacketAction {
    /// A newer request waits: stash the packet. The request is over; answer it
    /// "not found" if `unanswered`.
    Preempted { unanswered: bool },
    /// The packet belongs to another stream: drop it.
    Skip,
    /// The packet lies beyond the admission window: stash it. The request is
    /// over; answer it "not found" if `unanswered`.
    OutOfWindow { unanswered: bool },
    /// Send the packet to the decoder and hand each frame it yields, converted
    /// and with its own index, to `frame_decoded`.
    Decode,
}

/// The worker's state as the contracts see it.
pub struct DecoderView {
    pub time_base: Rational,
    pub frame_rate: Rational,
    /// The cached frames, by index.
    pub cache: Map<u32, DecodedFrame>,
    /// The index most recently requested by a client; it sets the direction of eviction.
    pub last_active: Option<u32>,
    /// The index of the last frame the decoder yielded since the last seek.
    pub last_decoded: Option<u32>,
    /// The request being served, if any.
    pub target: Option<u32>,
    /// Whether the request being served has had its answer.
    pub answered: bool,
}

impl DecoderView {
    pub open spec fn wf(self) -> bool {
        &&& self.cache.dom().finite()
        &&& self.cache.len() <= CAPACITY
        &&& self.time_base.wf()
        &&& self.frame_rate.wf()
        &&& self.frame_rate.num > 0
        &&& match self.target {
            Some(t) => !self.answered ==> !self.cache.contains_key(t),
            None => true,
        }
    }

    /// The state once the request being served is over.
    pub open spec fn finished(self) -> DecoderView {
        DecoderView { last_active: self.target, target: None, ..self }
    }
}

/// A request for `frame` needs a seek: it asks for the first frame, nothing has
/// been decoded since the last seek, or decoding has gone past it.
pub open spec fn needs_seek(last_decoded: Option<u32>, frame: u32) -> bool {
    frame == 0 || match last_decoded {
        None => true,
        Some(d) => frame < d,
    }
}

/// Index `i` lies in the admission window `[target - HALF_WINDOW, target + HALF_WINDOW]`.
pub open spec fn in_window(i: u32, target: u32) -> bool {
    target - HALF_WINDOW <= i <= target + HALF_WINDOW
}

/// The state of a worker that has served nothing yet.
pub open spec fn fresh(time_base: Rational, frame_rate: Rational) -> DecoderView {
    DecoderView {
        time_base,
        frame_rate,
        cache: Map::empty(),
        last_active: None,
        last_decoded: None,
        target: None,
        answered: false,
    }
}

/// The state that the decode worker keeps between requests and packets.
pub struct DecoderState {
    time_base: Rational,
    frame_rate: Rational,
    cache: FrameCache,
    last_active: Option<u32>,
    last_decoded: Option<u32>,
    target: Option<u32>,
    answered: bool,
}

impl View for DecoderState {
    type V = DecoderView;

    closed spec fn view(&self) -> DecoderView {
        DecoderView {
            time_base: self.time_base,
            frame_rate: self.frame_rate,
            cache: self.cache@,
            last_active: self.last_active,
            last_decoded: self.last_decoded,
            target: self.target,
            answered: self.answered,
        }
    }
}

impl DecoderState {
    /// A worker state for a stream with this time base and frame rate. Gives
    /// `None` where either has a negative numerator or a denominator that is not
    /// positive, or the frame rate is zero.
    pub fn new(time_base: Rational, frame_rate: Rational) -> (r: Option<DecoderState>)
        ensures
            match r {
                Some(s) => time_base.wf() && frame_rate.wf() && frame_rate.num > 0 && s@ == fresh(
                    time_base,
                    frame_rate,
                ),
                None => !(time_base.wf() && frame_rate.wf() && frame_rate.num > 0),
            },
            r matches Some(s) ==> s@.wf(),
    {
        if time_base.num < 0 || time_base.den <= 0 || frame_rate.num <= 0 || frame_rate.den <= 0 {
            return None;
        }
        Some(
            DecoderState {
                time_base,
                frame_rate,
                cache: FrameCache::new(),
                last_active: None,
                last_decoded: None,
                target: None,
                answered: false,
            },
        )
    }

    /// Starts serving a request for `frame`. A cached frame answers it at once
    /// and it becomes the last requested index. Otherwise the request becomes the
    /// one being served, unanswered; where it needs a seek, the cache is cleared
    /// and the index of the last decoded frame forgotten.
    pub fn begin_request(&mut self, frame: u32) -> (r: RequestStart)
        requires
            old(self)@.wf(),
        ensures
            final(self)@.wf(),
            match r {
                RequestStart::Cached(f) => {
                    &&& old(self)@.cache.contains_key(frame)
                    &&& f == old(self)@.cache[frame]
                    &&& final(self)@ == (DecoderView {
                        last_active: Some(frame),
                        target: None,
                        ..old(self)@
                    })
                },
                RequestStart::Seek(position) => {
                    &&& !old(self)@.cache.contains_key(frame)
                    &&& needs_seek(old(self)@.last_decoded, frame)
                    &&& position == seek_micros_of(frame as int, old(self)@.frame_rate)
                    &&& final(self)@ == (DecoderView {
                        cache: Map::empty(),
                        last_decoded: None,
                        target: Some(frame),
                        answered: false,
                        ..old(self)@
                    })
                },
                RequestStart::Resume => {
                    &&& !old(self)@.cache.contains_key(frame)
                    &&& !needs_seek(old(self)@.last_decoded, frame)
                    &&& final(self)@ == (DecoderView {
                        target: Some(frame),
                        answered: false,
                        ..old(self)@
                    })
                },
            },
    {
        let cached = self.cache.get(frame);
        if let Some(f) = cached {
            self.last_active = Some(frame);
            self.target = None;
            return RequestStart::Cached(f);
        }
        let seek = match self.last_decoded {
            None => true,
            Some(d) => frame == 0 || frame < d,
        };
        self.target = Some(frame);
        self.answered = false;
        if seek {
            self.cache.clear();
            self.last_decoded = None;
            let position = seek_micros(frame, self.frame_rate);
            RequestStart::Seek(position)
        } else {
            RequestStart::Resume
        }
    }

    /// Ends the request being served; it becomes the last requested index.
    fn finish(&mut self)
        requires
            old(self)@.wf(),
            old(self)@.target is Some,
        ensures
            final(self)@.wf(),
            final(self)@ == old(self)@.finished(),
    {
        self.last_active = self.target;
        self.target = None;
    }

    /// Decides on the next packet of the container while a request is served.
    /// `frame` is the packet's index (`None` where its timestamp has none), and
    /// `newer_waiting` says whether a newer request is queued. A newer request
    /// preempts before anything else; packets of other streams are dropped; a
    /// video packet beyond the admission window ends the request; any other
    /// video packet goes to the decoder.
    pub fn packet(&mut self, frame: Option<u32>, is_video: bool, newer_waiting: bool) -> (r:
        PacketAction)
        requires
            old(self)@.wf(),
            old(self)@.target is Some,
        ensures
            final(self)@.wf(),
            match r {
                PacketAction::Preempted { unanswered } => {
                    &&& newer_waiting
                    &&& unanswered == !old(self)@.answered
                    &&& final(self)@ == old(self)@.finished()
                },
                PacketAction::Skip => {
                    &&& !newer_waiting
                    &&& !is_video
                    &&& final(self)@ == old(self)@
                },
                PacketAction::OutOfWindow { unanswered } => {
                    &&& !newer_waiting
                    &&& is_video
                    &&& frame matches Some(i) && i > old(self)@.target->Some_0 + HALF_WINDOW
                    &&& unanswered == !old(self)@.answered
                    &&& final(self)@ == old(self)@.finished()
                },
                PacketAction::Decode => {
                    &&& !newer_waiting
                    &&& is_video
                    &&& !(frame matches Some(i) && i > old(self)@.target->Some_0 + HALF_WINDOW)
                    &&& final(self)@ == old(self)@
                },
            },
    {
        if newer_waiting {
            let unanswered = !self.answered;
            self.finish();
            return PacketAction::Preempted { unanswered };
        }
        if !is_video {
            return PacketAction::Skip;
        }
        let target = match self.target {
            Some(t) => t,
            None => 0,
        };
        if let Some(i) = frame {
            if i as u64 > target as u64 + HALF_WINDOW as u64 {
                let unanswered = !self.answered;
                self.finish();
                return PacketAction::OutOfWindow { unanswered };
            }
        }
        PacketAction::Decode
    }

    /// Takes a frame that the decoder yielded, with its own index (`None` where
    /// its timestamp gives none; such a frame is dropped). The index becomes the
    /// last decoded one. The frame answers the request where its index is the
    /// target and no answer was given yet, and it is stored in the cache where
    /// its index lies in the admission window.
    pub fn frame_decoded(&mut self, index: Option<u32>, frame: DecodedFrame) -> (r: Option<
        DecodedFrame,
    >)
        requires
            old(self)@.wf(),
            old(self)@.target is Some,
        ensures
            final(self)@.wf(),
            match index {
                None => r is None && final(self)@ == old(self)@,
                Some(i) => {
                    let t = old(self)@.target->Some_0;
                    &&& r == (if i == t && !old(self)@.answered {
                        Some(frame)
                    } else {
                        None
                    })
                    &&& final(self)@ == (DecoderView {
                        cache: if in_window(i, t) {
                            admitted(old(self)@.cache, i, frame, t, old(self)@.last_active)
                        } else {
                            old(self)@.cache
                        },
                        answered: old(self)@.answered || i == t,
                        last_decoded: Some(i),
                        ..old(self)@
                    })
                },
            },
            r matches Some(f) ==> final(self)@.cache.contains_key(final(self)@.target->Some_0)
                && final(self)@.cache[final(self)@.target->Some_0] == f,
    {
        let i = match index {
            Some(i) => i,
            None => {
                return None;
            },
        };
        let t = match self.target {
            Some(t) => t,
            None => 0,
        };
        self.last_decoded = Some(i);
        let reply = if i == t && !self.answered {
            Some(share(&frame))
        } else {
            None
        };
        if i == t {
            self.answered = true;
        }
        if i as u64 + HALF_WINDOW as u64 >= t as u64 && i as u64 <= t as u64 + HALF_WINDOW as u64 {
            self.cache.store(i, frame, t, self.last_active);
        }
        reply
    }

    /// Ends the request being served when the container has no packets left.
    /// Gives whether it is still unanswered, to be answered "not found".
    pub fn end_of_stream(&mut self) -> (unanswered: bool)
        requires
            old(self)@.wf(),
            old(self)@.target is Some,
        ensures
            final(self)@.wf(),
            unanswered == !old(self)@.answered,
            final(self)@ == old(self)@.finished(),
    {
        let unanswered = !self.answered;
        self.finish();
        unanswered
    }

    /// The frame index of a packet with presentation timestamp `pts` in this
    /// stream: `None` where there is no timestamp, or where the index is
    /// negative or does not fit in a `u32`.
    pub fn packet_index(&self, pts: Option<i64>) -> (r: Option<u32>)
        requires
            self@.wf(),
        ensures
            match pts {
                None => r is None,
                Some(ts) => {
                    let f = frame_of(ts as int, self@.time_base, self@.frame_rate);
                    r == (if 0 <= f <= u32::MAX {
                        Some(f as u32)
                    } else {
                        None::<u32>
                    })
                },
            },
    {
        match pts {
            None => None,
            Some(ts) => ts_to_frame(ts, self.time_base, self.frame_rate),
        }
    }

    /// Whether a frame is cached at `index`.
    pub fn is_cached(&self, index: u32) -> (r: bool)
        ensures
            r == self@.cache.contains_key(index),
    {
        self.cache.contains(index)
    }

    /// The number of cached frames.
    pub fn cache_len(&self) -> (r: usize)
        ensures
            r == self@.cache.len(),
    {
        self.cache.len()
    }

    /// The smallest and the largest cached index, `None` for an empty cache.
    pub fn cached_range(&self) -> (r: Option<(u32, u32)>)
        requires
            self@.wf(),
        ensures
            match r {
                Some((lo, hi)) => self@.cache.len() > 0 && lo == min_key(self@.cache) && hi
                    == max_key(self@.cache),
                None => self@.cache.len() == 0,
            },
    {
        match (self.cache.smallest(), self.cache.largest()) {
            (Some(lo), Some(hi)) => Some((lo, hi)),
            _ => None,
        }
    }

    /// The index most recently requested by a client.
    pub fn last_active_frame(&self) -> (r: Option<u32>)
        ensures
            r == self@.last_active,
    {
        self.last_active
    }

    /// The index of the last frame the decoder yielded since the last seek.
    pub fn last_decoded_frame(&self) -> (r: Option<u32>)
        ensures
            r == self@.last_decoded,
    {
        self.last_decoded
    }

    /// The request being served, if any.
    pub fn serving(&self) -> (r: Option<u32>)
        ensures
            r == self@.target,
    {
        self.target
    }
}

} // verus!
