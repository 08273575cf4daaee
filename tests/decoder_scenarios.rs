use frame_decoder::cache::{DecodedFrame, CAPACITY, HALF_WINDOW};
use frame_decoder::frame_index::Rational;
use frame_decoder::worker::{DecoderState, PacketAction, RequestStart};
use std::sync::Arc;

const WIDTH: usize = 4;
const HEIGHT: usize = 3;

/// The RGBA bytes of frame `i` of the synthetic stream.
fn pixels(i: u32) -> Vec<u8> {
    (0..WIDTH * HEIGHT * 4)
        .map(|b| (i as usize).wrapping_mul(31).wrapping_add(b) as u8)
        .collect()
}

/// A constant-frame-rate stream of `total` frames, one packet per frame, with a
/// keyframe every `gop` frames and a time base of 1/fps, driven through the
/// worker state the way the decode loop drives it.
struct Synthetic {
    total: u32,
    gop: u32,
    fps: i32,
    state: DecoderState,
    next: u32,
    stash: Option<u32>,
    decode_steps: u32,
}

impl Synthetic {
    fn new(total: u32, gop: u32, fps: i32) -> Synthetic {
        let state = DecoderState::new(
            Rational { num: 1, den: fps },
            Rational { num: fps, den: 1 },
        )
        .unwrap();
        Synthetic { total, gop, fps, state, next: 0, stash: None, decode_steps: 0 }
    }

    fn seek(&mut self, micros: i64) {
        let frame = (micros * self.fps as i64 / 1_000_000) as u32;
        self.next = (frame / self.gop * self.gop).min(self.total);
        self.stash = None;
    }

    fn next_packet(&mut self) -> Option<u32> {
        if let Some(p) = self.stash.take() {
            return Some(p);
        }
        if self.next < self.total {
            self.next += 1;
            Some(self.next - 1)
        } else {
            None
        }
    }

    fn serve_with(&mut self, frame: u32, newer_waiting: bool) -> Option<DecodedFrame> {
        let mut answer = None;
        match self.state.begin_request(frame) {
            RequestStart::Cached(f) => return Some(f),
            RequestStart::Seek(position) => self.seek(position),
            RequestStart::Resume => {}
        }
        loop {
            let Some(p) = self.next_packet() else {
                self.state.end_of_stream();
                return answer;
            };
            let index = self.state.packet_index(Some(p as i64));
            match self.state.packet(index, true, newer_waiting) {
                PacketAction::Preempted { .. } | PacketAction::OutOfWindow { .. } => {
                    self.stash = Some(p);
                    return answer;
                }
                PacketAction::Skip => {}
                PacketAction::Decode => {
                    self.decode_steps += 1;
                    if let Some(f) = self.state.frame_decoded(index, Arc::new(pixels(p))) {
                        answer = Some(f);
                    }
                }
            }
        }
    }

    fn get_frame(&mut self, frame: u32) -> Option<DecodedFrame> {
        self.serve_with(frame, false)
    }

    fn cached(&self) -> Vec<u32> {
        (0..self.total).filter(|&i| self.state.is_cached(i)).collect()
    }
}

#[test]
fn every_frame_has_full_rgba_buffer() {
    for f in 0..300u32 {
        let mut s = Synthetic::new(300, 30, 30);
        let got = s.get_frame(f).unwrap();
        assert_eq!(got.len(), WIDTH * HEIGHT * 4);
        assert_eq!(*got, pixels(f));
    }
}

#[test]
fn repeated_request_gives_identical_frame() {
    let mut s = Synthetic::new(300, 30, 30);
    let a = s.get_frame(120).unwrap();
    let b = s.get_frame(120).unwrap();
    assert_eq!(*a, *b);
    assert!(Arc::ptr_eq(&a, &b));
}

#[test]
fn cache_never_exceeds_capacity() {
    let mut s = Synthetic::new(1000, 30, 30);
    let requests = [0u32, 40, 41, 80, 79, 500, 490, 510, 10, 999, 300, 301, 302, 250, 700, 0];
    for r in requests {
        s.get_frame(r);
        assert!(s.state.cache_len() <= CAPACITY);
        assert_eq!(s.cached().len(), s.state.cache_len());
    }
    let mut t = Synthetic::new(1000, 100, 30);
    for r in (0..900u32).step_by(7) {
        t.get_frame(r);
        assert!(t.state.cache_len() <= CAPACITY);
    }
}

#[test]
fn increasing_requests_evict_smallest() {
    let mut s = Synthetic::new(2000, 1000, 30);
    s.get_frame(30);
    let mut before = s.cached();
    for r in (60..900u32).step_by(30) {
        s.get_frame(r);
        let after = s.cached();
        assert!(after.len() <= CAPACITY);
        let evicted: Vec<u32> = before.iter().copied().filter(|k| !after.contains(k)).collect();
        for e in &evicted {
            assert!(after.iter().all(|k| k > e));
            assert_ne!(Some(e), before.last());
        }
        before = after;
    }
    assert_eq!(s.state.cache_len(), CAPACITY);
}

#[test]
fn backward_request_matches_fresh_decoder() {
    let mut s = Synthetic::new(300, 30, 30);
    s.get_frame(200).unwrap();
    let back = s.get_frame(50).unwrap();
    let mut fresh = Synthetic::new(300, 30, 30);
    let direct = fresh.get_frame(50).unwrap();
    assert_eq!(*back, *direct);
    assert_eq!(*back, pixels(50));
}

#[test]
fn preempted_requests_waste_no_scan() {
    let mut s = Synthetic::new(3000, 30, 30);
    let f = 100u32;
    let first = s.serve_with(f, true);
    assert!(first.is_none());
    assert_eq!(s.decode_steps, 0);
    let second = s.serve_with(f + 1000, true);
    assert!(second.is_none());
    assert_eq!(s.decode_steps, 0);
    let third = s.serve_with(f + 2000, false).unwrap();
    assert_eq!(*third, pixels(f + 2000));
    assert!(s.decode_steps < 60);
}

#[test]
fn end_of_stream_is_not_found_and_worker_survives() {
    let mut s = Synthetic::new(300, 30, 30);
    assert!(s.get_frame(300).is_none());
    assert!(s.get_frame(1000).is_none());
    assert_eq!(s.state.serving(), None);
    assert_eq!(*s.get_frame(5).unwrap(), pixels(5));
}

#[test]
fn ten_second_stream_scenario() {
    let mut s = Synthetic::new(300, 30, 30);
    assert_eq!(*s.get_frame(0).unwrap(), pixels(0));
    assert_eq!(*s.get_frame(299).unwrap(), pixels(299));
    assert!(s.get_frame(300).is_none());
    let a = s.get_frame(150).unwrap();
    let b = s.get_frame(10).unwrap();
    let c = s.get_frame(150).unwrap();
    assert_eq!(*b, pixels(10));
    assert_eq!(*a, *c);
    assert_eq!(*a, pixels(150));
}

#[test]
fn cache_holds_only_the_window() {
    let mut s = Synthetic::new(300, 30, 30);
    s.get_frame(100).unwrap();
    let keys = s.cached();
    assert!(keys.iter().all(|&k| k + HALF_WINDOW >= 100 && k <= 100 + HALF_WINDOW));
    assert_eq!(keys.first(), Some(&90));
    assert_eq!(keys.last(), Some(&125));
    assert_eq!(s.state.cached_range(), Some((90, 125)));
    assert_eq!(s.state.last_decoded_frame(), Some(125));
    assert_eq!(s.state.last_active_frame(), Some(100));
}
