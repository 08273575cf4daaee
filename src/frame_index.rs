//! Conversions between stream timestamps and zero-based frame indices.
use vstd::prelude::*;

verus! {

/// A rational number as a stream reports it, such as a time base or a frame rate.
#[derive(Clone, Copy, Debug, PartialEq, Eq, Structural)]
pub struct Rational {
    pub num: i32,
    pub den: i32,
}

impl Rational {
    /// A scale that the mapper can work with: a non-negative numerator over a
    /// positive denominator.
    pub open spec fn wf(self) -> bool {
        self.num >= 0 && self.den > 0
    }
}

/// Microseconds per second: seek targets are stated in units of 1/1_000_000 s.
pub const MICROS_PER_SECOND: i64 = 1_000_000;

/// The frame index of presentation timestamp `ts`, as an unbounded integer:
/// `floor(ts * time_base.num * frame_rate.num / (time_base.den * frame_rate.den))`.
pub open spec fn frame_of(ts: int, time_base: Rational, frame_rate: Rational) -> int {
    (ts * time_base.num * frame_rate.num) / (time_base.den * frame_rate.den)
}

/// The approximate seek target, in microseconds, of frame `frame`: the frame
/// rate's denominator is taken as 1, so this is `floor(frame * 1_000_000 / frame_rate.num)`.
pub open spec fn seek_micros_of(frame: int, frame_rate: Rational) -> int {
    (frame * MICROS_PER_SECOND) / (frame_rate.num as int)
}

/// Maps a presentation timestamp to its frame index. Gives `None` where the
/// index is negative or does not fit in a `u32`.
pub fn ts_to_frame(ts: i64, time_base: Rational, frame_rate: Rational) -> (r: Option<u32>)
    requires
        time_base.wf(),
        frame_rate.wf(),
    ensures
        r == (if 0 <= frame_of(ts as int, time_base, frame_rate) <= u32::MAX {
            Some(frame_of(ts as int, time_base, frame_rate) as u32)
        } else {
            None::<u32>
        }),
{
    let t = ts as i128;
    let a = time_base.num as i128;
    let b = frame_rate.num as i128;
    let c = time_base.den as i128;
    let d = frame_rate.den as i128;
    proof {
        assert(-0x8000_0000_0000_0000 * 0x8000_0000 <= t * a <= 0x8000_0000_0000_0000 * 0x8000_0000)
            by (nonlinear_arith)
            requires -0x8000_0000_0000_0000 <= t < 0x8000_0000_0000_0000, 0 <= a < 0x8000_0000;
        assert(-0x8000_0000_0000_0000 * 0x8000_0000 * 0x8000_0000 <= t * a * b
            <= 0x8000_0000_0000_0000 * 0x8000_0000 * 0x8000_0000) by (nonlinear_arith)
            requires
                -0x8000_0000_0000_0000 * 0x8000_0000 <= t * a <= 0x8000_0000_0000_0000 * 0x8000_0000,
                0 <= b < 0x8000_0000;
        assert(0 < c * d < 0x8000_0000 * 0x8000_0000) by (nonlinear_arith)
            requires 0 < c < 0x8000_0000, 0 < d < 0x8000_0000;
    }
    let n: i128 = t * a * b;
    let m: i128 = c * d;
    if n < 0 {
        proof {
            assert(n / m < 0) by (nonlinear_arith) requires n < 0, m > 0;
        }
        None
    } else {
        let q: i128 = n / m;
        if q > u32::MAX as i128 {
            None
        } else {
            Some(q as u32)
        }
    }
}

/// The seek target of frame `frame`, in microseconds.
pub fn seek_micros(frame: u32, frame_rate: Rational) -> (r: i64)
    requires
        frame_rate.num > 0,
    ensures
        r == seek_micros_of(frame as int, frame_rate),
{
    let n: i64 = frame as i64 * MICROS_PER_SECOND;
    let q: i64 = n / (frame_rate.num as i64);
    q
}

} // verus!
