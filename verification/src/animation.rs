//! Items on their way from tile to tile: where the glyph of a recorded
//! transaction stands at a given moment.

use crate::coord::TileCoord;
use crate::id::Id;
use crate::instance::{FractionalCoord, Placement, Transform};
use vstd::prelude::*;

verus! {

/// An item that left `source_coord` for `dest_coord` at `start_time`.
#[derive(Clone, Copy, Debug, PartialEq, Eq, Structural)]
pub struct TransactionRecord {
    pub source_coord: TileCoord,
    pub dest_coord: TileCoord,
    /// Nanoseconds on the caller's clock.
    pub start_time: u64,
    /// The item that travels.
    pub item: Id,
}

/// The nanoseconds from `start_time` to `now`: none where `now` is earlier.
pub open spec fn elapsed(start_time: u64, now: u64) -> u64 {
    if now >= start_time {
        (now - start_time) as u64
    } else {
        0
    }
}

/// The point on the way from `a` to `b` at the fraction `num / den`, which
/// may lie beyond `b`.
pub open spec fn lerp(a: TileCoord, b: TileCoord, num: u64, den: u64) -> FractionalCoord {
    FractionalCoord {
        q_num: (a.q * den + (b.q - a.q) * num) as i128,
        r_num: (a.r * den + (b.r - a.r) * num) as i128,
        den,
    }
}

/// Samples transactions that take `duration` nanoseconds each.
#[derive(Clone, Copy, Debug, PartialEq, Eq, Structural)]
pub struct AnimationSampler {
    duration: u64,
}

impl AnimationSampler {
    /// The nanoseconds that a transaction takes.
    pub closed spec fn duration(self) -> u64 {
        self.duration
    }

    /// A transaction takes some time.
    pub open spec fn wf(self) -> bool {
        self.duration() > 0
    }

    /// A sampler for transactions of `duration` nanoseconds, which must be
    /// more than none.
    pub fn new(duration: u64) -> (sampler: Option<AnimationSampler>)
        ensures
            sampler.is_some() <==> duration > 0,
            sampler matches Some(s) ==> s.duration() == duration && s.wf(),
    {
        if duration > 0 {
            Some(AnimationSampler { duration })
        } else {
            None
        }
    }

    /// How far the transaction has come at `now`: the nanoseconds that have
    /// passed, to be taken over the nanoseconds that it takes. Nothing caps
    /// them.
    pub fn progress(&self, record: &TransactionRecord, now: u64) -> (t: (u64, u64))
        ensures
            t.0 == elapsed(record.start_time, now),
            t.1 == self.duration(),
    {
        (now.saturating_sub(record.start_time), self.duration)
    }

    /// Whether the transaction has arrived and gone on: more time has passed
    /// than it takes.
    pub fn is_stale(&self, record: &TransactionRecord, now: u64) -> (stale: bool)
        ensures
            stale == self.stale(*record, now),
    {
        now.saturating_sub(record.start_time) > self.duration
    }

    /// The transform of the glyph of `record` at `now`.
    pub open spec fn sampled(self, record: TransactionRecord, now: u64) -> Transform {
        Transform {
            base: Placement::Glyph {
                at: lerp(
                    record.source_coord,
                    record.dest_coord,
                    elapsed(record.start_time, now),
                    self.duration(),
                ),
                heading_q: (record.dest_coord.q - record.source_coord.q) as i64,
                heading_r: (record.dest_coord.r - record.source_coord.r) as i64,
            },
            turn: 0,
        }
    }

    /// Whether more time has passed at `now` than the transaction takes.
    pub open spec fn stale(self, record: TransactionRecord, now: u64) -> bool {
        elapsed(record.start_time, now) > self.duration()
    }

    /// The transform of the glyph at `now`: on the straight way from source
    /// to destination, as far along as time has passed, and turned the way
    /// it travels. A stale transaction is carried on beyond its destination.
    pub fn sample(&self, record: &TransactionRecord, now: u64) -> (transform: Transform)
        ensures
            transform == self.sampled(*record, now),
    {
        let num: u64 = now.saturating_sub(record.start_time);
        let heading_q: i64 = record.dest_coord.q as i64 - record.source_coord.q as i64;
        let heading_r: i64 = record.dest_coord.r as i64 - record.source_coord.r as i64;
        let at = FractionalCoord {
            q_num: lerp_axis(record.source_coord.q, heading_q, num, self.duration),
            r_num: lerp_axis(record.source_coord.r, heading_r, num, self.duration),
            den: self.duration,
        };
        Transform { base: Placement::Glyph { at, heading_q, heading_r }, turn: 0 }
    }
}

/// One axis of [`lerp`], over the common denominator.
fn lerp_axis(from: i32, step: i64, num: u64, den: u64) -> (at: i128)
    requires
        -0x1_0000_0000 < step < 0x1_0000_0000,
    ensures
        at == from * den + step * num,
{
    assert(-0x8000_0000 * 0x1_0000_0000_0000_0000 <= from * den <= 0x8000_0000
        * 0x1_0000_0000_0000_0000) by (nonlinear_arith)
        requires
            -0x8000_0000 <= from <= 0x8000_0000,
            0 <= den <= 0x1_0000_0000_0000_0000,
    ;
    assert(-0x1_0000_0000 * 0x1_0000_0000_0000_0000 <= step * num <= 0x1_0000_0000
        * 0x1_0000_0000_0000_0000) by (nonlinear_arith)
        requires
            -0x1_0000_0000 <= step <= 0x1_0000_0000,
            0 <= num <= 0x1_0000_0000_0000_0000,
    ;
    from as i128 * den as i128 + step as i128 * num as i128
}

/// The way starts at the source, reaches the destination when the whole
/// duration has passed, and is half done after half of it.
pub proof fn lemma_lerp_ends(a: TileCoord, b: TileCoord, num: u64, den: u64)
    requires
        den > 0,
    ensures
        lerp(a, b, 0, den).q_num == a.q * den,
        lerp(a, b, 0, den).r_num == a.r * den,
        lerp(a, b, den, den).q_num == b.q * den,
        lerp(a, b, den, den).r_num == b.r * den,
        2 * num == den ==> 2 * lerp(a, b, num, den).q_num == (a.q + b.q) * den,
        2 * num == den ==> 2 * lerp(a, b, num, den).r_num == (a.r + b.r) * den,
{
    lemma_lerp_fits(a, b, 0, den);
    lemma_lerp_fits(a, b, den, den);
    lemma_lerp_fits(a, b, num, den);
    assert(a.q * den + (b.q - a.q) * den == b.q * den) by (nonlinear_arith);
    assert(a.r * den + (b.r - a.r) * den == b.r * den) by (nonlinear_arith);
    assert((b.q - a.q) * 0 == 0 && (b.r - a.r) * 0 == 0);
    if 2 * num == den {
        assert(2 * (a.q * den + (b.q - a.q) * num) == (a.q + b.q) * den) by (nonlinear_arith)
            requires
                2 * num == den,
        ;
        assert(2 * (a.r * den + (b.r - a.r) * num) == (a.r + b.r) * den) by (nonlinear_arith)
            requires
                2 * num == den,
        ;
    }
}

/// The numerators of [`lerp`] are what the formula says: 128 bits hold them.
pub proof fn lemma_lerp_fits(a: TileCoord, b: TileCoord, num: u64, den: u64)
    ensures
        lerp(a, b, num, den).q_num == a.q * den + (b.q - a.q) * num,
        lerp(a, b, num, den).r_num == a.r * den + (b.r - a.r) * num,
{
    assert(-0x8000_0000 * 0x1_0000_0000_0000_0000 <= a.q * den <= 0x8000_0000
        * 0x1_0000_0000_0000_0000) by (nonlinear_arith)
        requires
            -0x8000_0000 <= a.q <= 0x8000_0000,
            0 <= den <= 0x1_0000_0000_0000_0000,
    ;
    assert(-0x8000_0000 * 0x1_0000_0000_0000_0000 <= a.r * den <= 0x8000_0000
        * 0x1_0000_0000_0000_0000) by (nonlinear_arith)
        requires
            -0x8000_0000 <= a.r <= 0x8000_0000,
            0 <= den <= 0x1_0000_0000_0000_0000,
    ;
    assert(-0x1_0000_0000 * 0x1_0000_0000_0000_0000 <= (b.q - a.q) * num <= 0x1_0000_0000
        * 0x1_0000_0000_0000_0000) by (nonlinear_arith)
        requires
            -0x1_0000_0000 <= b.q - a.q <= 0x1_0000_0000,
            0 <= num <= 0x1_0000_0000_0000_0000,
    ;
    assert(-0x1_0000_0000 * 0x1_0000_0000_0000_0000 <= (b.r - a.r) * num <= 0x1_0000_0000
        * 0x1_0000_0000_0000_0000) by (nonlinear_arith)
        requires
            -0x1_0000_0000 <= b.r - a.r <= 0x1_0000_0000,
            0 <= num <= 0x1_0000_0000_0000_0000,
    ;
}

} // verus!
