//! The injected randomness collaborator.
//!
//! Gameplay draws all of its randomness through a `RandomSource` handed in
//! by the caller.  The system source draws from the process-wide generator;
//! a fixed source replays a supplied sequence of values, so tests can drive
//! generation and confused wandering deterministically.

use vstd::prelude::*;

verus! {

/// Where random draws come from.
pub enum RandomSource {
    /// The process-wide generator.
    System,
    /// Replays `values` in order, cycling; `next` indexes the coming draw.
    Fixed { values: Vec<u64>, next: usize },
}

/// The raw value a fixed source yields at position `next`.
pub open spec fn fixed_draw(values: Seq<u64>, next: int) -> int {
    if values.len() == 0 {
        0
    } else {
        values[next % values.len() as int] as int
    }
}

/// The cursor position after one draw from a fixed source.
pub open spec fn fixed_advance(next: int) -> int {
    if next == usize::MAX {
        0
    } else {
        next + 1
    }
}

/// Relies on `rand::random_range` over `lo..hi`: the result is uniform in
/// the half-open range; the call panics on an empty range, so one is never
/// passed.
#[verifier::external_body]
fn system_range(lo: i32, hi: i32) -> (r: i32)
    requires
        lo < hi,
    ensures
        lo <= r < hi,
{
    rand::random_range(lo..hi)
}

/// Relies on `rand::random::<bool>`: a coin flip.  Nothing further can be
/// promised of a random value.
#[verifier::external_body]
fn system_coin() -> bool {
    rand::random::<bool>()
}

impl RandomSource {
    /// Draws a value in `lo..hi`.  A fixed source folds its scripted value
    /// into the range and advances its cursor.
    pub fn range(&mut self, lo: i32, hi: i32) -> (r: i32)
        requires
            lo < hi,
        ensures
            lo <= r < hi,
            *old(self) is System ==> *final(self) is System,
            *old(self) matches RandomSource::Fixed { values, next } ==> r == lo + fixed_draw(
                values@,
                next as int,
            ) % (hi - lo) && *final(self) == (RandomSource::Fixed {
                values,
                next: fixed_advance(next as int) as usize,
            }),
    {
        match self {
            RandomSource::System => system_range(lo, hi),
            RandomSource::Fixed { values, next } => {
                let len = values.len();
                let draw: u64 = if len == 0 {
                    0
                } else {
                    values[*next % len]
                };
                let span: i64 = (hi as i64) - (lo as i64);
                let offset: i64 = (draw % (span as u64)) as i64;
                let r = ((lo as i64) + offset) as i32;
                *next = if *next == usize::MAX {
                    0
                } else {
                    *next + 1
                };
                r
            },
        }
    }

    /// Flips a coin.  A fixed source reads the parity of its scripted value
    /// and advances its cursor.
    pub fn coin(&mut self) -> (r: bool)
        ensures
            *old(self) is System ==> *final(self) is System,
            *old(self) matches RandomSource::Fixed { values, next } ==> r == (fixed_draw(
                values@,
                next as int,
            ) % 2 == 0) && *final(self) == (RandomSource::Fixed {
                values,
                next: fixed_advance(next as int) as usize,
            }),
    {
        match self {
            RandomSource::System => system_coin(),
            RandomSource::Fixed { values, next } => {
                let len = values.len();
                let draw: u64 = if len == 0 {
                    0
                } else {
                    values[*next % len]
                };
                *next = if *next == usize::MAX {
                    0
                } else {
                    *next + 1
                };
                draw % 2 == 0
            },
        }
    }
}

} // verus!
