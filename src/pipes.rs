//! Obstacles and obstacle pairs, and the generator of fresh pairs.

use vstd::prelude::*;
use crate::units::{GAP_LOW, GAP_SPAN, MAX_PIPE_X, PIPE_GAP, PIPE_HEIGHT, PIPE_SHIFT, RECYCLE_X, SPAWN_X};
use crate::chance::draw_below;

verus! {

/// One obstacle: its horizontal position, its fixed vertical centre, and
/// whether the bird has already been credited for passing it.
#[derive(Clone, Copy, Debug, PartialEq, Eq, Structural)]
pub struct Pipe {
    pub x: i64,
    pub y: i64,
    pub scored: bool,
}

/// The two obstacles that frame one gap; both always share their position.
#[derive(Clone, Copy, Debug, PartialEq, Eq, Structural)]
pub struct PipePair {
    pub top: Pipe,
    pub bottom: Pipe,
}

/// The centre of the gap of a pair, read off its bottom obstacle.
pub open spec fn pair_gap(p: PipePair) -> int {
    p.bottom.y + PIPE_GAP + PIPE_SHIFT
}

/// `p` is the unscored pair at `SPAWN_X + offset` around the gap centre `gap`.
pub open spec fn is_pair_at(p: PipePair, offset: int, gap: int) -> bool {
    &&& p.top.x == SPAWN_X + offset
    &&& p.bottom.x == SPAWN_X + offset
    &&& p.top.y == gap + PIPE_HEIGHT - PIPE_SHIFT
    &&& p.bottom.y == gap - PIPE_GAP - PIPE_SHIFT
    &&& !p.top.scored
    &&& !p.bottom.scored
}

/// A gap centre the generator can produce.
pub open spec fn gap_in_range(gap: int) -> bool {
    GAP_LOW <= gap < GAP_LOW + GAP_SPAN
}

/// A pair as the game keeps it: both obstacles side by side, scored together,
/// one gap apart around a centre in range, and within the playing field.
pub open spec fn pair_wf(p: PipePair) -> bool {
    &&& p.top.x == p.bottom.x
    &&& RECYCLE_X <= p.top.x <= MAX_PIPE_X
    &&& p.top.y == pair_gap(p) + PIPE_HEIGHT - PIPE_SHIFT
    &&& gap_in_range(pair_gap(p))
    &&& p.top.scored == p.bottom.scored
}

impl Pipe {
    /// An obstacle at `(x, y)` that has not been scored yet.
    pub fn new(x: i64, y: i64) -> (r: Pipe)
        ensures
            r.x == x,
            r.y == y,
            !r.scored,
    {
        Pipe { x, y, scored: false }
    }
}

/// The pair at `SPAWN_X + offset` whose gap centre is `GAP_LOW + draw`.
pub fn pipe_pair_at(offset: i64, draw: i64) -> (r: PipePair)
    requires
        offset <= i64::MAX - SPAWN_X,
        0 <= draw < GAP_SPAN,
    ensures
        is_pair_at(r, offset as int, GAP_LOW + draw),
        pair_gap(r) == GAP_LOW + draw,
{
    let gap_y: i64 = GAP_LOW + draw;
    let x: i64 = SPAWN_X + offset;
    PipePair {
        top: Pipe::new(x, gap_y + PIPE_HEIGHT - PIPE_SHIFT),
        bottom: Pipe::new(x, gap_y - PIPE_GAP - PIPE_SHIFT),
    }
}

/// A fresh pair at `SPAWN_X + offset` with a gap centre drawn uniformly from
/// `[GAP_LOW, GAP_LOW + GAP_SPAN)`.
pub fn get_random_pipe(offset: i64) -> (r: PipePair)
    requires
        offset <= i64::MAX - SPAWN_X,
    ensures
        is_pair_at(r, offset as int, pair_gap(r)),
        gap_in_range(pair_gap(r)),
{
    let draw = draw_below(GAP_SPAN);
    pipe_pair_at(offset, draw)
}

} // verus!
