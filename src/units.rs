//! The game's constants. Lengths are in tenths of a pixel, speeds in tenths of
//! a pixel per frame.

use vstd::prelude::*;

verus! {

/// Added to the bird's velocity on every running frame (0.3 px).
pub const GRAVITY: i64 = 3;

/// The velocity a jump sets (-5 px per frame, i.e. upward).
pub const JUMP_VELOCITY: i64 = -50;

pub const BIRD_HEIGHT: i64 = 120;

pub const PIPE_WIDTH: i64 = 520;

/// Vertical size of the gap between the two obstacles of a pair.
pub const PIPE_GAP: i64 = 1250;

/// Horizontal distance between neighbouring pairs at the start of a run.
pub const PIPE_DIST: i64 = 2000;

pub const BASE_HEIGHT: i64 = 1120;

pub const PIPE_HEIGHT: i64 = 3200;

/// How far every obstacle moves left on each running frame.
pub const PIPE_SPEED: i64 = 20;

/// Height of the band in which gaps are placed.
pub const VIEWPORT_HEIGHT: i64 = 4000;

pub const VIEWPORT_WIDTH: i64 = 2880;

/// Half the height of the window (512 px tall).
pub const HALF_HEIGHT: i64 = 2560;

/// Vertical shift applied to both obstacles of a pair relative to its gap.
pub const PIPE_SHIFT: i64 = 1500;

/// Lowest vertical position of the bird that is still in play.
pub const FLOOR_BOUND: i64 = -HALF_HEIGHT + BIRD_HEIGHT + BASE_HEIGHT;

/// Highest vertical position of the bird that is still in play.
pub const CEILING_BOUND: i64 = HALF_HEIGHT - BIRD_HEIGHT;

/// Horizontal position of a pair generated with offset zero.
pub const SPAWN_X: i64 = VIEWPORT_WIDTH + 100;

/// Lowest gap centre: a fifth of `VIEWPORT_HEIGHT`.
pub const GAP_LOW: i64 = 800;

/// Number of possible gap centres: three fifths of `VIEWPORT_HEIGHT`, less
/// one gap. Gaps lie in `[GAP_LOW, GAP_LOW + GAP_SPAN)`.
pub const GAP_SPAN: i64 = 2400 - PIPE_GAP;

/// A pair whose position falls below this after scrolling is replaced.
pub const RECYCLE_X: i64 = -PIPE_WIDTH - PIPE_DIST;

/// Offset handed to the generator for a replacement pair.
pub const RECYCLE_OFFSET: i64 = VIEWPORT_WIDTH + 100;

/// Number of obstacle pairs in play.
pub const PAIR_COUNT: usize = 4;

/// Largest horizontal position an obstacle can have (the last pair at start).
pub const MAX_PIPE_X: i64 = SPAWN_X + 3 * PIPE_DIST;

/// Initial vertical position of the bird: half of `BASE_HEIGHT`.
pub const BIRD_START_Y: i64 = 560;

} // verus!
