//! Per-frame rules of a side-scrolling bird game: gravity and jumps, a row of
//! obstacle pairs that scroll, score and get recycled, and the game-over and
//! restart logic. All lengths are whole tenths of a screen pixel, so every
//! quantity of the game is exact.

pub mod units;
pub mod chance;
pub mod pipes;
pub mod state;
pub mod frame;
pub mod laws;
