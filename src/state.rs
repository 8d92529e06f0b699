//! The record that one run of the game keeps between frames, and how a run is
//! set up and torn down.

use vstd::prelude::*;
use crate::units::{GAP_SPAN, PAIR_COUNT, PIPE_DIST};
use crate::pipes::{PipePair, pipe_pair_at, is_pair_at, pair_wf, gap_in_range, pair_gap};
use crate::chance::draw_below;

verus! {

/// State of one run: the bird's vertical velocity (positive is downward),
/// whether the run is over, the obstacle pairs by slot, and the score.
pub struct GameState {
    pub bird_velocity: i64,
    pub lost: bool,
    pub pipes: Vec<PipePair>,
    pub score: u32,
}

/// Gap draws for the slots: one per slot, each in `[0, GAP_SPAN)`.
pub open spec fn draws_ok(draws: Seq<i64>) -> bool {
    &&& draws.len() == PAIR_COUNT
    &&& forall|i: int| 0 <= i < draws.len() ==> 0 <= #[trigger] draws[i] < GAP_SPAN
}

/// `pipes` holds the pairs of a run's start: slot `i` sits `i * PIPE_DIST`
/// further right, around the gap centre `GAP_LOW + draws[i]`.
pub open spec fn starting_pipes(pipes: Seq<PipePair>, draws: Seq<i64>) -> bool {
    &&& pipes.len() == PAIR_COUNT
    &&& forall|i: int|
        0 <= i < PAIR_COUNT ==> is_pair_at(
            #[trigger] pipes[i],
            i * PIPE_DIST,
            crate::units::GAP_LOW + draws[i],
        )
}

/// The state at the start of a run, with the gap draws `draws`.
pub open spec fn is_fresh(s: GameState, draws: Seq<i64>) -> bool {
    &&& s.bird_velocity == 0
    &&& !s.lost
    &&& s.score == 0
    &&& starting_pipes(s.pipes@, draws)
}

impl GameState {
    /// A state in play: exactly `PAIR_COUNT` pairs, each well formed.
    pub open spec fn wf(&self) -> bool {
        &&& self.pipes@.len() == PAIR_COUNT
        &&& forall|i: int| 0 <= i < self.pipes@.len() ==> pair_wf(#[trigger] self.pipes@[i])
    }
}

impl Default for GameState {
    /// No velocity, not lost, no pairs, no score.
    fn default() -> (r: Self)
        ensures
            r.bird_velocity == 0,
            !r.lost,
            r.pipes@.len() == 0,
            r.score == 0,
    {
        GameState { bird_velocity: 0, lost: false, pipes: Vec::new(), score: 0 }
    }
}

/// A fresh state is one in play.
pub proof fn lemma_fresh_is_wf(s: GameState, draws: Seq<i64>)
    requires
        is_fresh(s, draws),
        draws_ok(draws),
    ensures
        s.wf(),
{
    assert forall|i: int| 0 <= i < s.pipes@.len() implies pair_wf(#[trigger] s.pipes@[i]) by {
        assert(is_pair_at(s.pipes@[i], i * PIPE_DIST, crate::units::GAP_LOW + draws[i]));
        assert(0 <= draws[i] < GAP_SPAN);
    }
}

/// Drops every obstacle pair of the run; the other fields stay.
pub fn teardown(state: &mut GameState)
    ensures
        final(state).pipes@.len() == 0,
        final(state).bird_velocity == old(state).bird_velocity,
        final(state).lost == old(state).lost,
        final(state).score == old(state).score,
{
    state.pipes.clear();
}

/// Places the `PAIR_COUNT` starting pairs, slot `i` at offset `i * PIPE_DIST`
/// with the gap draw `draws[i]`; the other fields stay.
pub fn setup(state: &mut GameState, draws: &Vec<i64>)
    requires
        old(state).pipes@.len() == 0,
        draws_ok(draws@),
    ensures
        starting_pipes(final(state).pipes@, draws@),
        final(state).bird_velocity == old(state).bird_velocity,
        final(state).lost == old(state).lost,
        final(state).score == old(state).score,
{
    let mut i: usize = 0;
    while i < PAIR_COUNT
        invariant
            0 <= i <= PAIR_COUNT,
            draws_ok(draws@),
            state.pipes@.len() == i,
            forall|j: int|
                0 <= j < i ==> is_pair_at(
                    #[trigger] state.pipes@[j],
                    j * PIPE_DIST,
                    crate::units::GAP_LOW + draws@[j],
                ),
            state.bird_velocity == old(state).bird_velocity,
            state.lost == old(state).lost,
            state.score == old(state).score,
        decreases PAIR_COUNT - i,
    {
        let offset: i64 = i as i64 * PIPE_DIST;
        let pair = pipe_pair_at(offset, draws[i]);
        state.pipes.push(pair);
        i = i + 1;
    }
}

/// The state at the start of a run, with the gap draws `draws`.
pub fn new_game(draws: &Vec<i64>) -> (r: GameState)
    requires
        draws_ok(draws@),
    ensures
        is_fresh(r, draws@),
        r.wf(),
{
    let mut state = GameState::default();
    setup(&mut state, draws);
    proof {
        lemma_fresh_is_wf(state, draws@);
    }
    state
}

/// One random gap draw for each slot.
pub fn draw_gaps() -> (r: Vec<i64>)
    ensures
        draws_ok(r@),
{
    let mut draws: Vec<i64> = Vec::new();
    let mut i: usize = 0;
    while i < PAIR_COUNT
        invariant
            0 <= i <= PAIR_COUNT,
            draws@.len() == i,
            forall|j: int| 0 <= j < i ==> 0 <= #[trigger] draws@[j] < GAP_SPAN,
        decreases PAIR_COUNT - i,
    {
        draws.push(draw_below(GAP_SPAN));
        i = i + 1;
    }
    draws
}

/// The state at the start of a run, with random gaps: every pair sits at its
/// starting position around a gap centre in range.
pub fn new_game_random() -> (r: GameState)
    ensures
        r.wf(),
        r.bird_velocity == 0,
        !r.lost,
        r.score == 0,
        forall|i: int|
            0 <= i < PAIR_COUNT ==> is_pair_at(
                #[trigger] r.pipes@[i],
                i * PIPE_DIST,
                pair_gap(r.pipes@[i]),
            ) && gap_in_range(pair_gap(r.pipes@[i])),
{
    let draws = draw_gaps();
    let r = new_game(&draws);
    assert forall|i: int| 0 <= i < PAIR_COUNT implies is_pair_at(
        #[trigger] r.pipes@[i],
        i * PIPE_DIST,
        pair_gap(r.pipes@[i]),
    ) && gap_in_range(pair_gap(r.pipes@[i])) by {
        assert(0 <= draws@[i] < GAP_SPAN);
    }
    r
}

} // verus!
