//! Properties of the frame rules that hold for every state and input.

use vstd::prelude::*;
use crate::units::{GRAVITY, JUMP_VELOCITY, PIPE_SPEED, RECYCLE_OFFSET, SPAWN_X};
use crate::pipes::{PipePair, gap_in_range, pair_gap};
use crate::state::{GameState, draws_ok, is_fresh};
use crate::frame::{
    FrameInput, FrameOutput, any_crossing, move_of, crosses, jump_held, out_of_bounds, recycles,
    steps_to,
};

verus! {

/// On a running frame the velocity grows by gravity, unless a jump is
/// honored, in which case it is exactly the jump velocity.
pub proof fn law_velocity_step(
    s0: GameState,
    input: FrameInput,
    draws: Seq<i64>,
    s1: GameState,
    out: FrameOutput,
)
    requires
        steps_to(s0, input, draws, s1, out),
        !s0.lost,
        !input.restart,
    ensures
        jump_held(input) && s0.bird_velocity + GRAVITY > 0 ==> s1.bird_velocity == JUMP_VELOCITY,
        !(jump_held(input) && s0.bird_velocity + GRAVITY > 0) ==> s1.bird_velocity
            == s0.bird_velocity + GRAVITY,
{
}

/// A jump key held while the bird does not fall (velocity after gravity at
/// most zero) changes nothing: the frame ends as it would without the key.
pub proof fn law_jump_ignored_while_rising(
    s0: GameState,
    held: FrameInput,
    free: FrameInput,
    draws: Seq<i64>,
    s1: GameState,
    out1: FrameOutput,
    s2: GameState,
    out2: FrameOutput,
)
    requires
        steps_to(s0, held, draws, s1, out1),
        steps_to(s0, free, draws, s2, out2),
        !s0.lost,
        s0.bird_velocity + GRAVITY <= 0,
        held.bird_x == free.bird_x,
        held.bird_y == free.bird_y,
        held.collisions@ == free.collisions@,
        !free.space && !free.w && !free.up,
    ensures
        s1.bird_velocity == s2.bird_velocity,
        s1.bird_velocity == s0.bird_velocity + GRAVITY,
        s1.pipes@ == s2.pipes@,
        s1.lost == s2.lost,
        s1.score == s2.score,
        out1.bird_y == out2.bird_y,
        out1.moves@ == out2.moves@,
{
    assert forall|i: int| 0 <= i < s1.pipes@.len() implies s1.pipes@[i] == s2.pipes@[i] by {
        let p = s0.pipes@[i];
        if recycles(p) {
            assert(PipePair { top: s1.pipes@[i].top, bottom: s1.pipes@[i].bottom } == s1.pipes@[i]);
        }
    }
    assert(s1.pipes@ =~= s2.pipes@);
    assert forall|k: int| 0 <= k < out1.moves@.len() implies out1.moves@[k] == out2.moves@[k] by {
        let i = k / 2;
        assert(0 <= i < s1.pipes@.len());
        assert(k == 2 * i || k == 2 * i + 1);
        assert(s1.pipes@[i] == s2.pipes@[i]);
        assert(out1.moves@[2 * i] == move_of(i, true, s1.pipes@[i].top));
        assert(out2.moves@[2 * i] == move_of(i, true, s2.pipes@[i].top));
        assert(out1.moves@[2 * i + 1] == out2.moves@[2 * i + 1]);
    }
    assert(out1.moves@ =~= out2.moves@);
}

/// A running frame that takes the bird out of `[FLOOR_BOUND, CEILING_BOUND]`
/// ends the run in that frame, with one crash signal.
pub proof fn law_leaving_field_loses(
    s0: GameState,
    input: FrameInput,
    draws: Seq<i64>,
    s1: GameState,
    out: FrameOutput,
)
    requires
        steps_to(s0, input, draws, s1, out),
        !s0.lost,
        out_of_bounds(out.bird_y as int),
    ensures
        s1.lost,
        out.crash_sound,
        out.game_over,
{
}

/// Only the restart key ends a lost state: whatever else happens, a lost run
/// stays lost and nothing moves.
pub proof fn law_lost_stays_lost(
    s0: GameState,
    input: FrameInput,
    draws: Seq<i64>,
    s1: GameState,
    out: FrameOutput,
)
    requires
        steps_to(s0, input, draws, s1, out),
        s0.lost,
        !input.restart,
    ensures
        s1 == s0,
        s1.lost,
        !out.ran,
        !out.crash_sound,
{
}

/// On a running frame every pair that is not replaced moves left by exactly
/// `PIPE_SPEED` and keeps its heights.
pub proof fn law_pipes_scroll(
    s0: GameState,
    input: FrameInput,
    draws: Seq<i64>,
    s1: GameState,
    out: FrameOutput,
    i: int,
)
    requires
        steps_to(s0, input, draws, s1, out),
        !s0.lost,
        s0.wf(),
        0 <= i < s0.pipes@.len(),
        !recycles(s0.pipes@[i]),
    ensures
        s1.pipes@[i].top.x == s0.pipes@[i].top.x - PIPE_SPEED,
        s1.pipes@[i].bottom.x == s0.pipes@[i].bottom.x - PIPE_SPEED,
        s1.pipes@[i].top.y == s0.pipes@[i].top.y,
        s1.pipes@[i].bottom.y == s0.pipes@[i].bottom.y,
{
    assert(crate::pipes::pair_wf(s0.pipes@[i]));
}

/// An obstacle that is not replaced stays scored once scored, and becomes
/// scored in exactly the frame in which the bird first gets past its right
/// edge.
pub proof fn law_scored_once(
    s0: GameState,
    input: FrameInput,
    draws: Seq<i64>,
    s1: GameState,
    out: FrameOutput,
    i: int,
)
    requires
        steps_to(s0, input, draws, s1, out),
        !s0.lost,
        s0.wf(),
        0 <= i < s0.pipes@.len(),
        !recycles(s0.pipes@[i]),
    ensures
        s0.pipes@[i].top.scored ==> s1.pipes@[i].top.scored,
        s0.pipes@[i].bottom.scored ==> s1.pipes@[i].bottom.scored,
        (!s0.pipes@[i].top.scored && s1.pipes@[i].top.scored) <==> (!s0.pipes@[i].top.scored
            && input.bird_x > s1.pipes@[i].top.x + crate::units::PIPE_WIDTH),
        (!s0.pipes@[i].bottom.scored && s1.pipes@[i].bottom.scored) <==> (
        !s0.pipes@[i].bottom.scored && input.bird_x > s1.pipes@[i].bottom.x
            + crate::units::PIPE_WIDTH),
{
    assert(crate::pipes::pair_wf(s0.pipes@[i]));
}

/// The score grows by one in a frame in which some pair is passed for the
/// first time, and is otherwise unchanged: never by more than one.
pub proof fn law_score_step(
    s0: GameState,
    input: FrameInput,
    draws: Seq<i64>,
    s1: GameState,
    out: FrameOutput,
)
    requires
        steps_to(s0, input, draws, s1, out),
        !s0.lost,
    ensures
        any_crossing(s0.pipes@, input.bird_x as int) ==> s1.score == s0.score + 1,
        !any_crossing(s0.pipes@, input.bird_x as int) ==> s1.score == s0.score,
        out.confirm_sound == any_crossing(s0.pipes@, input.bird_x as int),
{
}

/// A pair whose obstacles are both scored is never counted again.
pub proof fn law_scored_pair_not_counted(p: PipePair, bird_x: int)
    requires
        p.top.scored,
        p.bottom.scored,
    ensures
        !crosses(p, bird_x),
{
}

/// A pair that leaves the field is replaced, in the same slot, by an unscored
/// pair at `SPAWN_X + RECYCLE_OFFSET` around a fresh gap centre in range.
pub proof fn law_recycled_pair_fresh(
    s0: GameState,
    input: FrameInput,
    draws: Seq<i64>,
    s1: GameState,
    out: FrameOutput,
    i: int,
)
    requires
        steps_to(s0, input, draws, s1, out),
        draws_ok(draws),
        !s0.lost,
        0 <= i < s0.pipes@.len(),
        s0.wf(),
        recycles(s0.pipes@[i]),
    ensures
        gap_in_range(pair_gap(s1.pipes@[i])),
        pair_gap(s1.pipes@[i]) == crate::units::GAP_LOW + draws[i],
        !s1.pipes@[i].top.scored,
        !s1.pipes@[i].bottom.scored,
        s1.pipes@[i].top.x == SPAWN_X + RECYCLE_OFFSET,
        s1.pipes@[i].bottom.x == SPAWN_X + RECYCLE_OFFSET,
{
    assert(0 <= i < s0.pipes@.len());
    assert(0 <= draws[i] < crate::units::GAP_SPAN);
}

/// Restarting a lost run gives exactly the state of a new game with the same
/// draws: no score, not lost, no velocity, and the starting pairs.
pub proof fn law_restart_is_new_game(
    s0: GameState,
    input: FrameInput,
    draws: Seq<i64>,
    s1: GameState,
    out: FrameOutput,
    fresh: GameState,
)
    requires
        steps_to(s0, input, draws, s1, out),
        s0.lost,
        input.restart,
        is_fresh(fresh, draws),
    ensures
        out.reset,
        s1.score == 0,
        !s1.lost,
        s1.bird_velocity == 0,
        s1.score == fresh.score,
        s1.lost == fresh.lost,
        s1.bird_velocity == fresh.bird_velocity,
        s1.pipes@ == fresh.pipes@,
{
    assert forall|i: int| 0 <= i < s1.pipes@.len() implies s1.pipes@[i] == fresh.pipes@[i] by {
        assert(PipePair { top: s1.pipes@[i].top, bottom: s1.pipes@[i].bottom } == s1.pipes@[i]);
    }
    assert(s1.pipes@ =~= fresh.pipes@);
}

} // verus!
