//! One frame of the game: the rules that turn the state, the bird's position
//! and the input of a frame into the next state and the actions for the
//! screen and the speakers.

use vstd::prelude::*;
use crate::units::{
    CEILING_BOUND, FLOOR_BOUND, GAP_LOW, GRAVITY, JUMP_VELOCITY, PAIR_COUNT, PIPE_SPEED,
    PIPE_WIDTH, RECYCLE_OFFSET, RECYCLE_X,
};
use crate::pipes::{Pipe, PipePair, is_pair_at, pair_wf, pipe_pair_at};
use crate::state::{GameState, draws_ok, is_fresh, lemma_fresh_is_wf, setup, teardown, draw_gaps};

verus! {

/// Two actors that touched, by name.
pub struct CollisionEvent {
    pub first: String,
    pub second: String,
}

/// What the game reads at the start of a frame: the bird's position, the keys
/// held (restart, and the three jump keys), and the collisions since the last
/// frame.
pub struct FrameInput {
    pub bird_x: i64,
    pub bird_y: i64,
    pub restart: bool,
    pub space: bool,
    pub w: bool,
    pub up: bool,
    pub collisions: Vec<CollisionEvent>,
}

/// Where an obstacle's actor must be drawn: slot, which of the two, position.
#[derive(Clone, Copy, Debug, PartialEq, Eq, Structural)]
pub struct SpriteMove {
    pub slot: usize,
    pub top: bool,
    pub x: i64,
    pub y: i64,
}

/// What a frame asks of the screen and the speakers.
///
/// `reset`: tear the actors and texts down and build them again from the new
/// state (bird at its start, music, "Score: 0"). `ran`: the bird moved to
/// `bird_y`, and every obstacle actor goes where `moves` says; a recycled pair
/// is drawn at its new place in the same frame. `crash_sound`,
/// `confirm_sound`: play those effects. `score_changed`: show the new score.
/// `game_over`: show the end-of-run texts and stop the music.
pub struct FrameOutput {
    pub reset: bool,
    pub ran: bool,
    pub bird_y: i64,
    pub moves: Vec<SpriteMove>,
    pub crash_sound: bool,
    pub confirm_sound: bool,
    pub score_changed: bool,
    pub game_over: bool,
}

pub open spec fn jump_held(input: FrameInput) -> bool {
    input.space || input.w || input.up
}

pub open spec fn names_bird(e: CollisionEvent) -> bool {
    e.first@ == "bird"@ || e.second@ == "bird"@
}

/// Some collision of the frame involves the bird.
pub open spec fn bird_hit(events: Seq<CollisionEvent>) -> bool {
    exists|k: int| 0 <= k < events.len() && names_bird(#[trigger] events[k])
}

pub open spec fn out_of_bounds(y: int) -> bool {
    y < FLOOR_BOUND || y > CEILING_BOUND
}

/// The velocity after gravity and, if honored, a jump.
pub open spec fn next_velocity(v: int, input: FrameInput) -> int {
    if jump_held(input) && v + GRAVITY > 0 {
        JUMP_VELOCITY as int
    } else {
        v + GRAVITY
    }
}

/// An obstacle one step further left, scored once the bird is past it.
pub open spec fn scrolled_pipe(p: Pipe, bird_x: int) -> Pipe {
    Pipe {
        x: (p.x - PIPE_SPEED) as i64,
        y: p.y,
        scored: p.scored || bird_x > p.x - PIPE_SPEED + PIPE_WIDTH,
    }
}

pub open spec fn scrolled_pair(p: PipePair, bird_x: int) -> PipePair {
    PipePair { top: scrolled_pipe(p.top, bird_x), bottom: scrolled_pipe(p.bottom, bird_x) }
}

/// The bird passes an obstacle of `p` for the first time in this step.
pub open spec fn crosses(p: PipePair, bird_x: int) -> bool {
    ||| (!p.top.scored && bird_x > p.top.x - PIPE_SPEED + PIPE_WIDTH)
    ||| (!p.bottom.scored && bird_x > p.bottom.x - PIPE_SPEED + PIPE_WIDTH)
}

/// After this step `p` has left the field and is replaced.
pub open spec fn recycles(p: PipePair) -> bool {
    p.top.x - PIPE_SPEED < RECYCLE_X
}

/// `q` is what slot holding `p` holds after a step: the replacement with the
/// gap draw `draw`, or `p` scrolled.
pub open spec fn next_pair(p: PipePair, bird_x: int, draw: int, q: PipePair) -> bool {
    if recycles(p) {
        is_pair_at(q, RECYCLE_OFFSET as int, GAP_LOW + draw)
    } else {
        q == scrolled_pair(p, bird_x)
    }
}

pub open spec fn any_crossing(pipes: Seq<PipePair>, bird_x: int) -> bool {
    exists|i: int| 0 <= i < pipes.len() && crosses(#[trigger] pipes[i], bird_x)
}

pub open spec fn move_of(slot: int, top: bool, p: Pipe) -> SpriteMove {
    SpriteMove { slot: slot as usize, top, x: p.x, y: p.y }
}

/// `moves` places the two actors of every slot, top first, slot by slot.
pub open spec fn moves_match(moves: Seq<SpriteMove>, pipes: Seq<PipePair>) -> bool {
    &&& moves.len() == 2 * pipes.len()
    &&& forall|i: int|
        0 <= i < pipes.len() ==> moves[2 * i] == move_of(i, true, #[trigger] pipes[i].top)
            && moves[2 * i + 1] == move_of(i, false, pipes[i].bottom)
}

/// An output that asks for nothing.
pub open spec fn quiet(out: FrameOutput) -> bool {
    &&& !out.ran
    &&& out.moves@.len() == 0
    &&& !out.crash_sound
    &&& !out.confirm_sound
    &&& !out.score_changed
    &&& !out.game_over
}

/// The arithmetic of a running frame fits the machine integers.
pub open spec fn frame_fits(s: GameState, input: FrameInput) -> bool {
    &&& s.bird_velocity + GRAVITY <= i64::MAX
    &&& i64::MIN <= input.bird_y - (s.bird_velocity + GRAVITY) <= i64::MAX
    &&& s.score < u32::MAX
}

/// The rules of one frame: `s1` and `out` are what the state `s0` and the
/// input give, with the gap draws `draws` for pairs that are created.
pub open spec fn steps_to(
    s0: GameState,
    input: FrameInput,
    draws: Seq<i64>,
    s1: GameState,
    out: FrameOutput,
) -> bool {
    if s0.lost {
        if input.restart {
            is_fresh(s1, draws) && out.reset && quiet(out)
        } else {
            s1 == s0 && !out.reset && quiet(out)
        }
    } else {
        let v1 = s0.bird_velocity + GRAVITY;
        let y1 = input.bird_y - v1;
        let scored = any_crossing(s0.pipes@, input.bird_x as int);
        &&& !out.reset
        &&& out.ran
        &&& out.bird_y == y1
        &&& s1.bird_velocity == next_velocity(s0.bird_velocity as int, input)
        &&& s1.pipes@.len() == s0.pipes@.len()
        &&& forall|i: int|
            0 <= i < s0.pipes@.len() ==> next_pair(
                #[trigger] s0.pipes@[i],
                input.bird_x as int,
                draws[i] as int,
                s1.pipes@[i],
            )
        &&& s1.score == s0.score + if scored {
            1int
        } else {
            0int
        }
        &&& out.confirm_sound == scored
        &&& out.score_changed == scored
        &&& s1.lost == (out_of_bounds(y1) || bird_hit(input.collisions@))
        &&& out.crash_sound == s1.lost
        &&& out.game_over == s1.lost
        &&& moves_match(out.moves@, s1.pipes@)
    }
}

/// The step of a well-formed pair keeps it well formed.
pub proof fn lemma_next_pair_wf(p: PipePair, bird_x: int, draw: int, q: PipePair)
    requires
        pair_wf(p),
        0 <= draw < crate::units::GAP_SPAN,
        next_pair(p, bird_x, draw, q),
    ensures
        pair_wf(q),
{
}

/// Moves an obstacle one step left and scores it once the bird is past it;
/// returns whether it was scored by this step.
fn scroll_pipe(p: &mut Pipe, bird_x: i64) -> (crossed: bool)
    requires
        old(p).x >= RECYCLE_X,
        old(p).x <= crate::units::MAX_PIPE_X,
    ensures
        *final(p) == scrolled_pipe(*old(p), bird_x as int),
        crossed == (!old(p).scored && bird_x > old(p).x - PIPE_SPEED + PIPE_WIDTH),
{
    p.x = p.x - PIPE_SPEED;
    if bird_x > p.x + PIPE_WIDTH && !p.scored {
        p.scored = true;
        true
    } else {
        false
    }
}

/// Whether an actor name is the bird's.
fn is_bird(name: &String) -> (r: bool)
    ensures
        r == (name@ == "bird"@),
{
    let bird = String::from_str("bird");
    name.eq(&bird)
}

fn quiet_output(reset: bool) -> (out: FrameOutput)
    ensures
        out.reset == reset,
        quiet(out),
{
    FrameOutput {
        reset,
        ran: false,
        bird_y: 0,
        moves: Vec::new(),
        crash_sound: false,
        confirm_sound: false,
        score_changed: false,
        game_over: false,
    }
}

/// Runs one frame of the game with the gap draws `draws`, one per slot, used
/// for the pairs that this frame creates.
///
/// A lost run waits for the restart key and then starts afresh. A running
/// frame applies gravity, ends the run if the bird leaves the field, honors a
/// jump only while the bird falls, scrolls every pair and scores the ones the
/// bird has just passed (one point per frame at most), replaces the pairs
/// that left the field, and ends the run on any collision of the bird.
pub fn advance(state: &mut GameState, input: &FrameInput, draws: &Vec<i64>) -> (out: FrameOutput)
    requires
        old(state).wf(),
        draws_ok(draws@),
        !old(state).lost ==> frame_fits(*old(state), *input),
    ensures
        final(state).wf(),
        steps_to(*old(state), *input, draws@, *final(state), out),
{
    if state.lost && input.restart {
        teardown(state);
        *state = GameState::default();
        setup(state, draws);
        proof {
            lemma_fresh_is_wf(*state, draws@);
        }
        return quiet_output(true);
    }
    if state.lost {
        return quiet_output(false);
    }
    let ghost s0 = *state;

    state.bird_velocity = state.bird_velocity + GRAVITY;
    let bird_y: i64 = input.bird_y - state.bird_velocity;
    if bird_y < FLOOR_BOUND || bird_y > CEILING_BOUND {
        state.lost = true;
    }

    if (input.space || input.w || input.up) && state.bird_velocity > 0 {
        state.bird_velocity = JUMP_VELOCITY;
    }

    let bird_x = input.bird_x;
    let mut should_increment_score = false;
    let mut i: usize = 0;
    while i < PAIR_COUNT
        invariant
            0 <= i <= PAIR_COUNT,
            s0.wf(),
            draws_ok(draws@),
            state.pipes@.len() == PAIR_COUNT,
            forall|j: int|
                0 <= j < i ==> next_pair(
                    #[trigger] s0.pipes@[j],
                    bird_x as int,
                    draws@[j] as int,
                    state.pipes@[j],
                ),
            forall|j: int| i <= j < PAIR_COUNT ==> #[trigger] state.pipes@[j] == s0.pipes@[j],
            should_increment_score == exists|j: int|
                0 <= j < i && crosses(#[trigger] s0.pipes@[j], bird_x as int),
            state.bird_velocity == next_velocity(s0.bird_velocity as int, *input),
            state.lost == out_of_bounds(bird_y as int),
            state.score == s0.score,
        decreases PAIR_COUNT - i,
    {
        let mut pair = state.pipes[i];
        assert(pair_wf(s0.pipes@[i as int]));
        let crossed_top = scroll_pipe(&mut pair.top, bird_x);
        let crossed_bottom = scroll_pipe(&mut pair.bottom, bird_x);
        proof {
            if crosses(s0.pipes@[i as int], bird_x as int) {
                assert(crossed_top || crossed_bottom);
            }
        }
        if crossed_top || crossed_bottom {
            should_increment_score = true;
        }
        if pair.top.x < RECYCLE_X {
            pair = pipe_pair_at(RECYCLE_OFFSET, draws[i]);
        }
        state.pipes.set(i, pair);
        i = i + 1;
    }

    if should_increment_score {
        state.score = state.score + 1;
    }

    let mut moves: Vec<SpriteMove> = Vec::new();
    let mut m: usize = 0;
    while m < PAIR_COUNT
        invariant
            0 <= m <= PAIR_COUNT,
            state.pipes@.len() == PAIR_COUNT,
            moves@.len() == 2 * m,
            forall|j: int|
                0 <= j < m ==> moves@[2 * j] == move_of(j, true, #[trigger] state.pipes@[j].top)
                    && moves@[2 * j + 1] == move_of(j, false, state.pipes@[j].bottom),
        decreases PAIR_COUNT - m,
    {
        let pair = state.pipes[m];
        moves.push(SpriteMove { slot: m, top: true, x: pair.top.x, y: pair.top.y });
        moves.push(SpriteMove { slot: m, top: false, x: pair.bottom.x, y: pair.bottom.y });
        m = m + 1;
    }

    let ghost scanned = *state;
    let mut k: usize = 0;
    while k < input.collisions.len()
        invariant
            0 <= k <= input.collisions@.len(),
            state.pipes@ == scanned.pipes@,
            state.bird_velocity == scanned.bird_velocity,
            state.score == scanned.score,
            state.lost == (out_of_bounds(bird_y as int) || exists|j: int|
                0 <= j < k && names_bird(#[trigger] input.collisions@[j])),
        decreases input.collisions@.len() - k,
    {
        let event = &input.collisions[k];
        if is_bird(&event.first) || is_bird(&event.second) {
            if !state.lost {
                state.lost = true;
            }
        }
        k = k + 1;
    }

    proof {
        assert forall|j: int| 0 <= j < PAIR_COUNT implies pair_wf(#[trigger] state.pipes@[j]) by {
            assert(next_pair(s0.pipes@[j], bird_x as int, draws@[j] as int, state.pipes@[j]));
            assert(pair_wf(s0.pipes@[j]));
            lemma_next_pair_wf(s0.pipes@[j], bird_x as int, draws@[j] as int, state.pipes@[j]);
        }
    }
    let lost = state.lost;
    FrameOutput {
        reset: false,
        ran: true,
        bird_y,
        moves,
        crash_sound: lost,
        confirm_sound: should_increment_score,
        score_changed: should_increment_score,
        game_over: lost,
    }
}

/// Runs one frame of the game, drawing the gaps of the pairs it creates at
/// random: a pair created by a restart sits at its starting place, one that
/// replaces a pair that left the field sits at `SPAWN_X + RECYCLE_OFFSET`,
/// each around a gap centre drawn uniformly from its range.
pub fn game_logic(state: &mut GameState, input: &FrameInput) -> (out: FrameOutput)
    requires
        old(state).wf(),
        !old(state).lost ==> frame_fits(*old(state), *input),
    ensures
        final(state).wf(),
        exists|draws: Seq<i64>|
            draws_ok(draws) && steps_to(*old(state), *input, draws, *final(state), out),
{
    let draws = draw_gaps();
    let out = advance(state, input, &draws);
    assert(draws_ok(draws@) && steps_to(*old(state), *input, draws@, *state, out));
    out
}

} // verus!
