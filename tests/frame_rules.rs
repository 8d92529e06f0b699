use flappy::frame::{advance, game_logic, CollisionEvent, FrameInput, SpriteMove};
use flappy::pipes::{get_random_pipe, pipe_pair_at, Pipe};
use flappy::state::{draw_gaps, new_game, new_game_random, setup, teardown, GameState};
use flappy::units::{
    CEILING_BOUND, FLOOR_BOUND, GAP_LOW, GAP_SPAN, JUMP_VELOCITY, PIPE_DIST, PIPE_SPEED,
    RECYCLE_OFFSET, SPAWN_X,
};

fn still(bird_y: i64) -> FrameInput {
    FrameInput {
        bird_x: 0,
        bird_y,
        restart: false,
        space: false,
        w: false,
        up: false,
        collisions: Vec::new(),
    }
}

fn hit(a: &str, b: &str) -> CollisionEvent {
    CollisionEvent { first: a.to_string(), second: b.to_string() }
}

fn start() -> GameState {
    new_game(&vec![0, 10, 20, 30])
}

#[test]
fn gravity_step_from_rest() {
    let mut s = start();
    let out = advance(&mut s, &still(0), &vec![0, 0, 0, 0]);
    assert_eq!(s.bird_velocity, 3);
    assert_eq!(out.bird_y, -3);
    assert!(!s.lost);
    assert!(out.ran);
    assert!(!out.crash_sound);
}

#[test]
fn jump_while_falling_overrides_gravity() {
    let mut s = start();
    s.bird_velocity = 40;
    let mut input = still(0);
    input.space = true;
    let out = advance(&mut s, &input, &vec![0, 0, 0, 0]);
    assert_eq!(s.bird_velocity, JUMP_VELOCITY);
    assert_eq!(s.bird_velocity, -50);
    assert_eq!(out.bird_y, -43);
}

#[test]
fn each_jump_key_counts() {
    for k in 0..3 {
        let mut s = start();
        s.bird_velocity = 10;
        let mut input = still(0);
        match k {
            0 => input.space = true,
            1 => input.w = true,
            _ => input.up = true,
        }
        advance(&mut s, &input, &vec![0, 0, 0, 0]);
        assert_eq!(s.bird_velocity, -50);
    }
}

#[test]
fn jump_ignored_while_rising() {
    let mut held = start();
    held.bird_velocity = -50;
    let mut input = still(0);
    input.up = true;
    advance(&mut held, &input, &vec![0, 0, 0, 0]);
    assert_eq!(held.bird_velocity, -47);

    let mut free = start();
    free.bird_velocity = -50;
    advance(&mut free, &still(0), &vec![0, 0, 0, 0]);
    assert_eq!(free.bird_velocity, held.bird_velocity);

    // velocity after gravity exactly zero: still no jump
    let mut zero = start();
    zero.bird_velocity = -3;
    advance(&mut zero, &input, &vec![0, 0, 0, 0]);
    assert_eq!(zero.bird_velocity, 0);
}

#[test]
fn bird_collision_loses_once() {
    let mut s = start();
    let mut input = still(0);
    input.collisions.push(hit("bird", "bot_pipe2"));
    input.collisions.push(hit("bot_pipe2", "bird"));
    let out = advance(&mut s, &input, &vec![0, 0, 0, 0]);
    assert!(s.lost);
    assert!(out.crash_sound);
    assert!(out.game_over);
}

#[test]
fn collision_without_bird_is_ignored() {
    let mut s = start();
    let mut input = still(0);
    input.collisions.push(hit("top_pipe1", "bot_pipe2"));
    let out = advance(&mut s, &input, &vec![0, 0, 0, 0]);
    assert!(!s.lost);
    assert!(!out.crash_sound);
    assert!(!out.game_over);
}

#[test]
fn falling_below_floor_loses() {
    let mut s = start();
    s.bird_velocity = 30;
    let out = advance(&mut s, &still(FLOOR_BOUND + 20), &vec![0, 0, 0, 0]);
    assert_eq!(out.bird_y, FLOOR_BOUND - 13);
    assert!(s.lost);
    assert!(out.crash_sound);
    assert!(out.game_over);
}

#[test]
fn rising_above_ceiling_loses() {
    let mut s = start();
    s.bird_velocity = -50;
    let out = advance(&mut s, &still(CEILING_BOUND), &vec![0, 0, 0, 0]);
    assert_eq!(out.bird_y, CEILING_BOUND + 47);
    assert!(s.lost);
}

#[test]
fn bounds_are_inclusive() {
    let mut s = start();
    s.bird_velocity = -3;
    let out = advance(&mut s, &still(FLOOR_BOUND), &vec![0, 0, 0, 0]);
    assert_eq!(out.bird_y, FLOOR_BOUND);
    assert!(!s.lost);
    assert_eq!(FLOOR_BOUND, -1320);
    assert_eq!(CEILING_BOUND, 2440);
}

#[test]
fn lost_run_stays_put() {
    let mut s = start();
    s.lost = true;
    s.score = 7;
    s.bird_velocity = 12;
    let mut input = still(0);
    input.space = true;
    input.collisions.push(hit("bird", "top_pipe0"));
    let out = advance(&mut s, &input, &vec![0, 0, 0, 0]);
    assert!(s.lost);
    assert_eq!(s.score, 7);
    assert_eq!(s.bird_velocity, 12);
    assert_eq!(s.pipes[0].top.x, SPAWN_X);
    assert!(!out.ran);
    assert!(!out.reset);
    assert!(!out.crash_sound);
    assert!(out.moves.is_empty());
}

#[test]
fn restart_gives_new_game() {
    let mut s = start();
    s.lost = true;
    s.score = 9;
    s.bird_velocity = 25;
    s.pipes[1].top.x = 100;
    s.pipes[1].bottom.x = 100;
    let mut input = still(0);
    input.restart = true;
    let draws = vec![5, 6, 7, 8];
    let out = advance(&mut s, &input, &draws);
    let fresh = new_game(&draws);
    assert!(out.reset);
    assert!(!out.ran);
    assert_eq!(s.score, 0);
    assert!(!s.lost);
    assert_eq!(s.bird_velocity, 0);
    assert_eq!(s.pipes, fresh.pipes);
}

#[test]
fn restart_ignored_while_running() {
    let mut s = start();
    let mut input = still(0);
    input.restart = true;
    let out = advance(&mut s, &input, &vec![0, 0, 0, 0]);
    assert!(!out.reset);
    assert!(out.ran);
    assert_eq!(s.bird_velocity, 3);
}

#[test]
fn pipes_scroll_by_speed() {
    let mut s = start();
    let before: Vec<(i64, i64)> = s.pipes.iter().map(|p| (p.top.x, p.bottom.y)).collect();
    let out = advance(&mut s, &still(0), &vec![0, 0, 0, 0]);
    for (i, p) in s.pipes.iter().enumerate() {
        assert_eq!(p.top.x, before[i].0 - PIPE_SPEED);
        assert_eq!(p.bottom.x, before[i].0 - 20);
        assert_eq!(p.bottom.y, before[i].1);
    }
    assert_eq!(out.moves.len(), 8);
    assert_eq!(
        out.moves[0],
        SpriteMove { slot: 0, top: true, x: SPAWN_X - 20, y: GAP_LOW + 1700 }
    );
    assert_eq!(
        out.moves[3],
        SpriteMove { slot: 1, top: false, x: SPAWN_X + PIPE_DIST - 20, y: GAP_LOW + 10 - 2750 }
    );
}

#[test]
fn passing_a_pair_scores_once() {
    let mut s = start();
    let mut input = still(0);
    // first pair is at 2980: after the step its right edge is at 2960 + 520
    input.bird_x = 3481;
    let out = advance(&mut s, &input, &vec![0, 0, 0, 0]);
    assert_eq!(s.score, 1);
    assert!(out.confirm_sound);
    assert!(out.score_changed);
    assert!(s.pipes[0].top.scored && s.pipes[0].bottom.scored);
    assert!(!s.pipes[1].top.scored);

    let out = advance(&mut s, &input, &vec![0, 0, 0, 0]);
    assert_eq!(s.score, 1);
    assert!(!out.confirm_sound);
    assert!(s.pipes[0].top.scored);
}

#[test]
fn bird_on_the_edge_does_not_score() {
    let mut s = start();
    let mut input = still(0);
    input.bird_x = 3480;
    let out = advance(&mut s, &input, &vec![0, 0, 0, 0]);
    assert_eq!(s.score, 0);
    assert!(!out.confirm_sound);
    assert!(!s.pipes[0].top.scored);
}

#[test]
fn two_pairs_in_one_frame_score_one_point() {
    let mut s = start();
    let mut input = still(0);
    input.bird_x = 8000;
    advance(&mut s, &input, &vec![0, 0, 0, 0]);
    assert_eq!(s.score, 1);
    assert!(s.pipes[0].top.scored && s.pipes[1].top.scored && s.pipes[2].top.scored);
}

#[test]
fn pair_off_screen_is_recycled() {
    let mut s = start();
    s.pipes[2].top.x = -2510;
    s.pipes[2].bottom.x = -2510;
    s.pipes[2].top.scored = true;
    s.pipes[2].bottom.scored = true;
    let out = advance(&mut s, &still(0), &vec![1, 2, 1149, 3]);
    let p = s.pipes[2];
    assert_eq!(p.top.x, SPAWN_X + RECYCLE_OFFSET);
    assert_eq!(p.top.x, 5960);
    assert_eq!(p.bottom.x, 5960);
    assert_eq!(p.top.y, GAP_LOW + 1149 + 1700);
    assert_eq!(p.bottom.y, GAP_LOW + 1149 - 2750);
    assert!(!p.top.scored && !p.bottom.scored);
    assert_eq!(out.moves[4], SpriteMove { slot: 2, top: true, x: 5960, y: p.top.y });
    // the other slots only scrolled
    assert_eq!(s.pipes[0].top.x, SPAWN_X - 20);
}

#[test]
fn pair_at_the_limit_stays() {
    let mut s = start();
    s.pipes[0].top.x = -2500;
    s.pipes[0].bottom.x = -2500;
    advance(&mut s, &still(0), &vec![0, 0, 0, 0]);
    assert_eq!(s.pipes[0].top.x, -2520);
}

#[test]
fn pair_generator_exact() {
    let p = pipe_pair_at(0, 0);
    assert_eq!(p.top, Pipe { x: 2980, y: 2500, scored: false });
    assert_eq!(p.bottom, Pipe { x: 2980, y: -1950, scored: false });
    let q = pipe_pair_at(PIPE_DIST * 3, 100);
    assert_eq!(q.top, Pipe::new(8980, 2600));
    assert_eq!(q.bottom, Pipe::new(8980, -1850));
}

#[test]
fn random_pairs_in_range() {
    for _ in 0..200 {
        let p = get_random_pipe(400);
        let gap = p.bottom.y + 1250 + 1500;
        assert!(gap >= GAP_LOW && gap < GAP_LOW + GAP_SPAN);
        assert_eq!(p.top.y, gap + 1700);
        assert_eq!(p.top.x, SPAWN_X + 400);
        assert_eq!(p.bottom.x, SPAWN_X + 400);
        assert!(!p.top.scored && !p.bottom.scored);
    }
    let d = draw_gaps();
    assert_eq!(d.len(), 4);
    assert!(d.iter().all(|g| *g >= 0 && *g < GAP_SPAN));
}

#[test]
fn new_game_starts_clean() {
    let s = new_game(&vec![0, 10, 20, 30]);
    assert_eq!(s.bird_velocity, 0);
    assert!(!s.lost);
    assert_eq!(s.score, 0);
    assert_eq!(s.pipes.len(), 4);
    for (i, p) in s.pipes.iter().enumerate() {
        assert_eq!(p.top.x, SPAWN_X + PIPE_DIST * i as i64);
        assert_eq!(p.bottom.y, GAP_LOW + 10 * i as i64 - 2750);
    }
    let r = new_game_random();
    assert_eq!(r.pipes.len(), 4);
    assert_eq!(r.pipes[3].top.x, 8980);
}

#[test]
fn teardown_then_setup() {
    let mut s = start();
    s.score = 4;
    teardown(&mut s);
    assert!(s.pipes.is_empty());
    assert_eq!(s.score, 4);
    let mut s = GameState::default();
    setup(&mut s, &vec![3, 3, 3, 3]);
    assert_eq!(s.pipes, new_game(&vec![3, 3, 3, 3]).pipes);
    assert_eq!(s.score, 0);
}

#[test]
fn random_frames_keep_running() {
    let mut s = new_game_random();
    let mut frames = 0;
    while frames < 1000 {
        let mut input = still(0);
        input.space = frames % 20 == 0;
        let out = game_logic(&mut s, &input);
        assert!(out.ran);
        assert_eq!(s.pipes.len(), 4);
        for p in &s.pipes {
            assert_eq!(p.top.x, p.bottom.x);
            assert!(p.top.x >= -2520 && p.top.x <= 8980);
        }
        s.bird_velocity = 0;
        frames += 1;
    }
}

#[test]
fn pair_generator_negative_offset() {
    let p = pipe_pair_at(-500, 0);
    assert_eq!(p.top, Pipe::new(2480, 2500));
    assert_eq!(p.bottom, Pipe::new(2480, -1950));
    let q = get_random_pipe(-3000);
    assert_eq!(q.top.x, -20);
    assert_eq!(q.bottom.x, -20);
    let gap = q.bottom.y + 2750;
    assert!(gap >= GAP_LOW && gap < GAP_LOW + GAP_SPAN);
    assert!(q.top.y > 0 && q.bottom.y < 0);
    assert!(!q.top.scored && !q.bottom.scored);
}
