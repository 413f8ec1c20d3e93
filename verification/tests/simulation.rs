use pong::game::{KeysHeld, MainState};
use pong::vec2::Vec2;

fn no_keys() -> KeysHeld {
    KeysHeld { p1_up: false, p1_down: false, p2_up: false, p2_down: false }
}

fn rally_state() -> MainState {
    MainState {
        player_1_pos: Vec2 { x: 30, y: 300 },
        player_2_pos: Vec2 { x: 770, y: 300 },
        ball_pos: Vec2 { x: 400, y: 300 },
        ball_vel: Vec2 { x: 150, y: 150 },
        player_1_score: 0,
        player_2_score: 0,
    }
}

#[test]
fn new_centers_everything() {
    let s = MainState::new(800, 600);
    assert_eq!(s.player_1_pos, Vec2 { x: 30, y: 300 });
    assert_eq!(s.player_2_pos, Vec2 { x: 770, y: 300 });
    assert_eq!(s.ball_pos, Vec2 { x: 400, y: 300 });
    assert_eq!(s.ball_vel.x.abs(), 150);
    assert_eq!(s.ball_vel.y.abs(), 150);
    assert_eq!(s.player_1_score, 0);
    assert_eq!(s.player_2_score, 0);
}

#[test]
fn left_exit_scores_right_player() {
    let mut s = rally_state();
    s.ball_pos = Vec2 { x: 5, y: 300 };
    s.ball_vel = Vec2 { x: -150, y: 0 };
    s.player_1_score = 3;
    s.player_2_score = 7;
    s.update(no_keys(), 1000, 800, 600);
    assert_eq!(s.ball_pos, Vec2 { x: 400, y: 300 });
    assert_eq!(s.player_2_score, 8);
    assert_eq!(s.player_1_score, 3);
    assert_eq!(s.ball_vel.x.abs(), 150);
    assert_eq!(s.ball_vel.y.abs(), 150);
}

#[test]
fn right_exit_scores_left_player() {
    let mut s = rally_state();
    s.ball_pos = Vec2 { x: 795, y: 300 };
    s.ball_vel = Vec2 { x: 150, y: 0 };
    s.update(no_keys(), 1000, 800, 600);
    assert_eq!(s.ball_pos, Vec2 { x: 400, y: 300 });
    assert_eq!(s.player_1_score, 1);
    assert_eq!(s.player_2_score, 0);
    assert_eq!(s.ball_vel.x.abs(), 150);
    assert_eq!(s.ball_vel.y.abs(), 150);
}

#[test]
fn left_racket_bounce_flips_velocity_rightward() {
    let mut s = rally_state();
    s.ball_pos = Vec2 { x: 45, y: 300 };
    s.ball_vel = Vec2 { x: -100, y: 0 };
    s.update(no_keys(), 0, 800, 600);
    assert_eq!(s.ball_vel, Vec2 { x: 100, y: 0 });
    assert_eq!(s.ball_pos, Vec2 { x: 45, y: 300 });
}

#[test]
fn right_racket_bounce_flips_velocity_leftward() {
    let mut s = rally_state();
    s.ball_pos = Vec2 { x: 755, y: 300 };
    s.ball_vel = Vec2 { x: 100, y: 0 };
    s.update(no_keys(), 0, 800, 600);
    assert_eq!(s.ball_vel, Vec2 { x: -100, y: 0 });
    assert_eq!(s.ball_pos, Vec2 { x: 755, y: 300 });
}

#[test]
fn top_wall_clamps_and_flips_velocity_down() {
    let mut s = rally_state();
    s.ball_pos = Vec2 { x: 400, y: 10 };
    s.ball_vel = Vec2 { x: 50, y: -70 };
    s.update(no_keys(), 0, 800, 600);
    assert_eq!(s.ball_pos, Vec2 { x: 400, y: 15 });
    assert_eq!(s.ball_vel, Vec2 { x: 50, y: 70 });
}

#[test]
fn bottom_wall_clamps_and_flips_velocity_up() {
    let mut s = rally_state();
    s.ball_pos = Vec2 { x: 400, y: 595 };
    s.ball_vel = Vec2 { x: 50, y: 70 };
    s.update(no_keys(), 0, 800, 600);
    assert_eq!(s.ball_pos, Vec2 { x: 400, y: 585 });
    assert_eq!(s.ball_vel, Vec2 { x: 50, y: -70 });
}

#[test]
fn wall_clamp_is_idempotent() {
    let mut s = rally_state();
    s.ball_pos = Vec2 { x: 400, y: 2 };
    s.ball_vel = Vec2 { x: 0, y: -70 };
    s.update(no_keys(), 0, 800, 600);
    let clamped_once = s;
    s.update(no_keys(), 0, 800, 600);
    assert_eq!(s, clamped_once);
}

#[test]
fn held_key_moves_racket_and_ball_integrates() {
    let mut s = rally_state();
    s.ball_vel = Vec2 { x: 150, y: 150 };
    let keys = KeysHeld { p1_up: false, p1_down: true, p2_up: true, p2_down: true };
    s.update(keys, 100, 800, 600);
    // 500 units/s over 100 ms moves 50 units; opposing keys cancel.
    assert_eq!(s.player_1_pos, Vec2 { x: 30, y: 350 });
    assert_eq!(s.player_2_pos, Vec2 { x: 770, y: 300 });
    assert_eq!(s.ball_pos, Vec2 { x: 415, y: 315 });
}

#[test]
fn opposing_keys_cancel_near_the_edge() {
    let mut s = rally_state();
    s.player_1_pos = Vec2 { x: 30, y: 60 };
    let keys = KeysHeld { p1_up: true, p1_down: true, p2_up: false, p2_down: false };
    // Both displacements apply before the single clamp, so a racket one
    // step from the edge stays put when its keys cancel.
    s.update(keys, 100, 800, 600);
    assert_eq!(s.player_1_pos, Vec2 { x: 30, y: 60 });
}

#[test]
fn racket_stops_at_bottom_edge() {
    let mut s = rally_state();
    s.player_1_pos = Vec2 { x: 30, y: 540 };
    let keys = KeysHeld { p1_up: false, p1_down: true, p2_up: false, p2_down: false };
    s.update(keys, 1000, 800, 600);
    assert_eq!(s.player_1_pos, Vec2 { x: 30, y: 550 });
}

#[test]
fn racket_stops_at_top_edge() {
    let mut s = rally_state();
    s.player_2_pos = Vec2 { x: 770, y: 60 };
    let keys = KeysHeld { p1_up: false, p1_down: false, p2_up: true, p2_down: false };
    s.update(keys, 1000, 800, 600);
    assert_eq!(s.player_2_pos, Vec2 { x: 770, y: 50 });
}

#[test]
fn integration_rounds_toward_zero() {
    let mut s = rally_state();
    s.ball_vel = Vec2 { x: 150, y: -150 };
    // 150 units/s over 10 ms is 1.5 units; the fixed-point step keeps 1.
    s.update(no_keys(), 10, 800, 600);
    assert_eq!(s.ball_pos, Vec2 { x: 401, y: 299 });
}

#[test]
fn zero_elapsed_time_changes_nothing_mid_field() {
    let mut s = rally_state();
    let before = s;
    s.update(no_keys(), 0, 800, 600);
    assert_eq!(s, before);
}

#[test]
fn tiny_playfield_does_not_crash() {
    let mut s = MainState::new(20, 20);
    assert_eq!(s.ball_pos, Vec2 { x: 10, y: 10 });
    s.ball_vel = Vec2 { x: 0, y: 0 };
    s.update(no_keys(), 100, 20, 20);
    // The field is shorter than the ball: the top clamp fires first, then
    // the bottom clamp wins, pinning the ball to the bottom boundary.
    assert_eq!(s.ball_pos, Vec2 { x: 10, y: 5 });
    // Rackets are clamped once per frame; with crossed bounds the low
    // bound is tested first and wins.
    assert_eq!(s.player_1_pos.y, 50);
    assert_eq!(s.player_2_pos.y, 50);
}
