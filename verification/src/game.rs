use vstd::prelude::*;

verus! {

use crate::constants::BALL_SIZE;
use crate::constants::BALL_SIZE_HALF;
use crate::constants::BALL_SPEED;
use crate::constants::COORD_LIMIT;
use crate::constants::DT_LIMIT;
use crate::constants::MILLIS_PER_SECOND;
use crate::constants::PLAYER_SPEED;
use crate::constants::RACKET_HEIGHT;
use crate::constants::RACKET_HEIGHT_HALF;
use crate::constants::RACKET_PADDING;
use crate::constants::RACKET_WIDTH_HALF;
use crate::constants::SCREEN_LIMIT;
use crate::constants::VEL_LIMIT;
use crate::utilities::clamp;
use crate::utilities::clamped;
use crate::utilities::randomize_vec;
use crate::vec2::abs64;
use crate::vec2::abs_i;
use crate::vec2::Vec2;

use vstd::arithmetic::div_mod::lemma_div_is_ordered;
use vstd::arithmetic::div_mod::lemma_div_pos_is_pos;
use vstd::arithmetic::div_mod::lemma_fundamental_div_mod;

/// Distance covered in `dt_ms` milliseconds at `v` units per second,
/// rounded toward zero.
pub open spec fn scaled_by_millis(v: int, dt_ms: int) -> int {
    if v >= 0 {
        (v * dt_ms) / (MILLIS_PER_SECOND as int)
    } else {
        -((-v * dt_ms) / (MILLIS_PER_SECOND as int))
    }
}

/// Compute `scaled_by_millis` on machine integers.
fn scale_by_millis(v: i64, dt_ms: i64) -> (r: i64)
    requires
        0 <= dt_ms <= DT_LIMIT,
        -VEL_LIMIT <= v <= VEL_LIMIT,
    ensures
        r == scaled_by_millis(v as int, dt_ms as int),
        -COORD_LIMIT <= r <= COORD_LIMIT,
{
    if v >= 0 {
        assert((v as int) * (dt_ms as int) <= 1_000_000_000_000int) by (nonlinear_arith)
            requires
                0 <= v <= 1_000_000int,
                0 <= dt_ms <= 1_000_000int,
        ;
        assert((v as int) * (dt_ms as int) >= 0) by (nonlinear_arith)
            requires
                0 <= v,
                0 <= dt_ms,
        ;
        let prod: u64 = (v as u64) * (dt_ms as u64);
        let q: u64 = prod / 1000;
        proof {
            lemma_div_pos_is_pos(prod as int, 1000int);
            lemma_div_is_ordered(prod as int, 1_000_000_000_000int, 1000int);
        }
        q as i64
    } else {
        let neg: i64 = -v;
        assert((neg as int) * (dt_ms as int) <= 1_000_000_000_000int) by (nonlinear_arith)
            requires
                0 <= neg <= 1_000_000int,
                0 <= dt_ms <= 1_000_000int,
        ;
        assert((neg as int) * (dt_ms as int) >= 0) by (nonlinear_arith)
            requires
                0 <= neg,
                0 <= dt_ms,
        ;
        let prod: u64 = (neg as u64) * (dt_ms as u64);
        let q: u64 = prod / 1000;
        proof {
            lemma_div_pos_is_pos(prod as int, 1000int);
            lemma_div_is_ordered(prod as int, 1_000_000_000_000int, 1000int);
        }
        -(q as i64)
    }
}

/// Displacement one control key contributes in a frame: `y_dir` times the
/// racket speed over the elapsed time when the key is held, nothing when
/// it is not.
pub open spec fn key_displacement(pressed: bool, y_dir: int, dt_ms: int) -> int {
    if pressed {
        y_dir * scaled_by_millis(PLAYER_SPEED as int, dt_ms)
    } else {
        0
    }
}

/// Where a racket's vertical center ends up after one frame: the two keys'
/// displacements are additive — opposing keys held together cancel — and
/// the sum is clamped into the playfield once, after both have applied.
pub open spec fn racket_y_after(y: int, up_pressed: bool, down_pressed: bool, dt_ms: int, screen_h: int) -> int {
    let moved = y + key_displacement(up_pressed, -1, dt_ms) + key_displacement(
        down_pressed,
        1,
        dt_ms,
    );
    clamped(moved, RACKET_HEIGHT_HALF as int, screen_h - RACKET_HEIGHT_HALF)
}

/// Move one racket for one frame: apply each held key's displacement (up
/// is negative, down positive, both together cancel), then clamp the
/// racket into the playfield — one clamp per racket per frame.
pub fn move_racket(pos: &mut Vec2, up_pressed: bool, down_pressed: bool, dt_ms: i64, screen_h: i64)
    requires
        0 <= dt_ms <= DT_LIMIT,
        0 <= screen_h <= SCREEN_LIMIT,
        -COORD_LIMIT <= old(pos).y <= COORD_LIMIT,
    ensures
        final(pos).x == old(pos).x,
        final(pos).y == racket_y_after(old(pos).y as int, up_pressed, down_pressed, dt_ms as int, screen_h as int),
        -RACKET_HEIGHT_HALF <= final(pos).y <= SCREEN_LIMIT,
        screen_h >= RACKET_HEIGHT ==> RACKET_HEIGHT_HALF <= final(pos).y <= screen_h - RACKET_HEIGHT_HALF,
{
    let step: i64 = scale_by_millis(PLAYER_SPEED, dt_ms);
    if up_pressed {
        pos.y = pos.y - step;
    }
    if down_pressed {
        pos.y = pos.y + step;
    }
    clamp(&mut pos.y, RACKET_HEIGHT_HALF, screen_h - RACKET_HEIGHT_HALF);
}

/// The input-to-motion mapping keeps a racket inside the playfield: for
/// any elapsed time and any held-key combination, the racket's vertical
/// center stays within `[RACKET_HEIGHT_HALF, screen_h - RACKET_HEIGHT_HALF]`
/// whenever the playfield is at least one racket tall.
pub proof fn lemma_racket_stays_in_bounds(y: int, up_pressed: bool, down_pressed: bool, dt_ms: int, screen_h: int)
    requires
        screen_h >= RACKET_HEIGHT,
    ensures
        RACKET_HEIGHT_HALF <= racket_y_after(y, up_pressed, down_pressed, dt_ms, screen_h)
            <= screen_h - RACKET_HEIGHT_HALF,
{
}

/// The four control keys, one pair per player; `true` means the key is
/// currently held.
#[derive(Clone, Copy, Debug, PartialEq, Eq, Structural)]
pub struct KeysHeld {
    pub p1_up: bool,
    pub p1_down: bool,
    pub p2_up: bool,
    pub p2_down: bool,
}

/// The whole per-frame simulation state: two rackets, one ball, two scores.
#[derive(Clone, Copy, Debug, PartialEq, Eq, Structural)]
pub struct MainState {
    pub player_1_pos: Vec2,
    pub player_2_pos: Vec2,
    pub ball_pos: Vec2,
    pub ball_vel: Vec2,
    pub player_1_score: i32,
    pub player_2_score: i32,
}

/// Both components lie within the coordinate range the simulation works in.
pub open spec fn coord_in_range(v: Vec2) -> bool {
    &&& -COORD_LIMIT <= v.x <= COORD_LIMIT
    &&& -COORD_LIMIT <= v.y <= COORD_LIMIT
}

/// Both components are valid velocities.
pub open spec fn vel_in_range(v: Vec2) -> bool {
    &&& -VEL_LIMIT <= v.x <= VEL_LIMIT
    &&& -VEL_LIMIT <= v.y <= VEL_LIMIT
}

/// The ball's vertical position after the top and bottom wall clamps:
/// raised to `BALL_SIZE_HALF` when above the top edge, then lowered to
/// `screen_h - BALL_SIZE_HALF` when below the bottom edge.
pub open spec fn wall_y_after(y: int, screen_h: int) -> int {
    let y_top = if y < BALL_SIZE_HALF {
        BALL_SIZE_HALF as int
    } else {
        y
    };
    if y_top > screen_h - BALL_SIZE_HALF {
        screen_h - BALL_SIZE_HALF
    } else {
        y_top
    }
}

/// The ball's vertical velocity after the wall clamps: forced non-negative
/// by a top hit, then forced non-positive by a bottom hit, with the
/// magnitude kept either way.
pub open spec fn wall_vy_after(y: int, vy: int, screen_h: int) -> int {
    let y_top = if y < BALL_SIZE_HALF {
        BALL_SIZE_HALF as int
    } else {
        y
    };
    let vy_top = if y < BALL_SIZE_HALF {
        abs_i(vy)
    } else {
        vy
    };
    if y_top > screen_h - BALL_SIZE_HALF {
        -abs_i(vy_top)
    } else {
        vy_top
    }
}

/// Bounding-box overlap between the ball and the left racket: the ball's
/// leading (left-moving) edge lies strictly inside the racket's horizontal
/// span and the ball's center strictly inside its vertical span.
pub open spec fn hits_left_racket(ball: Vec2, racket: Vec2) -> bool {
    &&& ball.x - BALL_SIZE_HALF < racket.x + RACKET_WIDTH_HALF
    &&& ball.x - BALL_SIZE_HALF > racket.x - RACKET_WIDTH_HALF
    &&& ball.y < racket.y + RACKET_HEIGHT_HALF
    &&& ball.y > racket.y - RACKET_HEIGHT_HALF
}

/// Bounding-box overlap between the ball and the right racket, testing the
/// ball's right edge against the racket's horizontal span. The two racket
/// tests deliberately reference different ball edges, as the simulation
/// always has done; the asymmetry is kept, not smoothed over.
pub open spec fn hits_right_racket(ball: Vec2, racket: Vec2) -> bool {
    &&& ball.x + BALL_SIZE_HALF > racket.x - RACKET_WIDTH_HALF
    &&& ball.x + BALL_SIZE_HALF < racket.x + RACKET_WIDTH_HALF
    &&& ball.y < racket.y + RACKET_HEIGHT_HALF
    &&& ball.y > racket.y - RACKET_HEIGHT_HALF
}

/// The ball's horizontal velocity after racket resolution: a left-racket
/// hit forces it rightward, otherwise a right-racket hit forces it
/// leftward, and the magnitude is kept either way. A simultaneous double
/// hit is degenerate input; the left racket wins because it is tested
/// first.
pub open spec fn racket_vx_after(vx: int, hit_left: bool, hit_right: bool) -> int {
    if hit_left {
        abs_i(vx)
    } else if hit_right {
        -abs_i(vx)
    } else {
        vx
    }
}

/// Half of a non-negative machine integer.
fn half(v: i64) -> (r: i64)
    requires
        0 <= v,
    ensures
        r == v as int / 2,
{
    proof {
        lemma_div_pos_is_pos(v as int, 2int);
        lemma_div_is_ordered(v as int, i64::MAX as int, 2int);
    }
    ((v as u64) / 2) as i64
}

impl MainState {
    /// All coordinates, velocities and scores lie in the ranges the
    /// per-frame update preserves.
    pub open spec fn wf(self) -> bool {
        &&& coord_in_range(self.player_1_pos)
        &&& coord_in_range(self.player_2_pos)
        &&& coord_in_range(self.ball_pos)
        &&& vel_in_range(self.ball_vel)
        &&& 0 <= self.player_1_score
        &&& 0 <= self.player_2_score
    }

    /// A fresh game on a `screen_w` by `screen_h` playfield: rackets
    /// vertically centered at a fixed offset from their edges, the ball at
    /// the field center with a random `(±BALL_SPEED, ±BALL_SPEED)` serve,
    /// both scores zero.
    pub fn new(screen_w: i64, screen_h: i64) -> (s: MainState)
        requires
            0 <= screen_w <= SCREEN_LIMIT,
            0 <= screen_h <= SCREEN_LIMIT,
        ensures
            s.wf(),
            s.player_1_pos.x == RACKET_WIDTH_HALF + RACKET_PADDING,
            s.player_1_pos.y == screen_h as int / 2,
            s.player_2_pos.x == screen_w - RACKET_WIDTH_HALF - RACKET_PADDING,
            s.player_2_pos.y == screen_h as int / 2,
            s.ball_pos.x == screen_w as int / 2,
            s.ball_pos.y == screen_h as int / 2,
            abs_i(s.ball_vel.x as int) == BALL_SPEED,
            abs_i(s.ball_vel.y as int) == BALL_SPEED,
            s.player_1_score == 0,
            s.player_2_score == 0,
    {
        let screen_w_half = half(screen_w);
        let screen_h_half = half(screen_h);

        let mut ball_vel = Vec2 { x: 0, y: 0 };
        randomize_vec(&mut ball_vel, BALL_SPEED, BALL_SPEED);

        MainState {
            player_1_pos: Vec2 { x: RACKET_WIDTH_HALF + RACKET_PADDING, y: screen_h_half },
            player_2_pos: Vec2 { x: screen_w - RACKET_WIDTH_HALF - RACKET_PADDING, y: screen_h_half },
            ball_pos: Vec2 { x: screen_w_half, y: screen_h_half },
            ball_vel,
            player_1_score: 0,
            player_2_score: 0,
        }
    }
}

/// How one frame relates the state before the update to the state after it.
///
/// Rackets move first: per racket, both keys' displacements add up and the
/// sum is clamped once, as `racket_y_after` says. The ball then
/// integrates its velocity over the elapsed time. If its new horizontal
/// position has left the field — past the left edge first, past the right
/// edge otherwise — the opponent scores one point, the ball returns to the
/// field center, and a fresh random `(±BALL_SPEED, ±BALL_SPEED)` velocity
/// is served; the two serve signs appear below as the two disjuncts per
/// axis. The top/bottom wall clamps and the racket bounce then apply to
/// whatever ball came out of that.
pub open spec fn update_relates(
    pre: MainState,
    post: MainState,
    keys: KeysHeld,
    dt_ms: int,
    screen_w: int,
    screen_h: int,
) -> bool {
    let p1y = racket_y_after(pre.player_1_pos.y as int, keys.p1_up, keys.p1_down, dt_ms, screen_h);
    let p2y = racket_y_after(pre.player_2_pos.y as int, keys.p2_up, keys.p2_down, dt_ms, screen_h);
    let bx = pre.ball_pos.x + scaled_by_millis(pre.ball_vel.x as int, dt_ms);
    let by = pre.ball_pos.y + scaled_by_millis(pre.ball_vel.y as int, dt_ms);
    let exit_left = bx < 0;
    let exit_right = !exit_left && bx > screen_w;
    let exit = exit_left || exit_right;
    let mid_x = if exit {
        screen_w / 2
    } else {
        bx
    };
    let mid_y = if exit {
        screen_h / 2
    } else {
        by
    };
    let hit_left = hits_left_racket(post.ball_pos, post.player_1_pos);
    let hit_right = hits_right_racket(post.ball_pos, post.player_2_pos);
    &&& post.player_1_pos.x == pre.player_1_pos.x
    &&& post.player_1_pos.y == p1y
    &&& post.player_2_pos.x == pre.player_2_pos.x
    &&& post.player_2_pos.y == p2y
    &&& post.player_1_score == pre.player_1_score + (if exit_right {
        1int
    } else {
        0int
    })
    &&& post.player_2_score == pre.player_2_score + (if exit_left {
        1int
    } else {
        0int
    })
    &&& post.ball_pos.x == mid_x
    &&& post.ball_pos.y == wall_y_after(mid_y, screen_h)
    &&& if exit {
        ||| post.ball_vel.y == wall_vy_after(mid_y, BALL_SPEED as int, screen_h)
        ||| post.ball_vel.y == wall_vy_after(mid_y, -(BALL_SPEED as int), screen_h)
    } else {
        post.ball_vel.y == wall_vy_after(mid_y, pre.ball_vel.y as int, screen_h)
    }
    &&& if exit {
        ||| post.ball_vel.x == racket_vx_after(BALL_SPEED as int, hit_left, hit_right)
        ||| post.ball_vel.x == racket_vx_after(-(BALL_SPEED as int), hit_left, hit_right)
    } else {
        post.ball_vel.x == racket_vx_after(pre.ball_vel.x as int, hit_left, hit_right)
    }
}

impl MainState {
    /// Advance the simulation by one frame: move both rackets from the held
    /// keys, integrate the ball, score and re-serve on a side exit, clamp
    /// at the top and bottom walls, and bounce off the rackets.
    pub fn update(&mut self, keys: KeysHeld, dt_ms: i64, screen_w: i64, screen_h: i64)
        requires
            old(self).wf(),
            old(self).player_1_score < i32::MAX,
            old(self).player_2_score < i32::MAX,
            0 <= dt_ms <= DT_LIMIT,
            0 <= screen_w <= SCREEN_LIMIT,
            0 <= screen_h <= SCREEN_LIMIT,
        ensures
            final(self).wf(),
            update_relates(
                *old(self),
                *final(self),
                keys,
                dt_ms as int,
                screen_w as int,
                screen_h as int,
            ),
            screen_h >= RACKET_HEIGHT ==> RACKET_HEIGHT_HALF <= final(self).player_1_pos.y
                <= screen_h - RACKET_HEIGHT_HALF,
            screen_h >= RACKET_HEIGHT ==> RACKET_HEIGHT_HALF <= final(self).player_2_pos.y
                <= screen_h - RACKET_HEIGHT_HALF,
    {
        move_racket(&mut self.player_1_pos, keys.p1_up, keys.p1_down, dt_ms, screen_h);
        move_racket(&mut self.player_2_pos, keys.p2_up, keys.p2_down, dt_ms, screen_h);

        self.ball_pos.x = self.ball_pos.x + scale_by_millis(self.ball_vel.x, dt_ms);
        self.ball_pos.y = self.ball_pos.y + scale_by_millis(self.ball_vel.y, dt_ms);

        if self.ball_pos.x < 0 {
            self.ball_pos = Vec2 { x: half(screen_w), y: half(screen_h) };
            randomize_vec(&mut self.ball_vel, BALL_SPEED, BALL_SPEED);
            self.player_2_score = self.player_2_score + 1;
        } else if self.ball_pos.x > screen_w {
            self.ball_pos = Vec2 { x: half(screen_w), y: half(screen_h) };
            randomize_vec(&mut self.ball_vel, BALL_SPEED, BALL_SPEED);
            self.player_1_score = self.player_1_score + 1;
        }

        if self.ball_pos.y < BALL_SIZE_HALF {
            self.ball_pos.y = BALL_SIZE_HALF;
            self.ball_vel.y = abs64(self.ball_vel.y);
        }
        if self.ball_pos.y > screen_h - BALL_SIZE_HALF {
            self.ball_pos.y = screen_h - BALL_SIZE_HALF;
            self.ball_vel.y = -abs64(self.ball_vel.y);
        }

        let hit_left = self.ball_pos.x - BALL_SIZE_HALF < self.player_1_pos.x + RACKET_WIDTH_HALF
            && self.ball_pos.x - BALL_SIZE_HALF > self.player_1_pos.x - RACKET_WIDTH_HALF
            && self.ball_pos.y < self.player_1_pos.y + RACKET_HEIGHT_HALF
            && self.ball_pos.y > self.player_1_pos.y - RACKET_HEIGHT_HALF;

        let hit_right = self.ball_pos.x + BALL_SIZE_HALF > self.player_2_pos.x - RACKET_WIDTH_HALF
            && self.ball_pos.x + BALL_SIZE_HALF < self.player_2_pos.x + RACKET_WIDTH_HALF
            && self.ball_pos.y < self.player_2_pos.y + RACKET_HEIGHT_HALF
            && self.ball_pos.y > self.player_2_pos.y - RACKET_HEIGHT_HALF;

        if hit_left {
            self.ball_vel.x = abs64(self.ball_vel.x);
        } else if hit_right {
            self.ball_vel.x = -abs64(self.ball_vel.x);
        }
    }
}

/// After the wall clamps, the vertical state is consistent with the edge
/// that was hit: a ball above the top edge sits exactly on it with a
/// non-negative vertical velocity, a ball below the bottom edge sits
/// exactly on it with a non-positive one, and a ball clear of both edges
/// is untouched. Holds whenever the field is at least one ball tall.
pub proof fn lemma_wall_reflection_signs(y: int, vy: int, screen_h: int)
    requires
        screen_h >= BALL_SIZE,
    ensures
        y < BALL_SIZE_HALF ==> wall_y_after(y, screen_h) == BALL_SIZE_HALF
            && wall_vy_after(y, vy, screen_h) == abs_i(vy) && wall_vy_after(y, vy, screen_h) >= 0,
        y > screen_h - BALL_SIZE_HALF ==> wall_y_after(y, screen_h) == screen_h - BALL_SIZE_HALF
            && wall_vy_after(y, vy, screen_h) == -abs_i(vy) && wall_vy_after(y, vy, screen_h)
            <= 0,
        BALL_SIZE_HALF <= y <= screen_h - BALL_SIZE_HALF ==> wall_y_after(y, screen_h) == y
            && wall_vy_after(y, vy, screen_h) == vy,
{
}

/// The wall clamps are idempotent: applying them to a ball they have
/// already clamped changes nothing, whatever the field size.
pub proof fn lemma_wall_reflection_idempotent(y: int, vy: int, screen_h: int)
    ensures
        wall_y_after(wall_y_after(y, screen_h), screen_h) == wall_y_after(y, screen_h),
        wall_vy_after(wall_y_after(y, screen_h), wall_vy_after(y, vy, screen_h), screen_h)
            == wall_vy_after(y, vy, screen_h),
{
}

/// Reflections only flip signs, never scale: the wall clamps keep the
/// vertical speed's magnitude and the racket bounce keeps the horizontal
/// speed's magnitude.
pub proof fn lemma_reflection_preserves_speed(y: int, vy: int, screen_h: int, vx: int, hit_left: bool, hit_right: bool)
    ensures
        abs_i(wall_vy_after(y, vy, screen_h)) == abs_i(vy),
        abs_i(racket_vx_after(vx, hit_left, hit_right)) == abs_i(vx),
{
}

/// A frame in which the ball integrates past the left edge awards the
/// right player exactly one point — never more, never none — leaves the
/// left player's score alone, re-centers the ball on the field midpoint,
/// and serves it again at `BALL_SPEED` on each axis.
pub proof fn lemma_left_exit_scores(
    pre: MainState,
    post: MainState,
    keys: KeysHeld,
    dt_ms: int,
    screen_w: int,
    screen_h: int,
)
    requires
        update_relates(pre, post, keys, dt_ms, screen_w, screen_h),
        pre.ball_pos.x + scaled_by_millis(pre.ball_vel.x as int, dt_ms) < 0,
    ensures
        post.player_2_score == pre.player_2_score + 1,
        post.player_1_score == pre.player_1_score,
        post.ball_pos.x == screen_w / 2,
        post.ball_pos.y == wall_y_after(screen_h / 2, screen_h),
        screen_h >= BALL_SIZE ==> post.ball_pos.y == screen_h / 2,
        abs_i(post.ball_vel.x as int) == BALL_SPEED,
        abs_i(post.ball_vel.y as int) == BALL_SPEED,
{
    if screen_h >= BALL_SIZE {
        lemma_div_is_ordered(BALL_SIZE as int, screen_h, 2);
        lemma_fundamental_div_mod(screen_h, 2);
    }
}

/// The mirror of `lemma_left_exit_scores`: a ball that stays right of the
/// left edge but integrates past the right edge awards the left player
/// exactly one point and triggers the same re-center and re-serve. The
/// left edge is tested first, so it wins any (physically impossible) tie.
pub proof fn lemma_right_exit_scores(
    pre: MainState,
    post: MainState,
    keys: KeysHeld,
    dt_ms: int,
    screen_w: int,
    screen_h: int,
)
    requires
        update_relates(pre, post, keys, dt_ms, screen_w, screen_h),
        pre.ball_pos.x + scaled_by_millis(pre.ball_vel.x as int, dt_ms) >= 0,
        pre.ball_pos.x + scaled_by_millis(pre.ball_vel.x as int, dt_ms) > screen_w,
    ensures
        post.player_1_score == pre.player_1_score + 1,
        post.player_2_score == pre.player_2_score,
        post.ball_pos.x == screen_w / 2,
        post.ball_pos.y == wall_y_after(screen_h / 2, screen_h),
        screen_h >= BALL_SIZE ==> post.ball_pos.y == screen_h / 2,
        abs_i(post.ball_vel.x as int) == BALL_SPEED,
        abs_i(post.ball_vel.y as int) == BALL_SPEED,
{
    if screen_h >= BALL_SIZE {
        lemma_div_is_ordered(BALL_SIZE as int, screen_h, 2);
        lemma_fundamental_div_mod(screen_h, 2);
    }
}

/// A frame in which the ball stays inside the side edges scores no point
/// and keeps the speed magnitude of both velocity axes.
pub proof fn lemma_rally_preserves_speed(
    pre: MainState,
    post: MainState,
    keys: KeysHeld,
    dt_ms: int,
    screen_w: int,
    screen_h: int,
)
    requires
        update_relates(pre, post, keys, dt_ms, screen_w, screen_h),
        0 <= pre.ball_pos.x + scaled_by_millis(pre.ball_vel.x as int, dt_ms) <= screen_w,
    ensures
        post.player_1_score == pre.player_1_score,
        post.player_2_score == pre.player_2_score,
        abs_i(post.ball_vel.x as int) == abs_i(pre.ball_vel.x as int),
        abs_i(post.ball_vel.y as int) == abs_i(pre.ball_vel.y as int),
{
}

/// Score bookkeeping over one frame: neither score ever decreases, the
/// pair grows by exactly one point in a frame whose integrated ball
/// position lies strictly outside the side edges — never more, never
/// skipped — and by nothing otherwise; landing exactly on an edge does
/// not score.
pub proof fn lemma_scores_monotone(
    pre: MainState,
    post: MainState,
    keys: KeysHeld,
    dt_ms: int,
    screen_w: int,
    screen_h: int,
)
    requires
        update_relates(pre, post, keys, dt_ms, screen_w, screen_h),
    ensures
        post.player_1_score >= pre.player_1_score,
        post.player_2_score >= pre.player_2_score,
        (pre.ball_pos.x + scaled_by_millis(pre.ball_vel.x as int, dt_ms) < 0 || pre.ball_pos.x
            + scaled_by_millis(pre.ball_vel.x as int, dt_ms) > screen_w)
            ==> post.player_1_score + post.player_2_score == pre.player_1_score
            + pre.player_2_score + 1,
        0 <= pre.ball_pos.x + scaled_by_millis(pre.ball_vel.x as int, dt_ms) <= screen_w
            ==> post.player_1_score + post.player_2_score == pre.player_1_score
            + pre.player_2_score,
{
}

} // verus!
