use vstd::prelude::*;

use crate::geometry::{floor_div, lemma_mul_within, within, Vector2, LIMIT, SCALE};
use crate::objects::RigidBody;
use crate::physics::{MAX_FRAME_TIME, POSITION_LIMIT};

verus! {

/// Width of the view, in pixels.
pub const WINDOW_WIDTH: usize = 1040;

/// Height of the view, in pixels.
pub const WINDOW_HEIGHT: usize = 780;

/// Largest magnitude of a camera anchor coordinate.
pub const ANCHOR_LIMIT: i64 = 8 * LIMIT;

/// Where the camera keeps the player: on each axis the player's offset from
/// the anchor should lie in `[min, max]`, and the anchor eases towards it at a
/// speed of the squared overshoot divided by `easing`.
#[derive(Clone, Copy, Debug, PartialEq, Eq, Structural)]
pub struct CameraConfig {
    pub min_x: i64,
    pub max_x: i64,
    pub min_y: i64,
    pub max_y: i64,
    pub easing_x: i64,
    pub easing_y: i64,
}

impl CameraConfig {
    pub open spec fn wf(&self) -> bool {
        &&& within(self.min_x as int, LIMIT as int)
        &&& within(self.max_x as int, LIMIT as int)
        &&& within(self.min_y as int, LIMIT as int)
        &&& within(self.max_y as int, LIMIT as int)
        &&& self.min_x <= self.max_x
        &&& self.min_y <= self.max_y
        &&& 0 < self.easing_x <= LIMIT
        &&& 0 < self.easing_y <= LIMIT
    }
}

/// How far the anchor moves in `dt` towards closing an overshoot `o`.
pub open spec fn easing_step(o: int, dt: int, easing: int) -> int {
    o * o * dt / (SCALE * SCALE * easing)
}

/// The anchor coordinate `a` after easing for `dt` so that the offset of
/// `p` from it moves towards `[lo, hi]`, never past the nearest end of it.
pub open spec fn eased(a: int, p: int, lo: int, hi: int, dt: int, easing: int) -> int {
    if p - a < lo {
        let moved = a - easing_step(p - a - lo, dt, easing);
        if moved < p - lo {
            p - lo
        } else {
            moved
        }
    } else if p - a > hi {
        let moved = a + easing_step(p - a - hi, dt, easing);
        if moved > p - hi {
            p - hi
        } else {
            moved
        }
    } else {
        a
    }
}

fn ease_axis(a: i64, p: i64, lo: i64, hi: i64, dt: i64, easing: i64) -> (r: i64)
    requires
        within(a as int, ANCHOR_LIMIT as int),
        within(p as int, POSITION_LIMIT as int),
        within(lo as int, LIMIT as int),
        within(hi as int, LIMIT as int),
        lo <= hi,
        0 <= dt <= MAX_FRAME_TIME,
        0 < easing <= LIMIT,
    ensures
        r == eased(a as int, p as int, lo as int, hi as int, dt as int, easing as int),
        within(r as int, ANCHOR_LIMIT as int),
{
    let offset = p as i128 - a as i128;
    if offset < lo as i128 || offset > hi as i128 {
        let target = if offset < lo as i128 {
            p - lo
        } else {
            p - hi
        };
        let o = if offset < lo as i128 {
            offset - lo as i128
        } else {
            offset - hi as i128
        };
        proof {
            lemma_mul_within(o as int, o as int, 16 * LIMIT, 16 * LIMIT);
            lemma_mul_within(o * o, dt as int, 256 * LIMIT * LIMIT, MAX_FRAME_TIME as int);
            assert(0 <= o * o) by (nonlinear_arith);
            assert(0 <= o * o * dt) by (nonlinear_arith)
                requires
                    0 <= o * o,
                    0 <= dt,
            ;
            assert(0 < SCALE * SCALE * easing) by (nonlinear_arith)
                requires
                    0 < easing,
            ;
            vstd::arithmetic::div_mod::lemma_div_pos_is_pos(o * o * dt, SCALE * SCALE * easing);
            vstd::arithmetic::div_mod::lemma_div_is_ordered_by_denominator(o * o * dt, 1, SCALE * SCALE * easing);
        }
        let step = floor_div(o * o * dt as i128, SCALE as i128 * SCALE as i128 * easing as i128);
        if offset < lo as i128 {
            let moved = a as i128 - step;
            if moved < target as i128 {
                target
            } else {
                moved as i64
            }
        } else {
            let moved = a as i128 + step;
            if moved > target as i128 {
                target
            } else {
                moved as i64
            }
        }
    } else {
        a
    }
}

/// A view whose bottom-left corner is `bottom_left`.
#[derive(Clone, Copy, Debug, PartialEq, Eq, Structural)]
pub struct Camera {
    pub bottom_left: Vector2,
}

impl Camera {
    /// A camera with its bottom-left corner at `(x, y)`.
    pub fn new(x: i64, y: i64) -> (r: Camera)
        ensures
            r.bottom_left == (Vector2 { x, y }),
    {
        Camera { bottom_left: Vector2::new(x, y) }
    }

    /// The point of the world that pixel `point` shows, counting pixels from
    /// the top-left corner of the view; a pixel spans one unit.
    pub fn get_game_position(&self, point: Vector2) -> (r: Vector2)
        requires
            within(point.x as int, LIMIT as int),
            0 <= point.y <= WINDOW_HEIGHT,
            within(self.bottom_left.x as int, ANCHOR_LIMIT as int),
            within(self.bottom_left.y as int, ANCHOR_LIMIT as int),
        ensures
            r.x == self.bottom_left.x + point.x * SCALE,
            r.y == self.bottom_left.y + (WINDOW_HEIGHT - point.y) * SCALE,
    {
        Vector2::new(
            self.bottom_left.x + point.x * SCALE,
            self.bottom_left.y + (WINDOW_HEIGHT as i64 - point.y) * SCALE,
        )
    }

    /// Eases the camera so that the player stays within the configured zone
    /// of the view, on each axis independently.
    pub fn keep_centered_on_player(
        &mut self,
        player: &RigidBody,
        frame_time: i64,
        config: &CameraConfig,
    )
        requires
            within(old(self).bottom_left.x as int, ANCHOR_LIMIT as int),
            within(old(self).bottom_left.y as int, ANCHOR_LIMIT as int),
            player.wf(),
            config.wf(),
            0 <= frame_time <= MAX_FRAME_TIME,
        ensures
            final(self).bottom_left.x == eased(
                old(self).bottom_left.x as int,
                player.center.x as int,
                config.min_x as int,
                config.max_x as int,
                frame_time as int,
                config.easing_x as int,
            ),
            final(self).bottom_left.y == eased(
                old(self).bottom_left.y as int,
                player.center.y as int,
                config.min_y as int,
                config.max_y as int,
                frame_time as int,
                config.easing_y as int,
            ),
            within(final(self).bottom_left.x as int, ANCHOR_LIMIT as int),
            within(final(self).bottom_left.y as int, ANCHOR_LIMIT as int),
    {
        let x = ease_axis(
            self.bottom_left.x,
            player.center.x,
            config.min_x,
            config.max_x,
            frame_time,
            config.easing_x,
        );
        let y = ease_axis(
            self.bottom_left.y,
            player.center.y,
            config.min_y,
            config.max_y,
            frame_time,
            config.easing_y,
        );
        self.bottom_left = Vector2::new(x, y);
    }
}

} // verus!
