use vstd::prelude::*;

use crate::geometry::{clamp, clamp_to, floor_div, lemma_mul_within, within, Vector2, LIMIT, SCALE};
use crate::objects::{RigidBody, SPEED_LIMIT};

verus! {

/// Longest frame the integrator takes, in thousandths of a time unit.
pub const MAX_FRAME_TIME: i64 = LIMIT;

/// Largest magnitude of a body's center coordinate.
pub const POSITION_LIMIT: i64 = 4 * LIMIT;

/// Largest magnitude of an acceleration component the integrator takes.
pub const ACCELERATION_LIMIT: i64 = 16 * LIMIT;

/// The tuning of the player's motion. Lengths, times, velocities and
/// accelerations count thousandths of a unit; ratios count thousandths.
#[derive(Clone, Copy, Debug, PartialEq, Eq, Structural)]
pub struct Config {
    /// Vertical acceleration while the body moves up.
    pub gravity_rising: i64,
    /// Vertical acceleration while the body moves down or is still.
    pub gravity_falling: i64,
    /// Horizontal acceleration of walking on the ground.
    pub walking_accel: i64,
    /// Ratio of walking acceleration that applies in the air.
    pub air_accel_ratio: i64,
    /// Ratio of the horizontal speed that friction takes away on the ground.
    pub friction_ground: i64,
    /// Ratio of the horizontal speed that friction takes away in the air.
    pub friction_air: i64,
    /// Vertical velocity of a jump.
    pub jump_force: i64,
    /// Ratio of the motion of the platform stood on that a jump adds.
    pub platform_jump_ratio: i64,
    /// How long a jump press is honoured before landing.
    pub jump_buffer_time: i64,
    /// How long after leaving the ground a jump is still allowed.
    pub coyote_time: i64,
    /// Vertical velocity of a body that rests on or under an obstacle.
    pub resting_velocity: i64,
    /// How far a body riding a platform is sunk into it, to keep it stuck.
    pub ride_sink: i64,
}

impl Config {
    pub open spec fn wf(&self) -> bool {
        &&& within(self.gravity_rising as int, LIMIT as int)
        &&& within(self.gravity_falling as int, LIMIT as int)
        &&& 0 <= self.walking_accel <= LIMIT
        &&& 0 <= self.air_accel_ratio <= SCALE
        &&& 0 <= self.friction_ground <= LIMIT
        &&& 0 <= self.friction_air <= LIMIT
        &&& within(self.jump_force as int, LIMIT as int)
        &&& 0 <= self.platform_jump_ratio <= SCALE
        &&& 0 <= self.jump_buffer_time <= LIMIT
        &&& 0 <= self.coyote_time <= LIMIT
        &&& within(self.resting_velocity as int, LIMIT as int)
        &&& 0 <= self.ride_sink <= LIMIT
    }
}

/// What the player asks for on one frame.
#[derive(Clone, Copy, Debug, PartialEq, Eq, Structural)]
pub struct FrameInput {
    pub move_left: bool,
    pub move_right: bool,
    /// The jump control went down since the last frame.
    pub jump_pressed: bool,
}

pub open spec fn abs(v: int) -> int {
    if v < 0 {
        -v
    } else {
        v
    }
}

pub open spec fn min(a: int, b: int) -> int {
    if a <= b {
        a
    } else {
        b
    }
}

/// The horizontal acceleration that walking gives.
pub open spec fn walk_accel(grounded: bool, config: Config) -> int {
    if grounded {
        config.walking_accel as int
    } else {
        config.walking_accel * config.air_accel_ratio / SCALE as int
    }
}

/// The deceleration friction opposes to a horizontal velocity with.
pub open spec fn friction(vx: int, grounded: bool, config: Config) -> int {
    let coefficient = if grounded {
        config.friction_ground
    } else {
        config.friction_air
    };
    min(abs(vx), coefficient * abs(vx) / SCALE as int)
}

/// The acceleration of a body on one frame: gravity, faster while falling,
/// walking, weaker in the air, and friction against the horizontal velocity.
pub open spec fn acceleration_spec(
    velocity: Vector2,
    input: FrameInput,
    grounded: bool,
    config: Config,
) -> Vector2 {
    let walk = walk_accel(grounded, config);
    let push = (if input.move_right {
        walk
    } else {
        0
    }) - (if input.move_left {
        walk
    } else {
        0
    });
    let f = friction(velocity.x as int, grounded, config);
    Vector2 {
        x: (push + if velocity.x < 0 {
            f
        } else {
            -f
        }) as i64,
        y: if velocity.y > 0 {
            config.gravity_rising
        } else {
            config.gravity_falling
        },
    }
}

/// The acceleration of a body with `velocity` on one frame; `grounded` says
/// whether it stood on something on the frame before.
pub fn acceleration(velocity: &Vector2, input: &FrameInput, grounded: bool, config: &Config) -> (r:
    Vector2)
    requires
        config.wf(),
        within(velocity.x as int, SPEED_LIMIT as int),
    ensures
        r == acceleration_spec(*velocity, *input, grounded, *config),
        within(r.x as int, ACCELERATION_LIMIT as int),
        within(r.y as int, ACCELERATION_LIMIT as int),
{
    proof {
        lemma_mul_within(config.walking_accel as int, config.air_accel_ratio as int, LIMIT as int, SCALE as int);
        crate::geometry::lemma_div_within(
            config.walking_accel * config.air_accel_ratio,
            LIMIT as int,
            SCALE as int,
        );
    }
    let walk: i64 = if grounded {
        config.walking_accel
    } else {
        ((config.walking_accel as i128 * config.air_accel_ratio as i128) / SCALE as i128) as i64
    };
    let mut x: i64 = 0;
    if input.move_right {
        x = x + walk;
    }
    if input.move_left {
        x = x - walk;
    }
    let speed: i64 = if velocity.x < 0 {
        -velocity.x
    } else {
        velocity.x
    };
    let coefficient = if grounded {
        config.friction_ground
    } else {
        config.friction_air
    };
    proof {
        lemma_mul_within(coefficient as int, speed as int, LIMIT as int, SPEED_LIMIT as int);
        vstd::arithmetic::div_mod::lemma_div_pos_is_pos(coefficient * speed, SCALE as int);
    }
    let scaled = (coefficient as i128 * speed as i128) / SCALE as i128;
    let f: i64 = if (speed as i128) <= scaled {
        speed
    } else {
        scaled as i64
    };
    if velocity.x < 0 {
        x = x + f;
    } else {
        x = x - f;
    }
    let y = if velocity.y > 0 {
        config.gravity_rising
    } else {
        config.gravity_falling
    };
    Vector2::new(x, y)
}

/// How far a body with velocity `v` moves in `dt` under constant acceleration
/// `a`: `a * dt^2 / 2 + v * dt`, in fixed point, rounded down.
pub open spec fn displacement(a: int, v: int, dt: int) -> int {
    (a * dt * dt + 2 * SCALE * v * dt) / (2 * SCALE * SCALE)
}

/// How much the velocity grows in `dt` under acceleration `a`, rounded down.
pub open spec fn velocity_gain(a: int, dt: int) -> int {
    a * dt / SCALE as int
}

/// The body after `dt` under constant acceleration `a`, with its position and
/// velocity saturated at the ends of the fixed-point range.
pub open spec fn integrated(body: RigidBody, a: Vector2, dt: int) -> RigidBody {
    RigidBody {
        center: Vector2 {
            x: clamp(
                body.center.x + displacement(a.x as int, body.velocity.x as int, dt),
                POSITION_LIMIT as int,
            ) as i64,
            y: clamp(
                body.center.y + displacement(a.y as int, body.velocity.y as int, dt),
                POSITION_LIMIT as int,
            ) as i64,
        },
        velocity: Vector2 {
            x: clamp(body.velocity.x + velocity_gain(a.x as int, dt), SPEED_LIMIT as int) as i64,
            y: clamp(body.velocity.y + velocity_gain(a.y as int, dt), SPEED_LIMIT as int) as i64,
        },
        ..body
    }
}

fn integrate_axis(position: i64, velocity: i64, a: i64, dt: i64) -> (r: (i64, i64))
    requires
        within(position as int, POSITION_LIMIT as int),
        within(velocity as int, SPEED_LIMIT as int),
        within(a as int, ACCELERATION_LIMIT as int),
        0 <= dt <= MAX_FRAME_TIME,
    ensures
        r.0 == clamp(position + displacement(a as int, velocity as int, dt as int), POSITION_LIMIT as int),
        r.1 == clamp(velocity + velocity_gain(a as int, dt as int), SPEED_LIMIT as int),
{
    proof {
        lemma_mul_within(a as int, dt as int, ACCELERATION_LIMIT as int, MAX_FRAME_TIME as int);
        lemma_mul_within(a * dt, dt as int, ACCELERATION_LIMIT * MAX_FRAME_TIME, MAX_FRAME_TIME as int);
        assert(within(2 * SCALE * velocity, 2 * SCALE * SPEED_LIMIT)) by (nonlinear_arith)
            requires
                within(velocity as int, SPEED_LIMIT as int),
        ;
        lemma_mul_within(2 * SCALE * velocity, dt as int, 2 * SCALE * SPEED_LIMIT, MAX_FRAME_TIME as int);
        crate::geometry::lemma_div_within(
            a * dt * dt + 2 * SCALE * velocity * dt,
            ACCELERATION_LIMIT * MAX_FRAME_TIME * MAX_FRAME_TIME + 2 * SCALE * SPEED_LIMIT * MAX_FRAME_TIME,
            2 * SCALE * SCALE,
        );
        crate::geometry::lemma_div_within(
            a * dt,
            ACCELERATION_LIMIT * MAX_FRAME_TIME,
            SCALE as int,
        );
        assert(2 * SCALE * velocity * dt == (2 * SCALE * velocity) * dt);
    }
    let a_dt = a as i128 * dt as i128;
    let num = a_dt * dt as i128 + 2 * SCALE as i128 * velocity as i128 * dt as i128;
    let moved = floor_div(num, 2 * SCALE as i128 * SCALE as i128);
    let gain = floor_div(a_dt, SCALE as i128);
    (clamp_to(position as i128 + moved, POSITION_LIMIT), clamp_to(velocity as i128 + gain, SPEED_LIMIT))
}

impl RigidBody {
    /// Moves the body through `frame_time` under constant `acceleration`, in
    /// closed form: the position moves by `a * t^2 / 2 + v * t`, then the
    /// velocity grows by `a * t`.
    pub fn integrate(&mut self, acceleration: &Vector2, frame_time: i64)
        requires
            old(self).wf(),
            within(acceleration.x as int, ACCELERATION_LIMIT as int),
            within(acceleration.y as int, ACCELERATION_LIMIT as int),
            0 <= frame_time <= MAX_FRAME_TIME,
        ensures
            *final(self) == integrated(*old(self), *acceleration, frame_time as int),
            final(self).wf(),
    {
        let (x, vx) = integrate_axis(self.center.x, self.velocity.x, acceleration.x, frame_time);
        let (y, vy) = integrate_axis(self.center.y, self.velocity.y, acceleration.y, frame_time);
        self.center = Vector2::new(x, y);
        self.velocity = Vector2::new(vx, vy);
    }
}

/// Starting at rest, under constant acceleration `a` for `dt`, the velocity
/// becomes `a * dt` and the body moves by `a * dt^2 / 2`, exactly up to the
/// fixed-point rounding; over whole time units `k` these are `a * k` and
/// `a * k^2 / 2`.
pub proof fn lemma_integration_exact(a: int, dt: int)
    requires
        0 <= dt,
    ensures
        displacement(a, 0, dt) == a * dt * dt / (2 * SCALE * SCALE),
        velocity_gain(a, dt) == a * dt / SCALE as int,
        dt % SCALE as int == 0 ==> velocity_gain(a, dt) == a * (dt / SCALE as int),
        dt % SCALE as int == 0 ==> displacement(a, 0, dt) == a * (dt / SCALE as int) * (dt
            / SCALE as int) / 2,
{
    let s = SCALE as int;
    assert(2 * SCALE * 0int * dt == 0) by (nonlinear_arith);
    if dt % s == 0 {
        let k = dt / s;
        vstd::arithmetic::div_mod::lemma_fundamental_div_mod(dt, s);
        assert(dt == s * k);
        assert(a * dt == s * (a * k)) by (nonlinear_arith)
            requires
                dt == s * k,
        ;
        vstd::arithmetic::div_mod::lemma_div_multiples_vanish(a * k, s);
        assert(a * dt * dt == (s * s) * (a * k * k)) by (nonlinear_arith)
            requires
                dt == s * k,
        ;
        assert((s * s) * 2 == 2 * s * s) by (nonlinear_arith);
        if a * k * k >= 0 {
            vstd::arithmetic::div_mod::lemma_div_multiples_vanish_quotient(s * s, a * k * k, 2);
        } else {
            // the quotient rule above needs a non-negative dividend
            let m = a * k * k;
            let q = m / 2;
            let r = m % 2;
            vstd::arithmetic::div_mod::lemma_fundamental_div_mod(m, 2);
            assert((s * s) * m == q * (2 * s * s) + (s * s) * r) by (nonlinear_arith)
                requires
                    m == 2 * q + r,
            ;
            assert(0 <= (s * s) * r < 2 * s * s) by (nonlinear_arith)
                requires
                    0 <= r < 2,
                    s == 1000,
            ;
            vstd::arithmetic::div_mod::lemma_fundamental_div_mod_converse(
                (s * s) * m,
                2 * s * s,
                q,
                (s * s) * r,
            );
        }
    }
}

} // verus!
