use vstd::prelude::*;

use crate::geometry::{
    clamp, clamp_to, half_low, lemma_bounds_of, overlap_x, within, Bounds, RectObject, Vector2,
    LIMIT, SCALE,
};
use crate::map::{Checkpoint, GameMap};
use crate::objects::{
    bounds_seq, bounds_spec_of, is_scenery, lemma_resolve_all_wf, resolve_all, CollisionTypes,
    MovingObject, RigidBody, SPEED_LIMIT,
};
use crate::physics::{acceleration, acceleration_spec, integrated, Config, FrameInput, MAX_FRAME_TIME};

verus! {

/// What the player's motion carries from one frame to the next.
pub struct PlayerState {
    /// Time left during which a jump press is still honoured.
    pub jump_buffer: i64,
    /// Time left during which the player may still jump after leaving the ground.
    pub coyote_time: i64,
    /// The sides the player came to rest against on the last frame.
    pub collisions: Vec<CollisionTypes>,
    /// The platform the player stood on at the end of the last frame.
    pub stuck_platform: Option<usize>,
}

impl PlayerState {
    pub open spec fn wf(&self, platforms: int) -> bool {
        &&& 0 <= self.jump_buffer <= LIMIT
        &&& 0 <= self.coyote_time <= LIMIT
        &&& self.stuck_platform matches Some(i) ==> i < platforms
    }

    /// The state before the first frame: no timers running, no collisions.
    pub fn new() -> (r: PlayerState)
        ensures
            r.jump_buffer == 0,
            r.coyote_time == 0,
            r.collisions@ == Seq::<CollisionTypes>::empty(),
            r.stuck_platform.is_none(),
    {
        PlayerState { jump_buffer: 0, coyote_time: 0, collisions: Vec::new(), stuck_platform: None }
    }
}

/// Whether `kind` is among `collisions`.
pub fn contains_collision(collisions: &Vec<CollisionTypes>, kind: CollisionTypes) -> (r: bool)
    ensures
        r == collisions@.contains(kind),
{
    let mut i: usize = 0;
    while i < collisions.len()
        invariant
            0 <= i <= collisions@.len(),
            forall|j: int| 0 <= j < i ==> collisions@[j] != kind,
        decreases collisions@.len() - i,
    {
        if collisions[i] == kind {
            return true;
        }
        i = i + 1;
    }
    false
}

/// A timer after `dt` more time: it counts down and stops at zero.
pub open spec fn countdown(t: int, dt: int) -> int {
    if t > dt {
        t - dt
    } else {
        0
    }
}

/// The player carried along by the platform it stood on: while their
/// horizontal extents overlap it follows the platform's last horizontal motion
/// and sits on its top, sunk in by `ride_sink`.
pub open spec fn ridden(player: RigidBody, platform: MovingObject, config: Config) -> RigidBody {
    let b = bounds_spec_of(platform);
    if overlap_x(player.bounds_spec(), b) {
        RigidBody {
            center: Vector2 {
                x: (player.center.x + platform.prev_move_spec().x) as i64,
                y: (b.top + half_low(player.height as int) - config.ride_sink) as i64,
            },
            ..player
        }
    } else {
        player
    }
}

/// Carries the player along with the platform it stood on.
pub fn ride_along(player: &mut RigidBody, platform: &MovingObject, config: &Config)
    requires
        old(player).wf(),
        platform.wf(),
        config.wf(),
    ensures
        *final(player) == ridden(*old(player), *platform, *config),
        final(player).wf(),
{
    proof {
        platform.lemma_wf();
        lemma_bounds_of(platform.center_spec(), platform.width_spec(), platform.height_spec());
        lemma_bounds_of(player.center, player.width, player.height);
    }
    let b = platform.bounds();
    if player.collides_with_x(&b) {
        let motion = platform.prev_move();
        player.center.x = player.center.x + motion.x;
        player.center.y = b.top + player.height / 2 - config.ride_sink;
    }
}

/// The extra velocity a jump takes from the motion of the platform stood on.
pub open spec fn jump_boost(platform_motion: Option<Vector2>, config: Config) -> Vector2 {
    match platform_motion {
        Some(m) => Vector2 {
            x: (m.x * config.platform_jump_ratio / SCALE as int) as i64,
            y: (m.y * config.platform_jump_ratio / SCALE as int) as i64,
        },
        None => Vector2 { x: 0, y: 0 },
    }
}

/// A jump is taken when both grace timers are running.
pub open spec fn jump_taken(coyote_time: int, jump_buffer: int) -> bool {
    coyote_time > 0 && jump_buffer > 0
}

/// The jump buffer when the jump is decided: restarted by a jump press,
/// otherwise counted down.
pub open spec fn buffer_at_decision(jump_buffer: int, jump_pressed: bool, dt: int, config: Config) -> int {
    if jump_pressed {
        config.jump_buffer_time as int
    } else {
        countdown(jump_buffer, dt)
    }
}

/// The coyote time when the jump is decided: restarted while standing on
/// something, otherwise counted down.
pub open spec fn coyote_at_decision(
    coyote_time: int,
    collisions: Seq<CollisionTypes>,
    dt: int,
    config: Config,
) -> int {
    if collisions.contains(CollisionTypes::Top) {
        config.coyote_time as int
    } else {
        countdown(coyote_time, dt)
    }
}

/// The timing and jump rules at the end of a frame, given the sides the player
/// rests against: the player, the jump buffer, the coyote time and the
/// platform stood on afterwards.
pub open spec fn jump_rules(
    player: RigidBody,
    collisions: Seq<CollisionTypes>,
    jump_buffer: int,
    coyote_time: int,
    stuck_platform: Option<usize>,
    jump_pressed: bool,
    dt: int,
    platform_motion: Option<Vector2>,
    config: Config,
) -> (RigidBody, int, int, Option<usize>) {
    let buffer = buffer_at_decision(jump_buffer, jump_pressed, dt, config);
    let coyote = coyote_at_decision(coyote_time, collisions, dt, config);
    let vx = if collisions.contains(CollisionTypes::Left) || collisions.contains(
        CollisionTypes::Right,
    ) {
        0
    } else {
        player.velocity.x as int
    };
    if jump_taken(coyote, buffer) {
        let boost = jump_boost(platform_motion, config);
        (
            RigidBody {
                velocity: Vector2 {
                    x: clamp(vx + boost.x, SPEED_LIMIT as int) as i64,
                    y: clamp(config.jump_force + boost.y, SPEED_LIMIT as int) as i64,
                },
                ..player
            },
            0,
            0,
            None,
        )
    } else {
        (
            RigidBody {
                velocity: Vector2 {
                    x: vx as i64,
                    y: if collisions.contains(CollisionTypes::Top) || collisions.contains(
                        CollisionTypes::Bottom,
                    ) {
                        config.resting_velocity
                    } else {
                        player.velocity.y
                    },
                },
                ..player
            },
            buffer,
            coyote,
            stuck_platform,
        )
    }
}

/// Applies the timing and jump rules at the end of a frame. The jump buffer
/// counts down, or restarts on a jump press; the coyote time restarts while
/// standing on something and counts down otherwise; a side collision stops
/// horizontal motion. A jump is taken exactly when both timers are running: it
/// sets the vertical velocity to the jump force, adds a share of the motion of
/// the platform stood on, stops both timers and unsticks the player. Otherwise
/// a player resting on or under something gets the resting vertical velocity.
pub fn apply_jump_rules(
    player: &mut RigidBody,
    state: &mut PlayerState,
    jump_pressed: bool,
    frame_time: i64,
    platform_motion: Option<Vector2>,
    config: &Config,
)
    requires
        old(player).wf(),
        config.wf(),
        0 <= old(state).jump_buffer <= LIMIT,
        0 <= old(state).coyote_time <= LIMIT,
        0 <= frame_time,
        platform_motion matches Some(m) ==> within(m.x as int, 2 * LIMIT) && within(
            m.y as int,
            2 * LIMIT,
        ),
    ensures
        ({
            let r = jump_rules(
                *old(player),
                old(state).collisions@,
                old(state).jump_buffer as int,
                old(state).coyote_time as int,
                old(state).stuck_platform,
                jump_pressed,
                frame_time as int,
                platform_motion,
                *config,
            );
            &&& *final(player) == r.0
            &&& final(state).jump_buffer == r.1
            &&& final(state).coyote_time == r.2
            &&& final(state).stuck_platform == r.3
        }),
        final(state).collisions@ == old(state).collisions@,
        final(player).wf(),
        0 <= final(state).jump_buffer <= LIMIT,
        0 <= final(state).coyote_time <= LIMIT,
{
    let buffer: i64 = if jump_pressed {
        config.jump_buffer_time
    } else if state.jump_buffer > frame_time {
        state.jump_buffer - frame_time
    } else {
        0
    };
    let top = contains_collision(&state.collisions, CollisionTypes::Top);
    let bottom = contains_collision(&state.collisions, CollisionTypes::Bottom);
    let left = contains_collision(&state.collisions, CollisionTypes::Left);
    let right = contains_collision(&state.collisions, CollisionTypes::Right);
    let coyote: i64 = if top {
        config.coyote_time
    } else if state.coyote_time > frame_time {
        state.coyote_time - frame_time
    } else {
        0
    };
    if left || right {
        player.velocity.x = 0;
    }
    if coyote > 0 && buffer > 0 {
        let boost = match platform_motion {
            Some(m) => Vector2::multiply(&m, config.platform_jump_ratio),
            None => Vector2::new(0, 0),
        };
        let vx = clamp_to(player.velocity.x as i128 + boost.x as i128, SPEED_LIMIT);
        let vy = clamp_to(config.jump_force as i128 + boost.y as i128, SPEED_LIMIT);
        player.velocity = Vector2::new(vx, vy);
        state.jump_buffer = 0;
        state.coyote_time = 0;
        state.stuck_platform = None;
    } else {
        if top || bottom {
            player.velocity.y = config.resting_velocity;
        }
        state.jump_buffer = buffer;
        state.coyote_time = coyote;
    }
}

/// A jump is taken exactly when both the coyote time and the jump buffer are
/// running when it is decided. Taking it sets the vertical velocity to the jump
/// force plus the platform's share, stops both timers and unsticks the player;
/// not taking it leaves both timers and the platform as they were counted.
pub proof fn lemma_jump_gating(
    player: RigidBody,
    collisions: Seq<CollisionTypes>,
    jump_buffer: int,
    coyote_time: int,
    stuck_platform: Option<usize>,
    jump_pressed: bool,
    dt: int,
    platform_motion: Option<Vector2>,
    config: Config,
)
    ensures
        ({
            let buffer = buffer_at_decision(jump_buffer, jump_pressed, dt, config);
            let coyote = coyote_at_decision(coyote_time, collisions, dt, config);
            let r = jump_rules(
                player,
                collisions,
                jump_buffer,
                coyote_time,
                stuck_platform,
                jump_pressed,
                dt,
                platform_motion,
                config,
            );
            &&& (coyote > 0 && buffer > 0) ==> {
                &&& r.1 == 0
                &&& r.2 == 0
                &&& r.3.is_none()
                &&& r.0.velocity.y == clamp(
                    config.jump_force + jump_boost(platform_motion, config).y,
                    SPEED_LIMIT as int,
                )
            }
            &&& !(coyote > 0 && buffer > 0) ==> {
                &&& r.1 == buffer
                &&& r.2 == coyote
                &&& r.3 == stuck_platform
            }
            &&& r.0.center == player.center
        }),
{
}

/// The player must respawn: it fell below the lowest point, or it is squeezed
/// between obstacles from above and below, or from left and right.
pub open spec fn respawn_due(player: RigidBody, collisions: Seq<CollisionTypes>, lowest_point: int) -> bool {
    ||| player.center.y < lowest_point
    ||| collisions.contains(CollisionTypes::Top) && collisions.contains(CollisionTypes::Bottom)
    ||| collisions.contains(CollisionTypes::Left) && collisions.contains(CollisionTypes::Right)
}

/// Whether the player must respawn.
pub fn should_respawn(player: &RigidBody, collisions: &Vec<CollisionTypes>, lowest_point: i64) -> (r:
    bool)
    ensures
        r == respawn_due(*player, collisions@, lowest_point as int),
{
    player.center.y < lowest_point || (contains_collision(collisions, CollisionTypes::Top)
        && contains_collision(collisions, CollisionTypes::Bottom)) || (contains_collision(
        collisions,
        CollisionTypes::Left,
    ) && contains_collision(collisions, CollisionTypes::Right))
}

/// The respawn body after the player touches the checkpoints: that of the last
/// checkpoint whose marker meets the body, or `respawn` if none does.
pub open spec fn respawn_after(checkpoints: Seq<Checkpoint>, body: Bounds, respawn: RigidBody) -> RigidBody
    decreases checkpoints.len(),
{
    if checkpoints.len() == 0 {
        respawn
    } else if checkpoints.last().indicator.meets(body) {
        checkpoints.last().respawn
    } else {
        respawn_after(checkpoints.drop_last(), body, respawn)
    }
}

/// The respawn body once `player` touches the checkpoints.
pub fn reached_respawn(checkpoints: &Vec<Checkpoint>, player: &RigidBody, respawn: RigidBody) -> (r:
    RigidBody)
    requires
        forall|i: int|
            0 <= i < checkpoints@.len() ==> (#[trigger] checkpoints@[i]).indicator.wf()
                && checkpoints@[i].respawn.wf(),
        player.wf(),
        respawn.wf(),
    ensures
        r == respawn_after(checkpoints@, player.bounds_spec(), respawn),
        r.wf(),
{
    let mut result = respawn;
    let mut i: usize = 0;
    while i < checkpoints.len()
        invariant
            0 <= i <= checkpoints@.len(),
            forall|j: int|
                0 <= j < checkpoints@.len() ==> (#[trigger] checkpoints@[j]).indicator.wf()
                    && checkpoints@[j].respawn.wf(),
            player.wf(),
            respawn.wf(),
            result == respawn_after(checkpoints@.take(i as int), player.bounds_spec(), respawn),
            result.wf(),
        decreases checkpoints@.len() - i,
    {
        let checkpoint = &checkpoints[i];
        proof {
            let next = checkpoints@.take(i as int + 1);
            assert(next.drop_last() =~= checkpoints@.take(i as int));
            assert(next.last() == checkpoints@[i as int]);
        }
        if checkpoint.indicator.intersects_rigidbody(player) {
            result = checkpoint.respawn;
        }
        i = i + 1;
    }
    proof {
        assert(checkpoints@.take(checkpoints@.len() as int) =~= checkpoints@);
    }
    result
}

/// Each platform after `dt` more time.
pub open spec fn advanced_all(platforms: Seq<MovingObject>, dt: int) -> Seq<MovingObject> {
    platforms.map_values(|p: MovingObject| p.advanced(dt))
}

/// Moves every platform `frame_time` further along its path.
pub fn advance_platforms(platforms: &mut Vec<MovingObject>, frame_time: i64)
    requires
        forall|i: int| 0 <= i < old(platforms)@.len() ==> (#[trigger] old(platforms)@[i]).wf(),
        0 <= frame_time,
    ensures
        final(platforms)@ == advanced_all(old(platforms)@, frame_time as int),
        forall|i: int| 0 <= i < final(platforms)@.len() ==> (#[trigger] final(platforms)@[i]).wf(),
{
    let ghost start = platforms@;
    let mut i: usize = 0;
    while i < platforms.len()
        invariant
            0 <= i <= platforms@.len(),
            platforms@.len() == start.len(),
            0 <= frame_time,
            forall|j: int| 0 <= j < start.len() ==> (#[trigger] start[j]).wf(),
            forall|j: int| 0 <= j < i ==> platforms@[j] == (#[trigger] start[j]).advanced(frame_time as int),
            forall|j: int| i <= j < start.len() ==> platforms@[j] == #[trigger] start[j],
            forall|j: int| 0 <= j < i ==> (#[trigger] platforms@[j]).wf(),
        decreases start.len() - i,
    {
        let mut platform = platforms[i];
        assert(platform == start[i as int]);
        platform.update(frame_time);
        platforms.set(i, platform);
        i = i + 1;
    }
    proof {
        assert(platforms@ =~= advanced_all(start, frame_time as int));
    }
}

/// The player after one frame's motion, before collisions: integrated under
/// the frame's acceleration, then carried by the platform it stood on.
pub open spec fn frame_motion(
    player: RigidBody,
    state_collisions: Seq<CollisionTypes>,
    stuck_platform: Option<usize>,
    platforms: Seq<MovingObject>,
    input: FrameInput,
    dt: int,
    config: Config,
) -> RigidBody {
    let grounded = state_collisions.contains(CollisionTypes::Top);
    let moved = integrated(player, acceleration_spec(player.velocity, input, grounded, config), dt);
    match stuck_platform {
        Some(i) => ridden(moved, platforms[i as int], config),
        None => moved,
    }
}

/// Runs one frame of the game: the player accelerates and moves, the
/// platforms advance, the player rides the platform it stood on and is pushed
/// out of platforms then scenery, the jump rules apply, touched checkpoints
/// become the respawn point, and the player respawns when it must. Returns
/// whether the player reached the goal.
pub fn step_frame(
    map: &mut GameMap,
    state: &mut PlayerState,
    input: FrameInput,
    frame_time: i64,
    config: &Config,
) -> (goal_reached: bool)
    requires
        old(map).wf(),
        old(state).wf(old(map).moving_objects@.len() as int),
        config.wf(),
        0 <= frame_time <= MAX_FRAME_TIME,
    ensures
        final(map).wf(),
        final(state).wf(final(map).moving_objects@.len() as int),
        ({
            let dt = frame_time as int;
            let platforms = advanced_all(old(map).moving_objects@, dt);
            let moved = frame_motion(
                old(map).player,
                old(state).collisions@,
                old(state).stuck_platform,
                platforms,
                input,
                dt,
                *config,
            );
            let first = resolve_all(moved, bounds_seq(platforms));
            let second = resolve_all(first.0, bounds_seq(old(map).static_objects@));
            let collisions = first.1 + second.1;
            let motion = match first.2 {
                Some(i) => Some(platforms[i as int].prev_move_spec()),
                None => None,
            };
            let jumped = jump_rules(
                second.0,
                collisions,
                old(state).jump_buffer as int,
                old(state).coyote_time as int,
                first.2,
                input.jump_pressed,
                dt,
                motion,
                *config,
            );
            let respawn = respawn_after(
                old(map).checkpoints@,
                jumped.0.bounds_spec(),
                old(map).player_respawn,
            );
            let due = respawn_due(jumped.0, collisions, old(map).lowest_point as int);
            &&& final(map).moving_objects@ == platforms
            &&& final(map).static_objects@ == old(map).static_objects@
            &&& final(map).moving_object_indicators@ == old(map).moving_object_indicators@
            &&& final(map).checkpoints@ == old(map).checkpoints@
            &&& final(map).goal == old(map).goal
            &&& final(map).lowest_point == old(map).lowest_point
            &&& final(map).player_respawn == respawn
            &&& due ==> final(map).player == final(map).player_respawn
            &&& !due ==> final(map).player == jumped.0
            &&& final(state).collisions@ == collisions
            &&& final(state).jump_buffer == jumped.1
            &&& final(state).coyote_time == jumped.2
            &&& final(state).stuck_platform == jumped.3
            &&& goal_reached == final(map).goal.meets(final(map).player.bounds_spec())
        }),
{
    let grounded = contains_collision(&state.collisions, CollisionTypes::Top);
    let accel = acceleration(&map.player.velocity, &input, grounded, config);
    map.player.integrate(&accel, frame_time);

    advance_platforms(&mut map.moving_objects, frame_time);

    match state.stuck_platform {
        Some(i) => {
            let platform = map.moving_objects[i];
            ride_along(&mut map.player, &platform, config);
        },
        None => {},
    }

    let ghost platforms = map.moving_objects@;
    assert forall|i: int| 0 <= i < platforms.len() implies is_scenery(#[trigger] platforms[i]) by {
        platforms[i].lemma_wf();
    }
    let mut collisions: Vec<CollisionTypes> = Vec::new();
    let ghost before = map.player;
    let stuck = map.player.handle_collisions(map.moving_objects.as_slice(), &mut collisions);
    proof {
        lemma_resolve_all_wf(before, bounds_seq(platforms));
        assert forall|i: int| 0 <= i < platforms.len() implies {
            &&& within(#[trigger] bounds_seq(platforms)[i].left as int, 3 * LIMIT)
            &&& within(bounds_seq(platforms)[i].right as int, 3 * LIMIT)
            &&& within(bounds_seq(platforms)[i].bottom as int, 3 * LIMIT)
            &&& within(bounds_seq(platforms)[i].top as int, 3 * LIMIT)
        } by {
            platforms[i].lemma_wf();
            lemma_bounds_of(
                platforms[i].center_spec(),
                platforms[i].width_spec(),
                platforms[i].height_spec(),
            );
        }
    }
    map.player.handle_collisions(map.static_objects.as_slice(), &mut collisions);

    let motion = match stuck {
        Some(i) => {
            let platform = &map.moving_objects[i];
            proof {
                platform.lemma_wf();
            }
            Some(platform.prev_move())
        },
        None => None,
    };
    state.collisions = collisions;
    state.stuck_platform = stuck;
    apply_jump_rules(&mut map.player, state, input.jump_pressed, frame_time, motion, config);

    map.player_respawn = reached_respawn(&map.checkpoints, &map.player, map.player_respawn);
    if should_respawn(&map.player, &state.collisions, map.lowest_point) {
        map.player = map.player_respawn;
    }
    map.goal.intersects_rigidbody(&map.player)
}

} // verus!
