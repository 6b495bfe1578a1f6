use platformer::color::Rgb;
use platformer::frame::{
    apply_jump_rules, contains_collision, reached_respawn, should_respawn, step_frame, PlayerState,
};
use platformer::geometry::{Vector2, SCALE};
use platformer::map::{Checkpoint, GameMap, PLAYER_HEIGHT, PLAYER_WIDTH};
use platformer::objects::{Circle, CollisionTypes, MovingObject, RigidBody, SPEED_LIMIT, StaticObject};
use platformer::physics::{acceleration, Config, FrameInput};
use platformer::render::{
    render_game, BACKGROUND_COLOR, CHECKPOINT_COLOR, GOAL_COLOR, MOVING_OBJECT_COLOR, PLAYER_COLOR,
    STATIC_OBJECT_COLOR, VOID_COLOR,
};

fn config() -> Config {
    Config {
        gravity_rising: -128,
        gravity_falling: -222,
        walking_accel: 2400,
        air_accel_ratio: 50,
        friction_ground: 700,
        friction_air: 40,
        jump_force: 5000,
        platform_jump_ratio: 600,
        jump_buffer_time: 1000,
        coyote_time: 8000,
        resting_velocity: -444,
        ride_sink: 10,
    }
}

fn no_input() -> FrameInput {
    FrameInput { move_left: false, move_right: false, jump_pressed: false }
}

fn player_at(x: i64, y: i64) -> RigidBody {
    RigidBody { center: Vector2::new(x, y), width: PLAYER_WIDTH, height: PLAYER_HEIGHT, velocity: Vector2::new(0, 0) }
}

#[test]
fn integration_from_rest_is_closed_form() {
    let mut b = player_at(0, 0);
    b.integrate(&Vector2::new(0, -2000), 3000);
    assert_eq!(b.velocity, Vector2::new(0, -6000));
    assert_eq!(b.center, Vector2::new(0, -9000));
    let mut c = player_at(0, 0);
    c.integrate(&Vector2::new(3, 0), 1000);
    // 3 * 1^2 / 2 = 1.5 thousandths, rounded down
    assert_eq!(c.center.x, 1);
    assert_eq!(c.velocity.x, 3);
}

#[test]
fn integration_with_velocity_and_saturation() {
    let mut b = player_at(0, 0);
    b.velocity = Vector2::new(1000, -500);
    b.integrate(&Vector2::new(0, 0), 500);
    assert_eq!(b.center, Vector2::new(500, -250));
    assert_eq!(b.velocity, Vector2::new(1000, -500));
    let mut fast = player_at(0, 0);
    fast.velocity = Vector2::new(SPEED_LIMIT, 0);
    fast.integrate(&Vector2::new(1000, 0), 1000);
    assert_eq!(fast.velocity.x, SPEED_LIMIT);
}

#[test]
fn acceleration_follows_ground_air_and_friction() {
    let c = config();
    let right = FrameInput { move_left: false, move_right: true, jump_pressed: false };
    let a = acceleration(&Vector2::new(0, 0), &right, true, &c);
    assert_eq!(a, Vector2::new(2400, -222));
    let a = acceleration(&Vector2::new(0, 10), &right, false, &c);
    assert_eq!(a, Vector2::new(120, -128));
    let both = FrameInput { move_left: true, move_right: true, jump_pressed: false };
    let a = acceleration(&Vector2::new(1000, 0), &both, true, &c);
    assert_eq!(a.x, -700);
    let a = acceleration(&Vector2::new(-1000, 0), &no_input(), false, &c);
    assert_eq!(a.x, 40);
    let mut sticky = c;
    sticky.friction_ground = 3000;
    let a = acceleration(&Vector2::new(-1000, 0), &no_input(), true, &sticky);
    assert_eq!(a.x, 1000);
}

#[test]
fn jump_needs_both_timers() {
    let c = config();
    // standing, jump pressed: both timers run, the jump is taken
    let mut b = player_at(0, 0);
    b.velocity = Vector2::new(300, -444);
    let mut s = PlayerState::new();
    s.collisions = vec![CollisionTypes::Top];
    s.stuck_platform = Some(2);
    apply_jump_rules(&mut b, &mut s, true, 700, None, &c);
    assert_eq!(b.velocity, Vector2::new(300, 5000));
    assert_eq!((s.jump_buffer, s.coyote_time, s.stuck_platform), (0, 0, None));

    // standing, no press: no jump, resting velocity
    let mut b = player_at(0, 0);
    b.velocity = Vector2::new(0, -3000);
    let mut s = PlayerState::new();
    s.collisions = vec![CollisionTypes::Top];
    s.stuck_platform = Some(1);
    apply_jump_rules(&mut b, &mut s, false, 700, None, &c);
    assert_eq!(b.velocity.y, -444);
    assert_eq!((s.jump_buffer, s.coyote_time, s.stuck_platform), (0, 8000, Some(1)));

    // airborne with the coyote time run out: the press is buffered only
    let mut b = player_at(0, 0);
    b.velocity = Vector2::new(0, -3000);
    let mut s = PlayerState::new();
    s.coyote_time = 500;
    apply_jump_rules(&mut b, &mut s, true, 600, None, &c);
    assert_eq!(b.velocity.y, -3000);
    assert_eq!((s.jump_buffer, s.coyote_time), (1000, 0));

    // landing with a buffered press: the jump is taken
    let mut s2 = PlayerState::new();
    s2.jump_buffer = 1000;
    s2.collisions = vec![CollisionTypes::Top];
    apply_jump_rules(&mut b, &mut s2, false, 400, None, &c);
    assert_eq!(b.velocity.y, 5000);
    assert_eq!((s2.jump_buffer, s2.coyote_time), (0, 0));
}

#[test]
fn jump_takes_platform_motion_and_sides_stop() {
    let c = config();
    let mut b = player_at(0, 0);
    b.velocity = Vector2::new(100, 0);
    let mut s = PlayerState::new();
    s.collisions = vec![CollisionTypes::Top];
    apply_jump_rules(&mut b, &mut s, true, 100, Some(Vector2::new(1000, 2000)), &c);
    assert_eq!(b.velocity, Vector2::new(700, 6200));

    let mut b = player_at(0, 0);
    b.velocity = Vector2::new(900, 50);
    let mut s = PlayerState::new();
    s.collisions = vec![CollisionTypes::Left];
    apply_jump_rules(&mut b, &mut s, false, 100, None, &c);
    assert_eq!(b.velocity, Vector2::new(0, 50));

    let mut b = player_at(0, 0);
    b.velocity = Vector2::new(900, 50);
    let mut s = PlayerState::new();
    s.collisions = vec![CollisionTypes::Bottom];
    apply_jump_rules(&mut b, &mut s, false, 100, None, &c);
    assert_eq!(b.velocity, Vector2::new(900, -444));
}

#[test]
fn respawn_conditions() {
    let p = player_at(0, -10);
    assert!(should_respawn(&p, &vec![], -9));
    assert!(!should_respawn(&p, &vec![], -10));
    assert!(should_respawn(&p, &vec![CollisionTypes::Top, CollisionTypes::Left, CollisionTypes::Bottom], -100));
    assert!(should_respawn(&p, &vec![CollisionTypes::Right, CollisionTypes::Left], -100));
    assert!(!should_respawn(&p, &vec![CollisionTypes::Top, CollisionTypes::Left], -100));
    assert!(contains_collision(&vec![CollisionTypes::Right], CollisionTypes::Right));
    assert!(!contains_collision(&vec![], CollisionTypes::Right));
}

#[test]
fn last_touched_checkpoint_wins() {
    let flag = |x: i64| Circle::new(&Vector2::new(x, 0), 5 * SCALE, Rgb::from_u32(CHECKPOINT_COLOR));
    let checkpoints = vec![
        Checkpoint::new(flag(0), Vector2::new(1, 1)),
        Checkpoint::new(flag(1000 * SCALE), Vector2::new(2, 2)),
        Checkpoint::new(flag(5 * SCALE), Vector2::new(3, 3)),
    ];
    let start = player_at(-77, 0);
    let r = reached_respawn(&checkpoints, &player_at(0, 0), start);
    assert_eq!(r, player_at(3, 3));
    let r = reached_respawn(&checkpoints, &player_at(-500 * SCALE, 0), start);
    assert_eq!(r, start);
}

fn level() -> GameMap {
    let mut map = GameMap::new();
    map.static_objects = vec![StaticObject::new(Vector2::new(0, -50 * SCALE), 400 * SCALE, 100 * SCALE)];
    map.player = player_at(0, 20 * SCALE);
    map.player_respawn = player_at(-5 * SCALE, 50 * SCALE);
    map.lowest_point = -200 * SCALE;
    map.goal = Circle::new(&Vector2::new(150 * SCALE, 20 * SCALE), 20 * SCALE, Rgb::from_u32(GOAL_COLOR));
    map
}

#[test]
fn frame_keeps_resting_player_on_the_ground() {
    let mut map = level();
    let mut state = PlayerState::new();
    let reached = step_frame(&mut map, &mut state, no_input(), 700, &config());
    assert!(!reached);
    assert_eq!(map.player.center, Vector2::new(0, 20 * SCALE));
    assert_eq!(map.player.velocity, Vector2::new(0, -444));
    assert_eq!(state.collisions, vec![CollisionTypes::Top]);
    assert_eq!(state.coyote_time, 8000);
    assert_eq!(state.stuck_platform, None);
}

#[test]
fn frame_jumps_from_the_ground() {
    let mut map = level();
    let mut state = PlayerState::new();
    step_frame(&mut map, &mut state, no_input(), 700, &config());
    let jump = FrameInput { move_left: false, move_right: false, jump_pressed: true };
    step_frame(&mut map, &mut state, jump, 700, &config());
    assert_eq!(map.player.velocity.y, 5000);
    assert_eq!((state.jump_buffer, state.coyote_time), (0, 0));
}

#[test]
fn frame_respawns_fallen_player_verbatim() {
    let mut map = level();
    map.player = player_at(1000 * SCALE, -199 * SCALE);
    map.player.velocity = Vector2::new(77, -5000);
    let mut state = PlayerState::new();
    step_frame(&mut map, &mut state, no_input(), 1000, &config());
    assert_eq!(map.player, player_at(-5 * SCALE, 50 * SCALE));
    assert_eq!(map.player, map.player_respawn);
}

#[test]
fn frame_reports_goal() {
    let mut map = level();
    map.player = player_at(140 * SCALE, 20 * SCALE);
    let mut state = PlayerState::new();
    assert!(step_frame(&mut map, &mut state, no_input(), 100, &config()));
}

#[test]
fn frame_rides_moving_platform() {
    let mut map = GameMap::new();
    map.moving_objects = vec![MovingObject::new(
        Vector2::new(0, 0),
        Vector2::new(100 * SCALE, 0),
        100 * SCALE,
        10 * SCALE,
        10 * SCALE,
    )];
    // standing on the platform's top edge
    map.player = player_at(0, 25 * SCALE);
    map.player_respawn = map.player;
    map.lowest_point = -500 * SCALE;
    let mut state = PlayerState::new();
    state.stuck_platform = Some(0);
    step_frame(&mut map, &mut state, no_input(), 1000, &config());
    // the platform moved 10 units right; the player went along
    assert_eq!(map.player.center.x, 10 * SCALE);
    assert_eq!(state.collisions, vec![CollisionTypes::Top]);
    assert_eq!(state.stuck_platform, Some(0));
    assert_eq!(map.player.center.y, 25 * SCALE);
}

#[test]
fn colors_of_the_world() {
    let mut map = level();
    map.moving_objects = vec![MovingObject::new(Vector2::new(0, 500 * SCALE), Vector2::new(0, 600 * SCALE), 10 * SCALE, 10 * SCALE, SCALE)];
    map.checkpoints = vec![Checkpoint::new(Circle::new(&Vector2::new(-150 * SCALE, 20 * SCALE), 5 * SCALE, Rgb::from_u32(CHECKPOINT_COLOR)), Vector2::new(0, 0))];
    let color = |x: i64, y: i64| render_game(Vector2::new(x * SCALE, y * SCALE), &map).to_u32();
    assert_eq!(color(0, 20), PLAYER_COLOR);
    assert_eq!(color(0, 500), MOVING_OBJECT_COLOR);
    assert_eq!(color(100, -50), STATIC_OBJECT_COLOR);
    assert_eq!(color(150, 20), GOAL_COLOR);
    assert_eq!(color(-150, 20), CHECKPOINT_COLOR);
    assert_eq!(color(300, 0), BACKGROUND_COLOR);
    assert_eq!(color(300, -300), VOID_COLOR);
    // in the middle of the band: half way between the two
    assert_eq!(color(300, -200), Rgb::from_u32(BACKGROUND_COLOR).blend(500, Rgb::from_u32(VOID_COLOR)).to_u32());
    assert_eq!(color(300, -200), 0x180018);
}
