use platformer::color::Rgb;
use platformer::geometry::{RectObject, Vector2, SCALE};
use platformer::map::{Checkpoint, GameMap, PLAYER_HEIGHT, PLAYER_WIDTH};
use platformer::objects::{Circle, MovingObject, RigidBody, StaticObject};
use platformer::render::{MOVING_PLATFORM_INDICATOR_COLOR, MOVING_PLATFORM_INDICATOR_RADIUS};

#[test]
fn empty_map() {
    let map = GameMap::new();
    assert!(map.static_objects.is_empty());
    assert!(map.moving_objects.is_empty());
    assert!(map.moving_object_indicators.is_empty());
    assert!(map.checkpoints.is_empty());
    assert_eq!(map.player, RigidBody::new());
    assert_eq!(map.player_respawn, RigidBody::new());
    assert_eq!(map.lowest_point, 0);
    assert_eq!(map.goal.color(), Rgb::new(0, 0, 0));
    assert!(map.goal.contains_point(&Vector2::new(0, 0)));
    assert!(!map.goal.contains_point(&Vector2::new(1, 0)));
}

#[test]
fn checkpoint_respawns_player_at_rest() {
    let marker = Circle::new(&Vector2::new(5, 6), 7, Rgb::new(0, 0, 255));
    let c = Checkpoint::new(marker, Vector2::new(-3, 4));
    assert_eq!(c.indicator, marker);
    assert_eq!(
        c.respawn,
        RigidBody {
            center: Vector2::new(-3, 4),
            width: PLAYER_WIDTH,
            height: PLAYER_HEIGHT,
            velocity: Vector2::new(0, 0),
        }
    );
    assert_eq!(PLAYER_WIDTH, 20 * SCALE);
    assert_eq!(PLAYER_HEIGHT, 40 * SCALE);
}

#[test]
fn starting_a_level_places_player_and_markers() {
    let mut map = GameMap::new();
    map.static_objects = vec![StaticObject::new(Vector2::new(0, -SCALE), 10 * SCALE, 2 * SCALE)];
    map.moving_objects = vec![
        MovingObject::new(Vector2::new(1, 2), Vector2::new(3, 4), SCALE, SCALE, SCALE),
        MovingObject::new(Vector2::new(-5, -6), Vector2::new(7, 8), SCALE, SCALE, SCALE),
    ];
    map.player_respawn = RigidBody {
        center: Vector2::new(0, 20 * SCALE),
        width: PLAYER_WIDTH,
        height: PLAYER_HEIGHT,
        velocity: Vector2::new(0, 0),
    };
    map.start_level();
    assert_eq!(map.player, map.player_respawn);
    let marker = |x: i64, y: i64| {
        Circle::new(
            &Vector2::new(x, y),
            MOVING_PLATFORM_INDICATOR_RADIUS,
            Rgb::from_u32(MOVING_PLATFORM_INDICATOR_COLOR),
        )
    };
    assert_eq!(
        map.moving_object_indicators,
        vec![marker(1, 2), marker(3, 4), marker(-5, -6), marker(7, 8)]
    );
    assert_eq!(map.moving_objects[1].center(), Vector2::new(-5, -6));
}
