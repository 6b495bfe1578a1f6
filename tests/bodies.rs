use platformer::color::Rgb;
use platformer::geometry::{Bounds, RectObject, Vector2, SCALE};
use platformer::objects::{Circle, CollisionTypes, MovingObject, RigidBody, StaticObject};

fn units(v: i64) -> i64 {
    v * SCALE
}

fn body(x: i64, y: i64, w: i64, h: i64) -> RigidBody {
    RigidBody {
        center: Vector2::new(units(x), units(y)),
        width: units(w),
        height: units(h),
        velocity: Vector2::new(0, 0),
    }
}

fn wall(x: i64, y: i64, w: i64, h: i64) -> StaticObject {
    StaticObject::new(Vector2::new(units(x), units(y)), units(w), units(h))
}

#[test]
fn falling_body_lands_on_top_of_static_body() {
    // width 20, height 40, centered at (0, 100), falling at 80 units per time unit
    let mut player = body(0, 100, 20, 40);
    player.velocity = Vector2::new(0, units(-80));
    player.integrate(&Vector2::new(0, 0), SCALE);
    assert_eq!(player.center.y, units(20));
    // obstacle spanning x in [-50, 50], y in [0, 10]
    let floor = vec![wall(0, 5, 100, 10)];
    let mut collisions = Vec::new();
    let on = player.handle_collisions(&floor, &mut collisions);
    assert_eq!(player.center.y, units(30));
    assert_eq!(player.center.x, 0);
    assert_eq!(collisions, vec![CollisionTypes::Top]);
    assert_eq!(on, Some(0));
    assert!(!player.collides_with(&floor[0].bounds()));
}

#[test]
fn resolution_pushes_left_right_and_down() {
    let block = vec![wall(0, 0, 100, 100)];

    let mut from_left = body(-55, 0, 20, 20);
    let mut collisions = Vec::new();
    assert_eq!(from_left.handle_collisions(&block, &mut collisions), None);
    assert_eq!(from_left.center.x, units(-60));
    assert_eq!(collisions, vec![CollisionTypes::Left]);

    let mut from_right = body(57, 3, 20, 20);
    let mut collisions = Vec::new();
    from_right.handle_collisions(&block, &mut collisions);
    assert_eq!(from_right.center.x, units(60));
    assert_eq!(from_right.center.y, units(3));
    assert_eq!(collisions, vec![CollisionTypes::Right]);

    let mut from_below = body(0, -58, 20, 20);
    let mut collisions = Vec::new();
    from_below.handle_collisions(&block, &mut collisions);
    // flush against the bottom edge, less the bias of one unit
    assert_eq!(from_below.center.y, units(-61));
    assert_eq!(collisions, vec![CollisionTypes::Bottom]);
}

#[test]
fn resolution_takes_the_smallest_push() {
    // overlap of 2 on the left side and 3 on the top side: the left push wins
    let block = vec![wall(0, 0, 100, 100)];
    let mut player = body(-58, 57, 20, 20);
    let mut collisions = Vec::new();
    player.handle_collisions(&block, &mut collisions);
    assert_eq!(collisions, vec![CollisionTypes::Left]);
    assert_eq!(player.center.x, units(-60));
    assert_eq!(player.center.y, units(57));
}

#[test]
fn resolution_tie_goes_to_left_first() {
    // equal push-out distances on all four sides
    let block = vec![wall(0, 0, 20, 20)];
    let mut player = body(0, 0, 20, 20);
    let mut collisions = Vec::new();
    player.handle_collisions(&block, &mut collisions);
    assert_eq!(collisions, vec![CollisionTypes::Left]);
    assert_eq!(player.center.x, units(-20));
}

#[test]
fn resolution_runs_over_every_obstacle_in_order() {
    let obstacles = vec![wall(0, -5, 100, 10), wall(500, 0, 10, 10), wall(0, 24, 100, 10)];
    let mut player = body(0, 8, 20, 20);
    let mut collisions = vec![CollisionTypes::Right];
    let on = player.handle_collisions(&obstacles, &mut collisions);
    // first pushed up onto the floor, then down out of the ceiling
    assert_eq!(
        collisions,
        vec![CollisionTypes::Right, CollisionTypes::Top, CollisionTypes::Bottom]
    );
    assert_eq!(on, Some(0));
    assert_eq!(player.center.y, units(19 - 10 - 1));
}

#[test]
fn resolution_without_contact_changes_nothing() {
    let obstacles = vec![wall(0, 0, 10, 10)];
    let mut player = body(15, 0, 20, 20);
    let before = player;
    let mut collisions = Vec::new();
    assert_eq!(player.handle_collisions(&obstacles, &mut collisions), None);
    assert_eq!(player, before);
    assert!(collisions.is_empty());
}

#[test]
fn overlap_is_symmetric_and_sees_containment() {
    let big = wall(0, 0, 100, 100);
    let small = wall(10, -10, 4, 6);
    assert!(big.collides_with(&small.bounds()));
    assert!(small.collides_with(&big.bounds()));
    assert!(big.collides_with_x(&small.bounds()) && big.collides_with_y(&small.bounds()));
    let same_top = wall(0, 25, 100, 50);
    assert_eq!(
        big.collides_with(&same_top.bounds()),
        same_top.collides_with(&big.bounds())
    );
    assert!(big.collides_with(&same_top.bounds()));
    // touching edges do not overlap
    let touching = wall(100, 0, 100, 100);
    assert!(!big.collides_with(&touching.bounds()));
    assert!(!touching.collides_with(&big.bounds()));
    assert!(big.collides_with_y(&touching.bounds()));
    assert!(!big.collides_with_x(&touching.bounds()));
}

#[test]
fn bounds_and_points_of_a_rectangle() {
    let r = StaticObject::new(Vector2::new(10, 20), 5, 8);
    assert_eq!(
        r.bounds(),
        Bounds {
            top: 24,
            left: 8,
            bottom: 16,
            right: 13
        }
    );
    assert_eq!(
        r.points(),
        vec![
            Vector2::new(8, 24),
            Vector2::new(13, 24),
            Vector2::new(13, 16),
            Vector2::new(8, 16)
        ]
    );
    assert!(r.contains_point(&Vector2::new(8, 16)));
    assert!(r.contains_point(&Vector2::new(13, 24)));
    assert!(!r.contains_point(&Vector2::new(14, 20)));
    assert!(!r.bounds().contains_point(&Vector2::new(10, 15)));
}

#[test]
fn rigidbody_new_and_move_by() {
    let mut b = RigidBody::new();
    assert_eq!(b.width, units(10));
    assert_eq!(b.height, units(10));
    b.move_by(&Vector2::new(3, -4));
    assert_eq!(b.center, Vector2::new(3, -4));
    assert_eq!(b.velocity, Vector2::new(0, 0));
}

#[test]
fn moving_object_goes_out_and_back() {
    let mut p = MovingObject::new(Vector2::new(0, 0), Vector2::new(units(100), 0), units(10), units(2), units(10));
    assert_eq!(p.center(), Vector2::new(0, 0));
    p.update(units(5));
    assert_eq!(p.center().x, units(50));
    assert_eq!(p.prev_move(), Vector2::new(units(50), 0));
    p.update(units(5));
    assert_eq!(p.center().x, units(100));
    p.update(units(5));
    assert_eq!(p.center().x, units(50));
    assert_eq!(p.prev_move(), Vector2::new(units(-50), 0));
    p.update(units(5));
    assert_eq!(p.center().x, 0);
}

#[test]
fn moving_object_repeats_every_cycle() {
    let mut p = MovingObject::new(Vector2::new(units(-3), units(7)), Vector2::new(units(40), units(-20)), units(10), units(2), units(8));
    p.update(units(3));
    let before = p.center();
    p.update(units(16));
    assert_eq!(p.center(), before);
    assert_eq!(p.prev_move(), Vector2::new(0, 0));
    p.update(units(16) * 5);
    assert_eq!(p.center(), before);
    assert_eq!(p.start_pos(), Vector2::new(units(-3), units(7)));
    assert_eq!(p.end_pos(), Vector2::new(units(40), units(-20)));
}

#[test]
fn moving_object_zero_update_keeps_place() {
    let mut p = MovingObject::new(Vector2::new(0, 0), Vector2::new(0, units(30)), units(10), units(2), units(3));
    p.update(units(1));
    let c = p.center();
    p.update(0);
    assert_eq!(p.center(), c);
    assert_eq!(p.prev_move(), Vector2::new(0, 0));
    assert_eq!(c, Vector2::new(0, units(10)));
}

#[test]
fn circle_point_and_body_tests() {
    let c = Circle::new(&Vector2::new(0, 0), 5, Rgb::new(1, 2, 3));
    assert!(c.contains_point(&Vector2::new(3, 4)));
    assert!(c.contains_point(&Vector2::new(5, 0)));
    assert!(!c.contains_point(&Vector2::new(4, 4)));
    assert!(!c.contains_point(&Vector2::new(i64::MAX, i64::MIN)));
    assert_eq!(c.color(), Rgb::new(1, 2, 3));

    // body whose right edge is 3 to the left of the circle: overlaps
    let near = RigidBody { center: Vector2::new(-13, 0), width: 20, height: 20, velocity: Vector2::new(0, 0) };
    assert!(c.intersects_rigidbody(&near));
    // body 6 away along an axis: no overlap
    let far = RigidBody { center: Vector2::new(-16, 0), width: 20, height: 20, velocity: Vector2::new(0, 0) };
    assert!(!c.intersects_rigidbody(&far));
    // corner at (-3, -4) from the center: distance exactly 5
    let corner = RigidBody { center: Vector2::new(-13, -14), width: 20, height: 20, velocity: Vector2::new(0, 0) };
    assert!(c.intersects_rigidbody(&corner));
    // corner at (-4, -4): distance above 5
    let past = RigidBody { center: Vector2::new(-14, -14), width: 20, height: 20, velocity: Vector2::new(0, 0) };
    assert!(!c.intersects_rigidbody(&past));
    // circle inside the body
    let around = RigidBody { center: Vector2::new(1, 1), width: 100, height: 100, velocity: Vector2::new(0, 0) };
    assert!(c.intersects_rigidbody(&around));
}
