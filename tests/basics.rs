use platformer::camera::{Camera, CameraConfig, WINDOW_HEIGHT};
use platformer::color::Rgb;
use platformer::geometry::{floor_div, Vector2, SCALE};
use platformer::objects::RigidBody;

#[test]
fn rgb_packs_and_unpacks() {
    let c = Rgb::from_u32(0x12abcdef);
    assert_eq!(c, Rgb::new(0xab, 0xef, 0xcd));
    assert_eq!(c.to_u32(), 0xabcdef);
    assert_eq!(Rgb::new(1, 3, 2).to_u32(), 0x010203);
    assert_eq!(Rgb::from_u32(0xf6f70b).to_u32(), 0xf6f70b);
}

#[test]
fn rgb_blends_by_thousandths() {
    let a = Rgb::new(0, 100, 200);
    let b = Rgb::new(255, 0, 100);
    assert_eq!(a.blend(0, b), a);
    assert_eq!(a.blend(1000, b), b);
    let half = a.blend(500, b);
    assert_eq!(half.red, 127);
    assert_eq!(half.blue, 50);
    assert_eq!(half.green, 150);
}

#[test]
fn vector_arithmetic() {
    let a = Vector2::new(3, -4);
    let b = Vector2::new(10, 20);
    assert_eq!(Vector2::add(&a, &b), Vector2::new(13, 16));
    assert_eq!(Vector2::multiply(&b, 500), Vector2::new(5, 10));
    assert_eq!(Vector2::multiply(&a, 500), Vector2::new(1, -2));
    assert_eq!(Vector2::lerp(&a, &b, 1, 2), Vector2::new(6, 8));
    assert_eq!(Vector2::lerp(&a, &b, 0, 7), a);
    assert_eq!(Vector2::lerp(&a, &b, 7, 7), b);
    let mut c = Vector2::new(1, 1);
    a.add_to(&mut c);
    assert_eq!(c, Vector2::new(4, -3));
    c.set(&b);
    assert_eq!(c, b);
}

#[test]
fn floor_division_rounds_down() {
    assert_eq!(floor_div(7, 2), 3);
    assert_eq!(floor_div(-7, 2), -4);
    assert_eq!(floor_div(-8, 2), -4);
    assert_eq!(floor_div(0, 5), 0);
}

fn camera_config() -> CameraConfig {
    CameraConfig {
        min_x: 400 * SCALE,
        max_x: 600 * SCALE,
        min_y: 100 * SCALE,
        max_y: 300 * SCALE,
        easing_x: 750,
        easing_y: 1300,
    }
}

fn player_at(x: i64, y: i64) -> RigidBody {
    RigidBody { center: Vector2::new(x, y), width: 20 * SCALE, height: 40 * SCALE, velocity: Vector2::new(0, 0) }
}

#[test]
fn camera_holds_still_inside_dead_zone() {
    let mut camera = Camera::new(0, 0);
    camera.keep_centered_on_player(&player_at(500 * SCALE, 200 * SCALE), 1000, &camera_config());
    assert_eq!(camera.bottom_left, Vector2::new(0, 0));
}

#[test]
fn camera_eases_towards_player() {
    let mut camera = Camera::new(0, 0);
    // 30 units past the right end of the zone: 30^2 * 1 / 750 = 1.2 units
    camera.keep_centered_on_player(&player_at(630 * SCALE, 200 * SCALE), 1000, &camera_config());
    assert_eq!(camera.bottom_left, Vector2::new(1200, 0));
    // far past the left end with a long frame: stops where the player re-enters
    let mut camera = Camera::new(0, 0);
    camera.keep_centered_on_player(&player_at(0, 200 * SCALE), 100_000, &camera_config());
    assert_eq!(camera.bottom_left.x, -400 * SCALE);
    // below the zone vertically: 50^2 * 2 / 1300 = 3.846.. units, rounded down
    let mut camera = Camera::new(0, 0);
    camera.keep_centered_on_player(&player_at(500 * SCALE, 50 * SCALE), 2000, &camera_config());
    assert_eq!(camera.bottom_left.y, -3846);
}

#[test]
fn camera_maps_pixels_to_world() {
    let camera = Camera::new(1000, -2000);
    assert_eq!(camera.get_game_position(Vector2::new(0, 0)), Vector2::new(1000, -2000 + WINDOW_HEIGHT as i64 * SCALE));
    assert_eq!(camera.get_game_position(Vector2::new(3, WINDOW_HEIGHT as i64)), Vector2::new(4000, -2000));
}
