use vstd::prelude::*;

use crate::camera::{Camera, ANCHOR_LIMIT, WINDOW_HEIGHT, WINDOW_WIDTH};
use crate::color::{blend_channel, packed, Rgb};
use crate::geometry::{lemma_bounds_of, within, RectObject, Vector2, LIMIT, SCALE};
use crate::map::{Checkpoint, GameMap};
use crate::objects::{bounds_spec_of, Circle, MovingObject, StaticObject};

verus! {

pub const PLAYER_COLOR: u32 = 0xf00000;

pub const STATIC_OBJECT_COLOR: u32 = 0xff;

pub const MOVING_OBJECT_COLOR: u32 = 0x6cc06;

pub const MOVING_PLATFORM_INDICATOR_COLOR: u32 = 0xeeeeee;

pub const CHECKPOINT_COLOR: u32 = 0xff00;

pub const GOAL_COLOR: u32 = 0xf6f70b;

pub const BACKGROUND_COLOR: u32 = 0x200020;

pub const VOID_COLOR: u32 = 0x100010;

/// Radius of the markers at the ends of a platform's path.
pub const MOVING_PLATFORM_INDICATOR_RADIUS: i64 = 5 * SCALE;

/// Height of the band around the lowest point over which the background
/// fades into the void.
pub const VOID_TRANSITION_SIZE: i64 = 60 * SCALE;

/// The color packed as `0xRRGGBB` in the low bits of `n`.
pub open spec fn unpacked(n: u32) -> Rgb {
    Rgb {
        red: ((n / 0x10000) % 0x100) as u8,
        green: ((n / 0x100) % 0x100) as u8,
        blue: (n % 0x100) as u8,
    }
}

/// The color `amount / SCALE` of the way from `c1` to `c2`.
pub open spec fn blended(c1: Rgb, amount: int, c2: Rgb) -> Rgb {
    Rgb {
        red: blend_channel(amount, c1.red, c2.red) as u8,
        green: blend_channel(amount, c1.green, c2.green) as u8,
        blue: blend_channel(amount, c1.blue, c2.blue) as u8,
    }
}

/// The color of the point `p` of the world: the first of the player, a
/// platform, scenery, a marker (the goal over checkpoints over platform path
/// ends) that holds it; otherwise the background above the lowest point and
/// the void below it, faded into each other across a band around it.
pub open spec fn classify_spec(p: Vector2, map: &GameMap) -> Rgb {
    let half = VOID_TRANSITION_SIZE / 2;
    if map.player.bounds_spec().holds(p) {
        unpacked(PLAYER_COLOR)
    } else if exists|i: int|
        0 <= i < map.moving_objects@.len() && bounds_spec_of(
            #[trigger] map.moving_objects@[i],
        ).holds(p) {
        unpacked(MOVING_OBJECT_COLOR)
    } else if exists|i: int|
        0 <= i < map.static_objects@.len() && bounds_spec_of(
            #[trigger] map.static_objects@[i],
        ).holds(p) {
        unpacked(STATIC_OBJECT_COLOR)
    } else if map.goal.holds(p) {
        map.goal.color_spec()
    } else if exists|i: int|
        0 <= i < map.checkpoints@.len() && (#[trigger] map.checkpoints@[i]).indicator.holds(p) {
        unpacked(CHECKPOINT_COLOR)
    } else if exists|i: int|
        0 <= i < map.moving_object_indicators@.len() && (
        #[trigger] map.moving_object_indicators@[i]).holds(p) {
        unpacked(MOVING_PLATFORM_INDICATOR_COLOR)
    } else if p.y > map.lowest_point + half {
        unpacked(BACKGROUND_COLOR)
    } else if p.y < map.lowest_point - half {
        unpacked(VOID_COLOR)
    } else {
        blended(
            unpacked(BACKGROUND_COLOR),
            (map.lowest_point + half - p.y) * SCALE / VOID_TRANSITION_SIZE as int,
            unpacked(VOID_COLOR),
        )
    }
}

fn unpack(n: u32) -> (r: Rgb)
    ensures
        r == unpacked(n),
{
    Rgb::from_u32(n)
}

fn any_moving_holds(objects: &Vec<MovingObject>, p: &Vector2) -> (r: bool)
    requires
        forall|i: int| 0 <= i < objects@.len() ==> (#[trigger] objects@[i]).wf(),
    ensures
        r == exists|i: int|
            0 <= i < objects@.len() && bounds_spec_of(#[trigger] objects@[i]).holds(*p),
{
    let mut i: usize = 0;
    while i < objects.len()
        invariant
            0 <= i <= objects@.len(),
            forall|j: int| 0 <= j < objects@.len() ==> (#[trigger] objects@[j]).wf(),
            forall|j: int| 0 <= j < i ==> !bounds_spec_of(#[trigger] objects@[j]).holds(*p),
        decreases objects@.len() - i,
    {
        let object = &objects[i];
        proof {
            object.lemma_wf();
        }
        if object.contains_point(p) {
            return true;
        }
        i = i + 1;
    }
    false
}

fn any_static_holds(objects: &Vec<StaticObject>, p: &Vector2) -> (r: bool)
    requires
        forall|i: int| 0 <= i < objects@.len() ==> crate::objects::is_scenery(#[trigger] objects@[i]),
    ensures
        r == exists|i: int|
            0 <= i < objects@.len() && bounds_spec_of(#[trigger] objects@[i]).holds(*p),
{
    let mut i: usize = 0;
    while i < objects.len()
        invariant
            0 <= i <= objects@.len(),
            forall|j: int| 0 <= j < objects@.len() ==> crate::objects::is_scenery(#[trigger] objects@[j]),
            forall|j: int| 0 <= j < i ==> !bounds_spec_of(#[trigger] objects@[j]).holds(*p),
        decreases objects@.len() - i,
    {
        if objects[i].contains_point(p) {
            return true;
        }
        i = i + 1;
    }
    false
}

fn any_circle_holds(circles: &Vec<Circle>, p: &Vector2) -> (r: bool)
    requires
        forall|i: int| 0 <= i < circles@.len() ==> (#[trigger] circles@[i]).wf(),
    ensures
        r == exists|i: int| 0 <= i < circles@.len() && (#[trigger] circles@[i]).holds(*p),
{
    let mut i: usize = 0;
    while i < circles.len()
        invariant
            0 <= i <= circles@.len(),
            forall|j: int| 0 <= j < circles@.len() ==> (#[trigger] circles@[j]).wf(),
            forall|j: int| 0 <= j < i ==> !(#[trigger] circles@[j]).holds(*p),
        decreases circles@.len() - i,
    {
        if circles[i].contains_point(p) {
            return true;
        }
        i = i + 1;
    }
    false
}

fn any_checkpoint_holds(checkpoints: &Vec<Checkpoint>, p: &Vector2) -> (r: bool)
    requires
        forall|i: int| 0 <= i < checkpoints@.len() ==> (#[trigger] checkpoints@[i]).indicator.wf(),
    ensures
        r == exists|i: int|
            0 <= i < checkpoints@.len() && (#[trigger] checkpoints@[i]).indicator.holds(*p),
{
    let mut i: usize = 0;
    while i < checkpoints.len()
        invariant
            0 <= i <= checkpoints@.len(),
            forall|j: int| 0 <= j < checkpoints@.len() ==> (#[trigger] checkpoints@[j]).indicator.wf(),
            forall|j: int| 0 <= j < i ==> !(#[trigger] checkpoints@[j]).indicator.holds(*p),
        decreases checkpoints@.len() - i,
    {
        if checkpoints[i].indicator.contains_point(p) {
            return true;
        }
        i = i + 1;
    }
    false
}

/// The color of the point `world_point` of the level.
pub fn render_game(world_point: Vector2, map: &GameMap) -> (r: Rgb)
    requires
        map.wf(),
    ensures
        r == classify_spec(world_point, map),
{
    proof {
        assert forall|i: int| 0 <= i < map.checkpoints@.len() implies (
        #[trigger] map.checkpoints@[i]).indicator.wf() by {}
    }
    let half = VOID_TRANSITION_SIZE / 2;
    if map.player.contains_point(&world_point) {
        unpack(PLAYER_COLOR)
    } else if any_moving_holds(&map.moving_objects, &world_point) {
        unpack(MOVING_OBJECT_COLOR)
    } else if any_static_holds(&map.static_objects, &world_point) {
        unpack(STATIC_OBJECT_COLOR)
    } else if map.goal.contains_point(&world_point) {
        map.goal.color()
    } else if any_checkpoint_holds(&map.checkpoints, &world_point) {
        unpack(CHECKPOINT_COLOR)
    } else if any_circle_holds(&map.moving_object_indicators, &world_point) {
        unpack(MOVING_PLATFORM_INDICATOR_COLOR)
    } else if world_point.y as i128 > map.lowest_point as i128 + half as i128 {
        unpack(BACKGROUND_COLOR)
    } else if (world_point.y as i128) < map.lowest_point as i128 - half as i128 {
        unpack(VOID_COLOR)
    } else {
        let distance_in = map.lowest_point + half - world_point.y;
        let amount = distance_in * SCALE / VOID_TRANSITION_SIZE;
        proof {
            vstd::arithmetic::div_mod::lemma_div_is_ordered(0, distance_in * SCALE, VOID_TRANSITION_SIZE as int);
            vstd::arithmetic::div_mod::lemma_div_is_ordered(
                distance_in * SCALE,
                VOID_TRANSITION_SIZE * SCALE,
                VOID_TRANSITION_SIZE as int,
            );
            vstd::arithmetic::div_mod::lemma_div_multiples_vanish(SCALE as int, VOID_TRANSITION_SIZE as int);
        }
        unpack(BACKGROUND_COLOR).blend(amount, unpack(VOID_COLOR))
    }
}

/// The world point that pixel `k` of the view shows, pixels counted row by
/// row from the top-left corner.
pub open spec fn pixel_point(camera: Camera, k: int) -> Vector2 {
    Vector2 {
        x: (camera.bottom_left.x + (k % WINDOW_WIDTH as int) * SCALE) as i64,
        y: (camera.bottom_left.y + (WINDOW_HEIGHT - k / WINDOW_WIDTH as int) * SCALE) as i64,
    }
}

impl Camera {
    /// Fills `buffer`, row by row from the top-left corner, with the packed
    /// color of the world point each pixel of the view shows.
    pub fn render_frame(&self, map: &GameMap, buffer: &mut Vec<u32>)
        requires
            map.wf(),
            old(buffer)@.len() == WINDOW_WIDTH * WINDOW_HEIGHT,
            within(self.bottom_left.x as int, ANCHOR_LIMIT as int),
            within(self.bottom_left.y as int, ANCHOR_LIMIT as int),
        ensures
            final(buffer)@.len() == WINDOW_WIDTH * WINDOW_HEIGHT,
            forall|k: int|
                0 <= k < WINDOW_WIDTH * WINDOW_HEIGHT ==> {
                    let c = classify_spec(pixel_point(*self, k), map);
                    #[trigger] final(buffer)@[k] == packed(c.red, c.green, c.blue)
                },
    {
        let total: usize = WINDOW_WIDTH * WINDOW_HEIGHT;
        let mut k: usize = 0;
        while k < total
            invariant
                0 <= k <= total,
                total == WINDOW_WIDTH * WINDOW_HEIGHT,
                buffer@.len() == total,
                map.wf(),
                within(self.bottom_left.x as int, ANCHOR_LIMIT as int),
                within(self.bottom_left.y as int, ANCHOR_LIMIT as int),
                forall|j: int|
                    0 <= j < k ==> {
                        let c = classify_spec(pixel_point(*self, j), map);
                        #[trigger] buffer@[j] == packed(c.red, c.green, c.blue)
                    },
            decreases total - k,
        {
            let x = k % WINDOW_WIDTH;
            let y = k / WINDOW_WIDTH;
            proof {
                vstd::arithmetic::div_mod::lemma_fundamental_div_mod(k as int, WINDOW_WIDTH as int);
            }
            let point = self.get_game_position(Vector2::new(x as i64, y as i64));
            let color = render_game(point, map);
            buffer.set(k, color.to_u32());
            k = k + 1;
        }
    }
}

} // verus!
