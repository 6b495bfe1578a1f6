use vstd::prelude::*;

use crate::color::Rgb;

use crate::geometry::{
    bounds_of, half_high, half_low, intersect, overlap_x, overlap_y, proper, shape_wf, within,
    lerp_spec, Bounds, RectObject, Vector2, LIMIT, SCALE,
};

verus! {

/// Largest magnitude of a velocity component.
pub const SPEED_LIMIT: i64 = 8 * LIMIT;

/// Extra distance a body is pushed down when it is resolved below an obstacle,
/// so that it does not touch the same obstacle again on the next frame.
pub const BOTTOM_BIAS: i64 = SCALE;

/// Which side of an obstacle a body came to rest against.
#[derive(Clone, Copy, Debug, PartialEq, Eq, Structural)]
pub enum CollisionTypes {
    Bottom,
    Top,
    Left,
    Right,
}

/// A rectangle of scenery: its center lies well inside the fixed-point range,
/// so that a body pushed out of it stays in range too.
pub open spec fn scenery_wf(center: Vector2, width: i64, height: i64) -> bool {
    &&& shape_wf(center, width, height)
    &&& within(center.x as int, 2 * LIMIT)
    &&& within(center.y as int, 2 * LIMIT)
}

/// A rectangle with a velocity, moved by the caller and pushed out of obstacles.
#[derive(Clone, Copy, Debug, PartialEq, Eq, Structural)]
pub struct RigidBody {
    pub center: Vector2,
    pub width: i64,
    pub height: i64,
    pub velocity: Vector2,
}

impl RigidBody {
    pub open spec fn wf(&self) -> bool {
        &&& shape_wf(self.center, self.width, self.height)
        &&& within(self.velocity.x as int, SPEED_LIMIT as int)
        &&& within(self.velocity.y as int, SPEED_LIMIT as int)
    }

    pub open spec fn bounds_spec(&self) -> Bounds {
        bounds_of(self.center, self.width, self.height)
    }

    /// A body at rest at the origin, ten units wide and high.
    pub fn new() -> (r: RigidBody)
        ensures
            r == (RigidBody {
                center: Vector2 { x: 0, y: 0 },
                width: 10000,
                height: 10000,
                velocity: Vector2 { x: 0, y: 0 },
            }),
            r.wf(),
    {
        RigidBody {
            center: Vector2::new(0, 0),
            width: 10 * SCALE,
            height: 10 * SCALE,
            velocity: Vector2::new(0, 0),
        }
    }

    /// Moves the body by `movement`, with no physics.
    pub fn move_by(&mut self, movement: &Vector2)
        requires
            within(old(self).center.x + movement.x, i64::MAX as int),
            within(old(self).center.y + movement.y, i64::MAX as int),
        ensures
            *final(self) == (RigidBody {
                center: Vector2 {
                    x: (old(self).center.x + movement.x) as i64,
                    y: (old(self).center.y + movement.y) as i64,
                },
                ..*old(self)
            }),
    {
        movement.add_to(&mut self.center);
    }
}

impl RectObject for RigidBody {
    open spec fn center_spec(&self) -> Vector2 {
        self.center
    }

    open spec fn width_spec(&self) -> i64 {
        self.width
    }

    open spec fn height_spec(&self) -> i64 {
        self.height
    }

    fn center(&self) -> (r: Vector2) {
        self.center
    }

    fn width(&self) -> (r: i64) {
        self.width
    }

    fn height(&self) -> (r: i64) {
        self.height
    }
}

/// A fixed rectangle of scenery.
#[derive(Clone, Copy, Debug, PartialEq, Eq, Structural)]
pub struct StaticObject {
    center: Vector2,
    width: i64,
    height: i64,
}

impl StaticObject {
    pub fn new(center: Vector2, width: i64, height: i64) -> (r: StaticObject)
        ensures
            r.center_spec() == center,
            r.width_spec() == width,
            r.height_spec() == height,
    {
        StaticObject { center, width, height }
    }
}

impl RectObject for StaticObject {
    closed spec fn center_spec(&self) -> Vector2 {
        self.center
    }

    closed spec fn width_spec(&self) -> i64 {
        self.width
    }

    closed spec fn height_spec(&self) -> i64 {
        self.height
    }

    fn center(&self) -> (r: Vector2) {
        self.center
    }

    fn width(&self) -> (r: i64) {
        self.width
    }

    fn height(&self) -> (r: i64) {
        self.height
    }
}

/// The edges of a rectangle object.
pub open spec fn bounds_spec_of<T: RectObject>(o: T) -> Bounds {
    bounds_of(o.center_spec(), o.width_spec(), o.height_spec())
}

/// The rectangle object is scenery.
pub open spec fn is_scenery<T: RectObject>(o: T) -> bool {
    scenery_wf(o.center_spec(), o.width_spec(), o.height_spec())
}

/// How far the body must move left to leave the obstacle.
pub open spec fn left_depth(body: Bounds, obstacle: Bounds) -> int {
    body.right - obstacle.left
}

/// How far the body must move right to leave the obstacle.
pub open spec fn right_depth(body: Bounds, obstacle: Bounds) -> int {
    obstacle.right - body.left
}

/// How far the body must move down to leave the obstacle.
pub open spec fn bottom_depth(body: Bounds, obstacle: Bounds) -> int {
    body.top - obstacle.bottom
}

/// How far the body must move up to leave the obstacle.
pub open spec fn top_depth(body: Bounds, obstacle: Bounds) -> int {
    obstacle.top - body.bottom
}

/// The push-out distance towards the given side.
pub open spec fn depth(body: Bounds, obstacle: Bounds, side: CollisionTypes) -> int {
    match side {
        CollisionTypes::Left => left_depth(body, obstacle),
        CollisionTypes::Right => right_depth(body, obstacle),
        CollisionTypes::Bottom => bottom_depth(body, obstacle),
        CollisionTypes::Top => top_depth(body, obstacle),
    }
}

/// The side with the smallest push-out distance; on a tie the first of
/// left, right, bottom, top.
pub open spec fn chosen_side(body: Bounds, obstacle: Bounds) -> CollisionTypes {
    let l = left_depth(body, obstacle);
    let r = right_depth(body, obstacle);
    let b = bottom_depth(body, obstacle);
    let t = top_depth(body, obstacle);
    if l <= r && l <= b && l <= t {
        CollisionTypes::Left
    } else if r <= b && r <= t {
        CollisionTypes::Right
    } else if b <= t {
        CollisionTypes::Bottom
    } else {
        CollisionTypes::Top
    }
}

/// The body moved along one axis so that it sits flush against the given side of the obstacle.
pub open spec fn pushed(body: RigidBody, obstacle: Bounds, side: CollisionTypes) -> RigidBody {
    match side {
        CollisionTypes::Left => RigidBody {
            center: Vector2 {
                x: (obstacle.left - half_high(body.width as int)) as i64,
                ..body.center
            },
            ..body
        },
        CollisionTypes::Right => RigidBody {
            center: Vector2 {
                x: (obstacle.right + half_low(body.width as int)) as i64,
                ..body.center
            },
            ..body
        },
        CollisionTypes::Bottom => RigidBody {
            center: Vector2 {
                y: (obstacle.bottom - half_high(body.height as int) - BOTTOM_BIAS) as i64,
                ..body.center
            },
            ..body
        },
        CollisionTypes::Top => RigidBody {
            center: Vector2 {
                y: (obstacle.top + half_low(body.height as int)) as i64,
                ..body.center
            },
            ..body
        },
    }
}

/// The outcome of resolving `body` against each obstacle in turn: the body,
/// the sides it came to rest against, and the index of the last obstacle it
/// ended up standing on.
pub open spec fn resolve_all(body: RigidBody, obstacles: Seq<Bounds>) -> (
    RigidBody,
    Seq<CollisionTypes>,
    Option<usize>,
)
    decreases obstacles.len(),
{
    if obstacles.len() == 0 {
        (body, Seq::empty(), None)
    } else {
        let prev = resolve_all(body, obstacles.drop_last());
        let current = prev.0;
        let obstacle = obstacles.last();
        if intersect(current.bounds_spec(), obstacle) {
            let side = chosen_side(current.bounds_spec(), obstacle);
            (
                pushed(current, obstacle, side),
                prev.1.push(side),
                if side == CollisionTypes::Top {
                    Some((obstacles.len() - 1) as usize)
                } else {
                    prev.2
                },
            )
        } else {
            prev
        }
    }
}

/// The bounds of each object.
pub open spec fn bounds_seq<T: RectObject>(objects: Seq<T>) -> Seq<Bounds> {
    objects.map_values(|o: T| bounds_spec_of(o))
}

/// A body pushed out of scenery is still well formed, and only its center moved.
pub proof fn lemma_pushed_wf(body: RigidBody, obstacle: Bounds, side: CollisionTypes)
    requires
        body.wf(),
        within(obstacle.left as int, 3 * LIMIT),
        within(obstacle.right as int, 3 * LIMIT),
        within(obstacle.bottom as int, 3 * LIMIT),
        within(obstacle.top as int, 3 * LIMIT),
    ensures
        pushed(body, obstacle, side).wf(),
        pushed(body, obstacle, side).width == body.width,
        pushed(body, obstacle, side).height == body.height,
        pushed(body, obstacle, side).velocity == body.velocity,
{
}

/// Resolving against scenery keeps the body well formed and records only
/// indices of obstacles.
pub proof fn lemma_resolve_all_wf(body: RigidBody, obstacles: Seq<Bounds>)
    requires
        body.wf(),
        forall|i: int|
            0 <= i < obstacles.len() ==> {
                &&& within(#[trigger] obstacles[i].left as int, 3 * LIMIT)
                &&& within(obstacles[i].right as int, 3 * LIMIT)
                &&& within(obstacles[i].bottom as int, 3 * LIMIT)
                &&& within(obstacles[i].top as int, 3 * LIMIT)
            },
    ensures
        resolve_all(body, obstacles).0.wf(),
        resolve_all(body, obstacles).0.velocity == body.velocity,
        resolve_all(body, obstacles).0.width == body.width,
        resolve_all(body, obstacles).0.height == body.height,
        resolve_all(body, obstacles).2 matches Some(i) ==> i < obstacles.len(),
    decreases obstacles.len(),
{
    if obstacles.len() > 0 {
        let rest = obstacles.drop_last();
        assert forall|i: int| 0 <= i < rest.len() implies {
            &&& within(#[trigger] rest[i].left as int, 3 * LIMIT)
            &&& within(rest[i].right as int, 3 * LIMIT)
            &&& within(rest[i].bottom as int, 3 * LIMIT)
            &&& within(rest[i].top as int, 3 * LIMIT)
        } by {
            assert(rest[i] == obstacles[i]);
        }
        lemma_resolve_all_wf(body, rest);
        let current = resolve_all(body, rest).0;
        let obstacle = obstacles.last();
        assert(obstacle == obstacles[obstacles.len() - 1]);
        lemma_pushed_wf(current, obstacle, chosen_side(current.bounds_spec(), obstacle));
    }
}

/// After a body is pushed out of an obstacle it intersects, it no longer
/// overlaps the obstacle on the axis it was moved along, and so no longer
/// intersects it.
pub proof fn lemma_push_separates(body: RigidBody, obstacle: Bounds)
    requires
        body.wf(),
        proper(obstacle),
        within(obstacle.left as int, 3 * LIMIT),
        within(obstacle.right as int, 3 * LIMIT),
        within(obstacle.bottom as int, 3 * LIMIT),
        within(obstacle.top as int, 3 * LIMIT),
        intersect(body.bounds_spec(), obstacle),
    ensures
        ({
            let side = chosen_side(body.bounds_spec(), obstacle);
            let after = pushed(body, obstacle, side).bounds_spec();
            &&& (side == CollisionTypes::Left || side == CollisionTypes::Right) ==> !overlap_x(
                after,
                obstacle,
            )
            &&& (side == CollisionTypes::Bottom || side == CollisionTypes::Top) ==> !overlap_y(
                after,
                obstacle,
            )
            &&& !intersect(after, obstacle)
        }),
{
}

/// Resolving a body against one obstacle leaves it clear of that obstacle,
/// with one collision recorded if they intersected and none otherwise.
pub proof fn lemma_resolution_clears(body: RigidBody, obstacle: Bounds)
    requires
        body.wf(),
        proper(obstacle),
        within(obstacle.left as int, 3 * LIMIT),
        within(obstacle.right as int, 3 * LIMIT),
        within(obstacle.bottom as int, 3 * LIMIT),
        within(obstacle.top as int, 3 * LIMIT),
    ensures
        !intersect(resolve_all(body, seq![obstacle]).0.bounds_spec(), obstacle),
        resolve_all(body, seq![obstacle]).1.len() == (if intersect(body.bounds_spec(), obstacle) {
            1int
        } else {
            0int
        }),
{
    let obstacles = seq![obstacle];
    assert(obstacles.drop_last() =~= Seq::<Bounds>::empty());
    assert(obstacles.last() == obstacle);
    assert(resolve_all(body, obstacles.drop_last()).1.len() == 0);
    if intersect(body.bounds_spec(), obstacle) {
        lemma_push_separates(body, obstacle);
    }
}

/// The side a body is pushed towards has the smallest of the four push-out
/// distances, and the body moves by exactly that distance (plus the bias,
/// below an obstacle).
pub proof fn lemma_minimal_correction(body: RigidBody, obstacle: Bounds)
    requires
        body.wf(),
        within(obstacle.left as int, 3 * LIMIT),
        within(obstacle.right as int, 3 * LIMIT),
        within(obstacle.bottom as int, 3 * LIMIT),
        within(obstacle.top as int, 3 * LIMIT),
    ensures
        ({
            let b = body.bounds_spec();
            let side = chosen_side(b, obstacle);
            let after = pushed(body, obstacle, side);
            &&& forall|other: CollisionTypes| depth(b, obstacle, side) <= depth(b, obstacle, other)
            &&& side == CollisionTypes::Left ==> after.center.x - body.center.x == -left_depth(
                b,
                obstacle,
            ) && after.center.y == body.center.y
            &&& side == CollisionTypes::Right ==> after.center.x - body.center.x == right_depth(
                b,
                obstacle,
            ) && after.center.y == body.center.y
            &&& side == CollisionTypes::Bottom ==> after.center.y - body.center.y == -bottom_depth(
                b,
                obstacle,
            ) - BOTTOM_BIAS && after.center.x == body.center.x
            &&& side == CollisionTypes::Top ==> after.center.y - body.center.y == top_depth(
                b,
                obstacle,
            ) && after.center.x == body.center.x
        }),
{
    let b = body.bounds_spec();
    let side = chosen_side(b, obstacle);
    assert forall|other: CollisionTypes| depth(b, obstacle, side) <= depth(b, obstacle, other) by {
        match other {
            CollisionTypes::Left => {},
            CollisionTypes::Right => {},
            CollisionTypes::Bottom => {},
            CollisionTypes::Top => {},
        }
    }
}

impl RigidBody {
    /// Pushes the body out of every object it intersects, one object after
    /// another in order, each time along the side with the smallest push-out
    /// distance. Appends the side of each collision to `active_collisions` and
    /// returns the index of the last object the body came to stand on.
    pub fn handle_collisions<T: RectObject>(
        &mut self,
        objects: &[T],
        active_collisions: &mut Vec<CollisionTypes>,
    ) -> (r: Option<usize>)
        requires
            old(self).wf(),
            forall|i: int| 0 <= i < objects@.len() ==> is_scenery(#[trigger] objects@[i]),
        ensures
            ({
                let res = resolve_all(*old(self), bounds_seq(objects@));
                &&& *final(self) == res.0
                &&& final(active_collisions)@ == old(active_collisions)@ + res.1
                &&& r == res.2
            }),
            final(self).wf(),
    {
        let ghost start = *self;
        let ghost start_collisions = active_collisions@;
        let ghost obstacles = bounds_seq(objects@);
        let mut platform_on: Option<usize> = None;
        let mut index: usize = 0;
        while index < objects.len()
            invariant
                0 <= index <= objects@.len(),
                obstacles == bounds_seq(objects@),
                forall|i: int| 0 <= i < objects@.len() ==> is_scenery(#[trigger] objects@[i]),
                ({
                    let res = resolve_all(start, obstacles.take(index as int));
                    &&& *self == res.0
                    &&& active_collisions@ == start_collisions + res.1
                    &&& platform_on == res.2
                }),
                self.wf(),
                start.wf(),
            decreases objects@.len() - index,
        {
            let object = &objects[index];
            proof {
                crate::geometry::lemma_bounds_of(
                    object.center_spec(),
                    object.width_spec(),
                    object.height_spec(),
                );
            }
            let obstacle = object.bounds();
            let ghost prefix = obstacles.take(index as int);
            let ghost next = obstacles.take(index as int + 1);
            proof {
                assert(next.drop_last() =~= prefix);
                assert(next.last() == obstacle);
            }
            if self.collides_with(&obstacle) {
                let body = self.bounds();
                let left = body.right - obstacle.left;
                let right = obstacle.right - body.left;
                let bottom = body.top - obstacle.bottom;
                let top = obstacle.top - body.bottom;
                let side = if left <= right && left <= bottom && left <= top {
                    CollisionTypes::Left
                } else if right <= bottom && right <= top {
                    CollisionTypes::Right
                } else if bottom <= top {
                    CollisionTypes::Bottom
                } else {
                    CollisionTypes::Top
                };
                proof {
                    lemma_pushed_wf(*self, obstacle, side);
                }
                match side {
                    CollisionTypes::Left => {
                        self.center.x = obstacle.left - (self.width - self.width / 2);
                    },
                    CollisionTypes::Right => {
                        self.center.x = obstacle.right + self.width / 2;
                    },
                    CollisionTypes::Bottom => {
                        self.center.y = obstacle.bottom - (self.height - self.height / 2)
                            - BOTTOM_BIAS;
                    },
                    CollisionTypes::Top => {
                        self.center.y = obstacle.top + self.height / 2;
                    },
                }
                if side == CollisionTypes::Top {
                    platform_on = Some(index);
                }
                active_collisions.push(side);
                proof {
                    assert(active_collisions@ =~= start_collisions + resolve_all(start, next).1);
                }
            }
            index = index + 1;
        }
        proof {
            assert(obstacles.take(objects@.len() as int) =~= obstacles);
        }
        platform_on
    }
}

/// Where along its path a platform is after `phase` time of its cycle: the
/// fraction (out of `move_time`) of the way from the start to the end point.
/// It rises from zero to one over the first half of the cycle and falls back
/// over the second.
pub open spec fn triangle(phase: int, move_time: int) -> int {
    if phase < move_time {
        phase
    } else {
        2 * move_time - phase
    }
}

/// The center of a platform after `phase` time of its cycle.
pub open spec fn platform_position(start: Vector2, end: Vector2, move_time: int, phase: int) -> Vector2 {
    Vector2 {
        x: lerp_spec(start.x as int, end.x as int, triangle(phase, move_time), move_time) as i64,
        y: lerp_spec(start.y as int, end.y as int, triangle(phase, move_time), move_time) as i64,
    }
}

/// A rectangle that travels from a start point to an end point and back,
/// taking `move_time` each way.
#[derive(Clone, Copy, Debug, PartialEq, Eq, Structural)]
pub struct MovingObject {
    start_pos: Vector2,
    end_pos: Vector2,
    width: i64,
    height: i64,
    move_time: i64,
    /// Time into the current cycle, in `[0, 2 * move_time)`: the first half
    /// goes to `end_pos`, the second returns to `start_pos`.
    phase: i64,
    center: Vector2,
    /// The motion on the last update.
    prev_move: Vector2,
}

impl MovingObject {
    pub closed spec fn start_pos_spec(&self) -> Vector2 {
        self.start_pos
    }

    pub closed spec fn end_pos_spec(&self) -> Vector2 {
        self.end_pos
    }

    pub closed spec fn move_time_spec(&self) -> int {
        self.move_time as int
    }

    /// Time into the current cycle.
    pub closed spec fn phase_spec(&self) -> int {
        self.phase as int
    }

    pub closed spec fn prev_move_spec(&self) -> Vector2 {
        self.prev_move
    }

    pub closed spec fn wf(&self) -> bool {
        &&& within(self.start_pos.x as int, LIMIT as int)
        &&& within(self.start_pos.y as int, LIMIT as int)
        &&& within(self.end_pos.x as int, LIMIT as int)
        &&& within(self.end_pos.y as int, LIMIT as int)
        &&& 0 < self.width <= LIMIT
        &&& 0 < self.height <= LIMIT
        &&& 0 < self.move_time <= LIMIT
        &&& 0 <= self.phase < 2 * self.move_time
        &&& self.center == platform_position(
            self.start_pos,
            self.end_pos,
            self.move_time as int,
            self.phase as int,
        )
        &&& within(self.prev_move.x as int, 2 * LIMIT)
        &&& within(self.prev_move.y as int, 2 * LIMIT)
    }

    /// The platform after `amount` more time.
    pub closed spec fn advanced(self, amount: int) -> MovingObject {
        let phase = (self.phase + amount) % (2 * self.move_time as int);
        let center = platform_position(self.start_pos, self.end_pos, self.move_time as int, phase);
        MovingObject {
            phase: phase as i64,
            center,
            prev_move: Vector2 {
                x: (center.x - self.center.x) as i64,
                y: (center.y - self.center.y) as i64,
            },
            ..self
        }
    }

    /// A well-formed platform is scenery, and its last motion is bounded.
    pub proof fn lemma_wf(&self)
        requires
            self.wf(),
        ensures
            is_scenery(*self),
            within(self.start_pos_spec().x as int, LIMIT as int),
            within(self.start_pos_spec().y as int, LIMIT as int),
            within(self.end_pos_spec().x as int, LIMIT as int),
            within(self.end_pos_spec().y as int, LIMIT as int),
            within(self.center_spec().x as int, LIMIT as int),
            within(self.center_spec().y as int, LIMIT as int),
            within(self.prev_move_spec().x as int, 2 * LIMIT),
            within(self.prev_move_spec().y as int, 2 * LIMIT),
            self.center_spec() == platform_position(
                self.start_pos_spec(),
                self.end_pos_spec(),
                self.move_time_spec(),
                self.phase_spec(),
            ),
    {
        lemma_platform_within(self.start_pos, self.end_pos, self.move_time as int, self.phase as int);
    }

    /// Returns the object's start position.
    pub fn start_pos(&self) -> (r: Vector2)
        ensures
            r == self.start_pos_spec(),
    {
        self.start_pos
    }

    /// Returns the object's end position.
    pub fn end_pos(&self) -> (r: Vector2)
        ensures
            r == self.end_pos_spec(),
    {
        self.end_pos
    }

    /// Returns the motion of the object on its last update.
    pub fn prev_move(&self) -> (r: Vector2)
        ensures
            r == self.prev_move_spec(),
    {
        self.prev_move
    }

    /// A platform at its start point, about to leave for `end_pos`.
    pub fn new(start_pos: Vector2, end_pos: Vector2, width: i64, height: i64, move_time: i64) -> (r:
        MovingObject)
        requires
            within(start_pos.x as int, LIMIT as int),
            within(start_pos.y as int, LIMIT as int),
            within(end_pos.x as int, LIMIT as int),
            within(end_pos.y as int, LIMIT as int),
            0 < width <= LIMIT,
            0 < height <= LIMIT,
            0 < move_time <= LIMIT,
        ensures
            r.wf(),
            r.start_pos_spec() == start_pos,
            r.end_pos_spec() == end_pos,
            r.width_spec() == width,
            r.height_spec() == height,
            r.move_time_spec() == move_time,
            r.phase_spec() == 0,
            r.center_spec() == start_pos,
            r.prev_move_spec() == (Vector2 { x: 0, y: 0 }),
    {
        proof {
            lemma_platform_ends(start_pos, end_pos, move_time as int);
        }
        MovingObject {
            start_pos,
            end_pos,
            width,
            height,
            move_time,
            phase: 0,
            center: start_pos,
            prev_move: Vector2::new(0, 0),
        }
    }

    /// Moves the object `amount` time further along its path, turning back at
    /// either end, and records the motion.
    pub fn update(&mut self, amount: i64)
        requires
            old(self).wf(),
            amount >= 0,
        ensures
            *final(self) == old(self).advanced(amount as int),
            final(self).wf(),
            final(self).phase_spec() == (old(self).phase_spec() + amount) % (2
                * old(self).move_time_spec()),
            final(self).center_spec() == platform_position(
                old(self).start_pos_spec(),
                old(self).end_pos_spec(),
                old(self).move_time_spec(),
                final(self).phase_spec(),
            ),
            final(self).prev_move_spec().x == final(self).center_spec().x - old(
                self,
            ).center_spec().x,
            final(self).prev_move_spec().y == final(self).center_spec().y - old(
                self,
            ).center_spec().y,
            final(self).start_pos_spec() == old(self).start_pos_spec(),
            final(self).end_pos_spec() == old(self).end_pos_spec(),
            final(self).move_time_spec() == old(self).move_time_spec(),
            final(self).width_spec() == old(self).width_spec(),
            final(self).height_spec() == old(self).height_spec(),
    {
        let period = 2 * self.move_time;
        let phase = (self.phase + amount % period) % period;
        proof {
            vstd::arithmetic::div_mod::lemma_add_mod_noop(self.phase as int, amount as int, period as int);
            vstd::arithmetic::div_mod::lemma_small_mod(self.phase as nat, period as nat);
        }
        let travel = if phase < self.move_time {
            phase
        } else {
            period - phase
        };
        let center = Vector2::lerp(&self.start_pos, &self.end_pos, travel, self.move_time);
        proof {
            lemma_platform_within(self.start_pos, self.end_pos, self.move_time as int, self.phase as int);
        }
        let prev_move = Vector2::new(center.x - self.center.x, center.y - self.center.y);
        self.phase = phase;
        self.center = center;
        self.prev_move = prev_move;
    }
}

/// A platform stays between its end points.
proof fn lemma_platform_within(start: Vector2, end: Vector2, move_time: int, phase: int)
    requires
        within(start.x as int, LIMIT as int),
        within(start.y as int, LIMIT as int),
        within(end.x as int, LIMIT as int),
        within(end.y as int, LIMIT as int),
        0 < move_time,
        0 <= phase < 2 * move_time,
    ensures
        within(platform_position(start, end, move_time, phase).x as int, LIMIT as int),
        within(platform_position(start, end, move_time, phase).y as int, LIMIT as int),
{
    let t = triangle(phase, move_time);
    lemma_lerp_between(start.x as int, end.x as int, t, move_time);
    lemma_lerp_between(start.y as int, end.y as int, t, move_time);
}

/// An interpolated coordinate lies between the two end coordinates.
proof fn lemma_lerp_between(a: int, b: int, t: int, span: int)
    requires
        0 <= t <= span,
        0 < span,
    ensures
        a <= b ==> a <= lerp_spec(a, b, t, span) <= b,
        b < a ==> b <= lerp_spec(a, b, t, span) <= a,
{
    let d = b - a;
    if d >= 0 {
        assert(0 <= d * t <= d * span) by (nonlinear_arith)
            requires
                d >= 0,
                0 <= t <= span,
        ;
        vstd::arithmetic::div_mod::lemma_div_is_ordered(0, d * t, span);
        vstd::arithmetic::div_mod::lemma_div_is_ordered(d * t, d * span, span);
        assert(d * span == span * d) by (nonlinear_arith);
        vstd::arithmetic::div_mod::lemma_div_multiples_vanish(d, span);
    } else {
        assert(d * span <= d * t <= 0) by (nonlinear_arith)
            requires
                d < 0,
                0 <= t <= span,
        ;
        vstd::arithmetic::div_mod::lemma_div_is_ordered(d * t, 0, span);
        vstd::arithmetic::div_mod::lemma_div_is_ordered(d * span, d * t, span);
        assert(d * span == span * d) by (nonlinear_arith);
        vstd::arithmetic::div_mod::lemma_div_multiples_vanish(d, span);
    }
}

/// A platform is at its start point at the start of its cycle, and at its end
/// point half way through.
proof fn lemma_platform_ends(start: Vector2, end: Vector2, move_time: int)
    requires
        0 < move_time,
    ensures
        platform_position(start, end, move_time, 0) == start,
        platform_position(start, end, move_time, move_time) == end,
{
    vstd::arithmetic::div_mod::lemma_div_multiples_vanish(0, move_time);
    assert((end.x - start.x) * 0 == move_time * 0) by (nonlinear_arith);
    assert((end.y - start.y) * 0 == move_time * 0) by (nonlinear_arith);
    vstd::arithmetic::div_mod::lemma_div_multiples_vanish(end.x - start.x, move_time);
    vstd::arithmetic::div_mod::lemma_div_multiples_vanish(end.y - start.y, move_time);
    assert((end.x - start.x) * move_time == move_time * (end.x - start.x)) by (nonlinear_arith);
    assert((end.y - start.y) * move_time == move_time * (end.y - start.y)) by (nonlinear_arith);
}

/// A platform's motion repeats every `2 * move_time`: it is at its start
/// point at the start of the cycle and at its end point half way through,
/// and advancing it by whole cycles brings it back to where it was.
pub proof fn lemma_platform_cycle(platform: MovingObject, cycles: nat)
    requires
        platform.wf(),
    ensures
        platform_position(
            platform.start_pos_spec(),
            platform.end_pos_spec(),
            platform.move_time_spec(),
            0,
        ) == platform.start_pos_spec(),
        platform_position(
            platform.start_pos_spec(),
            platform.end_pos_spec(),
            platform.move_time_spec(),
            platform.move_time_spec(),
        ) == platform.end_pos_spec(),
        platform.advanced(cycles * (2 * platform.move_time_spec())).phase_spec()
            == platform.phase_spec(),
        platform.advanced(cycles * (2 * platform.move_time_spec())).center_spec()
            == platform.center_spec(),
{
    let period = 2 * platform.move_time;
    lemma_platform_ends(platform.start_pos, platform.end_pos, platform.move_time as int);
    vstd::arithmetic::div_mod::lemma_mod_multiples_vanish(cycles as int, platform.phase as int, period as int);
    vstd::arithmetic::div_mod::lemma_small_mod(platform.phase as nat, period as nat);
    assert(cycles * period + platform.phase == period * cycles + platform.phase) by (nonlinear_arith);
}

impl RectObject for MovingObject {
    closed spec fn center_spec(&self) -> Vector2 {
        self.center
    }

    closed spec fn width_spec(&self) -> i64 {
        self.width
    }

    closed spec fn height_spec(&self) -> i64 {
        self.height
    }

    fn center(&self) -> (r: Vector2) {
        self.center
    }

    fn width(&self) -> (r: i64) {
        self.width
    }

    fn height(&self) -> (r: i64) {
        self.height
    }
}

/// The squared distance between two points.
pub open spec fn distance_squared(a: Vector2, b: Vector2) -> int {
    (a.x - b.x) * (a.x - b.x) + (a.y - b.y) * (a.y - b.y)
}

/// `v` limited to `[lo, hi]`.
pub open spec fn nearest(v: int, lo: int, hi: int) -> int {
    if v < lo {
        lo
    } else if v > hi {
        hi
    } else {
        v
    }
}

/// A disc that nothing collides with, used to mark places.
#[derive(Clone, Copy, Debug, PartialEq, Eq, Structural)]
pub struct Circle {
    center: Vector2,
    radius: i64,
    pub color: Rgb,
}

impl Circle {
    pub closed spec fn center_spec(&self) -> Vector2 {
        self.center
    }

    pub closed spec fn radius_spec(&self) -> int {
        self.radius as int
    }

    pub closed spec fn color_spec(&self) -> Rgb {
        self.color
    }

    pub open spec fn wf(&self) -> bool {
        &&& within(self.center_spec().x as int, 4 * LIMIT)
        &&& within(self.center_spec().y as int, 4 * LIMIT)
        &&& 0 <= self.radius_spec() <= LIMIT
    }

    /// The point lies in the disc, its edge included.
    pub open spec fn holds(&self, p: Vector2) -> bool {
        distance_squared(p, self.center_spec()) <= self.radius_spec() * self.radius_spec()
    }

    /// The disc shares a point with the rectangle, edges included.
    pub open spec fn meets(&self, b: Bounds) -> bool {
        let c = self.center_spec();
        let q = Vector2 {
            x: nearest(c.x as int, b.left as int, b.right as int) as i64,
            y: nearest(c.y as int, b.bottom as int, b.top as int) as i64,
        };
        distance_squared(c, q) <= self.radius_spec() * self.radius_spec()
    }

    /// Returns the color of the marker.
    pub fn color(&self) -> (r: Rgb)
        ensures
            r == self.color_spec(),
    {
        self.color
    }

    pub fn new(center: &Vector2, radius: i64, color: Rgb) -> (r: Circle)
        ensures
            r.center_spec() == *center,
            r.radius_spec() == radius,
            r.color_spec() == color,
    {
        Circle { center: *center, radius, color }
    }

    /// Determines whether `point` lies in the disc, its edge included.
    pub fn contains_point(&self, point: &Vector2) -> (r: bool)
        requires
            self.wf(),
        ensures
            r == self.holds(*point),
    {
        let dx = point.x as i128 - self.center.x as i128;
        let dy = point.y as i128 - self.center.y as i128;
        let adx = if dx < 0 { -dx } else { dx };
        let ady = if dy < 0 { -dy } else { dy };
        let radius = self.radius as i128;
        if adx > radius || ady > radius {
            proof {
                let r = radius as int;
                assert(distance_squared(*point, self.center) > r * r) by (nonlinear_arith)
                    requires
                        adx == dx || adx == -dx,
                        ady == dy || ady == -dy,
                        adx > r || ady > r,
                        0 <= r,
                        dx == point.x - self.center.x,
                        dy == point.y - self.center.y,
                ;
            }
            false
        } else {
            proof {
                lemma_mul_within_small(dx as int, LIMIT as int);
                lemma_mul_within_small(dy as int, LIMIT as int);
                lemma_mul_within_small(radius as int, LIMIT as int);
            }
            dx * dx + dy * dy <= radius * radius
        }
    }

    /// Determines whether the disc shares a point with the body's rectangle,
    /// edges included.
    pub fn intersects_rigidbody(&self, rigidbody: &RigidBody) -> (r: bool)
        requires
            self.wf(),
            shape_wf(rigidbody.center, rigidbody.width, rigidbody.height),
        ensures
            r == self.meets(rigidbody.bounds_spec()),
    {
        proof {
            crate::geometry::lemma_bounds_of(rigidbody.center, rigidbody.width, rigidbody.height);
        }
        let b = rigidbody.bounds();
        let nx = if self.center.x < b.left {
            b.left
        } else if self.center.x > b.right {
            b.right
        } else {
            self.center.x
        };
        let ny = if self.center.y < b.bottom {
            b.bottom
        } else if self.center.y > b.top {
            b.top
        } else {
            self.center.y
        };
        let dx = self.center.x as i128 - nx as i128;
        let dy = self.center.y as i128 - ny as i128;
        let radius = self.radius as i128;
        proof {
            lemma_mul_within_small(dx as int, 16 * LIMIT);
            lemma_mul_within_small(dy as int, 16 * LIMIT);
            lemma_mul_within_small(radius as int, LIMIT as int);
        }
        dx * dx + dy * dy <= radius * radius
    }
}

/// `v * v <= bound * bound` when `|v| <= bound`.
proof fn lemma_mul_within_small(v: int, bound: int)
    requires
        within(v, bound),
    ensures
        0 <= v * v <= bound * bound,
{
    assert(0 <= v * v <= bound * bound) by (nonlinear_arith)
        requires
            within(v, bound),
    ;
}

} // verus!
