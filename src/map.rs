use vstd::prelude::*;

use crate::color::Rgb;
use crate::geometry::{within, Vector2, SCALE};
use crate::objects::{is_scenery, Circle, MovingObject, RigidBody, StaticObject};
use crate::physics::POSITION_LIMIT;
use crate::render::{unpacked, MOVING_PLATFORM_INDICATOR_COLOR, MOVING_PLATFORM_INDICATOR_RADIUS};

verus! {

/// Width of the player's body.
pub const PLAYER_WIDTH: i64 = 20 * SCALE;

/// Height of the player's body.
pub const PLAYER_HEIGHT: i64 = 40 * SCALE;

/// A marker that, once the player touches it, becomes where the player respawns.
#[derive(Clone, Copy, Debug, PartialEq, Eq, Structural)]
pub struct Checkpoint {
    pub indicator: Circle,
    pub respawn: RigidBody,
}

impl Checkpoint {
    /// A checkpoint that respawns the player at rest at `player_center`.
    pub fn new(indicator: Circle, player_center: Vector2) -> (r: Checkpoint)
        ensures
            r.indicator == indicator,
            r.respawn == (RigidBody {
                center: player_center,
                width: PLAYER_WIDTH,
                height: PLAYER_HEIGHT,
                velocity: Vector2 { x: 0, y: 0 },
            }),
    {
        Checkpoint {
            indicator,
            respawn: RigidBody {
                center: player_center,
                width: PLAYER_WIDTH,
                height: PLAYER_HEIGHT,
                velocity: Vector2::new(0, 0),
            },
        }
    }
}

/// A level: its scenery, markers, the player and where the player respawns.
pub struct GameMap {
    pub static_objects: Vec<StaticObject>,
    pub moving_objects: Vec<MovingObject>,
    pub moving_object_indicators: Vec<Circle>,
    pub checkpoints: Vec<Checkpoint>,
    pub goal: Circle,
    /// The body the player is replaced with on respawn.
    pub player_respawn: RigidBody,
    pub player: RigidBody,
    /// The player respawns once its center falls below this height.
    pub lowest_point: i64,
}

impl GameMap {
    pub open spec fn wf(&self) -> bool {
        &&& forall|i: int|
            0 <= i < self.static_objects@.len() ==> is_scenery(#[trigger] self.static_objects@[i])
        &&& forall|i: int|
            0 <= i < self.moving_objects@.len() ==> (#[trigger] self.moving_objects@[i]).wf()
        &&& forall|i: int|
            0 <= i < self.moving_object_indicators@.len() ==> (
            #[trigger] self.moving_object_indicators@[i]).wf()
        &&& forall|i: int|
            0 <= i < self.checkpoints@.len() ==> {
                &&& (#[trigger] self.checkpoints@[i]).indicator.wf()
                &&& self.checkpoints@[i].respawn.wf()
            }
        &&& self.goal.wf()
        &&& self.player_respawn.wf()
        &&& self.player.wf()
        &&& within(self.lowest_point as int, POSITION_LIMIT as int)
    }

    /// A marker of a platform's path end at `at`.
    pub open spec fn is_marker(c: Circle, at: Vector2) -> bool {
        &&& c.center_spec() == at
        &&& c.radius_spec() == MOVING_PLATFORM_INDICATOR_RADIUS
        &&& c.color_spec() == unpacked(MOVING_PLATFORM_INDICATOR_COLOR)
    }

    /// The first `count` platforms each have their two path-end markers in
    /// `markers`, from index `base` on.
    pub open spec fn markers_placed(
        markers: Seq<Circle>,
        base: int,
        platforms: Seq<MovingObject>,
        count: int,
    ) -> bool {
        forall|j: int|
            0 <= j < count ==> {
                &&& Self::is_marker(#[trigger] markers[base + 2 * j], platforms[j].start_pos_spec())
                &&& Self::is_marker(markers[base + 2 * j + 1], platforms[j].end_pos_spec())
            }
    }

    /// Starts the level: the player takes the respawn body, and each
    /// platform's path gets a marker at its start and one at its end, after
    /// the markers already there.
    pub fn start_level(&mut self)
        requires
            old(self).wf(),
        ensures
            final(self).wf(),
            final(self).player == old(self).player_respawn,
            final(self).player_respawn == old(self).player_respawn,
            final(self).static_objects@ == old(self).static_objects@,
            final(self).moving_objects@ == old(self).moving_objects@,
            final(self).checkpoints@ == old(self).checkpoints@,
            final(self).goal == old(self).goal,
            final(self).lowest_point == old(self).lowest_point,
            ({
                let before = old(self).moving_object_indicators@;
                let after = final(self).moving_object_indicators@;
                let platforms = old(self).moving_objects@;
                &&& after.len() == before.len() + 2 * platforms.len()
                &&& after.take(before.len() as int) == before
                &&& Self::markers_placed(after, before.len() as int, platforms, platforms.len() as int)
            }),
    {
        self.player = self.player_respawn;
        let ghost before = self.moving_object_indicators@;
        let mut i: usize = 0;
        while i < self.moving_objects.len()
            invariant
                0 <= i <= self.moving_objects@.len(),
                self.wf(),
                self.moving_objects@ == old(self).moving_objects@,
                self.static_objects@ == old(self).static_objects@,
                self.checkpoints@ == old(self).checkpoints@,
                self.goal == old(self).goal,
                self.lowest_point == old(self).lowest_point,
                self.player == old(self).player_respawn,
                self.player_respawn == old(self).player_respawn,
                before == old(self).moving_object_indicators@,
                self.moving_object_indicators@.len() == before.len() + 2 * i,
                self.moving_object_indicators@.take(before.len() as int) == before,
                Self::markers_placed(
                    self.moving_object_indicators@,
                    before.len() as int,
                    self.moving_objects@,
                    i as int,
                ),
            decreases self.moving_objects@.len() - i,
        {
            let platform = &self.moving_objects[i];
            let start = platform.start_pos();
            let end = platform.end_pos();
            proof {
                platform.lemma_wf();
            }
            let ghost prev = self.moving_object_indicators@;
            let color = Rgb::from_u32(MOVING_PLATFORM_INDICATOR_COLOR);
            assert(color == unpacked(MOVING_PLATFORM_INDICATOR_COLOR));
            let first = Circle::new(&start, MOVING_PLATFORM_INDICATOR_RADIUS, color);
            let second = Circle::new(&end, MOVING_PLATFORM_INDICATOR_RADIUS, color);
            self.moving_object_indicators.push(first);
            self.moving_object_indicators.push(second);
            proof {
                let now = self.moving_object_indicators@;
                assert(now.take(before.len() as int) =~= before) by {
                    assert forall|k: int| 0 <= k < before.len() implies now[k] == before[k] by {
                        assert(now[k] == prev[k]);
                        assert(prev.take(before.len() as int)[k] == prev[k]);
                    }
                }
                assert forall|j: int| 0 <= j < i + 1 implies {
                    &&& Self::is_marker(
                        #[trigger] now[before.len() + 2 * j],
                        self.moving_objects@[j].start_pos_spec(),
                    )
                    &&& Self::is_marker(
                        now[before.len() + 2 * j + 1],
                        self.moving_objects@[j].end_pos_spec(),
                    )
                } by {
                    assert(prev.len() == before.len() + 2 * i);
                    if j < i {
                        assert(now[before.len() + 2 * j] == prev[before.len() + 2 * j]);
                        assert(now[before.len() + 2 * j + 1] == prev[before.len() + 2 * j + 1]);
                        assert(Self::is_marker(
                            prev[before.len() + 2 * j],
                            self.moving_objects@[j].start_pos_spec(),
                        ));
                    } else {
                        assert(now[before.len() + 2 * j] == first);
                        assert(now[before.len() + 2 * j + 1] == second);
                    }
                }
                assert(Self::markers_placed(now, before.len() as int, self.moving_objects@, i + 1));
                assert forall|k: int| 0 <= k < now.len() implies (#[trigger] now[k]).wf() by {
                    if k < prev.len() {
                        assert(now[k] == prev[k]);
                    }
                }
            }
            i = i + 1;
        }
    }

    /// An empty level: no scenery, a goal of radius zero at the origin, and
    /// the player at rest at the origin.
    pub fn new() -> (r: GameMap)
        ensures
            r.wf(),
            r.static_objects@.len() == 0,
            r.moving_objects@.len() == 0,
            r.moving_object_indicators@.len() == 0,
            r.checkpoints@.len() == 0,
            r.goal.center_spec() == (Vector2 { x: 0, y: 0 }),
            r.goal.radius_spec() == 0,
            r.goal.color_spec() == (Rgb { red: 0, blue: 0, green: 0 }),
            r.player_respawn == r.player,
            r.player == (RigidBody {
                center: Vector2 { x: 0, y: 0 },
                width: 10000,
                height: 10000,
                velocity: Vector2 { x: 0, y: 0 },
            }),
            r.lowest_point == 0,
    {
        GameMap {
            static_objects: Vec::new(),
            moving_objects: Vec::new(),
            moving_object_indicators: Vec::new(),
            checkpoints: Vec::new(),
            goal: Circle::new(&Vector2::new(0, 0), 0, Rgb::new(0, 0, 0)),
            player_respawn: RigidBody::new(),
            player: RigidBody::new(),
            lowest_point: 0,
        }
    }
}

} // verus!
