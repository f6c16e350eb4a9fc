//! The deterministic simulation step.
//!
//! All geometry is 16.16 fixed point: one world unit is `FX_ONE`.  A heading
//! is one of `TURN_STEPS` equally spaced directions; turning changes it by
//! one step per tick, and per-heading movement deltas come from a fixed
//! table, so two executions of a tick from equal states and equal input
//! symbols are bit-identical by construction — no floats, no wall clock, no
//! randomness.
//!
//! One tick runs six passes in a fixed order: rotate, advance, trail spawn,
//! trail decay, boundary elimination, trail-collision elimination.
//! Elimination is a state flag, not removal, so a rollback can replay it
//! deterministically and idempotently: a dead player is frozen and never
//! fires another elimination event.

use vstd::prelude::*;

use crate::input::{spec_speed_mult, spec_turn, INPUT_DASH, INPUT_LEFT, INPUT_RIGHT};
use crate::timer::FrameTimer;

verus! {

/// One world unit in fixed-point representation.
pub const FX_ONE: i64 = 65536;

/// Number of discrete headings; one turn step is 1/48 of a full circle.
pub const TURN_STEPS: u8 = 48;

/// A trail segment is spawned every `SPAWN_PERIOD` ticks per living player.
pub const SPAWN_PERIOD: u32 = 2;

/// A trail segment lives `TRAIL_FRAMES` ticks.
pub const TRAIL_FRAMES: u32 = 80;

/// Arena radius (4.5 units) in fixed point.
pub const ARENA_RADIUS: i64 = 294912;

pub const ARENA_RADIUS_SQ: i64 = ARENA_RADIUS * ARENA_RADIUS;

/// Largest per-tick movement delta per axis (the dash doubles it).
pub const MAX_STEP: i64 = 1966;

/// Largest spawn-offset component per axis.
pub const MAX_OFF: i64 = 31130;

/// A player collides with a trail when the squared distance of their
/// centres falls below this.  It equals the smallest squared length of a
/// spawn offset over all headings, so a freshly spawned segment sits just
/// outside its owner's collision radius (see `lemma_spawn_offset_clear`).
pub const COLLIDE_DIST_SQ: i64 = 969032738;

/// Every player coordinate stays within this bound: a living player is
/// inside the arena, and a player is frozen on elimination at most one
/// dashed step past the radius.
pub const POS_LIMIT: i64 = 298850;

/// Every trail coordinate stays within this bound (a spawn offset past
/// `POS_LIMIT`).
pub const TRAIL_LIMIT: i64 = 330000;

#[derive(Clone, Copy, PartialEq, Eq, Debug)]
pub struct PlayerState {
    pub alive: bool,
    pub x: i64,
    pub y: i64,
    pub heading: u8,
    pub spawn_timer: FrameTimer,
}

#[derive(Clone, Copy, PartialEq, Eq, Debug)]
pub struct TrailSeg {
    pub owner: u8,
    pub x: i64,
    pub y: i64,
    pub death_timer: FrameTimer,
}

/// The complete rollback-managed state: both players and every live trail
/// segment.  Everything in it is a plain value, so a snapshot is a deep
/// copy with no aliasing.
#[derive(PartialEq, Eq, Debug)]
pub struct World {
    pub p0: PlayerState,
    pub p1: PlayerState,
    pub trails: Vec<TrailSeg>,
}

/// Mathematical model of a `World`.
#[verifier::ext_equal]
pub struct WorldM {
    pub p0: PlayerState,
    pub p1: PlayerState,
    pub trails: Seq<TrailSeg>,
}

impl View for World {
    type V = WorldM;

    open spec fn view(&self) -> WorldM {
        WorldM { p0: self.p0, p1: self.p1, trails: self.trails@ }
    }
}

impl PlayerState {
    /// Structural well-formedness: heading in range, spawn timer on the
    /// spawn cadence, coordinates bounded.
    pub open spec fn wf_dyn(self) -> bool {
        &&& self.heading < TURN_STEPS
        &&& self.spawn_timer.wf()
        &&& self.spawn_timer.period == SPAWN_PERIOD
        &&& -POS_LIMIT <= self.x <= POS_LIMIT
        &&& -POS_LIMIT <= self.y <= POS_LIMIT
    }

    /// Full well-formedness: additionally, a living player is inside the
    /// arena.  Holds at every tick boundary.
    pub open spec fn wf(self) -> bool {
        &&& self.wf_dyn()
        &&& (self.alive ==> self.x * self.x + self.y * self.y <= ARENA_RADIUS_SQ)
    }
}

impl TrailSeg {
    pub open spec fn wf(self) -> bool {
        &&& self.death_timer.wf()
        &&& self.death_timer.period == TRAIL_FRAMES
        &&& -TRAIL_LIMIT <= self.x <= TRAIL_LIMIT
        &&& -TRAIL_LIMIT <= self.y <= TRAIL_LIMIT
    }
}

impl WorldM {
    pub open spec fn trails_wf(self) -> bool {
        forall|i: int| 0 <= i < self.trails.len() ==> (#[trigger] self.trails[i]).wf()
    }

    /// Mid-pipeline well-formedness (a just-advanced player may sit past
    /// the arena radius until the boundary pass runs).
    pub open spec fn wf_dyn(self) -> bool {
        self.p0.wf_dyn() && self.p1.wf_dyn() && self.trails_wf()
    }

    /// Well-formedness at tick boundaries.
    pub open spec fn wf(self) -> bool {
        self.p0.wf() && self.p1.wf() && self.trails_wf()
    }
}

/// Per-heading movement delta, fixed point: 0.03 units along the heading
/// (heading `h` points at angle `h`/48 of a full turn, counter-clockwise).
pub open spec fn spec_step_vec(h: u8) -> (i64, i64) {
    if h == 0 {
        (1966i64, 0i64)
    } else if h == 1 {
        (1949i64, 257i64)
    } else if h == 2 {
        (1899i64, 509i64)
    } else if h == 3 {
        (1816i64, 752i64)
    } else if h == 4 {
        (1703i64, 983i64)
    } else if h == 5 {
        (1560i64, 1197i64)
    } else if h == 6 {
        (1390i64, 1390i64)
    } else if h == 7 {
        (1197i64, 1560i64)
    } else if h == 8 {
        (983i64, 1703i64)
    } else if h == 9 {
        (752i64, 1816i64)
    } else if h == 10 {
        (509i64, 1899i64)
    } else if h == 11 {
        (257i64, 1949i64)
    } else if h == 12 {
        (0i64, 1966i64)
    } else if h == 13 {
        (-257i64, 1949i64)
    } else if h == 14 {
        (-509i64, 1899i64)
    } else if h == 15 {
        (-752i64, 1816i64)
    } else if h == 16 {
        (-983i64, 1703i64)
    } else if h == 17 {
        (-1197i64, 1560i64)
    } else if h == 18 {
        (-1390i64, 1390i64)
    } else if h == 19 {
        (-1560i64, 1197i64)
    } else if h == 20 {
        (-1703i64, 983i64)
    } else if h == 21 {
        (-1816i64, 752i64)
    } else if h == 22 {
        (-1899i64, 509i64)
    } else if h == 23 {
        (-1949i64, 257i64)
    } else if h == 24 {
        (-1966i64, 0i64)
    } else if h == 25 {
        (-1949i64, -257i64)
    } else if h == 26 {
        (-1899i64, -509i64)
    } else if h == 27 {
        (-1816i64, -752i64)
    } else if h == 28 {
        (-1703i64, -983i64)
    } else if h == 29 {
        (-1560i64, -1197i64)
    } else if h == 30 {
        (-1390i64, -1390i64)
    } else if h == 31 {
        (-1197i64, -1560i64)
    } else if h == 32 {
        (-983i64, -1703i64)
    } else if h == 33 {
        (-752i64, -1816i64)
    } else if h == 34 {
        (-509i64, -1899i64)
    } else if h == 35 {
        (-257i64, -1949i64)
    } else if h == 36 {
        (0i64, -1966i64)
    } else if h == 37 {
        (257i64, -1949i64)
    } else if h == 38 {
        (509i64, -1899i64)
    } else if h == 39 {
        (752i64, -1816i64)
    } else if h == 40 {
        (983i64, -1703i64)
    } else if h == 41 {
        (1197i64, -1560i64)
    } else if h == 42 {
        (1390i64, -1390i64)
    } else if h == 43 {
        (1560i64, -1197i64)
    } else if h == 44 {
        (1703i64, -983i64)
    } else if h == 45 {
        (1816i64, -752i64)
    } else if h == 46 {
        (1899i64, -509i64)
    } else if h == 47 {
        (1949i64, -257i64)
    } else {
        (0i64, 0i64)
    }
}

pub fn step_vec(h: u8) -> (r: (i64, i64))
    ensures
        r == spec_step_vec(h),
{
    if h == 0 {
        (1966i64, 0i64)
    } else if h == 1 {
        (1949i64, 257i64)
    } else if h == 2 {
        (1899i64, 509i64)
    } else if h == 3 {
        (1816i64, 752i64)
    } else if h == 4 {
        (1703i64, 983i64)
    } else if h == 5 {
        (1560i64, 1197i64)
    } else if h == 6 {
        (1390i64, 1390i64)
    } else if h == 7 {
        (1197i64, 1560i64)
    } else if h == 8 {
        (983i64, 1703i64)
    } else if h == 9 {
        (752i64, 1816i64)
    } else if h == 10 {
        (509i64, 1899i64)
    } else if h == 11 {
        (257i64, 1949i64)
    } else if h == 12 {
        (0i64, 1966i64)
    } else if h == 13 {
        (-257i64, 1949i64)
    } else if h == 14 {
        (-509i64, 1899i64)
    } else if h == 15 {
        (-752i64, 1816i64)
    } else if h == 16 {
        (-983i64, 1703i64)
    } else if h == 17 {
        (-1197i64, 1560i64)
    } else if h == 18 {
        (-1390i64, 1390i64)
    } else if h == 19 {
        (-1560i64, 1197i64)
    } else if h == 20 {
        (-1703i64, 983i64)
    } else if h == 21 {
        (-1816i64, 752i64)
    } else if h == 22 {
        (-1899i64, 509i64)
    } else if h == 23 {
        (-1949i64, 257i64)
    } else if h == 24 {
        (-1966i64, 0i64)
    } else if h == 25 {
        (-1949i64, -257i64)
    } else if h == 26 {
        (-1899i64, -509i64)
    } else if h == 27 {
        (-1816i64, -752i64)
    } else if h == 28 {
        (-1703i64, -983i64)
    } else if h == 29 {
        (-1560i64, -1197i64)
    } else if h == 30 {
        (-1390i64, -1390i64)
    } else if h == 31 {
        (-1197i64, -1560i64)
    } else if h == 32 {
        (-983i64, -1703i64)
    } else if h == 33 {
        (-752i64, -1816i64)
    } else if h == 34 {
        (-509i64, -1899i64)
    } else if h == 35 {
        (-257i64, -1949i64)
    } else if h == 36 {
        (0i64, -1966i64)
    } else if h == 37 {
        (257i64, -1949i64)
    } else if h == 38 {
        (509i64, -1899i64)
    } else if h == 39 {
        (752i64, -1816i64)
    } else if h == 40 {
        (983i64, -1703i64)
    } else if h == 41 {
        (1197i64, -1560i64)
    } else if h == 42 {
        (1390i64, -1390i64)
    } else if h == 43 {
        (1560i64, -1197i64)
    } else if h == 44 {
        (1703i64, -983i64)
    } else if h == 45 {
        (1816i64, -752i64)
    } else if h == 46 {
        (1899i64, -509i64)
    } else if h == 47 {
        (1949i64, -257i64)
    } else {
        (0i64, 0i64)
    }
}

/// Per-heading trail spawn offset, fixed point: 0.475 units behind the
/// player ((player diameter + trail diameter) / 2).
pub open spec fn spec_off_vec(h: u8) -> (i64, i64) {
    if h == 0 {
        (31130i64, 0i64)
    } else if h == 1 {
        (30863i64, 4063i64)
    } else if h == 2 {
        (30069i64, 8057i64)
    } else if h == 3 {
        (28760i64, 11913i64)
    } else if h == 4 {
        (26959i64, 15565i64)
    } else if h == 5 {
        (24697i64, 18950i64)
    } else if h == 6 {
        (22012i64, 22012i64)
    } else if h == 7 {
        (18950i64, 24697i64)
    } else if h == 8 {
        (15565i64, 26959i64)
    } else if h == 9 {
        (11913i64, 28760i64)
    } else if h == 10 {
        (8057i64, 30069i64)
    } else if h == 11 {
        (4063i64, 30863i64)
    } else if h == 12 {
        (0i64, 31130i64)
    } else if h == 13 {
        (-4063i64, 30863i64)
    } else if h == 14 {
        (-8057i64, 30069i64)
    } else if h == 15 {
        (-11913i64, 28760i64)
    } else if h == 16 {
        (-15565i64, 26959i64)
    } else if h == 17 {
        (-18950i64, 24697i64)
    } else if h == 18 {
        (-22012i64, 22012i64)
    } else if h == 19 {
        (-24697i64, 18950i64)
    } else if h == 20 {
        (-26959i64, 15565i64)
    } else if h == 21 {
        (-28760i64, 11913i64)
    } else if h == 22 {
        (-30069i64, 8057i64)
    } else if h == 23 {
        (-30863i64, 4063i64)
    } else if h == 24 {
        (-31130i64, 0i64)
    } else if h == 25 {
        (-30863i64, -4063i64)
    } else if h == 26 {
        (-30069i64, -8057i64)
    } else if h == 27 {
        (-28760i64, -11913i64)
    } else if h == 28 {
        (-26959i64, -15565i64)
    } else if h == 29 {
        (-24697i64, -18950i64)
    } else if h == 30 {
        (-22012i64, -22012i64)
    } else if h == 31 {
        (-18950i64, -24697i64)
    } else if h == 32 {
        (-15565i64, -26959i64)
    } else if h == 33 {
        (-11913i64, -28760i64)
    } else if h == 34 {
        (-8057i64, -30069i64)
    } else if h == 35 {
        (-4063i64, -30863i64)
    } else if h == 36 {
        (0i64, -31130i64)
    } else if h == 37 {
        (4063i64, -30863i64)
    } else if h == 38 {
        (8057i64, -30069i64)
    } else if h == 39 {
        (11913i64, -28760i64)
    } else if h == 40 {
        (15565i64, -26959i64)
    } else if h == 41 {
        (18950i64, -24697i64)
    } else if h == 42 {
        (22012i64, -22012i64)
    } else if h == 43 {
        (24697i64, -18950i64)
    } else if h == 44 {
        (26959i64, -15565i64)
    } else if h == 45 {
        (28760i64, -11913i64)
    } else if h == 46 {
        (30069i64, -8057i64)
    } else if h == 47 {
        (30863i64, -4063i64)
    } else {
        (0i64, 0i64)
    }
}

pub fn off_vec(h: u8) -> (r: (i64, i64))
    ensures
        r == spec_off_vec(h),
{
    if h == 0 {
        (31130i64, 0i64)
    } else if h == 1 {
        (30863i64, 4063i64)
    } else if h == 2 {
        (30069i64, 8057i64)
    } else if h == 3 {
        (28760i64, 11913i64)
    } else if h == 4 {
        (26959i64, 15565i64)
    } else if h == 5 {
        (24697i64, 18950i64)
    } else if h == 6 {
        (22012i64, 22012i64)
    } else if h == 7 {
        (18950i64, 24697i64)
    } else if h == 8 {
        (15565i64, 26959i64)
    } else if h == 9 {
        (11913i64, 28760i64)
    } else if h == 10 {
        (8057i64, 30069i64)
    } else if h == 11 {
        (4063i64, 30863i64)
    } else if h == 12 {
        (0i64, 31130i64)
    } else if h == 13 {
        (-4063i64, 30863i64)
    } else if h == 14 {
        (-8057i64, 30069i64)
    } else if h == 15 {
        (-11913i64, 28760i64)
    } else if h == 16 {
        (-15565i64, 26959i64)
    } else if h == 17 {
        (-18950i64, 24697i64)
    } else if h == 18 {
        (-22012i64, 22012i64)
    } else if h == 19 {
        (-24697i64, 18950i64)
    } else if h == 20 {
        (-26959i64, 15565i64)
    } else if h == 21 {
        (-28760i64, 11913i64)
    } else if h == 22 {
        (-30069i64, 8057i64)
    } else if h == 23 {
        (-30863i64, 4063i64)
    } else if h == 24 {
        (-31130i64, 0i64)
    } else if h == 25 {
        (-30863i64, -4063i64)
    } else if h == 26 {
        (-30069i64, -8057i64)
    } else if h == 27 {
        (-28760i64, -11913i64)
    } else if h == 28 {
        (-26959i64, -15565i64)
    } else if h == 29 {
        (-24697i64, -18950i64)
    } else if h == 30 {
        (-22012i64, -22012i64)
    } else if h == 31 {
        (-18950i64, -24697i64)
    } else if h == 32 {
        (-15565i64, -26959i64)
    } else if h == 33 {
        (-11913i64, -28760i64)
    } else if h == 34 {
        (-8057i64, -30069i64)
    } else if h == 35 {
        (-4063i64, -30863i64)
    } else if h == 36 {
        (0i64, -31130i64)
    } else if h == 37 {
        (4063i64, -30863i64)
    } else if h == 38 {
        (8057i64, -30069i64)
    } else if h == 39 {
        (11913i64, -28760i64)
    } else if h == 40 {
        (15565i64, -26959i64)
    } else if h == 41 {
        (18950i64, -24697i64)
    } else if h == 42 {
        (22012i64, -22012i64)
    } else if h == 43 {
        (24697i64, -18950i64)
    } else if h == 44 {
        (26959i64, -15565i64)
    } else if h == 45 {
        (28760i64, -11913i64)
    } else if h == 46 {
        (30069i64, -8057i64)
    } else if h == 47 {
        (30863i64, -4063i64)
    } else {
        (0i64, 0i64)
    }
}

pub proof fn lemma_step_vec_bounds(h: u8)
    ensures
        -MAX_STEP <= spec_step_vec(h).0 <= MAX_STEP,
        -MAX_STEP <= spec_step_vec(h).1 <= MAX_STEP,
{
}

pub proof fn lemma_off_vec_bounds(h: u8)
    ensures
        -MAX_OFF <= spec_off_vec(h).0 <= MAX_OFF,
        -MAX_OFF <= spec_off_vec(h).1 <= MAX_OFF,
{
}

/// A fresh trail segment sits at or outside its owner's collision radius:
/// the squared spawn-offset length is never below `COLLIDE_DIST_SQ`.  This
/// is what keeps a just-spawned segment from eliminating its own spawner in
/// the same tick.
pub proof fn lemma_spawn_offset_clear(h: u8)
    requires
        h < TURN_STEPS,
    ensures
        spec_off_vec(h).0 * spec_off_vec(h).0 + spec_off_vec(h).1 * spec_off_vec(h).1
            >= COLLIDE_DIST_SQ,
{
        if h == 0 {
            assert(spec_off_vec(h).0 * spec_off_vec(h).0 + spec_off_vec(h).1 * spec_off_vec(h).1 >= COLLIDE_DIST_SQ);
        } else if h == 1 {
            assert(spec_off_vec(h).0 * spec_off_vec(h).0 + spec_off_vec(h).1 * spec_off_vec(h).1 >= COLLIDE_DIST_SQ);
        } else if h == 2 {
            assert(spec_off_vec(h).0 * spec_off_vec(h).0 + spec_off_vec(h).1 * spec_off_vec(h).1 >= COLLIDE_DIST_SQ);
        } else if h == 3 {
            assert(spec_off_vec(h).0 * spec_off_vec(h).0 + spec_off_vec(h).1 * spec_off_vec(h).1 >= COLLIDE_DIST_SQ);
        } else if h == 4 {
            assert(spec_off_vec(h).0 * spec_off_vec(h).0 + spec_off_vec(h).1 * spec_off_vec(h).1 >= COLLIDE_DIST_SQ);
        } else if h == 5 {
            assert(spec_off_vec(h).0 * spec_off_vec(h).0 + spec_off_vec(h).1 * spec_off_vec(h).1 >= COLLIDE_DIST_SQ);
        } else if h == 6 {
            assert(spec_off_vec(h).0 * spec_off_vec(h).0 + spec_off_vec(h).1 * spec_off_vec(h).1 >= COLLIDE_DIST_SQ);
        } else if h == 7 {
            assert(spec_off_vec(h).0 * spec_off_vec(h).0 + spec_off_vec(h).1 * spec_off_vec(h).1 >= COLLIDE_DIST_SQ);
        } else if h == 8 {
            assert(spec_off_vec(h).0 * spec_off_vec(h).0 + spec_off_vec(h).1 * spec_off_vec(h).1 >= COLLIDE_DIST_SQ);
        } else if h == 9 {
            assert(spec_off_vec(h).0 * spec_off_vec(h).0 + spec_off_vec(h).1 * spec_off_vec(h).1 >= COLLIDE_DIST_SQ);
        } else if h == 10 {
            assert(spec_off_vec(h).0 * spec_off_vec(h).0 + spec_off_vec(h).1 * spec_off_vec(h).1 >= COLLIDE_DIST_SQ);
        } else if h == 11 {
            assert(spec_off_vec(h).0 * spec_off_vec(h).0 + spec_off_vec(h).1 * spec_off_vec(h).1 >= COLLIDE_DIST_SQ);
        } else if h == 12 {
            assert(spec_off_vec(h).0 * spec_off_vec(h).0 + spec_off_vec(h).1 * spec_off_vec(h).1 >= COLLIDE_DIST_SQ);
        } else if h == 13 {
            assert(spec_off_vec(h).0 * spec_off_vec(h).0 + spec_off_vec(h).1 * spec_off_vec(h).1 >= COLLIDE_DIST_SQ);
        } else if h == 14 {
            assert(spec_off_vec(h).0 * spec_off_vec(h).0 + spec_off_vec(h).1 * spec_off_vec(h).1 >= COLLIDE_DIST_SQ);
        } else if h == 15 {
            assert(spec_off_vec(h).0 * spec_off_vec(h).0 + spec_off_vec(h).1 * spec_off_vec(h).1 >= COLLIDE_DIST_SQ);
        } else if h == 16 {
            assert(spec_off_vec(h).0 * spec_off_vec(h).0 + spec_off_vec(h).1 * spec_off_vec(h).1 >= COLLIDE_DIST_SQ);
        } else if h == 17 {
            assert(spec_off_vec(h).0 * spec_off_vec(h).0 + spec_off_vec(h).1 * spec_off_vec(h).1 >= COLLIDE_DIST_SQ);
        } else if h == 18 {
            assert(spec_off_vec(h).0 * spec_off_vec(h).0 + spec_off_vec(h).1 * spec_off_vec(h).1 >= COLLIDE_DIST_SQ);
        } else if h == 19 {
            assert(spec_off_vec(h).0 * spec_off_vec(h).0 + spec_off_vec(h).1 * spec_off_vec(h).1 >= COLLIDE_DIST_SQ);
        } else if h == 20 {
            assert(spec_off_vec(h).0 * spec_off_vec(h).0 + spec_off_vec(h).1 * spec_off_vec(h).1 >= COLLIDE_DIST_SQ);
        } else if h == 21 {
            assert(spec_off_vec(h).0 * spec_off_vec(h).0 + spec_off_vec(h).1 * spec_off_vec(h).1 >= COLLIDE_DIST_SQ);
        } else if h == 22 {
            assert(spec_off_vec(h).0 * spec_off_vec(h).0 + spec_off_vec(h).1 * spec_off_vec(h).1 >= COLLIDE_DIST_SQ);
        } else if h == 23 {
            assert(spec_off_vec(h).0 * spec_off_vec(h).0 + spec_off_vec(h).1 * spec_off_vec(h).1 >= COLLIDE_DIST_SQ);
        } else if h == 24 {
            assert(spec_off_vec(h).0 * spec_off_vec(h).0 + spec_off_vec(h).1 * spec_off_vec(h).1 >= COLLIDE_DIST_SQ);
        } else if h == 25 {
            assert(spec_off_vec(h).0 * spec_off_vec(h).0 + spec_off_vec(h).1 * spec_off_vec(h).1 >= COLLIDE_DIST_SQ);
        } else if h == 26 {
            assert(spec_off_vec(h).0 * spec_off_vec(h).0 + spec_off_vec(h).1 * spec_off_vec(h).1 >= COLLIDE_DIST_SQ);
        } else if h == 27 {
            assert(spec_off_vec(h).0 * spec_off_vec(h).0 + spec_off_vec(h).1 * spec_off_vec(h).1 >= COLLIDE_DIST_SQ);
        } else if h == 28 {
            assert(spec_off_vec(h).0 * spec_off_vec(h).0 + spec_off_vec(h).1 * spec_off_vec(h).1 >= COLLIDE_DIST_SQ);
        } else if h == 29 {
            assert(spec_off_vec(h).0 * spec_off_vec(h).0 + spec_off_vec(h).1 * spec_off_vec(h).1 >= COLLIDE_DIST_SQ);
        } else if h == 30 {
            assert(spec_off_vec(h).0 * spec_off_vec(h).0 + spec_off_vec(h).1 * spec_off_vec(h).1 >= COLLIDE_DIST_SQ);
        } else if h == 31 {
            assert(spec_off_vec(h).0 * spec_off_vec(h).0 + spec_off_vec(h).1 * spec_off_vec(h).1 >= COLLIDE_DIST_SQ);
        } else if h == 32 {
            assert(spec_off_vec(h).0 * spec_off_vec(h).0 + spec_off_vec(h).1 * spec_off_vec(h).1 >= COLLIDE_DIST_SQ);
        } else if h == 33 {
            assert(spec_off_vec(h).0 * spec_off_vec(h).0 + spec_off_vec(h).1 * spec_off_vec(h).1 >= COLLIDE_DIST_SQ);
        } else if h == 34 {
            assert(spec_off_vec(h).0 * spec_off_vec(h).0 + spec_off_vec(h).1 * spec_off_vec(h).1 >= COLLIDE_DIST_SQ);
        } else if h == 35 {
            assert(spec_off_vec(h).0 * spec_off_vec(h).0 + spec_off_vec(h).1 * spec_off_vec(h).1 >= COLLIDE_DIST_SQ);
        } else if h == 36 {
            assert(spec_off_vec(h).0 * spec_off_vec(h).0 + spec_off_vec(h).1 * spec_off_vec(h).1 >= COLLIDE_DIST_SQ);
        } else if h == 37 {
            assert(spec_off_vec(h).0 * spec_off_vec(h).0 + spec_off_vec(h).1 * spec_off_vec(h).1 >= COLLIDE_DIST_SQ);
        } else if h == 38 {
            assert(spec_off_vec(h).0 * spec_off_vec(h).0 + spec_off_vec(h).1 * spec_off_vec(h).1 >= COLLIDE_DIST_SQ);
        } else if h == 39 {
            assert(spec_off_vec(h).0 * spec_off_vec(h).0 + spec_off_vec(h).1 * spec_off_vec(h).1 >= COLLIDE_DIST_SQ);
        } else if h == 40 {
            assert(spec_off_vec(h).0 * spec_off_vec(h).0 + spec_off_vec(h).1 * spec_off_vec(h).1 >= COLLIDE_DIST_SQ);
        } else if h == 41 {
            assert(spec_off_vec(h).0 * spec_off_vec(h).0 + spec_off_vec(h).1 * spec_off_vec(h).1 >= COLLIDE_DIST_SQ);
        } else if h == 42 {
            assert(spec_off_vec(h).0 * spec_off_vec(h).0 + spec_off_vec(h).1 * spec_off_vec(h).1 >= COLLIDE_DIST_SQ);
        } else if h == 43 {
            assert(spec_off_vec(h).0 * spec_off_vec(h).0 + spec_off_vec(h).1 * spec_off_vec(h).1 >= COLLIDE_DIST_SQ);
        } else if h == 44 {
            assert(spec_off_vec(h).0 * spec_off_vec(h).0 + spec_off_vec(h).1 * spec_off_vec(h).1 >= COLLIDE_DIST_SQ);
        } else if h == 45 {
            assert(spec_off_vec(h).0 * spec_off_vec(h).0 + spec_off_vec(h).1 * spec_off_vec(h).1 >= COLLIDE_DIST_SQ);
        } else if h == 46 {
            assert(spec_off_vec(h).0 * spec_off_vec(h).0 + spec_off_vec(h).1 * spec_off_vec(h).1 >= COLLIDE_DIST_SQ);
        } else if h == 47 {
            assert(spec_off_vec(h).0 * spec_off_vec(h).0 + spec_off_vec(h).1 * spec_off_vec(h).1 >= COLLIDE_DIST_SQ);
        }
}

// ---- per-player pass specifications ----

/// Rotate: one heading step counter-clockwise for left, clockwise for
/// right, none when both or neither flag is set.  Eliminated players are
/// frozen.
pub open spec fn spec_rotate_one(p: PlayerState, input: u8) -> PlayerState {
    if !p.alive {
        p
    } else {
        let t = spec_turn(input);
        let h = if t == 1 {
            if p.heading == TURN_STEPS - 1 {
                0u8
            } else {
                (p.heading + 1) as u8
            }
        } else if t == -1 {
            if p.heading == 0 {
                (TURN_STEPS - 1) as u8
            } else {
                (p.heading - 1) as u8
            }
        } else {
            p.heading
        };
        PlayerState { heading: h, ..p }
    }
}

/// Advance: move along the heading by the per-tick delta, doubled while
/// dashing.  Eliminated players are frozen.
pub open spec fn spec_move_one(p: PlayerState, input: u8) -> PlayerState {
    if !p.alive {
        p
    } else {
        let m = spec_speed_mult(input);
        PlayerState {
            x: (p.x + spec_step_vec(p.heading).0 * m) as i64,
            y: (p.y + spec_step_vec(p.heading).1 * m) as i64,
            ..p
        }
    }
}

/// Does this player's spawn timer wrap this tick (so a trail is spawned)?
pub open spec fn spec_spawns(p: PlayerState) -> bool {
    p.alive && p.spawn_timer.spec_tick().spec_finished()
}

pub open spec fn spec_tick_spawner(p: PlayerState) -> PlayerState {
    if !p.alive {
        p
    } else {
        PlayerState { spawn_timer: p.spawn_timer.spec_tick(), ..p }
    }
}

/// The trail segment a player leaves: one spawn offset behind it along its
/// heading, with a fresh death timer.
pub open spec fn spec_trail_of(p: PlayerState, owner: u8) -> TrailSeg {
    TrailSeg {
        owner: owner,
        x: (p.x - spec_off_vec(p.heading).0) as i64,
        y: (p.y - spec_off_vec(p.heading).1) as i64,
        death_timer: FrameTimer { frames_left: TRAIL_FRAMES, period: TRAIL_FRAMES },
    }
}

pub open spec fn spec_tick_trail(t: TrailSeg) -> TrailSeg {
    TrailSeg { death_timer: t.death_timer.spec_tick(), ..t }
}

/// Decay: every trail's death timer ticks; segments whose timer wraps are
/// removed, the rest keep their order.
pub open spec fn spec_decay_seq(ts: Seq<TrailSeg>) -> Seq<TrailSeg>
    decreases ts.len(),
{
    if ts.len() == 0 {
        Seq::empty()
    } else {
        let rest = spec_decay_seq(ts.drop_last());
        let t2 = spec_tick_trail(ts.last());
        if t2.death_timer.spec_finished() {
            rest
        } else {
            rest.push(t2)
        }
    }
}

pub open spec fn spec_out_of_bounds(p: PlayerState) -> bool {
    p.x * p.x + p.y * p.y > ARENA_RADIUS_SQ
}

/// Boundary elimination: a living player strictly outside the arena radius
/// is eliminated (flagged, not removed).
pub open spec fn spec_border_one(p: PlayerState) -> PlayerState {
    if p.alive && spec_out_of_bounds(p) {
        PlayerState { alive: false, ..p }
    } else {
        p
    }
}

pub open spec fn spec_hits(p: PlayerState, t: TrailSeg) -> bool {
    (p.x - t.x) * (p.x - t.x) + (p.y - t.y) * (p.y - t.y) < COLLIDE_DIST_SQ
}

pub open spec fn spec_hits_any(p: PlayerState, ts: Seq<TrailSeg>) -> bool {
    exists|i: int| 0 <= i < ts.len() && spec_hits(p, #[trigger] ts[i])
}

/// Trail-collision elimination: a living player strictly inside the
/// sum-of-radii threshold of any trail segment is eliminated.
pub open spec fn spec_collide_one(p: PlayerState, ts: Seq<TrailSeg>) -> PlayerState {
    if p.alive && spec_hits_any(p, ts) {
        PlayerState { alive: false, ..p }
    } else {
        p
    }
}

// ---- whole-world pass specifications ----

pub open spec fn spec_rotate(m: WorldM, input0: u8, input1: u8) -> WorldM {
    WorldM { p0: spec_rotate_one(m.p0, input0), p1: spec_rotate_one(m.p1, input1), ..m }
}

pub open spec fn spec_move(m: WorldM, input0: u8, input1: u8) -> WorldM {
    WorldM { p0: spec_move_one(m.p0, input0), p1: spec_move_one(m.p1, input1), ..m }
}

/// Trail spawn: tick both spawn timers; wrapping players append a segment,
/// player 0's first.
pub open spec fn spec_spawn(m: WorldM) -> WorldM {
    let ts0 = if spec_spawns(m.p0) {
        m.trails.push(spec_trail_of(m.p0, 0u8))
    } else {
        m.trails
    };
    let ts1 = if spec_spawns(m.p1) {
        ts0.push(spec_trail_of(m.p1, 1u8))
    } else {
        ts0
    };
    WorldM { p0: spec_tick_spawner(m.p0), p1: spec_tick_spawner(m.p1), trails: ts1 }
}

pub open spec fn spec_decay(m: WorldM) -> WorldM {
    WorldM { trails: spec_decay_seq(m.trails), ..m }
}

pub open spec fn spec_border(m: WorldM) -> WorldM {
    WorldM { p0: spec_border_one(m.p0), p1: spec_border_one(m.p1), ..m }
}

pub open spec fn spec_collide(m: WorldM) -> WorldM {
    WorldM {
        p0: spec_collide_one(m.p0, m.trails),
        p1: spec_collide_one(m.p1, m.trails),
        ..m
    }
}

/// One full simulation tick: the six passes in their fixed order.
pub open spec fn spec_step(m: WorldM, input0: u8, input1: u8) -> WorldM {
    spec_collide(
        spec_border(spec_decay(spec_spawn(spec_move(spec_rotate(m, input0, input1), input0, input1)))),
    )
}

// ---- executable passes ----

fn rotate_one(p: PlayerState, input: u8) -> (r: PlayerState)
    requires
        p.wf(),
    ensures
        r == spec_rotate_one(p, input),
        r.wf(),
{
    if !p.alive {
        return p;
    }
    let left: bool = input & INPUT_LEFT != 0;
    let right: bool = input & INPUT_RIGHT != 0;
    let mut h: u8 = p.heading;
    if left && !right {
        h = if h == TURN_STEPS - 1 {
            0
        } else {
            h + 1
        };
    } else if right && !left {
        h = if h == 0 {
            TURN_STEPS - 1
        } else {
            h - 1
        };
    }
    PlayerState { heading: h, ..p }
}

fn move_one(p: PlayerState, input: u8) -> (r: PlayerState)
    requires
        p.wf(),
    ensures
        r == spec_move_one(p, input),
        r.wf_dyn(),
        r.alive == p.alive,
{
    if !p.alive {
        return p;
    }
    let (sx, sy): (i64, i64) = step_vec(p.heading);
    let m: i64 = if input & INPUT_DASH != 0 {
        2
    } else {
        1
    };
    proof {
        lemma_step_vec_bounds(p.heading);
        assert(-2 * MAX_STEP <= sx * m <= 2 * MAX_STEP) by (nonlinear_arith)
            requires
                -MAX_STEP <= sx <= MAX_STEP,
                1 <= m <= 2,
        ;
        assert(-2 * MAX_STEP <= sy * m <= 2 * MAX_STEP) by (nonlinear_arith)
            requires
                -MAX_STEP <= sy <= MAX_STEP,
                1 <= m <= 2,
        ;
        assert(-ARENA_RADIUS <= p.x <= ARENA_RADIUS && -ARENA_RADIUS <= p.y <= ARENA_RADIUS)
            by (nonlinear_arith)
            requires
                p.x * p.x + p.y * p.y <= ARENA_RADIUS_SQ,
        ;
    }
    PlayerState { x: p.x + sx * m, y: p.y + sy * m, ..p }
}

fn make_trail(p: PlayerState, owner: u8) -> (t: TrailSeg)
    requires
        p.wf_dyn(),
    ensures
        t == spec_trail_of(p, owner),
        t.wf(),
{
    let (ox, oy): (i64, i64) = off_vec(p.heading);
    proof {
        lemma_off_vec_bounds(p.heading);
    }
    TrailSeg { owner: owner, x: p.x - ox, y: p.y - oy, death_timer: FrameTimer::new(TRAIL_FRAMES) }
}

/// Rotate pass over both players.
pub fn rotate_players(w: &mut World, input0: u8, input1: u8)
    requires
        old(w)@.wf(),
    ensures
        final(w)@ == spec_rotate(old(w)@, input0, input1),
        final(w)@.wf(),
{
    w.p0 = rotate_one(w.p0, input0);
    w.p1 = rotate_one(w.p1, input1);
    proof {
        assert(w@.trails == old(w)@.trails);
        assert(w@.p0.wf());
        assert(w@.p1.wf());
        assert(w@.trails_wf());
    }
}

/// Advance pass over both players.
pub fn move_players_forward(w: &mut World, input0: u8, input1: u8)
    requires
        old(w)@.wf(),
    ensures
        final(w)@ == spec_move(old(w)@, input0, input1),
        final(w)@.wf_dyn(),
{
    w.p0 = move_one(w.p0, input0);
    w.p1 = move_one(w.p1, input1);
    proof {
        assert(w@.trails == old(w)@.trails);
        assert(w@.trails_wf());
    }
}

/// Trail spawn pass: each living player's spawn timer ticks; on a wrap a
/// fresh segment appears one spawn offset behind the player.
pub fn spawn_trail(w: &mut World)
    requires
        old(w)@.wf_dyn(),
    ensures
        final(w)@ == spec_spawn(old(w)@),
        final(w)@.wf_dyn(),
{
    if w.p0.alive {
        let mut t: FrameTimer = w.p0.spawn_timer;
        t.tick();
        w.p0.spawn_timer = t;
        if t.finished() {
            let tr: TrailSeg = make_trail(w.p0, 0);
            w.trails.push(tr);
        }
    }
    if w.p1.alive {
        let mut t: FrameTimer = w.p1.spawn_timer;
        t.tick();
        w.p1.spawn_timer = t;
        if t.finished() {
            let tr: TrailSeg = make_trail(w.p1, 1);
            w.trails.push(tr);
        }
    }
    proof {
        assert(final(w)@ =~= spec_spawn(old(w)@));
    }
}

/// Trail decay pass: tick every death timer, drop wrapped segments.
pub fn kill_trail(w: &mut World)
    requires
        old(w)@.wf_dyn(),
    ensures
        final(w)@ == spec_decay(old(w)@),
        final(w)@.wf_dyn(),
{
    let n: usize = w.trails.len();
    let mut out: Vec<TrailSeg> = Vec::new();
    let mut i: usize = 0;
    while i < n
        invariant
            i <= n,
            n == w.trails.len(),
            *w == *old(w),
            old(w)@.wf_dyn(),
            out@ == spec_decay_seq(w.trails@.take(i as int)),
            forall|k: int| 0 <= k < out@.len() ==> (#[trigger] out@[k]).wf(),
        decreases n - i,
    {
        let tr: TrailSeg = w.trails[i];
        proof {
            assert(w.trails@ == old(w)@.trails);
            assert(tr == old(w)@.trails[i as int]);
            assert(tr.wf());
        }
        let mut dt: FrameTimer = tr.death_timer;
        dt.tick();
        proof {
            let pre = w.trails@.take(i as int);
            let cur = w.trails@.take(i as int + 1);
            assert(cur.drop_last() =~= pre);
            assert(cur.last() == tr);
            assert(spec_decay_seq(cur) == if spec_tick_trail(tr).death_timer.spec_finished() {
                spec_decay_seq(pre)
            } else {
                spec_decay_seq(pre).push(spec_tick_trail(tr))
            });
        }
        if !dt.finished() {
            out.push(TrailSeg { death_timer: dt, ..tr });
        }
        i = i + 1;
    }
    proof {
        assert(w.trails@.take(n as int) =~= w.trails@);
    }
    w.trails = out;
    proof {
        assert(final(w)@ =~= spec_decay(old(w)@));
    }
}

fn border_one(p: PlayerState) -> (r: PlayerState)
    requires
        p.wf_dyn(),
    ensures
        r == spec_border_one(p),
        r.wf(),
{
    if p.alive {
        proof {
            assert(0 <= p.x * p.x <= POS_LIMIT * POS_LIMIT) by (nonlinear_arith)
                requires
                    -POS_LIMIT <= p.x <= POS_LIMIT,
            ;
            assert(0 <= p.y * p.y <= POS_LIMIT * POS_LIMIT) by (nonlinear_arith)
                requires
                    -POS_LIMIT <= p.y <= POS_LIMIT,
            ;
        }
        if p.x * p.x + p.y * p.y > ARENA_RADIUS_SQ {
            return PlayerState { alive: false, ..p };
        }
    }
    p
}

/// Boundary elimination pass.
pub fn border_death(w: &mut World)
    requires
        old(w)@.wf_dyn(),
    ensures
        final(w)@ == spec_border(old(w)@),
        final(w)@.wf(),
{
    w.p0 = border_one(w.p0);
    w.p1 = border_one(w.p1);
    proof {
        assert(w@.trails == old(w)@.trails);
        assert(w@.trails_wf());
    }
}

fn collide_one(p: PlayerState, trails: &Vec<TrailSeg>) -> (r: PlayerState)
    requires
        p.wf(),
        forall|k: int| 0 <= k < trails@.len() ==> (#[trigger] trails@[k]).wf(),
    ensures
        r == spec_collide_one(p, trails@),
        r.wf(),
{
    if !p.alive {
        return p;
    }
    let n: usize = trails.len();
    let mut j: usize = 0;
    while j < n
        invariant
            j <= n,
            n == trails.len(),
            p.wf(),
            p.alive,
            forall|k: int| 0 <= k < trails@.len() ==> (#[trigger] trails@[k]).wf(),
            forall|k: int| 0 <= k < j ==> !spec_hits(p, #[trigger] trails@[k]),
        decreases n - j,
    {
        let t: TrailSeg = trails[j];
        let dx: i64 = p.x - t.x;
        let dy: i64 = p.y - t.y;
        proof {
            assert(0 <= dx * dx <= 628850i64 * 628850i64) by (nonlinear_arith)
                requires
                    -628850 <= dx <= 628850,
            ;
            assert(0 <= dy * dy <= 628850i64 * 628850i64) by (nonlinear_arith)
                requires
                    -628850 <= dy <= 628850,
            ;
        }
        if dx * dx + dy * dy < COLLIDE_DIST_SQ {
            proof {
                assert(spec_hits(p, trails@[j as int]));
            }
            return PlayerState { alive: false, ..p };
        }
        j = j + 1;
    }
    proof {
        assert(!spec_hits_any(p, trails@));
    }
    p
}

/// Trail-collision elimination pass.
pub fn trail_death(w: &mut World)
    requires
        old(w)@.wf(),
    ensures
        final(w)@ == spec_collide(old(w)@),
        final(w)@.wf(),
{
    proof {
        assert(w.trails@ == old(w)@.trails);
        assert(forall|k: int|
            0 <= k < w.trails@.len() ==> (#[trigger] w.trails@[k]).wf());
    }
    let r0: PlayerState = collide_one(w.p0, &w.trails);
    let r1: PlayerState = collide_one(w.p1, &w.trails);
    w.p0 = r0;
    w.p1 = r1;
    proof {
        assert(w@.trails == old(w)@.trails);
        assert(w@.trails_wf());
    }
}

/// What one tick reported: which players were eliminated during it.
#[derive(Clone, Copy, PartialEq, Eq, Debug)]
pub struct TickEvents {
    pub eliminated0: bool,
    pub eliminated1: bool,
}

/// One full simulation tick over the world, in the fixed pass order.
/// The result is pinned exactly by `spec_step`, so two runs from equal
/// snapshots with equal input symbols are bit-identical.
pub fn step(w: &mut World, input0: u8, input1: u8) -> (ev: TickEvents)
    requires
        old(w)@.wf(),
    ensures
        final(w)@ == spec_step(old(w)@, input0, input1),
        final(w)@.wf(),
        ev.eliminated0 == (old(w)@.p0.alive && !final(w)@.p0.alive),
        ev.eliminated1 == (old(w)@.p1.alive && !final(w)@.p1.alive),
{
    let alive0: bool = w.p0.alive;
    let alive1: bool = w.p1.alive;
    rotate_players(w, input0, input1);
    move_players_forward(w, input0, input1);
    spawn_trail(w);
    kill_trail(w);
    border_death(w);
    trail_death(w);
    TickEvents { eliminated0: alive0 && !w.p0.alive, eliminated1: alive1 && !w.p1.alive }
}

impl World {
    /// The initial arena: both players alive, player 0 at (-1, 0) facing
    /// along -x, player 1 at (1, 0) facing along +x, spawn timers fresh, no
    /// trails.
    pub fn new() -> (w: World)
        ensures
            w@ == spec_initial_world(),
            w@.wf(),
    {
        let w = World {
            p0: PlayerState {
                alive: true,
                x: -FX_ONE,
                y: 0,
                heading: TURN_STEPS / 2,
                spawn_timer: FrameTimer::new(SPAWN_PERIOD),
            },
            p1: PlayerState {
                alive: true,
                x: FX_ONE,
                y: 0,
                heading: 0,
                spawn_timer: FrameTimer::new(SPAWN_PERIOD),
            },
            trails: Vec::new(),
        };
        proof {
            assert(w@ =~= spec_initial_world());
        }
        w
    }
}

pub open spec fn spec_initial_world() -> WorldM {
    WorldM {
        p0: PlayerState {
            alive: true,
            x: (-FX_ONE) as i64,
            y: 0,
            heading: (TURN_STEPS / 2) as u8,
            spawn_timer: FrameTimer { frames_left: SPAWN_PERIOD, period: SPAWN_PERIOD },
        },
        p1: PlayerState {
            alive: true,
            x: FX_ONE,
            y: 0,
            heading: 0u8,
            spawn_timer: FrameTimer { frames_left: SPAWN_PERIOD, period: SPAWN_PERIOD },
        },
        trails: Seq::empty(),
    }
}

/// Law (determinism, one tick): the tick is a function of the snapshot and
/// the two input symbols alone — equal snapshots under equal inputs give
/// bit-identical results.
pub proof fn lemma_step_deterministic(a: WorldM, b: WorldM, input0: u8, input1: u8)
    requires
        a == b,
    ensures
        spec_step(a, input0, input1) == spec_step(b, input0, input1),
{
}

/// Law (elimination idempotence, one tick): an eliminated player is frozen;
/// in particular the tick reports no elimination event for it, since an
/// event needs the player alive when the tick began.
pub proof fn lemma_eliminated_frozen(m: WorldM, input0: u8, input1: u8)
    ensures
        !m.p0.alive ==> spec_step(m, input0, input1).p0 == m.p0,
        !m.p1.alive ==> spec_step(m, input0, input1).p1 == m.p1,
{
}

/// A deep, independently owned copy of a world snapshot: value semantics,
/// no aliasing with the source.
pub fn clone_world(w: &World) -> (r: World)
    ensures
        r@ == w@,
{
    let n: usize = w.trails.len();
    let mut ts: Vec<TrailSeg> = Vec::new();
    let mut i: usize = 0;
    while i < n
        invariant
            i <= n,
            n == w.trails.len(),
            ts@ == w.trails@.take(i as int),
        decreases n - i,
    {
        ts.push(w.trails[i]);
        proof {
            assert(w.trails@.take(i as int + 1) =~= w.trails@.take(i as int).push(
                w.trails@[i as int],
            ));
        }
        i = i + 1;
    }
    proof {
        assert(w.trails@.take(n as int) =~= w.trails@);
    }
    let r = World { p0: w.p0, p1: w.p1, trails: ts };
    proof {
        assert(r@ =~= w@);
    }
    r
}

} // verus!
