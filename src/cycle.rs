use vstd::prelude::*;
use std::collections::VecDeque;
use crate::geometry::{
    Point, Direction, advance, in_arena, near, opposite, point_in_arena, points_near,
    step_point, BOOST_SPEED, COLLISION_RADIUS, CRUISE_SPEED, SAMPLE_SPACING,
};

verus! {

/// The most points a trail retains; older points are evicted first.
pub const TRAIL_MAX_LENGTH: usize = 15000;

/// The newest points of its own trail that a vehicle ignores when testing for collisions.
pub const SELF_EXCLUSION: usize = 10;

/// Full boost energy, in twelfths of a point (100 points).
pub const MAX_BOOST_ENERGY: u32 = 1200;

/// Energy drained per tick while boosting (40 points per second).
pub const BOOST_DRAIN_PER_TICK: u32 = 8;

/// Energy recharged per tick while not boosting (15 points per second).
pub const BOOST_RECHARGE_PER_TICK: u32 = 3;

/// Ticks per second of simulated time.
pub const TICKS_PER_SECOND: u32 = 60;

/// A human may start boosting only with more energy than this (10 points).
pub const HUMAN_BOOST_MIN: u32 = 120;

/// Who steers a vehicle.
#[derive(Clone, Copy, Debug, PartialEq, Eq, Structural)]
pub enum PlayerType {
    Human,
    Computer,
}

/// The three presets of the autonomous driver.
#[derive(Clone, Copy, Debug, PartialEq, Eq, Structural)]
pub enum AiDifficulty {
    Easy,
    Medium,
    Hard,
}

/// The keys that the game reacts to; every other key is `Other`.
#[derive(Clone, Copy, Debug, PartialEq, Eq, Structural)]
pub enum Key {
    W,
    A,
    S,
    D,
    LShift,
    Up,
    Down,
    Left,
    Right,
    RShift,
    P,
    Escape,
    Key1,
    Key2,
    Other,
}

/// The four directional keys of a human player.
#[derive(Clone, Copy, Debug, PartialEq, Eq, Structural)]
pub struct Binding {
    pub up: Key,
    pub down: Key,
    pub left: Key,
    pub right: Key,
}

/// A colour identity, as red, green and blue.
#[derive(Clone, Copy, Debug, PartialEq, Eq, Structural)]
pub struct Rgb {
    pub r: u8,
    pub g: u8,
    pub b: u8,
}

/// One vehicle of the arena.
pub struct LightCycle {
    pub position: Point,
    pub direction: Direction,
    pub trail: VecDeque<Point>,
    pub color: Rgb,
    pub alive: bool,
    pub player_type: PlayerType,
    pub controls: Option<Binding>,
    pub boost_energy: u32,
    pub is_boosting: bool,
    pub boost_key: Option<Key>,
    pub ai_difficulty: AiDifficulty,
}

/// The mathematical value of a `LightCycle`: its trail as a sequence.
pub struct CycleModel {
    pub position: Point,
    pub direction: Direction,
    pub trail: Seq<Point>,
    pub color: Rgb,
    pub alive: bool,
    pub player_type: PlayerType,
    pub controls: Option<Binding>,
    pub boost_energy: u32,
    pub is_boosting: bool,
    pub boost_key: Option<Key>,
    pub ai_difficulty: AiDifficulty,
}

impl View for LightCycle {
    type V = CycleModel;

    open spec fn view(&self) -> CycleModel {
        CycleModel {
            position: self.position,
            direction: self.direction,
            trail: self.trail@,
            color: self.color,
            alive: self.alive,
            player_type: self.player_type,
            controls: self.controls,
            boost_energy: self.boost_energy,
            is_boosting: self.is_boosting,
            boost_key: self.boost_key,
            ai_difficulty: self.ai_difficulty,
        }
    }
}

/// The invariant of a vehicle.
pub open spec fn cycle_wf(m: CycleModel) -> bool {
    &&& m.boost_energy <= MAX_BOOST_ENERGY
    &&& m.is_boosting ==> m.boost_energy > 0
    &&& m.alive ==> in_arena(m.position)
    &&& m.trail.len() <= TRAIL_MAX_LENGTH
}

/// The trails of a snapshot, as sequences.
pub open spec fn trails_view(t: Seq<VecDeque<Point>>) -> Seq<Seq<Point>> {
    Seq::new(t.len(), |i: int| t[i]@)
}

/// Energy after one tick.
pub open spec fn next_energy(e: int, boosting: bool) -> int {
    if boosting && e > 0 {
        if e > BOOST_DRAIN_PER_TICK { e - BOOST_DRAIN_PER_TICK } else { 0 }
    } else if !boosting && e < MAX_BOOST_ENERGY {
        if e + BOOST_RECHARGE_PER_TICK < MAX_BOOST_ENERGY {
            e + BOOST_RECHARGE_PER_TICK
        } else {
            MAX_BOOST_ENERGY as int
        }
    } else {
        e
    }
}

/// Boosting after one tick: it switches off when the energy runs out.
pub open spec fn next_boosting(e: int, boosting: bool) -> bool {
    if boosting && e > 0 { next_energy(e, boosting) != 0 } else { boosting }
}

pub open spec fn speed_of(boosting: bool) -> int {
    if boosting { BOOST_SPEED as int } else { CRUISE_SPEED as int }
}

/// Number of intervals a move of `speed` is cut into: no interval exceeds `SAMPLE_SPACING`.
pub open spec fn sample_steps(speed: int) -> int {
    (speed + SAMPLE_SPACING - 1) / SAMPLE_SPACING as int
}

/// The evenly spaced samples of a move of `speed` from `p` along `d`, both ends included.
pub open spec fn segment(p: Point, d: Direction, speed: int) -> Seq<Point> {
    Seq::new(
        (sample_steps(speed) + 1) as nat,
        |i: int| advance(p, d, speed * i / sample_steps(speed)),
    )
}

/// `s` with its oldest points evicted down to `TRAIL_MAX_LENGTH`.
pub open spec fn bounded(s: Seq<Point>) -> Seq<Point> {
    if s.len() > TRAIL_MAX_LENGTH {
        s.subrange(s.len() - TRAIL_MAX_LENGTH, s.len() as int)
    } else {
        s
    }
}

/// How many of the oldest points of trail `i` are tested against a vehicle at slot `own`.
pub open spec fn check_len(trails: Seq<Seq<Point>>, i: int, own: int) -> int {
    if i == own {
        if trails[i].len() >= SELF_EXCLUSION { trails[i].len() - SELF_EXCLUSION } else { 0 }
    } else {
        trails[i].len() as int
    }
}

/// A vehicle at slot `own` standing at `p` touches a trail of the snapshot.
pub open spec fn hits_trail(p: Point, trails: Seq<Seq<Point>>, own: int) -> bool {
    exists|i: int, j: int|
        0 <= i < trails.len() && 0 <= j < check_len(trails, i, own) && #[trigger] near(
            p,
            trails[i][j],
            COLLISION_RADIUS as int,
        )
}

/// A vehicle after one physics tick against a snapshot; a dead one is unchanged.
pub open spec fn after_physics(m: CycleModel, trails: Seq<Seq<Point>>, own: int) -> CycleModel {
    if !m.alive {
        m
    } else {
        let e = next_energy(m.boost_energy as int, m.is_boosting);
        let b = next_boosting(m.boost_energy as int, m.is_boosting);
        let np = advance(m.position, m.direction, speed_of(b));
        CycleModel {
            position: np,
            trail: bounded(m.trail + segment(m.position, m.direction, speed_of(b))),
            alive: in_arena(np) && !hits_trail(np, trails, own),
            boost_energy: e as u32,
            is_boosting: b,
            ..m
        }
    }
}

/// The heading that `key` selects under `c`, if any (earlier fields take precedence).
pub open spec fn heading_for(c: Binding, key: Key) -> Option<Direction> {
    if key == c.up {
        Some(Direction::Up)
    } else if key == c.down {
        Some(Direction::Down)
    } else if key == c.left {
        Some(Direction::Left)
    } else if key == c.right {
        Some(Direction::Right)
    } else {
        None
    }
}

/// A human vehicle after a key event; any other vehicle is unchanged.
pub open spec fn after_input(m: CycleModel, key: Key, pressed: bool) -> CycleModel {
    if !m.alive || m.player_type != PlayerType::Human {
        m
    } else {
        let b = if m.boost_key == Some(key) {
            pressed && m.boost_energy > HUMAN_BOOST_MIN
        } else {
            m.is_boosting
        };
        let d = if pressed && m.controls is Some && heading_for(m.controls->0, key) is Some
            && !opposite(heading_for(m.controls->0, key)->0, m.direction) {
            heading_for(m.controls->0, key)->0
        } else {
            m.direction
        };
        CycleModel { direction: d, is_boosting: b, ..m }
    }
}

impl LightCycle {
    /// A living vehicle at `(x, y)` with an empty trail and full energy.
    pub fn new(
        x: i32,
        y: i32,
        direction: Direction,
        color: Rgb,
        player_type: PlayerType,
        controls: Option<Binding>,
        boost_key: Option<Key>,
        ai_difficulty: AiDifficulty,
    ) -> (r: LightCycle)
        requires
            in_arena(Point { x, y }),
        ensures
            r@ == (CycleModel {
                position: Point { x, y },
                direction,
                trail: Seq::empty(),
                color,
                alive: true,
                player_type,
                controls,
                boost_energy: MAX_BOOST_ENERGY,
                is_boosting: false,
                boost_key,
                ai_difficulty,
            }),
            cycle_wf(r@),
    {
        LightCycle {
            position: Point { x, y },
            direction,
            trail: VecDeque::new(),
            color,
            alive: true,
            player_type,
            controls,
            boost_energy: MAX_BOOST_ENERGY,
            is_boosting: false,
            boost_key,
            ai_difficulty,
        }
    }

    /// Advances the vehicle by one tick: energy, movement, trail, then collisions
    /// against `all_trails`, the snapshot taken before the tick (`own_index` is this
    /// vehicle's slot in it). A dead vehicle is left as it is.
    pub fn update(&mut self, all_trails: &[VecDeque<Point>], own_index: usize)
        requires
            cycle_wf(old(self)@),
        ensures
            final(self)@ == after_physics(old(self)@, trails_view(all_trails@), own_index as int),
            cycle_wf(final(self)@),
    {
        if !self.alive {
            return;
        }
        let ghost m = self@;
        if self.is_boosting && self.boost_energy > 0 {
            if self.boost_energy > BOOST_DRAIN_PER_TICK {
                self.boost_energy = self.boost_energy - BOOST_DRAIN_PER_TICK;
            } else {
                self.boost_energy = 0;
            }
            if self.boost_energy == 0 {
                self.is_boosting = false;
            }
        } else if !self.is_boosting && self.boost_energy < MAX_BOOST_ENERGY {
            if self.boost_energy + BOOST_RECHARGE_PER_TICK < MAX_BOOST_ENERGY {
                self.boost_energy = self.boost_energy + BOOST_RECHARGE_PER_TICK;
            } else {
                self.boost_energy = MAX_BOOST_ENERGY;
            }
        }
        let speed: i32 = if self.is_boosting { BOOST_SPEED } else { CRUISE_SPEED };
        let old_pos = self.position;
        self.position = step_point(old_pos, self.direction, speed);
        self.extend_trail(old_pos, speed);
        assert(self.trail@ == bounded(m.trail + segment(m.position, m.direction, speed as int)));

        if !point_in_arena(self.position) {
            self.alive = false;
            return;
        }
        if touches_trail(self.position, all_trails, own_index) {
            self.alive = false;
        }
    }

    /// Applies a key event of a human player: the boost key holds boost while pressed
    /// (given enough energy), and a directional key turns on press unless it asks for
    /// the exact opposite heading. Anything else, and any key for a dead or computer
    /// vehicle, changes nothing.
    pub fn handle_input(&mut self, keycode: Key, pressed: bool)
        requires
            cycle_wf(old(self)@),
        ensures
            final(self)@ == after_input(old(self)@, keycode, pressed),
            cycle_wf(final(self)@),
            !opposite(final(self).direction, old(self).direction),
    {
        if !self.alive || self.player_type != PlayerType::Human {
            return;
        }
        if let Some(boost_key) = self.boost_key {
            if keycode == boost_key {
                if pressed && self.boost_energy > HUMAN_BOOST_MIN {
                    self.is_boosting = true;
                } else {
                    self.is_boosting = false;
                }
            }
        }
        if pressed {
            if let Some(c) = self.controls {
                let new_direction = if keycode == c.up {
                    Some(Direction::Up)
                } else if keycode == c.down {
                    Some(Direction::Down)
                } else if keycode == c.left {
                    Some(Direction::Left)
                } else if keycode == c.right {
                    Some(Direction::Right)
                } else {
                    None
                };
                if let Some(dir) = new_direction {
                    if !dir.is_opposite(&self.direction) {
                        self.direction = dir;
                    }
                }
            }
        }
    }

    /// Appends the samples of the move just made from `from`, then evicts the oldest points.
    fn extend_trail(&mut self, from: Point, speed: i32)
        requires
            in_arena(from),
            speed == CRUISE_SPEED || speed == BOOST_SPEED,
            old(self).trail@.len() <= TRAIL_MAX_LENGTH,
        ensures
            final(self).trail@ == bounded(
                old(self).trail@ + segment(from, old(self).direction, speed as int),
            ),
            final(self).trail@.len() <= TRAIL_MAX_LENGTH,
            final(self)@ == (CycleModel { trail: final(self).trail@, ..old(self)@ }),
    {
        let steps: i32 = (speed + SAMPLE_SPACING - 1) / SAMPLE_SPACING;
        let ghost seg = segment(from, self.direction, speed as int);
        let ghost start = self.trail@;
        let mut i: i32 = 0;
        while i <= steps
            invariant
                0 <= i <= steps + 1,
                steps == sample_steps(speed as int),
                1 <= steps <= 3,
                in_arena(from),
                speed == CRUISE_SPEED || speed == BOOST_SPEED,
                seg == segment(from, self.direction, speed as int),
                self.trail@ == start + seg.take(i as int),
                self@ == (CycleModel { trail: self.trail@, ..old(self)@ }),
                start == old(self).trail@,
            decreases steps + 1 - i,
        {
            let offset: i32 = speed * i / steps;
            assert(0 <= offset <= speed) by (nonlinear_arith)
                requires
                    offset as int == (speed as int) * (i as int) / (steps as int),
                    0 <= i <= steps,
                    1 <= steps,
                    0 <= speed,
            ;
            let p = step_point(from, self.direction, offset);
            self.trail.push_back(p);
            assert(seg.take(i + 1) == seg.take(i as int).push(seg[i as int]));
            i = i + 1;
        }
        assert(seg.take(i as int) == seg);
        let ghost full = self.trail@;
        while self.trail.len() > TRAIL_MAX_LENGTH
            invariant
                full.len() <= TRAIL_MAX_LENGTH + 4,
                self.trail@.len() <= full.len(),
                self.trail@.len() >= TRAIL_MAX_LENGTH || self.trail@ == full,
                self.trail@ == full.subrange(full.len() - self.trail@.len(), full.len() as int),
                self@ == (CycleModel { trail: self.trail@, ..old(self)@ }),
            decreases self.trail@.len(),
        {
            let ghost before = self.trail@;
            self.trail.pop_front();
            assert(self.trail@ =~= full.subrange(full.len() - self.trail@.len(), full.len() as int));
        }
        assert(self.trail@ =~= bounded(full));
    }
}

/// Whether a vehicle at slot `own_index` standing at `p` touches a trail of the snapshot.
pub fn touches_trail(p: Point, all_trails: &[VecDeque<Point>], own_index: usize) -> (r: bool)
    ensures
        r == hits_trail(p, trails_view(all_trails@), own_index as int),
{
    let ghost tv = trails_view(all_trails@);
    let mut i: usize = 0;
    while i < all_trails.len()
        invariant
            0 <= i <= all_trails@.len(),
            tv == trails_view(all_trails@),
            forall|a: int, b: int|
                0 <= a < i && 0 <= b < check_len(tv, a, own_index as int) ==> !#[trigger] near(
                    p,
                    tv[a][b],
                    COLLISION_RADIUS as int,
                ),
        decreases all_trails@.len() - i,
    {
        let trail = &all_trails[i];
        let limit: usize = if i == own_index {
            if trail.len() >= SELF_EXCLUSION { trail.len() - SELF_EXCLUSION } else { 0 }
        } else {
            trail.len()
        };
        assert(tv[i as int] == trail@);
        let mut j: usize = 0;
        while j < limit
            invariant
                0 <= i < all_trails@.len(),
                tv == trails_view(all_trails@),
                tv[i as int] == trail@,
                limit == check_len(tv, i as int, own_index as int),
                limit <= trail@.len(),
                0 <= j <= limit,
                forall|a: int, b: int|
                    0 <= a < i && 0 <= b < check_len(tv, a, own_index as int) ==> !#[trigger] near(
                        p,
                        tv[a][b],
                        COLLISION_RADIUS as int,
                    ),
                forall|b: int| 0 <= b < j ==> !#[trigger] near(p, tv[i as int][b], COLLISION_RADIUS as int),
            decreases limit - j,
        {
            if points_near(p, trail[j], COLLISION_RADIUS) {
                return true;
            }
            j = j + 1;
        }
        i = i + 1;
    }
    false
}

} // verus!
