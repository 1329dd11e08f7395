use vstd::prelude::*;
use std::collections::VecDeque;
use rand::Rng;
use crate::geometry::{
    Point, Direction, advance, in_arena, inside_margin, near, near_any, opposite, point_in_arena,
    point_inside_margin, points_near, step_point,
};
use crate::cycle::{
    AiDifficulty, CycleModel, LightCycle, PlayerType, cycle_wf, trails_view,
};

verus! {

/// Projected points closer than this to a wall count as hazards.
pub const WALL_MARGIN: i32 = 20;

/// Distance between two probes of the open-space estimate.
pub const SPACE_PROBE_STEP: i32 = 60;

/// The parameters of one difficulty tier.
#[derive(Clone, Copy, Debug, PartialEq, Eq, Structural)]
pub struct TierParams {
    /// How far ahead the driver projects a heading.
    pub look_ahead: i32,
    /// A projected point closer than this to a trail point is a hazard.
    pub reaction: i64,
    /// Chance, in percent per tick, of a spontaneous turn while safe.
    pub turn_chance: u32,
    /// Boosting is considered only with more energy than this.
    pub boost_threshold: u32,
    /// Chance, in percent per tick, of boosting while safe (ten times it in danger).
    pub boost_chance: u32,
}

/// The random draws of one decision: `turn` and `boost` in `0..100`, `pick` in `0..6`
/// (a multiple of every count of candidate headings, so `pick % n` is uniform).
#[derive(Clone, Copy, Debug, PartialEq, Eq, Structural)]
pub struct AiRolls {
    pub turn: u32,
    pub pick: u32,
    pub boost: u32,
}

pub open spec fn rolls_ok(r: AiRolls) -> bool {
    r.turn < 100 && r.pick < 6 && r.boost < 100
}

pub open spec fn tier_params(t: AiDifficulty) -> TierParams {
    match t {
        AiDifficulty::Easy => TierParams {
            look_ahead: 120,
            reaction: 48,
            turn_chance: 5,
            boost_threshold: 360,
            boost_chance: 1,
        },
        AiDifficulty::Medium => TierParams {
            look_ahead: 240,
            reaction: 80,
            turn_chance: 2,
            boost_threshold: 600,
            boost_chance: 3,
        },
        AiDifficulty::Hard => TierParams {
            look_ahead: 360,
            reaction: 128,
            turn_chance: 1,
            boost_threshold: 840,
            boost_chance: 5,
        },
    }
}

/// `p` is near a wall or within `reaction` of any trail point of the snapshot.
pub open spec fn hazard(p: Point, trails: Seq<Seq<Point>>, reaction: int) -> bool {
    !inside_margin(p, WALL_MARGIN as int) || near_any(p, trails, reaction)
}

/// Heading `d` from `pos` leads to no hazard within the tier's look-ahead.
pub open spec fn heading_safe(pos: Point, d: Direction, trails: Seq<Seq<Point>>, p: TierParams) -> bool {
    !hazard(advance(pos, d, p.look_ahead as int), trails, p.reaction as int)
}

/// The headings in the order they are considered.
pub open spec fn dir_at(k: int) -> Direction {
    if k == 0 {
        Direction::Up
    } else if k == 1 {
        Direction::Down
    } else if k == 2 {
        Direction::Left
    } else {
        Direction::Right
    }
}

/// The safe, non-reversing headings among the first `k` considered, in order.
pub open spec fn safe_prefix(
    pos: Point,
    cur: Direction,
    trails: Seq<Seq<Point>>,
    p: TierParams,
    k: nat,
) -> Seq<Direction>
    decreases k,
{
    if k == 0 {
        Seq::empty()
    } else {
        let prev = safe_prefix(pos, cur, trails, p, (k - 1) as nat);
        let d = dir_at(k - 1);
        if !opposite(d, cur) && heading_safe(pos, d, trails, p) {
            prev.push(d)
        } else {
            prev
        }
    }
}

pub open spec fn safe_headings(
    pos: Point,
    cur: Direction,
    trails: Seq<Seq<Point>>,
    p: TierParams,
) -> Seq<Direction> {
    safe_prefix(pos, cur, trails, p, 4)
}

/// Probes `i, i + 1, ..., 9` along `d` that stay in the arena before the first that leaves it.
pub open spec fn open_run(pos: Point, d: Direction, i: int) -> int
    decreases 10 - i,
{
    if i >= 10 {
        0
    } else if in_arena(advance(pos, d, SPACE_PROBE_STEP * i)) {
        1 + open_run(pos, d, i + 1)
    } else {
        0
    }
}

/// How far heading `d` runs from `pos` before leaving the arena, in probes.
pub open spec fn open_space(pos: Point, d: Direction) -> int {
    open_run(pos, d, 1)
}

/// The first heading of `s[..n]` with the most open space, and that space
/// (the first heading and 0 when none has any).
pub open spec fn best_prefix(pos: Point, s: Seq<Direction>, n: nat) -> (Direction, int)
    decreases n,
{
    if n == 0 {
        (s[0], 0)
    } else {
        let prev = best_prefix(pos, s, (n - 1) as nat);
        let sc = open_space(pos, s[n - 1]);
        if sc > prev.1 {
            (s[n - 1], sc)
        } else {
            prev
        }
    }
}

/// One of the two headings at right angles to `cur`.
pub open spec fn perpendicular(cur: Direction, pick: u32) -> Direction {
    match cur {
        Direction::Up | Direction::Down => if pick % 2 == 0 {
            Direction::Left
        } else {
            Direction::Right
        },
        _ => if pick % 2 == 0 {
            Direction::Up
        } else {
            Direction::Down
        },
    }
}

/// The vehicle's current heading leads to a hazard within its look-ahead.
pub open spec fn in_danger(m: CycleModel, trails: Seq<Seq<Point>>) -> bool {
    !heading_safe(m.position, m.direction, trails, tier_params(m.ai_difficulty))
}

/// The heading the driver picks.
pub open spec fn ai_heading(m: CycleModel, trails: Seq<Seq<Point>>, r: AiRolls) -> Direction {
    let p = tier_params(m.ai_difficulty);
    if in_danger(m, trails) {
        let s = safe_headings(m.position, m.direction, trails, p);
        if s.len() == 0 {
            m.direction
        } else if m.ai_difficulty == AiDifficulty::Hard && s.len() > 1 {
            best_prefix(m.position, s, s.len()).0
        } else {
            s[(r.pick % (s.len() as u32)) as int]
        }
    } else if r.turn < p.turn_chance {
        perpendicular(m.direction, r.pick)
    } else {
        m.direction
    }
}

/// Whether the driver boosts this tick.
pub open spec fn ai_boost(m: CycleModel, trails: Seq<Seq<Point>>, r: AiRolls) -> bool {
    let p = tier_params(m.ai_difficulty);
    m.boost_energy > p.boost_threshold && if in_danger(m, trails) {
        r.boost < p.boost_chance * 10
    } else {
        r.boost < p.boost_chance
    }
}

/// A computer vehicle after one decision; any other vehicle is unchanged.
pub open spec fn after_ai(m: CycleModel, trails: Seq<Seq<Point>>, r: AiRolls) -> CycleModel {
    if !m.alive || m.player_type != PlayerType::Computer {
        m
    } else {
        CycleModel { direction: ai_heading(m, trails, r), is_boosting: ai_boost(m, trails, r), ..m }
    }
}

/// The parameters of tier `t`.
pub fn params(t: AiDifficulty) -> (r: TierParams)
    ensures
        r == tier_params(t),
{
    match t {
        AiDifficulty::Easy => TierParams {
            look_ahead: 120,
            reaction: 48,
            turn_chance: 5,
            boost_threshold: 360,
            boost_chance: 1,
        },
        AiDifficulty::Medium => TierParams {
            look_ahead: 240,
            reaction: 80,
            turn_chance: 2,
            boost_threshold: 600,
            boost_chance: 3,
        },
        AiDifficulty::Hard => TierParams {
            look_ahead: 360,
            reaction: 128,
            turn_chance: 1,
            boost_threshold: 840,
            boost_chance: 5,
        },
    }
}

/// Whether `p` is a hazard: near a wall, or within `reaction` of a trail point.
pub fn is_hazard(p: Point, all_trails: &[VecDeque<Point>], reaction: i64) -> (r: bool)
    requires
        0 <= reaction <= 1000,
    ensures
        r == hazard(p, trails_view(all_trails@), reaction as int),
{
    if !point_inside_margin(p, WALL_MARGIN) {
        return true;
    }
    let ghost tv = trails_view(all_trails@);
    let mut i: usize = 0;
    while i < all_trails.len()
        invariant
            0 <= i <= all_trails@.len(),
            0 <= reaction <= 1000,
            tv == trails_view(all_trails@),
            forall|a: int, b: int|
                0 <= a < i && 0 <= b < tv[a].len() ==> !#[trigger] near(p, tv[a][b], reaction as int),
        decreases all_trails@.len() - i,
    {
        let trail = &all_trails[i];
        assert(tv[i as int] == trail@);
        let mut j: usize = 0;
        while j < trail.len()
            invariant
                0 <= i < all_trails@.len(),
                0 <= reaction <= 1000,
                tv == trails_view(all_trails@),
                tv[i as int] == trail@,
                0 <= j <= trail@.len(),
                forall|a: int, b: int|
                    0 <= a < i && 0 <= b < tv[a].len() ==> !#[trigger] near(
                        p,
                        tv[a][b],
                        reaction as int,
                    ),
                forall|b: int| 0 <= b < j ==> !#[trigger] near(p, tv[i as int][b], reaction as int),
            decreases trail@.len() - j,
        {
            if points_near(p, trail[j], reaction) {
                return true;
            }
            j = j + 1;
        }
        i = i + 1;
    }
    false
}

fn heading_at(k: usize) -> (d: Direction)
    ensures
        d == dir_at(k as int),
{
    if k == 0 {
        Direction::Up
    } else if k == 1 {
        Direction::Down
    } else if k == 2 {
        Direction::Left
    } else {
        Direction::Right
    }
}

/// The safe, non-reversing headings from `pos`, in the order Up, Down, Left, Right.
pub fn safe_directions(
    pos: Point,
    cur: Direction,
    all_trails: &[VecDeque<Point>],
    p: TierParams,
) -> (r: Vec<Direction>)
    requires
        in_arena(pos),
        p == tier_params(AiDifficulty::Easy) || p == tier_params(AiDifficulty::Medium) || p
            == tier_params(AiDifficulty::Hard),
    ensures
        r@ == safe_headings(pos, cur, trails_view(all_trails@), p),
{
    let mut safe: Vec<Direction> = Vec::new();
    let mut k: usize = 0;
    while k < 4
        invariant
            0 <= k <= 4,
            in_arena(pos),
            0 < p.look_ahead <= 360,
            0 < p.reaction <= 128,
            safe@ == safe_prefix(pos, cur, trails_view(all_trails@), p, k as nat),
        decreases 4 - k,
    {
        let d = heading_at(k);
        if !d.is_opposite(&cur) {
            let probe = step_point(pos, d, p.look_ahead);
            if !is_hazard(probe, all_trails, p.reaction) {
                safe.push(d);
            }
        }
        k = k + 1;
    }
    safe
}

/// How many probes along `d` from `pos` stay in the arena before the first that leaves it.
pub fn open_space_along(pos: Point, d: Direction) -> (r: i32)
    requires
        in_arena(pos),
    ensures
        r == open_space(pos, d),
{
    let mut space: i32 = 0;
    let mut i: i32 = 1;
    let mut blocked = false;
    while i < 10 && !blocked
        invariant
            1 <= i <= 10,
            0 <= space < i,
            in_arena(pos),
            blocked ==> open_run(pos, d, i as int) == 0,
            space + open_run(pos, d, i as int) == open_run(pos, d, 1),
        decreases 2 * (10 - i) + if blocked { 0int } else { 1int },
    {
        let probe = step_point(pos, d, SPACE_PROBE_STEP * i);
        if point_in_arena(probe) {
            space = space + 1;
            i = i + 1;
        } else {
            blocked = true;
        }
    }
    space
}

/// The first of `safe` with the most open space ahead.
pub fn most_open(pos: Point, safe: &Vec<Direction>) -> (r: Direction)
    requires
        in_arena(pos),
        safe@.len() > 0,
    ensures
        r == best_prefix(pos, safe@, safe@.len()).0,
{
    let mut best = safe[0];
    let mut max_space: i32 = 0;
    let mut k: usize = 0;
    while k < safe.len()
        invariant
            0 <= k <= safe@.len(),
            safe@.len() > 0,
            in_arena(pos),
            (best, max_space as int) == best_prefix(pos, safe@, k as nat),
        decreases safe@.len() - k,
    {
        let space = open_space_along(pos, safe[k]);
        if space > max_space {
            max_space = space;
            best = safe[k];
        }
        k = k + 1;
    }
    best
}

proof fn lemma_safe_prefix_not_opposite(
    pos: Point,
    cur: Direction,
    trails: Seq<Seq<Point>>,
    p: TierParams,
    k: nat,
)
    ensures
        safe_prefix(pos, cur, trails, p, k).len() <= k,
        forall|i: int|
            0 <= i < safe_prefix(pos, cur, trails, p, k).len() ==> !opposite(
                #[trigger] safe_prefix(pos, cur, trails, p, k)[i],
                cur,
            ),
    decreases k,
{
    if k > 0 {
        lemma_safe_prefix_not_opposite(pos, cur, trails, p, (k - 1) as nat);
    }
}

proof fn lemma_best_in(pos: Point, s: Seq<Direction>, n: nat)
    requires
        0 < s.len(),
        n <= s.len(),
    ensures
        exists|i: int| 0 <= i < s.len() && s[i] == #[trigger] best_prefix(pos, s, n).0,
    decreases n,
{
    if n == 0 {
        assert(s[0] == best_prefix(pos, s, n).0);
    } else {
        lemma_best_in(pos, s, (n - 1) as nat);
        let sc = open_space(pos, s[n - 1]);
        if sc > best_prefix(pos, s, (n - 1) as nat).1 {
            assert(s[n - 1] == best_prefix(pos, s, n).0);
        }
    }
}

/// The driver never picks the exact opposite of its current heading.
pub proof fn lemma_ai_never_reverses(m: CycleModel, trails: Seq<Seq<Point>>, r: AiRolls)
    ensures
        !opposite(after_ai(m, trails, r).direction, m.direction),
{
    let p = tier_params(m.ai_difficulty);
    let s = safe_headings(m.position, m.direction, trails, p);
    lemma_safe_prefix_not_opposite(m.position, m.direction, trails, p, 4);
    if s.len() > 0 {
        lemma_best_in(m.position, s, s.len());
    }
}

impl LightCycle {
    /// One decision of the autonomous driver against the snapshot `all_trails`, with
    /// the random draws given: steer away from a hazard ahead (Hard picks the heading
    /// with the most open space), turn now and then while safe, and decide on boost.
    /// A human or dead vehicle is left as it is.
    pub fn ai_step(&mut self, all_trails: &[VecDeque<Point>], rolls: AiRolls)
        requires
            cycle_wf(old(self)@),
        ensures
            final(self)@ == after_ai(old(self)@, trails_view(all_trails@), rolls),
            cycle_wf(final(self)@),
            !opposite(final(self).direction, old(self).direction),
    {
        proof {
            lemma_ai_never_reverses(self@, trails_view(all_trails@), rolls);
        }
        if self.player_type != PlayerType::Computer || !self.alive {
            return;
        }
        let p = params(self.ai_difficulty);
        let ahead = step_point(self.position, self.direction, p.look_ahead);
        let should_turn = is_hazard(ahead, all_trails, p.reaction);
        if should_turn {
            let safe = safe_directions(self.position, self.direction, all_trails, p);
            proof {
                lemma_safe_prefix_not_opposite(
                    self.position,
                    self.direction,
                    trails_view(all_trails@),
                    p,
                    4,
                );
            }
            if safe.len() > 0 {
                if self.ai_difficulty == AiDifficulty::Hard && safe.len() > 1 {
                    self.direction = most_open(self.position, &safe);
                } else {
                    let n: u32 = safe.len() as u32;
                    self.direction = safe[(rolls.pick % n) as usize];
                }
            }
        } else if rolls.turn < p.turn_chance {
            let pair = match self.direction {
                Direction::Up | Direction::Down => (Direction::Left, Direction::Right),
                Direction::Left | Direction::Right => (Direction::Up, Direction::Down),
            };
            self.direction = if rolls.pick % 2 == 0 { pair.0 } else { pair.1 };
        }
        if self.boost_energy > p.boost_threshold {
            if should_turn && rolls.boost < p.boost_chance * 10 {
                self.is_boosting = true;
            } else if !should_turn && rolls.boost < p.boost_chance {
                self.is_boosting = true;
            } else {
                self.is_boosting = false;
            }
        } else {
            self.is_boosting = false;
        }
    }

    /// One decision of the autonomous driver, with fresh random draws.
    pub fn ai_update(&mut self, all_trails: &[VecDeque<Point>])
        requires
            cycle_wf(old(self)@),
        ensures
            exists|r: AiRolls|
                rolls_ok(r) && final(self)@ == #[trigger] after_ai(
                    old(self)@,
                    trails_view(all_trails@),
                    r,
                ),
            cycle_wf(final(self)@),
            !opposite(final(self).direction, old(self).direction),
    {
        let rolls = draw_rolls();
        self.ai_step(all_trails, rolls);
    }
}

/// Fresh random draws for one decision.
pub fn draw_rolls() -> (r: AiRolls)
    ensures
        rolls_ok(r),
{
    let turn = random_below(100);
    let pick = random_below(6);
    let boost = random_below(100);
    AiRolls { turn, pick, boost }
}

/// Relies on rand's `thread_rng().gen_range(0..n)`: a value in `0..n`
/// (it panics on an empty range, which `n > 0` rules out).
#[verifier::external_body]
fn random_below(n: u32) -> (r: u32)
    requires
        n > 0,
    ensures
        r < n,
{
    rand::thread_rng().gen_range(0..n)
}

} // verus!
