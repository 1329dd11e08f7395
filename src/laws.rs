use vstd::prelude::*;
use crate::geometry::{Point, in_arena, near, opposite, COLLISION_RADIUS};
use crate::cycle::{
    CycleModel, Key, after_input, after_physics, bounded, check_len, cycle_wf, hits_trail,
    next_boosting, segment, speed_of, MAX_BOOST_ENERGY, SELF_EXCLUSION, TRAIL_MAX_LENGTH,
};
use crate::ai::{AiRolls, after_ai, lemma_ai_never_reverses};

verus! {

/// Boost energy stays within `[0, MAX_BOOST_ENERGY]` through a physics tick. It
/// falls only while boosting with energy left, and then it does fall; it rises only
/// while not boosting below the maximum, and then it does rise. Decisions and key
/// events never touch it.
pub proof fn lemma_energy_law(
    m: CycleModel,
    trails: Seq<Seq<Point>>,
    own: int,
    key: Key,
    pressed: bool,
    rolls: AiRolls,
)
    requires
        cycle_wf(m),
    ensures
        after_physics(m, trails, own).boost_energy <= MAX_BOOST_ENERGY,
        after_physics(m, trails, own).boost_energy < m.boost_energy ==> m.is_boosting
            && m.boost_energy > 0,
        after_physics(m, trails, own).boost_energy > m.boost_energy ==> !m.is_boosting
            && m.boost_energy < MAX_BOOST_ENERGY,
        m.alive && m.is_boosting && m.boost_energy > 0 ==> after_physics(
            m,
            trails,
            own,
        ).boost_energy < m.boost_energy,
        m.alive && !m.is_boosting && m.boost_energy < MAX_BOOST_ENERGY ==> after_physics(
            m,
            trails,
            own,
        ).boost_energy > m.boost_energy,
        after_input(m, key, pressed).boost_energy == m.boost_energy,
        after_ai(m, trails, rolls).boost_energy == m.boost_energy,
{
}

/// A trail never holds more than `TRAIL_MAX_LENGTH` points; once full, a tick's
/// new samples push out exactly as many of the oldest points.
pub proof fn lemma_trail_fifo(m: CycleModel, trails: Seq<Seq<Point>>, own: int)
    requires
        cycle_wf(m),
    ensures
        after_physics(m, trails, own).trail.len() <= TRAIL_MAX_LENGTH,
        ({
            let seg = segment(
                m.position,
                m.direction,
                speed_of(next_boosting(m.boost_energy as int, m.is_boosting)),
            );
            m.alive && m.trail.len() == TRAIL_MAX_LENGTH ==> after_physics(m, trails, own).trail
                == m.trail.subrange(seg.len() as int, m.trail.len() as int) + seg
        }),
{
    if m.alive {
        let seg = segment(
            m.position,
            m.direction,
            speed_of(next_boosting(m.boost_energy as int, m.is_boosting)),
        );
        let all = m.trail + seg;
        if m.trail.len() == TRAIL_MAX_LENGTH {
            assert(bounded(all) =~= m.trail.subrange(seg.len() as int, m.trail.len() as int) + seg);
        }
    }
}

/// No key event and no decision ever turns a vehicle to the exact opposite heading.
pub proof fn lemma_never_reverses(m: CycleModel, trails: Seq<Seq<Point>>, key: Key, pressed: bool, rolls: AiRolls)
    ensures
        !opposite(after_input(m, key, pressed).direction, m.direction),
        !opposite(after_ai(m, trails, rolls).direction, m.direction),
{
    lemma_ai_never_reverses(m, trails, rolls);
}

/// A dead vehicle stays exactly as it is: no tick, decision or key event changes it.
pub proof fn lemma_dead_is_frozen(
    m: CycleModel,
    trails: Seq<Seq<Point>>,
    own: int,
    key: Key,
    pressed: bool,
    rolls: AiRolls,
)
    requires
        !m.alive,
    ensures
        after_physics(m, trails, own) == m,
        after_ai(m, trails, rolls) == m,
        after_input(m, key, pressed) == m,
{
}

/// The tick in which a vehicle leaves the arena is the tick in which it dies; a
/// living vehicle is always inside the arena.
pub proof fn lemma_wall_exit_kills(m: CycleModel, trails: Seq<Seq<Point>>, own: int)
    requires
        cycle_wf(m),
        m.alive,
    ensures
        !in_arena(after_physics(m, trails, own).position) ==> !after_physics(m, trails, own).alive,
        after_physics(m, trails, own).alive ==> in_arena(after_physics(m, trails, own).position),
{
}

/// The newest `SELF_EXCLUSION` points of a vehicle's own trail never cause a
/// collision: replacing any of them by any point (the head itself, say) leaves the
/// collision test unchanged.
pub proof fn lemma_recent_own_points_ignored(
    p: Point,
    trails: Seq<Seq<Point>>,
    own: int,
    j: int,
    q: Point,
)
    requires
        0 <= own < trails.len(),
        trails[own].len() - SELF_EXCLUSION <= j < trails[own].len(),
        0 <= j,
    ensures
        hits_trail(p, trails, own) == hits_trail(p, trails.update(own, trails[own].update(j, q)), own),
{
    let t2 = trails.update(own, trails[own].update(j, q));
    assert forall|i: int| 0 <= i < trails.len() implies check_len(t2, i, own) == check_len(trails, i, own)
        && forall|k: int| 0 <= k < check_len(trails, i, own) ==> #[trigger] t2[i][k] == trails[i][k] by {
    }
    if hits_trail(p, trails, own) {
        let (i, k) = choose|i: int, k: int|
            0 <= i < trails.len() && 0 <= k < check_len(trails, i, own) && #[trigger] near(
                p,
                trails[i][k],
                COLLISION_RADIUS as int,
            );
        assert(t2[i][k] == trails[i][k]);
    }
    if hits_trail(p, t2, own) {
        let (i, k) = choose|i: int, k: int|
            0 <= i < t2.len() && 0 <= k < check_len(t2, i, own) && #[trigger] near(
                p,
                t2[i][k],
                COLLISION_RADIUS as int,
            );
        assert(t2[i][k] == trails[i][k]);
    }
}

} // verus!
