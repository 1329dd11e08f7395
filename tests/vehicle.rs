use std::collections::VecDeque;
use lightcycle::geometry::{points_near, Direction, Point, ARENA_WIDTH};
use lightcycle::cycle::{
    AiDifficulty, Binding, Key, LightCycle, PlayerType, Rgb, BOOST_DRAIN_PER_TICK,
    MAX_BOOST_ENERGY, TICKS_PER_SECOND, TRAIL_MAX_LENGTH,
};

fn human(x: i32, y: i32, d: Direction) -> LightCycle {
    LightCycle::new(
        x,
        y,
        d,
        Rgb { r: 0, g: 255, b: 255 },
        PlayerType::Human,
        Some(Binding { up: Key::W, down: Key::S, left: Key::A, right: Key::D }),
        Some(Key::LShift),
        AiDifficulty::Medium,
    )
}

fn no_trails() -> Vec<VecDeque<Point>> {
    vec![VecDeque::new()]
}

#[test]
fn opposite_headings() {
    assert!(Direction::Up.is_opposite(&Direction::Down));
    assert!(Direction::Down.is_opposite(&Direction::Up));
    assert!(Direction::Left.is_opposite(&Direction::Right));
    assert!(Direction::Right.is_opposite(&Direction::Left));
    assert!(!Direction::Up.is_opposite(&Direction::Up));
    assert!(!Direction::Up.is_opposite(&Direction::Left));
    assert!(!Direction::Right.is_opposite(&Direction::Down));
}

#[test]
fn cruise_velocity() {
    assert_eq!(Direction::Up.to_velocity(), (0, -6));
    assert_eq!(Direction::Down.to_velocity(), (0, 6));
    assert_eq!(Direction::Left.to_velocity(), (-6, 0));
    assert_eq!(Direction::Right.to_velocity(), (6, 0));
}

#[test]
fn nearness_is_strict() {
    let a = Point { x: 0, y: 0 };
    assert!(points_near(a, Point { x: 15, y: 0 }, 16));
    assert!(!points_near(a, Point { x: 16, y: 0 }, 16));
    assert!(points_near(a, Point { x: 11, y: 11 }, 16));
    assert!(!points_near(a, Point { x: 12, y: 12 }, 16));
    assert!(!points_near(a, Point { x: i32::MAX, y: i32::MIN }, 16));
}

#[test]
fn cruise_tick_moves_and_samples() {
    let mut c = human(400, 1000, Direction::Right);
    c.update(&no_trails(), 0);
    assert!(c.alive);
    assert_eq!(c.position, Point { x: 406, y: 1000 });
    let t: Vec<Point> = c.trail.iter().copied().collect();
    assert_eq!(t, vec![Point { x: 400, y: 1000 }, Point { x: 403, y: 1000 }, Point { x: 406, y: 1000 }]);
    assert_eq!(c.boost_energy, MAX_BOOST_ENERGY);
}

#[test]
fn boost_tick_moves_and_samples() {
    let mut c = human(400, 1000, Direction::Up);
    c.handle_input(Key::LShift, true);
    assert!(c.is_boosting);
    c.update(&no_trails(), 0);
    assert_eq!(c.position, Point { x: 400, y: 988 });
    let t: Vec<Point> = c.trail.iter().copied().collect();
    assert_eq!(
        t,
        vec![
            Point { x: 400, y: 1000 },
            Point { x: 400, y: 996 },
            Point { x: 400, y: 992 },
            Point { x: 400, y: 988 },
        ]
    );
    assert_eq!(c.boost_energy, MAX_BOOST_ENERGY - BOOST_DRAIN_PER_TICK);
}

#[test]
fn boost_runs_dry_after_max_over_drain_seconds() {
    let mut c = human(200, 1000, Direction::Right);
    c.handle_input(Key::LShift, true);
    let ticks = MAX_BOOST_ENERGY / BOOST_DRAIN_PER_TICK;
    assert_eq!(ticks, 150);
    assert_eq!(ticks, TICKS_PER_SECOND * 5 / 2);
    let mut trails = no_trails();
    for _ in 0..ticks - 1 {
        c.update(&trails, 0);
        trails[0] = c.trail.clone();
        assert!(c.is_boosting);
    }
    assert_eq!(c.boost_energy, BOOST_DRAIN_PER_TICK);
    c.update(&trails, 0);
    assert!(c.alive);
    assert_eq!(c.boost_energy, 0);
    assert!(!c.is_boosting);
}

#[test]
fn energy_recharges_and_clamps() {
    let mut c = human(400, 1000, Direction::Right);
    c.boost_energy = 1190;
    c.update(&no_trails(), 0);
    assert_eq!(c.boost_energy, 1193);
    c.update(&no_trails(), 0);
    assert_eq!(c.boost_energy, 1196);
    c.update(&no_trails(), 0);
    assert_eq!(c.boost_energy, 1199);
    c.update(&no_trails(), 0);
    assert_eq!(c.boost_energy, MAX_BOOST_ENERGY);
    c.update(&no_trails(), 0);
    assert_eq!(c.boost_energy, MAX_BOOST_ENERGY);
}

#[test]
fn boost_needs_energy_and_release_stops_it() {
    let mut c = human(400, 1000, Direction::Right);
    c.boost_energy = 120;
    c.handle_input(Key::LShift, true);
    assert!(!c.is_boosting);
    c.boost_energy = 121;
    c.handle_input(Key::LShift, true);
    assert!(c.is_boosting);
    c.handle_input(Key::LShift, false);
    assert!(!c.is_boosting);
}

#[test]
fn input_refuses_reversal() {
    let mut c = human(400, 1000, Direction::Right);
    c.handle_input(Key::A, true);
    assert_eq!(c.direction, Direction::Right);
    c.handle_input(Key::W, false);
    assert_eq!(c.direction, Direction::Right);
    c.handle_input(Key::W, true);
    assert_eq!(c.direction, Direction::Up);
    c.handle_input(Key::S, true);
    assert_eq!(c.direction, Direction::Up);
    c.handle_input(Key::Other, true);
    assert_eq!(c.direction, Direction::Up);
    c.handle_input(Key::A, true);
    assert_eq!(c.direction, Direction::Left);
}

#[test]
fn computer_ignores_keys() {
    let mut c = LightCycle::new(
        400,
        1000,
        Direction::Right,
        Rgb { r: 1, g: 2, b: 3 },
        PlayerType::Computer,
        None,
        None,
        AiDifficulty::Easy,
    );
    c.handle_input(Key::Up, true);
    assert_eq!(c.direction, Direction::Right);
}

#[test]
fn wall_exit_kills_in_same_tick() {
    let mut c = human(ARENA_WIDTH - 7, 1000, Direction::Right);
    c.update(&no_trails(), 0);
    assert!(c.alive);
    assert_eq!(c.position.x, ARENA_WIDTH - 1);
    c.update(&no_trails(), 0);
    assert!(!c.alive);
    assert_eq!(c.position.x, ARENA_WIDTH + 5);
    let mut d = human(3, 1000, Direction::Left);
    d.update(&no_trails(), 0);
    assert!(!d.alive);
}

#[test]
fn dead_vehicle_is_frozen() {
    let mut c = human(3, 1000, Direction::Left);
    c.update(&no_trails(), 0);
    assert!(!c.alive);
    let pos = c.position;
    let len = c.trail.len();
    let energy = c.boost_energy;
    c.update(&no_trails(), 0);
    c.handle_input(Key::W, true);
    c.handle_input(Key::LShift, true);
    assert_eq!(c.position, pos);
    assert_eq!(c.trail.len(), len);
    assert_eq!(c.boost_energy, energy);
    assert_eq!(c.direction, Direction::Left);
    assert!(!c.is_boosting);
}

#[test]
fn other_trail_kills() {
    let mut c = human(400, 1000, Direction::Right);
    let mut other = VecDeque::new();
    other.push_back(Point { x: 420, y: 1000 });
    let trails = vec![VecDeque::new(), other];
    c.update(&trails, 0);
    assert!(!c.alive);
    let mut d = human(400, 1000, Direction::Right);
    let mut far = VecDeque::new();
    far.push_back(Point { x: 422, y: 1000 });
    d.update(&vec![VecDeque::new(), far], 0);
    assert!(d.alive);
}

#[test]
fn recent_own_points_never_kill() {
    let mut own = VecDeque::new();
    for _ in 0..10 {
        own.push_back(Point { x: 406, y: 1000 });
    }
    let mut c = human(400, 1000, Direction::Right);
    c.update(&vec![own.clone()], 0);
    assert!(c.alive);
    let mut older = VecDeque::new();
    older.push_back(Point { x: 406, y: 1000 });
    older.extend(own.iter().copied());
    let mut d = human(400, 1000, Direction::Right);
    d.update(&vec![older.clone()], 0);
    assert!(!d.alive);
    let mut e = human(400, 1000, Direction::Right);
    e.update(&vec![VecDeque::new(), older], 0);
    assert!(!e.alive);
}

#[test]
fn trail_is_capped_fifo() {
    let mut c = human(400, 1000, Direction::Right);
    for i in 0..TRAIL_MAX_LENGTH - 1 {
        c.trail.push_back(Point { x: (i % 100) as i32, y: 0 });
    }
    c.update(&no_trails(), 0);
    assert_eq!(c.trail.len(), TRAIL_MAX_LENGTH);
    assert_eq!(c.trail[0], Point { x: 2, y: 0 });
    assert_eq!(c.trail[TRAIL_MAX_LENGTH - 1], Point { x: 406, y: 1000 });
    c.update(&no_trails(), 0);
    assert_eq!(c.trail.len(), TRAIL_MAX_LENGTH);
    assert_eq!(c.trail[0], Point { x: 5, y: 0 });
    assert_eq!(c.trail[TRAIL_MAX_LENGTH - 1], Point { x: 412, y: 1000 });
}
