use vstd::prelude::*;

verus! {

/// Arena width, in half-pixels.
pub const ARENA_WIDTH: i32 = 3200;

/// Arena height, in half-pixels.
pub const ARENA_HEIGHT: i32 = 2000;

/// A point closer than this to a trail point is a collision.
pub const COLLISION_RADIUS: i64 = 16;

/// Distance covered in one tick while cruising.
pub const CRUISE_SPEED: i32 = 6;

/// Distance covered in one tick while boosting.
pub const BOOST_SPEED: i32 = 12;

/// The largest gap between two consecutive trail samples.
pub const SAMPLE_SPACING: i32 = 4;

/// A point of the arena, in half-pixels.
#[derive(Clone, Copy, Debug, PartialEq, Eq, Structural)]
pub struct Point {
    pub x: i32,
    pub y: i32,
}

/// A heading along one of the two axes.
#[derive(Clone, Copy, Debug, PartialEq, Eq, Structural)]
pub enum Direction {
    Up,
    Down,
    Left,
    Right,
}

/// Horizontal component of the unit vector of `d` (screen coordinates: y grows downwards).
pub open spec fn unit_x(d: Direction) -> int {
    match d {
        Direction::Left => -1,
        Direction::Right => 1,
        _ => 0,
    }
}

/// Vertical component of the unit vector of `d`.
pub open spec fn unit_y(d: Direction) -> int {
    match d {
        Direction::Up => -1,
        Direction::Down => 1,
        _ => 0,
    }
}

pub open spec fn opposite(a: Direction, b: Direction) -> bool {
    unit_x(a) == -unit_x(b) && unit_y(a) == -unit_y(b)
}

/// The point `n` units from `p` along `d`.
pub open spec fn advance(p: Point, d: Direction, n: int) -> Point {
    Point { x: (p.x + unit_x(d) * n) as i32, y: (p.y + unit_y(d) * n) as i32 }
}

/// `p` lies in `[0, ARENA_WIDTH) x [0, ARENA_HEIGHT)`.
pub open spec fn in_arena(p: Point) -> bool {
    0 <= p.x < ARENA_WIDTH && 0 <= p.y < ARENA_HEIGHT
}

/// `p` lies at least `margin` away from every wall.
pub open spec fn inside_margin(p: Point, margin: int) -> bool {
    margin <= p.x < ARENA_WIDTH - margin && margin <= p.y < ARENA_HEIGHT - margin
}

pub open spec fn dist_sq(a: Point, b: Point) -> int {
    (a.x - b.x) * (a.x - b.x) + (a.y - b.y) * (a.y - b.y)
}

/// `a` and `b` are closer than `r` (Euclidean distance).
pub open spec fn near(a: Point, b: Point, r: int) -> bool {
    dist_sq(a, b) < r * r
}

/// `p` is within `r` of some point of some trail.
pub open spec fn near_any(p: Point, trails: Seq<Seq<Point>>, r: int) -> bool {
    exists|i: int, j: int|
        0 <= i < trails.len() && 0 <= j < trails[i].len() && #[trigger] near(p, trails[i][j], r)
}

impl Direction {
    /// The displacement of one cruising tick along this heading.
    pub fn to_velocity(&self) -> (r: (i32, i32))
        ensures
            r.0 == unit_x(*self) * CRUISE_SPEED,
            r.1 == unit_y(*self) * CRUISE_SPEED,
    {
        match self {
            Direction::Up => (0, -CRUISE_SPEED),
            Direction::Down => (0, CRUISE_SPEED),
            Direction::Left => (-CRUISE_SPEED, 0),
            Direction::Right => (CRUISE_SPEED, 0),
        }
    }

    /// Whether `other` points exactly the other way.
    pub fn is_opposite(&self, other: &Direction) -> (r: bool)
        ensures
            r == opposite(*self, *other),
    {
        match (self, other) {
            (Direction::Up, Direction::Down) => true,
            (Direction::Down, Direction::Up) => true,
            (Direction::Left, Direction::Right) => true,
            (Direction::Right, Direction::Left) => true,
            _ => false,
        }
    }
}

/// The point `n` units from `p` along `d`.
pub fn step_point(p: Point, d: Direction, n: i32) -> (r: Point)
    requires
        0 <= n <= 1000,
        -10000 <= p.x <= 10000,
        -10000 <= p.y <= 10000,
    ensures
        r == advance(p, d, n as int),
        r.x == p.x + unit_x(d) * n,
        r.y == p.y + unit_y(d) * n,
{
    match d {
        Direction::Up => Point { x: p.x, y: p.y - n },
        Direction::Down => Point { x: p.x, y: p.y + n },
        Direction::Left => Point { x: p.x - n, y: p.y },
        Direction::Right => Point { x: p.x + n, y: p.y },
    }
}

pub fn point_in_arena(p: Point) -> (r: bool)
    ensures
        r == in_arena(p),
{
    0 <= p.x && p.x < ARENA_WIDTH && 0 <= p.y && p.y < ARENA_HEIGHT
}

pub fn point_inside_margin(p: Point, margin: i32) -> (r: bool)
    requires
        0 <= margin <= 1000,
    ensures
        r == inside_margin(p, margin as int),
{
    margin <= p.x && p.x < ARENA_WIDTH - margin && margin <= p.y && p.y < ARENA_HEIGHT - margin
}

proof fn lemma_far_axis(d: int, r: int)
    requires
        0 <= r,
        d >= r || d <= -r,
    ensures
        d * d >= r * r,
{
    assert(d * d >= r * r) by (nonlinear_arith)
        requires
            0 <= r,
            d >= r || d <= -r,
    ;
}

/// Whether `a` and `b` are closer than `r`.
pub fn points_near(a: Point, b: Point, r: i64) -> (res: bool)
    requires
        0 <= r <= 100000,
    ensures
        res == near(a, b, r as int),
{
    let dx: i64 = a.x as i64 - b.x as i64;
    let dy: i64 = a.y as i64 - b.y as i64;
    if dx >= r || dx <= -r {
        proof {
            lemma_far_axis(dx as int, r as int);
            assert((dy as int) * (dy as int) >= 0) by (nonlinear_arith);
        }
        return false;
    }
    if dy >= r || dy <= -r {
        proof {
            lemma_far_axis(dy as int, r as int);
            assert((dx as int) * (dx as int) >= 0) by (nonlinear_arith);
        }
        return false;
    }
    assert(0 <= dx * dx <= r * r <= 10000000000 && 0 <= dy * dy <= r * r) by (nonlinear_arith)
        requires
            -r < dx < r,
            -r < dy < r,
            0 <= r <= 100000,
    ;
    dx * dx + dy * dy < r * r
}

} // verus!
