use vstd::prelude::*;

use crate::maze::{MAZE_HEIGHT, MAZE_WIDTH};
use crate::unit::{UnitDirection, UnitPosition, UNIT_SIZE};

verus! {

/// Left edge of the playable box.
pub const MAZE_START_X: u32 = 100;
/// Right edge of the playable box.
pub const MAZE_END_X: u32 = MAZE_WIDTH - 100;
/// Bottom edge of the playable box.
pub const MAZE_START_Y: u32 = 100;
/// Top edge of the playable box.
pub const MAZE_END_Y: u32 = MAZE_HEIGHT - 100;

/// The row on which units may leave the playable box and wrap around.
pub const TUNNEL_Y: i32 = 616;
/// Left end of the tunnel.
pub const TUNNEL_X_LEFT: i32 = 0;
/// Right end of the tunnel.
pub const TUNNEL_X_RIGHT: i32 = 3700;

/// Number of rectangles in the obstacle table.
pub const OBSTACLE_COUNT: usize = 28;

/// An axis-aligned rectangle given by its lower-left corner, width and height.
#[derive(Clone, Copy, PartialEq, Eq, Structural, Debug)]
pub struct Rect {
    pub x: i32,
    pub y: i32,
    pub w: i32,
    pub h: i32,
}

/// The `i`-th rectangle of the maze's walls.
pub open spec fn obstacle(i: int) -> Rect {
    if i == 0 {
        Rect { x: 1133, y: 100, w: 100, h: 133 }  // Spike 1
    } else if i == 1 {
        Rect { x: 1533, y: 100, w: 100, h: 133 }  // Spike 2
    } else if i == 2 {
        Rect { x: 2666, y: 100, w: 100, h: 200 }  // Spike 3
    } else if i == 3 {
        Rect { x: 200, y: 200, w: 233, h: 100 }  // Bottom 1
    } else if i == 4 {
        Rect { x: 533, y: 200, w: 500, h: 100 }  // Bottom 2
    } else if i == 5 {
        Rect { x: 1733, y: 200, w: 833, h: 100 }  // Bottom 3
    } else if i == 6 {
        Rect { x: 2866, y: 200, w: 300, h: 100 }  // Bottom 4
    } else if i == 7 {
        Rect { x: 3266, y: 200, w: 234, h: 100 }  // Bottom 5
    } else if i == 8 {
        Rect { x: 100, y: 400, w: 266, h: 166 }  // Left gate bottom
    } else if i == 9 {
        Rect { x: 100, y: 666, w: 266, h: 167 }  // Left gate top
    } else if i == 10 {
        Rect { x: 3333, y: 400, w: 266, h: 166 }  // Right gate bottom
    } else if i == 11 {
        Rect { x: 3333, y: 666, w: 266, h: 167 }  // Right gate top
    } else if i == 12 {
        Rect { x: 466, y: 400, w: 567, h: 633 }  // D
    } else if i == 13 {
        Rect { x: 1733, y: 400, w: 167, h: 433 }  // n 1
    } else if i == 14 {
        Rect { x: 1900, y: 733, w: 100, h: 100 }  // n 2
    } else if i == 15 {
        Rect { x: 2000, y: 400, w: 166, h: 433 }  // n 3
    } else if i == 16 {
        Rect { x: 2266, y: 400, w: 167, h: 433 }  // i
    } else if i == 17 {
        Rect { x: 2533, y: 400, w: 167, h: 433 }  // e 1
    } else if i == 18 {
        Rect { x: 2533, y: 400, w: 433, h: 100 }  // e 2
    } else if i == 19 {
        Rect { x: 2533, y: 600, w: 433, h: 233 }  // e 3
    } else if i == 20 {
        Rect { x: 3066, y: 400, w: 167, h: 633 }  // l
    } else if i == 21 {
        Rect { x: 1133, y: 533, w: 500, h: 300 }  // Box
    } else if i == 22 {
        Rect { x: 1133, y: 333, w: 500, h: 100 }  // Start 1
    } else if i == 23 {
        Rect { x: 1333, y: 200, w: 100, h: 233 }  // Start 2
    } else if i == 24 {
        Rect { x: 200, y: 933, w: 166, h: 100 }  // Top 1
    } else if i == 25 {
        Rect { x: 1133, y: 933, w: 500, h: 100 }  // Top 2
    } else if i == 26 {
        Rect { x: 1733, y: 933, w: 1233, h: 100 }  // Top 3
    } else {
        Rect { x: 3333, y: 933, w: 167, h: 100 }  // Top 4
    }
}

/// The `i`-th rectangle of the maze's walls.
pub fn obstacle_at(i: usize) -> (r: Rect)
    requires
        i < OBSTACLE_COUNT,
    ensures
        r == obstacle(i as int),
{
    match i {
        0 => Rect { x: 1133, y: 100, w: 100, h: 133 },
        1 => Rect { x: 1533, y: 100, w: 100, h: 133 },
        2 => Rect { x: 2666, y: 100, w: 100, h: 200 },
        3 => Rect { x: 200, y: 200, w: 233, h: 100 },
        4 => Rect { x: 533, y: 200, w: 500, h: 100 },
        5 => Rect { x: 1733, y: 200, w: 833, h: 100 },
        6 => Rect { x: 2866, y: 200, w: 300, h: 100 },
        7 => Rect { x: 3266, y: 200, w: 234, h: 100 },
        8 => Rect { x: 100, y: 400, w: 266, h: 166 },
        9 => Rect { x: 100, y: 666, w: 266, h: 167 },
        10 => Rect { x: 3333, y: 400, w: 266, h: 166 },
        11 => Rect { x: 3333, y: 666, w: 266, h: 167 },
        12 => Rect { x: 466, y: 400, w: 567, h: 633 },
        13 => Rect { x: 1733, y: 400, w: 167, h: 433 },
        14 => Rect { x: 1900, y: 733, w: 100, h: 100 },
        15 => Rect { x: 2000, y: 400, w: 166, h: 433 },
        16 => Rect { x: 2266, y: 400, w: 167, h: 433 },
        17 => Rect { x: 2533, y: 400, w: 167, h: 433 },
        18 => Rect { x: 2533, y: 400, w: 433, h: 100 },
        19 => Rect { x: 2533, y: 600, w: 433, h: 233 },
        20 => Rect { x: 3066, y: 400, w: 167, h: 633 },
        21 => Rect { x: 1133, y: 533, w: 500, h: 300 },
        22 => Rect { x: 1133, y: 333, w: 500, h: 100 },
        23 => Rect { x: 1333, y: 200, w: 100, h: 233 },
        24 => Rect { x: 200, y: 933, w: 166, h: 100 },
        25 => Rect { x: 1133, y: 933, w: 500, h: 100 },
        26 => Rect { x: 1733, y: 933, w: 1233, h: 100 },
        _ => Rect { x: 3333, y: 933, w: 167, h: 100 },
    }
}

/// Whether the `size`-wide box centred at (`x`, `y`) overlaps the inside of `r`;
/// touching edges do not count.
pub open spec fn rect_overlaps(r: Rect, x: int, y: int, size: int) -> bool {
    let offset = size / 2;
    &&& r.x < x + offset
    &&& r.x + r.w > x - offset
    &&& r.y < y + offset
    &&& r.y + r.h > y - offset
}

/// Whether the `size`-wide box centred at (`x`, `y`) lies within the playable box.
pub open spec fn in_map(x: int, y: int, size: int) -> bool {
    let offset = size / 2;
    &&& x - offset >= MAZE_START_X
    &&& x + offset <= MAZE_END_X
    &&& y - offset >= MAZE_START_Y
    &&& y + offset <= MAZE_END_Y
}

/// Whether the `size`-wide box centred at (`x`, `y`) overlaps any wall.
pub open spec fn collides_with_obstacle(x: int, y: int, size: int) -> bool {
    exists|i: int| 0 <= i < OBSTACLE_COUNT && #[trigger] rect_overlaps(obstacle(i), x, y, size)
}

/// Whether the point lies in the playable box, or anywhere on the tunnel row.
pub open spec fn inside_playable_area(x: int, y: int, size: int) -> bool {
    in_map(x, y, size) || y == TUNNEL_Y
}

/// Whether a `size`-wide unit may stand at (`x`, `y`).
pub open spec fn can_occupy(x: int, y: int, size: int) -> bool {
    inside_playable_area(x, y, size) && !collides_with_obstacle(x, y, size)
}

/// Whether a unit may stand at `pos`.
pub open spec fn unit_may_stand(pos: UnitPosition) -> bool {
    can_occupy(pos.x as int, pos.y as int, UNIT_SIZE as int)
}

/// Whether a unit at `pos` may take one step in direction `d`.
pub open spec fn can_step(pos: UnitPosition, d: UnitDirection) -> bool {
    pos.step_fits(d) && can_occupy(pos.stepped_x(d), pos.stepped_y(d), UNIT_SIZE as int)
}

/// Horizontal coordinate after the tunnel teleport of a unit at (`x`, `y`).
pub open spec fn spec_teleported_x(x: int, y: int) -> int {
    if y == TUNNEL_Y && x == TUNNEL_X_LEFT {
        TUNNEL_X_RIGHT as int
    } else if y == TUNNEL_Y && x == TUNNEL_X_RIGHT {
        TUNNEL_X_LEFT as int
    } else {
        x
    }
}

/// Strict overlap of the centred boxes of two units, sizes given in pixels.
pub open spec fn boxes_overlap(a: UnitPosition, a_size: int, b: UnitPosition, b_size: int) -> bool {
    &&& 2 * (a.x - b.x) < a_size + b_size
    &&& 2 * (b.x - a.x) < a_size + b_size
    &&& 2 * (a.y - b.y) < a_size + b_size
    &&& 2 * (b.y - a.y) < a_size + b_size
}

impl Rect {
    /// Whether the `size`-wide box centred at (`x`, `y`) overlaps this rectangle.
    pub fn collide(&self, x: i32, y: i32, size: u32) -> (r: bool)
        ensures
            r == rect_overlaps(*self, x as int, y as int, size as int),
    {
        let offset: i64 = (size / 2) as i64;
        let x: i64 = x as i64;
        let y: i64 = y as i64;
        let rx: i64 = self.x as i64;
        let ry: i64 = self.y as i64;
        rx < x + offset && rx + self.w as i64 > x - offset && ry < y + offset && ry + self.h as i64
            > y - offset
    }
}

/// Whether the `size`-wide box centred at (`x`, `y`) lies within the playable box.
pub fn check_in_map(x: i32, y: i32, size: u32) -> (r: bool)
    ensures
        r == in_map(x as int, y as int, size as int),
{
    let offset: i64 = (size / 2) as i64;
    let x: i64 = x as i64;
    let y: i64 = y as i64;
    x - offset >= MAZE_START_X as i64 && x + offset <= MAZE_END_X as i64 && y - offset
        >= MAZE_START_Y as i64 && y + offset <= MAZE_END_Y as i64
}

/// Whether `y` is the tunnel row.
pub fn check_in_tunnel(y: i32) -> (r: bool)
    ensures
        r == (y == TUNNEL_Y),
{
    y == TUNNEL_Y
}

/// Whether the point lies in the playable box, or on the tunnel row.
pub fn is_inside_playable_area(x: i32, y: i32, size: u32) -> (r: bool)
    ensures
        r == inside_playable_area(x as int, y as int, size as int),
{
    check_in_map(x, y, size) || check_in_tunnel(y)
}

/// Whether the `size`-wide box centred at (`x`, `y`) overlaps any wall.
pub fn check_for_collisions(x: i32, y: i32, size: u32) -> (r: bool)
    ensures
        r == collides_with_obstacle(x as int, y as int, size as int),
{
    let mut i: usize = 0;
    while i < OBSTACLE_COUNT
        invariant
            0 <= i <= OBSTACLE_COUNT,
            forall|j: int| 0 <= j < i ==> !rect_overlaps(obstacle(j), x as int, y as int, size as int),
        decreases OBSTACLE_COUNT - i,
    {
        let obstacle = obstacle_at(i);
        if obstacle.collide(x, y, size) {
            return true;
        }
        i = i + 1;
    }
    false
}

/// Whether a `size`-wide unit may stand at (`x`, `y`).
pub fn can_occupy_at(x: i32, y: i32, size: u32) -> (r: bool)
    ensures
        r == can_occupy(x as int, y as int, size as int),
{
    is_inside_playable_area(x, y, size) && !check_for_collisions(x, y, size)
}

/// Whether a unit may stand at `pos`.
pub fn unit_can_move(pos: &UnitPosition) -> (r: bool)
    ensures
        r == unit_may_stand(*pos),
{
    can_occupy_at(pos.x, pos.y, UNIT_SIZE)
}

/// Whether a unit at `current_pos` may take one step in `direction`: the
/// position one step away, after the tunnel teleport, must be free.
pub fn unit_can_move_in_direction(current_pos: &UnitPosition, direction: UnitDirection) -> (r: bool)
    ensures
        r == can_step(*current_pos, direction),
{
    let fits = match direction {
        UnitDirection::Left => current_pos.x > i32::MIN,
        UnitDirection::Right => current_pos.x < i32::MAX,
        UnitDirection::Up => current_pos.y < i32::MAX,
        UnitDirection::Down => current_pos.y > i32::MIN,
        UnitDirection::Idle => true,
    };
    if !fits {
        return false;
    }
    let mut new_pos = *current_pos;
    new_pos.move_in_direction(direction);
    unit_can_move(&new_pos)
}

/// Whether the centred boxes of two units overlap; touching edges do not count.
pub fn units_collide(a_pos: &UnitPosition, a_size: i32, b_pos: &UnitPosition, b_size: i32) -> (r: bool)
    ensures
        r == boxes_overlap(*a_pos, a_size as int, *b_pos, b_size as int),
{
    let sizes: i64 = a_size as i64 + b_size as i64;
    let ax: i64 = a_pos.x as i64;
    let ay: i64 = a_pos.y as i64;
    let bx: i64 = b_pos.x as i64;
    let by: i64 = b_pos.y as i64;
    2 * (ax - bx) < sizes && 2 * (bx - ax) < sizes && 2 * (ay - by) < sizes && 2 * (by - ay)
        < sizes
}

/// Moves a unit that stands at either end of the tunnel to the other end.
pub fn teleport_tunnel(pos: &mut UnitPosition)
    ensures
        final(pos).y == old(pos).y,
        final(pos).x == spec_teleported_x(old(pos).x as int, old(pos).y as int),
{
    if pos.y == TUNNEL_Y {
        if pos.x == TUNNEL_X_LEFT {
            pos.x = TUNNEL_X_RIGHT;
        } else if pos.x == TUNNEL_X_RIGHT {
            pos.x = TUNNEL_X_LEFT;
        }
    }
}

/// Whether (`x`, `y`) lies strictly inside `r`.
pub open spec fn strictly_inside(r: Rect, x: int, y: int) -> bool {
    r.x < x < r.x + r.w && r.y < y < r.y + r.h
}

/// Whether (`x`, `y`) lies on the edge of `r`.
pub open spec fn on_edge(r: Rect, x: int, y: int) -> bool {
    &&& r.x <= x <= r.x + r.w
    &&& r.y <= y <= r.y + r.h
    &&& (x == r.x || x == r.x + r.w || y == r.y || y == r.y + r.h)
}

/// Walls are open sets: a zero-size probe collides exactly at the points
/// strictly inside some wall. A point strictly inside a wall collides; a
/// point on a wall's edge does not collide with that wall, and collides with
/// nothing when no other wall has it strictly inside.
pub proof fn lemma_zero_probe(i: int, x: int, y: int)
    requires
        0 <= i < OBSTACLE_COUNT,
    ensures
        collides_with_obstacle(x, y, 0) == exists|j: int|
            0 <= j < OBSTACLE_COUNT && #[trigger] strictly_inside(obstacle(j), x, y),
        strictly_inside(obstacle(i), x, y) ==> collides_with_obstacle(x, y, 0),
        on_edge(obstacle(i), x, y) ==> !rect_overlaps(obstacle(i), x, y, 0),
        on_edge(obstacle(i), x, y) && (forall|j: int|
            0 <= j < OBSTACLE_COUNT ==> !#[trigger] strictly_inside(obstacle(j), x, y)) ==> !collides_with_obstacle(
            x,
            y,
            0,
        ),
{
    assert forall|j: int| #[trigger] rect_overlaps(obstacle(j), x, y, 0) == strictly_inside(obstacle(j), x, y) by {}
    if strictly_inside(obstacle(i), x, y) {
        assert(rect_overlaps(obstacle(i), x, y, 0));
    }
    if collides_with_obstacle(x, y, 0) {
        let j = choose|j: int| 0 <= j < OBSTACLE_COUNT && #[trigger] rect_overlaps(obstacle(j), x, y, 0);
        assert(strictly_inside(obstacle(j), x, y));
    }
    if exists|j: int| 0 <= j < OBSTACLE_COUNT && #[trigger] strictly_inside(obstacle(j), x, y) {
        let j = choose|j: int| 0 <= j < OBSTACLE_COUNT && #[trigger] strictly_inside(obstacle(j), x, y);
        assert(rect_overlaps(obstacle(j), x, y, 0));
    }
}

/// Leaving by one tunnel mouth lands on the other, and the unit keeps going
/// the same way from there: moving left from the left mouth's neighbour
/// reaches the right mouth, and moving left again goes on leftwards; the
/// same holds to the right.
pub proof fn lemma_tunnel_wrap(x: int)
    ensures
        spec_teleported_x(TUNNEL_X_LEFT as int, TUNNEL_Y as int) == TUNNEL_X_RIGHT,
        spec_teleported_x(TUNNEL_X_RIGHT as int, TUNNEL_Y as int) == TUNNEL_X_LEFT,
        TUNNEL_X_LEFT < x <= TUNNEL_X_RIGHT ==> (UnitPosition { x: x as i32, y: TUNNEL_Y }).stepped(
            UnitDirection::Left,
        ) == (UnitPosition { x: if x == TUNNEL_X_LEFT + 1 { TUNNEL_X_RIGHT } else { (x - 1) as i32 }, y: TUNNEL_Y }),
        TUNNEL_X_LEFT <= x < TUNNEL_X_RIGHT ==> (UnitPosition { x: x as i32, y: TUNNEL_Y }).stepped(
            UnitDirection::Right,
        ) == (UnitPosition { x: if x == TUNNEL_X_RIGHT - 1 { TUNNEL_X_LEFT } else { (x + 1) as i32 }, y: TUNNEL_Y }),
{
}

} // verus!
