use vstd::prelude::*;

use crate::collision::{spec_teleported_x, teleport_tunnel};

verus! {

/// Width and height of a moving unit's box, in maze pixels.
pub const UNIT_SIZE: u32 = 100;

/// Width and height of the box used to detect contact between units.
pub const UNIT_HITBOX_SIZE: u32 = 10;

/// Integer position of a unit in maze-pixel space.
#[derive(Clone, Copy, PartialEq, Eq, Structural, Debug)]
pub struct UnitPosition {
    pub x: i32,
    pub y: i32,
}

/// Movement direction of a unit.
#[derive(Clone, Copy, PartialEq, Eq, Structural, Debug)]
pub enum UnitDirection {
    Idle,
    Left,
    Up,
    Right,
    Down,
}

/// Horizontal offset of one step in direction `d`.
pub open spec fn step_dx(d: UnitDirection) -> int {
    match d {
        UnitDirection::Left => -1,
        UnitDirection::Right => 1,
        _ => 0,
    }
}

/// Vertical offset of one step in direction `d`.
pub open spec fn step_dy(d: UnitDirection) -> int {
    match d {
        UnitDirection::Up => 1,
        UnitDirection::Down => -1,
        _ => 0,
    }
}

/// Whether `v` is representable as an `i32`.
pub open spec fn fits_i32(v: int) -> bool {
    i32::MIN <= v <= i32::MAX
}

impl UnitPosition {
    /// Vertical coordinate after one step in direction `d`.
    pub open spec fn stepped_y(self, d: UnitDirection) -> int {
        self.y + step_dy(d)
    }

    /// Horizontal coordinate after one step in direction `d`, tunnel teleport included.
    pub open spec fn stepped_x(self, d: UnitDirection) -> int {
        spec_teleported_x(self.x + step_dx(d), self.stepped_y(d))
    }

    /// Whether one step in direction `d` stays within the coordinate range.
    pub open spec fn step_fits(self, d: UnitDirection) -> bool {
        fits_i32(self.x + step_dx(d)) && fits_i32(self.stepped_y(d))
    }

    /// The position one step in direction `d` away, tunnel teleport included.
    pub open spec fn stepped(self, d: UnitDirection) -> UnitPosition {
        UnitPosition { x: self.stepped_x(d) as i32, y: self.stepped_y(d) as i32 }
    }

    /// Moves the position one pixel in `direction`, then applies the tunnel
    /// teleport. `Idle` leaves the position where it is.
    pub fn move_in_direction(&mut self, direction: UnitDirection)
        requires
            old(self).step_fits(direction),
        ensures
            final(self).x == old(self).stepped_x(direction),
            final(self).y == old(self).stepped_y(direction),
            *final(self) == old(self).stepped(direction),
    {
        match direction {
            UnitDirection::Left => self.x = self.x - 1,
            UnitDirection::Right => self.x = self.x + 1,
            UnitDirection::Up => self.y = self.y + 1,
            UnitDirection::Down => self.y = self.y - 1,
            UnitDirection::Idle => {},
        }
        teleport_tunnel(self);
    }
}

impl UnitDirection {
    /// The reverse direction; `Idle` is its own reverse.
    pub open spec fn spec_opposite(self) -> UnitDirection {
        match self {
            UnitDirection::Left => UnitDirection::Right,
            UnitDirection::Right => UnitDirection::Left,
            UnitDirection::Up => UnitDirection::Down,
            UnitDirection::Down => UnitDirection::Up,
            UnitDirection::Idle => UnitDirection::Idle,
        }
    }

    /// The `i`-th of the four moving directions, in the order Left, Up, Right, Down.
    pub open spec fn spec_moving(i: int) -> UnitDirection {
        if i == 0 {
            UnitDirection::Left
        } else if i == 1 {
            UnitDirection::Up
        } else if i == 2 {
            UnitDirection::Right
        } else {
            UnitDirection::Down
        }
    }

    /// The reverse direction; `Idle` is its own reverse.
    pub fn opposite(self) -> (r: Self)
        ensures
            r == self.spec_opposite(),
    {
        match self {
            UnitDirection::Left => UnitDirection::Right,
            UnitDirection::Right => UnitDirection::Left,
            UnitDirection::Up => UnitDirection::Down,
            UnitDirection::Down => UnitDirection::Up,
            UnitDirection::Idle => UnitDirection::Idle,
        }
    }

    /// The `i`-th of the four moving directions, in the order Left, Up, Right, Down.
    pub fn moving(i: usize) -> (r: Self)
        requires
            i < 4,
        ensures
            r == Self::spec_moving(i as int),
            r != UnitDirection::Idle,
    {
        if i == 0 {
            UnitDirection::Left
        } else if i == 1 {
            UnitDirection::Up
        } else if i == 2 {
            UnitDirection::Right
        } else {
            UnitDirection::Down
        }
    }

    /// A direction drawn uniformly from Left, Up, Right and Down.
    pub fn random() -> (r: Self)
        ensures
            r != UnitDirection::Idle,
    {
        let index = random_below(4);
        Self::moving(index)
    }
}

/// Relies on `rand::thread_rng` and `Rng::gen_range`: a value drawn from
/// `0..n`. `gen_range` panics on an empty range, hence `n > 0`.
#[verifier::external_body]
pub(crate) fn random_below(n: usize) -> (r: usize)
    requires
        n > 0,
    ensures
        r < n,
{
    rand::Rng::gen_range(&mut rand::thread_rng(), 0..n)
}

} // verus!
