use vstd::prelude::*;

use crate::collision::{can_step, unit_can_move_in_direction, unit_may_stand};
use crate::unit::{UnitDirection, UnitPosition};

verus! {

/// Microseconds in one second.
pub const MICROS_PER_SECOND: u64 = 1_000_000;

/// Whole pixels a unit at `speed` pixels per second covers in `delta_us` microseconds.
pub open spec fn spec_pixel_budget(delta_us: int, speed: int) -> int {
    delta_us * speed / MICROS_PER_SECOND as int
}

/// Where `n` pixel steps take a unit at `pos` heading `current` that would
/// rather head `preferred`: each step takes `preferred` when it is free (and
/// adopts it), else `current` when that is free; when neither is, the unit stops.
pub open spec fn walk(pos: UnitPosition, current: UnitDirection, preferred: UnitDirection, n: nat) -> (
    UnitPosition,
    UnitDirection,
)
    decreases n,
{
    if n == 0 {
        (pos, current)
    } else if can_step(pos, preferred) {
        walk(pos.stepped(preferred), preferred, preferred, (n - 1) as nat)
    } else if can_step(pos, current) {
        walk(pos.stepped(current), current, preferred, (n - 1) as nat)
    } else {
        (pos, current)
    }
}

/// The direction of the first step of a walk, if it takes one.
pub open spec fn first_step(pos: UnitPosition, current: UnitDirection, preferred: UnitDirection, n: nat) -> Option<UnitDirection> {
    if n == 0 {
        None
    } else if can_step(pos, preferred) {
        Some(preferred)
    } else if can_step(pos, current) {
        Some(current)
    } else {
        None
    }
}

/// A free step lands on a position where a unit may stand.
pub proof fn lemma_step_lands_free(pos: UnitPosition, d: UnitDirection)
    requires
        can_step(pos, d),
    ensures
        unit_may_stand(pos.stepped(d)),
        pos.stepped(d).x == pos.stepped_x(d),
        pos.stepped(d).y == pos.stepped_y(d),
{
}

/// A walk ends where it started, or on a position where a unit may stand:
/// every position it commits to was checked first.
pub proof fn lemma_walk_ends_free(pos: UnitPosition, current: UnitDirection, preferred: UnitDirection, n: nat)
    ensures
        walk(pos, current, preferred, n).0 == pos || unit_may_stand(walk(pos, current, preferred, n).0),
    decreases n,
{
    if n > 0 {
        if can_step(pos, preferred) {
            lemma_step_lands_free(pos, preferred);
            lemma_walk_ends_free(pos.stepped(preferred), preferred, preferred, (n - 1) as nat);
        } else if can_step(pos, current) {
            lemma_step_lands_free(pos, current);
            lemma_walk_ends_free(pos.stepped(current), current, preferred, (n - 1) as nat);
        }
    }
}

/// A walk ends heading where it started or in the preferred direction.
pub proof fn lemma_walk_heading(pos: UnitPosition, current: UnitDirection, preferred: UnitDirection, n: nat)
    ensures
        walk(pos, current, preferred, n).1 == current || walk(pos, current, preferred, n).1 == preferred,
    decreases n,
{
    if n > 0 {
        if can_step(pos, preferred) {
            lemma_walk_heading(pos.stepped(preferred), preferred, preferred, (n - 1) as nat);
        } else if can_step(pos, current) {
            lemma_walk_heading(pos.stepped(current), current, preferred, (n - 1) as nat);
        }
    }
}

/// Whole pixels a unit at `speed` pixels per second covers in `delta_us`
/// microseconds, rounded down.
pub fn pixel_budget(delta_us: u64, speed: u16) -> (r: u64)
    ensures
        r == spec_pixel_budget(delta_us as int, speed as int),
{
    assert(delta_us as int * speed as int <= u64::MAX as int * u16::MAX as int) by (nonlinear_arith)
        requires
            delta_us <= u64::MAX,
            speed <= u16::MAX,
    ;
    let product: u128 = delta_us as u128 * speed as u128;
    let r: u128 = product / MICROS_PER_SECOND as u128;
    assert(r <= delta_us) by (nonlinear_arith)
        requires
            r == product / 1_000_000,
            product == delta_us * speed,
            speed <= u16::MAX,
    ;
    r as u64
}

/// Moves a unit up to `budget` pixels: before each pixel it tries `preferred`
/// (adopting it as `current` when free), then `current`; when neither is
/// free it stops for the rest of the budget. Each position committed to is
/// checked first. Returns the direction of the first step taken, if any.
pub fn advance_unit(pos: &mut UnitPosition, current: &mut UnitDirection, preferred: UnitDirection, budget: u64) -> (first: Option<
    UnitDirection,
>)
    ensures
        (*final(pos), *final(current)) == walk(*old(pos), *old(current), preferred, budget as nat),
        first == first_step(*old(pos), *old(current), preferred, budget as nat),
        *final(pos) == *old(pos) || unit_may_stand(*final(pos)),
{
    proof {
        lemma_walk_ends_free(*pos, *current, preferred, budget as nat);
    }
    let ghost start = (*pos, *current);
    let mut first: Option<UnitDirection> = None;
    let mut i: u64 = 0;
    while i < budget
        invariant
            i <= budget,
            walk(*pos, *current, preferred, (budget - i) as nat) == walk(start.0, start.1, preferred, budget as nat),
            i == 0 ==> (*pos, *current) == start,
            first == (if i == 0 { None } else { first_step(start.0, start.1, preferred, budget as nat) }),
        ensures
            (*pos, *current) == walk(start.0, start.1, preferred, budget as nat),
            first == first_step(start.0, start.1, preferred, budget as nat),
        decreases budget - i,
    {
        if unit_can_move_in_direction(pos, preferred) {
            *current = preferred;
        } else if !unit_can_move_in_direction(pos, *current) {
            break;
        }
        if i == 0 {
            first = Some(*current);
        }
        pos.move_in_direction(*current);
        i = i + 1;
    }
    first
}

} // verus!
