use vstd::prelude::*;

use crate::collision::{boxes_overlap, can_step, unit_can_move_in_direction, unit_may_stand};
use crate::game::{elapsed, elapsed_since};
use crate::movement::{advance_unit, lemma_walk_heading, pixel_budget, spec_pixel_budget, walk};
use crate::states::{GameState, PacmanState};
use crate::unit::{random_below, UnitDirection, UnitPosition, UNIT_HITBOX_SIZE};

verus! {

/// Roaming speed in round zero, pixels per second.
pub const GHOST_SPEED_NORMAL: u16 = 400;
/// Speed of a frightened ghost, pixels per second.
pub const GHOST_SPEED_FRIGHTENED: u16 = 300;
/// Added to the roaming speed for every round.
pub const GHOST_SPEED_ROUND_INCREASE: u16 = 25;
/// Cap on the roaming speed.
pub const GHOST_SPEED_MAX: u16 = 500;

/// Delay between the releases of two consecutive ghosts, and before an eaten
/// ghost leaves the pen again, in microseconds.
pub const GHOST_RELEASE_DELAY: u64 = 5_000_000;

/// Height a ghost climbs to before heading for the pen's gate.
pub const PEN_LIFT_Y: i32 = 713;
/// Column of the pen's gate.
pub const PEN_GATE_X: i32 = 1380;
/// Height past which a ghost has left the pen.
pub const PEN_EXIT_Y: i32 = 883;

/// Time between two frames of a ghost's animation, in microseconds.
pub const GHOST_FRAME_TIME: u64 = 500_000;
/// Number of frames in the ghosts' sprite sheet.
pub const GHOST_SPRITE_FRAMES: usize = 12;

/// Identity of a ghost, and the two shared looks of a frightened one.
#[derive(Clone, Copy, PartialEq, Eq, Structural, Debug, Hash)]
pub enum GhostId {
    Blinky,
    Pinky,
    Inky,
    Clyde,
    Frightened,
    FrightenedBlink,
}

impl GhostId {
    /// Ordinal of the identity.
    pub open spec fn spec_id(self) -> nat {
        match self {
            GhostId::Blinky => 0,
            GhostId::Pinky => 1,
            GhostId::Inky => 2,
            GhostId::Clyde => 3,
            GhostId::Frightened => 4,
            GhostId::FrightenedBlink => 5,
        }
    }

    /// Ordinal of the identity.
    pub fn get_id(&self) -> (r: usize)
        ensures
            r == self.spec_id(),
    {
        match self {
            GhostId::Blinky => 0,
            GhostId::Pinky => 1,
            GhostId::Inky => 2,
            GhostId::Clyde => 3,
            GhostId::Frightened => 4,
            GhostId::FrightenedBlink => 5,
        }
    }

    /// First of the two animation frames of this look.
    pub fn get_sprite_index(&self) -> (r: usize)
        ensures
            r == 2 * self.spec_id(),
    {
        match self {
            GhostId::Blinky => 0,
            GhostId::Pinky => 2,
            GhostId::Inky => 4,
            GhostId::Clyde => 6,
            GhostId::Frightened => 8,
            GhostId::FrightenedBlink => 10,
        }
    }

    /// Where the ghost waits in the pen: side by side, 110 pixels apart.
    pub open spec fn spec_start_pos(self) -> UnitPosition {
        UnitPosition { x: (1213 + 110 * self.spec_id()) as i32, y: 613 }
    }

    /// Where the ghost waits in the pen.
    pub fn get_start_pos(&self) -> (r: UnitPosition)
        ensures
            r == self.spec_start_pos(),
    {
        UnitPosition { x: 1213 + (self.get_id() * 110) as i32, y: 613 }
    }
}

/// A ghost: who it is, where it heads, when it may leave the pen, whether it
/// has left it and whether it is frightened, with its timers.
#[derive(Clone, Copy, PartialEq, Eq, Structural, Debug)]
pub struct GhostUnit {
    pub ghost_id: GhostId,
    pub current_direction: UnitDirection,
    pub spawn_time: u64,
    pub is_moved_out: bool,
    pub is_frightened: bool,
    pub movement_time: u64,
    pub animation_time: u64,
}

impl GhostUnit {
    /// A ghost in the pen with a random heading, released at `spawn_time`.
    pub fn new(ghost_id: GhostId, spawn_time: u64) -> (r: Self)
        ensures
            r.ghost_id == ghost_id,
            r.current_direction != UnitDirection::Idle,
            r.spawn_time == spawn_time,
            !r.is_moved_out,
            !r.is_frightened,
            r.movement_time == 0,
            r.animation_time == 0,
    {
        GhostUnit {
            ghost_id,
            current_direction: UnitDirection::random(),
            spawn_time,
            is_moved_out: false,
            is_frightened: false,
            movement_time: 0,
            animation_time: 0,
        }
    }

    /// Sends the ghost back to the pen, to be released at `spawn_time`.
    pub fn reset(&mut self, spawn_time: u64)
        ensures
            *final(self) == (GhostUnit {
                is_moved_out: false,
                is_frightened: false,
                spawn_time,
                ..*old(self)
            }),
    {
        self.is_moved_out = false;
        self.is_frightened = false;
        self.spawn_time = spawn_time;
    }
}

/// The four ghosts of a round, each in its place in the pen, released one
/// after another from `now` on.
pub fn spawn_ghosts(now: u64) -> (r: (Vec<GhostUnit>, Vec<UnitPosition>))
    requires
        now + 3 * GHOST_RELEASE_DELAY <= u64::MAX,
    ensures
        r.0@.len() == 4,
        r.1@.len() == 4,
        r.0@[0].ghost_id == GhostId::Blinky,
        r.0@[1].ghost_id == GhostId::Pinky,
        r.0@[2].ghost_id == GhostId::Inky,
        r.0@[3].ghost_id == GhostId::Clyde,
        forall|i: int|
            0 <= i < 4 ==> {
                let g = #[trigger] r.0@[i];
                &&& g.spawn_time == now + GHOST_RELEASE_DELAY * g.ghost_id.spec_id()
                &&& r.1@[i] == g.ghost_id.spec_start_pos()
                &&& !g.is_moved_out
                &&& !g.is_frightened
                &&& g.current_direction != UnitDirection::Idle
            },
{
    let ids = [GhostId::Blinky, GhostId::Pinky, GhostId::Inky, GhostId::Clyde];
    let mut ghosts: Vec<GhostUnit> = Vec::new();
    let mut positions: Vec<UnitPosition> = Vec::new();
    let mut i: usize = 0;
    while i < 4
        invariant
            0 <= i <= 4,
            ids@ == seq![GhostId::Blinky, GhostId::Pinky, GhostId::Inky, GhostId::Clyde],
            ghosts@.len() == i,
            positions@.len() == i,
            now + 3 * GHOST_RELEASE_DELAY <= u64::MAX,
            forall|j: int|
                0 <= j < i ==> {
                    let g = #[trigger] ghosts@[j];
                    &&& g.ghost_id == ids@[j]
                    &&& g.spawn_time == now + GHOST_RELEASE_DELAY * g.ghost_id.spec_id()
                    &&& positions@[j] == g.ghost_id.spec_start_pos()
                    &&& !g.is_moved_out
                    &&& !g.is_frightened
                    &&& g.current_direction != UnitDirection::Idle
                },
        decreases 4 - i,
    {
        let id = ids[i];
        let delay = GHOST_RELEASE_DELAY * id.get_id() as u64;
        ghosts.push(GhostUnit::new(id, now + delay));
        positions.push(id.get_start_pos());
        i = i + 1;
    }
    (ghosts, positions)
}

/// One step along the fixed path out of the pen for a released ghost. It
/// climbs to `PEN_LIFT_Y`, walks sideways to `PEN_GATE_X` and climbs to
/// `PEN_EXIT_Y`; standing there, it is marked as moved out.
pub open spec fn pen_exit(ghost: GhostUnit, pos: UnitPosition) -> (GhostUnit, UnitPosition) {
    if ghost.is_moved_out {
        (ghost, pos)
    } else if pos.y < PEN_LIFT_Y {
        (ghost, pos.stepped(UnitDirection::Up))
    } else if pos.x > PEN_GATE_X {
        (ghost, pos.stepped(UnitDirection::Left))
    } else if pos.x < PEN_GATE_X {
        (ghost, pos.stepped(UnitDirection::Right))
    } else if pos.y < PEN_EXIT_Y {
        (ghost, pos.stepped(UnitDirection::Up))
    } else {
        (GhostUnit { is_moved_out: true, ..ghost }, pos)
    }
}

/// Moves a released ghost one step along its way out of the pen. A ghost
/// whose release time lies ahead stays where it is.
pub fn move_ghost_out(ghost: &mut GhostUnit, pos: &mut UnitPosition, now: u64)
    ensures
        old(ghost).spawn_time > now ==> *final(ghost) == *old(ghost) && *final(pos) == *old(pos),
        old(ghost).spawn_time <= now ==> (*final(ghost), *final(pos)) == pen_exit(*old(ghost), *old(pos)),
{
    if ghost.spawn_time > now {
        return;
    }
    if !ghost.is_moved_out {
        if pos.y < PEN_LIFT_Y {
            pos.move_in_direction(UnitDirection::Up);
        } else if pos.x > PEN_GATE_X {
            pos.move_in_direction(UnitDirection::Left);
        } else if pos.x < PEN_GATE_X {
            pos.move_in_direction(UnitDirection::Right);
        } else if pos.y < PEN_EXIT_Y {
            pos.move_in_direction(UnitDirection::Up);
        } else {
            ghost.is_moved_out = true;
        }
    }
}

/// Moves every released ghost one step along its way out of the pen.
pub fn move_ghosts_out(ghosts: &mut Vec<GhostUnit>, positions: &mut Vec<UnitPosition>, now: u64)
    requires
        old(ghosts)@.len() == old(positions)@.len(),
    ensures
        final(ghosts)@.len() == old(ghosts)@.len(),
        final(positions)@.len() == old(positions)@.len(),
        forall|i: int|
            0 <= i < old(ghosts)@.len() ==> if old(ghosts)@[i].spawn_time > now {
                #[trigger] final(ghosts)@[i] == old(ghosts)@[i] && final(positions)@[i] == old(positions)@[i]
            } else {
                (final(ghosts)@[i], final(positions)@[i]) == pen_exit(old(ghosts)@[i], old(positions)@[i])
            },
{
    let mut i: usize = 0;
    while i < ghosts.len()
        invariant
            0 <= i <= ghosts@.len(),
            ghosts@.len() == old(ghosts)@.len(),
            positions@.len() == old(positions)@.len(),
            ghosts@.len() == positions@.len(),
            forall|j: int|
                0 <= j < i ==> if old(ghosts)@[j].spawn_time > now {
                    #[trigger] ghosts@[j] == old(ghosts)@[j] && positions@[j] == old(positions)@[j]
                } else {
                    (ghosts@[j], positions@[j]) == pen_exit(old(ghosts)@[j], old(positions)@[j])
                },
            forall|j: int| i <= j < ghosts@.len() ==> #[trigger] ghosts@[j] == old(ghosts)@[j],
            forall|j: int| i <= j < positions@.len() ==> #[trigger] positions@[j] == old(positions)@[j],
        decreases ghosts@.len() - i,
    {
        let mut g = ghosts[i];
        let mut p = positions[i];
        move_ghost_out(&mut g, &mut p, now);
        ghosts[i] = g;
        positions[i] = p;
        i = i + 1;
    }
}

/// Speed of a roaming ghost: a fixed low speed while frightened, else the
/// base speed raised every round, up to a cap.
pub open spec fn spec_ghost_speed(round: u32, is_frightened: bool) -> int {
    if is_frightened {
        GHOST_SPEED_FRIGHTENED as int
    } else {
        let s = GHOST_SPEED_NORMAL + GHOST_SPEED_ROUND_INCREASE * round;
        if s > GHOST_SPEED_MAX {
            GHOST_SPEED_MAX as int
        } else {
            s
        }
    }
}

/// Speed of a roaming ghost, pixels per second.
pub fn ghost_speed(round: u32, is_frightened: bool) -> (r: u16)
    ensures
        r == spec_ghost_speed(round, is_frightened),
{
    if is_frightened {
        GHOST_SPEED_FRIGHTENED
    } else {
        let s: u64 = GHOST_SPEED_NORMAL as u64 + GHOST_SPEED_ROUND_INCREASE as u64 * round as u64;
        if s > GHOST_SPEED_MAX as u64 {
            GHOST_SPEED_MAX
        } else {
            s as u16
        }
    }
}

/// Position of a moving direction in the order Left, Up, Right, Down.
pub open spec fn direction_index(d: UnitDirection) -> int {
    match d {
        UnitDirection::Left => 0,
        UnitDirection::Up => 1,
        UnitDirection::Right => 2,
        _ => 3,
    }
}

/// The `k`-th of the three directions other than the reverse of `current`,
/// in the order Left, Up, Right, Down.
pub open spec fn spec_turn_candidate(current: UnitDirection, k: int) -> UnitDirection {
    let skip = direction_index(current.spec_opposite());
    UnitDirection::spec_moving(if k < skip { k } else { k + 1 })
}

/// The `k`-th of the three directions other than the reverse of `current`,
/// in the order Left, Up, Right, Down.
pub fn turn_candidate(current: UnitDirection, k: usize) -> (r: UnitDirection)
    requires
        current != UnitDirection::Idle,
        k < 3,
    ensures
        r == spec_turn_candidate(current, k as int),
        r != current.spec_opposite(),
        r != UnitDirection::Idle,
{
    let skip: usize = match current.opposite() {
        UnitDirection::Left => 0,
        UnitDirection::Up => 1,
        UnitDirection::Right => 2,
        _ => 3,
    };
    UnitDirection::moving(if k < skip { k } else { k + 1 })
}

impl UnitDirection {
    /// A direction drawn uniformly from the three that do not reverse `self`.
    pub fn random_turn(self) -> (r: UnitDirection)
        requires
            self != UnitDirection::Idle,
        ensures
            r != self.spec_opposite(),
            r != UnitDirection::Idle,
    {
        turn_candidate(self, random_below(3))
    }
}

/// The moving directions among the first `k` (in the order Left, Up, Right,
/// Down) in which a unit at `pos` may step.
pub open spec fn legal_prefix(pos: UnitPosition, k: nat) -> Seq<UnitDirection>
    decreases k,
{
    if k == 0 {
        Seq::empty()
    } else {
        let d = UnitDirection::spec_moving(k - 1);
        let before = legal_prefix(pos, (k - 1) as nat);
        if can_step(pos, d) {
            before.push(d)
        } else {
            before
        }
    }
}

/// The moving directions in which a unit at `pos` may step, in the order
/// Left, Up, Right, Down.
pub open spec fn spec_legal_directions(pos: UnitPosition) -> Seq<UnitDirection> {
    legal_prefix(pos, 4)
}

/// Every direction in the list is a moving one in which the unit may step.
pub proof fn lemma_legal_prefix(pos: UnitPosition, k: nat)
    ensures
        legal_prefix(pos, k).len() <= k,
        forall|i: int|
            0 <= i < legal_prefix(pos, k).len() ==> can_step(pos, #[trigger] legal_prefix(pos, k)[i])
                && legal_prefix(pos, k)[i] != UnitDirection::Idle,
    decreases k,
{
    if k > 0 {
        lemma_legal_prefix(pos, (k - 1) as nat);
    }
}

/// The moving directions in which a unit at `pos` may step, in the order
/// Left, Up, Right, Down.
pub fn legal_directions(pos: &UnitPosition) -> (r: Vec<UnitDirection>)
    ensures
        r@ == spec_legal_directions(*pos),
        r@.len() <= 4,
        forall|i: int| 0 <= i < r@.len() ==> can_step(*pos, #[trigger] r@[i]) && r@[i] != UnitDirection::Idle,
{
    proof {
        lemma_legal_prefix(*pos, 4);
    }
    let mut r: Vec<UnitDirection> = Vec::new();
    let mut k: usize = 0;
    while k < 4
        invariant
            0 <= k <= 4,
            r@ == legal_prefix(*pos, k as nat),
        decreases 4 - k,
    {
        let d = UnitDirection::moving(k);
        if unit_can_move_in_direction(pos, d) {
            r.push(d);
        }
        k = k + 1;
    }
    r
}

/// Whether a ghost roams this tick: the game runs, the ghost has left the
/// pen and it has a heading.
pub open spec fn roams(state: GameState, ghost: GhostUnit) -> bool {
    state == GameState::Running && ghost.is_moved_out && ghost.current_direction != UnitDirection::Idle
}

/// Moves a roaming ghost as far as its speed takes it in `delta_us`
/// microseconds, preferring `candidate` at every pixel and otherwise keeping
/// its heading; it stops where neither is free. A ghost that does not roam
/// stays as it is.
pub fn ghost_advance(
    state: GameState,
    round: u32,
    ghost: &mut GhostUnit,
    pos: &mut UnitPosition,
    delta_us: u64,
    candidate: UnitDirection,
)
    ensures
        !roams(state, *old(ghost)) ==> *final(ghost) == *old(ghost) && *final(pos) == *old(pos),
        roams(state, *old(ghost)) ==> {
            let budget = spec_pixel_budget(delta_us as int, spec_ghost_speed(round, old(ghost).is_frightened)) as nat;
            &&& (*final(pos), final(ghost).current_direction) == walk(
                *old(pos),
                old(ghost).current_direction,
                candidate,
                budget,
            )
            &&& *final(ghost) == (GhostUnit { current_direction: final(ghost).current_direction, ..*old(ghost) })
        },
        *final(pos) == *old(pos) || unit_may_stand(*final(pos)),
{
    if !(state == GameState::Running && ghost.is_moved_out && ghost.current_direction != UnitDirection::Idle) {
        return;
    }
    let speed = ghost_speed(round, ghost.is_frightened);
    let budget = pixel_budget(delta_us, speed);
    let mut current = ghost.current_direction;
    advance_unit(pos, &mut current, candidate, budget);
    ghost.current_direction = current;
}

/// Whether a roaming ghost that started at `pos` heading `current` ended at
/// `end` heading `end_heading` by a walk over the pixel budget of its speed:
/// from the heading `h` it had (its old one when that was free, else one of
/// the free directions), preferring a candidate `c` that never reverses its
/// old heading.
pub open spec fn roamed(
    ghost: GhostUnit,
    pos: UnitPosition,
    round: u32,
    delta_us: u64,
    end: UnitPosition,
    end_heading: UnitDirection,
) -> bool {
    let budget = spec_pixel_budget(delta_us as int, spec_ghost_speed(round, ghost.is_frightened)) as nat;
    exists|h: UnitDirection, c: UnitDirection|
        {
            &&& c != UnitDirection::Idle
            &&& c != ghost.current_direction.spec_opposite()
            &&& if can_step(pos, ghost.current_direction) {
                h == ghost.current_direction
            } else {
                spec_legal_directions(pos).contains(h)
            }
            &&& #[trigger] walk(pos, h, c, budget) == (end, end_heading)
        }
}

/// One tick of a roaming ghost. It draws a candidate heading at random from
/// the three that do not reverse its heading. When its heading is blocked it
/// first draws a new heading at random from the free ones (when none is
/// free it stays put). Then it moves as `ghost_advance` does.
pub fn ghosts_movement(state: GameState, round: u32, ghost: &mut GhostUnit, pos: &mut UnitPosition, delta_us: u64)
    ensures
        !roams(state, *old(ghost)) ==> *final(ghost) == *old(ghost) && *final(pos) == *old(pos),
        *final(ghost) == (GhostUnit { current_direction: final(ghost).current_direction, ..*old(ghost) }),
        *final(pos) == *old(pos) || unit_may_stand(*final(pos)),
        roams(state, *old(ghost)) ==> final(ghost).current_direction != UnitDirection::Idle,
        roams(state, *old(ghost)) && (can_step(*old(pos), old(ghost).current_direction)
            || spec_legal_directions(*old(pos)).len() > 0) ==> roamed(
            *old(ghost),
            *old(pos),
            round,
            delta_us,
            *final(pos),
            final(ghost).current_direction,
        ),
        roams(state, *old(ghost)) && !can_step(*old(pos), old(ghost).current_direction)
            && spec_legal_directions(*old(pos)).len() == 0 ==> *final(ghost) == *old(ghost) && *final(pos)
            == *old(pos),
        roams(state, *old(ghost)) && can_step(*old(pos), old(ghost).current_direction)
            ==> final(ghost).current_direction != old(ghost).current_direction.spec_opposite(),
{
    if !(state == GameState::Running && ghost.is_moved_out && ghost.current_direction != UnitDirection::Idle) {
        return;
    }
    let candidate = ghost.current_direction.random_turn();
    if !unit_can_move_in_direction(pos, ghost.current_direction) {
        let free = legal_directions(pos);
        if free.len() == 0 {
            return;
        }
        let k = random_below(free.len());
        ghost.current_direction = free[k];
        assert(spec_legal_directions(*old(pos))[k as int] == ghost.current_direction);
    }
    let ghost heading = ghost.current_direction;
    let ghost start = *pos;
    ghost_advance(state, round, ghost, pos, delta_us, candidate);
    proof {
        let budget = spec_pixel_budget(delta_us as int, spec_ghost_speed(round, old(ghost).is_frightened)) as nat;
        lemma_walk_heading(start, heading, candidate, budget);
        assert(walk(start, heading, candidate, budget) == (*pos, ghost.current_direction));
        assert(roamed(*old(ghost), *old(pos), round, delta_us, *pos, ghost.current_direction));
    }
}

/// Whether a frightened ghost shows its blinking look, `e` microseconds into
/// the energized window: in the last two seconds, on and off every fifth of
/// a second.
pub open spec fn fright_blinks(e: int) -> bool {
    ||| 6_000_000 <= e < 6_200_000
    ||| 6_400_000 <= e < 6_600_000
    ||| 6_800_000 <= e < 7_000_000
    ||| 7_200_000 <= e < 7_400_000
    ||| 7_600_000 <= e < 7_800_000
}

/// Whether a frightened ghost shows its blinking look, `e` microseconds into
/// the energized window.
pub fn shows_fright_blink(e: u64) -> (r: bool)
    ensures
        r == fright_blinks(e as int),
{
    (6_000_000 <= e && e < 6_200_000) || (6_400_000 <= e && e < 6_600_000) || (6_800_000 <= e && e
        < 7_000_000) || (7_200_000 <= e && e < 7_400_000) || (7_600_000 <= e && e < 7_800_000)
}

/// The sprite frame of a ghost after its animation step (see `animate_ghost`).
pub open spec fn ghost_frame(ghost: GhostUnit, sprite_index: int, energized_since: Option<u64>, now: u64) -> int {
    let due = elapsed(now, ghost.animation_time) >= GHOST_FRAME_TIME;
    let index = if due {
        if sprite_index % 2 == 0 {
            sprite_index + 1
        } else {
            sprite_index - 1
        }
    } else {
        sprite_index
    };
    let offset = index % 2;
    if ghost.is_frightened {
        match energized_since {
            Some(start) => if fright_blinks(elapsed(now, start)) {
                2 * GhostId::FrightenedBlink.spec_id() + offset
            } else {
                2 * GhostId::Frightened.spec_id() + offset
            },
            None => index,
        }
    } else {
        2 * ghost.ghost_id.spec_id() + offset
    }
}

/// Animates a ghost: every half second it flips between its two frames. A
/// frightened ghost shows the frightened look, blinking near the end of the
/// energized window that began at `energized_since` (when pacman is there to
/// tell); any other ghost shows its own look. Returns the new frame.
pub fn animate_ghost(ghost: &mut GhostUnit, sprite_index: usize, energized_since: Option<u64>, now: u64) -> (r: usize)
    requires
        sprite_index < GHOST_SPRITE_FRAMES,
    ensures
        r == ghost_frame(*old(ghost), sprite_index as int, energized_since, now),
        r < GHOST_SPRITE_FRAMES,
        *final(ghost) == (GhostUnit {
            animation_time: if elapsed(now, old(ghost).animation_time) >= GHOST_FRAME_TIME {
                now
            } else {
                old(ghost).animation_time
            },
            ..*old(ghost)
        }),
{
    let mut index = sprite_index;
    if elapsed_since(now, ghost.animation_time) >= GHOST_FRAME_TIME {
        if index % 2 == 0 {
            index = index + 1;
        } else {
            index = index - 1;
        }
        ghost.animation_time = now;
    }
    let offset = index % 2;
    if ghost.is_frightened {
        match energized_since {
            Some(start) => {
                if shows_fright_blink(elapsed_since(now, start)) {
                    GhostId::FrightenedBlink.get_sprite_index() + offset
                } else {
                    GhostId::Frightened.get_sprite_index() + offset
                }
            },
            None => index,
        }
    } else {
        ghost.ghost_id.get_sprite_index() + offset
    }
}

/// Whether a ghost that is not frightened touches pacman at `pac_pos`.
pub open spec fn deadly(ghost: GhostUnit, ghost_pos: UnitPosition, pac_pos: UnitPosition) -> bool {
    !ghost.is_frightened && boxes_overlap(pac_pos, UNIT_HITBOX_SIZE as int, ghost_pos, UNIT_HITBOX_SIZE as int)
}

/// Pacman dies when a ghost that is not frightened touches him.
pub fn ghost_eats_pacman(
    pacman_state: &mut PacmanState,
    pac_pos: &UnitPosition,
    ghosts: &Vec<GhostUnit>,
    positions: &Vec<UnitPosition>,
) -> (r: bool)
    requires
        ghosts@.len() == positions@.len(),
    ensures
        r == exists|i: int| 0 <= i < ghosts@.len() && #[trigger] deadly(ghosts@[i], positions@[i], *pac_pos),
        *final(pacman_state) == (if r {
            PacmanState::Dead
        } else {
            *old(pacman_state)
        }),
{
    let mut i: usize = 0;
    while i < ghosts.len()
        invariant
            0 <= i <= ghosts@.len(),
            ghosts@.len() == positions@.len(),
            forall|j: int| 0 <= j < i ==> !#[trigger] deadly(ghosts@[j], positions@[j], *pac_pos),
            *pacman_state == *old(pacman_state),
        decreases ghosts@.len() - i,
    {
        if !ghosts[i].is_frightened && crate::collision::units_collide(
            pac_pos,
            UNIT_HITBOX_SIZE as i32,
            &positions[i],
            UNIT_HITBOX_SIZE as i32,
        ) {
            assert(deadly(ghosts@[i as int], positions@[i as int], *pac_pos));
            *pacman_state = PacmanState::Dead;
            return true;
        }
        i = i + 1;
    }
    false
}

} // verus!
