use vstd::arithmetic::power2::{lemma_pow2_strictly_increases, lemma_pow2_unfold, pow2};
use vstd::prelude::*;

use crate::collision::{boxes_overlap, collides_with_obstacle, obstacle, rect_overlaps, unit_may_stand, units_collide};
use crate::game::{Game, POINTS_DOT, POINTS_ENERGIZER, POINTS_GHOST};
use crate::ghosts::{deadly, ghost_eats_pacman, GhostId, GhostUnit, GHOST_RELEASE_DELAY};
use crate::pacman::Pacman;
use crate::sound::{eat_sounds, spec_eat_sound, Sound, SOUND_DURATION_AMBIENT_FRIGHT};
use crate::states::PacmanState;
use crate::unit::{UnitPosition, UNIT_HITBOX_SIZE};

verus! {

/// Whether pacman at `pac_pos` touches a unit at `pos`: their hitboxes overlap.
pub open spec fn touches(pac_pos: UnitPosition, pos: UnitPosition) -> bool {
    boxes_overlap(pac_pos, UNIT_HITBOX_SIZE as int, pos, UNIT_HITBOX_SIZE as int)
}

/// The units of `s` that pacman at `pac_pos` does not touch, in order.
pub open spec fn uneaten(pac_pos: UnitPosition, s: Seq<UnitPosition>) -> Seq<UnitPosition>
    decreases s.len(),
{
    if s.len() == 0 {
        s
    } else {
        let before = uneaten(pac_pos, s.drop_last());
        if touches(pac_pos, s.last()) {
            before
        } else {
            before.push(s.last())
        }
    }
}

/// The indices, in increasing order, of the units of `s` that pacman at
/// `pac_pos` touches.
pub open spec fn eaten_indices(pac_pos: UnitPosition, s: Seq<UnitPosition>) -> Seq<usize>
    decreases s.len(),
{
    if s.len() == 0 {
        Seq::empty()
    } else {
        let before = eaten_indices(pac_pos, s.drop_last());
        if touches(pac_pos, s.last()) {
            before.push((s.len() - 1) as usize)
        } else {
            before
        }
    }
}

/// Each unit is either eaten or left, and each eaten index names a touched unit.
pub proof fn lemma_split_counts(pac_pos: UnitPosition, s: Seq<UnitPosition>)
    requires
        s.len() <= usize::MAX,
    ensures
        uneaten(pac_pos, s).len() + eaten_indices(pac_pos, s).len() == s.len(),
        forall|k: int|
            0 <= k < eaten_indices(pac_pos, s).len() ==> #[trigger] eaten_indices(pac_pos, s)[k] < s.len()
                && touches(pac_pos, s[eaten_indices(pac_pos, s)[k] as int]),
        forall|k: int| 0 <= k < uneaten(pac_pos, s).len() ==> !touches(pac_pos, #[trigger] uneaten(pac_pos, s)[k]),
    decreases s.len(),
{
    if s.len() > 0 {
        let t = s.drop_last();
        lemma_split_counts(pac_pos, t);
        let e = eaten_indices(pac_pos, s);
        let et = eaten_indices(pac_pos, t);
        assert forall|k: int| 0 <= k < e.len() implies #[trigger] e[k] < s.len() && touches(
            pac_pos,
            s[e[k] as int],
        ) by {
            if touches(pac_pos, s.last()) {
                assert(e == et.push((s.len() - 1) as usize));
            } else {
                assert(e == et);
            }
            if k < et.len() {
                assert(e[k] == et[k]);
                assert(et[k] < t.len() && touches(pac_pos, t[et[k] as int]));
                assert(s[et[k] as int] == t[et[k] as int]);
            } else {
                assert(touches(pac_pos, s.last()));
                assert(s.last() == s[s.len() - 1]);
            }
        }
        let u = uneaten(pac_pos, s);
        let ut = uneaten(pac_pos, t);
        assert forall|k: int| 0 <= k < u.len() implies !touches(pac_pos, #[trigger] u[k]) by {
            if k < ut.len() {
                assert(u[k] == ut[k]);
            }
        }
    }
}

/// Nothing is left to eat where pacman stands once he has eaten there: what
/// an eating pass leaves, a second pass at the same place leaves unchanged
/// and finds nothing in.
pub proof fn lemma_eaten_once(pac_pos: UnitPosition, s: Seq<UnitPosition>)
    requires
        s.len() <= usize::MAX,
    ensures
        eaten_indices(pac_pos, uneaten(pac_pos, s)).len() == 0,
        uneaten(pac_pos, uneaten(pac_pos, s)) == uneaten(pac_pos, s),
    decreases s.len(),
{
    lemma_split_counts(pac_pos, s);
    lemma_none_touched(pac_pos, uneaten(pac_pos, s));
}

proof fn lemma_none_touched(pac_pos: UnitPosition, s: Seq<UnitPosition>)
    requires
        forall|k: int| 0 <= k < s.len() ==> !touches(pac_pos, #[trigger] s[k]),
    ensures
        eaten_indices(pac_pos, s).len() == 0,
        uneaten(pac_pos, s) == s,
    decreases s.len(),
{
    if s.len() > 0 {
        let t = s.drop_last();
        assert forall|k: int| 0 <= k < t.len() implies !touches(pac_pos, #[trigger] t[k]) by {
            assert(t[k] == s[k]);
        }
        lemma_none_touched(pac_pos, t);
        assert(s.last() == s[s.len() - 1]);
        assert(t.push(s.last()) =~= s);
    }
}

/// Splits `units` into those pacman at `pac_pos` does not touch and the
/// indices of those he does.
pub fn split_eaten(pac_pos: &UnitPosition, units: &Vec<UnitPosition>) -> (r: (Vec<UnitPosition>, Vec<usize>))
    ensures
        r.0@ == uneaten(*pac_pos, units@),
        r.1@ == eaten_indices(*pac_pos, units@),
        units@.len() <= usize::MAX,
{
    let mut kept: Vec<UnitPosition> = Vec::new();
    let mut eaten: Vec<usize> = Vec::new();
    let mut i: usize = 0;
    while i < units.len()
        invariant
            0 <= i <= units@.len(),
            kept@ == uneaten(*pac_pos, units@.take(i as int)),
            eaten@ == eaten_indices(*pac_pos, units@.take(i as int)),
        decreases units@.len() - i,
    {
        let ghost prefix = units@.take(i as int + 1);
        assert(prefix.drop_last() =~= units@.take(i as int));
        assert(prefix.last() == units@[i as int]);
        let p = units[i];
        if units_collide(pac_pos, UNIT_HITBOX_SIZE as i32, &p, UNIT_HITBOX_SIZE as i32) {
            eaten.push(i);
        } else {
            kept.push(p);
        }
        i = i + 1;
    }
    assert(units@.take(units@.len() as int) =~= units@);
    (kept, eaten)
}

/// Pacman eats every dot he touches: each is worth a fixed number of points
/// and counts as one eaten item; eaten dots leave the active set. Returns the
/// indices, in the old set, of the eaten dots.
pub fn pacman_eats_dot(game: &mut Game, pacman: &mut Pacman, pac_pos: &UnitPosition, dots: &mut Vec<UnitPosition>) -> (eaten: Vec<usize>)
    requires
        old(game).points + POINTS_DOT * eaten_indices(*pac_pos, old(dots)@).len() <= u32::MAX,
        old(pacman).eaten_points + eaten_indices(*pac_pos, old(dots)@).len() <= u32::MAX,
    ensures
        final(dots)@ == uneaten(*pac_pos, old(dots)@),
        eaten@ == eaten_indices(*pac_pos, old(dots)@),
        *final(game) == (Game { points: (old(game).points + POINTS_DOT * eaten@.len()) as u32, ..*old(game) }),
        *final(pacman) == (Pacman {
            eaten_points: (old(pacman).eaten_points + eaten@.len()) as u32,
            ..*old(pacman)
        }),
{
    let (kept, eaten) = split_eaten(pac_pos, dots);
    proof {
        lemma_split_counts(*pac_pos, dots@);
    }
    let n = eaten.len() as u32;
    game.points = game.points + POINTS_DOT * n;
    pacman.eaten_points = pacman.eaten_points + n;
    *dots = kept;
    eaten
}

/// The sound clock set back by one fright loop, so that the fright loop
/// starts at once; it stops at zero.
pub open spec fn rewound(now: u64) -> u64 {
    if now >= SOUND_DURATION_AMBIENT_FRIGHT {
        (now - SOUND_DURATION_AMBIENT_FRIGHT) as u64
    } else {
        0
    }
}

/// A ghost after pacman ate an energizer: frightened if it has left the pen.
pub open spec fn frightened_if_out(ghost: GhostUnit) -> GhostUnit {
    GhostUnit { is_frightened: ghost.is_frightened || ghost.is_moved_out, ..ghost }
}

/// Pacman eats every energizer he touches: each is worth a fixed number of
/// points and counts as one eaten item; eaten energizers leave the active
/// set. When he ate any, he becomes energized from `now` with no ghost eaten
/// yet in the window, the fright loop is due at once, and every ghost that
/// has left the pen becomes frightened; ghosts still in the pen are left
/// alone. Returns the indices, in the old set, of the eaten energizers.
pub fn pacman_eats_energizer(
    game: &mut Game,
    pacman: &mut Pacman,
    pacman_state: &mut PacmanState,
    pac_pos: &UnitPosition,
    energizers: &mut Vec<UnitPosition>,
    ghosts: &mut Vec<GhostUnit>,
    now: u64,
) -> (eaten: Vec<usize>)
    requires
        old(game).points + POINTS_ENERGIZER * eaten_indices(*pac_pos, old(energizers)@).len() <= u32::MAX,
        old(pacman).eaten_points + eaten_indices(*pac_pos, old(energizers)@).len() <= u32::MAX,
    ensures
        final(energizers)@ == uneaten(*pac_pos, old(energizers)@),
        eaten@ == eaten_indices(*pac_pos, old(energizers)@),
        final(ghosts)@.len() == old(ghosts)@.len(),
        eaten@.len() == 0 ==> *final(game) == *old(game) && *final(pacman) == *old(pacman) && *final(pacman_state)
            == *old(pacman_state) && final(ghosts)@ == old(ghosts)@,
        eaten@.len() > 0 ==> {
            &&& *final(game) == (Game {
                points: (old(game).points + POINTS_ENERGIZER * eaten@.len()) as u32,
                elapsed_time_sound: rewound(now),
                ..*old(game)
            })
            &&& *final(pacman) == (Pacman {
                eaten_points: (old(pacman).eaten_points + eaten@.len()) as u32,
                eaten_ghosts: 0,
                start_time_energized: now,
                ..*old(pacman)
            })
            &&& *final(pacman_state) == PacmanState::Energized
            &&& forall|i: int| 0 <= i < old(ghosts)@.len() ==> #[trigger] final(ghosts)@[i] == frightened_if_out(old(ghosts)@[i])
        },
{
    let (kept, eaten) = split_eaten(pac_pos, energizers);
    proof {
        lemma_split_counts(*pac_pos, energizers@);
    }
    *energizers = kept;
    if eaten.len() == 0 {
        return eaten;
    }
    let n = eaten.len() as u32;
    game.points = game.points + POINTS_ENERGIZER * n;
    pacman.eaten_points = pacman.eaten_points + n;
    pacman.eaten_ghosts = 0;
    pacman.start_time_energized = now;
    *pacman_state = PacmanState::Energized;
    game.elapsed_time_sound = if now >= SOUND_DURATION_AMBIENT_FRIGHT {
        now - SOUND_DURATION_AMBIENT_FRIGHT
    } else {
        0
    };
    let mut i: usize = 0;
    while i < ghosts.len()
        invariant
            0 <= i <= ghosts@.len(),
            ghosts@.len() == old(ghosts)@.len(),
            forall|j: int| 0 <= j < i ==> #[trigger] ghosts@[j] == frightened_if_out(old(ghosts)@[j]),
            forall|j: int| i <= j < ghosts@.len() ==> #[trigger] ghosts@[j] == old(ghosts)@[j],
        decreases ghosts@.len() - i,
    {
        let mut g = ghosts[i];
        if g.is_moved_out {
            g.is_frightened = true;
        }
        ghosts[i] = g;
        i = i + 1;
    }
    eaten
}

/// Points for the `k`-th ghost eaten in one energized window: the base
/// doubled `k` times.
pub open spec fn ghost_award(k: nat) -> nat {
    (POINTS_GHOST * pow2(k)) as nat
}

/// Points for eating `n` more ghosts when `e` were already eaten in the window.
pub open spec fn awards_total(e: nat, n: nat) -> nat
    decreases n,
{
    if n == 0 {
        0
    } else {
        awards_total(e, (n - 1) as nat) + ghost_award(e + n)
    }
}

/// Each ghost eaten in a window is worth twice the one before.
pub proof fn lemma_ghost_award_doubles(k: nat)
    ensures
        ghost_award(k + 1) == 2 * ghost_award(k),
        ghost_award(0) == POINTS_GHOST,
{
    lemma_pow2_unfold(k + 1);
    assert(pow2(0) == 1) by {
        vstd::arithmetic::power2::lemma2_to64();
    }
}

proof fn lemma_ghost_award_grows(j: nat, k: nat)
    requires
        j <= k,
    ensures
        ghost_award(j) <= ghost_award(k),
{
    if j < k {
        lemma_pow2_strictly_increases(j, k);
    }
}

proof fn lemma_awards_total_grows(e: nat, m: nat, n: nat)
    requires
        m <= n,
    ensures
        awards_total(e, m) <= awards_total(e, n),
        m >= 1 ==> ghost_award(e + m) <= awards_total(e, n),
    decreases n,
{
    if m < n {
        lemma_awards_total_grows(e, m, (n - 1) as nat);
    }
}

/// Points for the `k`-th ghost eaten in one energized window.
pub fn ghost_points(k: u32) -> (r: u32)
    requires
        ghost_award(k as nat) <= u32::MAX,
    ensures
        r == ghost_award(k as nat),
{
    let mut points: u32 = POINTS_GHOST;
    let mut j: u32 = 0;
    proof {
        lemma_ghost_award_doubles(0);
    }
    while j < k
        invariant
            j <= k,
            points == ghost_award(j as nat),
            ghost_award(k as nat) <= u32::MAX,
        decreases k - j,
    {
        proof {
            lemma_ghost_award_doubles(j as nat);
            lemma_ghost_award_grows((j + 1) as nat, k as nat);
        }
        points = points * 2;
        j = j + 1;
    }
    points
}

/// Whether pacman at `pac_pos` catches a ghost at `pos`: it is frightened and touches him.
pub open spec fn catchable(ghost: GhostUnit, pos: UnitPosition, pac_pos: UnitPosition) -> bool {
    ghost.is_frightened && touches(pac_pos, pos)
}

/// Indices, in increasing order, of the first `n` ghosts that pacman catches.
pub open spec fn caught_prefix(pac_pos: UnitPosition, ghosts: Seq<GhostUnit>, positions: Seq<UnitPosition>, n: nat) -> Seq<usize>
    decreases n,
{
    if n == 0 {
        Seq::empty()
    } else {
        let before = caught_prefix(pac_pos, ghosts, positions, (n - 1) as nat);
        if catchable(ghosts[n - 1], positions[n - 1], pac_pos) {
            before.push((n - 1) as usize)
        } else {
            before
        }
    }
}

/// A ghost after being eaten: back in the pen, calm, released again after the delay.
pub open spec fn sent_home(ghost: GhostUnit, now: u64) -> GhostUnit {
    GhostUnit {
        is_moved_out: false,
        is_frightened: false,
        spawn_time: (now + GHOST_RELEASE_DELAY) as u64,
        ..ghost
    }
}

/// Pacman eats every frightened ghost he touches, in order. Each goes back
/// to its place in the pen, to be released again after the delay; the k-th
/// ghost eaten in the energized window is worth the base award doubled k
/// times. Returns the indices of the eaten ghosts.
pub fn pacman_eats_ghost(
    game: &mut Game,
    pacman: &mut Pacman,
    pac_pos: &UnitPosition,
    ghosts: &mut Vec<GhostUnit>,
    positions: &mut Vec<UnitPosition>,
    now: u64,
) -> (eaten: Vec<usize>)
    requires
        old(ghosts)@.len() == old(positions)@.len(),
        old(game).points + awards_total(old(pacman).eaten_ghosts as nat, old(ghosts)@.len()) <= u32::MAX,
        old(pacman).eaten_ghosts + old(ghosts)@.len() <= u32::MAX,
        now + GHOST_RELEASE_DELAY <= u64::MAX,
    ensures
        eaten@ == caught_prefix(*pac_pos, old(ghosts)@, old(positions)@, old(ghosts)@.len()),
        final(ghosts)@.len() == old(ghosts)@.len(),
        final(positions)@.len() == old(positions)@.len(),
        forall|i: int|
            0 <= i < old(ghosts)@.len() ==> if catchable(old(ghosts)@[i], old(positions)@[i], *pac_pos) {
                &&& #[trigger] final(ghosts)@[i] == sent_home(old(ghosts)@[i], now)
                &&& final(positions)@[i] == old(ghosts)@[i].ghost_id.spec_start_pos()
            } else {
                &&& final(ghosts)@[i] == old(ghosts)@[i]
                &&& final(positions)@[i] == old(positions)@[i]
            },
        *final(pacman) == (Pacman {
            eaten_ghosts: (old(pacman).eaten_ghosts + eaten@.len()) as u32,
            ..*old(pacman)
        }),
        *final(game) == (Game {
            points: (old(game).points + awards_total(old(pacman).eaten_ghosts as nat, eaten@.len())) as u32,
            ..*old(game)
        }),
{
    let ghost e0 = pacman.eaten_ghosts as nat;
    let ghost n = ghosts@.len();
    let mut eaten: Vec<usize> = Vec::new();
    let mut i: usize = 0;
    while i < ghosts.len()
        invariant
            0 <= i <= ghosts@.len(),
            n == ghosts@.len(),
            ghosts@.len() == old(ghosts)@.len(),
            positions@.len() == old(positions)@.len(),
            ghosts@.len() == positions@.len(),
            e0 == old(pacman).eaten_ghosts,
            eaten@ == caught_prefix(*pac_pos, old(ghosts)@, old(positions)@, i as nat),
            eaten@.len() <= i,
            *pacman == (Pacman { eaten_ghosts: (e0 + eaten@.len()) as u32, ..*old(pacman) }),
            *game == (Game { points: (old(game).points + awards_total(e0, eaten@.len())) as u32, ..*old(game) }),
            old(game).points + awards_total(e0, n) <= u32::MAX,
            e0 + n <= u32::MAX,
            now + GHOST_RELEASE_DELAY <= u64::MAX,
            forall|j: int|
                0 <= j < i ==> if catchable(old(ghosts)@[j], old(positions)@[j], *pac_pos) {
                    &&& #[trigger] ghosts@[j] == sent_home(old(ghosts)@[j], now)
                    &&& positions@[j] == old(ghosts)@[j].ghost_id.spec_start_pos()
                } else {
                    &&& ghosts@[j] == old(ghosts)@[j]
                    &&& positions@[j] == old(positions)@[j]
                },
            forall|j: int| i <= j < ghosts@.len() ==> #[trigger] ghosts@[j] == old(ghosts)@[j],
            forall|j: int| i <= j < positions@.len() ==> #[trigger] positions@[j] == old(positions)@[j],
        decreases ghosts@.len() - i,
    {
        let mut g = ghosts[i];
        let p = positions[i];
        if g.is_frightened && units_collide(pac_pos, UNIT_HITBOX_SIZE as i32, &p, UNIT_HITBOX_SIZE as i32) {
            positions[i] = g.ghost_id.get_start_pos();
            g.reset(now + GHOST_RELEASE_DELAY);
            ghosts[i] = g;
            proof {
                lemma_awards_total_grows(e0, (eaten@.len() + 1) as nat, n);
            }
            pacman.eaten_ghosts = pacman.eaten_ghosts + 1;
            let award = ghost_points(pacman.eaten_ghosts);
            game.points = game.points + award;
            eaten.push(i);
        }
        i = i + 1;
    }
    eaten
}

/// Whether the score and the window's ghost counter can take every one of
/// `ghosts` more ghosts being eaten, `eaten_ghosts` having been eaten already.
pub fn ghost_awards_fit(points: u32, eaten_ghosts: u32, ghosts: usize) -> (r: bool)
    ensures
        r == (points + awards_total(eaten_ghosts as nat, ghosts as nat) <= u32::MAX && eaten_ghosts + ghosts
            <= u32::MAX),
{
    if ghosts as u64 > (u32::MAX - eaten_ghosts) as u64 {
        return false;
    }
    if ghosts == 0 {
        return true;
    }
    let ghost e = eaten_ghosts as nat;
    if eaten_ghosts >= 24 {
        proof {
            vstd::arithmetic::power2::lemma2_to64();
            lemma_ghost_award_grows(25, (e + 1) as nat);
            lemma_awards_total_grows(e, 1, ghosts as nat);
        }
        return false;
    }
    proof {
        vstd::arithmetic::power2::lemma2_to64();
        lemma_ghost_award_grows((e + 1) as nat, 24);
    }
    let mut award: u64 = ghost_points(eaten_ghosts + 1) as u64;
    let mut total: u64 = points as u64;
    let mut k: usize = 0;
    while k < ghosts
        invariant
            k <= ghosts,
            e == eaten_ghosts,
            total == points + awards_total(e, k as nat),
            total <= u32::MAX,
            award == ghost_award((e + k + 1) as nat),
            award <= 2 * u32::MAX,
        decreases ghosts - k,
    {
        total = total + award;
        if total > u32::MAX as u64 {
            proof {
                lemma_awards_total_grows(e, (k + 1) as nat, ghosts as nat);
            }
            return false;
        }
        proof {
            lemma_ghost_award_doubles((e + k + 1) as nat);
        }
        award = award * 2;
        k = k + 1;
    }
    true
}

/// No unit standing where a unit may stand touches a ghost's place in the pen.
pub proof fn lemma_pen_places_out_of_reach(pac_pos: UnitPosition, id: GhostId)
    requires
        unit_may_stand(pac_pos),
    ensures
        !touches(pac_pos, id.spec_start_pos()),
{
    if touches(pac_pos, id.spec_start_pos()) {
        let (x, y) = (pac_pos.x as int, pac_pos.y as int);
        if id == GhostId::FrightenedBlink {
            assert(rect_overlaps(obstacle(13), x, y, 100));
        } else {
            assert(rect_overlaps(obstacle(21), x, y, 100));
        }
        assert(collides_with_obstacle(x, y, 100));
    }
}

proof fn lemma_awards_total_start(e: nat, n: nat)
    ensures
        awards_total(0, n) <= awards_total(e, n),
    decreases n,
{
    if n > 0 {
        lemma_awards_total_start(e, (n - 1) as nat);
        lemma_ghost_award_grows(n, e + n);
    }
}

/// A ghost as the ghost checks of a tick see it: frightened if it has left
/// the pen and pacman ate an energizer earlier in the tick.
pub open spec fn after_energizer(ghost: GhostUnit, ate_energizer: bool) -> GhostUnit {
    if ate_energizer {
        frightened_if_out(ghost)
    } else {
        ghost
    }
}

/// What one tick of interactions ate, the sounds it asks for, and whether
/// pacman died.
#[derive(Clone, PartialEq, Eq, Debug)]
pub struct TickOutcome {
    pub dots_eaten: Vec<usize>,
    pub energizers_eaten: Vec<usize>,
    pub ghosts_eaten: Vec<usize>,
    pub sounds: Vec<Sound>,
    pub pacman_died: bool,
}

/// One tick of interactions, in order: pacman eats dots, then energizers,
/// then frightened ghosts, and last the ghosts that are not frightened may
/// kill him. Each dot or energizer eaten asks for the alternating eat sound,
/// then each ghost eaten for the ghost sound. Because energizers come first, in the tick pacman eats one no
/// ghost that had left the pen can kill him.
pub fn pacman_interactions(
    game: &mut Game,
    pacman: &mut Pacman,
    pacman_state: &mut PacmanState,
    pac_pos: &UnitPosition,
    dots: &mut Vec<UnitPosition>,
    energizers: &mut Vec<UnitPosition>,
    ghosts: &mut Vec<GhostUnit>,
    positions: &mut Vec<UnitPosition>,
    now: u64,
) -> (r: TickOutcome)
    requires
        old(ghosts)@.len() == old(positions)@.len(),
        old(game).points + POINTS_DOT * old(dots)@.len() + POINTS_ENERGIZER * old(energizers)@.len() + awards_total(
            old(pacman).eaten_ghosts as nat,
            old(ghosts)@.len(),
        ) <= u32::MAX,
        old(pacman).eaten_points + old(dots)@.len() + old(energizers)@.len() <= u32::MAX,
        old(pacman).eaten_ghosts + old(ghosts)@.len() <= u32::MAX,
        now + GHOST_RELEASE_DELAY <= u64::MAX,
    ensures
        ({
            let ate = r.energizers_eaten@.len() > 0;
            let e1: nat = if ate { 0 } else { old(pacman).eaten_ghosts as nat };
            let g1 = |i: int| after_energizer(old(ghosts)@[i], ate);
            &&& final(dots)@ == uneaten(*pac_pos, old(dots)@)
            &&& r.dots_eaten@ == eaten_indices(*pac_pos, old(dots)@)
            &&& final(energizers)@ == uneaten(*pac_pos, old(energizers)@)
            &&& r.energizers_eaten@ == eaten_indices(*pac_pos, old(energizers)@)
            &&& final(ghosts)@.len() == old(ghosts)@.len()
            &&& final(positions)@.len() == old(positions)@.len()
            &&& forall|i: int|
                0 <= i < old(ghosts)@.len() ==> if catchable(g1(i), old(positions)@[i], *pac_pos) {
                    &&& #[trigger] final(ghosts)@[i] == sent_home(g1(i), now)
                    &&& final(positions)@[i] == old(ghosts)@[i].ghost_id.spec_start_pos()
                } else {
                    &&& final(ghosts)@[i] == g1(i)
                    &&& final(positions)@[i] == old(positions)@[i]
                }
            &&& r.sounds@.len() == r.dots_eaten@.len() + r.energizers_eaten@.len() + r.ghosts_eaten@.len()
            &&& forall|k: int|
                0 <= k < r.dots_eaten@.len() + r.energizers_eaten@.len() ==> #[trigger] r.sounds@[k]
                    == spec_eat_sound((old(pacman).eaten_points + k + 1) as u32)
            &&& forall|k: int|
                r.dots_eaten@.len() + r.energizers_eaten@.len() <= k < r.sounds@.len() ==> #[trigger] r.sounds@[k]
                    == Sound::EatGhost
            &&& r.pacman_died == exists|i: int|
                0 <= i < final(ghosts)@.len() && #[trigger] deadly(final(ghosts)@[i], final(positions)@[i], *pac_pos)
            &&& *final(pacman_state) == if r.pacman_died {
                PacmanState::Dead
            } else if ate {
                PacmanState::Energized
            } else {
                *old(pacman_state)
            }
            &&& *final(game) == (Game {
                points: (old(game).points + POINTS_DOT * r.dots_eaten@.len() + POINTS_ENERGIZER
                    * r.energizers_eaten@.len() + awards_total(e1, r.ghosts_eaten@.len())) as u32,
                elapsed_time_sound: if ate { rewound(now) } else { old(game).elapsed_time_sound },
                ..*old(game)
            })
            &&& *final(pacman) == (Pacman {
                eaten_points: (old(pacman).eaten_points + r.dots_eaten@.len() + r.energizers_eaten@.len()) as u32,
                eaten_ghosts: (e1 + r.ghosts_eaten@.len()) as u32,
                start_time_energized: if ate { now } else { old(pacman).start_time_energized },
                ..*old(pacman)
            })
            &&& ate && unit_may_stand(*pac_pos) ==> forall|i: int|
                0 <= i < old(ghosts)@.len() && old(ghosts)@[i].is_moved_out ==> !#[trigger] deadly(
                    final(ghosts)@[i],
                    final(positions)@[i],
                    *pac_pos,
                )
        }),
{
    proof {
        lemma_split_counts(*pac_pos, dots@);
        lemma_split_counts(*pac_pos, energizers@);
        lemma_awards_total_start(pacman.eaten_ghosts as nat, ghosts@.len());
    }
    let first_count = pacman.eaten_points;
    let dots_eaten = pacman_eats_dot(game, pacman, pac_pos, dots);
    let energizers_eaten = pacman_eats_energizer(game, pacman, pacman_state, pac_pos, energizers, ghosts, now);
    let ghost g1s = ghosts@;
    let ghost p1s = positions@;
    let ghosts_eaten = pacman_eats_ghost(game, pacman, pac_pos, ghosts, positions, now);
    let pacman_died = ghost_eats_pacman(pacman_state, pac_pos, ghosts, positions);
    let mut sounds = eat_sounds(first_count, dots_eaten.len() + energizers_eaten.len());
    let ghost items = sounds@.len();
    let mut k: usize = 0;
    while k < ghosts_eaten.len()
        invariant
            k <= ghosts_eaten@.len(),
            sounds@.len() == items + k,
            forall|j: int| 0 <= j < items ==> #[trigger] sounds@[j] == spec_eat_sound((first_count + j + 1) as u32),
            forall|j: int| items <= j < sounds@.len() ==> #[trigger] sounds@[j] == Sound::EatGhost,
        decreases ghosts_eaten@.len() - k,
    {
        sounds.push(Sound::EatGhost);
        k = k + 1;
    }
    proof {
        let ate = energizers_eaten@.len() > 0;
        assert forall|i: int| 0 <= i < old(ghosts)@.len() implies #[trigger] g1s[i] == after_energizer(
            old(ghosts)@[i],
            ate,
        ) by {}
        if ate && unit_may_stand(*pac_pos) {
            assert forall|i: int| 0 <= i < old(ghosts)@.len() && old(ghosts)@[i].is_moved_out implies !#[trigger] deadly(
                ghosts@[i],
                positions@[i],
                *pac_pos,
            ) by {
                if catchable(g1s[i], p1s[i], *pac_pos) {
                    lemma_pen_places_out_of_reach(*pac_pos, old(ghosts)@[i].ghost_id);
                }
            }
        }
    }
    TickOutcome { dots_eaten, energizers_eaten, ghosts_eaten, sounds, pacman_died }
}

} // verus!
