use rustman::collision::unit_can_move;
use rustman::ghosts::{
    animate_ghost, ghost_advance, ghost_speed, ghosts_movement, legal_directions, move_ghost_out,
    move_ghosts_out, shows_fright_blink, spawn_ghosts, turn_candidate, GhostId, GhostUnit,
};
use rustman::states::GameState;
use rustman::unit::{UnitDirection, UnitPosition};

fn roaming(direction: UnitDirection) -> GhostUnit {
    let mut g = GhostUnit::new(GhostId::Blinky, 0);
    g.current_direction = direction;
    g.is_moved_out = true;
    g
}

#[test]
fn random_turn_never_reverses() {
    let mut seen = [false; 5];
    for _ in 0..10_000 {
        let d = UnitDirection::Left.random_turn();
        assert_ne!(d, UnitDirection::Right);
        assert_ne!(d, UnitDirection::Idle);
        let slot = match d {
            UnitDirection::Idle => 0,
            UnitDirection::Left => 1,
            UnitDirection::Up => 2,
            UnitDirection::Right => 3,
            UnitDirection::Down => 4,
        };
        seen[slot] = true;
    }
    assert_eq!(seen, [false, true, true, false, true]);
}

#[test]
fn random_direction_covers_all_four() {
    let mut seen = [false; 5];
    for _ in 0..10_000 {
        let slot = match UnitDirection::random() {
            UnitDirection::Idle => 0,
            UnitDirection::Left => 1,
            UnitDirection::Up => 2,
            UnitDirection::Right => 3,
            UnitDirection::Down => 4,
        };
        seen[slot] = true;
    }
    assert_eq!(seen, [false, true, true, true, true]);
}

#[test]
fn turn_candidates_skip_the_reverse() {
    assert_eq!(turn_candidate(UnitDirection::Left, 0), UnitDirection::Left);
    assert_eq!(turn_candidate(UnitDirection::Left, 1), UnitDirection::Up);
    assert_eq!(turn_candidate(UnitDirection::Left, 2), UnitDirection::Down);
    assert_eq!(turn_candidate(UnitDirection::Right, 0), UnitDirection::Up);
    assert_eq!(turn_candidate(UnitDirection::Up, 2), UnitDirection::Right);
    assert_eq!(turn_candidate(UnitDirection::Down, 1), UnitDirection::Right);
    assert_eq!(turn_candidate(UnitDirection::Down, 0), UnitDirection::Left);
    assert_eq!(UnitDirection::Up.opposite(), UnitDirection::Down);
    assert_eq!(UnitDirection::Idle.opposite(), UnitDirection::Idle);
}

#[test]
fn ghost_speed_grows_with_round_up_to_cap() {
    assert_eq!(ghost_speed(0, false), 400);
    assert_eq!(ghost_speed(1, false), 425);
    assert_eq!(ghost_speed(3, false), 475);
    assert_eq!(ghost_speed(4, false), 500);
    assert_eq!(ghost_speed(40, false), 500);
    assert_eq!(ghost_speed(u32::MAX, false), 500);
    assert_eq!(ghost_speed(1, true), 300);
    assert_eq!(ghost_speed(9, true), 300);
}

#[test]
fn ghost_identities() {
    assert_eq!(GhostId::Clyde.get_id(), 3);
    assert_eq!(GhostId::FrightenedBlink.get_id(), 5);
    assert_eq!(GhostId::Pinky.get_sprite_index(), 2);
    assert_eq!(GhostId::Frightened.get_sprite_index(), 8);
    assert_eq!(GhostId::Blinky.get_start_pos(), UnitPosition { x: 1213, y: 613 });
    assert_eq!(GhostId::Clyde.get_start_pos(), UnitPosition { x: 1543, y: 613 });
}

#[test]
fn ghosts_are_released_one_after_another() {
    let (ghosts, positions) = spawn_ghosts(1_000_000);
    assert_eq!(ghosts.len(), 4);
    let ids = [GhostId::Blinky, GhostId::Pinky, GhostId::Inky, GhostId::Clyde];
    for i in 0..4 {
        assert_eq!(ghosts[i].ghost_id, ids[i]);
        assert_eq!(ghosts[i].spawn_time, 1_000_000 + 5_000_000 * i as u64);
        assert_eq!(positions[i], ids[i].get_start_pos());
        assert!(!ghosts[i].is_moved_out);
        assert!(!ghosts[i].is_frightened);
        assert_ne!(ghosts[i].current_direction, UnitDirection::Idle);
    }
}

#[test]
fn ghost_reset_sends_it_back() {
    let mut g = roaming(UnitDirection::Up);
    g.is_frightened = true;
    g.reset(9_000_000);
    assert!(!g.is_moved_out);
    assert!(!g.is_frightened);
    assert_eq!(g.spawn_time, 9_000_000);
    assert_eq!(g.current_direction, UnitDirection::Up);
}

#[test]
fn ghost_walks_out_of_the_pen() {
    let mut g = GhostUnit::new(GhostId::Blinky, 1_000);
    let mut pos = GhostId::Blinky.get_start_pos();
    move_ghost_out(&mut g, &mut pos, 999);
    assert_eq!(pos, UnitPosition { x: 1213, y: 613 });
    for _ in 0..100 {
        move_ghost_out(&mut g, &mut pos, 1_000);
    }
    assert_eq!(pos, UnitPosition { x: 1213, y: 713 });
    for _ in 0..167 {
        move_ghost_out(&mut g, &mut pos, 1_000);
    }
    assert_eq!(pos, UnitPosition { x: 1380, y: 713 });
    for _ in 0..170 {
        move_ghost_out(&mut g, &mut pos, 1_000);
    }
    assert_eq!(pos, UnitPosition { x: 1380, y: 883 });
    assert!(!g.is_moved_out);
    move_ghost_out(&mut g, &mut pos, 1_000);
    assert!(g.is_moved_out);
    assert_eq!(pos, UnitPosition { x: 1380, y: 883 });
    move_ghost_out(&mut g, &mut pos, 1_000);
    assert_eq!(pos, UnitPosition { x: 1380, y: 883 });
}

#[test]
fn ghost_from_the_right_heads_left_to_the_gate() {
    let mut ghosts = vec![GhostUnit::new(GhostId::Clyde, 0), GhostUnit::new(GhostId::Inky, 50)];
    let mut positions = vec![UnitPosition { x: 1543, y: 713 }, GhostId::Inky.get_start_pos()];
    move_ghosts_out(&mut ghosts, &mut positions, 10);
    assert_eq!(positions[0], UnitPosition { x: 1542, y: 713 });
    assert_eq!(positions[1], GhostId::Inky.get_start_pos());
}

#[test]
fn legal_directions_at_the_gate() {
    let free = legal_directions(&UnitPosition { x: 1380, y: 883 });
    assert_eq!(free, vec![UnitDirection::Left, UnitDirection::Right]);
    let none = legal_directions(&UnitPosition { x: 1213, y: 613 });
    assert!(none.is_empty());
}

#[test]
fn ghost_advance_prefers_the_candidate() {
    let mut g = roaming(UnitDirection::Right);
    let mut pos = UnitPosition { x: 1380, y: 883 };
    // 5_000 us at 425 px/s is two pixels.
    ghost_advance(GameState::Running, 1, &mut g, &mut pos, 5_000, UnitDirection::Left);
    assert_eq!(pos, UnitPosition { x: 1378, y: 883 });
    assert_eq!(g.current_direction, UnitDirection::Left);
}

#[test]
fn ghost_advance_keeps_heading_when_candidate_blocked() {
    let mut g = roaming(UnitDirection::Right);
    let mut pos = UnitPosition { x: 1380, y: 883 };
    ghost_advance(GameState::Running, 1, &mut g, &mut pos, 5_000, UnitDirection::Up);
    assert_eq!(pos, UnitPosition { x: 1382, y: 883 });
    assert_eq!(g.current_direction, UnitDirection::Right);
}

#[test]
fn ghost_advance_frightened_is_slower() {
    let mut g = roaming(UnitDirection::Right);
    g.is_frightened = true;
    let mut pos = UnitPosition { x: 1380, y: 883 };
    // 10_000 us at 300 px/s is three pixels.
    ghost_advance(GameState::Running, 1, &mut g, &mut pos, 10_000, UnitDirection::Right);
    assert_eq!(pos, UnitPosition { x: 1383, y: 883 });
}

#[test]
fn ghost_in_pen_or_paused_does_not_roam() {
    let mut g = GhostUnit::new(GhostId::Pinky, 0);
    let mut pos = UnitPosition { x: 1380, y: 883 };
    ghost_advance(GameState::Running, 1, &mut g, &mut pos, 1_000_000, UnitDirection::Left);
    assert_eq!(pos, UnitPosition { x: 1380, y: 883 });
    let mut out = roaming(UnitDirection::Left);
    ghosts_movement(GameState::Paused, 1, &mut out, &mut pos, 1_000_000);
    assert_eq!(pos, UnitPosition { x: 1380, y: 883 });
}

#[test]
fn roaming_ghost_stays_on_free_ground() {
    let mut g = roaming(UnitDirection::Left);
    let mut pos = UnitPosition { x: 1380, y: 883 };
    for _ in 0..2_000 {
        let before = pos;
        ghosts_movement(GameState::Running, 2, &mut g, &mut pos, 16_667);
        assert!(pos == before || unit_can_move(&pos));
        assert_ne!(g.current_direction, UnitDirection::Idle);
    }
}

#[test]
fn blocked_ghost_picks_a_free_heading() {
    let mut g = roaming(UnitDirection::Up);
    let mut pos = UnitPosition { x: 1380, y: 883 };
    ghosts_movement(GameState::Running, 1, &mut g, &mut pos, 5_000);
    assert!(g.current_direction == UnitDirection::Left || g.current_direction == UnitDirection::Right);
    assert_ne!(pos, UnitPosition { x: 1380, y: 883 });
    assert!(unit_can_move(&pos));
}

#[test]
fn ghost_animation_frames() {
    let mut g = GhostUnit::new(GhostId::Inky, 0);
    assert_eq!(animate_ghost(&mut g, 4, None, 600_000), 5);
    assert_eq!(g.animation_time, 600_000);
    assert_eq!(animate_ghost(&mut g, 5, None, 700_000), 5);
    assert_eq!(animate_ghost(&mut g, 5, None, 1_100_000), 4);
    g.is_frightened = true;
    assert_eq!(animate_ghost(&mut g, 4, Some(1_000_000), 1_200_000), 8);
    assert_eq!(animate_ghost(&mut g, 8, Some(0), 1_700_000), 9);
    assert_eq!(animate_ghost(&mut g, 9, Some(0), 6_100_000), 10);
    assert_eq!(animate_ghost(&mut g, 7, None, 6_200_000), 7);
}

#[test]
fn fright_blink_windows() {
    assert!(!shows_fright_blink(5_999_999));
    assert!(shows_fright_blink(6_000_000));
    assert!(!shows_fright_blink(6_200_000));
    assert!(shows_fright_blink(7_799_999));
    assert!(!shows_fright_blink(7_800_000));
}

#[test]
fn roaming_ghost_with_free_heading_never_reverses() {
    for _ in 0..10_000 {
        let mut g = roaming(UnitDirection::Left);
        let mut pos = UnitPosition { x: 600, y: 150 };
        ghosts_movement(GameState::Running, 1, &mut g, &mut pos, 16_667);
        assert_ne!(g.current_direction, UnitDirection::Right);
        assert_ne!(pos, UnitPosition { x: 600, y: 150 });
    }
}

#[test]
fn roaming_ghost_with_no_time_stays() {
    let mut g = roaming(UnitDirection::Left);
    let mut pos = UnitPosition { x: 1380, y: 883 };
    ghosts_movement(GameState::Running, 1, &mut g, &mut pos, 0);
    assert_eq!(pos, UnitPosition { x: 1380, y: 883 });
    assert_eq!(g.current_direction, UnitDirection::Left);
}

#[test]
fn roaming_ghost_moves_its_budget() {
    // Seven pixels at 425 px/s over 16_667 us; up and down are walled here.
    let mut g = roaming(UnitDirection::Left);
    let mut pos = UnitPosition { x: 1380, y: 883 };
    ghosts_movement(GameState::Running, 1, &mut g, &mut pos, 16_667);
    assert_eq!(pos, UnitPosition { x: 1373, y: 883 });
    assert_eq!(g.current_direction, UnitDirection::Left);
}
