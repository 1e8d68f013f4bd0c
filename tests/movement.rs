use rustman::collision::unit_can_move;
use rustman::game::Game;
use rustman::movement::{advance_unit, pixel_budget};
use rustman::pacman::{
    facing_quarter_turns, next_pacman_frame, pacman_movement, pacman_movement_input,
    pacman_movement_steps, pacman_start_pos, Pacman,
};
use rustman::states::GameState;
use rustman::unit::{UnitDirection, UnitPosition};

#[test]
fn pixel_budget_rounds_down() {
    assert_eq!(pixel_budget(1_000_000, 450), 450);
    assert_eq!(pixel_budget(2_223, 450), 1);
    assert_eq!(pixel_budget(2_222, 450), 0);
    assert_eq!(pixel_budget(16_667, 450), 7);
    assert_eq!(pixel_budget(u64::MAX, 1), u64::MAX / 1_000_000);
}

#[test]
fn pacman_steps_left_from_start() {
    let game = Game::new();
    let mut pacman = Pacman::new();
    let mut pos = UnitPosition { x: 1380, y: 150 };
    let first = pacman_movement_steps(&mut pacman, &mut pos, 1);
    assert_eq!(pos, UnitPosition { x: 1379, y: 150 });
    assert_eq!(pacman.current_direction, UnitDirection::Left);
    assert_eq!(first, Some(UnitDirection::Left));
    assert_eq!(game.points, 0);
}

#[test]
fn pacman_movement_one_frame() {
    let mut pacman = Pacman::new();
    let mut pos = pacman_start_pos();
    let facing = pacman_movement(GameState::Running, &mut pacman, &mut pos, 2_223, 1_000_000);
    assert_eq!(pos, UnitPosition { x: 1379, y: 150 });
    assert_eq!(facing, Some(UnitDirection::Left));
    assert_eq!(pacman.animation_time, 1_000_000);
    let facing = pacman_movement(GameState::Running, &mut pacman, &mut pos, 2_223, 1_010_000);
    assert_eq!(pos, UnitPosition { x: 1378, y: 150 });
    assert_eq!(facing, None);
    assert_eq!(pacman.animation_time, 1_000_000);
}

#[test]
fn pacman_does_not_move_unless_running() {
    let mut pacman = Pacman::new();
    let mut pos = pacman_start_pos();
    let facing = pacman_movement(GameState::Paused, &mut pacman, &mut pos, 1_000_000, 5_000_000);
    assert_eq!(pos, pacman_start_pos());
    assert_eq!(facing, None);
    assert_eq!(pacman, Pacman::new());
}

#[test]
fn pacman_keeps_heading_when_turn_is_blocked() {
    let mut pacman = Pacman::new();
    pacman.next_direction = UnitDirection::Up;
    let mut pos = pacman_start_pos();
    pacman_movement_steps(&mut pacman, &mut pos, 3);
    assert_eq!(pos, UnitPosition { x: 1377, y: 150 });
    assert_eq!(pacman.current_direction, UnitDirection::Left);
    assert_eq!(pacman.next_direction, UnitDirection::Up);
}

#[test]
fn pacman_stops_at_a_wall() {
    // Left of the start the corridor ends where the start box's stem begins.
    let mut pacman = Pacman::new();
    let mut pos = pacman_start_pos();
    pacman_movement_steps(&mut pacman, &mut pos, 10_000);
    assert!(unit_can_move(&pos));
    let stop = pos;
    let first = pacman_movement_steps(&mut pacman, &mut pos, 10);
    assert_eq!(pos, stop);
    assert_eq!(first, None);
    assert_eq!(pos, UnitPosition { x: 1283, y: 150 });
}

#[test]
fn every_committed_position_is_free() {
    let mut pos = pacman_start_pos();
    let mut current = UnitDirection::Left;
    let turns = [
        UnitDirection::Up,
        UnitDirection::Left,
        UnitDirection::Down,
        UnitDirection::Right,
        UnitDirection::Up,
        UnitDirection::Right,
    ];
    for round in 0..200 {
        let preferred = turns[round % turns.len()];
        let before = pos;
        advance_unit(&mut pos, &mut current, preferred, 37);
        assert!(pos == before || unit_can_move(&pos));
    }
}

#[test]
fn arrow_keys_latch_the_next_heading() {
    let mut pacman = Pacman::new();
    pacman_movement_input(&mut pacman, false, false, true, true);
    assert_eq!(pacman.next_direction, UnitDirection::Up);
    pacman_movement_input(&mut pacman, true, true, false, false);
    assert_eq!(pacman.next_direction, UnitDirection::Left);
    pacman_movement_input(&mut pacman, false, false, false, true);
    assert_eq!(pacman.next_direction, UnitDirection::Right);
    pacman_movement_input(&mut pacman, false, false, false, false);
    assert_eq!(pacman.next_direction, UnitDirection::Right);
    assert_eq!(pacman.current_direction, UnitDirection::Left);
}

#[test]
fn pacman_animation_cycles_and_faces() {
    assert_eq!(next_pacman_frame(0), 1);
    assert_eq!(next_pacman_frame(1), 2);
    assert_eq!(next_pacman_frame(2), 0);
    assert_eq!(facing_quarter_turns(UnitDirection::Up), 3);
    assert_eq!(facing_quarter_turns(UnitDirection::Right), 2);
    assert_eq!(facing_quarter_turns(UnitDirection::Down), 1);
    assert_eq!(facing_quarter_turns(UnitDirection::Left), 0);
}
