use rustman::game::Game;
use rustman::ghosts::{ghost_eats_pacman, GhostId, GhostUnit};
use rustman::interactions::{
    ghost_awards_fit, ghost_points, pacman_eats_dot, pacman_eats_energizer, pacman_eats_ghost, split_eaten,
};
use rustman::pacman::Pacman;
use rustman::sound::{eat_sound, eat_sounds, Sound};
use rustman::states::PacmanState;
use rustman::unit::{UnitDirection, UnitPosition};

fn ghost(id: GhostId, moved_out: bool, frightened: bool) -> GhostUnit {
    let mut g = GhostUnit::new(id, 0);
    g.is_moved_out = moved_out;
    g.is_frightened = frightened;
    g
}

#[test]
fn pacman_eats_a_touching_dot() {
    let mut game = Game::new();
    let mut pacman = Pacman::new();
    let pac_pos = UnitPosition { x: 500, y: 150 };
    let mut dots = vec![
        UnitPosition { x: 483, y: 150 },
        UnitPosition { x: 509, y: 150 },
        UnitPosition { x: 550, y: 150 },
    ];
    let eaten = pacman_eats_dot(&mut game, &mut pacman, &pac_pos, &mut dots);
    assert_eq!(eaten, vec![1]);
    assert_eq!(game.points, 10);
    assert_eq!(pacman.eaten_points, 1);
    assert_eq!(dots, vec![UnitPosition { x: 483, y: 150 }, UnitPosition { x: 550, y: 150 }]);
    assert_eq!(game.round, 1);
    assert_eq!(game.lifes, 3);
}

#[test]
fn dot_at_hitbox_distance_is_not_eaten() {
    let mut game = Game::new();
    let mut pacman = Pacman::new();
    let pac_pos = UnitPosition { x: 500, y: 150 };
    let mut dots = vec![UnitPosition { x: 510, y: 150 }, UnitPosition { x: 500, y: 140 }];
    let eaten = pacman_eats_dot(&mut game, &mut pacman, &pac_pos, &mut dots);
    assert!(eaten.is_empty());
    assert_eq!(game.points, 0);
    assert_eq!(pacman.eaten_points, 0);
    assert_eq!(dots.len(), 2);
}

#[test]
fn several_dots_in_one_tick() {
    let mut game = Game::new();
    game.points = 90;
    let mut pacman = Pacman::new();
    pacman.eaten_points = 9;
    let pac_pos = UnitPosition { x: 0, y: 0 };
    let mut dots = vec![
        UnitPosition { x: 1, y: 1 },
        UnitPosition { x: 100, y: 0 },
        UnitPosition { x: -9, y: 9 },
    ];
    let eaten = pacman_eats_dot(&mut game, &mut pacman, &pac_pos, &mut dots);
    assert_eq!(eaten, vec![0, 2]);
    assert_eq!(game.points, 110);
    assert_eq!(pacman.eaten_points, 11);
    assert_eq!(dots, vec![UnitPosition { x: 100, y: 0 }]);
}

#[test]
fn eat_sounds_alternate() {
    assert_eq!(eat_sound(1), Sound::Eat);
    assert_eq!(eat_sound(2), Sound::EatAlternate);
    assert_eq!(eat_sound(3), Sound::Eat);
}

#[test]
fn energizer_frightens_only_ghosts_out_of_the_pen() {
    let mut game = Game::new();
    let mut pacman = Pacman::new();
    pacman.eaten_ghosts = 2;
    let mut state = PacmanState::Normal;
    let pac_pos = UnitPosition { x: 150, y: 150 };
    let mut energizers = vec![UnitPosition { x: 150, y: 150 }, UnitPosition { x: 3549, y: 150 }];
    let mut ghosts = vec![
        ghost(GhostId::Blinky, true, false),
        ghost(GhostId::Pinky, true, false),
        ghost(GhostId::Inky, false, false),
        ghost(GhostId::Clyde, false, false),
    ];
    let before = ghosts.clone();
    let eaten = pacman_eats_energizer(
        &mut game,
        &mut pacman,
        &mut state,
        &pac_pos,
        &mut energizers,
        &mut ghosts,
        7_000_000,
    );
    assert_eq!(eaten, vec![0]);
    assert_eq!(energizers, vec![UnitPosition { x: 3549, y: 150 }]);
    assert_eq!(game.points, 50);
    assert_eq!(game.elapsed_time_sound, 6_450_000);
    assert_eq!(pacman.eaten_points, 1);
    assert_eq!(pacman.eaten_ghosts, 0);
    assert_eq!(pacman.start_time_energized, 7_000_000);
    assert_eq!(state, PacmanState::Energized);
    assert!(ghosts[0].is_frightened);
    assert!(ghosts[1].is_frightened);
    assert_eq!(ghosts[2], before[2]);
    assert_eq!(ghosts[3], before[3]);
}

#[test]
fn energizer_is_eaten_once() {
    let mut game = Game::new();
    let mut pacman = Pacman::new();
    let mut state = PacmanState::Normal;
    let pac_pos = UnitPosition { x: 150, y: 150 };
    let mut energizers = vec![UnitPosition { x: 150, y: 150 }];
    let mut ghosts: Vec<GhostUnit> = Vec::new();
    let first = pacman_eats_energizer(
        &mut game, &mut pacman, &mut state, &pac_pos, &mut energizers, &mut ghosts, 100,
    );
    assert_eq!(first, vec![0]);
    assert_eq!(game.elapsed_time_sound, 0);
    let points = game.points;
    let second = pacman_eats_energizer(
        &mut game, &mut pacman, &mut state, &pac_pos, &mut energizers, &mut ghosts, 200,
    );
    assert!(second.is_empty());
    assert_eq!(game.points, points);
    assert_eq!(pacman.eaten_points, 1);
    assert_eq!(pacman.start_time_energized, 100);
    assert!(energizers.is_empty());
}

#[test]
fn energizer_out_of_reach_changes_nothing() {
    let mut game = Game::new();
    let mut pacman = Pacman::new();
    let mut state = PacmanState::Normal;
    let pac_pos = UnitPosition { x: 1380, y: 150 };
    let mut energizers = vec![UnitPosition { x: 150, y: 150 }];
    let mut ghosts = vec![ghost(GhostId::Blinky, true, false)];
    let eaten = pacman_eats_energizer(
        &mut game, &mut pacman, &mut state, &pac_pos, &mut energizers, &mut ghosts, 100,
    );
    assert!(eaten.is_empty());
    assert_eq!(state, PacmanState::Normal);
    assert!(!ghosts[0].is_frightened);
    assert_eq!(energizers.len(), 1);
    assert_eq!(game, Game::new());
}

#[test]
fn ghost_awards_double() {
    assert_eq!(ghost_points(0), 200);
    assert_eq!(ghost_points(1), 400);
    assert_eq!(ghost_points(2), 800);
    assert_eq!(ghost_points(3), 1600);
    assert_eq!(ghost_points(4), 3200);
}

#[test]
fn three_ghosts_in_one_window_award_400_800_1600() {
    let mut game = Game::new();
    let mut pacman = Pacman::new();
    let pac_pos = UnitPosition { x: 1380, y: 883 };
    let mut awards = Vec::new();
    for id in [GhostId::Blinky, GhostId::Pinky, GhostId::Inky] {
        let mut ghosts = vec![ghost(id, true, true)];
        let mut positions = vec![UnitPosition { x: 1383, y: 880 }];
        let before = game.points;
        let eaten = pacman_eats_ghost(&mut game, &mut pacman, &pac_pos, &mut ghosts, &mut positions, 1_000);
        assert_eq!(eaten, vec![0]);
        awards.push(game.points - before);
        assert_eq!(positions[0], id.get_start_pos());
        assert!(!ghosts[0].is_moved_out);
        assert!(!ghosts[0].is_frightened);
        assert_eq!(ghosts[0].spawn_time, 5_001_000);
    }
    assert_eq!(awards, vec![400, 800, 1600]);
    assert_eq!(pacman.eaten_ghosts, 3);
    assert_eq!(game.points, 2800);
}

#[test]
fn ghosts_eaten_together_award_in_order() {
    let mut game = Game::new();
    let mut pacman = Pacman::new();
    let pac_pos = UnitPosition { x: 1380, y: 883 };
    let mut ghosts = vec![
        ghost(GhostId::Blinky, true, true),
        ghost(GhostId::Pinky, true, false),
        ghost(GhostId::Inky, true, true),
        ghost(GhostId::Clyde, true, true),
    ];
    let mut positions = vec![
        UnitPosition { x: 1380, y: 883 },
        UnitPosition { x: 1380, y: 883 },
        UnitPosition { x: 1375, y: 890 },
        UnitPosition { x: 1300, y: 883 },
    ];
    let eaten = pacman_eats_ghost(&mut game, &mut pacman, &pac_pos, &mut ghosts, &mut positions, 0);
    assert_eq!(eaten, vec![0, 2]);
    assert_eq!(game.points, 1200);
    assert_eq!(pacman.eaten_ghosts, 2);
    assert_eq!(positions[1], UnitPosition { x: 1380, y: 883 });
    assert_eq!(positions[2], GhostId::Inky.get_start_pos());
    assert_eq!(positions[3], UnitPosition { x: 1300, y: 883 });
    assert!(ghosts[3].is_frightened);
}

#[test]
fn calm_ghost_kills_pacman() {
    let pac_pos = UnitPosition { x: 1380, y: 883 };
    let ghosts = vec![ghost(GhostId::Blinky, true, true), ghost(GhostId::Pinky, true, false)];
    let mut state = PacmanState::Normal;
    let near = vec![UnitPosition { x: 1380, y: 883 }, UnitPosition { x: 1389, y: 883 }];
    assert!(ghost_eats_pacman(&mut state, &pac_pos, &ghosts, &near));
    assert_eq!(state, PacmanState::Dead);
    let mut state = PacmanState::Energized;
    let far = vec![UnitPosition { x: 1380, y: 883 }, UnitPosition { x: 1390, y: 883 }];
    assert!(!ghost_eats_pacman(&mut state, &pac_pos, &ghosts, &far));
    assert_eq!(state, PacmanState::Energized);
}

#[test]
fn split_keeps_order() {
    let pac_pos = UnitPosition { x: 0, y: 0 };
    let units = vec![
        UnitPosition { x: 20, y: 0 },
        UnitPosition { x: 0, y: 0 },
        UnitPosition { x: 30, y: 0 },
        UnitPosition { x: 0, y: 5 },
    ];
    let (kept, eaten) = split_eaten(&pac_pos, &units);
    assert_eq!(kept, vec![UnitPosition { x: 20, y: 0 }, UnitPosition { x: 30, y: 0 }]);
    assert_eq!(eaten, vec![1, 3]);
    assert_eq!(Pacman::new().current_direction, UnitDirection::Left);
}

#[test]
fn ghost_award_bounds() {
    assert!(ghost_awards_fit(0, 0, 4));
    assert!(ghost_awards_fit(0, 0, 0));
    assert!(ghost_awards_fit(u32::MAX, 30, 0));
    assert!(!ghost_awards_fit(u32::MAX, 0, 1));
    assert!(ghost_awards_fit(u32::MAX - 400, 0, 1));
    assert!(!ghost_awards_fit(u32::MAX - 399 - 800, 0, 2));
    assert!(ghost_awards_fit(u32::MAX - 400 - 800, 0, 2));
    assert!(!ghost_awards_fit(0, 24, 1));
    assert!(ghost_awards_fit(0, 23, 1));
    assert!(!ghost_awards_fit(0, u32::MAX, 1));
}

#[test]
fn eat_sounds_in_sequence() {
    assert_eq!(eat_sounds(0, 3), vec![Sound::Eat, Sound::EatAlternate, Sound::Eat]);
    assert_eq!(eat_sounds(5, 2), vec![Sound::EatAlternate, Sound::Eat]);
    assert!(eat_sounds(9, 0).is_empty());
}

#[test]
fn score_bound_counts_only_what_is_eaten() {
    let mut game = Game::new();
    game.points = u32::MAX - 10;
    let mut pacman = Pacman::new();
    let pac_pos = UnitPosition { x: 0, y: 0 };
    let mut dots = vec![UnitPosition { x: 1, y: 0 }, UnitPosition { x: 500, y: 0 }];
    let eaten = pacman_eats_dot(&mut game, &mut pacman, &pac_pos, &mut dots);
    assert_eq!(eaten, vec![0]);
    assert_eq!(game.points, u32::MAX);
}
