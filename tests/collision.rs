use rustman::collision::{
    check_for_collisions, check_in_map, check_in_tunnel, is_inside_playable_area, obstacle_at,
    teleport_tunnel, unit_can_move, unit_can_move_in_direction, units_collide, OBSTACLE_COUNT,
    TUNNEL_X_LEFT, TUNNEL_X_RIGHT, TUNNEL_Y,
};
use rustman::unit::{UnitDirection, UnitPosition, UNIT_SIZE};

#[test]
fn zero_probe_inside_every_obstacle_collides() {
    for i in 0..OBSTACLE_COUNT {
        let r = obstacle_at(i);
        let x = r.x + r.w / 2;
        let y = r.y + r.h / 2;
        assert!(check_for_collisions(x, y, 0), "centre of obstacle {}", i);
        assert!(check_for_collisions(r.x + 1, r.y + 1, 0), "corner of obstacle {}", i);
    }
}

#[test]
fn zero_probe_on_edge_does_not_collide() {
    // Spike 1 spans x 1133..1233, y 100..233; no other wall covers its edges.
    assert!(!check_for_collisions(1133, 150, 0));
    assert!(!check_for_collisions(1233, 150, 0));
    assert!(!check_for_collisions(1180, 233, 0));
    assert!(!check_for_collisions(1133, 233, 0));
    assert!(check_for_collisions(1134, 150, 0));
}

#[test]
fn zero_probe_on_edge_inside_another_wall_collides() {
    // The left edge of one wall of the start box lies inside the other one.
    assert!(check_for_collisions(1333, 350, 0));
}

#[test]
fn box_touching_a_wall_does_not_collide() {
    // A 10-wide box centred 5 pixels left of Spike 1 touches its left edge.
    assert!(!check_for_collisions(1128, 150, 10));
    assert!(check_for_collisions(1129, 150, 10));
}

#[test]
fn playable_box_edges() {
    assert!(check_in_map(150, 150, UNIT_SIZE));
    assert!(!check_in_map(149, 150, UNIT_SIZE));
    assert!(check_in_map(3550, 1083, UNIT_SIZE));
    assert!(!check_in_map(3551, 1083, UNIT_SIZE));
    assert!(!check_in_map(3550, 1084, UNIT_SIZE));
    assert!(check_in_tunnel(616));
    assert!(!check_in_tunnel(615));
    assert!(is_inside_playable_area(0, 616, UNIT_SIZE));
    assert!(!is_inside_playable_area(0, 615, UNIT_SIZE));
}

#[test]
fn unit_may_stand_in_corridors_and_tunnel() {
    assert!(unit_can_move(&UnitPosition { x: 1380, y: 150 }));
    assert!(unit_can_move(&UnitPosition { x: 0, y: 616 }));
    assert!(unit_can_move(&UnitPosition { x: 3700, y: 616 }));
    assert!(!unit_can_move(&UnitPosition { x: 1380, y: 151 }));
    assert!(!unit_can_move(&UnitPosition { x: 1213, y: 613 }));
}

#[test]
fn moving_checks_the_next_position() {
    let pos = UnitPosition { x: 1380, y: 150 };
    assert!(unit_can_move_in_direction(&pos, UnitDirection::Left));
    assert!(unit_can_move_in_direction(&pos, UnitDirection::Right));
    assert!(!unit_can_move_in_direction(&pos, UnitDirection::Up));
    assert!(!unit_can_move_in_direction(&pos, UnitDirection::Down));
    let edge = UnitPosition { x: i32::MIN, y: 616 };
    assert!(!unit_can_move_in_direction(&edge, UnitDirection::Left));
}

#[test]
fn tunnel_teleport_both_ways() {
    let mut p = UnitPosition { x: TUNNEL_X_LEFT, y: TUNNEL_Y };
    teleport_tunnel(&mut p);
    assert_eq!(p, UnitPosition { x: TUNNEL_X_RIGHT, y: TUNNEL_Y });
    teleport_tunnel(&mut p);
    assert_eq!(p, UnitPosition { x: TUNNEL_X_LEFT, y: TUNNEL_Y });
    let mut off_row = UnitPosition { x: 0, y: 615 };
    teleport_tunnel(&mut off_row);
    assert_eq!(off_row, UnitPosition { x: 0, y: 615 });
}

#[test]
fn tunnel_keeps_moving_left_after_wrap() {
    let mut p = UnitPosition { x: 1, y: TUNNEL_Y };
    p.move_in_direction(UnitDirection::Left);
    assert_eq!(p, UnitPosition { x: 3700, y: TUNNEL_Y });
    p.move_in_direction(UnitDirection::Left);
    assert_eq!(p, UnitPosition { x: 3699, y: TUNNEL_Y });
    let mut q = UnitPosition { x: 3699, y: TUNNEL_Y };
    q.move_in_direction(UnitDirection::Right);
    assert_eq!(q, UnitPosition { x: 0, y: TUNNEL_Y });
    q.move_in_direction(UnitDirection::Right);
    assert_eq!(q, UnitPosition { x: 1, y: TUNNEL_Y });
}

#[test]
fn hitboxes_overlap_strictly() {
    let a = UnitPosition { x: 100, y: 100 };
    assert!(units_collide(&a, 10, &UnitPosition { x: 109, y: 100 }, 10));
    assert!(!units_collide(&a, 10, &UnitPosition { x: 110, y: 100 }, 10));
    assert!(units_collide(&a, 10, &UnitPosition { x: 91, y: 109 }, 10));
    assert!(!units_collide(&a, 10, &UnitPosition { x: 100, y: 90 }, 10));
    assert!(units_collide(&a, 10, &a, 10));
    assert!(units_collide(&a, 3, &UnitPosition { x: 102, y: 100 }, 2));
    assert!(!units_collide(&a, 3, &UnitPosition { x: 103, y: 100 }, 2));
}
