use dodge_core::collision::detect_collision;
use dodge_core::entity::Entity;
use dodge_core::obstacle::Obstacle;

fn player() -> Entity {
    Entity {
        y: -100_000,
        vy: 0,
        width: 30_000,
        height: 50_000,
        base_width: 30_000,
        base_height: 50_000,
        health: 3,
    }
}

#[test]
fn coincident_boxes_overlap_and_cost_one_health() {
    // Entity at (-300, -100) sized 30x50, obstacle at (-300, -100) sized
    // 30x30: overlap on both axes.
    let mut p = player();
    let mut obs = vec![Obstacle { x: -300_000, y: -100_000 }];
    detect_collision(&mut p, &mut obs);
    assert_eq!(p.health, 2);
    assert_eq!(obs.len(), 0);
}

#[test]
fn hundred_units_apart_is_no_overlap() {
    // dx = 100 world units exceeds the 15 + 15 half-width sum.
    let mut p = player();
    let mut obs = vec![Obstacle { x: -400_000, y: -100_000 }];
    detect_collision(&mut p, &mut obs);
    assert_eq!(p.health, 3);
    assert_eq!(obs.len(), 1);
}

#[test]
fn horizontal_overlap_boundary_is_inclusive() {
    // Centre distance exactly the half-width sum (30 units) touches.
    let mut p = player();
    let mut obs = vec![Obstacle { x: -330_000, y: -100_000 }];
    detect_collision(&mut p, &mut obs);
    assert_eq!(p.health, 2);
    assert_eq!(obs.len(), 0);

    // One milli-unit farther does not.
    let mut p = player();
    let mut obs = vec![Obstacle { x: -330_001, y: -100_000 }];
    detect_collision(&mut p, &mut obs);
    assert_eq!(p.health, 3);
    assert_eq!(obs.len(), 1);
}

#[test]
fn crouching_shrinks_the_vertical_reach() {
    // At full height (50) an obstacle 40 units up still touches
    // (40 <= 25 + 15); crouched to 25 the sum is 12.5 + 15, so it misses.
    let mut p = player();
    let mut obs = vec![Obstacle { x: -300_000, y: -60_000 }];
    detect_collision(&mut p, &mut obs);
    assert_eq!(p.health, 2);
    assert_eq!(obs.len(), 0);

    let mut p = player();
    p.height = 25_000;
    let mut obs = vec![Obstacle { x: -300_000, y: -60_000 }];
    detect_collision(&mut p, &mut obs);
    assert_eq!(p.health, 3);
    assert_eq!(obs.len(), 1);
}

#[test]
fn each_overlapping_obstacle_costs_exactly_one_point() {
    let mut p = player();
    let mut obs = vec![
        Obstacle { x: -300_000, y: -100_000 },
        Obstacle { x: -310_000, y: -100_000 },
        Obstacle { x: 0, y: -100_000 },
    ];
    detect_collision(&mut p, &mut obs);
    assert_eq!(p.health, 1);
    assert_eq!(obs.len(), 1);
    assert_eq!(obs[0].x, 0);
}

#[test]
fn health_never_goes_below_zero() {
    let mut p = player();
    p.health = 1;
    let mut obs = vec![
        Obstacle { x: -300_000, y: -100_000 },
        Obstacle { x: -301_000, y: -100_000 },
        Obstacle { x: -302_000, y: -100_000 },
    ];
    detect_collision(&mut p, &mut obs);
    assert_eq!(p.health, 0);
    assert_eq!(obs.len(), 0);
}
