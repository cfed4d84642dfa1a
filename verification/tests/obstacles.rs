use dodge_core::obstacle::move_obstacles;
use dodge_core::obstacle::place_obstacle;
use dodge_core::obstacle::Obstacle;
use dodge_core::world::World;

#[test]
fn placement_uses_draw_modulo_fifty() {
    let o = place_obstacle(7);
    assert_eq!(o.x, 400_000);
    assert_eq!(o.y, -100_000 + 7_000);
    let o = place_obstacle(52);
    assert_eq!(o.y, -98_000);
    let o = place_obstacle(49);
    assert_eq!(o.y, -51_000);
}

#[test]
fn obstacles_scroll_left_at_game_speed() {
    let mut obs = vec![Obstacle { x: 400_000, y: -100_000 }];
    move_obstacles(&mut obs, 100);
    assert_eq!(obs.len(), 1);
    assert_eq!(obs[0].x, 360_000);
    assert_eq!(obs[0].y, -100_000);
}

#[test]
fn reaped_strictly_past_left_edge() {
    // Spawned at the right edge and scrolled a whole second per frame:
    // 400 -> 0 -> -400 world units.  Removal needs x strictly below -400,
    // so the obstacle sitting exactly on the edge is still live and goes
    // one frame later.
    let mut obs = vec![Obstacle { x: 400_000, y: -100_000 }];
    move_obstacles(&mut obs, 1000);
    assert_eq!(obs[0].x, 0);
    move_obstacles(&mut obs, 1000);
    assert_eq!(obs.len(), 1);
    assert_eq!(obs[0].x, -400_000);
    move_obstacles(&mut obs, 1000);
    assert_eq!(obs.len(), 0);
}

#[test]
fn reaping_keeps_later_obstacles_in_order() {
    let mut obs = vec![
        Obstacle { x: -399_000, y: -100_000 },
        Obstacle { x: 10_000, y: -99_000 },
        Obstacle { x: 20_000, y: -98_000 },
    ];
    move_obstacles(&mut obs, 100);
    assert_eq!(obs.len(), 2);
    assert_eq!(obs[0].x, -30_000);
    assert_eq!(obs[0].y, -99_000);
    assert_eq!(obs[1].x, -20_000);
    assert_eq!(obs[1].y, -98_000);
}

#[test]
fn spawn_cadence_is_one_obstacle_every_ten_tenth_second_frames() {
    let mut w = World::new(42);
    let mut spawn_ticks = Vec::new();
    for t in 0..30 {
        w.tick(&vec![], 100);
        // A fresh spawn still sits exactly at the right edge this tick.
        if w.obstacles.last().map_or(false, |o| o.x == 400_000) {
            spawn_ticks.push(t);
        }
    }
    // Exactly one spawn as each tenth frame completes the one-second timer.
    assert_eq!(spawn_ticks, vec![9, 19, 29]);
}

#[test]
fn long_frame_spawns_at_most_one_obstacle() {
    let mut w = World::new(1);
    w.tick(&vec![], 5_500);
    assert_eq!(w.obstacles.len(), 1);
    // The timer kept the remainder modulo the interval.
    assert_eq!(w.spawn_timer, 500);
}

#[test]
fn fixed_seed_reproduces_the_obstacle_sequence() {
    let mut a = World::new(123);
    let mut b = World::new(123);
    for _ in 0..120 {
        a.tick(&vec![], 100);
        b.tick(&vec![], 100);
        assert_eq!(a.obstacles, b.obstacles);
    }
    assert!(!a.obstacles.is_empty());
}

#[test]
fn spawned_offsets_stay_in_the_fifty_unit_band() {
    let mut w = World::new(99);
    for _ in 0..300 {
        w.tick(&vec![], 100);
    }
    assert!(!w.obstacles.is_empty());
    for o in &w.obstacles {
        assert!(o.y >= -100_000 && o.y <= -51_000);
        assert_eq!((o.y - (-100_000)) % 1000, 0);
    }
}
