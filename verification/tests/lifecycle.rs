use dodge_core::input::Key;
use dodge_core::input::KeyEvent;
use dodge_core::obstacle::Obstacle;
use dodge_core::world::GameState;
use dodge_core::world::World;

fn jump_press() -> KeyEvent {
    KeyEvent { key: Key::Jump, pressed: true }
}

#[test]
fn fresh_world_is_active_at_full_health() {
    let w = World::new(0);
    assert_eq!(w.state, GameState::Active);
    assert_eq!(w.player.health, 3);
    assert_eq!(w.player.y, -100_000);
    assert!(w.obstacles.is_empty());
    assert!(!w.game_over_banner());
    assert_eq!(w.render_health_info(), "Health: 3");
}

#[test]
fn fatal_hit_ends_the_session_within_its_tick() {
    let mut w = World::new(5);
    w.player.health = 1;
    w.obstacles.push(Obstacle { x: -300_000, y: -100_000 });
    w.tick(&vec![], 0);
    assert_eq!(w.player.health, 0);
    assert_eq!(w.state, GameState::Over);
    assert!(w.game_over_banner());
    assert!(w.obstacles.is_empty());
    assert_eq!(w.render_health_info(), "Health: 0");
}

#[test]
fn finished_session_freezes_until_restart() {
    let mut w = World::new(5);
    w.player.health = 0;
    w.check_health();
    assert_eq!(w.state, GameState::Over);
    // Ticks without a restart press change nothing.
    for _ in 0..20 {
        w.tick(&vec![], 100);
        assert_eq!(w.state, GameState::Over);
        assert_eq!(w.player.health, 0);
        assert!(w.obstacles.is_empty());
    }
}

#[test]
fn restart_press_resets_the_session() {
    let mut w = World::new(5);
    w.player.health = 1;
    w.obstacles.push(Obstacle { x: -300_000, y: -100_000 });
    w.obstacles.push(Obstacle { x: 350_000, y: -80_000 });
    w.tick(&vec![], 0);
    assert_eq!(w.state, GameState::Over);
    assert_eq!(w.obstacles.len(), 1);

    w.tick(&vec![jump_press()], 100);
    assert_eq!(w.state, GameState::Active);
    assert_eq!(w.player.health, 3);
    assert!(w.obstacles.is_empty());
    assert!(!w.game_over_banner());
    assert_eq!(w.render_health_info(), "Health: 3");
}

#[test]
fn restart_while_active_is_ignored() {
    let mut w = World::new(5);
    w.obstacles.push(Obstacle { x: 350_000, y: -80_000 });
    w.player.health = 2;
    w.restart_game(&vec![jump_press()]);
    assert_eq!(w.state, GameState::Active);
    assert_eq!(w.player.health, 2);
    assert_eq!(w.obstacles.len(), 1);
}

#[test]
fn double_restart_does_not_reset_twice() {
    let mut w = World::new(5);
    w.player.health = 0;
    w.check_health();
    assert_eq!(w.state, GameState::Over);

    w.restart_game(&vec![jump_press()]);
    assert_eq!(w.state, GameState::Active);
    assert_eq!(w.player.health, 3);
    assert!(w.obstacles.is_empty());

    // The second press lands after the transition back to Active: no
    // double reset, nothing re-cleared, no crash.
    w.restart_game(&vec![jump_press()]);
    assert_eq!(w.state, GameState::Active);
    assert_eq!(w.player.health, 3);
    assert!(w.obstacles.is_empty());
}

#[test]
fn health_display_tracks_each_value() {
    let mut w = World::new(5);
    for (health, text) in [
        (3u32, "Health: 3"),
        (2, "Health: 2"),
        (1, "Health: 1"),
        (0, "Health: 0"),
    ] {
        w.player.health = health;
        assert_eq!(w.render_health_info(), text);
    }
}

#[test]
fn banner_mirrors_the_lifecycle_state() {
    let mut w = World::new(5);
    assert!(!w.game_over_banner());
    w.player.health = 0;
    w.check_health();
    assert!(w.game_over_banner());
    w.restart_game(&vec![jump_press()]);
    assert!(!w.game_over_banner());
}

#[test]
fn played_session_survives_a_full_cycle() {
    // Play until the session ends, restart, and keep playing: the world
    // stays well formed throughout (no panic, health within bounds).
    let mut w = World::new(2024);
    let mut restarted = false;
    for frame in 0..5000 {
        let events = if w.state == GameState::Over {
            restarted = true;
            vec![jump_press()]
        } else if frame % 13 == 0 {
            vec![jump_press()]
        } else {
            vec![]
        };
        w.tick(&events, 100);
        assert!(w.player.health <= 3);
        assert!(w.player.y >= -100_000);
    }
    assert!(restarted);
}
