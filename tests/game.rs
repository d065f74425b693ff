use lander::game::{GameState, KeyInput, MyGame};
use lander::geometry::{Rect, Vector2};
use lander::rocket::{Platform, Rocket, ROCKET_H, WINDOW_Y};

const L: i64 = 10_000_000;
const ONE: i64 = 1_000;
const FUEL: i64 = 1_000_000_000;

fn no_keys() -> KeyInput {
    KeyInput {
        up: false,
        down: false,
        left: false,
        right: false,
        up_released: false,
        left_released: false,
        right_released: false,
    }
}

fn up_held() -> KeyInput {
    KeyInput { up: true, ..no_keys() }
}

/// Steps until the game is over or `limit` frames have passed; returns the
/// number of frames run.
fn run(game: &mut MyGame, input: KeyInput, limit: usize) -> usize {
    let mut frames = 0;
    while game.game_state == GameState::Playing && frames < limit {
        assert!(game.within_limits());
        game.update(&input);
        frames += 1;
    }
    frames
}

#[test]
fn start_builds_the_standard_playfield() {
    let g = MyGame::start(ONE, 1000 * FUEL, 500);
    assert_eq!(g.rocket, Rocket::new(0, 0, ONE, 1000 * FUEL));
    assert_eq!(g.platform, Platform::new(160 * L, 390 * L, 100 * L, 30 * L));
    assert_eq!(g.gravity, Vector2::new(0, 500));
    assert_eq!(g.game_state, GameState::Playing);
    assert!(g.within_limits());
}

#[test]
fn new_game_is_playing() {
    let r = Rocket::new(1, 2, ONE, 3);
    let p = Platform::new(4, 5, 6, 7);
    let g = MyGame::new(r, Vector2::new(0, 8), p);
    assert_eq!(g.rocket, r);
    assert_eq!(g.platform.shape, Rect::new(4, 5, 6, 7));
    assert_eq!(g.game_state, GameState::Playing);
}

#[test]
fn within_limits_rejects_huge_values() {
    let mut g = MyGame::start(ONE, FUEL, 500);
    g.rocket.velocity.y = i64::MAX;
    assert!(!g.within_limits());
    let mut h = MyGame::start(ONE, FUEL, 500);
    h.rocket.weight = i64::MIN;
    assert!(!h.within_limits());
}

#[test]
fn one_flying_frame_with_gravity() {
    let mut g = MyGame::start(ONE, 1000 * FUEL, 500);
    g.update(&no_keys());
    // gravity 0.05 times weight 1 is 0.05 world units per frame squared
    assert_eq!(g.rocket.acceleration, Vector2::new(0, 500_000));
    assert_eq!(g.rocket.velocity, Vector2::new(0, 500_000));
    assert_eq!((g.rocket.shape.x, g.rocket.shape.y), (0, 500_000));
    // passive cost: 0.05 * 1 * 0.01 fuel
    assert_eq!(g.rocket.fuel, 1000 * FUEL - 500_000);
    assert_eq!(g.game_state, GameState::Playing);
}

#[test]
fn keys_act_independently_in_one_frame() {
    let mut g = MyGame::start(ONE, 1000 * FUEL, 0);
    let all = KeyInput { up: true, down: true, left: true, right: true, ..no_keys() };
    g.update(&all);
    assert!(g.rocket.is_moving);
    // up -9000, down +9000 - 9000, left -9000 and right +9000 on x
    assert_eq!(g.rocket.acceleration, Vector2::new(0, -9_000));
    assert_eq!(g.rocket.fuel, 1000 * FUEL - 3 * 9_000);
    g.update(&KeyInput { up_released: true, ..no_keys() });
    assert!(!g.rocket.is_moving);
}

#[test]
fn successful_landing_on_the_platform() {
    let mut g = MyGame::start(ONE, 1000 * FUEL, 500);
    // drift already carrying the rocket over the landing band
    g.rocket.velocity.x = 300 * L;
    let frames = run(&mut g, up_held(), 10_000);
    assert!(frames < 10_000);
    assert_eq!(g.game_state, GameState::GameOver);
    assert_eq!(g.gravity, Vector2::new(0, 0));
    assert!(!g.rocket.is_flying);
    assert_eq!(g.rocket.shape.x, 300 * L);
    assert_eq!(g.rocket.shape.y, WINDOW_Y - ROCKET_H - 30 * L);
    assert!(g.rocket.fuel > 0);
}

#[test]
fn crash_beside_the_platform() {
    let mut g = MyGame::start(ONE, 1000 * FUEL, 500);
    let frames = run(&mut g, up_held(), 10_000);
    assert!(frames < 10_000);
    assert_eq!(g.game_state, GameState::GameOver);
    assert_eq!(g.gravity, Vector2::new(0, 0));
    assert!(!g.rocket.is_flying);
    assert_eq!(g.rocket.shape.x, 0);
    assert_eq!(g.rocket.shape.y, WINDOW_Y - ROCKET_H);
}

#[test]
fn gravity_alone_ends_the_game_in_bounded_frames() {
    let mut g = MyGame::start(3000 * ONE, FUEL, 10);
    let frames = run(&mut g, no_keys(), 1_000);
    assert!(frames < 1_000);
    assert_eq!(g.game_state, GameState::GameOver);
    assert_eq!(g.gravity, Vector2::new(0, 0));
    assert_eq!(g.rocket.shape.y, WINDOW_Y - ROCKET_H);
}

#[test]
fn fuel_exhaustion_ends_the_game_while_still_flying() {
    let mut g = MyGame::start(3000 * ONE, FUEL, 10);
    // high enough that the floor is far away when the fuel is gone
    g.rocket.velocity.y = -5000 * L;
    for _ in 0..33 {
        g.update(&no_keys());
        assert_eq!(g.game_state, GameState::Playing);
        assert!(g.rocket.is_flying);
    }
    // each frame costs 0.001 * 3000 * 0.01 = 0.03 fuel
    assert_eq!(g.rocket.fuel, FUEL - 33 * 30_000_000);
    g.update(&no_keys());
    assert!(!g.rocket.has_fuel());
    assert_eq!(g.game_state, GameState::GameOver);
    assert_eq!(g.gravity, Vector2::new(0, 0));
    assert!(!g.rocket.is_flying);
    assert_eq!(g.rocket.shape.y, WINDOW_Y - ROCKET_H);
}

#[test]
fn game_over_is_terminal() {
    let mut g = MyGame::start(ONE, FUEL, 500);
    g.rocket.is_flying = false;
    g.update(&no_keys());
    assert_eq!(g.game_state, GameState::GameOver);
    let frozen = g;
    g.update(&KeyInput { up: true, down: true, left: true, right: true, ..no_keys() });
    assert_eq!(g, frozen);
}
