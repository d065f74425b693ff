use lander::decimal::parse_steps;
use lander::game::{GameState, MyGame, StartError};
use lander::geometry::Vector2;

fn p(text: &str, places: u32) -> Option<i64> {
    parse_steps(text.as_bytes(), places)
}

#[test]
fn parses_whole_and_fractional_numbers() {
    assert_eq!(p("3000", 3), Some(3_000_000));
    assert_eq!(p("0.05", 4), Some(500));
    assert_eq!(p("0.001", 4), Some(10));
    assert_eq!(p("1000", 9), Some(1_000_000_000_000));
    assert_eq!(p("-1.5", 3), Some(-1_500));
    assert_eq!(p(".5", 1), Some(5));
    assert_eq!(p("5.", 1), Some(50));
    assert_eq!(p("007", 0), Some(7));
}

#[test]
fn extra_places_round_toward_zero() {
    assert_eq!(p("1.23456", 2), Some(123));
    assert_eq!(p("-1.239", 2), Some(-123));
    assert_eq!(p("-0.009", 2), Some(0));
}

#[test]
fn rejects_malformed_text() {
    for bad in ["", "-", ".", "-.", "1.2.3", "abc", "+1", "1e3", " 1", "1 ", "--1", "1-"] {
        assert_eq!(p(bad, 3), None, "{:?}", bad);
    }
}

#[test]
fn rejects_values_beyond_i64() {
    assert_eq!(p("9223372036854775807", 0), Some(i64::MAX));
    assert_eq!(p("-9223372036854775807", 0), Some(-i64::MAX));
    assert_eq!(p("9223372036854775808", 0), None);
    assert_eq!(p("1", 19), None);
    assert_eq!(p("0", 30), Some(0));
    assert_eq!(p("0.5", 30), None);
}

#[test]
fn settings_build_the_standard_opening() {
    let g = MyGame::from_settings(b"1", b"1000", b"0.05").unwrap();
    assert_eq!(g, MyGame::start(1_000, 1_000_000_000_000, 500));
    assert_eq!(g.gravity, Vector2::new(0, 500));
    assert_eq!(g.game_state, GameState::Playing);
}

#[test]
fn settings_name_the_first_bad_parameter() {
    assert_eq!(MyGame::from_settings(b"x", b"y", b"z"), Err(StartError::InvalidWeight));
    assert_eq!(MyGame::from_settings(b"1", b"y", b"z"), Err(StartError::InvalidFuel));
    assert_eq!(MyGame::from_settings(b"1", b"2", b"z"), Err(StartError::InvalidGravity));
}

#[test]
fn settings_too_large_are_out_of_range() {
    assert_eq!(MyGame::from_settings(b"2000000", b"1", b"0.05"), Err(StartError::OutOfRange));
    assert_eq!(MyGame::from_settings(b"1", b"1", b"200000"), Err(StartError::OutOfRange));
}
