use dot_matrix::digits::{self, Mode, TurnDirection};
use dot_matrix::motor;
use dot_matrix::scale::map_range;
use dot_matrix::sensor::{ButtonPressed, GameState, State};

#[test]
fn buttons_round_trip_through_their_codes() {
    let buttons = [
        ButtonPressed::One,
        ButtonPressed::Two,
        ButtonPressed::Three,
        ButtonPressed::Four,
    ];
    for button in buttons {
        let code = button.into();
        let back = ButtonPressed::try_from(code).unwrap();
        assert_eq!(back.into(), code);
    }
    assert_eq!(ButtonPressed::try_from(4), Err(4));
    assert_eq!(ButtonPressed::try_from(1000), Err(1000));
}

#[test]
fn buttons_label_their_digits() {
    assert_eq!(ButtonPressed::One.label(), "1");
    assert_eq!(ButtonPressed::Two.label(), "2");
    assert_eq!(ButtonPressed::Three.label(), "3");
    assert_eq!(ButtonPressed::Four.label(), "4");
    assert_eq!(ButtonPressed::Three.digit(), 3);
}

#[test]
fn code_game_wins_on_the_right_code() {
    let mut game = GameState::with_secret(vec![1, 2, 3, 4]);
    assert_eq!(game.update(1), State::Playing);
    assert_eq!(game.update(2), State::Playing);
    assert_eq!(game.update(3), State::Playing);
    assert_eq!(game.update(4), State::Win);
}

#[test]
fn code_game_loses_on_a_wrong_code() {
    let mut game = GameState::with_secret(vec![4, 4, 4, 4]);
    assert_eq!(game.update(4), State::Playing);
    assert_eq!(game.update(4), State::Playing);
    assert_eq!(game.update(4), State::Playing);
    assert_eq!(game.update(1), State::Lose);
}

#[test]
fn code_game_with_random_secret_decides_after_four_digits() {
    let mut game = GameState::new();
    assert_eq!(game.update(1), State::Playing);
    assert_eq!(game.update(2), State::Playing);
    assert_eq!(game.update(3), State::Playing);
    let decided = game.update(4);
    assert!(decided == State::Win || decided == State::Lose);
}

#[test]
fn code_game_check_compares_all_digits() {
    let mut game = GameState::with_secret(vec![1, 2, 3, 4]);
    game.update(1);
    game.update(2);
    game.update(4);
    assert_eq!(game.update(3), State::Lose);
}

#[test]
fn motor_state_update_decodes_commands() {
    let mut state = motor::State {
        maximum_power: 1000,
        minimum_power: 150,
        x_direction: motor::Direction::Neutral,
        x_power: 0,
        y_direction: motor::Direction::Neutral,
        y_power: 0,
    };
    state.update([1, 70, 2, 90]);
    assert_eq!(state.x_direction, motor::Direction::Forward);
    assert_eq!(state.x_power, 70);
    assert_eq!(state.y_direction, motor::Direction::Backwards);
    assert_eq!(state.y_power, 90);
    state.update([0, 0, 7, 0]);
    assert_eq!(state.x_direction, motor::Direction::Neutral);
    assert_eq!(state.y_direction, motor::Direction::Neutral);
    assert_eq!(state.maximum_power, 1000);
    assert_eq!(state.minimum_power, 150);
}

#[test]
fn interpolation_uses_truncating_division() {
    assert_eq!(motor::interpolate(50, 0, 100, -100, 100), 0);
    assert_eq!(motor::interpolate(0, 0, 100, 80, 100), 80);
    assert_eq!(motor::interpolate(100, 0, 100, 80, 100), 100);
    assert_eq!(motor::interpolate(50, 0, 100, 80, 100), 90);
    // Truncating division rounds towards zero, not down.
    assert_eq!(motor::interpolate(1, 0, 100, 1, -100), 0);
    assert_eq!(motor::interpolate(33, 0, 100, 100, -100), 34);
}

#[test]
fn wheel_speeds_follow_the_joystick() {
    let mut state = motor::State {
        maximum_power: 1000,
        minimum_power: 150,
        x_direction: motor::Direction::Neutral,
        x_power: 0,
        y_direction: motor::Direction::Neutral,
        y_power: 0,
    };
    assert_eq!(state.wheel_speeds(), (0, 0));
    state.update([0, 0, 1, 50]);
    assert_eq!(state.wheel_speeds(), (50, 50));
    state.update([2, 50, 1, 80]);
    assert_eq!(state.wheel_speeds(), (90, 80));
    state.update([1, 50, 1, 80]);
    assert_eq!(state.wheel_speeds(), (80, 90));
    state.update([0, 0, 2, 60]);
    assert_eq!(state.wheel_speeds(), (-60, -60));
}

#[test]
fn map_range_scales_joystick_readings() {
    assert_eq!(map_range(0, (0, 255), (0, 118)), 0);
    assert_eq!(map_range(255, (0, 255), (0, 118)), 118);
    assert_eq!(map_range(128, (0, 255), (0, 118)), 59);
    assert_eq!(map_range(128, (0, 255), (0, 54)), 27);
}

#[test]
fn segments_encode_the_decimal_digits() {
    assert_eq!(digits::segment(0), 0x3f);
    assert_eq!(digits::segment(8), 0x7f);
    assert_eq!(digits::segment(15), 0x71);
}

#[test]
fn get_digits_right_aligns_with_blank_padding() {
    assert_eq!(digits::get_digits(0), vec![0, 0, 0, 0x3f]);
    assert_eq!(digits::get_digits(5), vec![0, 0, 0, 0x6d]);
    assert_eq!(digits::get_digits(42), vec![0, 0, 0x66, 0x5b]);
    assert_eq!(digits::get_digits(9999), vec![0x6f, 0x6f, 0x6f, 0x6f]);
    assert_eq!(digits::get_digits(1000), vec![0x06, 0x3f, 0x3f, 0x3f]);
}

#[test]
fn get_digits_keeps_the_lowest_digits_of_wide_values() {
    // 65535 shows its lowest four digits, 5535.
    assert_eq!(digits::get_digits(65535), vec![0x6d, 0x6d, 0x4f, 0x6d]);
}

#[test]
fn encoder_steps_move_only_the_selected_value() {
    let mut counter: u16 = 5;
    let mut brightness: u8 = 5;
    digits::handle_encoder(TurnDirection::Clockwise, &Mode::Counter, &mut counter, &mut brightness);
    assert_eq!((counter, brightness), (4, 5));
    digits::handle_encoder(
        TurnDirection::Anticlockwise,
        &Mode::SetBrightness,
        &mut counter,
        &mut brightness,
    );
    assert_eq!((counter, brightness), (4, 6));
    digits::handle_encoder(TurnDirection::Idle, &Mode::Counter, &mut counter, &mut brightness);
    assert_eq!((counter, brightness), (4, 6));
}

#[test]
fn encoder_respects_floors_and_caps() {
    let mut counter: u16 = 0;
    let mut brightness: u8 = 0;
    digits::handle_encoder(TurnDirection::Clockwise, &Mode::Counter, &mut counter, &mut brightness);
    assert_eq!(counter, 0);
    digits::handle_encoder(
        TurnDirection::Clockwise,
        &Mode::SetBrightness,
        &mut counter,
        &mut brightness,
    );
    assert_eq!(brightness, 0);
    counter = digits::MAX_COUNTER;
    brightness = digits::MAX_BRIGHTNESS;
    digits::handle_encoder(
        TurnDirection::Anticlockwise,
        &Mode::Counter,
        &mut counter,
        &mut brightness,
    );
    assert_eq!(counter, digits::MAX_COUNTER);
    digits::handle_encoder(
        TurnDirection::Anticlockwise,
        &Mode::SetBrightness,
        &mut counter,
        &mut brightness,
    );
    assert_eq!(brightness, digits::MAX_BRIGHTNESS);
}
