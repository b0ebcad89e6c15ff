use tarot::button::{GenericButton, InputState};

#[test]
fn input_state_answers_by_its_code_lists() {
    let state = InputState::new(vec![3, 5], vec![5], vec![9]);
    assert!(state.pressed(3));
    assert!(state.pressed(5));
    assert!(!state.pressed(9));
    assert!(state.just_pressed(5));
    assert!(!state.just_pressed(3));
    assert!(state.just_released(9));
    assert!(!state.just_released(5));
}

#[test]
fn button_reads_only_its_own_device_snapshot() {
    let keyboard = InputState::new(vec![42], vec![], vec![]);
    let mouse = InputState::new(vec![42], vec![], vec![]);
    let gamepad = InputState::new(vec![42], vec![], vec![]);
    // the same code pressed on another device does not count
    assert!(GenericButton::KeyBoard(42).pressed(Some(&keyboard), None, None));
    assert!(!GenericButton::KeyBoard(42).pressed(None, Some(&mouse), Some(&gamepad)));
    assert!(GenericButton::Mouse(42).pressed(None, Some(&mouse), None));
    assert!(!GenericButton::Mouse(42).pressed(Some(&keyboard), None, Some(&gamepad)));
    assert!(GenericButton::Gamepad(42).pressed(None, None, Some(&gamepad)));
    assert!(!GenericButton::Gamepad(42).pressed(Some(&keyboard), Some(&mouse), None));
}

#[test]
fn missing_snapshot_reads_false_for_every_query() {
    // the matching snapshot is omitted: false, whatever the code
    for code in [0u32, 1, 27, 65, 1000] {
        assert!(!GenericButton::KeyBoard(code).pressed(None, None, None));
        assert!(!GenericButton::KeyBoard(code).just_pressed(None, None, None));
        assert!(!GenericButton::KeyBoard(code).just_released(None, None, None));
        let full = InputState::new(vec![code], vec![code], vec![code]);
        // even with the other two devices supplied and the code down there
        assert!(!GenericButton::KeyBoard(code).pressed(None, Some(&full), Some(&full)));
        assert!(!GenericButton::Mouse(code).just_pressed(Some(&full), None, Some(&full)));
        assert!(!GenericButton::Gamepad(code).just_released(Some(&full), Some(&full), None));
    }
}

#[test]
fn edge_queries_follow_their_own_lists() {
    let state = InputState::new(vec![8], vec![9], vec![10]);
    assert!(GenericButton::Mouse(8).pressed(None, Some(&state), None));
    assert!(!GenericButton::Mouse(8).just_pressed(None, Some(&state), None));
    assert!(GenericButton::Mouse(9).just_pressed(None, Some(&state), None));
    assert!(GenericButton::Mouse(10).just_released(None, Some(&state), None));
    assert!(!GenericButton::Mouse(10).pressed(None, Some(&state), None));
}
