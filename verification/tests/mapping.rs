use tarot::button::{GenericButton, InputState, KEY_A, KEY_D, KEY_ESCAPE, KEY_S, KEY_W, MOUSE_LEFT};
use tarot::editor::EditorAction;
use tarot::mapping::{ButtonMapping, InputAction, MappedButtons};

fn key(code: u32) -> GenericButton {
    GenericButton::KeyBoard(code)
}

fn mouse(code: u32) -> GenericButton {
    GenericButton::Mouse(code)
}

fn pad(code: u32) -> GenericButton {
    GenericButton::Gamepad(code)
}

#[test]
fn insert_and_lookup_are_mutual_inverses() {
    let mut mapping = ButtonMapping::<EditorAction>::default();
    assert!(mapping.insert_mapping(MappedButtons::new(
        EditorAction::PanUp,
        &[key(KEY_W), pad(7)],
    )));
    assert!(mapping.insert_mapping(MappedButtons::new_single(EditorAction::Place, mouse(0))));

    // action -> buttons
    let buttons = mapping.get_buttons(&EditorAction::PanUp).unwrap();
    assert_eq!(buttons, &[key(KEY_W), pad(7)]);
    // buttons -> action, for every claimed button
    assert_eq!(mapping.get_action(&key(KEY_W)), Some(EditorAction::PanUp));
    assert_eq!(mapping.get_action(&pad(7)), Some(EditorAction::PanUp));
    assert_eq!(mapping.get_action(&mouse(0)), Some(EditorAction::Place));
    // unclaimed buttons and unbound actions resolve to nothing
    assert_eq!(mapping.get_action(&key(KEY_S)), None);
    assert!(mapping.get_buttons(&EditorAction::PanDown).is_none());
    assert!(mapping.is_mapped(&pad(7)));
    assert!(!mapping.is_mapped(&pad(8)));
}

#[test]
fn entry_accessors_return_what_was_inserted() {
    let entry = MappedButtons::new(EditorAction::Deselect, &[key(KEY_ESCAPE), mouse(1)]);
    assert_eq!(entry.get_action(), EditorAction::Deselect);
    assert_eq!(entry.get_buttons(), &[key(KEY_ESCAPE), mouse(1)]);
    let single = MappedButtons::new_single(EditorAction::Place, mouse(0));
    assert_eq!(single.get_buttons(), &[mouse(0)]);
}

#[test]
fn insert_existing_action_is_rejected_without_change() {
    let mut mapping = ButtonMapping::<EditorAction>::default();
    assert!(mapping.insert_mapping(MappedButtons::new_single(EditorAction::PanUp, key(KEY_W))));
    // same action, fresh button: rejected, nothing changes
    assert!(!mapping.insert_mapping(MappedButtons::new_single(EditorAction::PanUp, key(KEY_S))));
    assert_eq!(mapping.entries().len(), 1);
    assert_eq!(mapping.get_buttons(&EditorAction::PanUp).unwrap(), &[key(KEY_W)]);
    assert_eq!(mapping.get_action(&key(KEY_S)), None);
}

#[test]
fn insert_claimed_button_is_rejected_without_change() {
    let mut mapping = ButtonMapping::<EditorAction>::default();
    assert!(mapping.insert_mapping(MappedButtons::new_single(EditorAction::PanUp, key(KEY_W))));
    // a fresh action, but one of its buttons is already claimed:
    // rejected even though the other button is free
    assert!(!mapping.insert_mapping(MappedButtons::new(
        EditorAction::PanDown,
        &[key(KEY_S), key(KEY_W)],
    )));
    assert_eq!(mapping.entries().len(), 1);
    assert!(mapping.get_buttons(&EditorAction::PanDown).is_none());
    assert!(!mapping.is_mapped(&key(KEY_S)));
    assert_eq!(mapping.get_action(&key(KEY_W)), Some(EditorAction::PanUp));
}

#[test]
fn insert_repeated_button_is_rejected() {
    let mut mapping = ButtonMapping::<EditorAction>::default();
    // one entry may not claim the same button twice
    assert!(!mapping.insert_mapping(MappedButtons::new(
        EditorAction::PanUp,
        &[key(KEY_W), key(KEY_W)],
    )));
    assert_eq!(mapping.entries().len(), 0);
    assert!(!mapping.is_mapped(&key(KEY_W)));
}

#[test]
fn update_buttons_rebinds_exactly_the_new_buttons() {
    let mut mapping = ButtonMapping::<EditorAction>::default();
    assert!(mapping.insert_mapping(MappedButtons::new(
        EditorAction::PanUp,
        &[key(KEY_W), pad(7)],
    )));
    assert!(mapping.insert_mapping(MappedButtons::new_single(EditorAction::Place, mouse(0))));

    mapping.update_buttons(EditorAction::PanUp, vec![key(KEY_A), pad(7)]);

    // the dropped old button no longer maps to anything
    assert_eq!(mapping.get_action(&key(KEY_W)), None);
    assert!(!mapping.is_mapped(&key(KEY_W)));
    // the new buttons map to exactly the updated action
    assert_eq!(mapping.get_action(&key(KEY_A)), Some(EditorAction::PanUp));
    assert_eq!(mapping.get_action(&pad(7)), Some(EditorAction::PanUp));
    assert_eq!(mapping.get_buttons(&EditorAction::PanUp).unwrap(), &[key(KEY_A), pad(7)]);
    // the other entry is untouched
    assert_eq!(mapping.get_action(&mouse(0)), Some(EditorAction::Place));
    assert_eq!(mapping.entries().len(), 2);
}

#[test]
fn update_buttons_on_missing_action_is_a_no_op() {
    let mut mapping = ButtonMapping::<EditorAction>::default();
    assert!(mapping.insert_mapping(MappedButtons::new_single(EditorAction::PanUp, key(KEY_W))));
    mapping.update_buttons(EditorAction::PanDown, vec![key(KEY_S)]);
    assert_eq!(mapping.entries().len(), 1);
    assert!(!mapping.is_mapped(&key(KEY_S)));
    assert_eq!(mapping.get_action(&key(KEY_W)), Some(EditorAction::PanUp));
}

#[test]
fn update_buttons_refuses_a_button_of_another_action() {
    let mut mapping = ButtonMapping::<EditorAction>::default();
    assert!(mapping.insert_mapping(MappedButtons::new_single(EditorAction::PanUp, key(KEY_W))));
    assert!(mapping.insert_mapping(MappedButtons::new_single(EditorAction::Place, mouse(0))));
    // mouse(0) already serves Place: the whole update is refused
    mapping.update_buttons(EditorAction::PanUp, vec![key(KEY_A), mouse(0)]);
    assert_eq!(mapping.get_buttons(&EditorAction::PanUp).unwrap(), &[key(KEY_W)]);
    assert_eq!(mapping.get_action(&mouse(0)), Some(EditorAction::Place));
    assert_eq!(mapping.get_action(&key(KEY_A)), None);
}

#[test]
fn update_buttons_keeps_the_entry_position() {
    let mut mapping = ButtonMapping::<EditorAction>::default();
    assert!(mapping.insert_mapping(MappedButtons::new_single(EditorAction::PanUp, key(KEY_W))));
    assert!(mapping.insert_mapping(MappedButtons::new_single(EditorAction::Place, mouse(0))));
    mapping.update_buttons(EditorAction::PanUp, vec![key(KEY_A)]);
    let entries = mapping.entries();
    assert_eq!(entries.len(), 2);
    assert_eq!(entries[0].get_action(), EditorAction::PanUp);
    assert_eq!(entries[0].get_buttons(), &[key(KEY_A)]);
    assert_eq!(entries[1].get_action(), EditorAction::Place);
}

#[test]
fn action_pressed_when_any_of_its_buttons_is() {
    let mut mapping = ButtonMapping::<EditorAction>::default();
    assert!(mapping.insert_mapping(MappedButtons::new(
        EditorAction::PanUp,
        &[key(KEY_W), pad(7)],
    )));
    let keyboard = InputState::new(vec![], vec![], vec![]);
    let gamepad = InputState::new(vec![7], vec![], vec![]);
    // the keyboard button is up, but the gamepad button is down
    assert!(mapping.pressed(&EditorAction::PanUp, Some(&keyboard), None, Some(&gamepad)));
    // with only the keyboard snapshot nothing is down
    assert!(!mapping.pressed(&EditorAction::PanUp, Some(&keyboard), None, None));
    // an unbound action is never pressed
    assert!(!mapping.pressed(&EditorAction::PanDown, Some(&keyboard), None, Some(&gamepad)));
}

#[test]
fn action_just_pressed_and_just_released_follow_the_snapshots() {
    let mut mapping = ButtonMapping::<EditorAction>::default();
    assert!(mapping.insert_mapping(MappedButtons::new_single(EditorAction::Place, mouse(0))));
    let mouse_state = InputState::new(vec![], vec![0], vec![1]);
    assert!(mapping.just_pressed(&EditorAction::Place, None, Some(&mouse_state), None));
    assert!(!mapping.just_released(&EditorAction::Place, None, Some(&mouse_state), None));
    let released = InputState::new(vec![], vec![], vec![0]);
    assert!(mapping.just_released(&EditorAction::Place, None, Some(&released), None));
    assert!(!mapping.just_pressed(&EditorAction::Place, None, Some(&released), None));
}

#[test]
fn editor_default_mapping_binds_the_documented_buttons() {
    let mapping = EditorAction::default_mapping();
    assert_eq!(mapping.get_action(&key(KEY_W)), Some(EditorAction::PanUp));
    assert_eq!(mapping.get_action(&key(KEY_S)), Some(EditorAction::PanDown));
    assert_eq!(mapping.get_action(&key(KEY_A)), Some(EditorAction::PanLeft));
    assert_eq!(mapping.get_action(&key(KEY_D)), Some(EditorAction::PanRight));
    assert_eq!(mapping.get_action(&key(KEY_ESCAPE)), Some(EditorAction::Deselect));
    assert_eq!(mapping.get_action(&mouse(MOUSE_LEFT)), Some(EditorAction::Place));
    assert_eq!(mapping.entries().len(), 6);
}

#[derive(Copy, Clone, Debug, PartialEq, Eq)]
enum WalkAction {
    Left,
    Right,
}

impl InputAction for WalkAction {
    fn action_eq(&self, other: &Self) -> bool {
        self == other
    }
}

#[test]
fn a_caller_defined_action_type_plugs_in() {
    let mut mapping = ButtonMapping::<WalkAction>::default();
    assert!(mapping.insert_mapping(MappedButtons::new_single(WalkAction::Left, key(KEY_A))));
    assert!(mapping.insert_mapping(MappedButtons::new_single(WalkAction::Right, key(KEY_D))));
    let keyboard = InputState::new(vec![KEY_A], vec![KEY_A], vec![]);
    assert!(mapping.just_pressed(&WalkAction::Left, Some(&keyboard), None, None));
    assert!(!mapping.just_pressed(&WalkAction::Right, Some(&keyboard), None, None));
    assert_eq!(mapping.get_action(&key(KEY_D)), Some(WalkAction::Right));
}
