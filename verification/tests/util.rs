use tarot::animation::{Animation, AnimationBehaviour};
use tarot::editor::TemperanceState;
use tarot::error::{HermitError, WOFError, WheelOfFortuneError};
use tarot::util::{is_default, SimpleToString};

#[test]
fn is_default_compares_against_the_type_default() {
    assert!(is_default(&0u32));
    assert!(!is_default(&5u32));
    assert!(is_default(&String::new()));
    assert!(!is_default(&String::from("x")));
    assert!(is_default(&Option::<u8>::None));
    assert!(!is_default(&Some(1u8)));
}

#[test]
fn hermit_error_renders_its_message() {
    let err = HermitError::Unspecified(String::from("missing level"));
    assert_eq!(err.sstr(), "[Unspecified Error] missing level");
}

#[test]
fn wheel_of_fortune_error_wraps_a_hermit_error() {
    let err: WOFError =
        WheelOfFortuneError::HermitError(HermitError::Unspecified(String::from("no seed")));
    assert_eq!(err.sstr(), "<Hermit Error> [Unspecified Error] no seed");
}

#[test]
fn animation_holds_frames_and_behaviour() {
    let animation = Animation { key_frames: vec![0, 1, 2, 1], behaviour: AnimationBehaviour::Loop };
    assert_eq!(animation.key_frames, vec![0, 1, 2, 1]);
    assert!(matches!(animation.behaviour, AnimationBehaviour::Loop));
    assert!(matches!(AnimationBehaviour::default(), AnimationBehaviour::RunOnce));
}

#[test]
fn temperance_state_defaults_to_the_sheet_editor() {
    assert_eq!(TemperanceState::default(), TemperanceState::SpriteSheetEditor);
    assert_ne!(TemperanceState::LevelEditor, TemperanceState::SpriteSheetEditor);
}
