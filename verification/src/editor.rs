//! The level editor's actions and modes.
//!
//! [`EditorAction`] is the concrete action set of the in-game editor and
//! shows how an action enum plugs into the mapping registry; its default
//! binding pans with the W/S/A/D keys, deselects with escape and places
//! with the left mouse button. [`TemperanceState`] names which of the
//! editor's two screens is active.

use vstd::prelude::*;
use crate::button::{GenericButton, KEY_A, KEY_D, KEY_ESCAPE, KEY_S, KEY_W, MOUSE_LEFT};
use crate::mapping::{ButtonMapping, InputAction, MappedButtons};

verus! {

/// Which editor screen is active.
#[derive(Copy, Clone, Debug, Default, Hash, PartialEq, Eq, Structural)]
pub enum TemperanceState {
    /// The level editor.
    LevelEditor,
    /// The sprite sheet editor.
    #[default]
    SpriteSheetEditor,
}

/// The editor's logical input actions.
#[derive(Copy, Clone, Debug, Hash, PartialEq, Eq, Structural)]
pub enum EditorAction {
    /// Pan the camera up.
    PanUp,
    /// Pan the camera down.
    PanDown,
    /// Pan the camera left.
    PanLeft,
    /// Pan the camera right.
    PanRight,
    /// Drop the current selection.
    Deselect,
    /// Place the current selection.
    Place,
}

impl InputAction for EditorAction {
    fn action_eq(&self, other: &Self) -> (r: bool)
        ensures
            r == (*self == *other),
    {
        *self == *other
    }
}

impl EditorAction {
    /// The default binding if none is loaded manually: W/S/A/D pan,
    /// escape deselects, the left mouse button places.
    pub fn default_mapping() -> (r: ButtonMapping<Self>)
        ensures
            r.well_formed(),
            r.spec_action_of(GenericButton::KeyBoard(KEY_W)) == Some(EditorAction::PanUp),
            r.spec_action_of(GenericButton::KeyBoard(KEY_S)) == Some(EditorAction::PanDown),
            r.spec_action_of(GenericButton::KeyBoard(KEY_A)) == Some(EditorAction::PanLeft),
            r.spec_action_of(GenericButton::KeyBoard(KEY_D)) == Some(EditorAction::PanRight),
            r.spec_action_of(GenericButton::KeyBoard(KEY_ESCAPE))
                == Some(EditorAction::Deselect),
            r.spec_action_of(GenericButton::Mouse(MOUSE_LEFT)) == Some(EditorAction::Place),
    {
        let mut mapping = ButtonMapping::<Self>::default();
        let ok = mapping.insert_mapping(
            MappedButtons::new_single(EditorAction::PanUp, GenericButton::KeyBoard(KEY_W)),
        );
        proof {
            assert(ok);
        }
        let ok = mapping.insert_mapping(
            MappedButtons::new_single(EditorAction::PanDown, GenericButton::KeyBoard(KEY_S)),
        );
        proof {
            assert(ok);
        }
        let ok = mapping.insert_mapping(
            MappedButtons::new_single(EditorAction::PanLeft, GenericButton::KeyBoard(KEY_A)),
        );
        proof {
            assert(ok);
        }
        let ok = mapping.insert_mapping(
            MappedButtons::new_single(EditorAction::PanRight, GenericButton::KeyBoard(KEY_D)),
        );
        proof {
            assert(ok);
        }
        let ok = mapping.insert_mapping(
            MappedButtons::new_single(EditorAction::Deselect, GenericButton::KeyBoard(KEY_ESCAPE)),
        );
        proof {
            assert(ok);
        }
        let ok = mapping.insert_mapping(
            MappedButtons::new_single(EditorAction::Place, GenericButton::Mouse(MOUSE_LEFT)),
        );
        proof {
            assert(ok);
            assert(mapping@[0].1[0] == GenericButton::KeyBoard(KEY_W));
            assert(mapping@[1].1[0] == GenericButton::KeyBoard(KEY_S));
            assert(mapping@[2].1[0] == GenericButton::KeyBoard(KEY_A));
            assert(mapping@[3].1[0] == GenericButton::KeyBoard(KEY_D));
            assert(mapping@[4].1[0] == GenericButton::KeyBoard(KEY_ESCAPE));
            assert(mapping@[5].1[0] == GenericButton::Mouse(MOUSE_LEFT));
            mapping.lemma_button_index_is(0, GenericButton::KeyBoard(KEY_W));
            mapping.lemma_button_index_is(1, GenericButton::KeyBoard(KEY_S));
            mapping.lemma_button_index_is(2, GenericButton::KeyBoard(KEY_A));
            mapping.lemma_button_index_is(3, GenericButton::KeyBoard(KEY_D));
            mapping.lemma_button_index_is(4, GenericButton::KeyBoard(KEY_ESCAPE));
            mapping.lemma_button_index_is(5, GenericButton::Mouse(MOUSE_LEFT));
        }
        mapping
    }
}

} // verus!
