//! Buttons of the three input devices, and per-frame snapshots of their state.
//!
//! A [`GenericButton`] names one physical input source — a keyboard key, a
//! mouse button or a gamepad button — by its device class and a plain
//! numeric code, so that higher layers can treat the three device spaces
//! as one. An [`InputState`] is the per-frame record of one device class:
//! which codes are held down, which went down this frame, and which came
//! up this frame. The host that polls the real devices builds these
//! snapshots and hands them in; every query here is pure.

use vstd::prelude::*;

verus! {

/// Key code for the `W` key.
pub const KEY_W: u32 = 87;

/// Key code for the `A` key.
pub const KEY_A: u32 = 65;

/// Key code for the `S` key.
pub const KEY_S: u32 = 83;

/// Key code for the `D` key.
pub const KEY_D: u32 = 68;

/// Key code for the escape key.
pub const KEY_ESCAPE: u32 = 27;

/// Button code for the left mouse button.
pub const MOUSE_LEFT: u32 = 0;

/// Button code for the right mouse button.
pub const MOUSE_RIGHT: u32 = 1;

/// Generic abstraction over keyboard, mouse and gamepad buttons.
///
/// Equality is by device class and code, so a value of this type can act
/// as a key in the mapping registry.
#[derive(Copy, Clone, Debug, Hash, Eq, PartialEq, Structural)]
pub enum GenericButton {
    /// A keyboard key, by key code.
    KeyBoard(u32),
    /// A mouse button, by button code.
    Mouse(u32),
    /// A gamepad button, by button code.
    Gamepad(u32),
}

/// Snapshot of one device class for one frame: the codes currently held
/// down, the codes that went down this frame, and the codes released this
/// frame.
pub struct InputState {
    pressed: Vec<u32>,
    just_pressed: Vec<u32>,
    just_released: Vec<u32>,
}

impl InputState {
    /// The codes recorded as held down.
    pub closed spec fn pressed_codes(self) -> Seq<u32> {
        self.pressed@
    }

    /// The codes recorded as having gone down this frame.
    pub closed spec fn just_pressed_codes(self) -> Seq<u32> {
        self.just_pressed@
    }

    /// The codes recorded as having come up this frame.
    pub closed spec fn just_released_codes(self) -> Seq<u32> {
        self.just_released@
    }

    /// True when `code` is held down in this snapshot.
    pub open spec fn spec_pressed(self, code: u32) -> bool {
        self.pressed_codes().contains(code)
    }

    /// True when `code` went down this frame in this snapshot.
    pub open spec fn spec_just_pressed(self, code: u32) -> bool {
        self.just_pressed_codes().contains(code)
    }

    /// True when `code` came up this frame in this snapshot.
    pub open spec fn spec_just_released(self, code: u32) -> bool {
        self.just_released_codes().contains(code)
    }

    /// Build a snapshot from the three code lists.
    pub fn new(pressed: Vec<u32>, just_pressed: Vec<u32>, just_released: Vec<u32>) -> (r: Self)
        ensures
            r.pressed_codes() == pressed@,
            r.just_pressed_codes() == just_pressed@,
            r.just_released_codes() == just_released@,
    {
        InputState { pressed, just_pressed, just_released }
    }

    /// Check if `code` is currently held down.
    pub fn pressed(&self, code: u32) -> (r: bool)
        ensures
            r == self.spec_pressed(code),
    {
        code_list_contains(&self.pressed, code)
    }

    /// Check if `code` went down this frame.
    pub fn just_pressed(&self, code: u32) -> (r: bool)
        ensures
            r == self.spec_just_pressed(code),
    {
        code_list_contains(&self.just_pressed, code)
    }

    /// Check if `code` came up this frame.
    pub fn just_released(&self, code: u32) -> (r: bool)
        ensures
            r == self.spec_just_released(code),
    {
        code_list_contains(&self.just_released, code)
    }
}

/// Linear scan for a code in a list of codes.
fn code_list_contains(codes: &Vec<u32>, code: u32) -> (r: bool)
    ensures
        r == codes@.contains(code),
{
    let mut i: usize = 0;
    while i < codes.len()
        invariant
            i <= codes@.len(),
            forall|j: int| 0 <= j < i ==> codes@[j] != code,
        decreases codes@.len() - i,
    {
        if codes[i] == code {
            return true;
        }
        i += 1;
    }
    false
}

impl GenericButton {
    /// True when this button counts as held down against the snapshots,
    /// reading only the snapshot of its own device class; a missing
    /// snapshot reads as nothing down.
    pub open spec fn spec_pressed(
        self,
        key_codes: Option<&InputState>,
        mouse_buttons: Option<&InputState>,
        gamepad_buttons: Option<&InputState>,
    ) -> bool {
        match self {
            GenericButton::KeyBoard(c) => match key_codes {
                Some(s) => s.spec_pressed(c),
                None => false,
            },
            GenericButton::Mouse(c) => match mouse_buttons {
                Some(s) => s.spec_pressed(c),
                None => false,
            },
            GenericButton::Gamepad(c) => match gamepad_buttons {
                Some(s) => s.spec_pressed(c),
                None => false,
            },
        }
    }

    /// As [`GenericButton::spec_pressed`], for the edge-triggered
    /// just-pressed record.
    pub open spec fn spec_just_pressed(
        self,
        key_codes: Option<&InputState>,
        mouse_buttons: Option<&InputState>,
        gamepad_buttons: Option<&InputState>,
    ) -> bool {
        match self {
            GenericButton::KeyBoard(c) => match key_codes {
                Some(s) => s.spec_just_pressed(c),
                None => false,
            },
            GenericButton::Mouse(c) => match mouse_buttons {
                Some(s) => s.spec_just_pressed(c),
                None => false,
            },
            GenericButton::Gamepad(c) => match gamepad_buttons {
                Some(s) => s.spec_just_pressed(c),
                None => false,
            },
        }
    }

    /// As [`GenericButton::spec_pressed`], for the edge-triggered
    /// just-released record.
    pub open spec fn spec_just_released(
        self,
        key_codes: Option<&InputState>,
        mouse_buttons: Option<&InputState>,
        gamepad_buttons: Option<&InputState>,
    ) -> bool {
        match self {
            GenericButton::KeyBoard(c) => match key_codes {
                Some(s) => s.spec_just_released(c),
                None => false,
            },
            GenericButton::Mouse(c) => match mouse_buttons {
                Some(s) => s.spec_just_released(c),
                None => false,
            },
            GenericButton::Gamepad(c) => match gamepad_buttons {
                Some(s) => s.spec_just_released(c),
                None => false,
            },
        }
    }

    /// Check if the generic button is currently pressed.
    /// If the snapshot of the button's device class is omitted the answer
    /// is false.
    pub fn pressed(
        &self,
        key_codes: Option<&InputState>,
        mouse_buttons: Option<&InputState>,
        gamepad_buttons: Option<&InputState>,
    ) -> (r: bool)
        ensures
            r == self.spec_pressed(key_codes, mouse_buttons, gamepad_buttons),
    {
        match self {
            GenericButton::KeyBoard(c) => match key_codes {
                Some(s) => s.pressed(*c),
                None => false,
            },
            GenericButton::Mouse(c) => match mouse_buttons {
                Some(s) => s.pressed(*c),
                None => false,
            },
            GenericButton::Gamepad(c) => match gamepad_buttons {
                Some(s) => s.pressed(*c),
                None => false,
            },
        }
    }

    /// Check if the generic button went down in this cycle.
    /// If the snapshot of the button's device class is omitted the answer
    /// is false.
    pub fn just_pressed(
        &self,
        key_codes: Option<&InputState>,
        mouse_buttons: Option<&InputState>,
        gamepad_buttons: Option<&InputState>,
    ) -> (r: bool)
        ensures
            r == self.spec_just_pressed(key_codes, mouse_buttons, gamepad_buttons),
    {
        match self {
            GenericButton::KeyBoard(c) => match key_codes {
                Some(s) => s.just_pressed(*c),
                None => false,
            },
            GenericButton::Mouse(c) => match mouse_buttons {
                Some(s) => s.just_pressed(*c),
                None => false,
            },
            GenericButton::Gamepad(c) => match gamepad_buttons {
                Some(s) => s.just_pressed(*c),
                None => false,
            },
        }
    }

    /// Check if the generic button was released in this cycle.
    /// If the snapshot of the button's device class is omitted the answer
    /// is false.
    pub fn just_released(
        &self,
        key_codes: Option<&InputState>,
        mouse_buttons: Option<&InputState>,
        gamepad_buttons: Option<&InputState>,
    ) -> (r: bool)
        ensures
            r == self.spec_just_released(key_codes, mouse_buttons, gamepad_buttons),
    {
        match self {
            GenericButton::KeyBoard(c) => match key_codes {
                Some(s) => s.just_released(*c),
                None => false,
            },
            GenericButton::Mouse(c) => match mouse_buttons {
                Some(s) => s.just_released(*c),
                None => false,
            },
            GenericButton::Gamepad(c) => match gamepad_buttons {
                Some(s) => s.just_released(*c),
                None => false,
            },
        }
    }
}

/// A button whose device snapshot was not supplied never reads as
/// pressed, just pressed or just released, whatever its code.
pub proof fn lemma_missing_snapshot_reads_false(
    b: GenericButton,
    key_codes: Option<&InputState>,
    mouse_buttons: Option<&InputState>,
    gamepad_buttons: Option<&InputState>,
)
    ensures
        b is KeyBoard && key_codes is None ==> {
            &&& !b.spec_pressed(key_codes, mouse_buttons, gamepad_buttons)
            &&& !b.spec_just_pressed(key_codes, mouse_buttons, gamepad_buttons)
            &&& !b.spec_just_released(key_codes, mouse_buttons, gamepad_buttons)
        },
        b is Mouse && mouse_buttons is None ==> {
            &&& !b.spec_pressed(key_codes, mouse_buttons, gamepad_buttons)
            &&& !b.spec_just_pressed(key_codes, mouse_buttons, gamepad_buttons)
            &&& !b.spec_just_released(key_codes, mouse_buttons, gamepad_buttons)
        },
        b is Gamepad && gamepad_buttons is None ==> {
            &&& !b.spec_pressed(key_codes, mouse_buttons, gamepad_buttons)
            &&& !b.spec_just_pressed(key_codes, mouse_buttons, gamepad_buttons)
            &&& !b.spec_just_released(key_codes, mouse_buttons, gamepad_buttons)
        },
{
}

} // verus!
