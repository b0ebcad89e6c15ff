//! Animation data over the sprites of one sheet.

use vstd::prelude::*;

verus! {

/// How an animation proceeds when it reaches its last key frame.
#[derive(Copy, Clone, Debug, Default, PartialEq, Eq, Structural)]
pub enum AnimationBehaviour {
    /// Play once and stop.
    #[default]
    RunOnce,
    /// Start over from the first key frame.
    Loop,
    /// Play backwards to the first key frame.
    Reverse,
}

/// An animation: sprite indexes of one sheet, in play order, and what
/// happens at the end.
#[derive(Debug)]
pub struct Animation {
    /// The sprite indexes, in play order.
    pub key_frames: Vec<usize>,
    /// What happens after the last key frame.
    pub behaviour: AnimationBehaviour,
}

} // verus!
