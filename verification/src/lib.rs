//! Input mapping and sprite-sheet geometry for a 2D game.
//!
//! The heart of the crate is a bidirectional registry between logical
//! actions and the physical buttons that trigger them, and a description
//! of how a sprite-sheet image is cut into addressable sub-rectangles,
//! either as a uniform grid or as an explicit list. Both structures carry
//! machine-checked invariants: an action is bound at most once, a button
//! is claimed by at most one action, and every grid cell lies inside the
//! sheet.

pub mod animation;
pub mod button;
pub mod editor;
pub mod error;
pub mod mapping;
pub mod sprite;
pub mod util;
