//! Gameplay rules of a 2D asteroid-field shooter, stated and proved with Verus.
//!
//! The library holds the discrete part of the game: which state the game is in
//! and how player input moves it, how a destroyed asteroid breaks apart, when a
//! new asteroid enters the field, how the physics hierarchy is walked to find the
//! bodies whose summed force must be refreshed, and how render layers stack.
//! The engine glue (rendering, input polling, floating-point motion) lives outside.

pub mod asteroid;
pub mod common;
pub mod hierarchy;
pub mod movement;
pub mod states;
