//! Brewing and labelling calculations that depend on nothing else in the
//! crate: the allergen vocabulary, label presets, formatting and layout, and
//! the non-numeric parts of the physics modules.

pub mod allergen;
pub mod bitterness;
pub mod duty;
pub mod gravity;
pub mod labelkit;
pub mod nutrition;
pub mod water;
