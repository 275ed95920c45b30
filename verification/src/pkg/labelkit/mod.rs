//! Labels, pump clips and cask lenses: size and template presets, field
//! formatting, the render model, and the layout of a rendered label.

pub mod format;
pub mod layout;
pub mod model;
pub mod presets;
