//! Frame-by-frame raster engine for a short vertical card-game explainer
//! animation: colour blending, anti-aliased shapes, card and character
//! sprites, motion curves, backgrounds and the scene timeline, all on
//! saturating fixed-point arithmetic.

pub mod canvas;
pub mod cards;
pub mod character;
pub mod color;
pub mod effects;
pub mod fixed;
pub mod random;
pub mod scenes;
pub mod shapes;
pub mod text;
pub mod trig;
pub mod video;
