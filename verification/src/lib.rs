//! River: the verified core of a small image viewer.
//!
//! - `state`: the viewer's discrete state (view mode, chrome, fullscreen,
//!   dialogs, selection drag mode, flips) and the integer adjustment offsets.
//! - `input`: keyboard shortcut priorities and menu rules.
//! - `selection`: selection rectangles in image pixel space and drag modes.
//! - `raster`: the RGBA pixel buffer and the calls into the `image` crate.
//! - `adjust`: the colour adjustment pipeline, whole-image and regional.
//! - `clip`: cleaning a file path pasted as clipboard text.
//! - `window`: borderless-window resize directions and the delay-load hook.
pub mod state;
pub mod raster;
pub mod adjust;
pub mod selection;
pub mod input;
pub mod window;
pub mod clip;
