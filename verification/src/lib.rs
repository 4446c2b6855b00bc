//! MagniDraw: the verified core of a small 2D game and UI library.
//!
//! Rendering, windowing and device input live around this crate; here stand
//! the parts of the library that decide things: element identifiers, the
//! element tree search, controller button state across frames, draw-command
//! batching and the state machines of the UI widgets.
mod batch;
mod input;
mod sprite;
pub mod ui;

pub use batch::{BatchKey, Batches};
pub use input::{
    AnyAxis, AxisDirection, ButtonStates, Controller, ControllerAxis, ControllerButton, PadButton,
    PadSnapshot, POLLED_AXIS_COUNT, POLLED_BUTTON_COUNT, polled_axis, polled_button,
};
pub use sprite::{SpriteError, SpriteImage, texture_copy_layout};
