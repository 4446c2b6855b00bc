use vstd::prelude::*;

pub mod button;
pub mod ids;
pub mod label;
pub mod radio;
pub mod selection;
pub mod separator;
pub mod stack;
pub mod textinput;
pub mod toggle;
pub mod tree;

pub use button::{ButtonInput, ButtonLook, ButtonState};
pub use ids::{IdCounter, get_id};
pub use label::{LabelInput, LabelState, LabelStep};
pub use radio::{RadioInput, RadioOptionHit, RadioState};
pub use selection::{LineSelection, glyph_in_selection, line_selection};
pub use separator::{SeparatorDrag, SeparatorInput, SeparatorStep};
pub use stack::{StackItemMode, StackMode};
pub use textinput::{EditAction, TextInputInput, TextInputState, TextInputStep, shows_hint};
pub use toggle::{ToggleInput, ToggleState, ToggleStep};
pub use tree::IdTree;

verus! {

/// What an element asks of the mouse cursor's icon after handling input.
#[derive(Debug, Clone, Copy, PartialEq, Eq, Structural)]
pub enum CursorRequest {
    /// Leave the icon as it is.
    Keep,
    Default,
    Pointer,
    Text,
    EwResize,
    NsResize,
}

#[derive(Debug, Clone, Copy, PartialEq, Eq, Structural)]
pub enum Direction {
    Horizontal,
    Vertical,
}

impl Direction {
    /// Of a horizontal and a vertical measure, the one along this direction.
    pub fn along<T>(self, horizontal: T, vertical: T) -> (r: T)
        ensures
            r == (match self {
                Direction::Horizontal => horizontal,
                Direction::Vertical => vertical,
            }),
    {
        match self {
            Direction::Horizontal => horizontal,
            Direction::Vertical => vertical,
        }
    }
}

/// A Message which is passed up from an element to be processed by the game.
///
/// `O` is the type that custom messages ([`MessageContent::Other`]) carry.
pub struct Message<O> {
    /// ID of the element which sent the Message.
    pub from: u32,
    pub content: MessageContent<O>,
}

impl<O> Message<O> {
    /// A message from the element with ID `from`.
    pub fn new(from: u32, content: MessageContent<O>) -> (m: Self)
        ensures
            m.from == from,
            m.content == content,
    {
        Self { from, content }
    }
}

/// The action performed, or other message. Custom messages travel as an `O`
/// (for instance a `Box<dyn Any>`). Alternatively, you may store data in the
/// element itself, and query it later directly.
pub enum MessageContent<O> {
    /// A Button is pressed.
    ButtonPress,
    /// A Button is released.
    ButtonRelease,
    /// A Toggle is switched on.
    ToggleOn,
    /// A Toggle is switched off.
    ToggleOff,
    /// Enter was pressed on a TextInput.
    TextInputSubmit(String),
    Other(O),
}

} // verus!
