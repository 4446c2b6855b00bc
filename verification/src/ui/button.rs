use vstd::prelude::*;

use crate::ui::MessageContent;

verus! {

/// What a button reads of the input in one frame.
#[derive(Debug, Clone, Copy)]
pub struct ButtonInput {
    /// Where the mouse is known at all.
    pub mouse_present: bool,
    /// Where the mouse is inside the button's rectangle.
    pub mouse_inside: bool,
    /// The left mouse button is held.
    pub left_pressed: bool,
    /// The left mouse button went down this frame.
    pub left_just_pressed: bool,
}

/// How a button is drawn.
#[derive(Debug, Clone, Copy, PartialEq, Eq, Structural)]
pub enum ButtonLook {
    Normal,
    Hovered,
    Pressed,
}

/// Whether a pressable button is hovered or pressed.
#[derive(Debug, Clone, Copy, PartialEq, Eq, Structural)]
pub struct ButtonState {
    pub is_hovered: bool,
    pub is_pressed: bool,
}

impl ButtonState {
    /// Neither hovered nor pressed.
    pub fn new() -> (s: Self)
        ensures
            !s.is_hovered && !s.is_pressed,
    {
        ButtonState { is_hovered: false, is_pressed: false }
    }

    /// The state after a frame of input: with no mouse, nothing changes; with
    /// the mouse inside, the button is pressed while the left button is held
    /// and hovered otherwise; with the mouse outside, it is neither.
    pub open spec fn after(self, input: ButtonInput) -> ButtonState {
        if !input.mouse_present {
            self
        } else if input.mouse_inside {
            ButtonState { is_hovered: !input.left_pressed, is_pressed: input.left_pressed }
        } else {
            ButtonState { is_hovered: false, is_pressed: false }
        }
    }

    /// Handle a frame of input. The button sends a `ButtonPress` when the
    /// left mouse button goes down inside it.
    pub fn update<O>(&mut self, input: ButtonInput) -> (m: Option<MessageContent<O>>)
        ensures
            *final(self) == old(self).after(input),
            m is Some <==> (input.mouse_present && input.mouse_inside && input.left_just_pressed),
            m matches Some(c) ==> c is ButtonPress,
    {
        if !input.mouse_present {
            return None;
        }
        self.is_hovered = false;
        self.is_pressed = false;
        let mut out = None;
        if input.mouse_inside {
            if input.left_pressed {
                self.is_pressed = true;
            } else {
                self.is_hovered = true;
            }
            if input.left_just_pressed {
                out = Some(MessageContent::ButtonPress);
            }
        }
        out
    }

    /// Which color the button is drawn in: pressed first, then hovered.
    pub fn look(&self) -> (l: ButtonLook)
        ensures
            l == (if self.is_pressed {
                ButtonLook::Pressed
            } else if self.is_hovered {
                ButtonLook::Hovered
            } else {
                ButtonLook::Normal
            }),
    {
        if self.is_pressed {
            ButtonLook::Pressed
        } else if self.is_hovered {
            ButtonLook::Hovered
        } else {
            ButtonLook::Normal
        }
    }
}

/// A button follows the mouse: with the mouse inside it, it is pressed
/// exactly while the left button is held and hovered exactly while it is
/// not; with the mouse elsewhere it is neither; and a frame that does not
/// know the mouse leaves it as it was.
pub proof fn lemma_button_follows_mouse(s: ButtonState, input: ButtonInput)
    ensures
        input.mouse_present && input.mouse_inside ==> s.after(input).is_pressed == input.left_pressed
            && s.after(input).is_hovered == !input.left_pressed,
        input.mouse_present && !input.mouse_inside ==> !s.after(input).is_pressed
            && !s.after(input).is_hovered,
        !input.mouse_present ==> s.after(input) == s,
{
}

/// A button is never hovered and pressed at once, once it has seen the mouse.
pub proof fn lemma_button_not_hovered_and_pressed(s: ButtonState, input: ButtonInput)
    requires
        !(s.is_hovered && s.is_pressed),
    ensures
        !(s.after(input).is_hovered && s.after(input).is_pressed),
{
}

} // verus!
