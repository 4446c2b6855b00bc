use vstd::prelude::*;

use crate::ui::{CursorRequest, MessageContent};

verus! {

/// What a toggle reads of the input in one frame.
#[derive(Debug, Clone, Copy)]
pub struct ToggleInput {
    /// The mouse is known and inside the toggle's rectangle.
    pub mouse_inside: bool,
    /// The mouse is inside the sprite that the toggle currently shows (the
    /// "on" sprite when it is on, the "off" sprite when it is off).
    pub mouse_on_sprite: bool,
    /// The left mouse button went down this frame.
    pub left_just_pressed: bool,
}

/// What a toggle does with a frame of input.
pub struct ToggleStep<O> {
    pub cursor: CursorRequest,
    pub message: Option<MessageContent<O>>,
}

/// Whether a toggle is on.
#[derive(Debug, Clone, Copy, PartialEq, Eq, Structural)]
pub struct ToggleState {
    pub on: bool,
}

impl ToggleState {
    pub fn new(default: bool) -> (s: Self)
        ensures
            s.on == default,
    {
        ToggleState { on: default }
    }

    /// Whether a frame of input switches the toggle: a click on its sprite.
    pub open spec fn switches(input: ToggleInput) -> bool {
        input.mouse_inside && input.mouse_on_sprite && input.left_just_pressed
    }

    /// The state after a frame of input.
    pub open spec fn after(self, input: ToggleInput) -> ToggleState {
        ToggleState { on: self.on != Self::switches(input) }
    }

    /// The cursor a toggle asks for: a pointer over its sprite, the default
    /// elsewhere inside it, and no change when the mouse is outside.
    pub open spec fn cursor_for(input: ToggleInput) -> CursorRequest {
        if !input.mouse_inside {
            CursorRequest::Keep
        } else if input.mouse_on_sprite {
            CursorRequest::Pointer
        } else {
            CursorRequest::Default
        }
    }

    /// Handle a frame of input. A click on the sprite switches the toggle and
    /// sends `ToggleOn` when it is switched on, `ToggleOff` when it is
    /// switched off.
    pub fn update<O>(&mut self, input: ToggleInput) -> (step: ToggleStep<O>)
        ensures
            *final(self) == old(self).after(input),
            step.cursor == Self::cursor_for(input),
            step.message is Some <==> Self::switches(input),
            step.message matches Some(c) ==> (if final(self).on { c is ToggleOn } else { c is ToggleOff }),
    {
        if input.mouse_inside {
            if input.mouse_on_sprite {
                if input.left_just_pressed {
                    self.on = !self.on;
                    let message = if self.on {
                        MessageContent::ToggleOn
                    } else {
                        MessageContent::ToggleOff
                    };
                    return ToggleStep { cursor: CursorRequest::Pointer, message: Some(message) };
                }
                ToggleStep { cursor: CursorRequest::Pointer, message: None }
            } else {
                ToggleStep { cursor: CursorRequest::Default, message: None }
            }
        } else {
            ToggleStep { cursor: CursorRequest::Keep, message: None }
        }
    }
}

/// Only a press of the left button with the mouse on the toggle's sprite
/// switches it: every such press flips it, and a frame with no press, or
/// with the mouse off the sprite, leaves it as it is.
pub proof fn lemma_toggle_switches_on_press_on_sprite(s: ToggleState, input: ToggleInput)
    ensures
        input.mouse_inside && input.mouse_on_sprite && input.left_just_pressed ==> s.after(input).on == !s.on,
        !input.left_just_pressed ==> s.after(input) == s,
        !(input.mouse_inside && input.mouse_on_sprite) ==> s.after(input) == s,
{
}

/// Two clicks on a toggle's sprite bring it back to where it was, and a
/// frame without a click leaves it as it is.
pub proof fn lemma_toggle_two_clicks(s: ToggleState, first: ToggleInput, second: ToggleInput, idle: ToggleInput)
    requires
        ToggleState::switches(first),
        ToggleState::switches(second),
        !ToggleState::switches(idle),
    ensures
        s.after(first) != s,
        s.after(first).after(second) == s,
        s.after(idle) == s,
{
}

} // verus!
