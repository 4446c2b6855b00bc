use vstd::prelude::*;

use crate::ui::CursorRequest;

verus! {

/// What a label reads of the input in one frame.
#[derive(Debug, Clone, Copy)]
pub struct LabelInput {
    /// The mouse is known and inside the label's rectangle.
    pub mouse_inside: bool,
    /// The mouse is over one of the label's laid-out lines.
    pub mouse_on_line: bool,
    /// The text under the mouse gives a cursor position.
    pub hit: bool,
    /// The left mouse button is held.
    pub left_pressed: bool,
    /// The left mouse button went down this frame.
    pub left_just_pressed: bool,
    /// A control key is held.
    pub control: bool,
    /// The C key went down this frame.
    pub c_just_pressed: bool,
}

/// What a label does with a frame of input.
#[derive(Debug, Clone, Copy, PartialEq, Eq, Structural)]
pub struct LabelStep {
    pub cursor: CursorRequest,
    /// Extend the selection to where the mouse is.
    pub select_to_hit: bool,
    /// Put the cursor where the mouse is and start a selection there.
    pub start_selection_at_hit: bool,
    /// Copy the selected text, if any, to the clipboard (after the selection
    /// changes above).
    pub copy_selection: bool,
}

/// Whether the user is selecting a label's text with the mouse.
#[derive(Debug, Clone, Copy, PartialEq, Eq, Structural)]
pub struct LabelState {
    pub selecting: bool,
}

impl LabelState {
    pub fn new() -> (s: Self)
        ensures
            !s.selecting,
    {
        LabelState { selecting: false }
    }

    /// A press on a line of text, where it gives a cursor position, starts a selection.
    pub open spec fn starts(input: LabelInput) -> bool {
        input.mouse_inside && input.mouse_on_line && input.left_just_pressed && input.hit
    }

    /// Selecting goes on while the left button is held, as long as the
    /// mouse stays inside the label.
    pub open spec fn selecting_after(self, input: LabelInput) -> bool {
        if input.mouse_inside {
            (self.selecting && input.left_pressed) || Self::starts(input)
        } else {
            self.selecting
        }
    }

    /// Handle a frame of input. Over a line of text the cursor asks for a
    /// text beam, elsewhere inside the label for the default arrow. Control-C
    /// copies the selection.
    pub fn update(&mut self, input: LabelInput) -> (step: LabelStep)
        ensures
            final(self).selecting == old(self).selecting_after(input),
            step == (LabelStep {
                cursor: if !input.mouse_inside {
                    CursorRequest::Keep
                } else if input.mouse_on_line {
                    CursorRequest::Text
                } else {
                    CursorRequest::Default
                },
                select_to_hit: input.mouse_inside && old(self).selecting && input.left_pressed && input.hit,
                start_selection_at_hit: Self::starts(input),
                copy_selection: input.control && input.c_just_pressed,
            }),
    {
        let mut step = LabelStep {
            cursor: CursorRequest::Keep,
            select_to_hit: false,
            start_selection_at_hit: false,
            copy_selection: false,
        };
        if input.mouse_inside {
            if input.mouse_on_line {
                step.cursor = CursorRequest::Text;
            }
            if self.selecting && input.left_pressed {
                if input.hit {
                    step.select_to_hit = true;
                }
            } else {
                self.selecting = false;
            }
            if input.mouse_on_line {
                if input.left_just_pressed && input.hit {
                    self.selecting = true;
                    step.start_selection_at_hit = true;
                }
            } else {
                step.cursor = CursorRequest::Default;
            }
        }
        if input.control && input.c_just_pressed {
            step.copy_selection = true;
        }
        step
    }
}

/// Letting go of the left button inside a label ends a selection.
pub proof fn lemma_release_ends_selection(s: LabelState, input: LabelInput)
    requires
        input.mouse_inside,
        !input.left_pressed,
        !input.left_just_pressed,
    ensures
        !s.selecting_after(input),
{
}

/// How a frame of input moves a label's selecting state: holding the left
/// button inside the label keeps a selection going, a press on a line of
/// text where it gives a cursor position starts one, a frame with the mouse
/// outside the label changes nothing, and without a press no selection
/// begins.
pub proof fn lemma_selecting_follows_the_left_button(s: LabelState, input: LabelInput)
    ensures
        s.selecting && input.mouse_inside && input.left_pressed ==> s.selecting_after(input),
        input.mouse_inside && input.mouse_on_line && input.hit && input.left_just_pressed
            ==> s.selecting_after(input),
        !input.mouse_inside ==> s.selecting_after(input) == s.selecting,
        !s.selecting && !input.left_just_pressed ==> !s.selecting_after(input),
        input.mouse_inside && !input.left_pressed && !input.left_just_pressed
            ==> !s.selecting_after(input),
{
}

} // verus!
