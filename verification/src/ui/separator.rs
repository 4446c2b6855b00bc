use vstd::prelude::*;

use crate::ui::{CursorRequest, Direction};

verus! {

/// What a separator's drag handling reads of the input in one frame.
#[derive(Debug, Clone, Copy)]
pub struct SeparatorInput {
    /// Where the mouse is known at all.
    pub mouse_present: bool,
    /// The mouse is on the separation line.
    pub mouse_on_line: bool,
    /// The left mouse button is held.
    pub left_pressed: bool,
    /// The left mouse button went down this frame.
    pub left_just_pressed: bool,
}

/// What a separator does with a frame of input.
#[derive(Debug, Clone, Copy, PartialEq, Eq, Structural)]
pub struct SeparatorStep {
    pub cursor: CursorRequest,
    /// Whether the separation factor follows the mouse this frame.
    pub follow_mouse: bool,
}

/// Whether the separation line of a separator is being dragged.
#[derive(Debug, Clone, Copy, PartialEq, Eq, Structural)]
pub struct SeparatorDrag {
    /// The line can be dragged at all.
    pub draggable: bool,
    pub direction: Direction,
    pub dragged: bool,
}

impl SeparatorDrag {
    pub fn new(draggable: bool, direction: Direction) -> (s: Self)
        ensures
            s == (SeparatorDrag { draggable, direction, dragged: false }),
    {
        SeparatorDrag { draggable, direction, dragged: false }
    }

    /// The mouse hovers a draggable line.
    pub open spec fn hovering(self, input: SeparatorInput) -> bool {
        self.draggable && input.mouse_present && input.mouse_on_line
    }

    /// Whether the line is dragged after a frame of input: a press on a
    /// draggable line starts a drag, and releasing the left button ends it.
    pub open spec fn dragged_after(self, input: SeparatorInput) -> bool {
        input.left_pressed && (self.dragged || (self.hovering(input) && input.left_just_pressed))
    }

    /// Handle a frame of input. Over a draggable line the cursor shows a
    /// resize arrow along the separator's direction; while dragged with the
    /// left button held and the mouse known, the factor follows the mouse.
    pub fn update(&mut self, input: SeparatorInput) -> (step: SeparatorStep)
        ensures
            final(self).draggable == old(self).draggable,
            final(self).direction == old(self).direction,
            final(self).dragged == old(self).dragged_after(input),
            step.cursor == (if old(self).hovering(input) {
                match old(self).direction {
                    Direction::Horizontal => CursorRequest::EwResize,
                    Direction::Vertical => CursorRequest::NsResize,
                }
            } else {
                CursorRequest::Keep
            }),
            step.follow_mouse == (final(self).dragged && input.mouse_present),
    {
        let mut cursor = CursorRequest::Keep;
        if self.draggable && input.mouse_present && input.mouse_on_line {
            cursor = match self.direction {
                Direction::Horizontal => CursorRequest::EwResize,
                Direction::Vertical => CursorRequest::NsResize,
            };
            if input.left_just_pressed {
                self.dragged = true;
            }
        }
        if !input.left_pressed {
            self.dragged = false;
        }
        let follow_mouse = self.dragged && input.left_pressed && input.mouse_present;
        SeparatorStep { cursor, follow_mouse }
    }
}

/// A drag never outlives the left mouse button: once it is released, the
/// line is not dragged.
pub proof fn lemma_release_ends_drag(s: SeparatorDrag, input: SeparatorInput)
    requires
        !input.left_pressed,
    ensures
        !s.dragged_after(input),
{
}

/// A drag only starts with a press on the line: a separator that is not
/// dragged becomes dragged exactly when the left button goes down (and is
/// held) while the mouse is on a draggable line, and a drag that is going
/// on lasts as long as the left button is held, wherever the mouse moves.
pub proof fn lemma_drag_starts_with_press_on_line(s: SeparatorDrag, input: SeparatorInput)
    ensures
        !s.dragged && !input.left_just_pressed ==> !s.dragged_after(input),
        !s.dragged ==> (s.dragged_after(input) == (s.draggable && input.mouse_present
            && input.mouse_on_line && input.left_just_pressed && input.left_pressed)),
        s.dragged ==> s.dragged_after(input) == input.left_pressed,
{
}

/// A line that cannot be dragged never starts being dragged.
pub proof fn lemma_fixed_line_never_dragged(s: SeparatorDrag, input: SeparatorInput)
    requires
        !s.draggable,
        !s.dragged,
    ensures
        !s.dragged_after(input),
{
}

} // verus!
