use vstd::prelude::*;

use crate::ui::CursorRequest;

verus! {

/// What a text input reads of the input in one frame.
#[derive(Debug, Clone, Copy)]
pub struct TextInputInput {
    /// The mouse is known and inside the input's rectangle.
    pub mouse_inside: bool,
    /// The mouse is inside the text area (the rectangle less its margins).
    pub mouse_in_text_area: bool,
    /// The text under the mouse gives a cursor position.
    pub hit: bool,
    /// The left mouse button is held.
    pub left_pressed: bool,
    /// The left mouse button went down this frame.
    pub left_just_pressed: bool,
    /// Some text was typed this frame.
    pub typed: bool,
    /// A control key is held.
    pub control: bool,
    /// The left arrow key fired (with key repeat).
    pub left_arrow: bool,
    /// The right arrow key fired (with key repeat).
    pub right_arrow: bool,
    /// Backspace fired (with key repeat).
    pub backspace: bool,
    /// Enter went down this frame.
    pub enter_just_pressed: bool,
}

/// An edit that a text input applies to its text, in the order given.
#[derive(Debug, Clone, Copy, PartialEq, Eq, Structural)]
pub enum EditAction {
    /// Put the text cursor where the mouse is, and clear the selection.
    PlaceCursorAtHit,
    /// Select from the text cursor to where the mouse is, or clear the
    /// selection where that is the cursor itself.
    SelectToHit,
    /// Insert the typed text at the cursor.
    InsertTyped,
    MoveLeft,
    MoveLeftWord,
    MoveRight,
    MoveRightWord,
    Backspace,
    /// Take the edited text as the input's text and lay it out again.
    ReloadText,
    ClearSelection,
    /// Send the text as a `TextInputSubmit` message.
    Submit,
}

/// What a text input does with a frame of input.
pub struct TextInputStep {
    pub cursor: CursorRequest,
    pub actions: Vec<EditAction>,
}

/// Whether a text input is selecting with the mouse, and whether its
/// selection is shown.
#[derive(Debug, Clone, Copy, PartialEq, Eq, Structural)]
pub struct TextInputState {
    pub selecting: bool,
    pub highlighted: bool,
}

/// The hint is displayed when the text is empty.
pub fn shows_hint(text_is_empty: bool, has_hint: bool) -> (r: bool)
    ensures
        r == (text_is_empty && has_hint),
{
    text_is_empty && has_hint
}

/// The sequence holding `a` where `b` holds, and nothing otherwise.
pub open spec fn only_if(b: bool, a: EditAction) -> Seq<EditAction> {
    if b {
        seq![a]
    } else {
        Seq::empty()
    }
}

impl TextInputState {
    pub fn new() -> (s: Self)
        ensures
            !s.selecting && !s.highlighted,
    {
        TextInputState { selecting: false, highlighted: false }
    }

    /// A press in the text area, on the text, places the cursor.
    pub open spec fn clicks(input: TextInputInput) -> bool {
        input.mouse_inside && input.mouse_in_text_area && input.left_just_pressed && input.hit
    }

    /// Selecting goes on while the left button is held after a click, as
    /// long as the mouse stays inside the input.
    pub open spec fn selecting_after(self, input: TextInputInput) -> bool {
        if input.mouse_inside {
            (self.selecting || Self::clicks(input)) && input.left_pressed
        } else {
            self.selecting
        }
    }

    /// A click shows the selection; moving the cursor with the arrows hides it.
    pub open spec fn highlighted_after(self, input: TextInputInput) -> bool {
        (self.highlighted || Self::clicks(input)) && !input.left_arrow && !input.right_arrow
    }

    /// The edits of a frame, in order: the mouse ones, then typing, arrows,
    /// backspace, the reload of a changed text, hiding the selection, and
    /// the submission on Enter.
    pub open spec fn actions_for(self, input: TextInputInput) -> Seq<EditAction> {
        only_if(Self::clicks(input), EditAction::PlaceCursorAtHit)
        + only_if(input.mouse_inside && (self.selecting || Self::clicks(input)) && input.left_pressed && input.hit,
            EditAction::SelectToHit)
        + only_if(input.typed, EditAction::InsertTyped)
        + only_if(input.left_arrow, if input.control { EditAction::MoveLeftWord } else { EditAction::MoveLeft })
        + only_if(input.right_arrow, if input.control { EditAction::MoveRightWord } else { EditAction::MoveRight })
        + only_if(input.backspace, EditAction::Backspace)
        + only_if(input.typed || input.backspace, EditAction::ReloadText)
        + only_if(!self.highlighted_after(input), EditAction::ClearSelection)
        + only_if(input.enter_just_pressed, EditAction::Submit)
    }

    /// Handle a frame of input: the cursor asks for a text beam over the
    /// text area and the default arrow elsewhere inside the input.
    pub fn update(&mut self, input: TextInputInput) -> (step: TextInputStep)
        ensures
            final(self).selecting == old(self).selecting_after(input),
            final(self).highlighted == old(self).highlighted_after(input),
            step.actions@ == old(self).actions_for(input),
            step.cursor == (if !input.mouse_inside {
                CursorRequest::Keep
            } else if input.mouse_in_text_area {
                CursorRequest::Text
            } else {
                CursorRequest::Default
            }),
    {
        let mut actions: Vec<EditAction> = Vec::new();
        let mut cursor = CursorRequest::Keep;
        let clicks = input.mouse_inside && input.mouse_in_text_area && input.left_just_pressed && input.hit;
        if input.mouse_inside {
            cursor = if input.mouse_in_text_area {
                CursorRequest::Text
            } else {
                CursorRequest::Default
            };
            if clicks {
                self.selecting = true;
                self.highlighted = true;
            }
        }
        push_if(&mut actions, clicks, EditAction::PlaceCursorAtHit);
        let select = input.mouse_inside && self.selecting && input.left_pressed;
        push_if(&mut actions, select && input.hit, EditAction::SelectToHit);
        if input.mouse_inside && !select {
            self.selecting = false;
        }
        push_if(&mut actions, input.typed, EditAction::InsertTyped);
        push_if(
            &mut actions,
            input.left_arrow,
            if input.control { EditAction::MoveLeftWord } else { EditAction::MoveLeft },
        );
        push_if(
            &mut actions,
            input.right_arrow,
            if input.control { EditAction::MoveRightWord } else { EditAction::MoveRight },
        );
        if input.left_arrow || input.right_arrow {
            self.highlighted = false;
        }
        push_if(&mut actions, input.backspace, EditAction::Backspace);
        push_if(&mut actions, input.typed || input.backspace, EditAction::ReloadText);
        push_if(&mut actions, !self.highlighted, EditAction::ClearSelection);
        push_if(&mut actions, input.enter_just_pressed, EditAction::Submit);
        TextInputStep { cursor, actions }
    }
}

/// Append `a` to `actions` where `b` holds.
fn push_if(actions: &mut Vec<EditAction>, b: bool, a: EditAction)
    ensures
        final(actions)@ == old(actions)@ + only_if(b, a),
{
    if b {
        actions.push(a);
    }
    proof {
        assert(final(actions)@ =~= old(actions)@ + only_if(b, a));
    }
}

/// Where `only_if(b, a)` holds an action.
proof fn lemma_only_if_contains(b: bool, a: EditAction, e: EditAction)
    ensures
        only_if(b, a).contains(e) == (b && a == e),
{
    if b {
        assert(only_if(b, a)[0] == a);
    }
}

/// A text input submits exactly when Enter goes down, and last of all its
/// edits, after the text has taken in what was typed.
pub proof fn lemma_submit_on_enter(s: TextInputState, input: TextInputInput)
    ensures
        s.actions_for(input).contains(EditAction::Submit) == input.enter_just_pressed,
        input.enter_just_pressed ==> s.actions_for(input).last() == EditAction::Submit,
{
    broadcast use vstd::seq_lib::group_seq_properties;
    lemma_all_only_if_contains(s, input, EditAction::Submit);
}

/// The text is laid out again exactly when it changed: something was typed
/// or deleted.
pub proof fn lemma_reload_when_changed(s: TextInputState, input: TextInputInput)
    ensures
        s.actions_for(input).contains(EditAction::ReloadText) == (input.typed || input.backspace),
{
    lemma_all_only_if_contains(s, input, EditAction::ReloadText);
}

/// How a frame of input moves a text input's selecting state: holding the
/// left button inside the input keeps a selection going, and the selection
/// then follows the mouse wherever it is on the text; a press on the text
/// starts one while the button stays held; a frame with the mouse outside
/// the input changes nothing; and letting go inside the input ends it.
pub proof fn lemma_selecting_follows_the_left_button(s: TextInputState, input: TextInputInput)
    ensures
        s.selecting && input.mouse_inside && input.left_pressed ==> s.selecting_after(input),
        s.selecting && input.mouse_inside && input.left_pressed && input.hit
            ==> s.actions_for(input).contains(EditAction::SelectToHit),
        input.mouse_inside && input.mouse_in_text_area && input.hit && input.left_just_pressed
            && input.left_pressed ==> s.selecting_after(input),
        !input.mouse_inside ==> s.selecting_after(input) == s.selecting,
        input.mouse_inside && !input.left_pressed ==> !s.selecting_after(input),
        !s.selecting && !input.left_just_pressed ==> !s.selecting_after(input),
{
    lemma_all_only_if_contains(s, input, EditAction::SelectToHit);
}

/// A press on the text places the cursor there and shows the selection,
/// unless an arrow key moves the cursor in the same frame; an arrow key
/// always hides the selection and clears it; and a selection that is shown
/// stays shown until an arrow key fires.
pub proof fn lemma_highlight_follows_clicks_and_arrows(s: TextInputState, input: TextInputInput)
    ensures
        s.actions_for(input).contains(EditAction::PlaceCursorAtHit) == (input.mouse_inside
            && input.mouse_in_text_area && input.left_just_pressed && input.hit),
        input.mouse_inside && input.mouse_in_text_area && input.left_just_pressed && input.hit
            && !input.left_arrow && !input.right_arrow ==> s.highlighted_after(input),
        input.left_arrow || input.right_arrow ==> !s.highlighted_after(input)
            && s.actions_for(input).contains(EditAction::ClearSelection),
        s.highlighted && !input.left_arrow && !input.right_arrow ==> s.highlighted_after(input)
            && !s.actions_for(input).contains(EditAction::ClearSelection),
{
    lemma_all_only_if_contains(s, input, EditAction::PlaceCursorAtHit);
    lemma_all_only_if_contains(s, input, EditAction::ClearSelection);
}

/// An action occurs among a frame's edits exactly when one of the parts that
/// can hold it does.
proof fn lemma_all_only_if_contains(s: TextInputState, input: TextInputInput, e: EditAction)
    ensures
        s.actions_for(input).contains(e) == (
            (TextInputState::clicks(input) && e == EditAction::PlaceCursorAtHit)
            || (input.mouse_inside && (s.selecting || TextInputState::clicks(input)) && input.left_pressed && input.hit
                && e == EditAction::SelectToHit)
            || (input.typed && e == EditAction::InsertTyped)
            || (input.left_arrow && e == (if input.control { EditAction::MoveLeftWord } else { EditAction::MoveLeft }))
            || (input.right_arrow && e == (if input.control { EditAction::MoveRightWord } else { EditAction::MoveRight }))
            || (input.backspace && e == EditAction::Backspace)
            || ((input.typed || input.backspace) && e == EditAction::ReloadText)
            || (!s.highlighted_after(input) && e == EditAction::ClearSelection)
            || (input.enter_just_pressed && e == EditAction::Submit)),
{
    broadcast use vstd::seq_lib::group_seq_properties;
    lemma_only_if_contains(TextInputState::clicks(input), EditAction::PlaceCursorAtHit, e);
    lemma_only_if_contains(input.mouse_inside && (s.selecting || TextInputState::clicks(input)) && input.left_pressed && input.hit,
        EditAction::SelectToHit, e);
    lemma_only_if_contains(input.typed, EditAction::InsertTyped, e);
    lemma_only_if_contains(input.left_arrow, if input.control { EditAction::MoveLeftWord } else { EditAction::MoveLeft }, e);
    lemma_only_if_contains(input.right_arrow, if input.control { EditAction::MoveRightWord } else { EditAction::MoveRight }, e);
    lemma_only_if_contains(input.backspace, EditAction::Backspace, e);
    lemma_only_if_contains(input.typed || input.backspace, EditAction::ReloadText, e);
    lemma_only_if_contains(!s.highlighted_after(input), EditAction::ClearSelection, e);
    lemma_only_if_contains(input.enter_just_pressed, EditAction::Submit, e);
}

} // verus!
