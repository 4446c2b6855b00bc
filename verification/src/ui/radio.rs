use vstd::prelude::*;

use crate::ui::CursorRequest;

verus! {

/// Where the mouse stands relative to one option of a radio: whether it is
/// inside the option's rectangle as laid out with the "on" sprite, and as
/// laid out with the "off" sprite.
#[derive(Debug, Clone, Copy)]
pub struct RadioOptionHit {
    pub with_on_sprite: bool,
    pub with_off_sprite: bool,
}

/// What a radio reads of the input in one frame.
pub struct RadioInput {
    /// The mouse is known and inside the radio's rectangle.
    pub mouse_inside: bool,
    /// For each option, in order, where the mouse stands relative to it.
    pub options: Vec<RadioOptionHit>,
    /// The left mouse button went down this frame.
    pub left_just_pressed: bool,
}

/// Which option of a row of radio buttons is selected; only one can be
/// selected at a time.
#[derive(Debug, Clone, Copy, PartialEq, Eq, Structural)]
pub struct RadioState {
    /// The index of the option which is selected.
    pub selected: usize,
}

/// Whether the mouse is on option `i` when the selection is `selected`: the
/// option is laid out with the "on" sprite when it is the selected one.
pub open spec fn option_hit(options: Seq<RadioOptionHit>, i: int, selected: int) -> bool {
    if i == selected {
        options[i].with_on_sprite
    } else {
        options[i].with_off_sprite
    }
}

/// The selection after looking at the options before the `n`-th, starting
/// from `selected`: a click on an option selects it, the options being
/// looked at in order.
pub open spec fn selection_after(options: Seq<RadioOptionHit>, n: int, selected: int, click: bool) -> int
    decreases n,
{
    if n <= 0 {
        selected
    } else {
        let before = selection_after(options, n - 1, selected, click);
        if click && option_hit(options, n - 1, before) {
            n - 1
        } else {
            before
        }
    }
}

/// Whether the mouse is on any of the options before the `n`-th, each laid
/// out as it is when it is looked at.
pub open spec fn any_hit_before(options: Seq<RadioOptionHit>, n: int, selected: int, click: bool) -> bool
    decreases n,
{
    if n <= 0 {
        false
    } else {
        any_hit_before(options, n - 1, selected, click) || option_hit(
            options,
            n - 1,
            selection_after(options, n - 1, selected, click),
        )
    }
}

impl RadioState {
    pub fn new(selected: usize) -> (s: Self)
        ensures
            s.selected == selected,
    {
        RadioState { selected }
    }

    /// Handle a frame of input: with the mouse inside the radio, a click on
    /// an option selects it, and the cursor is a pointer over an option and
    /// the default elsewhere; with the mouse outside, nothing changes.
    pub fn update(&mut self, input: &RadioInput) -> (cursor: CursorRequest)
        ensures
            final(self).selected == (if input.mouse_inside {
                selection_after(input.options@, input.options@.len() as int, old(self).selected as int, input.left_just_pressed)
            } else {
                old(self).selected as int
            }),
            cursor == (if !input.mouse_inside {
                CursorRequest::Keep
            } else if any_hit_before(input.options@, input.options@.len() as int, old(self).selected as int, input.left_just_pressed) {
                CursorRequest::Pointer
            } else {
                CursorRequest::Default
            }),
    {
        if !input.mouse_inside {
            return CursorRequest::Keep;
        }
        let ghost start = self.selected as int;
        let n = input.options.len();
        let mut inside = false;
        for i in 0..n
            invariant
                n == input.options@.len(),
                self.selected as int == selection_after(input.options@, i as int, start, input.left_just_pressed),
                inside == any_hit_before(input.options@, i as int, start, input.left_just_pressed),
        {
            let option = input.options[i];
            let hit = if i == self.selected {
                option.with_on_sprite
            } else {
                option.with_off_sprite
            };
            if hit {
                inside = true;
                if input.left_just_pressed {
                    self.selected = i;
                }
            }
        }
        if inside {
            CursorRequest::Pointer
        } else {
            CursorRequest::Default
        }
    }
}

/// The selection only ever moves to an option that exists: starting from a
/// selection within `n` options, it stays within them.
pub proof fn lemma_selection_in_range(options: Seq<RadioOptionHit>, n: int, selected: int, click: bool)
    requires
        0 <= n <= options.len(),
        0 <= selected < options.len(),
    ensures
        0 <= selection_after(options, n, selected, click) < options.len(),
    decreases n,
{
    if n > 0 {
        lemma_selection_in_range(options, n - 1, selected, click);
    }
}

/// The selection moves only on a click, and only to an option the mouse was
/// on, as that option was laid out when it was looked at.
pub proof fn lemma_selection_moves_to_hit_option(options: Seq<RadioOptionHit>, n: int, selected: int, click: bool)
    requires
        selection_after(options, n, selected, click) != selected,
    ensures
        click,
        0 <= selection_after(options, n, selected, click) < n,
        option_hit(
            options,
            selection_after(options, n, selected, click),
            selection_after(options, selection_after(options, n, selected, click), selected, click),
        ),
    decreases n,
{
    if n > 0 {
        let before = selection_after(options, n - 1, selected, click);
        if !(click && option_hit(options, n - 1, before)) {
            lemma_selection_moves_to_hit_option(options, n - 1, selected, click);
        }
    }
}

/// Without a click, the selection does not change.
pub proof fn lemma_no_click_keeps_selection(options: Seq<RadioOptionHit>, n: int, selected: int)
    ensures
        selection_after(options, n, selected, false) == selected,
    decreases n,
{
    if n > 0 {
        lemma_no_click_keeps_selection(options, n - 1, selected);
    }
}

} // verus!
