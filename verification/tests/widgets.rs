use magnidraw::ui::{
    ButtonInput, ButtonLook, ButtonState, CursorRequest, Direction, EditAction, LabelInput,
    LabelState, Message, MessageContent, RadioInput, RadioOptionHit, RadioState, SeparatorDrag,
    SeparatorInput, TextInputInput, TextInputState, ToggleInput, ToggleState, shows_hint,
};

fn mouse(inside: bool, pressed: bool, just: bool) -> ButtonInput {
    ButtonInput { mouse_present: true, mouse_inside: inside, left_pressed: pressed, left_just_pressed: just }
}

#[test]
fn button_press_sends_message_and_looks_pressed() {
    let mut b = ButtonState::new();
    let m = b.update::<()>(mouse(true, true, true));
    assert!(matches!(m, Some(MessageContent::ButtonPress)));
    assert!(b.is_pressed && !b.is_hovered);
    assert_eq!(b.look(), ButtonLook::Pressed);
}

#[test]
fn button_hover_without_press() {
    let mut b = ButtonState::new();
    let m = b.update::<()>(mouse(true, false, false));
    assert!(m.is_none());
    assert_eq!(b.look(), ButtonLook::Hovered);
    let m = b.update::<()>(mouse(false, false, false));
    assert!(m.is_none());
    assert_eq!(b.look(), ButtonLook::Normal);
}

#[test]
fn button_without_mouse_keeps_state() {
    let mut b = ButtonState { is_hovered: true, is_pressed: false };
    let m = b.update::<()>(ButtonInput {
        mouse_present: false,
        mouse_inside: true,
        left_pressed: true,
        left_just_pressed: true,
    });
    assert!(m.is_none());
    assert_eq!(b, ButtonState { is_hovered: true, is_pressed: false });
}

#[test]
fn toggle_click_switches_and_reports_state() {
    let mut t = ToggleState::new(true);
    let click = ToggleInput { mouse_inside: true, mouse_on_sprite: true, left_just_pressed: true };
    let step = t.update::<()>(click);
    assert!(!t.on);
    assert!(matches!(step.message, Some(MessageContent::ToggleOff)));
    assert_eq!(step.cursor, CursorRequest::Pointer);
    let step = t.update::<()>(click);
    assert!(t.on);
    assert!(matches!(step.message, Some(MessageContent::ToggleOn)));
}

#[test]
fn toggle_hover_and_outside() {
    let mut t = ToggleState::new(false);
    let step = t.update::<()>(ToggleInput { mouse_inside: true, mouse_on_sprite: false, left_just_pressed: true });
    assert!(!t.on);
    assert!(step.message.is_none());
    assert_eq!(step.cursor, CursorRequest::Default);
    let step = t.update::<()>(ToggleInput { mouse_inside: false, mouse_on_sprite: true, left_just_pressed: true });
    assert!(!t.on);
    assert_eq!(step.cursor, CursorRequest::Keep);
}

fn hit(on: bool, off: bool) -> RadioOptionHit {
    RadioOptionHit { with_on_sprite: on, with_off_sprite: off }
}

#[test]
fn radio_click_selects_option() {
    let mut r = RadioState::new(0);
    let input = RadioInput { mouse_inside: true, options: vec![hit(false, false), hit(true, true)], left_just_pressed: true };
    assert_eq!(r.update(&input), CursorRequest::Pointer);
    assert_eq!(r.selected, 1);
}

#[test]
fn radio_hover_does_not_select() {
    let mut r = RadioState::new(0);
    let input = RadioInput { mouse_inside: true, options: vec![hit(false, false), hit(true, true)], left_just_pressed: false };
    assert_eq!(r.update(&input), CursorRequest::Pointer);
    assert_eq!(r.selected, 0);
    let miss = RadioInput { mouse_inside: true, options: vec![hit(false, false), hit(false, false)], left_just_pressed: true };
    assert_eq!(r.update(&miss), CursorRequest::Default);
    assert_eq!(r.selected, 0);
    let outside = RadioInput { mouse_inside: false, options: vec![hit(true, true), hit(true, true)], left_just_pressed: true };
    assert_eq!(r.update(&outside), CursorRequest::Keep);
    assert_eq!(r.selected, 0);
}

#[test]
fn radio_layout_follows_the_selection_as_it_changes() {
    // Option 0 is hit with either sprite; option 1 only when laid out with
    // the "on" sprite. Once option 0 is selected, option 1 is "off".
    let mut r = RadioState::new(1);
    let input = RadioInput { mouse_inside: true, options: vec![hit(true, true), hit(true, false)], left_just_pressed: true };
    r.update(&input);
    assert_eq!(r.selected, 0);
}

fn sep(on_line: bool, pressed: bool, just: bool) -> SeparatorInput {
    SeparatorInput { mouse_present: true, mouse_on_line: on_line, left_pressed: pressed, left_just_pressed: just }
}

#[test]
fn separator_drag_lifecycle() {
    let mut s = SeparatorDrag::new(true, Direction::Horizontal);
    let step = s.update(sep(true, true, true));
    assert!(s.dragged);
    assert_eq!(step.cursor, CursorRequest::EwResize);
    assert!(step.follow_mouse);
    let step = s.update(sep(false, true, false));
    assert!(s.dragged);
    assert_eq!(step.cursor, CursorRequest::Keep);
    assert!(step.follow_mouse);
    let step = s.update(sep(false, false, false));
    assert!(!s.dragged);
    assert!(!step.follow_mouse);
}

#[test]
fn fixed_separator_never_drags() {
    let mut s = SeparatorDrag::new(false, Direction::Vertical);
    let step = s.update(sep(true, true, true));
    assert!(!s.dragged);
    assert_eq!(step.cursor, CursorRequest::Keep);
}

#[test]
fn vertical_separator_cursor() {
    let mut s = SeparatorDrag::new(true, Direction::Vertical);
    assert_eq!(s.update(sep(true, false, false)).cursor, CursorRequest::NsResize);
}

fn text_input() -> TextInputInput {
    TextInputInput {
        mouse_inside: false,
        mouse_in_text_area: false,
        hit: false,
        left_pressed: false,
        left_just_pressed: false,
        typed: false,
        control: false,
        left_arrow: false,
        right_arrow: false,
        backspace: false,
        enter_just_pressed: false,
    }
}

#[test]
fn text_input_click_places_cursor() {
    let mut t = TextInputState::new();
    let step = t.update(TextInputInput {
        mouse_inside: true,
        mouse_in_text_area: true,
        hit: true,
        left_pressed: true,
        left_just_pressed: true,
        ..text_input()
    });
    assert_eq!(step.cursor, CursorRequest::Text);
    assert_eq!(step.actions, vec![EditAction::PlaceCursorAtHit, EditAction::SelectToHit]);
    assert!(t.selecting && t.highlighted);
}

#[test]
fn text_input_typing_reloads_and_enter_submits() {
    let mut t = TextInputState::new();
    let step = t.update(TextInputInput { typed: true, backspace: true, enter_just_pressed: true, ..text_input() });
    assert_eq!(step.cursor, CursorRequest::Keep);
    assert_eq!(
        step.actions,
        vec![
            EditAction::InsertTyped,
            EditAction::Backspace,
            EditAction::ReloadText,
            EditAction::ClearSelection,
            EditAction::Submit,
        ]
    );
}

#[test]
fn text_input_arrows_hide_selection() {
    let mut t = TextInputState { selecting: false, highlighted: true };
    let step = t.update(TextInputInput { left_arrow: true, control: true, ..text_input() });
    assert_eq!(step.actions, vec![EditAction::MoveLeftWord, EditAction::ClearSelection]);
    assert!(!t.highlighted);
    let mut t = TextInputState { selecting: false, highlighted: true };
    let step = t.update(text_input());
    assert!(step.actions.is_empty());
    assert!(t.highlighted);
    let step = t.update(TextInputInput { right_arrow: true, ..text_input() });
    assert_eq!(step.actions, vec![EditAction::MoveRight, EditAction::ClearSelection]);
}

#[test]
fn text_input_release_inside_stops_selecting() {
    let mut t = TextInputState { selecting: true, highlighted: true };
    let step = t.update(TextInputInput { mouse_inside: true, mouse_in_text_area: false, hit: true, ..text_input() });
    assert!(!t.selecting);
    assert_eq!(step.cursor, CursorRequest::Default);
    assert!(step.actions.is_empty());
}

#[test]
fn hint_only_for_empty_text() {
    assert!(shows_hint(true, true));
    assert!(!shows_hint(false, true));
    assert!(!shows_hint(true, false));
}

fn label_input() -> LabelInput {
    LabelInput {
        mouse_inside: true,
        mouse_on_line: true,
        hit: true,
        left_pressed: false,
        left_just_pressed: false,
        control: false,
        c_just_pressed: false,
    }
}

#[test]
fn label_selection_and_copy() {
    let mut l = LabelState::new();
    let step = l.update(LabelInput { left_pressed: true, left_just_pressed: true, ..label_input() });
    assert!(l.selecting);
    assert!(step.start_selection_at_hit && !step.select_to_hit);
    assert_eq!(step.cursor, CursorRequest::Text);
    let step = l.update(LabelInput { left_pressed: true, ..label_input() });
    assert!(step.select_to_hit);
    let step = l.update(LabelInput { control: true, c_just_pressed: true, ..label_input() });
    assert!(!l.selecting);
    assert!(step.copy_selection);
}

#[test]
fn label_cursor_off_text() {
    let mut l = LabelState::new();
    let step = l.update(LabelInput { mouse_on_line: false, ..label_input() });
    assert_eq!(step.cursor, CursorRequest::Default);
    let step = l.update(LabelInput { mouse_inside: false, ..label_input() });
    assert_eq!(step.cursor, CursorRequest::Keep);
}

#[test]
fn message_carries_sender_and_content() {
    let m: Message<u8> = Message::new(7, MessageContent::TextInputSubmit("hi".to_string()));
    assert_eq!(m.from, 7);
    assert!(matches!(m.content, MessageContent::TextInputSubmit(ref s) if s == "hi"));
    let custom: Message<u8> = Message::new(1, MessageContent::Other(42));
    assert!(matches!(custom.content, MessageContent::Other(42)));
}

#[test]
fn direction_picks_the_measure_along_it() {
    assert_eq!(Direction::Horizontal.along(3.5f32, 7.0), 3.5);
    assert_eq!(Direction::Vertical.along(3.5f32, 7.0), 7.0);
}

#[test]
fn radio_selection_stays_among_the_options() {
    let mut r = RadioState::new(2);
    let input = RadioInput {
        mouse_inside: true,
        options: vec![hit(true, true), hit(false, true), hit(false, false)],
        left_just_pressed: true,
    };
    r.update(&input);
    assert_eq!(r.selected, 1);
    assert!(r.selected < input.options.len());
}
