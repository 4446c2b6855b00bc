use magnidraw::ui::{LineSelection, glyph_in_selection, line_selection};

#[test]
fn line_selection_first_middle_last_and_outside() {
    assert_eq!(line_selection(1, 1, 4, 3, 2), Some(LineSelection { start_byte: 4, end_byte: usize::MAX }));
    assert_eq!(line_selection(2, 1, 4, 3, 2), Some(LineSelection { start_byte: 0, end_byte: usize::MAX }));
    assert_eq!(line_selection(3, 1, 4, 3, 2), Some(LineSelection { start_byte: 0, end_byte: 2 }));
    assert_eq!(line_selection(0, 1, 4, 3, 2), None);
    assert_eq!(line_selection(4, 1, 4, 3, 2), None);
    assert_eq!(line_selection(5, 5, 1, 5, 3), Some(LineSelection { start_byte: 1, end_byte: 3 }));
}

#[test]
fn line_selection_rules() {
    let sel = LineSelection { start_byte: 2, end_byte: 5 };
    assert!(!sel.covers_glyph(1));
    assert!(sel.covers_glyph(2));
    assert!(sel.covers_glyph(4));
    assert!(!sel.covers_glyph(5));
    assert!(sel.covers_trailing_space(4));
    assert!(!sel.covers_trailing_space(5));
    assert!(!sel.covers_whole_line());
    assert!(LineSelection { start_byte: 0, end_byte: usize::MAX }.covers_whole_line());
}

#[test]
fn glyph_must_lie_inside_single_line_selection() {
    assert!(glyph_in_selection(2, 3, 2, 5));
    assert!(glyph_in_selection(4, 5, 2, 5));
    assert!(!glyph_in_selection(1, 2, 2, 5));
    assert!(!glyph_in_selection(4, 6, 2, 5));
}
