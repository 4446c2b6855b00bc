use vstd::prelude::*;

verus! {

/// The bytes of one laid-out line that a text selection covers: from
/// `start_byte` up to, not including, `end_byte` (`usize::MAX` where the
/// selection runs on past the line).
#[derive(Debug, Clone, Copy, PartialEq, Eq, Structural)]
pub struct LineSelection {
    pub start_byte: usize,
    pub end_byte: usize,
}

/// The part of line `line` that a selection from (`start_line`,
/// `start_index`) to (`end_line`, `end_index`) covers: `None` for a line
/// outside it; on the first line it starts at `start_index`, on the last it
/// ends at `end_index`, and in between it covers the whole line.
pub fn line_selection(
    line: usize,
    start_line: usize,
    start_index: usize,
    end_line: usize,
    end_index: usize,
) -> (r: Option<LineSelection>)
    ensures
        r is None <==> (line < start_line || line > end_line),
        r matches Some(sel) ==> sel == (LineSelection {
            start_byte: if line == start_line { start_index } else { 0 },
            end_byte: if line == end_line { end_index } else { usize::MAX },
        }),
{
    if line < start_line || line > end_line {
        return None;
    }
    let start_byte = if line == start_line { start_index } else { 0 };
    let end_byte = if line == end_line { end_index } else { usize::MAX };
    Some(LineSelection { start_byte, end_byte })
}

impl LineSelection {
    /// A glyph is highlighted when it starts inside the selected bytes.
    pub fn covers_glyph(&self, glyph_start: usize) -> (r: bool)
        ensures
            r == (self.start_byte <= glyph_start < self.end_byte),
    {
        self.start_byte <= glyph_start && glyph_start < self.end_byte
    }

    /// The selection runs past the line's last glyph (ending at
    /// `last_glyph_end`, or 0 on an empty line), so the highlight also covers
    /// the trailing space.
    pub fn covers_trailing_space(&self, last_glyph_end: usize) -> (r: bool)
        ensures
            r == (self.end_byte > last_glyph_end),
    {
        self.end_byte > last_glyph_end
    }

    /// The selection covers the whole line: it starts before the line and
    /// runs on past it.
    pub fn covers_whole_line(&self) -> (r: bool)
        ensures
            r == (self.start_byte == 0 && self.end_byte == usize::MAX),
    {
        self.start_byte == 0 && self.end_byte == usize::MAX
    }
}

/// Whether a glyph spanning bytes `glyph_start` to `glyph_end` lies wholly
/// inside a selection from `start_index` to `end_index` of a single line.
pub fn glyph_in_selection(glyph_start: usize, glyph_end: usize, start_index: usize, end_index: usize) -> (r: bool)
    ensures
        r == (start_index <= glyph_start && glyph_end <= end_index),
{
    !(glyph_start < start_index || glyph_end > end_index)
}

/// A line strictly between the first and the last line of a selection is
/// selected whole.
pub proof fn lemma_middle_lines_whole(line: int, start_line: int, start_index: usize, end_line: int, end_index: usize)
    requires
        start_line < line < end_line,
    ensures
        (LineSelection {
            start_byte: if line == start_line { start_index } else { 0 },
            end_byte: if line == end_line { end_index } else { usize::MAX },
        }) == (LineSelection { start_byte: 0, end_byte: usize::MAX }),
{
}

} // verus!
