//! Mapping from a linear edit-buffer offset to two-dimensional display
//! coordinates on a character display.

use vstd::prelude::*;

verus! {

/// Number of character columns on the display.
pub const COLS: u8 = 16;

/// A position on the character display: `column` counts from the left,
/// `row` from the top.
#[derive(Clone, Copy, Debug, PartialEq, Eq, Structural)]
pub struct CursorPosition {
    pub column: u8,
    pub row: u8,
}

/// The display column that a linear offset lands on.
pub open spec fn column_of(offset: int) -> int {
    offset % (COLS as int)
}

/// The display row that a linear offset lands on.
pub open spec fn row_of(offset: int) -> int {
    offset / (COLS as int)
}

/// Maps a linear edit-buffer offset to its display coordinate:
/// the row is the offset divided by the column count, the column the
/// remainder. Offsets whose row exceeds `u8::MAX` are not representable
/// and are excluded by the precondition.
pub fn calculate_cursor_positions(edit_pos: usize) -> (p: CursorPosition)
    requires
        edit_pos as int / (COLS as int) <= u8::MAX as int,
    ensures
        p.column as int == column_of(edit_pos as int),
        p.row as int == row_of(edit_pos as int),
        p.column < COLS,
{
    let y: usize = edit_pos / (COLS as usize);
    let x: usize = edit_pos % (COLS as usize);
    CursorPosition { column: x as u8, row: y as u8 }
}

/// Every offset inside the 32-character buffer maps inside the visible
/// 16-column, 2-row display area: the column is the offset modulo 16 and
/// stays below 16, the row is the offset divided by 16.
pub proof fn lemma_cursor_in_display(offset: int)
    requires
        0 <= offset < 32,
    ensures
        column_of(offset) == offset % 16,
        row_of(offset) == offset / 16,
        0 <= column_of(offset) < 16,
        0 <= row_of(offset) < 2,
{
}

} // verus!
