//! The screen: the bytes of one full redraw.
//!
//! A frame hides the cursor, moves it to the origin, draws every row, moves
//! the cursor back to the origin and shows it again. A row is a filler glyph,
//! or on one row near the top third of the screen the centred title, followed
//! by a clear to the end of the line. Rows are joined by carriage return and
//! line feed; none follows the last row.

use vstd::prelude::*;
use crate::geometry::ScreenSize;

verus! {

/// `~`, the glyph at the start of a row that shows no text.
pub const FILLER: u8 = 0x7e;

/// A blank.
pub const SPACE: u8 = 0x20;

/// `ESC [ ? 2 5 l`: hides the cursor.
pub const HIDE_CURSOR: [u8; 6] = [0x1b, 0x5b, 0x3f, 0x32, 0x35, 0x6c];

/// `ESC [ ? 2 5 h`: shows the cursor.
pub const SHOW_CURSOR: [u8; 6] = [0x1b, 0x5b, 0x3f, 0x32, 0x35, 0x68];

/// `ESC [ H`: moves the cursor to row 1, column 1.
pub const CURSOR_HOME: [u8; 3] = [0x1b, 0x5b, 0x48];

/// `ESC [ K`: clears from the cursor to the end of the line.
pub const CLEAR_LINE: [u8; 3] = [0x1b, 0x5b, 0x4b];

/// Carriage return and line feed.
pub const NEW_LINE: [u8; 2] = [0x0d, 0x0a];

/// `Spaghetti editor -- verison `, the title up to the version number.
pub const TITLE_PREFIX: [u8; 28] = [
    0x53, 0x70, 0x61, 0x67, 0x68, 0x65, 0x74, 0x74, 0x69, 0x20, 0x65, 0x64, 0x69, 0x74, 0x6f, 0x72,
    0x20, 0x2d, 0x2d, 0x20, 0x76, 0x65, 0x72, 0x69, 0x73, 0x6f, 0x6e, 0x20,
];

/// `0.0.1`, the version number.
pub const VERSION: [u8; 5] = [0x30, 0x2e, 0x30, 0x2e, 0x31];

/// The number of bytes of the title.
pub const TITLE_LENGTH: u16 = 33;

/// The title: its prefix and the version number.
pub open spec fn title() -> Seq<u8> {
    TITLE_PREFIX@ + VERSION@
}

/// The row that shows the title on a screen of `rows` rows.
pub open spec fn title_row_index(rows: u16) -> int {
    rows as int / 3
}

/// What stands in front of the title to centre it: half of the columns that
/// the title leaves free, rounded down; nothing where it leaves none.
pub open spec fn title_padding(columns: u16) -> int {
    if columns > TITLE_LENGTH {
        (columns - TITLE_LENGTH) / 2
    } else {
        0
    }
}

/// The text of the title row: the padding, which starts with the filler glyph
/// and goes on with blanks, then the title, whole even where the row is too
/// narrow for it.
pub open spec fn title_text(columns: u16) -> Seq<u8> {
    let padding = title_padding(columns);
    if padding > 0 {
        seq![FILLER] + Seq::new((padding - 1) as nat, |i: int| SPACE) + title()
    } else {
        title()
    }
}

/// The text of row `y`.
pub open spec fn row_text(size: ScreenSize, titled: bool, y: int) -> Seq<u8> {
    if titled && y == title_row_index(size.rows) {
        title_text(size.columns)
    } else {
        seq![FILLER]
    }
}

/// The bytes of row `y`: its text, the clear to the end of the line and, on
/// every row but the last, the line break.
pub open spec fn drawn_row(size: ScreenSize, titled: bool, y: int) -> Seq<u8> {
    row_text(size, titled, y) + CLEAR_LINE@ + if y < size.rows - 1 {
        NEW_LINE@
    } else {
        Seq::empty()
    }
}

/// The bytes of the first `count` rows, top row first.
pub open spec fn drawn_rows(size: ScreenSize, titled: bool, count: int) -> Seq<u8>
    decreases count,
{
    if count <= 0 {
        Seq::empty()
    } else {
        drawn_rows(size, titled, count - 1) + drawn_row(size, titled, count - 1)
    }
}

/// The bytes of a full redraw of a screen of the given size, with or without
/// the title row.
pub open spec fn frame(size: ScreenSize, titled: bool) -> Seq<u8> {
    HIDE_CURSOR@ + CURSOR_HOME@ + drawn_rows(size, titled, size.rows as int) + CURSOR_HOME@
        + SHOW_CURSOR@
}

/// The title is as long as [`TITLE_LENGTH`] says.
pub proof fn lemma_title_length()
    ensures
        title().len() == TITLE_LENGTH,
{
}

/// What the first `count` rows of a screen without title are: row `y` starts
/// at byte `6 * y` with the filler glyph and the clear to the end of the
/// line, and the line break follows it unless it is the last row of the
/// screen.
pub proof fn lemma_untitled_rows(size: ScreenSize, count: int, y: int)
    requires
        0 <= y < count <= size.rows,
    ensures
        ({
            let drawn = drawn_rows(size, false, count);
            &&& drawn.len() == if count < size.rows {
                6 * count
            } else {
                6 * count - 2
            }
            &&& drawn.subrange(6 * y, 6 * y + 4) == seq![FILLER] + CLEAR_LINE@
            &&& y < size.rows - 1 ==> drawn.subrange(6 * y + 4, 6 * y + 6) == NEW_LINE@
        }),
    decreases count,
{
    let drawn = drawn_rows(size, false, count);
    let before = drawn_rows(size, false, count - 1);
    let last = drawn_row(size, false, count - 1);
    assert(drawn == before + last);
    if count > 1 {
        lemma_untitled_rows(size, count - 1, 0);
    }
    assert(before.len() == 6 * (count - 1));
    if y < count - 1 {
        lemma_untitled_rows(size, count - 1, y);
        assert(drawn.subrange(6 * y, 6 * y + 4) =~= before.subrange(6 * y, 6 * y + 4));
        assert(drawn.subrange(6 * y + 4, 6 * y + 6) =~= before.subrange(6 * y + 4, 6 * y + 6));
    } else {
        assert(drawn.subrange(6 * y, 6 * y + 4) =~= seq![FILLER] + CLEAR_LINE@);
        if y < size.rows - 1 {
            assert(drawn.subrange(6 * y + 4, 6 * y + 6) =~= NEW_LINE@);
        }
    }
}

/// Appends the text of the title row to `buffer`.
fn draw_title(columns: u16, buffer: &mut Vec<u8>)
    ensures
        final(buffer)@ == old(buffer)@ + title_text(columns),
{
    let ghost before = buffer@;
    let mut padding: u16 = if columns > TITLE_LENGTH {
        (columns - TITLE_LENGTH) / 2
    } else {
        0
    };
    let ghost blanks: int = 0;
    if padding > 0 {
        buffer.push(FILLER);
        padding = padding - 1;
        while padding > 0
            invariant
                0 <= blanks,
                blanks + padding == title_padding(columns) - 1,
                buffer@ == before + seq![FILLER] + Seq::new(blanks as nat, |i: int| SPACE),
            decreases padding,
        {
            padding = padding - 1;
            buffer.push(SPACE);
            proof {
                assert(Seq::new(blanks as nat, |i: int| SPACE).push(SPACE) =~= Seq::new(
                    (blanks + 1) as nat,
                    |i: int| SPACE,
                ));
                blanks = blanks + 1;
            }
        }
    }
    let ghost padded = buffer@;
    buffer.extend_from_slice(&TITLE_PREFIX);
    buffer.extend_from_slice(&VERSION);
    assert(buffer@ =~= padded + title());
    assert(buffer@ =~= before + title_text(columns));
}

/// Appends every row of the screen to `buffer`, top row first.
pub fn draw_rows(size: ScreenSize, titled: bool, buffer: &mut Vec<u8>)
    ensures
        final(buffer)@ == old(buffer)@ + drawn_rows(size, titled, size.rows as int),
{
    let ghost before = buffer@;
    let mut y: u16 = 0;
    assert(buffer@ =~= before + drawn_rows(size, titled, 0));
    while y < size.rows
        invariant
            y <= size.rows,
            buffer@ == before + drawn_rows(size, titled, y as int),
        decreases size.rows - y,
    {
        let ghost drawn = buffer@;
        if titled && y == size.rows / 3 {
            draw_title(size.columns, buffer);
        } else {
            buffer.push(FILLER);
        }
        buffer.extend_from_slice(&CLEAR_LINE);
        if y < size.rows - 1 {
            buffer.extend_from_slice(&NEW_LINE);
        }
        assert(buffer@ =~= drawn + drawn_row(size, titled, y as int));
        assert(buffer@ =~= before + drawn_rows(size, titled, y + 1));
        y = y + 1;
    }
}

/// The bytes of a full redraw.
pub fn render_frame(size: ScreenSize, titled: bool) -> (bytes: Vec<u8>)
    ensures
        bytes@ == frame(size, titled),
{
    let mut bytes: Vec<u8> = Vec::new();
    bytes.extend_from_slice(&HIDE_CURSOR);
    bytes.extend_from_slice(&CURSOR_HOME);
    let ghost opened = bytes@;
    assert(opened =~= HIDE_CURSOR@ + CURSOR_HOME@);
    draw_rows(size, titled, &mut bytes);
    let ghost drawn = bytes@;
    bytes.extend_from_slice(&CURSOR_HOME);
    bytes.extend_from_slice(&SHOW_CURSOR);
    assert(bytes@ =~= drawn + CURSOR_HOME@ + SHOW_CURSOR@);
    bytes
}

} // verus!
