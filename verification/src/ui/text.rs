//! Text measures and the small strings that the widgets put together.
use vstd::prelude::*;
use vstd::string::StrSliceExecFns;

verus! {

/// The widest column that text is wrapped into: a quarter of `u16::MAX`.
pub const MAX_WRAP_WIDTH: u16 = 16383;

/// Rows that the frame of a note takes besides its text: a border line and a
/// row of padding, above and below.
pub const NOTE_FRAME_ROWS: u16 = 4;

/// The number of lines that `text` takes once it is wrapped on word
/// boundaries, leading space kept, into a column of `width` cells.
pub uninterp spec fn wrapped_line_count(text: Seq<char>, width: u16) -> nat;

/// Calls `ratatui::widgets::Paragraph::line_count` on a paragraph of `text`
/// that wraps without trimming: the number of lines that the paragraph needs
/// at this width. The count depends on the text and the width alone. Columns
/// wider than [`MAX_WRAP_WIDTH`] are left out: the routine sums the widths of
/// up to four stretches of text, each as wide as the column, in `u16`.
#[verifier::external_body]
pub(crate) fn paragraph_line_count(text: &str, width: u16) -> (lines: usize)
    requires
        width <= MAX_WRAP_WIDTH,
    ensures
        lines == wrapped_line_count(text@, width),
{
    ratatui::widgets::Paragraph::new(text)
        .wrap(ratatui::widgets::Wrap { trim: false })
        .line_count(width)
}

/// `String::push` appends one character.
pub assume_specification[ String::push ](s: &mut String, c: char)
    ensures
        final(s)@ == old(s)@.push(c),
;

/// `String::pop` removes the last character and returns it, or returns `None`
/// and leaves the string as it is where the string is empty.
pub assume_specification[ String::pop ](s: &mut String) -> (c: Option<char>)
    ensures
        old(s)@.len() == 0 ==> c is None && final(s)@ == old(s)@,
        old(s)@.len() > 0 ==> c == Some(old(s)@.last()) && final(s)@ == old(s)@.drop_last(),
;

/// Whether text can be wrapped into a column of `width` cells.
pub fn can_wrap(width: u16) -> (ok: bool)
    ensures
        ok == (width <= MAX_WRAP_WIDTH),
{
    width <= MAX_WRAP_WIDTH
}

/// A count of lines as a count of rows: the count itself, or `u16::MAX`
/// where there are more lines than that.
pub open spec fn rows_of(lines: nat) -> nat {
    if lines > u16::MAX {
        u16::MAX as nat
    } else {
        lines
    }
}

/// The rows that a note takes whose text wraps to `lines` lines: the lines
/// and the frame, or `u16::MAX` where that is more than a surface has rows.
pub open spec fn row_height_of(lines: nat) -> nat {
    if lines + NOTE_FRAME_ROWS > u16::MAX {
        u16::MAX as nat
    } else {
        lines + NOTE_FRAME_ROWS as nat
    }
}

/// The rows for a text of `lines` lines.
pub fn text_rows(lines: usize) -> (rows: u16)
    ensures
        rows == rows_of(lines as nat),
        lines <= u16::MAX ==> rows == lines,
{
    if lines > 0xffff {
        u16::MAX
    } else {
        lines as u16
    }
}

/// The rows for a note whose text wraps to `lines` lines.
pub fn row_height_for(lines: usize) -> (rows: u16)
    ensures
        rows == row_height_of(lines as nat),
        lines + NOTE_FRAME_ROWS <= u16::MAX ==> rows == lines + NOTE_FRAME_ROWS,
{
    let rows: u16 = text_rows(lines);
    if rows > u16::MAX - NOTE_FRAME_ROWS {
        u16::MAX
    } else {
        rows + NOTE_FRAME_ROWS
    }
}

/// A text of more lines never takes fewer rows. Where the lines and the
/// frame fit in `u16`, the rows are exactly the lines plus the frame.
pub proof fn lemma_row_height_monotone(fewer: nat, more: nat)
    requires
        fewer <= more,
    ensures
        row_height_of(fewer) <= row_height_of(more),
        more + NOTE_FRAME_ROWS <= u16::MAX ==> row_height_of(more) == more + NOTE_FRAME_ROWS,
        fewer + NOTE_FRAME_ROWS <= u16::MAX ==> row_height_of(fewer) == fewer + NOTE_FRAME_ROWS,
{
}

/// The character of a decimal digit.
pub open spec fn digit_char(d: nat) -> char {
    if d == 0 {
        '0'
    } else if d == 1 {
        '1'
    } else if d == 2 {
        '2'
    } else if d == 3 {
        '3'
    } else if d == 4 {
        '4'
    } else if d == 5 {
        '5'
    } else if d == 6 {
        '6'
    } else if d == 7 {
        '7'
    } else if d == 8 {
        '8'
    } else {
        '9'
    }
}

/// The decimal digits of `n`, most significant first, without leading zeros.
pub open spec fn decimal(n: nat) -> Seq<char>
    decreases n,
{
    if n < 10 {
        seq![digit_char(n)]
    } else {
        decimal(n / 10).push(digit_char(n % 10))
    }
}

fn digit(d: usize) -> (c: char)
    requires
        d < 10,
    ensures
        c == digit_char(d as nat),
{
    match d {
        0 => '0',
        1 => '1',
        2 => '2',
        3 => '3',
        4 => '4',
        5 => '5',
        6 => '6',
        7 => '7',
        8 => '8',
        _ => '9',
    }
}

/// Appends the decimal digits of `n` to `out`.
pub fn push_decimal(out: &mut String, n: usize)
    ensures
        final(out)@ == old(out)@ + decimal(n as nat),
    decreases n,
{
    if n < 10 {
        out.push(digit(n));
        assert(out@ =~= old(out)@ + decimal(n as nat));
    } else {
        push_decimal(out, n / 10);
        out.push(digit(n % 10));
        assert(out@ =~= old(out)@ + decimal(n as nat));
    }
}

/// `len` asterisks.
pub open spec fn masked(len: nat) -> Seq<char> {
    Seq::new(len, |i: int| '*')
}

/// One asterisk for each character of `secret`.
pub fn mask(secret: &str) -> (out: String)
    ensures
        out@ == masked(secret@.len()),
{
    let len: usize = secret.unicode_len();
    let mut out = String::new();
    let mut i: usize = 0;
    while i < len
        invariant
            i <= len,
            out@ == masked(i as nat),
        decreases len - i,
    {
        out.push('*');
        i = i + 1;
        assert(out@ =~= masked(i as nat));
    }
    out
}

} // verus!
