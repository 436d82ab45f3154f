//! Notes and their authors, and how one note is drawn.
use vstd::prelude::*;
use vstd::string::StringExecFns;

use crate::ui::geometry::{rect_inner, rect_new, Margin, Rect};
use crate::ui::surface::{draw_views, Borders, Draw, DrawView};
use crate::ui::text::{
    lemma_row_height_monotone, paragraph_line_count, row_height_for, row_height_of, rows_of,
    text_rows, wrapped_line_count, MAX_WRAP_WIDTH, NOTE_FRAME_ROWS,
};

pub mod feed;
pub mod page;

verus! {

/// The author of a note.
#[derive(Debug)]
pub struct User {
    /// The name that the author shows.
    pub name: String,
    /// The author's handle.
    pub username: String,
}

/// The value of a [`User`].
pub struct UserView {
    pub name: Seq<char>,
    pub username: Seq<char>,
}

impl View for User {
    type V = UserView;

    open spec fn view(&self) -> UserView {
        UserView { name: self.name@, username: self.username@ }
    }
}

impl Clone for User {
    fn clone(&self) -> (copy: User)
        ensures
            copy == *self,
    {
        User { name: self.name.clone(), username: self.username.clone() }
    }
}

/// One post of the feed.
#[derive(Debug)]
pub struct Note {
    /// Who wrote the note.
    pub author: User,
    /// The text of the note, or the placeholder of a note without text.
    pub body: String,
    /// Whether the note is drawn as the selected one.
    pub selected: bool,
}

/// The value of a [`Note`].
pub struct NoteView {
    pub author: UserView,
    pub body: Seq<char>,
    pub selected: bool,
}

impl View for Note {
    type V = NoteView;

    open spec fn view(&self) -> NoteView {
        NoteView { author: self.author@, body: self.body@, selected: self.selected }
    }
}

impl Clone for Note {
    fn clone(&self) -> (copy: Note)
        ensures
            copy == *self,
    {
        Note { author: self.author.clone(), body: self.body.clone(), selected: self.selected }
    }
}

/// The values of a list of notes, in order.
pub open spec fn note_views(notes: Seq<Note>) -> Seq<NoteView> {
    notes.map_values(|n: Note| n@)
}

/// The body of a note that has no text.
pub const NO_TEXT: &'static str = "[no text]";

/// What stands between the name and the handle in the header of a note.
pub const HANDLE_MARK: &'static str = " @";

/// The margin between the frame of a note and what is written in it.
pub open spec fn note_margin() -> Margin {
    Margin { horizontal: 1, vertical: 1 }
}

/// Whether a note can be drawn on `area`: the column inside its frame is at
/// most [`MAX_WRAP_WIDTH`] wide, and the row of its text lies within `u16`.
pub open spec fn note_fits(area: Rect) -> bool {
    let inner = area.inset(note_margin());
    inner.width <= MAX_WRAP_WIDTH && inner.y + 2 <= u16::MAX
}

impl NoteView {
    /// The line above the text: the author's name and handle.
    pub open spec fn header(self) -> Seq<char> {
        self.author.name + HANDLE_MARK@ + self.author.username
    }

    /// The sides on which the frame of the note is drawn: all four for the
    /// selected note, top and bottom for the others.
    pub open spec fn borders(self) -> Borders {
        if self.selected {
            Borders::spec_all()
        } else {
            Borders::spec_top_bottom()
        }
    }

    /// The note drawn on `area`, where its text wraps to `lines` lines: the
    /// header in the first row inside the frame, the text from the third
    /// row on, as many rows as it has lines, and the frame around both.
    pub open spec fn drawn(self, area: Rect, lines: nat) -> Seq<DrawView> {
        let inner = area.inset(note_margin());
        seq![
            DrawView::LineAt { x: inner.x, y: inner.y, text: self.header(), width: inner.width },
            DrawView::Paragraph {
                area: Rect::clamped(
                    inner.x,
                    (inner.y + 2) as u16,
                    inner.width,
                    rows_of(lines) as u16,
                ),
                text: self.body,
            },
            DrawView::Block {
                area,
                borders: self.borders(),
                title_top: None,
                title_bottom: None,
            },
        ]
    }

    /// The rows that the note takes in a list that is `width` cells wide.
    pub open spec fn row_height(self, width: u16) -> nat {
        row_height_of(wrapped_line_count(self.body, width))
    }
}

/// Where a narrower column wraps the text of a note to no fewer lines than a
/// wider one, the note takes no fewer rows in the narrower one.
pub proof fn lemma_narrower_is_no_lower(note: NoteView, narrow: u16, wide: u16)
    requires
        narrow <= wide,
        wrapped_line_count(note.body, wide) <= wrapped_line_count(note.body, narrow),
    ensures
        note.row_height(wide) <= note.row_height(narrow),
{
    lemma_row_height_monotone(
        wrapped_line_count(note.body, wide),
        wrapped_line_count(note.body, narrow),
    );
}

/// The rows of a note in a column depend on its body and the width of the
/// column alone: two notes with the same body take the same rows, whoever
/// wrote them and whether they are selected or not. Where the lines of the
/// body and the frame fit in `u16`, the rows are exactly their sum.
pub proof fn lemma_row_height_of_body_and_width(a: NoteView, b: NoteView, width: u16)
    requires
        a.body == b.body,
    ensures
        a.row_height(width) == b.row_height(width),
        wrapped_line_count(a.body, width) + NOTE_FRAME_ROWS <= u16::MAX ==> a.row_height(width)
            == wrapped_line_count(a.body, width) + NOTE_FRAME_ROWS,
{
}

impl Note {
    /// A note by `author` that is not selected. Without a text its body is
    /// the placeholder.
    pub fn new(author: User, text: Option<&str>) -> (note: Note)
        ensures
            note.author == author,
            note@.body == (match text {
                Some(text) => text@,
                None => NO_TEXT@,
            }),
            !note.selected,
    {
        let body = match text {
            Some(text) => String::from_str(text),
            None => String::from_str(NO_TEXT),
        };
        Note { author, body, selected: false }
    }

    /// The line above the text.
    pub fn header(&self) -> (line: String)
        ensures
            line@ == self@.header(),
    {
        let mut line = self.author.name.clone();
        line.append(HANDLE_MARK);
        line.append(self.author.username.as_str());
        line
    }

    /// Whether the note can be drawn on `area`.
    pub fn fits(area: Rect) -> (ok: bool)
        ensures
            ok == note_fits(area),
    {
        let inner = rect_inner(area, Margin { horizontal: 1, vertical: 1 });
        inner.width <= MAX_WRAP_WIDTH && inner.y <= u16::MAX - 2
    }

    /// The number of lines that the body takes once it is wrapped into a
    /// column of `width` cells.
    pub fn line_count(&self, width: u16) -> (lines: usize)
        requires
            width <= MAX_WRAP_WIDTH,
        ensures
            lines == wrapped_line_count(self@.body, width),
    {
        paragraph_line_count(self.body.as_str(), width)
    }

    /// The rows that the note takes in a list that is `width` cells wide:
    /// the lines of its wrapped text and the frame, or `u16::MAX` where
    /// that sum is more.
    pub fn row_height(&self, width: u16) -> (rows: u16)
        requires
            width <= MAX_WRAP_WIDTH,
        ensures
            rows == self@.row_height(width),
            wrapped_line_count(self@.body, width) + NOTE_FRAME_ROWS <= u16::MAX ==> rows
                == wrapped_line_count(self@.body, width) + NOTE_FRAME_ROWS,
    {
        row_height_for(self.line_count(width))
    }

    /// The drawing operations of the note on `area`, given the number of
    /// lines that its text wraps to inside the frame.
    pub fn render_lines(&self, area: Rect, lines: usize) -> (ops: Vec<Draw>)
        requires
            area.inset(note_margin()).y + 2 <= u16::MAX,
        ensures
            draw_views(ops@) == self@.drawn(area, lines as nat),
    {
        let inner = rect_inner(area, Margin { horizontal: 1, vertical: 1 });
        let text_area = rect_new(inner.x, inner.y + 2, inner.width, text_rows(lines));
        let borders = if self.selected {
            Borders::all()
        } else {
            Borders::top_bottom()
        };
        let mut ops: Vec<Draw> = Vec::new();
        ops.push(Draw::LineAt { x: inner.x, y: inner.y, text: self.header(), width: inner.width });
        ops.push(Draw::Paragraph { area: text_area, text: self.body.clone() });
        ops.push(Draw::Block { area, borders, title_top: None, title_bottom: None });
        assert(draw_views(ops@) =~= self@.drawn(area, lines as nat));
        ops
    }

    /// The drawing operations of the note on `area`.
    pub fn render(&self, area: Rect) -> (ops: Vec<Draw>)
        requires
            note_fits(area),
        ensures
            draw_views(ops@) == self@.drawn(
                area,
                wrapped_line_count(self@.body, area.inset(note_margin()).width),
            ),
    {
        let inner = rect_inner(area, Margin { horizontal: 1, vertical: 1 });
        let lines = self.line_count(inner.width);
        self.render_lines(area, lines)
    }
}

} // verus!
