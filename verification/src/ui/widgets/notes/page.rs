//! A page of notes and the cursor that selects one of them.
use vstd::prelude::*;

use crate::ui::geometry::Rect;
use crate::ui::surface::{opt_nat, Draw, DrawView};
use crate::ui::text::{wrapped_line_count, MAX_WRAP_WIDTH, NOTE_FRAME_ROWS};
use crate::ui::widgets::notes::{lemma_narrower_is_no_lower, note_views, Note, NoteView};

verus! {

/// The value of a page: its notes and the index of the selected one.
#[verifier::ext_equal]
pub struct PageView {
    pub notes: Seq<NoteView>,
    pub selected: Option<nat>,
}

/// One move of a cursor.
pub enum Move {
    Next,
    Prev,
}

impl PageView {
    /// Whether the cursor, if it is set, points at a note of the page.
    pub open spec fn wf(self) -> bool {
        self.selected matches Some(i) ==> i < self.notes.len()
    }

    /// The page with the cursor on note `idx`.
    pub open spec fn select(self, idx: nat) -> PageView {
        PageView { selected: Some(idx), ..self }
    }

    /// The page after a step down: the cursor moves to the next note, and
    /// stays where it is on the last note or where it is not set.
    pub open spec fn next(self) -> PageView {
        match self.selected {
            Some(i) if i + 1 < self.notes.len() => self.select(i + 1),
            _ => self,
        }
    }

    /// The page after a step up: the cursor moves to the note before, and
    /// stays where it is on the first note or where it is not set.
    pub open spec fn prev(self) -> PageView {
        match self.selected {
            Some(i) if i > 0 => self.select((i - 1) as nat),
            _ => self,
        }
    }

    /// The page with the cursor on its first note; the page itself where it
    /// has no notes.
    pub open spec fn first(self) -> PageView {
        if self.notes.len() > 0 {
            self.select(0)
        } else {
            self
        }
    }

    /// The page with the cursor on its last note; the page itself where it
    /// has no notes.
    pub open spec fn last(self) -> PageView {
        if self.notes.len() > 0 {
            self.select((self.notes.len() - 1) as nat)
        } else {
            self
        }
    }

    /// The page after one move.
    pub open spec fn step(self, m: Move) -> PageView {
        match m {
            Move::Next => self.next(),
            Move::Prev => self.prev(),
        }
    }

    /// The page after a sequence of moves, first to last.
    pub open spec fn run(self, moves: Seq<Move>) -> PageView
        decreases moves.len(),
    {
        if moves.len() == 0 {
            self
        } else {
            self.run(moves.drop_last()).step(moves.last())
        }
    }

    /// The page after `n` steps down.
    pub open spec fn next_times(self, n: nat) -> PageView
        decreases n,
    {
        if n == 0 {
            self
        } else {
            self.next_times((n - 1) as nat).next()
        }
    }

    /// The page after `n` steps up.
    pub open spec fn prev_times(self, n: nat) -> PageView
        decreases n,
    {
        if n == 0 {
            self
        } else {
            self.prev_times((n - 1) as nat).prev()
        }
    }

    /// The note that the list shows at `index`: the note of the page, marked
    /// as selected where the cursor `selected_note` is on it and nowhere
    /// else, whatever mark the note of the page carries.
    pub open spec fn list_note(notes: Seq<NoteView>, selected_note: Option<nat>, index: int)
        -> NoteView {
        NoteView { selected: selected_note == Some(index as nat), ..notes[index] }
    }

    /// The rows that the list gives the note at `index` in a column of
    /// `width` cells: those of the note, whatever the cursor.
    pub open spec fn list_height(notes: Seq<NoteView>, index: int, width: u16) -> nat {
        notes[index].row_height(width)
    }

    /// The page as a list on `area`.
    pub open spec fn drawn(self, area: Rect) -> DrawView {
        DrawView::List { area, items: self.notes.len(), selected: self.selected }
    }
}

/// Whatever moves are made, the cursor of a page stays unset or on one of its
/// notes, and the notes stay as they are.
pub proof fn lemma_page_cursor_in_bounds(page: PageView, moves: Seq<Move>)
    requires
        page.wf(),
    ensures
        page.run(moves).wf(),
        page.run(moves).notes == page.notes,
        page.selected is None ==> page.run(moves).selected is None,
    decreases moves.len(),
{
    if moves.len() > 0 {
        lemma_page_cursor_in_bounds(page, moves.drop_last());
    }
}

/// On the last note, stepping down any number of times leaves the cursor
/// where it is.
pub proof fn lemma_next_saturates(page: PageView, n: nat)
    requires
        page.notes.len() > 0,
        page.selected == Some((page.notes.len() - 1) as nat),
    ensures
        page.next_times(n) == page,
    decreases n,
{
    if n > 0 {
        lemma_next_saturates(page, (n - 1) as nat);
    }
}

/// On the first note, stepping up any number of times leaves the cursor
/// where it is.
pub proof fn lemma_prev_saturates(page: PageView, n: nat)
    requires
        page.selected == Some(0nat),
    ensures
        page.prev_times(n) == page,
    decreases n,
{
    if n > 0 {
        lemma_prev_saturates(page, (n - 1) as nat);
    }
}

/// Stepping down `n` times from note `i` reaches note `i + n`, or the last
/// note where the page ends before that.
pub proof fn lemma_next_times_clamps(page: PageView, i: nat, n: nat)
    requires
        page.selected == Some(i),
        i < page.notes.len(),
    ensures
        page.next_times(n) == page.select(
            if i + n < page.notes.len() {
                i + n
            } else {
                (page.notes.len() - 1) as nat
            },
        ),
    decreases n,
{
    if n > 0 {
        lemma_next_times_clamps(page, i, (n - 1) as nat);
    }
}

/// Stepping up `n` times from note `i` reaches note `i - n`, or the first
/// note where the page begins before that.
pub proof fn lemma_prev_times_clamps(page: PageView, i: nat, n: nat)
    requires
        page.selected == Some(i),
        i < page.notes.len(),
    ensures
        page.prev_times(n) == page.select(
            if n <= i {
                (i - n) as nat
            } else {
                0
            },
        ),
    decreases n,
{
    if n > 0 {
        lemma_prev_times_clamps(page, i, (n - 1) as nat);
    }
}

/// Where the lines of a note's wrapped body and the frame fit in `u16`, the
/// list gives the note exactly that many rows.
pub proof fn lemma_list_height_is_lines_and_frame(notes: Seq<NoteView>, index: int, width: u16)
    requires
        0 <= index < notes.len(),
        wrapped_line_count(notes[index].body, width) + NOTE_FRAME_ROWS <= u16::MAX,
    ensures
        PageView::list_height(notes, index, width) == wrapped_line_count(notes[index].body, width)
            + NOTE_FRAME_ROWS,
{
}

/// Where a narrower column wraps the body of a note to no fewer lines than a
/// wider one, the list gives the note no fewer rows in the narrower one.
pub proof fn lemma_list_height_in_narrower_column(
    notes: Seq<NoteView>,
    index: int,
    narrow: u16,
    wide: u16,
)
    requires
        0 <= index < notes.len(),
        narrow <= wide,
        wrapped_line_count(notes[index].body, wide) <= wrapped_line_count(
            notes[index].body,
            narrow,
        ),
    ensures
        PageView::list_height(notes, index, wide) <= PageView::list_height(notes, index, narrow),
{
    lemma_narrower_is_no_lower(notes[index], narrow, wide);
}

/// The rows that the list gives a note depend on the body of the note and
/// the width of the column alone: two lists that hold notes with the same
/// body at an index give them the same rows at the same width.
pub proof fn lemma_list_height_of_body_and_width(
    notes: Seq<NoteView>,
    others: Seq<NoteView>,
    index: int,
    width: u16,
)
    requires
        0 <= index < notes.len(),
        index < others.len(),
        notes[index].body == others[index].body,
    ensures
        PageView::list_height(notes, index, width) == PageView::list_height(others, index, width),
{
}

/// The list widget of a page.
#[derive(Clone, Copy, Debug, PartialEq, Eq, Structural)]
pub struct NotePage {}

impl Default for NotePage {
    fn default() -> (page: NotePage)
        ensures
            page == (NotePage {}),
    {
        NotePage {}
    }
}

impl NotePage {
    /// The list widget.
    pub fn new() -> (page: NotePage)
        ensures
            page == (NotePage {}),
    {
        NotePage {}
    }

    /// The item that the list shows at `index` in a column `width` cells
    /// wide: a copy of the note, marked as selected where the cursor is on
    /// it and nowhere else, and the rows that it takes. The rows depend on
    /// the body of the note and the width alone.
    pub fn list_item(
        &self,
        notes: &Vec<Note>,
        width: u16,
        selected_note: Option<usize>,
        index: usize,
    ) -> (item: (Note, u16))
        requires
            index < notes@.len(),
            width <= MAX_WRAP_WIDTH,
        ensures
            item.0@ == PageView::list_note(note_views(notes@), opt_nat(selected_note), index as int),
            item.1 == PageView::list_height(note_views(notes@), index as int, width),
            wrapped_line_count(notes@[index as int]@.body, width) + NOTE_FRAME_ROWS <= u16::MAX
                ==> item.1 == wrapped_line_count(notes@[index as int]@.body, width)
                + NOTE_FRAME_ROWS,
    {
        let mut note = notes[index].clone();
        note.selected = match selected_note {
            Some(selected_note) => selected_note == index,
            None => false,
        };
        let note_height = note.row_height(width);
        (note, note_height)
    }

    /// The drawing operation of the page as a list on `area`.
    pub fn render(&self, area: Rect, state: &NotePageState) -> (op: Draw)
        ensures
            op@ == state@.drawn(area),
    {
        Draw::List { area, items: state.len(), selected: state.selected() }
    }
}

/// The notes of a page and its cursor.
///
/// The cursor is either unset or the index of one of the notes; a value of
/// this type never holds anything else.
#[derive(Debug)]
pub struct NotePageState {
    /// The notes on this page.
    notes: Vec<Note>,
    /// The index of the currently selected note, if any.
    selected: Option<usize>,
}

impl View for NotePageState {
    type V = PageView;

    closed spec fn view(&self) -> PageView {
        PageView { notes: note_views(self.notes@), selected: opt_nat(self.selected) }
    }
}

impl Default for NotePageState {
    /// The page without notes.
    fn default() -> (state: NotePageState)
        ensures
            state@ == (PageView { notes: Seq::empty(), selected: None }),
    {
        let state = NotePageState { notes: Vec::new(), selected: None };
        assert(state@.notes =~= Seq::empty());
        state
    }
}

impl Clone for NotePageState {
    /// A page of copies of the notes, with the cursor where it is.
    fn clone(&self) -> (copy: NotePageState)
        ensures
            copy@ == self@,
    {
        proof {
            use_type_invariant(self);
        }
        let notes = self.notes.clone();
        assert(notes@ =~= self.notes@);
        NotePageState { notes, selected: self.selected }
    }
}

impl vstd::std_specs::convert::FromSpecImpl<&Vec<Note>> for NotePageState {
    open spec fn obeys_from_spec() -> bool {
        false
    }

    open spec fn from_spec(notes: &Vec<Note>) -> NotePageState {
        arbitrary()
    }
}

impl From<&Vec<Note>> for NotePageState {
    /// A page of copies of `notes`, none of them selected.
    fn from(notes: &Vec<Note>) -> (state: NotePageState)
        ensures
            state@ == (PageView { notes: note_views(notes@), selected: None }),
    {
        let copy = notes.clone();
        assert(copy@ =~= notes@);
        NotePageState { notes: copy, selected: None }
    }
}

impl NotePageState {
    /// What holds of every page: its cursor is unset or on one of its notes.
    #[verifier::type_invariant]
    pub open spec fn well_formed(&self) -> bool {
        self@.wf()
    }

    /// Initialises a state with some `notes`, and the first one selected.
    /// Without notes, none is selected.
    pub fn new(notes: Vec<Note>) -> (state: NotePageState)
        ensures
            state@.notes == note_views(notes@),
            state@.selected == (if notes@.len() > 0 {
                Some(0nat)
            } else {
                None
            }),
    {
        let selected = if notes.len() > 0 {
            Some(0)
        } else {
            None
        };
        NotePageState { notes, selected }
    }

    /// The notes on this page.
    pub fn notes(&self) -> (notes: &Vec<Note>)
        ensures
            note_views(notes@) == self@.notes,
            self@.wf(),
    {
        proof {
            use_type_invariant(self);
        }
        &self.notes
    }

    /// The number of notes on this page.
    pub fn len(&self) -> (len: usize)
        ensures
            len == self@.notes.len(),
            self@.wf(),
    {
        proof {
            use_type_invariant(self);
        }
        self.notes.len()
    }

    /// The index of the currently selected note, if any. It is the index of
    /// a note of this page.
    pub fn selected(&self) -> (selected: Option<usize>)
        ensures
            opt_nat(selected) == self@.selected,
            self@.wf(),
    {
        proof {
            use_type_invariant(self);
        }
        self.selected
    }

    /// Sets the selected item to a given `idx`, which the caller knows to be
    /// the index of a note of this page.
    pub fn select(&mut self, idx: usize)
        requires
            idx < old(self)@.notes.len(),
        ensures
            final(self)@ == old(self)@.select(idx as nat),
            final(self)@.wf(),
    {
        self.selected = Some(idx);
    }

    /// Selects the next note.
    /// Does nothing if at the end.
    pub fn next(&mut self)
        ensures
            final(self)@ == old(self)@.next(),
            final(self)@.wf(),
    {
        proof {
            use_type_invariant(&*self);
        }
        let len = self.notes.len();
        if let Some(idx) = self.selected {
            if idx + 1 < len {
                self.select(idx + 1);
            }
        }
    }

    /// Selects the previous note.
    /// Does nothing if at the start.
    pub fn prev(&mut self)
        ensures
            final(self)@ == old(self)@.prev(),
            final(self)@.wf(),
    {
        proof {
            use_type_invariant(&*self);
        }
        if let Some(idx) = self.selected {
            if idx == 0 {
                return;
            }
            self.select(idx - 1);
        }
    }
}

} // verus!
