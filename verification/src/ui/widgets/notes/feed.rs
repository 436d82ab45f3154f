//! The feed: pages of notes and the cursor that selects one page.
use vstd::prelude::*;

use crate::ui::geometry::{split_vertical, Constraint, Rect};
use crate::ui::surface::{draw_views, opt_nat, Draw, DrawView};
use crate::ui::widgets::feed_bar::{bar_drawn, FeedBar};
use crate::ui::widgets::notes::page::{Move, NotePage, NotePageState, PageView};

verus! {

/// The value of a feed: its pages and the index of the selected one.
#[verifier::ext_equal]
pub struct FeedView {
    pub pages: Seq<PageView>,
    pub selected_page: Option<nat>,
}

/// One move in a feed: of the cursor over the pages, or of the cursor of the
/// selected page.
pub enum FeedMove {
    Page(Move),
    Note(Move),
}

impl FeedView {
    /// Whether the cursor over the pages, if it is set, points at a page.
    pub open spec fn cursor_in_bounds(self) -> bool {
        self.selected_page matches Some(p) ==> p < self.pages.len()
    }

    /// Whether the cursor over the pages, if it is set, points at a page, and
    /// the cursor of every page, if it is set, at a note of that page.
    pub open spec fn wf(self) -> bool {
        &&& self.cursor_in_bounds()
        &&& forall|p: int| 0 <= p < self.pages.len() ==> (#[trigger] self.pages[p]).wf()
    }

    /// The selected page, if one is selected.
    pub open spec fn page(self) -> Option<PageView> {
        match self.selected_page {
            Some(p) if p < self.pages.len() => Some(self.pages[p as int]),
            _ => None,
        }
    }

    /// The feed with `page` in the place of the selected page; the feed itself
    /// where no page is selected.
    pub open spec fn with_page(self, page: PageView) -> FeedView {
        match self.selected_page {
            Some(p) if p < self.pages.len() => FeedView {
                pages: self.pages.update(p as int, page),
                ..self
            },
            _ => self,
        }
    }

    /// The feed with the cursor over the pages set to `idx`.
    pub open spec fn select(self, idx: Option<nat>) -> FeedView {
        FeedView { selected_page: idx, ..self }
    }

    /// The feed after a step to the next page; on the last page, or with no
    /// page selected, the feed itself.
    pub open spec fn select_next_page(self) -> FeedView {
        match self.selected_page {
            Some(p) if p + 1 < self.pages.len() => self.select(Some(p + 1)),
            _ => self,
        }
    }

    /// The feed after a step to the page before; on the first page, or with
    /// no page selected, the feed itself.
    pub open spec fn select_prev_page(self) -> FeedView {
        match self.selected_page {
            Some(p) if p > 0 => self.select(Some((p - 1) as nat)),
            _ => self,
        }
    }

    /// The feed after the selected page steps to its next note; with no page
    /// selected, the feed itself.
    pub open spec fn select_next_note(self) -> FeedView {
        match self.page() {
            Some(page) => self.with_page(page.next()),
            None => self,
        }
    }

    /// The feed after the selected page steps to the note before; with no
    /// page selected, the feed itself.
    pub open spec fn select_prev_note(self) -> FeedView {
        match self.page() {
            Some(page) => self.with_page(page.prev()),
            None => self,
        }
    }

    /// The feed after the selected page puts its cursor on its first note;
    /// with no page selected, or no note on it, the feed itself.
    pub open spec fn jump_to_first(self) -> FeedView {
        match self.page() {
            Some(page) => self.with_page(page.first()),
            None => self,
        }
    }

    /// The feed after the selected page puts its cursor on its last note;
    /// with no page selected, or no note on it, the feed itself.
    pub open spec fn jump_to_last(self) -> FeedView {
        match self.page() {
            Some(page) => self.with_page(page.last()),
            None => self,
        }
    }

    /// The feed after one move.
    pub open spec fn step(self, m: FeedMove) -> FeedView {
        match m {
            FeedMove::Page(Move::Next) => self.select_next_page(),
            FeedMove::Page(Move::Prev) => self.select_prev_page(),
            FeedMove::Note(Move::Next) => self.select_next_note(),
            FeedMove::Note(Move::Prev) => self.select_prev_note(),
        }
    }

    /// The feed after a sequence of moves, first to last.
    pub open spec fn run(self, moves: Seq<FeedMove>) -> FeedView
        decreases moves.len(),
    {
        if moves.len() == 0 {
            self
        } else {
            self.run(moves.drop_last()).step(moves.last())
        }
    }

    /// The feed drawn into the bands of its layout: the bar with
    /// `notification_count` in the first band and, where a page is selected,
    /// that page as a list in the second.
    pub open spec fn drawn(self, header: Rect, body: Rect, notification_count: nat) -> Seq<
        DrawView,
    > {
        bar_drawn(header, notification_count) + (match self.page() {
            Some(page) => seq![page.drawn(body)],
            None => Seq::empty(),
        })
    }

    /// Whether `ops` draws the feed on `area`, with no notifications: the
    /// bar into one band of the area and the selected page into another.
    /// Each band takes the columns of the area and lies within its rows.
    pub open spec fn drawn_on(self, area: Rect, ops: Seq<DrawView>) -> bool {
        exists|header: Rect, body: Rect|
            area.holds_band(header) && area.holds_band(body) && ops == #[trigger] self.drawn(
                header,
                body,
                0,
            )
    }
}

/// The bands of the feed from top to bottom: four rows for the bar, the rest
/// for the notes.
pub open spec fn feed_bands() -> Seq<Constraint> {
    seq![Constraint::Length(4), Constraint::Fill(1)]
}

/// Whatever moves are made, the cursor over the pages stays unset or on a
/// page, and the cursor of every page stays unset or on a note of that page.
/// The number of pages and the notes of each page stay as they are.
pub proof fn lemma_feed_cursors_in_bounds(feed: FeedView, moves: Seq<FeedMove>)
    requires
        feed.wf(),
    ensures
        feed.run(moves).wf(),
        feed.run(moves).pages.len() == feed.pages.len(),
        forall|p: int|
            0 <= p < feed.pages.len() ==> (#[trigger] feed.run(moves).pages[p]).notes
                == feed.pages[p].notes,
        feed.selected_page is None ==> feed.run(moves) == feed,
    decreases moves.len(),
{
    if moves.len() > 0 {
        lemma_feed_cursors_in_bounds(feed, moves.drop_last());
    }
}

/// With no page selected, a step to the next or the previous note changes
/// nothing. With page `p` selected, it changes that page alone, and as the
/// same step does on the page itself.
pub proof fn lemma_note_moves_delegate(feed: FeedView)
    requires
        feed.wf(),
    ensures
        feed.selected_page is None ==> feed.select_next_note() == feed && feed.select_prev_note()
            == feed,
        feed.selected_page matches Some(p) ==> {
            &&& feed.select_next_note() == (FeedView {
                pages: feed.pages.update(p as int, feed.pages[p as int].next()),
                ..feed
            })
            &&& feed.select_prev_note() == (FeedView {
                pages: feed.pages.update(p as int, feed.pages[p as int].prev()),
                ..feed
            })
        },
{
}

/// A generic, paginated feed of notes.
#[derive(Clone, Copy, Debug, PartialEq, Eq, Structural)]
pub struct NoteFeed {}

impl Default for NoteFeed {
    fn default() -> (feed: NoteFeed)
        ensures
            feed == (NoteFeed {}),
    {
        NoteFeed {}
    }
}

impl NoteFeed {
    /// The feed widget.
    pub fn new() -> (feed: NoteFeed)
        ensures
            feed == (NoteFeed {}),
    {
        NoteFeed {}
    }

    /// The bands that the feed splits its area into, from top to bottom.
    pub fn layout() -> (bands: Vec<Constraint>)
        ensures
            bands@ == feed_bands(),
    {
        let mut bands: Vec<Constraint> = Vec::new();
        bands.push(Constraint::Length(4));  // header.
        bands.push(Constraint::Fill(1));  // notes.
        assert(bands@ =~= feed_bands());
        bands
    }

    /// The drawing operations of the feed, the bar in `header` and the
    /// selected page in `body`.
    pub fn render_bands(&self, header: Rect, body: Rect, state: &NoteFeedState) -> (ops: Vec<Draw>)
        ensures
            draw_views(ops@) == state@.drawn(header, body, 0),
    {
        let (bar, bar_state) = FeedBar::new_with_state();
        let mut ops = bar.render(header, &bar_state);
        if let Some(page) = state.get_selected_page() {
            ops.push(page.0.render(body, &page.1));
        }
        assert(draw_views(ops@) =~= state@.drawn(header, body, 0));
        ops
    }

    /// The drawing operations of the feed on `area`. The area is split into
    /// the bands of [`NoteFeed::layout`], the bar is drawn into the first
    /// and the selected page into the second. Each band takes the columns of
    /// the area and lies within its rows.
    pub fn render(&self, area: Rect, state: &NoteFeedState) -> (ops: Vec<Draw>)
        ensures
            state@.drawn_on(area, draw_views(ops@)),
    {
        let constraints = Self::layout();
        let bands = split_vertical(area, &constraints);
        let ops = self.render_bands(bands[0], bands[1], state);
        assert(area.holds_band(bands@[0]) && area.holds_band(bands@[1]) && draw_views(ops@)
            == state@.drawn(bands@[0], bands@[1], 0));
        ops
    }
}

/// The pages of a feed and the cursor over them.
///
/// The cursor is either unset or the index of one of the pages; a value of
/// this type never holds anything else.
#[derive(Debug)]
pub struct NoteFeedState {
    pages: Vec<(NotePage, NotePageState)>,
    selected_page_idx: Option<usize>,
}

/// The values of a list of pages, in order.
pub open spec fn page_views(pages: Seq<(NotePage, NotePageState)>) -> Seq<PageView> {
    pages.map_values(|p: (NotePage, NotePageState)| p.1@)
}

impl View for NoteFeedState {
    type V = FeedView;

    closed spec fn view(&self) -> FeedView {
        FeedView { pages: page_views(self.pages@), selected_page: opt_nat(self.selected_page_idx) }
    }
}

impl Default for NoteFeedState {
    /// The feed without pages.
    fn default() -> (state: NoteFeedState)
        ensures
            state@ == (FeedView { pages: Seq::empty(), selected_page: None }),
    {
        let state = NoteFeedState { pages: Vec::new(), selected_page_idx: None };
        assert(state@.pages =~= Seq::empty());
        state
    }
}

impl NoteFeedState {
    /// What holds of every feed: its cursor is unset or on one of its pages.
    #[verifier::type_invariant]
    pub open spec fn well_formed(&self) -> bool {
        self@.cursor_in_bounds()
    }

    /// A feed of `pages` with the first one selected. Without pages, none is
    /// selected.
    pub fn new(pages: Vec<(NotePage, NotePageState)>) -> (state: NoteFeedState)
        ensures
            state@.pages == page_views(pages@),
            state@.selected_page == (if pages@.len() > 0 {
                Some(0nat)
            } else {
                None
            }),
            state@.cursor_in_bounds(),
    {
        let selected_page_idx = if pages.len() > 0 {
            Some(0)
        } else {
            None
        };
        NoteFeedState { pages, selected_page_idx }
    }

    /// The pages of the feed.
    pub fn pages(&self) -> (pages: &Vec<(NotePage, NotePageState)>)
        ensures
            page_views(pages@) == self@.pages,
    {
        &self.pages
    }

    /// The index of the currently selected page, if any. It is the index of
    /// a page of this feed.
    pub fn selected_page_idx(&self) -> (selected: Option<usize>)
        ensures
            opt_nat(selected) == self@.selected_page,
            self@.cursor_in_bounds(),
    {
        proof {
            use_type_invariant(self);
        }
        self.selected_page_idx
    }

    /// Gets a mutable reference to the currently selected page, if any.
    /// What is written through it takes the place of that page.
    pub fn get_selected_page_mut(&mut self) -> (page: Option<&mut (NotePage, NotePageState)>)
        ensures
            match page {
                Some(page) => {
                    &&& old(self)@.page() == Some(page.1@)
                    &&& final(self)@ =~= old(self)@.with_page(final(page).1@)
                },
                None => old(self)@.selected_page is None && final(self)@ == old(self)@,
            },
            old(self)@.cursor_in_bounds(),
            final(self)@.cursor_in_bounds(),
    {
        proof {
            use_type_invariant(&*self);
        }
        match self.selected_page_idx {
            Some(p) => Some(&mut self.pages[p]),
            None => None,
        }
    }

    /// Gets a reference to the currently selected page, if any.
    pub fn get_selected_page(&self) -> (page: Option<&(NotePage, NotePageState)>)
        ensures
            match page {
                Some(page) => self@.page() == Some(page.1@),
                None => self@.selected_page is None,
            },
            self@.cursor_in_bounds(),
    {
        proof {
            use_type_invariant(self);
        }
        match self.selected_page_idx {
            Some(p) => Some(&self.pages[p]),
            None => None,
        }
    }

    /// Selects page with given `idx`, which the caller knows to be unset or
    /// the index of a page of this feed.
    pub fn select(&mut self, idx: Option<usize>)
        requires
            idx matches Some(p) ==> p < old(self)@.pages.len(),
        ensures
            final(self)@ == old(self)@.select(opt_nat(idx)),
            final(self)@.cursor_in_bounds(),
    {
        self.selected_page_idx = idx;
    }

    /// Selects the next page. Does nothing on the last page.
    pub fn select_next_page(&mut self)
        ensures
            final(self)@ == old(self)@.select_next_page(),
            final(self)@.cursor_in_bounds(),
    {
        proof {
            use_type_invariant(&*self);
        }
        let len = self.pages.len();
        if let Some(current) = self.selected_page_idx {
            if current < len - 1 {
                self.selected_page_idx = Some(current + 1);
            }
        }
    }

    /// Selects the previous page. Does nothing on the first page.
    pub fn select_prev_page(&mut self)
        ensures
            final(self)@ == old(self)@.select_prev_page(),
            final(self)@.cursor_in_bounds(),
    {
        proof {
            use_type_invariant(&*self);
        }
        if let Some(current) = self.selected_page_idx {
            if current == 0 {
                return;
            }
            self.selected_page_idx = Some(current - 1);
        }
    }

    /// Selects the next note of the selected page, if a page is selected.
    pub fn select_next_note(&mut self)
        ensures
            final(self)@ == old(self)@.select_next_note(),
            final(self)@.cursor_in_bounds(),
            final(self)@.page() matches Some(page) ==> page.wf(),
    {
        if let Some(page) = self.get_selected_page_mut() {
            page.1.next();
        }
    }

    /// Selects the previous note of the selected page, if a page is selected.
    pub fn select_prev_note(&mut self)
        ensures
            final(self)@ == old(self)@.select_prev_note(),
            final(self)@.cursor_in_bounds(),
            final(self)@.page() matches Some(page) ==> page.wf(),
    {
        if let Some(page) = self.get_selected_page_mut() {
            page.1.prev();
        }
    }

    /// Selects the first note of the selected page, if a page is selected
    /// and has notes.
    pub fn jump_to_first(&mut self)
        ensures
            final(self)@ == old(self)@.jump_to_first(),
            final(self)@.cursor_in_bounds(),
            final(self)@.page() matches Some(page) ==> page.wf(),
    {
        if let Some(page) = self.get_selected_page_mut() {
            if page.1.len() > 0 {
                page.1.select(0);
            }
        }
    }

    /// Selects the last note of the selected page, if a page is selected and
    /// has notes.
    pub fn jump_to_last(&mut self)
        ensures
            final(self)@ == old(self)@.jump_to_last(),
            final(self)@.cursor_in_bounds(),
            final(self)@.page() matches Some(page) ==> page.wf(),
    {
        if let Some(page) = self.get_selected_page_mut() {
            let len = page.1.len();
            if len > 0 {
                page.1.select(len - 1);
            }
        }
    }
}

} // verus!
