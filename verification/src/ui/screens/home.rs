//! The home screen: the feed and the keys that move through it.
use vstd::prelude::*;
use vstd::string::StringExecFns;

use crate::input::KeyCode;
use crate::ui::geometry::Rect;
use crate::ui::surface::{draw_views, Draw};
use crate::ui::widgets::notes::feed::{FeedView, NoteFeed, NoteFeedState};
use crate::ui::widgets::notes::page::{NotePage, NotePageState, PageView};
use crate::ui::widgets::notes::{note_views, Note, NoteView, User, UserView};

verus! {

/// What a key press asks of the home screen.
#[derive(Clone, Copy, Debug, PartialEq, Eq, Structural)]
pub enum Message {
    /// Selects the next or previous note in the current page.
    SetNote(Direction),
    /// Goes to the next of previous page.
    SetPage(Direction),
    /// Selects the first note.
    JumpToStart,
    /// Selects the last note.
    JumpToEnd,
    /// Signals to select the last note when `g` is pressed again.
    WaitStart,
}

/// Which way a cursor moves.
#[derive(Clone, Copy, Debug, PartialEq, Eq, Structural)]
pub enum Direction {
    Next,
    Previous,
}

/// The value of a [`Home`] screen.
#[verifier::ext_equal]
pub struct HomeView {
    pub waiting_start: bool,
    pub feed: FeedView,
}

impl HomeView {
    /// The screen after a message. Every message that moves a cursor takes
    /// back a pending `g`; the jump to the last note does so where a page is
    /// selected.
    pub open spec fn message(self, message: Message) -> HomeView {
        match message {
            Message::SetNote(Direction::Next) => HomeView {
                waiting_start: false,
                feed: self.feed.select_next_note(),
            },
            Message::SetNote(Direction::Previous) => HomeView {
                waiting_start: false,
                feed: self.feed.select_prev_note(),
            },
            Message::SetPage(Direction::Next) => HomeView {
                waiting_start: false,
                feed: self.feed.select_next_page(),
            },
            Message::SetPage(Direction::Previous) => HomeView {
                waiting_start: false,
                feed: self.feed.select_prev_page(),
            },
            Message::JumpToStart => HomeView {
                waiting_start: false,
                feed: self.feed.jump_to_first(),
            },
            Message::JumpToEnd => HomeView {
                waiting_start: self.waiting_start && self.feed.page() is None,
                feed: self.feed.jump_to_last(),
            },
            Message::WaitStart => HomeView { waiting_start: true, ..self },
        }
    }

    /// The message that a key press stands for, if any. The first `g` waits
    /// for a second one, which jumps to the last note.
    pub open spec fn message_of(self, key: KeyCode) -> Option<Message> {
        match key {
            KeyCode::Char('j') => Some(Message::SetNote(Direction::Next)),
            KeyCode::Char('k') => Some(Message::SetNote(Direction::Previous)),
            KeyCode::Char('J') => Some(Message::SetPage(Direction::Next)),
            KeyCode::Char('K') => Some(Message::SetPage(Direction::Previous)),
            KeyCode::Char('G') => Some(Message::JumpToStart),
            KeyCode::Char('g') => Some(
                if self.waiting_start {
                    Message::JumpToEnd
                } else {
                    Message::WaitStart
                },
            ),
            _ => None,
        }
    }

    /// The screen after a key press: after the message that the key stands
    /// for, or as it is where the key stands for none.
    pub open spec fn handle_key(self, key: KeyCode) -> HomeView {
        match self.message_of(key) {
            Some(message) => self.message(message),
            None => self,
        }
    }

    /// The screen after a sequence of key presses, first to last.
    pub open spec fn handle_keys(self, keys: Seq<KeyCode>) -> HomeView
        decreases keys.len(),
    {
        if keys.len() == 0 {
            self
        } else {
            self.handle_keys(keys.drop_last()).handle_key(keys.last())
        }
    }
}

/// Whatever keys are pressed, the cursors of the feed stay in bounds: the one
/// over the pages unset or on a page, the one of each page unset or on a note
/// of that page.
pub proof fn lemma_keys_keep_cursors_in_bounds(home: HomeView, keys: Seq<KeyCode>)
    requires
        home.feed.wf(),
    ensures
        home.handle_keys(keys).feed.wf(),
        home.handle_keys(keys).feed.pages.len() == home.feed.pages.len(),
    decreases keys.len(),
{
    if keys.len() > 0 {
        lemma_keys_keep_cursors_in_bounds(home, keys.drop_last());
    }
}

/// Two presses of `g` in a row, the first with no `g` pending, put the cursor
/// of the selected page on its last note and leave no `g` pending. The pages
/// and the cursor over them stay as they are.
pub proof fn lemma_double_g_jumps_to_last(home: HomeView)
    requires
        !home.waiting_start,
        home.feed.page() is Some,
    ensures
        ({
            let after = home.handle_key(KeyCode::Char('g')).handle_key(KeyCode::Char('g'));
            let page = home.feed.page()->0;
            &&& !after.waiting_start
            &&& after.feed == home.feed.with_page(page.last())
            &&& page.notes.len() > 0 ==> after.feed.page()->0.selected == Some(
                (page.notes.len() - 1) as nat,
            )
        }),
{
}

/// A `g` that is followed by a key that moves a cursor does not jump: the
/// screen is then as that key alone leaves it, and no `g` is pending.
pub proof fn lemma_g_then_move_does_not_jump(home: HomeView, key: KeyCode)
    requires
        !home.waiting_start,
        key == KeyCode::Char('j') || key == KeyCode::Char('k') || key == KeyCode::Char('J') || key
            == KeyCode::Char('K') || key == KeyCode::Char('G'),
    ensures
        home.handle_key(KeyCode::Char('g')).waiting_start,
        home.handle_key(KeyCode::Char('g')).feed == home.feed,
        home.handle_key(KeyCode::Char('g')).handle_key(key) == home.handle_key(key),
        !home.handle_key(KeyCode::Char('g')).handle_key(key).waiting_start,
{
}

/// The name of the author of the placeholder notes.
pub const DUMMY_NAME: &'static str = "John Misskey";

/// The handle of the author of the placeholder notes.
pub const DUMMY_USERNAME: &'static str = "johnmisskey@misskey.io";

/// The short placeholder text.
pub const SHORT_TEXT: &'static str =
    "Lorem ipsum dolor sit amet, qui minim labore adipisicing minim sint cillum sint consectetur cupidatat.";

/// The long placeholder text.
pub const LONG_TEXT: &'static str =
    "Lorem ipsum dolor sit amet, officia excepteur ex fugiat reprehenderit enim labore culpa sint ad nisi Lorem pariatur mollit ex esse exercitation amet. Nisi anim cupidatat excepteur officia. Reprehenderit nostrud nostrud ipsum Lorem est aliquip amet voluptate voluptate dolor minim nulla est proident. Nostrud officia pariatur ut officia. Sit irure elit esse ea nulla sunt ex occaecat reprehenderit commodo officia dolor Lorem duis laboris cupidatat officia voluptate. Culpa proident adipisicing id nulla nisi laboris ex in Lorem sunt duis officia eiusmod. Aliqua reprehenderit commodo ex non excepteur duis sunt velit enim. Voluptate laboris sint cupidatat ullamco ut ea consectetur et est culpa et culpa duis.";

/// A placeholder note with the given text.
pub open spec fn dummy_note(text: Seq<char>) -> NoteView {
    NoteView {
        author: UserView { name: DUMMY_NAME@, username: DUMMY_USERNAME@ },
        body: text,
        selected: false,
    }
}

/// The first placeholder page: ten notes, the seventh and the ninth long.
pub open spec fn dummy_first_page() -> PageView {
    PageView {
        notes: seq![
            dummy_note(SHORT_TEXT@),
            dummy_note(SHORT_TEXT@),
            dummy_note(SHORT_TEXT@),
            dummy_note(SHORT_TEXT@),
            dummy_note(SHORT_TEXT@),
            dummy_note(SHORT_TEXT@),
            dummy_note(LONG_TEXT@),
            dummy_note(SHORT_TEXT@),
            dummy_note(LONG_TEXT@),
            dummy_note(SHORT_TEXT@),
        ],
        selected: Some(0),
    }
}

/// The second placeholder page: four notes, the third long.
pub open spec fn dummy_second_page() -> PageView {
    PageView {
        notes: seq![
            dummy_note(SHORT_TEXT@),
            dummy_note(SHORT_TEXT@),
            dummy_note(LONG_TEXT@),
            dummy_note(SHORT_TEXT@),
        ],
        selected: Some(0),
    }
}

/// The placeholder screen: the two placeholder pages, the first selected, and
/// no `g` pending.
pub open spec fn dummy_home() -> HomeView {
    HomeView {
        waiting_start: false,
        feed: FeedView {
            pages: seq![dummy_first_page(), dummy_second_page()],
            selected_page: Some(0),
        },
    }
}

/// The home screen.
#[derive(Debug)]
pub struct Home {
    /// Whether to jump down on the next `g` key.
    pub waiting_start: bool,
    pub feed_state: NoteFeedState,
}

impl View for Home {
    type V = HomeView;

    open spec fn view(&self) -> HomeView {
        HomeView { waiting_start: self.waiting_start, feed: self.feed_state@ }
    }
}

impl Default for Home {
    /// The screen of a feed without pages.
    fn default() -> (home: Home)
        ensures
            home@ == (HomeView {
                waiting_start: false,
                feed: FeedView { pages: Seq::empty(), selected_page: None },
            }),
    {
        Home { waiting_start: false, feed_state: NoteFeedState::default() }
    }
}

fn dummy_author() -> (author: User)
    ensures
        author@ == (UserView { name: DUMMY_NAME@, username: DUMMY_USERNAME@ }),
{
    User {
        name: String::from_str(DUMMY_NAME),
        username: String::from_str(DUMMY_USERNAME),
    }
}

fn short_note(author: &User) -> (note: Note)
    ensures
        note@ == (NoteView { author: author@, body: SHORT_TEXT@, selected: false }),
{
    Note::new(author.clone(), Some(SHORT_TEXT))
}

fn long_note(author: &User) -> (note: Note)
    ensures
        note@ == (NoteView { author: author@, body: LONG_TEXT@, selected: false }),
{
    Note::new(author.clone(), Some(LONG_TEXT))
}

impl Home {
    /// Carries out a message.
    pub fn message(&mut self, message: Message)
        ensures
            final(self)@ == old(self)@.message(message),
            final(self)@.feed.cursor_in_bounds(),
    {
        proof {
            use_type_invariant(&self.feed_state);
        }
        match message {
            Message::SetNote(Direction::Next) => {
                self.next_selected();
                self.waiting_start = false;
            },
            Message::SetNote(Direction::Previous) => {
                self.prev_selected();
                self.waiting_start = false;
            },
            Message::SetPage(Direction::Next) => {
                self.next_page();
                self.waiting_start = false;
            },
            Message::SetPage(Direction::Previous) => {
                self.prev_page();
                self.waiting_start = false;
            },
            Message::JumpToStart => {
                self.feed_state.jump_to_first();
                self.waiting_start = false;
            },
            Message::JumpToEnd => {
                if self.feed_state.get_selected_page().is_some() {
                    self.feed_state.jump_to_last();
                    self.waiting_start = false;
                }
            },
            Message::WaitStart => self.waiting_start = true,
        }
    }

    /// Gets the currently selected page, if any.
    pub fn get_selected_page(&self) -> (page: Option<&(NotePage, NotePageState)>)
        ensures
            match page {
                Some(page) => self@.feed.page() == Some(page.1@),
                None => self@.feed.selected_page is None,
            },
    {
        self.feed_state.get_selected_page()
    }

    /// Go forward one page, if any.
    pub fn next_page(&mut self)
        ensures
            final(self)@ == (HomeView { feed: old(self)@.feed.select_next_page(), ..old(self)@ }),
    {
        self.feed_state.select_next_page();
    }

    /// Go back one page, if any.
    pub fn prev_page(&mut self)
        ensures
            final(self)@ == (HomeView { feed: old(self)@.feed.select_prev_page(), ..old(self)@ }),
    {
        self.feed_state.select_prev_page();
    }

    /// Go down one note in the current page, if any.
    pub fn next_selected(&mut self)
        ensures
            final(self)@ == (HomeView { feed: old(self)@.feed.select_next_note(), ..old(self)@ }),
    {
        self.feed_state.select_next_note();
    }

    /// Go up one note in the current page, if any.
    pub fn prev_selected(&mut self)
        ensures
            final(self)@ == (HomeView { feed: old(self)@.feed.select_prev_note(), ..old(self)@ }),
    {
        self.feed_state.select_prev_note();
    }

    /// The screen with the placeholder feed.
    pub fn make_dummy() -> (home: Home)
        ensures
            home@ == dummy_home(),
    {
        let dummy_author = dummy_author();
        let mut first: Vec<Note> = Vec::new();
        first.push(short_note(&dummy_author));
        first.push(short_note(&dummy_author));
        first.push(short_note(&dummy_author));
        first.push(short_note(&dummy_author));
        first.push(short_note(&dummy_author));
        first.push(short_note(&dummy_author));
        first.push(long_note(&dummy_author));
        first.push(short_note(&dummy_author));
        first.push(long_note(&dummy_author));
        first.push(short_note(&dummy_author));
        let mut second: Vec<Note> = Vec::new();
        second.push(short_note(&dummy_author));
        second.push(short_note(&dummy_author));
        second.push(long_note(&dummy_author));
        second.push(short_note(&dummy_author));
        assert(note_views(first@) =~= dummy_first_page().notes);
        assert(note_views(second@) =~= dummy_second_page().notes);
        let first = NotePageState::new(first);
        let second = NotePageState::new(second);
        assert(first@ =~= dummy_first_page());
        assert(second@ =~= dummy_second_page());
        let mut pages: Vec<(NotePage, NotePageState)> = Vec::new();
        pages.push((NotePage::default(), first));
        pages.push((NotePage::default(), second));
        let home = Home { feed_state: NoteFeedState::new(pages), waiting_start: false };
        assert(home@.feed =~= dummy_home().feed);
        home
    }

    /// The drawing operations of the screen on `area`: those of the feed.
    /// The screen stays as it is.
    pub fn render(&self, area: Rect) -> (ops: Vec<Draw>)
        ensures
            self@.feed.drawn_on(area, draw_views(ops@)),
    {
        let feed = NoteFeed::new();
        feed.render(area, &self.feed_state)
    }

    /// Reacts to a key press.
    pub fn handle_key(&mut self, key: KeyCode)
        ensures
            final(self)@ == old(self)@.handle_key(key),
            final(self)@.feed.cursor_in_bounds(),
    {
        proof {
            use_type_invariant(&self.feed_state);
        }
        match key {
            KeyCode::Char('j') => self.message(Message::SetNote(Direction::Next)),
            KeyCode::Char('k') => self.message(Message::SetNote(Direction::Previous)),
            KeyCode::Char('J') => self.message(Message::SetPage(Direction::Next)),
            KeyCode::Char('K') => self.message(Message::SetPage(Direction::Previous)),
            KeyCode::Char('G') => self.message(Message::JumpToStart),
            KeyCode::Char('g') => {
                if self.waiting_start {
                    self.message(Message::JumpToEnd);
                } else {
                    self.message(Message::WaitStart);
                }
            },
            _ => (),
        }
    }
}

} // verus!
