//! The screens, and the dispatch of rendering and keys to the active one.
use vstd::prelude::*;

use crate::input::KeyCode;
use crate::ui::geometry::Rect;
use crate::ui::screens::home::{Home, HomeView};
use crate::ui::screens::login::{form_fits, Login, LoginView};
use crate::ui::surface::{draw_views, Draw, DrawView};

pub mod home;
pub mod login;

verus! {

/// A full screen view.
#[derive(Debug)]
pub enum Screen {
    Login(Login),
    Home(Home),
}

/// The value of a [`Screen`].
pub enum ScreenView {
    Login(LoginView),
    Home(HomeView),
}

impl View for Screen {
    type V = ScreenView;

    open spec fn view(&self) -> ScreenView {
        match self {
            Screen::Login(login) => ScreenView::Login(login@),
            Screen::Home(home) => ScreenView::Home(home@),
        }
    }
}

impl ScreenView {
    /// The screen after a key press: the same kind of screen, after the key
    /// as that kind handles it.
    pub open spec fn handle_key(self, key: KeyCode) -> ScreenView {
        match self {
            ScreenView::Login(login) => ScreenView::Login(login.handle_key(key)),
            ScreenView::Home(home) => ScreenView::Home(home.handle_key(key)),
        }
    }

    /// Whether `ops` draws the screen on `area`: the login screen exactly;
    /// the home screen with the bar and the selected page each in a band of
    /// the area.
    pub open spec fn drawn_by(self, area: Rect, ops: Seq<DrawView>) -> bool {
        match self {
            ScreenView::Login(login) => ops == login.screen(area),
            ScreenView::Home(home) => home.feed.drawn_on(area, ops),
        }
    }

    /// Whether the screen can be drawn on `area`.
    pub open spec fn fits(self, area: Rect) -> bool {
        self is Login ==> form_fits(area)
    }
}

impl Screen {
    /// Whether the screen can be drawn on `area`.
    pub fn fits(&self, area: Rect) -> (ok: bool)
        ensures
            ok == self@.fits(area),
    {
        match self {
            Screen::Login(_) => Login::fits(area),
            Screen::Home(_) => true,
        }
    }

    /// The drawing operations of the screen on `area`. The state of the
    /// screen stays as it is.
    pub fn render(&self, area: Rect) -> (ops: Vec<Draw>)
        requires
            self@.fits(area),
        ensures
            self@.drawn_by(area, draw_views(ops@)),
    {
        match self {
            Screen::Login(login) => login.render(area),
            Screen::Home(home) => home.render(area),
        }
    }

    /// Handles keydown.
    pub fn handle_key(&mut self, key: KeyCode)
        ensures
            final(self)@ == old(self)@.handle_key(key),
    {
        match self {
            Screen::Login(login) => login.handle_key(key),
            Screen::Home(home) => home.handle_key(key),
        }
    }
}

} // verus!
