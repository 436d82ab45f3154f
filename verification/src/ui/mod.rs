//! The user interface: the active screen and what is drawn for it.
use vstd::prelude::*;

use crate::input::KeyCode;
use crate::ui::geometry::Rect;
use crate::ui::screens::home::{dummy_home, Home};
use crate::ui::screens::{Screen, ScreenView};
use crate::ui::surface::{draw_views, Draw, DrawView};

pub mod geometry;
pub mod screens;
pub mod surface;
pub mod text;
pub mod widgets;

verus! {

/// The screen that has the terminal, if any.
#[derive(Debug)]
pub struct Ui {
    /// The screen to render.
    pub current_screen: Option<Screen>,
}

/// The value of a [`Ui`]: that of its screen.
pub struct UiView {
    pub current_screen: Option<ScreenView>,
}

impl View for Ui {
    type V = UiView;

    open spec fn view(&self) -> UiView {
        UiView {
            current_screen: match self.current_screen {
                Some(screen) => Some(screen@),
                None => None,
            },
        }
    }
}

impl UiView {
    /// The interface after a key press: the screen takes the key; without a
    /// screen nothing changes.
    pub open spec fn handle_key(self, key: KeyCode) -> UiView {
        match self.current_screen {
            Some(screen) => UiView { current_screen: Some(screen.handle_key(key)) },
            None => self,
        }
    }

    /// Whether `ops` draws the interface on `area`: it draws the screen, or
    /// nothing without one.
    pub open spec fn drawn_by(self, area: Rect, ops: Seq<DrawView>) -> bool {
        match self.current_screen {
            Some(screen) => screen.drawn_by(area, ops),
            None => ops == Seq::<DrawView>::empty(),
        }
    }

    /// Whether the interface can be drawn on `area`.
    pub open spec fn fits(self, area: Rect) -> bool {
        self.current_screen matches Some(screen) ==> screen.fits(area)
    }
}

impl Ui {
    /// Whether the current screen can be drawn on `area`.
    pub fn fits(&self, area: Rect) -> (ok: bool)
        ensures
            ok == self@.fits(area),
    {
        match &self.current_screen {
            Some(screen) => screen.fits(area),
            None => true,
        }
    }

    /// The drawing operations of the current screen on `area`.
    pub fn render(&self, area: Rect) -> (ops: Vec<Draw>)
        requires
            self@.fits(area),
        ensures
            self@.drawn_by(area, draw_views(ops@)),
    {
        match &self.current_screen {
            Some(screen) => screen.render(area),
            None => {
                let ops: Vec<Draw> = Vec::new();
                assert(draw_views(ops@) =~= Seq::<DrawView>::empty());
                ops
            },
        }
    }

    /// Handles a key press.
    pub fn handle_key(&mut self, key: KeyCode)
        ensures
            final(self)@ == old(self)@.handle_key(key),
    {
        if let Some(screen) = &mut self.current_screen {
            screen.handle_key(key);
        }
    }
}

impl Default for Ui {
    /// The interface on the home screen with the placeholder feed.
    fn default() -> (ui: Ui)
        ensures
            ui@ == (UiView { current_screen: Some(ScreenView::Home(dummy_home())) }),
    {
        Ui { current_screen: Some(Screen::Home(Home::make_dummy())) }
    }
}

} // verus!
