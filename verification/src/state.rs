//! The state of the application and how key events change it.
use vstd::prelude::*;

use crate::input::{KeyCode, KeyEvent, KeyEventKind};
use crate::ui::screens::home::dummy_home;
use crate::ui::screens::ScreenView;
use crate::ui::{Ui, UiView};

verus! {

/// The application: its interface, and whether the session is over.
#[derive(Debug)]
pub struct KeytanState {
    pub ui: Ui,
    pub done: bool,
}

/// The value of a [`KeytanState`].
pub struct StateView {
    pub ui: UiView,
    pub done: bool,
}

impl View for KeytanState {
    type V = StateView;

    open spec fn view(&self) -> StateView {
        StateView { ui: self.ui@, done: self.done }
    }
}

impl StateView {
    /// The application after a key press that goes to the interface.
    pub open spec fn handle_input(self, key: KeyCode) -> StateView {
        StateView { ui: self.ui.handle_key(key), ..self }
    }

    /// The application after the session is over.
    pub open spec fn exit(self) -> StateView {
        StateView { done: true, ..self }
    }

    /// The application after a key event. Only a press counts: Esc ends the
    /// session, any other key goes to the interface.
    pub open spec fn handle_event(self, event: KeyEvent) -> StateView {
        if event.kind != KeyEventKind::Press {
            self
        } else if event.code == KeyCode::Esc {
            self.exit()
        } else {
            self.handle_input(event.code)
        }
    }

    /// Whether a key event ends the session: a press of Esc.
    pub open spec fn ends_session(event: KeyEvent) -> bool {
        event.kind == KeyEventKind::Press && event.code == KeyCode::Esc
    }
}

impl Default for KeytanState {
    /// The application at its start: on the home screen with the placeholder
    /// feed, and not done.
    fn default() -> (state: KeytanState)
        ensures
            state@ == (StateView {
                ui: UiView { current_screen: Some(ScreenView::Home(dummy_home())) },
                done: false,
            }),
    {
        KeytanState { ui: Ui::default(), done: false }
    }
}

impl KeytanState {
    /// Hands a key press to the interface.
    pub fn handle_input(&mut self, key: KeyCode)
        ensures
            final(self)@ == old(self)@.handle_input(key),
    {
        self.ui.handle_key(key);
    }

    /// Marks the session as over. The interface stays as it is.
    pub fn exit(&mut self)
        ensures
            final(self)@ == old(self)@.exit(),
    {
        self.done = true;
    }

    /// Takes one key event, and says whether to stop listening for more.
    pub fn handle_event(&mut self, event: KeyEvent) -> (stop: bool)
        ensures
            final(self)@ == old(self)@.handle_event(event),
            stop == StateView::ends_session(event),
    {
        if event.kind == KeyEventKind::Press {
            if event.code == KeyCode::Esc {
                self.exit();
                return true;
            }
            self.ui.handle_key(event.code);
        }
        false
    }
}

} // verus!
