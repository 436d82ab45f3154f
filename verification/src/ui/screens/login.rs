//! The login form: three text fields and a focus that moves between them.
use vstd::prelude::*;
use vstd::string::StringExecFns;

use crate::input::KeyCode;
use crate::ui::geometry::{rect_inner, rect_new, Margin, Rect};
use crate::ui::surface::{draw_views, Borders, Draw, DrawView};
use crate::ui::text::{mask, masked};

verus! {

/// A field of the form.
#[derive(Clone, Copy, Debug, PartialEq, Eq, Structural)]
pub enum Field {
    Instance,
    Username,
    Password,
}

impl Field {
    /// The field below this one; from the last field, the first.
    pub open spec fn spec_next(&self) -> Field {
        match self {
            Field::Instance => Field::Username,
            Field::Username => Field::Password,
            Field::Password => Field::Instance,
        }
    }

    /// The field above this one; from the first field, the last.
    pub open spec fn spec_prev(&self) -> Field {
        match self {
            Field::Instance => Field::Password,
            Field::Username => Field::Instance,
            Field::Password => Field::Username,
        }
    }

    /// The name of the field as the form shows it.
    pub open spec fn spec_name(self) -> &'static str {
        match self {
            Field::Instance => "Instance",
            Field::Username => "Username",
            Field::Password => "Password",
        }
    }

    /// The name of the field with the mark of the focused field before it.
    pub open spec fn marked_name(self) -> Seq<char> {
        FOCUS_MARK@ + self.spec_name()@
    }

    /// The field below this one; from the last field, the first.
    #[verifier::when_used_as_spec(spec_next)]
    pub fn next(&self) -> (f: Field)
        ensures
            f == self.spec_next(),
    {
        match self {
            Field::Instance => Field::Username,
            Field::Username => Field::Password,
            Field::Password => Field::Instance,
        }
    }

    /// The field above this one; from the first field, the last.
    #[verifier::when_used_as_spec(spec_prev)]
    pub fn prev(&self) -> (f: Field)
        ensures
            f == self.spec_prev(),
    {
        match self {
            Field::Instance => Field::Password,
            Field::Username => Field::Instance,
            Field::Password => Field::Username,
        }
    }

    /// The name of the field as the form shows it.
    #[verifier::when_used_as_spec(spec_name)]
    pub fn name(self) -> (name: &'static str)
        ensures
            name == self.spec_name(),
    {
        match self {
            Field::Instance => "Instance",
            Field::Username => "Username",
            Field::Password => "Password",
        }
    }

    /// The label of the field: its name, marked where the field has the focus.
    pub fn label(self, focused: bool) -> (text: String)
        ensures
            text@ == (if focused {
                self.marked_name()
            } else {
                self.name()@
            }),
    {
        if focused {
            let mut text = String::from_str(FOCUS_MARK);
            text.append(self.name());
            text
        } else {
            String::from_str(self.name())
        }
    }
}

impl Default for Field {
    fn default() -> (f: Field)
        ensures
            f == Field::Instance,
    {
        Field::Instance
    }
}

/// What a key press asks of the form.
#[derive(Clone, Copy, Debug, PartialEq, Eq, Structural)]
pub enum Message {
    /// Selects the next field.
    NextField,
    /// Selects the previous field.
    PrevField,
    /// Deletes one character in the selected field.
    Delete,
}

/// The value of a [`Login`] form.
pub struct LoginView {
    pub instance: Seq<char>,
    pub username: Seq<char>,
    pub password: Seq<char>,
    pub selected: Field,
}

/// The hint in the bottom line of the login screen.
pub const KEY_HINT: &'static str = "Confirm (Enter) / Next (Tab) / Back (Shift-Tab) / Exit (Esc)";

/// What marks the label of the field that has the focus.
pub const FOCUS_MARK: &'static str = "> ";

/// The title of the form.
pub const FORM_TITLE: &'static str = "Login";

impl LoginView {
    /// The text of a field.
    pub open spec fn field(self, f: Field) -> Seq<char> {
        match f {
            Field::Instance => self.instance,
            Field::Username => self.username,
            Field::Password => self.password,
        }
    }

    /// The form with the text of one field replaced.
    pub open spec fn with_field(self, f: Field, text: Seq<char>) -> LoginView {
        match f {
            Field::Instance => LoginView { instance: text, ..self },
            Field::Username => LoginView { username: text, ..self },
            Field::Password => LoginView { password: text, ..self },
        }
    }

    /// The form after a character is typed into the selected field.
    pub open spec fn insert_char(self, c: char) -> LoginView {
        self.with_field(self.selected, self.field(self.selected).push(c))
    }

    /// The form after the last character of the selected field is deleted;
    /// the form itself where that field is empty.
    pub open spec fn delete_char(self) -> LoginView {
        if self.field(self.selected).len() > 0 {
            self.with_field(self.selected, self.field(self.selected).drop_last())
        } else {
            self
        }
    }

    /// The form after a message.
    pub open spec fn message(self, message: Message) -> LoginView {
        match message {
            Message::NextField => LoginView { selected: self.selected.spec_next(), ..self },
            Message::PrevField => LoginView { selected: self.selected.spec_prev(), ..self },
            Message::Delete => self.delete_char(),
        }
    }

    /// The form after a key press.
    pub open spec fn handle_key(self, key: KeyCode) -> LoginView {
        match key {
            KeyCode::Char(c) => self.insert_char(c),
            KeyCode::Backspace => self.message(Message::Delete),
            KeyCode::Tab => self.message(Message::NextField),
            KeyCode::BackTab => self.message(Message::PrevField),
            _ => self,
        }
    }

    /// What the form shows in the value row of a field: the text, or one
    /// asterisk for each character of the password.
    pub open spec fn shown(self, f: Field) -> Seq<char> {
        match f {
            Field::Password => masked(self.password.len()),
            _ => self.field(f),
        }
    }

    /// The label of a field.
    pub open spec fn label(self, f: Field) -> Seq<char> {
        if self.selected == f {
            f.marked_name()
        } else {
            f.name()@
        }
    }

    /// The rectangle of the form inside `area`: a quarter of the width is
    /// left free on either side, a third of the height above and below.
    pub open spec fn form_rect(area: Rect) -> Rect {
        area.inset(Margin { horizontal: area.width / 4, vertical: area.height / 3 })
    }

    /// The label row and the value row of a field, the label in row `line`.
    pub open spec fn field_rows(self, f: Field, form: Rect, line: int) -> Seq<DrawView> {
        seq![
            DrawView::Text {
                area: Rect::clamped(form.x, line as u16, form.width, 1),
                text: self.label(f),
            },
            DrawView::Text {
                area: Rect::clamped(form.x, (line + 1) as u16, form.width, 1),
                text: self.shown(f),
            },
        ]
    }

    /// The form: its frame with the title, then the three fields from the
    /// row below the frame's line on, each three rows below the one before.
    pub open spec fn form(self, area: Rect) -> Seq<DrawView> {
        let form = Self::form_rect(area);
        seq![
            DrawView::Block {
                area: form,
                borders: Borders::spec_top(),
                title_top: Some(FORM_TITLE@),
                title_bottom: None,
            },
        ] + self.field_rows(Field::Instance, form, form.y + 1) + self.field_rows(
            Field::Username,
            form,
            form.y + 4,
        ) + self.field_rows(Field::Password, form, form.y + 7)
    }

    /// The login screen: a frame around the whole area with the key hint in
    /// its bottom line, then the form.
    pub open spec fn screen(self, area: Rect) -> Seq<DrawView> {
        seq![
            DrawView::Block {
                area,
                borders: Borders::spec_top_bottom(),
                title_top: None,
                title_bottom: Some(KEY_HINT@),
            },
        ] + self.form(area)
    }
}

/// Whether the rows of the form fit below the top of `area`.
pub open spec fn form_fits(area: Rect) -> bool {
    area.y + area.height / 3 + 8 <= u16::MAX
}

/// The login form.
#[derive(Debug)]
pub struct Login {
    instance: String,
    username: String,
    password: String,
    selected: Field,
}

impl View for Login {
    type V = LoginView;

    closed spec fn view(&self) -> LoginView {
        LoginView {
            instance: self.instance@,
            username: self.username@,
            password: self.password@,
            selected: self.selected,
        }
    }
}

impl Default for Login {
    /// The empty form with the focus on the first field.
    fn default() -> (login: Login)
        ensures
            login@ == (LoginView {
                instance: Seq::empty(),
                username: Seq::empty(),
                password: Seq::empty(),
                selected: Field::Instance,
            }),
    {
        Login {
            instance: String::new(),
            username: String::new(),
            password: String::new(),
            selected: Field::Instance,
        }
    }
}

impl Login {
    /// Whether the rows of the form fit below the top of `area`.
    pub fn fits(area: Rect) -> (ok: bool)
        ensures
            ok == form_fits(area),
    {
        area.y <= u16::MAX - 8 - area.height / 3
    }

    /// The text of the instance field.
    pub fn instance(&self) -> (text: &str)
        ensures
            text@ == self@.instance,
    {
        self.instance.as_str()
    }

    /// The text of the username field.
    pub fn username(&self) -> (text: &str)
        ensures
            text@ == self@.username,
    {
        self.username.as_str()
    }

    /// The text of the password field.
    pub fn password(&self) -> (text: &str)
        ensures
            text@ == self@.password,
    {
        self.password.as_str()
    }

    /// The field that has the focus.
    pub fn selected(&self) -> (field: Field)
        ensures
            field == self@.selected,
    {
        self.selected
    }

    /// Carries out a message.
    pub fn message(&mut self, message: Message)
        ensures
            final(self)@ == old(self)@.message(message),
    {
        match message {
            Message::NextField => self.selected = self.selected.next(),
            Message::PrevField => self.selected = self.selected.prev(),
            Message::Delete => self.delete_char(),
        }
    }

    /// Deletes the last character of the currently selected field.
    /// Does nothing if the field is empty.
    pub fn delete_char(&mut self)
        ensures
            final(self)@ == old(self)@.delete_char(),
    {
        match self.selected {
            Field::Instance => {
                self.instance.pop();
            },
            Field::Username => {
                self.username.pop();
            },
            Field::Password => {
                self.password.pop();
            },
        }
    }

    /// Reacts to a key press: a character goes into the selected field,
    /// Backspace deletes, Tab and Shift + Tab move the focus.
    pub fn handle_key(&mut self, key: KeyCode)
        ensures
            final(self)@ == old(self)@.handle_key(key),
    {
        match key {
            KeyCode::Char(c) => match self.selected {
                Field::Instance => self.instance.push(c),
                Field::Username => self.username.push(c),
                Field::Password => self.password.push(c),
            },
            KeyCode::Backspace => self.message(Message::Delete),
            KeyCode::Tab => self.message(Message::NextField),
            KeyCode::BackTab => self.message(Message::PrevField),
            _ => (),
        }
    }

    /// What the form shows in the value row of `field`.
    fn shown(&self, field: Field) -> (text: String)
        ensures
            text@ == self@.shown(field),
    {
        match field {
            Field::Instance => self.instance.clone(),
            Field::Username => self.username.clone(),
            Field::Password => mask(self.password.as_str()),
        }
    }

    /// Adds the label row and the value row of `field` to `ops`.
    fn draw_field(&self, ops: &mut Vec<Draw>, field: Field, form: Rect, line: u16)
        requires
            line < u16::MAX,
        ensures
            draw_views(final(ops)@) == draw_views(old(ops)@) + self@.field_rows(
                field,
                form,
                line as int,
            ),
    {
        let label = Draw::Text {
            area: rect_new(form.x, line, form.width, 1),
            text: field.label(self.selected == field),
        };
        let value = Draw::Text {
            area: rect_new(form.x, line + 1, form.width, 1),
            text: self.shown(field),
        };
        ops.push(label);
        ops.push(value);
        assert(draw_views(ops@) =~= draw_views(old(ops)@) + self@.field_rows(
            field,
            form,
            line as int,
        ));
    }

    /// The drawing operations of the form inside `area`.
    pub fn draw_form(&self, area: Rect) -> (ops: Vec<Draw>)
        requires
            form_fits(area),
        ensures
            draw_views(ops@) == self@.form(area),
    {
        let form_rect = rect_inner(
            area,
            Margin { horizontal: area.width / 4, vertical: area.height / 3 },
        );
        let mut ops: Vec<Draw> = Vec::new();
        ops.push(
            Draw::Block {
                area: form_rect,
                borders: Borders::top(),
                title_top: Some(String::from_str(FORM_TITLE)),
                title_bottom: None,
            },
        );
        assert(draw_views(ops@) =~= seq![
            DrawView::Block {
                area: form_rect,
                borders: Borders::spec_top(),
                title_top: Some(FORM_TITLE@),
                title_bottom: None,
            },
        ]);
        let mut line: u16 = form_rect.y + 1;
        self.draw_field(&mut ops, Field::Instance, form_rect, line);
        line += 3;
        self.draw_field(&mut ops, Field::Username, form_rect, line);
        line += 3;
        self.draw_field(&mut ops, Field::Password, form_rect, line);
        ops
    }

    /// The drawing operations of the login screen on `area`.
    pub fn render(&self, area: Rect) -> (ops: Vec<Draw>)
        requires
            form_fits(area),
        ensures
            draw_views(ops@) == self@.screen(area),
    {
        let mut ops: Vec<Draw> = Vec::new();
        ops.push(
            Draw::Block {
                area,
                borders: Borders::top_bottom(),
                title_top: None,
                title_bottom: Some(String::from_str(KEY_HINT)),
            },
        );
        let mut form = self.draw_form(area);
        ops.append(&mut form);
        assert(draw_views(ops@) =~= self@.screen(area));
        ops
    }
}

} // verus!
