use keytan::input::KeyCode;
use keytan::ui::geometry::Rect;
use keytan::ui::screens::login::{Field, Login, Message, FOCUS_MARK, FORM_TITLE, KEY_HINT};
use keytan::ui::surface::{Borders, Draw};

fn typed(login: &mut Login, text: &str) {
    for c in text.chars() {
        login.handle_key(KeyCode::Char(c));
    }
}

fn text_op(x: u16, y: u16, width: u16, text: &str) -> Draw {
    Draw::Text { area: Rect { x, y, width, height: 1 }, text: String::from(text) }
}

#[test]
fn next_field_goes_round() {
    assert_eq!(Field::Instance.next(), Field::Username);
    assert_eq!(Field::Username.next(), Field::Password);
    assert_eq!(Field::Password.next(), Field::Instance);
}

#[test]
fn prev_field_goes_round() {
    assert_eq!(Field::Instance.prev(), Field::Password);
    assert_eq!(Field::Username.prev(), Field::Instance);
    assert_eq!(Field::Password.prev(), Field::Username);
}

#[test]
fn prev_undoes_next() {
    for field in [Field::Instance, Field::Username, Field::Password] {
        assert_eq!(field.next().prev(), field);
        assert_eq!(field.prev().next(), field);
    }
}

#[test]
fn default_field_is_the_first() {
    assert_eq!(Field::default(), Field::Instance);
}

#[test]
fn field_names_and_labels() {
    assert_eq!(FOCUS_MARK, "> ");
    assert_eq!(Field::Instance.name(), "Instance");
    assert_eq!(Field::Username.name(), "Username");
    assert_eq!(Field::Password.name(), "Password");
    assert_eq!(Field::Instance.label(false), "Instance");
    assert_eq!(Field::Instance.label(true), "> Instance");
    assert_eq!(Field::Username.label(false), "Username");
    assert_eq!(Field::Username.label(true), "> Username");
    assert_eq!(Field::Password.label(false), "Password");
    assert_eq!(Field::Password.label(true), "> Password");
}

#[test]
fn default_form_is_empty() {
    let login = Login::default();
    assert_eq!(login.instance(), "");
    assert_eq!(login.username(), "");
    assert_eq!(login.password(), "");
    assert_eq!(login.selected(), Field::Instance);
}

#[test]
fn characters_go_into_the_selected_field() {
    let mut login = Login::default();
    typed(&mut login, "misskey.io");
    login.handle_key(KeyCode::Tab);
    typed(&mut login, "ada");
    login.handle_key(KeyCode::Tab);
    typed(&mut login, "s3cret");
    assert_eq!(login.instance(), "misskey.io");
    assert_eq!(login.username(), "ada");
    assert_eq!(login.password(), "s3cret");
    assert_eq!(login.selected(), Field::Password);
}

#[test]
fn tab_and_back_tab_move_the_focus() {
    let mut login = Login::default();
    login.handle_key(KeyCode::Tab);
    assert_eq!(login.selected(), Field::Username);
    login.handle_key(KeyCode::Tab);
    assert_eq!(login.selected(), Field::Password);
    login.handle_key(KeyCode::Tab);
    assert_eq!(login.selected(), Field::Instance);
    login.handle_key(KeyCode::BackTab);
    assert_eq!(login.selected(), Field::Password);
    login.handle_key(KeyCode::BackTab);
    assert_eq!(login.selected(), Field::Username);
}

#[test]
fn backspace_deletes_the_last_character() {
    let mut login = Login::default();
    typed(&mut login, "abc");
    login.handle_key(KeyCode::Backspace);
    assert_eq!(login.instance(), "ab");
    login.handle_key(KeyCode::Tab);
    typed(&mut login, "xy");
    login.handle_key(KeyCode::Backspace);
    assert_eq!(login.instance(), "ab");
    assert_eq!(login.username(), "x");
}

#[test]
fn backspace_deletes_a_whole_character() {
    let mut login = Login::default();
    typed(&mut login, "aä日");
    login.delete_char();
    assert_eq!(login.instance(), "aä");
    login.delete_char();
    assert_eq!(login.instance(), "a");
}

#[test]
fn delete_on_an_empty_field_does_nothing() {
    let mut login = Login::default();
    login.delete_char();
    assert_eq!(login.instance(), "");
    typed(&mut login, "a");
    login.delete_char();
    login.delete_char();
    login.delete_char();
    assert_eq!(login.instance(), "");
    assert_eq!(login.username(), "");
    assert_eq!(login.password(), "");
    assert_eq!(login.selected(), Field::Instance);
}

#[test]
fn messages_change_the_form() {
    let mut login = Login::default();
    typed(&mut login, "ab");
    login.message(Message::NextField);
    assert_eq!(login.selected(), Field::Username);
    login.message(Message::PrevField);
    assert_eq!(login.selected(), Field::Instance);
    login.message(Message::Delete);
    assert_eq!(login.instance(), "a");
    login.message(Message::PrevField);
    assert_eq!(login.selected(), Field::Password);
    login.message(Message::Delete);
    assert_eq!(login.instance(), "a");
    assert_eq!(login.password(), "");
}

#[test]
fn other_keys_change_nothing() {
    let mut login = Login::default();
    typed(&mut login, "ab");
    login.handle_key(KeyCode::Esc);
    login.handle_key(KeyCode::Other);
    assert_eq!(login.instance(), "ab");
    assert_eq!(login.username(), "");
    assert_eq!(login.password(), "");
    assert_eq!(login.selected(), Field::Instance);
}

#[test]
fn letters_of_the_feed_keys_are_typed() {
    let mut login = Login::default();
    typed(&mut login, "jkJKGg");
    assert_eq!(login.instance(), "jkJKGg");
}

#[test]
fn form_on_a_terminal_of_80_by_24() {
    let mut login = Login::default();
    typed(&mut login, "misskey.io");
    login.handle_key(KeyCode::Tab);
    typed(&mut login, "ada");
    login.handle_key(KeyCode::Tab);
    typed(&mut login, "s3cret");
    login.handle_key(KeyCode::Tab);
    login.handle_key(KeyCode::Tab);
    let ops = login.draw_form(Rect { x: 0, y: 0, width: 80, height: 24 });
    assert_eq!(FORM_TITLE, "Login");
    assert_eq!(
        ops,
        vec![
            Draw::Block {
                area: Rect { x: 20, y: 8, width: 40, height: 8 },
                borders: Borders { top: true, right: false, bottom: false, left: false },
                title_top: Some(String::from("Login")),
                title_bottom: None,
            },
            text_op(20, 9, 40, "Instance"),
            text_op(20, 10, 40, "misskey.io"),
            text_op(20, 12, 40, "> Username"),
            text_op(20, 13, 40, "ada"),
            text_op(20, 15, 40, "Password"),
            text_op(20, 16, 40, "******"),
        ]
    );
    assert_eq!(Borders::top(), Borders { top: true, right: false, bottom: false, left: false });
}

#[test]
fn form_marks_the_focused_field_only() {
    let mut login = Login::default();
    let area = Rect { x: 0, y: 0, width: 80, height: 24 };
    let ops = login.draw_form(area);
    assert_eq!(ops[1], text_op(20, 9, 40, "> Instance"));
    assert_eq!(ops[3], text_op(20, 12, 40, "Username"));
    assert_eq!(ops[5], text_op(20, 15, 40, "Password"));
    login.handle_key(KeyCode::BackTab);
    let ops = login.draw_form(area);
    assert_eq!(ops[1], text_op(20, 9, 40, "Instance"));
    assert_eq!(ops[3], text_op(20, 12, 40, "Username"));
    assert_eq!(ops[5], text_op(20, 15, 40, "> Password"));
}

#[test]
fn form_on_an_odd_area() {
    let login = Login::default();
    let ops = login.draw_form(Rect { x: 3, y: 2, width: 21, height: 10 });
    assert_eq!(
        ops[0],
        Draw::Block {
            area: Rect { x: 8, y: 5, width: 11, height: 4 },
            borders: Borders::top(),
            title_top: Some(String::from("Login")),
            title_bottom: None,
        }
    );
    assert_eq!(ops[1], text_op(8, 6, 11, "> Instance"));
    assert_eq!(ops[2], text_op(8, 7, 11, ""));
    assert_eq!(ops[3], text_op(8, 9, 11, "Username"));
    assert_eq!(ops[5], text_op(8, 12, 11, "Password"));
    assert_eq!(ops[6], text_op(8, 13, 11, ""));
}

#[test]
fn form_on_an_empty_area() {
    let login = Login::default();
    let ops = login.draw_form(Rect { x: 0, y: 0, width: 0, height: 0 });
    assert_eq!(ops.len(), 7);
    assert_eq!(ops[1], text_op(0, 1, 0, "> Instance"));
    assert_eq!(ops[6], text_op(0, 8, 0, ""));
}

#[test]
fn form_near_the_last_row_is_cut() {
    let login = Login::default();
    let ops = login.draw_form(Rect { x: 0, y: 65527, width: 8, height: 0 });
    assert_eq!(ops[5], text_op(2, 65534, 4, "Password"));
    assert_eq!(
        ops[6],
        Draw::Text { area: Rect { x: 2, y: 65535, width: 4, height: 0 }, text: String::new() }
    );
}

#[test]
fn screen_is_a_frame_with_the_hint_and_the_form() {
    let login = Login::default();
    let area = Rect { x: 0, y: 0, width: 80, height: 24 };
    let ops = login.render(area);
    assert_eq!(KEY_HINT, "Confirm (Enter) / Next (Tab) / Back (Shift-Tab) / Exit (Esc)");
    assert_eq!(ops.len(), 8);
    assert_eq!(
        ops[0],
        Draw::Block {
            area,
            borders: Borders { top: true, right: false, bottom: true, left: false },
            title_top: None,
            title_bottom: Some(String::from(
                "Confirm (Enter) / Next (Tab) / Back (Shift-Tab) / Exit (Esc)"
            )),
        }
    );
    assert_eq!(&ops[1..], login.draw_form(area).as_slice());
}

#[test]
fn rendering_leaves_the_form_alone() {
    let mut login = Login::default();
    typed(&mut login, "abc");
    login.handle_key(KeyCode::Tab);
    let area = Rect { x: 0, y: 0, width: 80, height: 24 };
    assert_eq!(login.render(area), login.render(area));
    assert_eq!(login.instance(), "abc");
    assert_eq!(login.selected(), Field::Username);
}
