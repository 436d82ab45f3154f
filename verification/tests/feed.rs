use keytan::ui::geometry::{Constraint, Rect};
use keytan::ui::surface::{Borders, Draw};
use keytan::ui::widgets::notes::feed::{NoteFeed, NoteFeedState};
use keytan::ui::widgets::notes::page::{NotePage, NotePageState};
use keytan::ui::widgets::notes::{Note, User};

fn author() -> User {
    User { name: String::from("Ada"), username: String::from("ada@example.org") }
}

fn page_of(n: usize) -> (NotePage, NotePageState) {
    let mut notes = Vec::new();
    for i in 0..n {
        notes.push(Note::new(author(), Some(format!("note {}", i).as_str())));
    }
    (NotePage::new(), NotePageState::new(notes))
}

fn feed_of(sizes: &[usize]) -> NoteFeedState {
    NoteFeedState::new(sizes.iter().map(|n| page_of(*n)).collect())
}

fn cursors(feed: &NoteFeedState) -> Vec<Option<usize>> {
    feed.pages().iter().map(|p| p.1.selected()).collect()
}

#[test]
fn new_feed_selects_first_page() {
    let feed = feed_of(&[3, 2]);
    assert_eq!(feed.selected_page_idx(), Some(0));
    assert_eq!(feed.pages().len(), 2);
    assert_eq!(cursors(&feed), vec![Some(0), Some(0)]);
}

#[test]
fn new_feed_without_pages_selects_nothing() {
    let feed = feed_of(&[]);
    assert_eq!(feed.selected_page_idx(), None);
    assert!(feed.get_selected_page().is_none());
}

#[test]
fn default_feed_is_empty() {
    let mut feed = NoteFeedState::default();
    assert_eq!(feed.selected_page_idx(), None);
    assert_eq!(feed.pages().len(), 0);
    assert!(feed.get_selected_page().is_none());
    assert!(feed.get_selected_page_mut().is_none());
}

#[test]
fn next_page_moves_and_saturates() {
    let mut feed = feed_of(&[1, 1, 1]);
    feed.select_next_page();
    assert_eq!(feed.selected_page_idx(), Some(1));
    feed.select_next_page();
    assert_eq!(feed.selected_page_idx(), Some(2));
    feed.select_next_page();
    assert_eq!(feed.selected_page_idx(), Some(2));
}

#[test]
fn prev_page_moves_and_saturates() {
    let mut feed = feed_of(&[1, 1, 1]);
    feed.select(Some(2));
    feed.select_prev_page();
    assert_eq!(feed.selected_page_idx(), Some(1));
    feed.select_prev_page();
    assert_eq!(feed.selected_page_idx(), Some(0));
    feed.select_prev_page();
    assert_eq!(feed.selected_page_idx(), Some(0));
}

#[test]
fn page_moves_on_one_page_stay() {
    let mut feed = feed_of(&[2]);
    feed.select_next_page();
    assert_eq!(feed.selected_page_idx(), Some(0));
    feed.select_prev_page();
    assert_eq!(feed.selected_page_idx(), Some(0));
}

#[test]
fn page_moves_leave_the_note_cursors() {
    let mut feed = feed_of(&[3, 3]);
    feed.select_next_note();
    feed.select_next_page();
    assert_eq!(cursors(&feed), vec![Some(1), Some(0)]);
    feed.select_prev_page();
    assert_eq!(cursors(&feed), vec![Some(1), Some(0)]);
}

#[test]
fn select_sets_or_clears_the_page_cursor() {
    let mut feed = feed_of(&[1, 1]);
    feed.select(Some(1));
    assert_eq!(feed.selected_page_idx(), Some(1));
    feed.select(None);
    assert_eq!(feed.selected_page_idx(), None);
    assert!(feed.get_selected_page().is_none());
    feed.select(Some(0));
    assert_eq!(feed.selected_page_idx(), Some(0));
}

#[test]
fn moves_with_no_page_selected_do_nothing() {
    let mut feed = feed_of(&[3, 3]);
    feed.select(None);
    feed.select_next_note();
    feed.select_prev_note();
    feed.select_next_page();
    feed.select_prev_page();
    feed.jump_to_first();
    feed.jump_to_last();
    assert_eq!(feed.selected_page_idx(), None);
    assert_eq!(cursors(&feed), vec![Some(0), Some(0)]);
}

#[test]
fn moves_on_an_empty_feed_do_nothing() {
    let mut feed = feed_of(&[]);
    feed.select_next_note();
    feed.select_prev_note();
    feed.select_next_page();
    feed.select_prev_page();
    feed.jump_to_first();
    feed.jump_to_last();
    assert_eq!(feed.selected_page_idx(), None);
    assert_eq!(feed.pages().len(), 0);
}

#[test]
fn note_moves_go_to_the_selected_page() {
    let mut feed = feed_of(&[3, 3]);
    feed.select_next_page();
    feed.select_next_note();
    feed.select_next_note();
    assert_eq!(cursors(&feed), vec![Some(0), Some(2)]);
    feed.select_prev_note();
    assert_eq!(cursors(&feed), vec![Some(0), Some(1)]);
}

#[test]
fn note_moves_are_the_moves_of_the_page() {
    let mut feed = feed_of(&[4, 2]);
    let (_, mut page) = page_of(4);
    for step in [true, true, false, true, true, true, false, false, false, false, true] {
        if step {
            feed.select_next_note();
            page.next();
        } else {
            feed.select_prev_note();
            page.prev();
        }
        assert_eq!(feed.get_selected_page().map(|p| p.1.selected()), Some(page.selected()));
        assert_eq!(feed.pages()[1].1.selected(), Some(0));
    }
}

#[test]
fn jump_to_last_and_first() {
    let mut feed = feed_of(&[5, 2]);
    feed.jump_to_last();
    assert_eq!(cursors(&feed), vec![Some(4), Some(0)]);
    feed.jump_to_first();
    assert_eq!(cursors(&feed), vec![Some(0), Some(0)]);
}

#[test]
fn jumps_on_a_page_without_notes_do_nothing() {
    let mut feed = feed_of(&[0, 2]);
    feed.jump_to_last();
    assert_eq!(cursors(&feed), vec![None, Some(0)]);
    feed.jump_to_first();
    assert_eq!(cursors(&feed), vec![None, Some(0)]);
}

#[test]
fn jumps_set_a_cursor_that_was_not_set() {
    let notes = vec![Note::new(author(), None), Note::new(author(), None)];
    let mut feed = NoteFeedState::new(vec![(NotePage::new(), NotePageState::from(&notes))]);
    assert_eq!(cursors(&feed), vec![None]);
    feed.jump_to_last();
    assert_eq!(cursors(&feed), vec![Some(1)]);
}

#[test]
fn selected_page_is_the_page_at_the_cursor() {
    let mut feed = feed_of(&[1, 4]);
    assert_eq!(feed.get_selected_page().map(|p| p.1.len()), Some(1));
    feed.select_next_page();
    assert_eq!(feed.get_selected_page().map(|p| p.1.len()), Some(4));
}

#[test]
fn writes_through_the_selected_page_stay_in_the_feed() {
    let mut feed = feed_of(&[3, 3]);
    if let Some(page) = feed.get_selected_page_mut() {
        page.1.select(2);
    }
    assert_eq!(cursors(&feed), vec![Some(2), Some(0)]);
    if let Some(page) = feed.get_selected_page_mut() {
        *page = page_of(1);
    }
    assert_eq!(feed.pages()[0].1.len(), 1);
    assert_eq!(feed.pages().len(), 2);
    assert_eq!(feed.selected_page_idx(), Some(0));
}

#[test]
fn cursors_stay_in_bounds_whatever_the_moves() {
    let sizes = [3usize, 0, 5];
    let mut feed = feed_of(&sizes);
    let mut seed: u32 = 2024;
    for _ in 0..2000 {
        seed = seed.wrapping_mul(1103515245).wrapping_add(12345);
        match (seed >> 16) % 4 {
            0 => feed.select_next_page(),
            1 => feed.select_prev_page(),
            2 => feed.select_next_note(),
            _ => feed.select_prev_note(),
        }
        assert!(matches!(feed.selected_page_idx(), Some(p) if p < 3));
        for (p, size) in sizes.iter().enumerate() {
            let page = &feed.pages()[p].1;
            assert_eq!(page.len(), *size);
            match page.selected() {
                Some(i) => assert!(i < *size),
                None => assert_eq!(*size, 0),
            }
        }
    }
}

#[test]
fn layout_has_a_header_and_the_notes() {
    assert_eq!(NoteFeed::layout(), vec![Constraint::Length(4), Constraint::Fill(1)]);
    assert_eq!(NoteFeed::new(), NoteFeed::default());
}

#[test]
fn render_bands_draws_bar_then_list() {
    let mut feed = feed_of(&[3, 5]);
    feed.select_next_page();
    feed.select_next_note();
    let header = Rect { x: 0, y: 0, width: 80, height: 4 };
    let body = Rect { x: 0, y: 4, width: 80, height: 20 };
    let ops = NoteFeed::new().render_bands(header, body, &feed);
    assert_eq!(
        ops,
        vec![
            Draw::Block {
                area: header,
                borders: Borders::all(),
                title_top: None,
                title_bottom: None,
            },
            Draw::Line {
                area: Rect { x: 1, y: 1, width: 78, height: 2 },
                text: String::from("0 notifications"),
            },
            Draw::List { area: body, items: 5, selected: Some(1) },
        ]
    );
}

#[test]
fn render_bands_without_a_page_draws_the_bar_alone() {
    let mut feed = feed_of(&[3]);
    feed.select(None);
    let header = Rect { x: 0, y: 0, width: 80, height: 4 };
    let body = Rect { x: 0, y: 4, width: 80, height: 19 };
    let ops = NoteFeed::new().render_bands(header, body, &feed);
    assert_eq!(ops.len(), 2);
    assert!(matches!(ops[0], Draw::Block { .. }));
    assert!(matches!(ops[1], Draw::Line { .. }));
}

#[test]
fn render_splits_the_area_into_bands() {
    let feed = feed_of(&[3]);
    let area = Rect { x: 0, y: 0, width: 80, height: 24 };
    let ops = NoteFeed::new().render(area, &feed);
    assert_eq!(
        ops,
        vec![
            Draw::Block {
                area: Rect { x: 0, y: 0, width: 80, height: 4 },
                borders: Borders::all(),
                title_top: None,
                title_bottom: None,
            },
            Draw::Line {
                area: Rect { x: 1, y: 1, width: 78, height: 2 },
                text: String::from("0 notifications"),
            },
            Draw::List {
                area: Rect { x: 0, y: 4, width: 80, height: 20 },
                items: 3,
                selected: Some(0),
            },
        ]
    );
}

#[test]
fn render_keeps_column_and_width_of_the_area() {
    let feed = feed_of(&[2]);
    let area = Rect { x: 7, y: 3, width: 33, height: 12 };
    let ops = NoteFeed::new().render(area, &feed);
    assert_eq!(ops.len(), 3);
    assert_eq!(
        ops[0],
        Draw::Block {
            area: Rect { x: 7, y: 3, width: 33, height: 4 },
            borders: Borders::all(),
            title_top: None,
            title_bottom: None,
        }
    );
    assert_eq!(
        ops[2],
        Draw::List { area: Rect { x: 7, y: 7, width: 33, height: 8 }, items: 2, selected: Some(0) }
    );
}

#[test]
fn render_on_a_low_area_keeps_its_column() {
    let feed = feed_of(&[2]);
    let area = Rect { x: 5, y: 0, width: 20, height: 3 };
    let ops = NoteFeed::new().render(area, &feed);
    assert_eq!(ops.len(), 2);
    assert!(matches!(
        &ops[0],
        Draw::Line { area, text }
            if area.x == 5 && area.width == 20 && text == "Bar must be at least 4 lines high."
    ));
    assert!(matches!(
        &ops[1],
        Draw::List { area, items: 2, selected: Some(0) } if area.x == 5 && area.width == 20
    ));
}

#[test]
fn render_gives_the_notes_all_rows_below_the_header() {
    let feed = feed_of(&[4]);
    for height in 4..60u16 {
        let area = Rect { x: 2, y: 1, width: 50, height };
        let ops = NoteFeed::new().render(area, &feed);
        assert_eq!(
            ops[0],
            Draw::Block {
                area: Rect { x: 2, y: 1, width: 50, height: 4 },
                borders: Borders::all(),
                title_top: None,
                title_bottom: None,
            }
        );
        assert_eq!(
            ops[2],
            Draw::List {
                area: Rect { x: 2, y: 5, width: 50, height: height - 4 },
                items: 4,
                selected: Some(0),
            }
        );
    }
}

#[test]
fn render_keeps_its_bands_within_the_area() {
    let feed = feed_of(&[4]);
    for (y, height) in [(0u16, 0u16), (0, 1), (3, 2), (9, 3), (65530, 5), (65535, 7), (100, 65535)] {
        let area = Rect { x: 2, y, width: 50, height };
        let bottom = u32::from(y) + u32::from(height);
        for op in NoteFeed::new().render(area, &feed) {
            let band = match op {
                Draw::Block { area, .. } => area,
                Draw::List { area, .. } => area,
                Draw::Line { area, text } if text.starts_with("Bar") => area,
                _ => continue,
            };
            assert_eq!(band.x, 2);
            assert_eq!(band.width, 50);
            assert!(band.y >= y);
            assert!(u32::from(band.y) + u32::from(band.height) <= bottom.min(65535));
        }
    }
}

#[test]
fn rendering_leaves_the_cursors_alone() {
    let mut feed = feed_of(&[3, 3]);
    feed.select_next_note();
    let area = Rect { x: 0, y: 0, width: 80, height: 24 };
    let first = NoteFeed::new().render(area, &feed);
    let second = NoteFeed::new().render(area, &feed);
    assert_eq!(first, second);
    assert_eq!(feed.selected_page_idx(), Some(0));
    assert_eq!(cursors(&feed), vec![Some(1), Some(0)]);
}
