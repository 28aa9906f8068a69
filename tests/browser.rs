use anitui::anime_list::{AnimeItem, AnimeList, Status};
use anitui::app::{App, ImageUpdate};
use anitui::input::{InputMode, Key, KeyEvent, KeyKind};

fn press(code: Key) -> KeyEvent {
    KeyEvent { code, kind: KeyKind::Press }
}

fn item(name: &str) -> AnimeItem {
    AnimeItem {
        name: name.to_string(),
        image: None,
        description: String::new(),
        status: Status::Ongoing,
    }
}

fn abc() -> AnimeList {
    AnimeList { items: vec![item("A"), item("B"), item("C")], selected: None }
}

#[test]
fn next_cycles_back_after_full_traversal() {
    let mut l = abc();
    l.select_next();
    assert_eq!(l.selected(), Some(0));
    l.select_next();
    assert_eq!(l.selected(), Some(1));
    l.select_next();
    assert_eq!(l.selected(), Some(2));
    l.select_next();
    assert_eq!(l.selected(), Some(0));
}

#[test]
fn next_once_on_single_item_selects_it() {
    let mut l = AnimeList { items: vec![item("A")], selected: None };
    l.select_next();
    assert_eq!(l.selected(), Some(0));
    l.select_next();
    assert_eq!(l.selected(), Some(0));
}

#[test]
fn previous_from_first_wraps_to_last() {
    let mut l = abc();
    l.selected = Some(0);
    l.select_previous();
    assert_eq!(l.selected(), Some(2));
    l.select_previous();
    assert_eq!(l.selected(), Some(1));
}

#[test]
fn first_press_selects_first_either_way() {
    let mut l = abc();
    l.select_next();
    assert_eq!(l.selected(), Some(0));
    let mut m = abc();
    m.select_previous();
    assert_eq!(m.selected(), Some(0));
}

#[test]
fn navigation_on_empty_catalog_does_nothing() {
    let mut l = AnimeList { items: Vec::new(), selected: None };
    l.select_next();
    assert_eq!(l.selected(), None);
    l.select_previous();
    assert_eq!(l.selected(), None);
}

#[test]
fn append_keeps_selected_item() {
    let mut l = abc();
    l.selected = Some(1);
    l.add_item(item("D"));
    assert_eq!(l.selected(), Some(1));
    assert_eq!(l.items[1].name, "B");
    assert_eq!(l.items.len(), 4);
    assert_eq!(l.items[3].name, "D");
}

#[test]
fn down_down_up_ends_on_first() {
    let mut app = App::default();
    app.anime_list = abc();
    app.handle_key(press(Key::Down));
    assert_eq!(app.anime_list.selected(), Some(0));
    app.handle_key(press(Key::Down));
    assert_eq!(app.anime_list.selected(), Some(1));
    app.handle_key(press(Key::Up));
    assert_eq!(app.anime_list.selected(), Some(0));
}

#[test]
fn enter_commits_buffer_as_new_item() {
    let mut app = App::default();
    app.handle_key(press(Key::Char('i')));
    assert_eq!(app.mode, InputMode::Insert);
    for c in "Naruto".chars() {
        app.handle_key(press(Key::Char(c)));
    }
    assert_eq!(app.input, "Naruto");
    app.handle_key(press(Key::Enter));
    assert_eq!(app.anime_list.items.len(), 4);
    let added = &app.anime_list.items[3];
    assert_eq!(added.name, "Naruto");
    assert_eq!(added.description, "");
    assert_eq!(added.status, Status::Ongoing);
    assert!(added.image.is_none());
    assert_eq!(app.input, "");
    assert_eq!(app.mode, InputMode::Normal);
    assert!(!app.should_exit);
}

#[test]
fn escape_abandons_capture() {
    let mut app = App::default();
    app.handle_key(press(Key::Char('i')));
    app.handle_key(press(Key::Char('a')));
    app.handle_key(press(Key::Char('b')));
    app.handle_key(press(Key::Esc));
    assert_eq!(app.input, "");
    assert_eq!(app.mode, InputMode::Normal);
    assert_eq!(app.anime_list.items.len(), 3);
    assert!(!app.should_exit);
}

#[test]
fn non_press_events_change_nothing() {
    let mut app = App::default();
    for kind in [KeyKind::Release, KeyKind::Repeat] {
        app.handle_key(KeyEvent { code: Key::Down, kind });
        app.handle_key(KeyEvent { code: Key::Char('q'), kind });
        app.handle_key(KeyEvent { code: Key::Char('i'), kind });
    }
    assert_eq!(app.anime_list.selected(), None);
    assert!(!app.should_exit);
    assert_eq!(app.mode, InputMode::Normal);
    app.handle_key(press(Key::Char('i')));
    app.handle_key(KeyEvent { code: Key::Char('x'), kind: KeyKind::Release });
    app.handle_key(KeyEvent { code: Key::Enter, kind: KeyKind::Repeat });
    app.handle_key(KeyEvent { code: Key::Esc, kind: KeyKind::Release });
    assert_eq!(app.input, "");
    assert_eq!(app.mode, InputMode::Insert);
    assert_eq!(app.anime_list.items.len(), 3);
}

#[test]
fn backspace_removes_last_and_is_noop_when_empty() {
    let mut app = App::default();
    app.handle_key(press(Key::Char('i')));
    app.handle_key(press(Key::Backspace));
    assert_eq!(app.input, "");
    app.handle_key(press(Key::Char('a')));
    app.handle_key(press(Key::Char('b')));
    app.handle_key(press(Key::Backspace));
    assert_eq!(app.input, "a");
    assert_eq!(app.mode, InputMode::Insert);
}

#[test]
fn arrows_are_ignored_while_capturing() {
    let mut app = App::default();
    app.handle_key(press(Key::Char('i')));
    app.handle_key(press(Key::Down));
    app.handle_key(press(Key::Char('q')));
    assert_eq!(app.anime_list.selected(), None);
    assert_eq!(app.mode, InputMode::Insert);
    assert_eq!(app.input, "q");
    assert!(!app.should_exit);
}

#[test]
fn quit_keys_request_exit() {
    let mut app = App::default();
    app.handle_key(press(Key::Char('q')));
    assert!(app.should_exit);
    let mut other = App::default();
    other.handle_key(press(Key::Esc));
    assert!(other.should_exit);
    let mut idle = App::default();
    idle.handle_key(press(Key::Char('x')));
    idle.handle_key(press(Key::Other));
    assert!(!idle.should_exit);
    assert_eq!(idle.mode, InputMode::Normal);
}

#[test]
fn rebind_only_when_selection_moves() {
    let mut app = App::default();
    let u = app.step(press(Key::Down));
    assert!(matches!(u, ImageUpdate::Bind(ref p) if p == "./src/assets/47347.jpg"));
    let u = app.step(press(Key::Char('x')));
    assert!(matches!(u, ImageUpdate::Keep));
    let u = app.step(KeyEvent { code: Key::Down, kind: KeyKind::Release });
    assert!(matches!(u, ImageUpdate::Keep));
    let u = app.step(press(Key::Up));
    assert!(matches!(u, ImageUpdate::Bind(ref p) if p == "./src/assets/138851.jpg"));
}

#[test]
fn rebind_clears_for_item_without_picture() {
    let mut app = App::default();
    app.anime_list = abc();
    let u = app.step(press(Key::Down));
    assert!(matches!(u, ImageUpdate::Clear));
    assert!(matches!(app.update_image(), ImageUpdate::Clear));
}

#[test]
fn nothing_selected_means_no_picture() {
    let app = App::default();
    assert!(matches!(app.update_image(), ImageUpdate::Clear));
    assert!(app.anime_list.selected_image().is_none());
}

#[test]
fn seed_catalog_contents() {
    let l = AnimeList::default();
    assert_eq!(l.selected(), None);
    assert_eq!(l.items.len(), 3);
    assert_eq!(l.items[0].name, "Attack on Titan");
    assert_eq!(l.items[0].status, Status::Completed);
    assert_eq!(l.items[1].name, "One Piece");
    assert_eq!(l.items[1].description, "Pirate adventures to find the ultimate treasure");
    assert_eq!(l.items[1].status, Status::Ongoing);
    assert_eq!(l.items[2].name, "Naruto");
    assert_eq!(l.items[2].image.as_deref(), Some("./src/assets/138851.jpg"));
}

#[test]
fn list_labels_show_name_and_status() {
    let l = AnimeList::default();
    assert_eq!(
        l.list_labels(),
        vec![
            "Attack on Titan - Completed".to_string(),
            "One Piece - Ongoing".to_string(),
            "Naruto - Completed".to_string(),
        ]
    );
}

#[test]
fn details_text_for_selection() {
    let mut l = AnimeList::default();
    assert_eq!(l.details_text(), "No item selected");
    l.select_next();
    l.select_next();
    assert_eq!(
        l.details_text(),
        "Title: One Piece\nDescription: Pirate adventures to find the ultimate treasure\nStatus: Ongoing"
    );
    assert_eq!(l.selected_image().map(|s| s.as_str()), Some("./src/assets/111305.jpg"));
}

#[test]
fn input_title_names_mode() {
    let mut app = App::default();
    assert_eq!(app.input_title(), "Search [NORMAL]");
    app.handle_key(press(Key::Char('i')));
    assert_eq!(app.input_title(), "Search [INSERT]");
    assert_eq!(Status::Ongoing.label(), "Ongoing");
    assert_eq!(InputMode::Insert.indicator(), "INSERT");
}
