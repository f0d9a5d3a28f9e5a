use file_browser::browser::App;
use file_browser::keys::{command_for_key, Command};
use file_browser::preview::{entry_preview, text_preview, EntryContent};

fn names(list: &[&str]) -> Vec<String> {
    list.iter().map(|s| s.to_string()).collect()
}

fn numbered_lines(n: usize) -> String {
    let mut text = String::new();
    for i in 1..=n {
        text.push_str(&format!("line {}\n", i));
    }
    text
}

#[test]
fn new_selects_first_entry_with_empty_preview() {
    let app = App::new("/d".to_string(), names(&["/d/a", "/d/b"]));
    assert_eq!(app.current_path, "/d");
    assert_eq!(app.entries, names(&["/d/a", "/d/b"]));
    assert_eq!(app.selected, 0);
    assert_eq!(app.preview, "");
}

#[test]
fn moves_saturate_at_both_ends() {
    let mut app = App::new("/d".to_string(), names(&["/d/a", "/d/b", "/d/c"]));
    app.move_up();
    assert_eq!(app.selected, 0);
    app.move_down();
    app.move_down();
    assert_eq!(app.selected, 2);
    app.move_down();
    assert_eq!(app.selected, 2);
    app.move_up();
    assert_eq!(app.selected, 1);
}

#[test]
fn long_run_of_moves_stays_in_range() {
    let mut app = App::new("/d".to_string(), names(&["/d/a", "/d/b", "/d/c", "/d/e"]));
    for step in 0..50 {
        if step % 3 == 0 {
            app.move_up();
        } else {
            app.move_down();
        }
        assert!(app.selected < 4);
    }
    assert_eq!(app.selected, 3);
}

#[test]
fn move_down_on_empty_list_does_nothing() {
    let mut app = App::new("/d".to_string(), Vec::new());
    app.move_down();
    assert_eq!(app.selected, 0);
    app.move_up();
    assert_eq!(app.selected, 0);
    assert!(app.selected_entry().is_none());
}

#[test]
fn single_entry_list_keeps_selection() {
    let mut app = App::new("/d".to_string(), names(&["/d/a"]));
    app.move_down();
    assert_eq!(app.selected, 0);
    assert_eq!(app.selected_entry(), Some(&"/d/a".to_string()));
}

#[test]
fn entering_a_file_is_refused() {
    let app = App::new("/d".to_string(), names(&["/d/a.txt", "/d/sub"]));
    assert_eq!(app.enter_target(false), None);
    assert_eq!(app.current_path, "/d");
    assert_eq!(app.selected, 0);
}

#[test]
fn entering_with_no_entries_is_refused() {
    let app = App::new("/d".to_string(), Vec::new());
    assert_eq!(app.enter_target(true), None);
}

#[test]
fn entering_a_directory_targets_it() {
    let mut app = App::new("/d".to_string(), names(&["/d/a.txt", "/d/sub"]));
    app.move_down();
    assert_eq!(app.enter_target(true), Some("/d/sub".to_string()));
}

#[test]
fn going_up_from_root_is_refused() {
    let app = App::new("/".to_string(), names(&["/etc"]));
    assert_eq!(app.parent_target(), None);
}

#[test]
fn going_up_targets_the_parent() {
    let app = App::new("/d/sub/deep".to_string(), Vec::new());
    assert_eq!(app.parent_target(), Some("/d/sub".to_string()));
    let top = App::new("/d".to_string(), Vec::new());
    assert_eq!(top.parent_target(), Some("/".to_string()));
}

#[test]
fn change_directory_resets_selection() {
    let mut app = App::new("/d".to_string(), names(&["/d/a", "/d/b", "/d/c"]));
    app.move_down();
    app.move_down();
    app.change_directory("/e".to_string(), names(&["/e/x"]));
    assert_eq!(app.current_path, "/e");
    assert_eq!(app.entries, names(&["/e/x"]));
    assert_eq!(app.selected, 0);
}

#[test]
fn down_enter_up_returns_to_start() {
    let mut app = App::new("/d".to_string(), names(&["/d/a.txt", "/d/sub"]));
    app.move_down();
    let target = app.enter_target(true).unwrap();
    app.change_directory(target, names(&["/d/sub/inner.txt"]));
    assert_eq!(app.current_path, "/d/sub");
    assert_eq!(app.selected, 0);
    let parent = app.parent_target().unwrap();
    app.change_directory(parent, names(&["/d/sub", "/d/a.txt"]));
    assert_eq!(app.current_path, "/d");
    assert_eq!(app.selected, 0);
    assert_eq!(app.entries, names(&["/d/sub", "/d/a.txt"]));
}

#[test]
fn preview_of_long_file_shows_first_twenty_lines() {
    let text = numbered_lines(25);
    let expected: Vec<String> = (1..=20).map(|i| format!("line {}", i)).collect();
    assert_eq!(text_preview(&text), expected.join("\n"));
}

#[test]
fn preview_of_exactly_twenty_lines_shows_all() {
    let text = numbered_lines(20);
    let expected: Vec<String> = (1..=20).map(|i| format!("line {}", i)).collect();
    assert_eq!(text_preview(&text), expected.join("\n"));
}

#[test]
fn preview_of_short_file_shows_all_lines() {
    assert_eq!(text_preview("one\ntwo\nthree"), "one\ntwo\nthree");
    assert_eq!(text_preview("one\ntwo\n"), "one\ntwo");
}

#[test]
fn preview_drops_carriage_returns_before_newlines() {
    assert_eq!(text_preview("a\r\nb\r\n"), "a\nb");
    assert_eq!(text_preview("a\r\nb\r"), "a\nb\r");
}

#[test]
fn preview_keeps_empty_lines() {
    assert_eq!(text_preview("\n\nx\n"), "\n\nx");
    assert_eq!(text_preview(""), "");
    assert_eq!(text_preview("\n"), "");
}

#[test]
fn preview_keeps_non_ascii_text() {
    assert_eq!(text_preview("größe\nüber"), "größe\nüber");
}

#[test]
fn preview_of_entries() {
    assert_eq!(
        entry_preview(&EntryContent::File(None)),
        "Unable to read file content."
    );
    assert_eq!(
        entry_preview(&EntryContent::Directory),
        "Directory selected. Press 'l' to enter."
    );
    assert_eq!(entry_preview(&EntryContent::Other), "");
    assert_eq!(
        entry_preview(&EntryContent::File(Some("x\ny".to_string()))),
        "x\ny"
    );
}

#[test]
fn update_preview_follows_selection() {
    let mut app = App::new("/d".to_string(), names(&["/d/sub"]));
    app.update_preview(&EntryContent::Directory);
    assert_eq!(app.preview, "Directory selected. Press 'l' to enter.");
    let mut empty = App::new("/d".to_string(), Vec::new());
    empty.update_preview(&EntryContent::Directory);
    assert_eq!(empty.preview, "");
}

#[test]
fn keys_map_to_commands() {
    assert_eq!(command_for_key('q'), Command::Quit);
    assert_eq!(command_for_key('j'), Command::Down);
    assert_eq!(command_for_key('k'), Command::Up);
    assert_eq!(command_for_key('l'), Command::Enter);
    assert_eq!(command_for_key('h'), Command::Back);
    assert_eq!(command_for_key('x'), Command::Ignore);
    assert_eq!(command_for_key('Q'), Command::Ignore);
}

#[test]
fn labels_mark_directories() {
    assert_eq!(App::entry_label("sub", true), "/sub");
    assert_eq!(App::entry_label("a.txt", false), "a.txt");
}
