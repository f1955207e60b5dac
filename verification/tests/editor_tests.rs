use riko::editor::{Editor, KeyAction, SaveOutcome};
use riko::key::EditorKey;
use riko::position::Position;

fn editor_with(cols: usize, lines: usize, text: &[&[u8]]) -> Editor {
    let mut e = Editor::new(cols, lines);
    e.open_file("t.txt".to_string(), text.iter().map(|l| l.to_vec()).collect());
    e
}

fn press(e: &mut Editor, key: EditorKey) -> KeyAction {
    assert!(e.can_process_keypress(&key));
    e.process_keypress(&key)
}

fn arrow(e: &mut Editor, key: EditorKey) {
    assert!(e.can_move_cursor(&key));
    e.move_cursor(&key);
}

fn chars(e: &Editor, i: usize) -> Vec<u8> {
    e.row(i).chars.clone()
}

#[test]
fn new_editor_state() {
    let e = Editor::new(80, 24);
    assert_eq!(e.window_size(), Position::new(80, 22));
    assert_eq!(e.cursor_position(), Position::new(0, 0));
    assert_eq!(e.render_cursor_position(), Position::new(0, 0));
    assert_eq!(e.offset(), Position::new(0, 0));
    assert_eq!(e.file_name(), "[NO NAME]");
    assert_eq!(e.status_message(), "");
    assert!(!e.is_dirty());
    assert_eq!(e.row_count(), 0);
    assert!(e.key_history().is_empty());
}

#[test]
fn open_file_appends_rendered_rows_clean() {
    let e = editor_with(80, 24, &[b"abc", b"\tx"]);
    assert_eq!(e.row_count(), 2);
    assert_eq!(chars(&e, 0), b"abc".to_vec());
    assert_eq!(e.row(1).render, b"    x\0".to_vec());
    assert_eq!(e.file_name(), "t.txt");
    assert!(!e.is_dirty());
}

#[test]
fn set_status_message_replaces_message() {
    let mut e = Editor::new(80, 24);
    e.set_status_message("HELP".to_string());
    assert_eq!(e.status_message(), "HELP");
}

#[test]
fn typing_inserts_before_cursor() {
    let mut e = editor_with(80, 24, &[b"abc"]);
    assert_eq!(press(&mut e, EditorKey::Char(b'x')), KeyAction::Continue);
    assert_eq!(chars(&e, 0), b"xabc".to_vec());
    assert_eq!(e.row(0).render, b"xabc\0".to_vec());
    assert_eq!(e.cursor_position(), Position::new(1, 0));
    assert_eq!(e.render_cursor_position(), Position::new(1, 0));
    assert!(e.is_dirty());
    assert_eq!(e.key_history(), &vec![EditorKey::Char(b'x')]);
}

#[test]
fn enter_inside_row_splits_it() {
    let mut e = editor_with(80, 24, &[b"abc"]);
    arrow(&mut e, EditorKey::ArrowRight);
    press(&mut e, EditorKey::Enter);
    assert_eq!(e.row_count(), 2);
    assert_eq!(chars(&e, 0), b"a".to_vec());
    assert_eq!(e.row(0).render, b"a\0".to_vec());
    assert_eq!(chars(&e, 1), b"bc".to_vec());
    assert_eq!(e.row(1).render, b"bc\0".to_vec());
    assert_eq!(e.cursor_position(), Position::new(0, 1));
    assert!(e.is_dirty());
}

#[test]
fn enter_at_end_adds_empty_row() {
    let mut e = editor_with(80, 24, &[b"ab", b"z"]);
    arrow(&mut e, EditorKey::ArrowRight);
    arrow(&mut e, EditorKey::ArrowRight);
    press(&mut e, EditorKey::Enter);
    assert_eq!(e.row_count(), 3);
    assert_eq!(chars(&e, 0), b"ab".to_vec());
    assert!(chars(&e, 1).is_empty());
    assert_eq!(e.row(1).render, vec![0u8]);
    assert_eq!(chars(&e, 2), b"z".to_vec());
    assert_eq!(e.cursor_position(), Position::new(0, 1));
}

#[test]
fn backspace_inside_row_deletes_previous_byte() {
    let mut e = editor_with(80, 24, &[b"a\tc"]);
    arrow(&mut e, EditorKey::ArrowRight);
    arrow(&mut e, EditorKey::ArrowRight);
    arrow(&mut e, EditorKey::ArrowRight);
    press(&mut e, EditorKey::BackSpace);
    assert_eq!(chars(&e, 0), b"a\t".to_vec());
    assert_eq!(e.cursor_position(), Position::new(2, 0));
    assert_eq!(e.render_cursor_position().x, 5);
    assert!(e.is_dirty());
}

#[test]
fn backspace_undoes_typing() {
    let mut e = editor_with(80, 24, &[b"hello"]);
    arrow(&mut e, EditorKey::ArrowRight);
    arrow(&mut e, EditorKey::ArrowRight);
    press(&mut e, EditorKey::Char(b'!'));
    press(&mut e, EditorKey::BackSpace);
    assert_eq!(chars(&e, 0), b"hello".to_vec());
    assert_eq!(e.row(0).render, b"hello\0".to_vec());
    assert_eq!(e.cursor_position(), Position::new(2, 0));
}

#[test]
fn backspace_at_row_start_joins_rows() {
    let mut e = editor_with(80, 24, &[b"abc", b"de"]);
    arrow(&mut e, EditorKey::ArrowDown);
    press(&mut e, EditorKey::BackSpace);
    assert_eq!(e.row_count(), 1);
    // The last byte of the row above is dropped before joining.
    assert_eq!(chars(&e, 0), b"abde".to_vec());
    assert_eq!(e.row(0).render, b"abde\0".to_vec());
    assert_eq!(e.cursor_position(), Position::new(3, 0));
}

#[test]
fn backspace_at_start_of_text_does_nothing() {
    let mut e = editor_with(80, 24, &[b"abc"]);
    assert_eq!(press(&mut e, EditorKey::BackSpace), KeyAction::Continue);
    assert_eq!(chars(&e, 0), b"abc".to_vec());
    assert!(!e.is_dirty());
    assert_eq!(e.key_history(), &vec![EditorKey::BackSpace]);
}

#[test]
fn quit_when_clean() {
    let mut e = editor_with(80, 24, &[b"abc"]);
    assert_eq!(press(&mut e, EditorKey::Ctrl(b'Q')), KeyAction::Quit);
}

#[test]
fn quit_with_changes_needs_two_presses() {
    let mut e = editor_with(80, 24, &[b"abc"]);
    press(&mut e, EditorKey::Char(b'x'));
    assert_eq!(press(&mut e, EditorKey::Ctrl(b'Q')), KeyAction::Continue);
    assert_eq!(
        e.status_message(),
        "WARNING!! File has unsaved changes. Press Ctrl-Q again to quit."
    );
    assert_eq!(press(&mut e, EditorKey::Ctrl(b'Q')), KeyAction::Quit);
}

#[test]
fn quit_confirmation_must_be_consecutive() {
    let mut e = editor_with(80, 24, &[b"abc"]);
    press(&mut e, EditorKey::Char(b'x'));
    assert_eq!(press(&mut e, EditorKey::Ctrl(b'Q')), KeyAction::Continue);
    press(&mut e, EditorKey::ArrowDown);
    assert_eq!(press(&mut e, EditorKey::Ctrl(b'Q')), KeyAction::Continue);
}

#[test]
fn null_key_is_not_recorded() {
    let mut e = editor_with(80, 24, &[b"abc"]);
    assert_eq!(press(&mut e, EditorKey::Null), KeyAction::Continue);
    assert!(e.key_history().is_empty());
    press(&mut e, EditorKey::Ctrl(b'L'));
    assert_eq!(e.key_history(), &vec![EditorKey::Ctrl(b'L')]);
}

#[test]
fn save_key_asks_for_save() {
    let mut e = editor_with(80, 24, &[b"abc"]);
    assert_eq!(press(&mut e, EditorKey::Ctrl(b'S')), KeyAction::Save);
    assert_eq!(e.key_history(), &vec![EditorKey::Ctrl(b'S')]);
}

#[test]
fn save_protocol_terminates_rows_and_cleans() {
    let mut e = editor_with(80, 24, &[b"ab", b"c"]);
    press(&mut e, EditorKey::Char(b'x'));
    assert_eq!(e.save_file_name(), Some("t.txt".to_string()));
    assert_eq!(e.prepare_row_for_save(0), b"xab\n".to_vec());
    assert_eq!(e.prepare_row_for_save(1), b"c\n".to_vec());
    assert_eq!(chars(&e, 0), b"xab\n".to_vec());
    assert_eq!(e.row(0).render, b"xab\0".to_vec());
    e.finish_save(SaveOutcome::Written);
    assert!(!e.is_dirty());
    assert_eq!(e.status_message(), "Written to disk");
}

#[test]
fn failed_save_keeps_changes_marked() {
    let mut e = editor_with(80, 24, &[b"ab"]);
    press(&mut e, EditorKey::Char(b'x'));
    e.finish_save(SaveOutcome::Failed);
    assert!(e.is_dirty());
    assert_eq!(e.status_message(), "Can not save! I/O Error");
}

#[test]
fn save_without_name_writes_nothing() {
    let mut e = Editor::new(80, 24);
    e.open_file(String::new(), vec![b"ab".to_vec()]);
    press(&mut e, EditorKey::Char(b'x'));
    assert_eq!(e.save_file_name(), None);
    e.finish_save(SaveOutcome::NothingToWrite);
    assert!(e.is_dirty());
    assert_eq!(e.status_message(), "Written to disk");
}

#[test]
fn page_keys_move_by_window() {
    let mut e = editor_with(80, 5, &[b"a", b"b", b"c", b"d", b"e"]);
    press(&mut e, EditorKey::PageDown);
    assert_eq!(e.cursor_position(), Position::new(0, 2));
    press(&mut e, EditorKey::PageUp);
    assert_eq!(e.cursor_position(), Position::new(0, 0));
    let mut short = editor_with(80, 5, &[b"a"]);
    press(&mut short, EditorKey::PageDown);
    assert_eq!(short.cursor_position(), Position::new(0, 1));
}

#[test]
fn arrows_move_through_text() {
    let mut e = editor_with(80, 24, &[b"abc", b"de"]);
    arrow(&mut e, EditorKey::ArrowLeft);
    assert_eq!(e.cursor_position(), Position::new(0, 0));
    for _ in 0..3 {
        arrow(&mut e, EditorKey::ArrowRight);
    }
    assert_eq!(e.cursor_position(), Position::new(3, 0));
    arrow(&mut e, EditorKey::ArrowRight);
    assert_eq!(e.cursor_position(), Position::new(0, 1));
    arrow(&mut e, EditorKey::ArrowLeft);
    assert_eq!(e.cursor_position(), Position::new(3, 0));
    arrow(&mut e, EditorKey::ArrowDown);
    assert_eq!(e.cursor_position(), Position::new(2, 1));
    arrow(&mut e, EditorKey::ArrowRight);
    assert_eq!(e.cursor_position(), Position::new(2, 1));
    arrow(&mut e, EditorKey::ArrowDown);
    assert_eq!(e.cursor_position(), Position::new(2, 1));
    arrow(&mut e, EditorKey::ArrowUp);
    assert_eq!(e.cursor_position(), Position::new(2, 0));
    arrow(&mut e, EditorKey::Home);
    assert_eq!(e.cursor_position(), Position::new(2, 0));
}

#[test]
fn arrow_up_clamps_to_shorter_row() {
    let mut e = editor_with(80, 24, &[b"a", b"abcd"]);
    arrow(&mut e, EditorKey::ArrowDown);
    for _ in 0..4 {
        arrow(&mut e, EditorKey::ArrowRight);
    }
    assert_eq!(e.cursor_position(), Position::new(4, 1));
    arrow(&mut e, EditorKey::ArrowUp);
    assert_eq!(e.cursor_position(), Position::new(1, 0));
}

fn status(text: &str, width: usize, message: &str) -> String {
    format!(
        "\x1b[48;5;245m{}{}\x1b[m\r\n\x1b[K{}",
        text,
        " ".repeat(width - text.len()),
        message
    )
}

#[test]
fn refresh_screen_draws_exact_frame() {
    let mut e = Editor::new(40, 5);
    e.open_file("f".to_string(), vec![b"ab".to_vec()]);
    assert!(e.can_refresh_screen());
    let out = e.refresh_screen();
    let tilde = "\x1b[K\x1b[48;5;236m~\x1b[m\r\n";
    let expected = format!(
        "\x1b[?25l\x1b[H\x1b[Kab\r\n{}{}{}\x1b[1;1H\x1b[?25h",
        tilde,
        tilde,
        status("f: (cx0, cy0): (rcx0, rcy0): lc:1", 40, "")
    );
    assert_eq!(String::from_utf8(out).unwrap(), expected);
}

#[test]
fn refresh_screen_shows_welcome_on_empty_text() {
    let mut e = Editor::new(50, 5);
    e.set_status_message("hi".to_string());
    assert!(e.can_refresh_screen());
    let out = e.refresh_screen();
    let tilde = "\x1b[K\x1b[48;5;236m~\x1b[m\r\n";
    let expected = format!(
        "\x1b[?25l\x1b[H{}\x1b[K\x1b[48;5;236m~\x1b[m{}riko editor -- version 0.0.1\r\n{}{}\x1b[1;1H\x1b[?25h",
        tilde,
        " ".repeat(11),
        tilde,
        status("[NO NAME]: (cx0, cy0): (rcx0, rcy0): lc:0", 50, "hi")
    );
    assert_eq!(String::from_utf8(out).unwrap(), expected);
}

#[test]
fn refresh_screen_marks_modified_and_tracks_tabs() {
    let mut e = Editor::new(60, 4);
    e.open_file("g".to_string(), vec![b"\tx".to_vec()]);
    arrow(&mut e, EditorKey::ArrowRight);
    press(&mut e, EditorKey::Char(b'y'));
    assert_eq!(e.render_cursor_position(), Position::new(1, 0));
    let out = e.refresh_screen();
    assert_eq!(e.render_cursor_position(), Position::new(5, 0));
    let text = String::from_utf8(out).unwrap();
    assert!(text.contains("g(modified): (cx2, cy0): (rcx5, rcy0): lc:1"));
    assert!(text.contains("\x1b[K    yx\r\n"));
    assert!(text.ends_with("\x1b[1;6H\x1b[?25h"));
}

#[test]
fn refresh_screen_scrolls_to_cursor() {
    let mut e = editor_with(40, 4, &[b"a", b"b", b"c", b"d", b"e"]);
    for _ in 0..3 {
        arrow(&mut e, EditorKey::ArrowDown);
    }
    e.refresh_screen();
    assert_eq!(e.offset(), Position::new(0, 2));
    let c = e.cursor_position();
    assert!(e.offset().y <= c.y && c.y < e.offset().y + e.window_size().y);
    arrow(&mut e, EditorKey::ArrowUp);
    arrow(&mut e, EditorKey::ArrowUp);
    arrow(&mut e, EditorKey::ArrowUp);
    e.refresh_screen();
    assert_eq!(e.offset(), Position::new(0, 0));
}

#[test]
fn refresh_screen_scrolls_horizontally() {
    let line = "0123456789".repeat(6);
    let mut e = editor_with(40, 4, &[line.as_bytes()]);
    for _ in 0..50 {
        arrow(&mut e, EditorKey::ArrowRight);
    }
    let out = e.refresh_screen();
    assert_eq!(e.offset(), Position::new(11, 0));
    let text = String::from_utf8(out).unwrap();
    assert!(text.contains(&format!("\x1b[K{}\r\n", &line[11..50])));
}

#[test]
fn draw_rows_appends_to_next_frame() {
    let mut e = editor_with(40, 3, &[b"ab"]);
    e.draw_rows();
    let out = e.refresh_screen();
    assert!(out.starts_with(b"\x1b[Kab\r\n\x1b[?25l\x1b[H"));
    let again = e.refresh_screen();
    assert!(again.starts_with(b"\x1b[?25l\x1b[H"));
}

#[test]
fn narrow_empty_window_cannot_refresh() {
    let e = Editor::new(10, 5);
    assert!(!e.can_refresh_screen());
    let status_too_long = editor_with(30, 5, &[b"x"]);
    assert!(!status_too_long.can_refresh_screen());
}

#[test]
fn keypress_guards_follow_panicking_inputs() {
    let e = Editor::new(80, 24);
    assert!(!e.can_process_keypress(&EditorKey::Char(b'a')));
    assert!(!e.can_process_keypress(&EditorKey::Enter));
    assert!(!e.can_process_keypress(&EditorKey::End));
    assert!(e.can_process_keypress(&EditorKey::BackSpace));
    assert!(e.can_process_keypress(&EditorKey::Ctrl(b'Q')));
    let tiny = Editor::new(80, 2);
    assert!(!tiny.can_process_keypress(&EditorKey::PageDown));
    let f = editor_with(80, 24, &[b"abc"]);
    assert!(f.can_process_keypress(&EditorKey::End));
}

#[test]
fn cursor_can_end_up_below_the_text() {
    let mut e = editor_with(60, 3, &[b"a", b"b", b"c", b"d"]);
    for _ in 0..3 {
        arrow(&mut e, EditorKey::ArrowDown);
    }
    e.refresh_screen();
    assert_eq!(e.offset(), Position::new(0, 3));
    arrow(&mut e, EditorKey::ArrowUp);
    arrow(&mut e, EditorKey::ArrowUp);
    press(&mut e, EditorKey::BackSpace);
    arrow(&mut e, EditorKey::ArrowDown);
    arrow(&mut e, EditorKey::ArrowLeft);
    press(&mut e, EditorKey::BackSpace);
    assert_eq!(e.row_count(), 2);
    press(&mut e, EditorKey::PageUp);
    assert_eq!(e.cursor_position(), Position::new(1, 3));
    assert!(!e.can_move_cursor(&EditorKey::ArrowRight));
    assert!(!e.can_process_keypress(&EditorKey::Char(b'z')));
    assert!(e.can_refresh_screen());
}

#[test]
fn whole_save_hands_out_every_line_in_order() {
    let mut e = editor_with(80, 24, &[b"one", b"", b"three"]);
    press(&mut e, EditorKey::Char(b'x'));
    let mut written: Vec<u8> = Vec::new();
    for i in 0..e.row_count() {
        written.extend(e.prepare_row_for_save(i));
    }
    e.finish_save(SaveOutcome::Written);
    assert_eq!(written, b"xone\n\nthree\n".to_vec());
    assert_eq!(chars(&e, 1), b"\n".to_vec());
    assert_eq!(e.row(2).render, b"three\0".to_vec());
    assert!(!e.is_dirty());
}
