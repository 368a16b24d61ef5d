use candle::document::Document;
use candle::editor::Editor;
use candle::editor::Key;
use candle::geometry::Position;
use candle::geometry::Size;
use candle::row::Row;

fn doc_from(lines: &[&str]) -> Document {
    let rows: Vec<Row> = lines.iter().map(|line| Row::new(line)).collect();
    Document::from_rows(rows, None)
}

#[test]
fn right_at_end_of_row_wraps_to_next_row() {
    let doc = doc_from(&["hello", "", "0123456789"]);
    let mut ed = Editor::new(doc, Size::usable(80, 24));
    ed.cursor_position = Position { x: 5, y: 0 };
    ed.process_key(Key::Right);
    assert_eq!(ed.cursor_position, Position { x: 0, y: 1 });
}

#[test]
fn left_at_origin_saturates() {
    let doc = doc_from(&["hello", "", "0123456789"]);
    let mut ed = Editor::new(doc, Size::usable(80, 24));
    ed.process_key(Key::Left);
    assert_eq!(ed.cursor_position, Position { x: 0, y: 0 });
}

#[test]
fn left_at_start_of_row_wraps_to_end_of_previous() {
    let doc = doc_from(&["hello", "", "0123456789"]);
    let mut ed = Editor::new(doc, Size::usable(80, 24));
    ed.cursor_position = Position { x: 0, y: 1 };
    ed.process_key(Key::Left);
    assert_eq!(ed.cursor_position, Position { x: 5, y: 0 });
}

#[test]
fn right_within_row_advances_one_column() {
    let doc = doc_from(&["hello"]);
    let mut ed = Editor::new(doc, Size::usable(80, 24));
    ed.process_key(Key::Right);
    assert_eq!(ed.cursor_position, Position { x: 1, y: 0 });
}

#[test]
fn down_moves_at_most_one_past_last_row() {
    let doc = doc_from(&["a", "b", "c"]);
    let mut ed = Editor::new(doc, Size::usable(80, 24));
    for _ in 0..5 {
        ed.process_key(Key::Down);
    }
    assert_eq!(ed.cursor_position, Position { x: 0, y: 3 });
}

#[test]
fn up_and_down_clamp_column_to_row_length() {
    let doc = doc_from(&["hello", "", "0123456789"]);
    let mut ed = Editor::new(doc, Size::usable(80, 24));
    ed.cursor_position = Position { x: 5, y: 0 };
    ed.process_key(Key::Down);
    assert_eq!(ed.cursor_position, Position { x: 0, y: 1 });
    ed.process_key(Key::Down);
    assert_eq!(ed.cursor_position, Position { x: 0, y: 2 });
    ed.process_key(Key::End);
    assert_eq!(ed.cursor_position, Position { x: 10, y: 2 });
    ed.process_key(Key::Up);
    assert_eq!(ed.cursor_position, Position { x: 0, y: 1 });
}

#[test]
fn home_and_end_jump_within_row() {
    let doc = doc_from(&["0123456789"]);
    let mut ed = Editor::new(doc, Size::usable(80, 24));
    ed.process_key(Key::End);
    assert_eq!(ed.cursor_position, Position { x: 10, y: 0 });
    ed.process_key(Key::Home);
    assert_eq!(ed.cursor_position, Position { x: 0, y: 0 });
}

#[test]
fn end_past_last_row_clamps_to_zero() {
    let doc = doc_from(&["abc"]);
    let mut ed = Editor::new(doc, Size::usable(80, 24));
    ed.process_key(Key::Down);
    ed.process_key(Key::End);
    assert_eq!(ed.cursor_position, Position { x: 0, y: 1 });
}

#[test]
fn page_down_and_page_up_move_by_usable_height() {
    let lines: Vec<String> = (0..40).map(|i| format!("line {}", i)).collect();
    let refs: Vec<&str> = lines.iter().map(|s| s.as_str()).collect();
    let doc = doc_from(&refs);
    let mut ed = Editor::new(doc, Size::usable(80, 24));
    ed.process_key(Key::PageDown);
    assert_eq!(ed.cursor_position.y, 22);
    ed.process_key(Key::PageDown);
    assert_eq!(ed.cursor_position.y, 40);
    ed.process_key(Key::PageUp);
    assert_eq!(ed.cursor_position.y, 18);
    ed.process_key(Key::PageUp);
    assert_eq!(ed.cursor_position.y, 0);
}

#[test]
fn repeated_down_scrolls_minimally() {
    let lines: Vec<String> = (0..40).map(|i| format!("line {}", i)).collect();
    let refs: Vec<&str> = lines.iter().map(|s| s.as_str()).collect();
    let doc = doc_from(&refs);
    let mut ed = Editor::new(doc, Size::usable(80, 24));
    for _ in 0..30 {
        ed.process_key(Key::Down);
    }
    assert_eq!(ed.cursor_position.y, 30);
    assert_eq!(ed.offset.y, 30 - 22 + 1);
}

#[test]
fn horizontal_scroll_follows_cursor() {
    let long: String = "x".repeat(100);
    let doc = doc_from(&[long.as_str()]);
    let mut ed = Editor::new(doc, Size::usable(80, 24));
    ed.process_key(Key::End);
    assert_eq!(ed.cursor_position, Position { x: 100, y: 0 });
    assert_eq!(ed.offset.x, 100 - 80 + 1);
    let screen = ed.cursor_screen_position();
    assert_eq!(screen, Position { x: 79, y: 0 });
    ed.process_key(Key::Home);
    assert_eq!(ed.offset.x, 0);
    assert_eq!(ed.cursor_screen_position(), Position { x: 0, y: 0 });
}

#[test]
fn quit_chord_raises_flag_and_stops_cursor() {
    let doc = doc_from(&["hello"]);
    let mut ed = Editor::new(doc, Size::usable(80, 24));
    assert!(!ed.should_quit);
    ed.process_key(Key::Char('q'));
    assert!(!ed.should_quit);
    ed.process_key(Key::Ctrl('x'));
    assert!(!ed.should_quit);
    ed.process_key(Key::Ctrl('q'));
    assert!(ed.should_quit);
    assert_eq!(ed.cursor_position, Position { x: 0, y: 0 });
}

#[test]
fn unrecognised_keys_are_no_ops() {
    let doc = doc_from(&["hello"]);
    let mut ed = Editor::new(doc, Size::usable(80, 24));
    ed.process_key(Key::Char('z'));
    ed.process_key(Key::Other);
    assert_eq!(ed.cursor_position, Position { x: 0, y: 0 });
    assert_eq!(ed.offset, Position { x: 0, y: 0 });
    assert!(!ed.should_quit);
}

#[test]
fn navigation_in_empty_document_stays_at_origin_or_sentinel() {
    let doc = Document::default();
    let mut ed = Editor::new(doc, Size::usable(80, 24));
    ed.process_key(Key::Right);
    assert_eq!(ed.cursor_position, Position { x: 0, y: 0 });
    ed.process_key(Key::Down);
    assert_eq!(ed.cursor_position, Position { x: 0, y: 0 });
    ed.process_key(Key::End);
    assert_eq!(ed.cursor_position, Position { x: 0, y: 0 });
}
