use candle::row::Row;

#[test]
fn full_render_replaces_tabs() {
    let row = Row::new("a\tb");
    assert_eq!(row.len(), 3);
    assert_eq!(row.render(0, row.len()), "a b");
}

#[test]
fn full_render_plain_text() {
    let row = Row::new("hello");
    assert_eq!(row.len(), 5);
    assert!(!row.is_empty());
    assert_eq!(row.render(0, 5), "hello");
}

#[test]
fn empty_row_renders_empty() {
    let row = Row::new("");
    assert_eq!(row.len(), 0);
    assert!(row.is_empty());
    assert_eq!(row.render(0, 0), "");
    assert_eq!(row.render(0, 80), "");
    assert_eq!(row.render(3, 7), "");
}

#[test]
fn out_of_range_window_is_clamped() {
    let row = Row::new("hello");
    assert_eq!(row.render(2, 100), "llo");
    assert_eq!(row.render(7, 9), "");
    assert_eq!(row.render(3, 2), "");
    assert_eq!(row.render(5, 5), "");
}

#[test]
fn columns_count_grapheme_clusters() {
    // 'a' + combining ring, 'e' + combining acute: two clusters, four chars.
    let row = Row::new("a\u{30a}e\u{301}");
    assert_eq!(row.len(), 2);
    assert!(!row.is_empty());
    assert_eq!(row.render(1, 2), "e\u{301}");
    assert_eq!(row.render(0, 1), "a\u{30a}");
}

#[test]
fn multi_codepoint_emoji_is_one_column() {
    // A regional-indicator pair is a single grapheme cluster.
    let row = Row::new("x\u{1f1f7}\u{1f1fa}y");
    assert_eq!(row.len(), 3);
    assert_eq!(row.render(1, 2), "\u{1f1f7}\u{1f1fa}");
    assert_eq!(row.render(2, 3), "y");
}

#[test]
fn tab_free_full_render_is_the_text_itself() {
    let text = "no tabs here, just text: a\u{30a} \u{1f1f7}\u{1f1fa}!";
    let row = Row::new(text);
    assert_eq!(row.render(0, row.len()), text);
    assert_eq!(row.render(0, usize::MAX), text);
}

#[test]
fn tab_between_clusters() {
    let row = Row::new("\tmid\t");
    assert_eq!(row.len(), 5);
    assert_eq!(row.render(0, 5), " mid ");
    assert_eq!(row.render(0, 1), " ");
    assert_eq!(row.render(1, 4), "mid");
}
