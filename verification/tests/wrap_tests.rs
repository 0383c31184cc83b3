use tuitype::wrap::{calculate_cursor_row, scroll_offset};

fn chars(s: &str) -> Vec<char> {
    s.chars().collect()
}

#[test]
fn narrow_width_reports_row_zero() {
    assert_eq!(calculate_cursor_row(&chars("hello world"), 3, 0), 0);
    assert_eq!(calculate_cursor_row(&chars("hello world"), 3, 1), 0);
}

#[test]
fn cursor_in_first_word() {
    let q = chars("hello world");
    for cursor in 0..=5 {
        assert_eq!(calculate_cursor_row(&q, cursor, 5), 0);
    }
}

#[test]
fn cursor_in_second_word_after_wrap() {
    let q = chars("hello world");
    // Width 5 puts "world" on the second row; the trailing gap of the first
    // word reaches up to and including the second word's start.
    assert_eq!(calculate_cursor_row(&q, 6, 5), 0);
    for cursor in 7..=11 {
        assert_eq!(calculate_cursor_row(&q, cursor, 5), 1);
    }
}

#[test]
fn wide_enough_line_never_wraps() {
    let q = chars("hello world");
    for cursor in 0..=11 {
        assert_eq!(calculate_cursor_row(&q, cursor, 80), 0);
    }
}

#[test]
fn three_words_three_rows() {
    let q = chars("aaa bbb ccc");
    assert_eq!(calculate_cursor_row(&q, 1, 3), 0);
    assert_eq!(calculate_cursor_row(&q, 5, 3), 1);
    assert_eq!(calculate_cursor_row(&q, 9, 3), 2);
}

#[test]
fn separating_space_counts_toward_the_width() {
    // "aa bb" at width 5 holds both words ("aa bb" is exactly five cells),
    // but at width 4 the second word wraps.
    let q = chars("aa bb");
    assert_eq!(calculate_cursor_row(&q, 4, 5), 0);
    assert_eq!(calculate_cursor_row(&q, 4, 4), 1);
}

#[test]
fn multiple_spaces_stay_with_their_word() {
    let q = chars("aa   bb");
    // Cursor anywhere in the run of spaces, up to and including the next
    // word's start, reports the earlier word's row.
    for cursor in 3..=5 {
        assert_eq!(calculate_cursor_row(&q, cursor, 4), 0);
    }
    assert_eq!(calculate_cursor_row(&q, 6, 4), 1);
}

#[test]
fn oversized_first_word_already_wraps() {
    // A word longer than the width exceeds even an empty line, so the
    // simulation opens a new row for it before placing the cursor.
    let q = chars("abcdef");
    assert_eq!(calculate_cursor_row(&q, 0, 3), 1);
    assert_eq!(calculate_cursor_row(&q, 6, 3), 1);
}

#[test]
fn cursor_past_the_text_reports_last_row() {
    let q = chars("aaa bbb");
    assert_eq!(calculate_cursor_row(&q, 100, 3), 1);
}

#[test]
fn empty_passage_reports_row_zero() {
    assert_eq!(calculate_cursor_row(&chars(""), 0, 10), 0);
    assert_eq!(calculate_cursor_row(&chars(""), 5, 10), 0);
}

#[test]
fn scroll_keeps_the_cursor_centered() {
    // No scrolling until the cursor passes the middle of the view.
    assert_eq!(scroll_offset(0, 10), 0);
    assert_eq!(scroll_offset(5, 10), 0);
    assert_eq!(scroll_offset(6, 10), 1);
    assert_eq!(scroll_offset(20, 10), 15);
    assert_eq!(scroll_offset(3, 0), 3);
}
