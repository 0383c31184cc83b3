//! Greedy word-wrap simulation: which visual row holds the cursor when the
//! passage is wrapped to a given width. The renderer uses the row to center
//! the cursor vertically while scrolling.
//!
//! Words are maximal runs of non-space characters; one space separates words
//! on a line; a word wraps when appending it, plus a separating space on a
//! non-empty line, would exceed the width. The cursor belongs to a word over
//! the closed range from its first character to just past its last, and to a
//! trailing run of spaces over the half-open range ending at the next word.

use vstd::prelude::*;

verus! {

/// Index of the first space at or after `i`, or the length of `chars`.
pub open spec fn word_end(chars: Seq<char>, i: int) -> int
    decreases chars.len() - i when 0 <= i <= chars.len()
{
    if i >= chars.len() {
        chars.len() as int
    } else if chars[i] == ' ' {
        i
    } else {
        word_end(chars, i + 1)
    }
}

/// Index of the first non-space at or after `i`, or the length of `chars`.
pub open spec fn gap_end(chars: Seq<char>, i: int) -> int
    decreases chars.len() - i when 0 <= i <= chars.len()
{
    if i >= chars.len() {
        chars.len() as int
    } else if chars[i] != ' ' {
        i
    } else {
        gap_end(chars, i + 1)
    }
}

/// `word_end` stays within the sequence.
pub proof fn lemma_word_end_bounds(chars: Seq<char>, i: int)
    requires
        0 <= i <= chars.len(),
    ensures
        i <= word_end(chars, i) <= chars.len(),
    decreases chars.len() - i,
{
    if i < chars.len() && chars[i] != ' ' {
        lemma_word_end_bounds(chars, i + 1);
    }
}

/// `gap_end` stays within the sequence.
pub proof fn lemma_gap_end_bounds(chars: Seq<char>, i: int)
    requires
        0 <= i <= chars.len(),
    ensures
        i <= gap_end(chars, i) <= chars.len(),
    decreases chars.len() - i,
{
    if i < chars.len() && chars[i] == ' ' {
        lemma_gap_end_bounds(chars, i + 1);
    }
}

/// The row holding the cursor, continuing the simulation from position `i`
/// with `row` rows already begun and `line_len` cells used on the current
/// line. The full answer is the call at position zero.
pub open spec fn row_from(
    chars: Seq<char>,
    cursor: int,
    width: int,
    i: int,
    row: int,
    line_len: int,
) -> int
    decreases chars.len() - i when 0 <= i <= chars.len()
    via row_from_decreases
{
    if i >= chars.len() {
        row
    } else {
        let end = word_end(chars, i);
        let wlen = end - i;
        let space: int = if line_len == 0 {
            0
        } else {
            1
        };
        let wrapped = line_len + space + wlen > width;
        let row2 = if wrapped {
            row + 1
        } else {
            row
        };
        let base = if wrapped {
            0
        } else {
            line_len
        };
        if i <= cursor <= end {
            row2
        } else {
            let j = gap_end(chars, end);
            if end < cursor <= j {
                row2
            } else {
                let ll3 = (if base > 0 {
                    base + 1
                } else {
                    base
                }) + wlen;
                row_from(chars, cursor, width, j, row2, ll3)
            }
        }
    }
}

#[via_fn]
proof fn row_from_decreases(
    chars: Seq<char>,
    cursor: int,
    width: int,
    i: int,
    row: int,
    line_len: int,
) {
    if i < chars.len() {
        let end = word_end(chars, i);
        lemma_word_end_bounds(chars, i);
        lemma_gap_end_bounds(chars, end);
        if end == i {
            if chars[i] != ' ' {
                lemma_word_end_bounds(chars, i + 1);
                assert(false);
            }
            assert(gap_end(chars, i) == gap_end(chars, i + 1));
            lemma_gap_end_bounds(chars, i + 1);
        }
    }
}

/// One step of the simulation leaves the answer unchanged: continuing from
/// the position after the current word and its trailing spaces, with the row
/// and line length the step produced, reaches the same row — provided the
/// cursor was not inside that word or those spaces.
proof fn lemma_row_from_step(chars: Seq<char>, cursor: int, width: int, i: int, row: int,
    line_len: int)
    requires
        0 <= i < chars.len(),
        0 <= line_len,
        !(i <= cursor <= word_end(chars, i)),
        !(word_end(chars, i) < cursor <= gap_end(chars, word_end(chars, i))),
    ensures
        ({
            let end = word_end(chars, i);
            let wlen = end - i;
            let space: int = if line_len == 0 { 0 } else { 1 };
            let wrapped = line_len + space + wlen > width;
            let row2 = if wrapped { row + 1 } else { row };
            let base = if wrapped { 0 } else { line_len };
            let ll3 = (if base > 0 { base + 1 } else { base }) + wlen;
            row_from(chars, cursor, width, i, row, line_len) == row_from(
                chars,
                cursor,
                width,
                gap_end(chars, end),
                row2,
                ll3,
            )
        }),
{
    lemma_word_end_bounds(chars, i);
    lemma_gap_end_bounds(chars, word_end(chars, i));
}

/// The scroll offset that keeps the cursor's row vertically centered: rows
/// scroll away only once the cursor passes the middle of the visible height.
pub fn scroll_offset(cursor_row: u16, height: u16) -> (r: u16)
    ensures
        r == (if cursor_row > height / 2 {
            cursor_row - height / 2
        } else {
            0int
        }),
{
    if cursor_row > height / 2 {
        cursor_row - height / 2
    } else {
        0
    }
}

/// The zero-based visual row holding the cursor when `quote` is wrapped
/// greedily to `width` cells; zero when the width is too narrow to wrap.
pub fn calculate_cursor_row(quote: &Vec<char>, cursor: usize, width: usize) -> (r: usize)
    ensures
        width < 2 ==> r == 0,
        width >= 2 ==> r == row_from(quote@, cursor as int, width as int, 0, 0, 0),
{
    if width < 2 {
        return 0;
    }
    let ghost chars = quote@;
    let n = quote.len();
    let mut row: usize = 0;
    let mut line_len: usize = 0;
    let mut i: usize = 0;

    while i < n
        invariant
            n == chars.len(),
            chars == quote@,
            width >= 2,
            i <= n,
            row <= i,
            line_len <= i,
            row_from(chars, cursor as int, width as int, i as int, row as int, line_len as int)
                == row_from(chars, cursor as int, width as int, 0, 0, 0),
        decreases n - i,
    {
        let ghost i0 = i as int;
        let ghost row0 = row as int;
        let ghost ll0 = line_len as int;

        let start = i;
        let mut e = i;
        while e < n && quote[e] != ' '
            invariant
                n == chars.len(),
                chars == quote@,
                start <= e <= n,
                word_end(chars, start as int) == word_end(chars, e as int),
            decreases n - e,
        {
            e = e + 1;
        }
        proof {
            assert(word_end(chars, start as int) == e);
        }

        let wlen = e - start;
        let space: usize = if line_len == 0 {
            0
        } else {
            1
        };
        let needed = wlen + space;
        let wrapped = needed > width || line_len > width - needed;
        proof {
            assert(wrapped == (line_len + space + wlen > width));
        }
        if wrapped {
            row = row + 1;
            line_len = 0;
        }
        proof {
            lemma_word_end_bounds(chars, i0);
        }

        if cursor >= start && cursor <= e {
            proof {
                assert(row_from(chars, cursor as int, width as int, i0, row0, ll0) == row as int);
            }
            return row;
        }

        let mut j = e;
        while j < n && quote[j] == ' '
            invariant
                n == chars.len(),
                chars == quote@,
                e <= j <= n,
                gap_end(chars, e as int) == gap_end(chars, j as int),
            decreases n - j,
        {
            j = j + 1;
        }
        proof {
            assert(gap_end(chars, e as int) == j);
        }

        if cursor > e && cursor <= j {
            proof {
                assert(row_from(chars, cursor as int, width as int, i0, row0, ll0) == row as int);
            }
            return row;
        }

        proof {
            lemma_row_from_step(chars, cursor as int, width as int, i0, row0, ll0);
        }
        if j < n {
            if line_len > 0 {
                line_len = line_len + 1;
            }
            line_len = line_len + wlen;
        }
        i = j;
    }
    row
}

} // verus!
