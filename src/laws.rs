//! Properties of the composed rows, proved over the spec functions that
//! `Output::draw_rows` is specified by.

use vstd::prelude::*;
use crate::ansi::{ClearKind, ESC, clear_seq};
use crate::render::{
    banner, banner_row, banner_text, draw_rows_text, line_break, row_segment, row_text,
    rows_prefix,
};

verus! {

/// The number of occurrences of `c` in `s`.
pub open spec fn count_char(s: Seq<char>, c: char) -> nat
    decreases s.len(),
{
    if s.len() == 0 {
        0
    } else {
        count_char(s.drop_last(), c) + (if s.last() == c {
            1nat
        } else {
            0nat
        })
    }
}

proof fn lemma_count_concat(a: Seq<char>, b: Seq<char>, c: char)
    ensures
        count_char(a + b, c) == count_char(a, c) + count_char(b, c),
    decreases b.len(),
{
    if b.len() == 0 {
        assert(a + b =~= a);
    } else {
        assert((a + b).drop_last() =~= a + b.drop_last());
        lemma_count_concat(a, b.drop_last(), c);
    }
}

proof fn lemma_count_absent(s: Seq<char>, c: char)
    requires
        forall|k: int| 0 <= k < s.len() ==> s[k] != c,
    ensures
        count_char(s, c) == 0,
    decreases s.len(),
{
    if s.len() > 0 {
        lemma_count_absent(s.drop_last(), c);
    }
}

proof fn lemma_count_single(x: char, c: char)
    ensures
        count_char(seq![x], c) == (if x == c {
            1nat
        } else {
            0nat
        }),
{
    assert(seq![x].drop_last() =~= Seq::<char>::empty());
    assert(count_char(Seq::<char>::empty(), c) == 0);
    assert(seq![x].last() == x);
}

proof fn lemma_banner_chars()
    ensures
        banner().len() == 30,
        banner()[0] == 'P',
        forall|k: int| 0 <= k < banner().len() ==> banner()[k] != ESC && banner()[k] != '\n',
{
    reveal_strlit("Pound Editor --- Version ");
    reveal_strlit("0.0.1");
}

/// No row's visible text holds an escape character or a line feed.
proof fn lemma_row_text_plain(i: nat, columns: nat, rows: nat)
    ensures
        forall|k: int|
            0 <= k < row_text(i, columns, rows).len() ==> row_text(i, columns, rows)[k] != ESC
                && row_text(i, columns, rows)[k] != '\n',
{
    lemma_banner_chars();
    let t = banner_text(columns);
    assert(forall|k: int| 0 <= k < t.len() ==> t[k] != ESC && t[k] != '\n');
}

proof fn lemma_segment_counts(i: nat, columns: nat, rows: nat)
    ensures
        count_char(row_segment(i, columns, rows), ESC) == 1,
        count_char(row_segment(i, columns, rows), '\n') == (if i + 1 < rows {
            1nat
        } else {
            0nat
        }),
{
    let t = row_text(i, columns, rows);
    let el = clear_seq(ClearKind::UntilNewLine);
    let lb = line_break(i, rows);
    lemma_row_text_plain(i, columns, rows);
    lemma_count_absent(t, ESC);
    lemma_count_absent(t, '\n');
    assert(el =~= seq![ESC] + seq!['['] + seq!['K']);
    lemma_count_concat(seq![ESC], seq!['['], ESC);
    lemma_count_concat(seq![ESC] + seq!['['], seq!['K'], ESC);
    lemma_count_concat(seq![ESC], seq!['['], '\n');
    lemma_count_concat(seq![ESC] + seq!['['], seq!['K'], '\n');
    lemma_count_single(ESC, ESC);
    lemma_count_single('[', ESC);
    lemma_count_single('K', ESC);
    lemma_count_single(ESC, '\n');
    lemma_count_single('[', '\n');
    lemma_count_single('K', '\n');
    if i + 1 < rows {
        assert(lb =~= seq!['\r'] + seq!['\n']);
        lemma_count_concat(seq!['\r'], seq!['\n'], ESC);
        lemma_count_concat(seq!['\r'], seq!['\n'], '\n');
        lemma_count_single('\r', ESC);
        lemma_count_single('\n', ESC);
        lemma_count_single('\r', '\n');
        lemma_count_single('\n', '\n');
    } else {
        lemma_count_absent(lb, ESC);
        lemma_count_absent(lb, '\n');
    }
    lemma_count_concat(t, el, ESC);
    lemma_count_concat(t + el, lb, ESC);
    lemma_count_concat(t, el, '\n');
    lemma_count_concat(t + el, lb, '\n');
}

proof fn lemma_prefix_counts(columns: nat, rows: nat, n: nat)
    requires
        1 <= rows,
        n <= rows,
    ensures
        count_char(rows_prefix(columns, rows, n), ESC) == n,
        count_char(rows_prefix(columns, rows, n), '\n') == (if n < rows {
            n
        } else {
            (rows - 1) as nat
        }),
    decreases n,
{
    if n > 0 {
        let m = (n - 1) as nat;
        lemma_prefix_counts(columns, rows, m);
        lemma_segment_counts(m, columns, rows);
        lemma_count_concat(rows_prefix(columns, rows, m), row_segment(m, columns, rows), ESC);
        lemma_count_concat(rows_prefix(columns, rows, m), row_segment(m, columns, rows), '\n');
    }
}

/// The rows of a screen at least one cell in size are drawn as one segment
/// per row, each closed by a clear to the end of the line (the only escape
/// sequence among the rows, so there are exactly `rows` of them), and
/// exactly `rows - 1` line breaks separate them.
pub proof fn lemma_draw_rows_layout(columns: nat, rows: nat)
    requires
        columns >= 1,
        rows >= 1,
    ensures
        count_char(draw_rows_text(columns, rows), ESC) == rows,
        count_char(draw_rows_text(columns, rows), '\n') == rows - 1,
        forall|i: nat|
            i < rows ==> #[trigger] rows_prefix(columns, rows, i + 1) == rows_prefix(
                columns,
                rows,
                i,
            ) + row_text(i, columns, rows) + clear_seq(ClearKind::UntilNewLine) + line_break(
                i,
                rows,
            ),
        forall|i: nat| i < rows ==> (#[trigger] line_break(i, rows) == seq!['\r', '\n']) == (i
            + 1 < rows),
{
    lemma_prefix_counts(columns, rows, rows);
    assert forall|i: nat| i < rows implies #[trigger] rows_prefix(columns, rows, i + 1)
        == rows_prefix(columns, rows, i) + row_text(i, columns, rows) + clear_seq(
        ClearKind::UntilNewLine,
    ) + line_break(i, rows) by {
        assert(rows_prefix(columns, rows, i + 1) =~= rows_prefix(columns, rows, i) + row_text(
            i,
            columns,
            rows,
        ) + clear_seq(ClearKind::UntilNewLine) + line_break(i, rows));
    }
    assert forall|i: nat| i < rows implies (#[trigger] line_break(i, rows) == seq!['\r', '\n'])
        == (i + 1 < rows) by {
        if i + 1 >= rows {
            assert(line_break(i, rows).len() == 0);
        }
    }
}

/// On a screen of at least three rows the banner is drawn on row
/// `rows / 3`, and on no other row.
pub proof fn lemma_banner_row_placement(columns: nat, rows: nat, i: nat)
    requires
        rows >= 3,
        i < rows,
    ensures
        rows / 3 < rows,
        (row_text(i, columns, rows) == banner_row(columns)) == (i == rows / 3),
{
    lemma_banner_chars();
    let b = banner_row(columns);
    if b == seq!['~'] {
        let t = banner_text(columns);
        if columns >= 1 {
            assert(t[0] == 'P');
        }
        assert(false);
    }
}

} // verus!
