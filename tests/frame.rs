use pound::contents::{flush_result, EditorContents};
use pound::render::Output;

fn drawn_rows(columns: usize, rows: usize) -> String {
    let mut out = Output::new(columns, rows);
    out.draw_rows();
    out.editor_contents.as_str().to_string()
}

fn row_texts(columns: usize, rows: usize) -> Vec<String> {
    drawn_rows(columns, rows)
        .split("\r\n")
        .map(|r| r.strip_suffix("\x1b[K").expect("row not closed by a clear").to_string())
        .collect()
}

#[test]
fn rows_markers_and_breaks_counted() {
    for &(columns, rows) in &[(1usize, 1usize), (1, 2), (10, 3), (40, 24), (80, 7), (200, 50)] {
        let text = drawn_rows(columns, rows);
        assert_eq!(text.matches("\x1b[K").count(), rows);
        assert_eq!(text.matches("\r\n").count(), rows - 1);
        assert_eq!(text.matches('\x1b').count(), rows);
        assert!(text.ends_with("\x1b[K"));
        assert_eq!(row_texts(columns, rows).len(), rows);
    }
}

#[test]
fn banner_on_third_row_of_24() {
    let rows = row_texts(80, 24);
    for (i, r) in rows.iter().enumerate() {
        if i == 8 {
            assert!(r.ends_with("Pound Editor --- Version 0.0.1"));
        } else {
            assert_eq!(r, "~");
        }
    }
}

#[test]
fn banner_truncated_to_ten_columns() {
    let rows = row_texts(10, 3);
    assert_eq!(rows[1], "Pound Edit");
    assert_eq!(rows[0], "~");
    assert_eq!(rows[2], "~");
}

#[test]
fn banner_centered_in_forty_columns() {
    let rows = row_texts(40, 3);
    assert_eq!(rows[1], "~    Pound Editor --- Version 0.0.1");
}

#[test]
fn banner_exact_width_has_no_padding() {
    assert_eq!(row_texts(30, 3)[1], "Pound Editor --- Version 0.0.1");
    assert_eq!(row_texts(31, 3)[1], "Pound Editor --- Version 0.0.1");
    assert_eq!(row_texts(32, 3)[1], "~Pound Editor --- Version 0.0.1");
}

#[test]
fn one_row_screen_holds_banner_only() {
    assert_eq!(drawn_rows(1, 1), "P\x1b[K");
    assert_eq!(drawn_rows(0, 2), "\x1b[K\r\n~\x1b[K");
}

#[test]
fn zero_rows_draws_nothing() {
    assert_eq!(drawn_rows(80, 0), "");
}

#[test]
fn refresh_wraps_rows_in_cursor_commands() {
    let mut out = Output::new(5, 2);
    out.refresh_screen();
    assert_eq!(
        out.editor_contents.as_str(),
        "\x1b[?25l\x1b[2J\x1b[1;1HPound\x1b[K\r\n~\x1b[K\x1b[1;1H\x1b[?25h"
    );
}

#[test]
fn staged_content_appends() {
    let mut c = EditorContents::new();
    assert_eq!(c.as_str(), "");
    c.push('~');
    c.push_str("ab");
    c.push(' ');
    assert_eq!(c.as_str(), "~ab ");
}

#[test]
fn take_empties_buffer() {
    let mut c = EditorContents::new();
    c.push_str("frame");
    let frame = c.take();
    assert_eq!(frame, "frame");
    assert_eq!(c.as_str(), "");
    assert_eq!(c.take(), "");
}

#[test]
fn failed_write_still_leaves_buffer_cleared() {
    let mut c = EditorContents::new();
    c.push_str("stale");
    let frame = c.take();
    let written: Result<(), String> = Err(format!("could not write {} bytes", frame.len()));
    let r = flush_result(written, Ok(()));
    assert_eq!(r, Err("could not write 5 bytes".to_string()));
    assert_eq!(c.as_str(), "");
    c.push_str("next");
    assert_eq!(c.take(), "next");
}

#[test]
fn flush_result_reports_write_error_first() {
    assert_eq!(flush_result::<u8>(Ok(()), Ok(())), Ok(()));
    assert_eq!(flush_result::<u8>(Ok(()), Err(2)), Err(2));
    assert_eq!(flush_result::<u8>(Err(1), Err(2)), Err(1));
    assert_eq!(flush_result::<u8>(Err(1), Ok(())), Err(1));
}
