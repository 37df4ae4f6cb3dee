use virtuoso_cli::overlay_layout::{
    centered_message_lines, centered_rect_fixed, compact_lines_overlay_rect, compact_message_overlay_rect, overlay_rows,
    truncate_to_display_width, try_compact_lines_overlay_rect, try_compact_message_overlay_rect, wrap_message_lines, Rect,
};

#[test]
fn wrap_ascii_basic() {
    let out = wrap_message_lines("hello world", 5);
    assert_eq!(
        out,
        vec!["hello".to_string(), " worl".to_string(), "d".to_string()]
    );
}

#[test]
fn wrap_respects_newlines() {
    let out = wrap_message_lines("a\nb\nc", 10);
    assert_eq!(out, vec!["a".to_string(), "b".to_string(), "c".to_string()]);
}

#[test]
fn wrap_cjk_counts_2_cols() {
    let out = wrap_message_lines("中文", 4);
    assert_eq!(out, vec!["中文".to_string()]);
    let out2 = wrap_message_lines("中文", 2);
    assert_eq!(out2, vec!["中".to_string(), "文".to_string()]);
}

#[test]
fn centered_rect_fixed_clamps() {
    let r = Rect::new(0, 0, 10, 10);
    let c = centered_rect_fixed(20, 20, r);
    assert_eq!(c.width, 10);
    assert_eq!(c.height, 10);
}

#[test]
fn wrap_edge_cases() {
    assert_eq!(wrap_message_lines("abc", 0), vec![String::new()]);
    assert_eq!(wrap_message_lines("", 3), vec![String::new()]);
    assert_eq!(wrap_message_lines("a\n", 3), vec!["a".to_string()]);
    assert_eq!(wrap_message_lines("中", 1), vec!["中".to_string()]);
}

#[test]
fn wrap_keeps_all_text() {
    let msg = "the quick\nbrown 狐狸 jumps";
    let joined: String = wrap_message_lines(msg, 4).concat();
    assert_eq!(joined, msg.replace('\n', ""));
}

#[test]
fn truncation() {
    assert_eq!(truncate_to_display_width("hello", 10), "hello");
    assert_eq!(truncate_to_display_width("hello", 3), "he…");
    assert_eq!(truncate_to_display_width("hello", 0), "");
    assert_eq!(truncate_to_display_width("中文字", 4), "中…");
}

#[test]
fn centered_rect_offsets() {
    let c = centered_rect_fixed(4, 2, Rect::new(10, 20, 10, 6));
    assert_eq!(c, Rect::new(13, 22, 4, 2));
}

#[test]
fn compact_overlay_min_width() {
    let area = Rect::new(0, 0, 100, 20);
    let r = compact_message_overlay_rect(area, "Title", "msg");
    assert!(r.width >= 36);
    assert!(r.height >= 6);
}

#[test]
fn compact_overlay_exact_geometry() {
    let area = Rect::new(0, 0, 100, 20);
    assert_eq!(compact_message_overlay_rect(area, "Title", "msg"), Rect::new(32, 7, 36, 6));
    assert_eq!(try_compact_message_overlay_rect(area, "Title", "msg"), Some(Rect::new(32, 7, 36, 6)));
    // a long line widens the overlay up to 80 columns and wraps inside it
    let long = "x".repeat(200);
    let lines = vec![long.clone()];
    let r = compact_lines_overlay_rect(area, "T", &lines);
    assert_eq!(r.width, 80);
    // 78 inner columns: 200 characters take 3 rows, plus 3 for the frame
    assert_eq!(r.height, 6);
    assert_eq!(try_compact_lines_overlay_rect(area, "T", &lines), Some(r));
    // a small area clamps both sides
    let small = Rect::new(0, 0, 20, 5);
    let s = compact_message_overlay_rect(small, "Title", "msg");
    assert_eq!((s.width, s.height), (16, 1));
}

#[test]
fn overlay_rows_sums_and_overflows() {
    assert_eq!(overlay_rows(&vec!["ab".to_string(), "".to_string(), "abcde".to_string()], 2), Some(1 + 1 + 3));
    let many: Vec<String> = vec!["x".repeat(200); 400];
    assert_eq!(overlay_rows(&many, 1), None);
}

#[test]
fn centered_message_pads_above() {
    assert_eq!(centered_message_lines("a\nb", 10, 6), vec!["", "", "a", "b"]);
    assert_eq!(centered_message_lines("a\nb", 10, 1), vec!["a", "b"]);
    assert_eq!(centered_message_lines("hello world", 5, 4), vec!["hello", " worl", "d"]);
}

#[test]
fn compact_overlay_stays_inside() {
    let area = Rect::new(5, 3, 300, 40);
    let lines = vec!["y".repeat(500), "short".to_string()];
    let r = compact_lines_overlay_rect(area, "A title", &lines);
    assert_eq!(r.width, 80);
    assert!(area.x <= r.x && r.x + r.width <= area.x + area.width);
    assert!(area.y <= r.y && r.y + r.height <= area.y + area.height);
    let tiny = Rect::new(2, 2, 3, 2);
    let t = compact_message_overlay_rect(tiny, "Title", "a message");
    assert!(t.x >= 2 && t.x + t.width <= 5 && t.y >= 2 && t.y + t.height <= 4);
}
