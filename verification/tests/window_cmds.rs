use virtuoso_cli::error::VirtuosoError;
use virtuoso_cli::models::VirtuosoResult;
use virtuoso_cli::window_cmd::{decode_skill_octal, dialog_active, screenshot_verdict, window_json_text, window_mode};

#[test]
fn modes_from_names() {
    assert_eq!(window_mode("ADE Explorer Editing: A/B/maestro"), "ade-editing");
    assert_eq!(window_mode("ADE Assembler Editing: x"), "ade-editing");
    assert_eq!(window_mode("ADE Explorer Reading: x"), "ade-reading");
    assert_eq!(window_mode("Virtuoso® ADE L"), "ade-other");
    assert_eq!(window_mode("Virtuoso Schematic Editor L"), "schematic");
    assert_eq!(window_mode("Layout Editor"), "layout");
    assert_eq!(window_mode("CIW"), "other");
}

#[test]
fn octal_escapes_decode() {
    assert_eq!(decode_skill_octal(b"Virtuoso\\256 ADE"), "Virtuoso\u{ae} ADE");
    assert_eq!(decode_skill_octal(b"a\\101\\1"), "aA\u{1}");
    assert_eq!(decode_skill_octal(b"x\\9y"), "x\\9y");
    assert_eq!(decode_skill_octal(b"\\\"q\\\""), "\\\"q\\\"");
    assert_eq!(decode_skill_octal(b"\\1234"), "S4");
}

#[test]
fn window_json_unescapes() {
    let t = window_json_text(br#"[{\"name\":\"ADE\256\"}]"#);
    assert_eq!(t, "[{\"name\":\"ADE\u{ae}\"}]");
}

#[test]
fn dialogs_and_screenshots() {
    assert!(dialog_active(&VirtuosoResult::success("\"Save As\"".into())));
    assert!(!dialog_active(&VirtuosoResult::success("\"no-dialog\"".into())));
    assert!(!dialog_active(&VirtuosoResult::success("nil".into())));
    assert!(screenshot_verdict(&VirtuosoResult::success("t".into()), None).is_ok());
    match screenshot_verdict(&VirtuosoResult::success("\"no-match\"".into()), Some("ADE*")) {
        Err(VirtuosoError::NotFound(m)) => assert_eq!(m, "no window matching pattern 'ADE*'"),
        other => panic!("unexpected {other:?}"),
    }
    match screenshot_verdict(&VirtuosoResult::error(vec!["e1".into()]), None) {
        Err(VirtuosoError::Execution(m)) => assert_eq!(m, "screenshot failed: e1"),
        other => panic!("unexpected {other:?}"),
    }
}
