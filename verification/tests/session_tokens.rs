use virtuoso_cli::session::{extract_skill_string_token, parse_ade_title, parse_skill_list_top_level};

#[test]
fn tokenizer_5_element_list() {
    let input = r#"("title str" "sess" ("w1" "w2") ("s1") nil)"#;
    let tokens = parse_skill_list_top_level(input);
    assert_eq!(tokens.len(), 5, "{tokens:?}");
    assert_eq!(tokens[0], r#""title str""#);
    assert_eq!(tokens[1], r#""sess""#);
    assert_eq!(tokens[4], "nil");
}

#[test]
fn tokenizer_with_backslash_escape_in_string() {
    let input = r#"("Virtuoso\256 ADE Explorer Editing: LIB CELL V" "fnxSession0")"#;
    let tokens = parse_skill_list_top_level(input);
    assert_eq!(tokens.len(), 2, "{tokens:?}");
    assert_eq!(tokens[1], r#""fnxSession0""#);
}

#[test]
fn tokenizer_empty_list() {
    assert_eq!(parse_skill_list_top_level("nil"), vec![] as Vec<String>);
    assert_eq!(parse_skill_list_top_level("()"), vec![] as Vec<String>);
}

#[test]
fn extract_token_quoted() {
    assert_eq!(
        extract_skill_string_token(r#""fnxSession0""#),
        Some("fnxSession0".to_owned())
    );
}

#[test]
fn extract_token_nil() {
    assert_eq!(extract_skill_string_token("nil"), None);
    assert_eq!(extract_skill_string_token(""), None);
}

#[test]
fn ade_title_parses_unsaved_view() {
    let info = parse_ade_title("Virtuoso ADE Assembler Editing: LIB CELL maestro*").unwrap();
    assert_eq!(info.application, "assembler");
    assert_eq!(info.lib, "LIB");
    assert_eq!(info.cell, "CELL");
    assert_eq!(info.view, "maestro");
    assert!(info.editable);
    assert!(info.unsaved_changes);
}

#[test]
fn ade_title_reading_mode() {
    let info = parse_ade_title("ADE Explorer Reading: a b c").unwrap();
    assert_eq!(info.application, "explorer");
    assert!(!info.editable);
    assert!(!info.unsaved_changes);
    assert_eq!(info.view, "c");
}

#[test]
fn ade_title_rejects_other_windows() {
    assert!(parse_ade_title("Virtuoso Schematic Editor L Editing: a b c").is_none());
    assert!(parse_ade_title("ADE Assembler Editing: a b").is_none());
}
