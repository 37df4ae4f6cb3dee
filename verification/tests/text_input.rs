use virtuoso_cli::text_input::TextInput;

#[test]
fn text_input_ascii_roundtrip() {
    let mut ti = TextInput::default();
    ti.insert_char('a');
    ti.insert_char('b');
    ti.insert_char('c');
    assert_eq!(ti.as_str(), "abc");
    assert_eq!(ti.cursor, 3);
    ti.backspace();
    assert_eq!(ti.as_str(), "ab");
}

#[test]
fn text_input_utf8_safe() {
    let mut ti = TextInput::new("中文");
    assert_eq!(ti.cursor, 6);
    ti.move_left();
    assert_eq!(ti.cursor, 3);
    ti.backspace();
    assert_eq!(ti.as_str(), "文");
    assert_eq!(ti.cursor, 0);
}

#[test]
fn text_input_home_end() {
    let mut ti = TextInput::new("hello");
    ti.home();
    assert_eq!(ti.cursor, 0);
    ti.end();
    assert_eq!(ti.cursor, 5);
}

#[test]
fn insert_then_backspace_restores() {
    let mut ti = TextInput::new("añb");
    ti.move_left();
    let before = ti.clone();
    ti.insert_char('€');
    assert_eq!(ti.as_str(), "añ€b");
    ti.backspace();
    assert_eq!(ti.as_str(), before.as_str());
    assert_eq!(ti.cursor, before.cursor);
}

#[test]
fn move_right_stops_at_end() {
    let mut ti = TextInput::new("x");
    ti.move_right();
    assert_eq!(ti.cursor, 1);
    ti.home();
    ti.move_left();
    assert_eq!(ti.cursor, 0);
    ti.backspace();
    assert_eq!(ti.as_str(), "x");
}
