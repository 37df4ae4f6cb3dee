use virtuoso_cli::tui_app::{KeyCode, KeyEvent};
use virtuoso_cli::tui_state::{handle_key, ActiveTab, ConfigField, EventAction, TuiState};

fn key(code: KeyCode) -> KeyEvent {
    KeyEvent { code, ctrl_only: false }
}

fn state() -> TuiState {
    let fields = vec![
        ConfigField { key: "VB_PORT".into(), value: "1".into(), hint: "h" },
        ConfigField { key: "VB_TIMEOUT".into(), value: "".into(), hint: "t" },
    ];
    TuiState::new(Vec::new(), Vec::new(), None, fields)
}

#[test]
fn global_keys() {
    let mut s = state();
    assert_eq!(handle_key(&mut s, key(KeyCode::Char('q'))), EventAction::Quit);
    assert_eq!(handle_key(&mut s, key(KeyCode::Char('r'))), EventAction::Refresh);
    assert_eq!(handle_key(&mut s, key(KeyCode::Char('l'))), EventAction::ShowLog);
    assert_eq!(handle_key(&mut s, key(KeyCode::Char('c'))), EventAction::CancelJob);
}

#[test]
fn tab_cycles_back_after_three() {
    let mut s = state();
    for expect in [ActiveTab::Jobs, ActiveTab::Config, ActiveTab::Sessions] {
        assert_eq!(handle_key(&mut s, key(KeyCode::Tab)), EventAction::Continue);
        assert_eq!(s.active_tab, expect);
    }
}

#[test]
fn edit_config_value() {
    let mut s = state();
    s.active_tab = ActiveTab::Config;
    handle_key(&mut s, key(KeyCode::Down));
    assert_eq!(s.config_selected, 1);
    handle_key(&mut s, key(KeyCode::Down));
    assert_eq!(s.config_selected, 0);
    handle_key(&mut s, key(KeyCode::Up));
    assert_eq!(s.config_selected, 1);
    handle_key(&mut s, key(KeyCode::Enter));
    assert!(s.config_editing);
    handle_key(&mut s, key(KeyCode::Char('6')));
    handle_key(&mut s, key(KeyCode::Char('q')));
    handle_key(&mut s, key(KeyCode::Backspace));
    handle_key(&mut s, key(KeyCode::Char('0')));
    assert_eq!(s.config_edit_buf, "60");
    assert_eq!(handle_key(&mut s, key(KeyCode::Enter)), EventAction::SaveConfig);
    assert!(!s.config_editing);
    assert_eq!(s.config_edit_buf, "");
    assert_eq!(s.config_fields[1].value, "60");
    assert_eq!(s.config_fields[0].value, "1");
}

#[test]
fn escape_discards_edit() {
    let mut s = state();
    s.active_tab = ActiveTab::Config;
    handle_key(&mut s, key(KeyCode::Char('i')));
    handle_key(&mut s, key(KeyCode::Char('9')));
    assert_eq!(handle_key(&mut s, key(KeyCode::Esc)), EventAction::Continue);
    assert_eq!(s.config_fields[0].value, "1");
    assert!(!s.config_editing);
}

#[test]
fn log_view_scrolls_within_bounds() {
    let mut s = state();
    s.show_log = true;
    s.log_lines = vec!["a".into(), "b".into(), "c".into()];
    handle_key(&mut s, key(KeyCode::Char('G')));
    assert_eq!(s.log_scroll, 2);
    handle_key(&mut s, key(KeyCode::Down));
    assert_eq!(s.log_scroll, 2);
    handle_key(&mut s, key(KeyCode::Char('k')));
    assert_eq!(s.log_scroll, 1);
    handle_key(&mut s, key(KeyCode::Char('g')));
    assert_eq!(s.log_scroll, 0);
    handle_key(&mut s, key(KeyCode::Up));
    assert_eq!(s.log_scroll, 0);
    assert_eq!(handle_key(&mut s, key(KeyCode::Char('q'))), EventAction::Continue);
    assert!(!s.show_log);
}

#[test]
fn status_and_selection() {
    let mut s = state();
    s.set_status("hello", 17);
    assert_eq!(s.status_msg, Some(("hello".to_string(), 17)));
    assert!(s.selected_session_info().is_none());
    s.refresh(Vec::new(), Vec::new(), None);
    assert!(s.sessions.is_empty());
}
