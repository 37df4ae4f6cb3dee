use virtuoso_cli::models::{Job, JobStatus};
use virtuoso_cli::tui_action::{handle_action, Effect};
use virtuoso_cli::tui_app::{
    key_opens_log, Action, App, ConfigField, ConfirmAction, KeyCode, KeyEvent, Overlay, StatusKind, Tab,
};

fn key(code: KeyCode) -> KeyEvent {
    KeyEvent { code, ctrl_only: false }
}

fn job(id: &str, status: JobStatus) -> Job {
    Job {
        id: id.into(),
        status,
        netlist_path: "n".into(),
        raw_dir: None,
        pid: Some(5),
        created: "c".into(),
        finished: None,
        error: None,
        remote_host: None,
        remote_dir: None,
    }
}

fn app() -> App {
    let mut a = App::new(
        Vec::new(),
        vec![job("a", JobStatus::Running), job("b", JobStatus::Completed)],
        None,
        &Vec::new(),
        &vec![None; 12],
    );
    a.config_fields = vec![
        ConfigField { key: "VB_PORT".into(), value: "1".into(), hint: "p" },
        ConfigField { key: "VB_TIMEOUT".into(), value: "".into(), hint: "t" },
    ];
    a
}

#[test]
fn tabs_and_help() {
    let mut a = app();
    assert!(matches!(a.on_key(key(KeyCode::Tab), Vec::new()), Action::Nothing));
    assert_eq!(a.tab, Tab::Jobs);
    a.on_key(key(KeyCode::Char('[')), Vec::new());
    assert_eq!(a.tab, Tab::Sessions);
    a.on_key(key(KeyCode::Char('?')), Vec::new());
    assert!(matches!(a.overlay, Overlay::Help));
    a.on_key(key(KeyCode::Char('x')), Vec::new());
    assert!(matches!(a.overlay, Overlay::Help));
    a.on_key(key(KeyCode::Esc), Vec::new());
    assert!(matches!(a.overlay, Overlay::Closed));
    assert!(matches!(a.on_key(KeyEvent { code: KeyCode::Char('c'), ctrl_only: true }, Vec::new()), Action::Quit));
}

#[test]
fn cancel_flow() {
    let mut a = app();
    a.tab = Tab::Jobs;
    a.on_key(key(KeyCode::Char('x')), Vec::new());
    match &a.overlay {
        Overlay::Confirm(c) => {
            assert_eq!(c.message, "Kill running job a?");
            assert_eq!(c.action, ConfirmAction::CancelJob(0));
        }
        _ => panic!("confirm expected"),
    }
    let act = a.on_key(key(KeyCode::Char('y')), Vec::new());
    assert!(matches!(act, Action::CancelJob(0)));
    let effect = handle_action(&mut a, act, 100);
    assert!(matches!(effect, Effect::Kill(0, Some(5))));
    a.finish_cancel(0, "now".into(), 100);
    assert_eq!(a.jobs[0].status, JobStatus::Cancelled);
    let st = a.status.as_ref().unwrap();
    assert_eq!(st.message, "Cancelled job a");
    assert_eq!(st.kind, StatusKind::Warn);
}

#[test]
fn cancel_of_finished_job() {
    let mut a = app();
    a.tab = Tab::Jobs;
    a.move_selection(1);
    let act = a.on_key(key(KeyCode::Char('x')), Vec::new());
    match act {
        Action::Status(ref m, k) => {
            assert_eq!(m, "Selected job is not running");
            assert_eq!(k, StatusKind::Info);
        }
        _ => panic!("status expected"),
    }
    assert!(matches!(handle_action(&mut a, Action::CancelJob(1), 3), Effect::NoEffect));
    assert_eq!(a.status.as_ref().unwrap().message, "Job not running");
    assert!(matches!(handle_action(&mut a, Action::CancelJob(9), 3), Effect::NoEffect));
}

#[test]
fn config_form_saves() {
    let mut a = app();
    a.tab = Tab::Config;
    a.on_key(key(KeyCode::Enter), Vec::new());
    a.on_key(key(KeyCode::Backspace), Vec::new());
    a.on_key(key(KeyCode::Char('9')), Vec::new());
    let act = a.on_key(key(KeyCode::Enter), Vec::new());
    assert!(matches!(act, Action::SaveConfig));
    assert_eq!(a.config_fields[0].value, "9");
    match handle_action(&mut a, act, 5) {
        Effect::Save(text) => assert_eq!(text, "# Virtuoso CLI Configuration\nVB_PORT=9\n# VB_TIMEOUT=\n"),
        other => panic!("unexpected {other:?}"),
    }
    a.finish_save(Err("disk full".into()), 6);
    assert_eq!(a.status.as_ref().unwrap().message, "Save failed: disk full");
    a.finish_save(Ok(()), 7);
    assert_eq!(a.status.as_ref().unwrap().message, "Config saved to .env");
}

#[test]
fn log_viewer_and_refresh() {
    let mut a = app();
    assert!(key_opens_log(&a, &key(KeyCode::Char('l'))));
    a.on_key(key(KeyCode::Char('l')), vec!["x".into(), "y".into()]);
    match &a.overlay {
        Overlay::Log(l) => assert_eq!(l.scroll, 1),
        _ => panic!("log expected"),
    }
    a.on_key(key(KeyCode::Char('g')), Vec::new());
    assert!(matches!(handle_action(&mut a, Action::Refresh, 1), Effect::Reload));
    a.finish_refresh(Vec::new(), Vec::new(), None, vec!["a".into(), "b".into(), "c".into()], 2);
    match &a.overlay {
        Overlay::Log(l) => assert_eq!((l.lines.len(), l.scroll), (3, 2)),
        _ => panic!("log expected"),
    }
    assert_eq!(a.status.as_ref().unwrap().message, "Refreshed");
    a.clear_expired_status(4);
    assert!(a.status.is_some());
    a.clear_expired_status(5);
    assert!(a.status.is_none());
}

#[test]
fn quit_action_sets_flag() {
    let mut a = app();
    handle_action(&mut a, Action::Quit, 0);
    assert!(a.should_quit);
}

#[test]
fn new_app_loads_the_twelve_config_fields() {
    let entries = vec![("VB_REMOTE_HOST".to_string(), "eda1".to_string())];
    let mut process = vec![None; 12];
    process[0] = Some("ignored".to_string());
    process[2] = Some("7000".to_string());
    let a = App::new(Vec::new(), vec![job("j", JobStatus::Running)], None, &entries, &process);
    assert_eq!(a.tab, Tab::Sessions);
    assert!(matches!(a.overlay, Overlay::Closed));
    assert_eq!((a.selected_session, a.selected_job, a.selected_config), (0, 0, 0));
    assert!(a.status.is_none() && !a.should_quit);
    assert_eq!(a.jobs.len(), 1);
    let keys: Vec<&str> = a.config_fields.iter().map(|f| f.key.as_str()).collect();
    assert_eq!(
        keys,
        vec![
            "VB_REMOTE_HOST", "VB_REMOTE_USER", "VB_PORT", "VB_TIMEOUT", "VB_JUMP_HOST", "VB_JUMP_USER",
            "VB_SSH_PORT", "VB_SSH_KEY", "VB_SPECTRE_CMD", "VB_SPECTRE_ARGS", "VB_KEEP_REMOTE_FILES", "VB_PROFILE",
        ]
    );
    assert_eq!(a.config_fields[0].value, "eda1");
    assert_eq!(a.config_fields[2].value, "7000");
    assert_eq!(a.config_fields[1].value, "");
}
