use virtuoso_cli::error::VirtuosoError;
use virtuoso_cli::maestro_cmd::{
    analysis_options, effective_options, json_to_skill_alist, session_info_finish, session_info_step, skill_str,
    SessionInfoStep,
};
use virtuoso_cli::maestro_ops::{MaestroOps, VirtuosoVersion};
use virtuoso_cli::models::VirtuosoResult;

#[test]
fn json_to_skill_alist_valid_input() {
    let input = r#"{"start":"1","stop":"10G"}"#;
    let out = json_to_skill_alist(input).unwrap();
    assert!(out.contains("(\"start\" \"1\")"), "{out}");
    assert!(out.contains("(\"stop\" \"10G\")"), "{out}");
}

#[test]
fn json_to_skill_alist_invalid_json_returns_err() {
    assert!(json_to_skill_alist("not json").is_err());
}

#[test]
fn json_to_skill_alist_non_object_returns_err() {
    assert!(json_to_skill_alist("[1,2,3]").is_err());
}

#[test]
fn alist_exact_text_and_numbers() {
    assert_eq!(json_to_skill_alist(r#"{"dec":20,"on":true}"#).unwrap(), r#"(("dec" "20") ("on" "true"))"#);
    assert_eq!(json_to_skill_alist("{}").unwrap(), "()");
    assert_eq!(json_to_skill_alist("[1]").unwrap_err(), "expected a JSON object");
    assert!(json_to_skill_alist("{").unwrap_err().starts_with("invalid JSON: "));
    match analysis_options("3") {
        Err(VirtuosoError::Execution(m)) => assert_eq!(m, "--options: expected a JSON object"),
        other => panic!("unexpected {other:?}"),
    }
    assert_eq!(effective_options(Some("x".into()), VirtuosoVersion::IC23), None);
    assert_eq!(effective_options(Some("x".into()), VirtuosoVersion::IC25), Some("x".to_string()));
}

#[test]
fn session_info_uses_bundled_run_dir() {
    let out = r#"("ADE Explorer Editing: LIB CELL maestro*" "fnxSession0" ("w") ("fnxSession0") "/runs/1")"#;
    match session_info_step(out, None) {
        SessionInfoStep::Done(rep) => {
            assert_eq!(rep.focused_window.as_deref(), Some("ADE Explorer Editing: LIB CELL maestro*"));
            assert_eq!(rep.dav_session.as_deref(), Some("fnxSession0"));
            assert_eq!(rep.session.as_deref(), Some("fnxSession0"));
            assert_eq!(rep.run_dir.as_deref(), Some("/runs/1"));
            let w = rep.window.unwrap();
            assert_eq!((w.lib.as_str(), w.cell.as_str(), w.view.as_str()), ("LIB", "CELL", "maestro"));
            assert!(w.unsaved_changes);
        }
        other => panic!("unexpected {other:?}"),
    }
    assert!(matches!(session_info_step(out, Some("fnxSession0")), SessionInfoStep::Done(_)));
}

#[test]
fn session_info_queries_other_session() {
    let out = r#"("CIW" nil nil nil nil)"#;
    match session_info_step(out, Some("s2")) {
        SessionInfoStep::QueryRunDir(skill, rep) => {
            assert_eq!(skill, MaestroOps.run_dir_skill("s2"));
            assert!(rep.window.is_none());
            assert_eq!(rep.session.as_deref(), Some("s2"));
            let done = session_info_finish(rep, Ok(VirtuosoResult::success("\"/r2\"".into()))).unwrap();
            assert_eq!(done.run_dir.as_deref(), Some("/r2"));
        }
        other => panic!("unexpected {other:?}"),
    }
}

#[test]
fn scalar_values() {
    assert_eq!(skill_str(&VirtuosoResult::success("\"s\"".into())), "s");
    assert_eq!(skill_str(&VirtuosoResult::success("nil".into())), "nil");
}
