use virtuoso_cli::bridge::{PortSource, VirtuosoClient};
use virtuoso_cli::error::VirtuosoError;
use virtuoso_cli::models::{ExecutionStatus, SessionInfo, VirtuosoResult};

fn session(id: &str, port: u16) -> SessionInfo {
    SessionInfo { id: id.to_string(), port, pid: 1, host: "h".to_string(), created: "t".to_string() }
}

#[test]
fn new_client_has_no_tunnel() {
    let c = VirtuosoClient::local("127.0.0.1", 65432, 30);
    assert_eq!(c.host, "127.0.0.1");
    assert_eq!(c.port, 65432);
    assert_eq!(c.timeout, 30);
    assert!(c.tunnel().is_none());
}

#[test]
fn decode_empty_reply_is_error() {
    match VirtuosoClient::decode_response(&[]) {
        Err(VirtuosoError::Execution(m)) => assert_eq!(m, "empty response from daemon"),
        other => panic!("unexpected {other:?}"),
    }
}

#[test]
fn decode_stx_nak_and_other() {
    let ok = VirtuosoClient::decode_response(&[0x02, b'4', b'2']).unwrap();
    assert_eq!(ok.status, ExecutionStatus::Success);
    assert_eq!(ok.output, "42");
    let to = VirtuosoClient::decode_response(b"\x02TimeoutError").unwrap();
    assert_eq!(to.status, ExecutionStatus::Error);
    assert_eq!(to.errors, vec!["TimeoutError".to_string()]);
    assert_eq!(to.output, "");
    let nak = VirtuosoClient::decode_response(b"\x15bad").unwrap();
    assert_eq!(nak.status, ExecutionStatus::Error);
    assert_eq!(nak.errors, vec!["bad".to_string()]);
    let raw = VirtuosoClient::decode_response(b"xyz").unwrap();
    assert_eq!(raw.status, ExecutionStatus::Success);
    assert_eq!(raw.output, "xyz");
    assert_eq!(raw.warnings, vec!["non-standard response marker".to_string()]);
}

#[test]
fn decode_replaces_invalid_utf8() {
    let r = VirtuosoClient::decode_response(&[0x02, b'a', 0xff, b'b']).unwrap();
    assert_eq!(r.output, "a\u{FFFD}b");
}

#[test]
fn request_payload_is_json() {
    let t = VirtuosoClient::request_payload("print(\"x\")", 30).unwrap();
    assert_eq!(t, r#"{"skill":"print(\"x\")","timeout":30}"#);
}

#[test]
fn connection_probe_reply() {
    let c = VirtuosoClient::new("h", 1, 1);
    assert_eq!(VirtuosoClient::probe_skill(), "1+1");
    assert!(c.test_connection(Ok(VirtuosoResult::success(" 2\n".to_string()))).unwrap());
    assert!(!c.test_connection(Ok(VirtuosoResult::success("3".to_string()))).unwrap());
    assert!(c.test_connection(Err(VirtuosoError::Timeout(5))).is_err());
}

#[test]
fn current_design_from_reply() {
    let c = VirtuosoClient::new("h", 1, 1);
    let r = c.get_current_design(Ok(VirtuosoResult::success("(\"lib\" \"cell\" \"layout\")".to_string()))).unwrap();
    assert_eq!(r, ("lib".to_string(), "cell".to_string(), "layout".to_string()));
    match c.get_current_design(Ok(VirtuosoResult::success("nil".to_string()))) {
        Err(VirtuosoError::Execution(m)) => assert_eq!(m, "failed to get current design"),
        other => panic!("unexpected {other:?}"),
    }
}

#[test]
fn operations_block() {
    assert!(VirtuosoClient::operations_skill(&[]).is_none());
    let s = VirtuosoClient::operations_skill(&["a()".to_string(), "b()".to_string()]).unwrap();
    assert_eq!(s, "progn(\na()\nb()\n)");
}

#[test]
fn skill_builders_escape() {
    assert_eq!(
        VirtuosoClient::open_cell_view_skill("l", "c\"", "v", "a"),
        r#"geOpenCellView(?libName "l" ?cellName "c\"" ?viewName "v" ?mode "a")"#
    );
    assert_eq!(VirtuosoClient::load_il_skill("/tmp/x.il"), r#"(load "/tmp/x.il")"#);
    assert_eq!(VirtuosoClient::shell_command_skill("ls \"a\""), r#"(csh "ls \"a\"")"#);
    assert_eq!(VirtuosoClient::ciw_print_skill("hi"), r#"printf("[virtuoso-cli] hi\n")"#);
    assert_eq!(VirtuosoClient::remote_il_path("f.il"), "/tmp/virtuoso_bridge/f.il");
}

#[test]
fn port_resolution() {
    assert!(matches!(VirtuosoClient::port_source(Some(7), Some("s".into())), PortSource::Saved(7)));
    assert!(matches!(VirtuosoClient::port_source(None, Some("s".into())), PortSource::Session(ref s) if s == "s"));
    assert!(matches!(VirtuosoClient::port_source(None, None), PortSource::Discover));
    assert_eq!(VirtuosoClient::session_port("s", Ok(session("s", 9))).unwrap(), 9);
    match VirtuosoClient::session_port("s", Err("gone".into())) {
        Err(VirtuosoError::Config(m)) => assert_eq!(m, "session 's' not found: gone. Run `virtuoso session list`."),
        other => panic!("unexpected {other:?}"),
    }
    assert_eq!(VirtuosoClient::discovered_port(Some(vec![session("a", 5)]), 1).unwrap(), 5);
    assert_eq!(VirtuosoClient::discovered_port(Some(vec![]), 1).unwrap(), 1);
    assert_eq!(VirtuosoClient::discovered_port(None, 3).unwrap(), 3);
    match VirtuosoClient::discovered_port(Some(vec![session("a", 5), session("b", 6)]), 1) {
        Err(VirtuosoError::Config(m)) => assert_eq!(m, "multiple Virtuoso sessions active: a, b. Use --session <id> to select one."),
        other => panic!("unexpected {other:?}"),
    }
}

#[test]
fn request_payload_escapes_controls() {
    let t = VirtuosoClient::request_payload("a\nb\\c\u{1}\té", 7).unwrap();
    assert_eq!(t, "{\"skill\":\"a\\nb\\\\c\\u0001\\té\",\"timeout\":7}");
}
