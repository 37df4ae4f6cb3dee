use virtuoso_cli::config::{parse_i64, parse_unsigned, Config, ConfigVars};
use virtuoso_cli::error::VirtuosoError;

fn vars() -> ConfigVars {
    ConfigVars {
        remote_host: Some("eda01".to_string()),
        remote_user: None,
        port: None,
        jump_host: None,
        jump_user: None,
        timeout: None,
        keep_remote_files: None,
        spectre_cmd: None,
        spectre_args: None,
    }
}

#[test]
fn defaults_apply_when_unset() {
    let c = Config::from_vars(vars()).unwrap();
    assert_eq!(c.remote_host, "eda01");
    assert_eq!(c.port, 65432);
    assert_eq!(c.timeout, 30);
    assert!(!c.keep_remote_files);
    assert_eq!(c.spectre_cmd, "spectre");
    assert!(c.spectre_args.is_empty());
    assert!(c.is_remote());
}

#[test]
fn missing_host_is_a_config_error() {
    let mut v = vars();
    v.remote_host = None;
    match Config::from_vars(v) {
        Err(VirtuosoError::Config(m)) => assert_eq!(m, "VB_REMOTE_HOST not set"),
        other => panic!("unexpected: {other:?}"),
    }
}

#[test]
fn settings_are_parsed() {
    let mut v = vars();
    v.port = Some("+7001".to_string());
    v.timeout = Some("abc".to_string());
    v.keep_remote_files = Some("TRUE".to_string());
    v.spectre_args = Some("+aps -64 \"a b\"".to_string());
    let c = Config::from_vars(v).unwrap();
    assert_eq!(c.port, 7001);
    assert_eq!(c.timeout, 30);
    assert!(c.keep_remote_files);
    assert_eq!(c.spectre_args, vec!["+aps", "-64", "a b"]);
}

#[test]
fn out_of_range_port_falls_back() {
    let mut v = vars();
    v.port = Some("70000".to_string());
    v.spectre_args = Some("\"unclosed".to_string());
    let c = Config::from_vars(v).unwrap();
    assert_eq!(c.port, 65432);
    assert!(c.spectre_args.is_empty());
}

#[test]
fn ssh_target_and_jump() {
    let mut v = vars();
    v.remote_user = Some("me".to_string());
    v.jump_host = Some("bastion".to_string());
    let c = Config::from_vars(v).unwrap();
    assert_eq!(c.ssh_target(), "me@eda01");
    assert_eq!(c.ssh_jump(), Some("bastion".to_string()));
    let mut v = vars();
    v.jump_host = Some("bastion".to_string());
    v.jump_user = Some("j".to_string());
    let c = Config::from_vars(v).unwrap();
    assert_eq!(c.ssh_jump(), Some("j@bastion".to_string()));
    assert_eq!(c.ssh_target(), "eda01");
    let c = Config::from_vars(vars()).unwrap();
    assert_eq!(c.ssh_jump(), None);
}

#[test]
fn unsigned_parse_matches_std() {
    for s in ["0", "65535", "65536", "+1", "+", "", "-1", "1 ", "007", "99999999999999999999"] {
        let expect = s.parse::<u16>().ok().map(|v| v as u64);
        assert_eq!(parse_unsigned(s, 65535), expect, "{s}");
        let expect64 = s.parse::<u64>().ok();
        assert_eq!(parse_unsigned(s, u64::MAX), expect64, "{s}");
    }
}

#[test]
fn signed_parse_matches_std() {
    for s in ["0", "-0", "+5", "-5", "-", "+", "", "9223372036854775807", "9223372036854775808",
              "-9223372036854775808", "-9223372036854775809", "-+1", "1,2"] {
        assert_eq!(parse_i64(s), s.parse::<i64>().ok(), "{s}");
    }
}
