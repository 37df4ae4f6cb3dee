use virtuoso_cli::error::{ExitKind, VirtuosoError};

#[test]
fn exit_kinds_and_codes() {
    assert_eq!(VirtuosoError::Config("x".into()).exit_code(), ExitKind::UsageError);
    assert_eq!(VirtuosoError::NotFound("x".into()).exit_code(), ExitKind::NotFound);
    assert_eq!(VirtuosoError::Conflict("x".into()).exit_code(), ExitKind::Conflict);
    assert_eq!(VirtuosoError::Timeout(1).exit_code(), ExitKind::GeneralError);
    assert_eq!(ExitKind::GeneralError.code(), 1);
    assert_eq!(ExitKind::UsageError.code(), 2);
    assert_eq!(ExitKind::NotFound.code(), 3);
    assert_eq!(ExitKind::Conflict.code(), 5);
}

#[test]
fn messages_and_types() {
    let cases: Vec<(VirtuosoError, &str, &str)> = vec![
        (VirtuosoError::Connection("c".into()), "connection failed: c", "connection_failed"),
        (VirtuosoError::Execution("e".into()), "execution failed: e", "execution_failed"),
        (VirtuosoError::Ssh("s".into()), "ssh error: s", "ssh_error"),
        (VirtuosoError::Io("i".into()), "io error: i", "io_error"),
        (VirtuosoError::Json("j".into()), "json error: j", "json_error"),
        (VirtuosoError::Timeout(30), "timeout after 30s", "timeout"),
        (VirtuosoError::DaemonNotReady("d".into()), "daemon not ready: d", "daemon_not_ready"),
        (VirtuosoError::Config("g".into()), "config error: g", "config_error"),
        (VirtuosoError::NotFound("n".into()), "not found: n", "not_found"),
        (VirtuosoError::Conflict("k".into()), "conflict: k", "conflict"),
    ];
    for (e, msg, ty) in cases {
        assert_eq!(e.to_string(), msg);
        assert_eq!(e.error_type(), ty);
    }
}

#[test]
fn suggestions_and_retry() {
    assert_eq!(VirtuosoError::Timeout(30).suggestion().as_deref(), Some("Retry with --timeout 60"));
    assert_eq!(VirtuosoError::Config("VB_REMOTE_HOST not set".into()).suggestion().as_deref(), Some("Run: virtuoso init"));
    assert_eq!(VirtuosoError::Config("other".into()).suggestion(), None);
    assert_eq!(VirtuosoError::Connection("x".into()).suggestion().as_deref(), Some("Run: virtuoso tunnel start"));
    assert_eq!(VirtuosoError::Ssh("authentication failed".into()).suggestion().as_deref(), Some("Check SSH keys: ssh-add -l"));
    assert!(VirtuosoError::Timeout(1).retryable());
    assert!(!VirtuosoError::Execution("x".into()).retryable());
    let c = VirtuosoError::DaemonNotReady("boot".into()).to_cli_error();
    assert_eq!(c.error, "daemon_not_ready");
    assert_eq!(c.message, "daemon not ready: boot");
    assert!(c.retryable);
}
