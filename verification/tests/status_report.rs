use virtuoso_cli::config::{Config, ConfigVars};
use virtuoso_cli::error::VirtuosoError;
use virtuoso_cli::models::TunnelState;
use virtuoso_cli::status::{daemon_line, daemon_port, daemon_status, host_label, tunnel_host_matches};

fn cfg(host: &str) -> Config {
    Config::from_vars(ConfigVars {
        remote_host: Some(host.to_string()),
        remote_user: None,
        port: Some("6000".into()),
        jump_host: None,
        jump_user: None,
        timeout: None,
        keep_remote_files: None,
        spectre_cmd: None,
        spectre_args: None,
    })
    .unwrap()
}

fn state(host: &str) -> TunnelState {
    TunnelState { version: 1, port: 7000, pid: 3, remote_host: host.into(), setup_path: None }
}

#[test]
fn host_labels() {
    assert_eq!(host_label(&cfg("eda")), "eda");
    assert_eq!(host_label(&cfg("")), "local");
    assert!(tunnel_host_matches(&cfg("eda"), &state("eda")));
    assert!(!tunnel_host_matches(&cfg("eda"), &state("other")));
    assert!(tunnel_host_matches(&cfg(""), &state("other")));
    assert_eq!(daemon_port(&Some(state("x")), &cfg("eda")), 7000);
    assert_eq!(daemon_port(&None, &cfg("eda")), 6000);
}

#[test]
fn daemon_reports() {
    let d = daemon_status(false, None);
    assert!(!d.responsive);
    assert_eq!(d.detail.as_deref(), Some("port not reachable"));
    assert!(daemon_status(true, Some(Ok(true))).responsive);
    assert_eq!(daemon_status(true, Some(Ok(false))).detail.as_deref(), Some("unexpected response"));
    assert_eq!(
        daemon_status(true, Some(Err(VirtuosoError::Timeout(5)))).detail.as_deref(),
        Some("timeout after 5s")
    );
    assert_eq!(daemon_line(true, Some(Ok(true))), "daemon: responsive");
    assert_eq!(daemon_line(false, None), "daemon: no tunnel, cannot reach daemon");
    assert_eq!(
        daemon_line(true, Some(Err(VirtuosoError::Connection("refused".into())))),
        "daemon: not reachable (connection failed: refused)"
    );
}
