use virtuoso_cli::config::{Config, ConfigVars};
use virtuoso_cli::error::VirtuosoError;
use virtuoso_cli::models::TunnelState;
use virtuoso_cli::tunnel::{daemon_kind, il_script, native_daemon_name, DaemonKind, SSHClient};

fn cfg(user: Option<&str>, jump: Option<&str>, jump_user: Option<&str>) -> Config {
    Config::from_vars(ConfigVars {
        remote_host: Some("eda".to_string()),
        remote_user: user.map(|s| s.to_string()),
        port: Some("6000".to_string()),
        jump_host: jump.map(|s| s.to_string()),
        jump_user: jump_user.map(|s| s.to_string()),
        timeout: None,
        keep_remote_files: None,
        spectre_cmd: None,
        spectre_args: None,
    })
    .unwrap()
}

#[test]
fn client_from_config() {
    let c = SSHClient::from_env(&cfg(Some("me"), None, Some("ignored")), true);
    assert_eq!(c.port, 6000);
    assert!(c.keep_remote_files);
    assert!(c.tunnel_pid.is_none());
    assert_eq!(c.runner.user.as_deref(), Some("me"));
    assert_eq!(c.runner.jump_user, None);
    assert_eq!(c.runner.remote_target(), "me@eda");
}

#[test]
fn tunnel_arguments() {
    let c = SSHClient::from_env(&cfg(None, Some("bastion"), Some("j")), false);
    let args = c.tunnel_args(6001);
    assert_eq!(
        args,
        vec![
            "-o", "BatchMode=yes", "-o", "ExitOnForwardFailure=yes", "-o", "ServerAliveInterval=30",
            "-o", "ServerAliveCountMax=3", "-f", "-N", "-L", "127.0.0.1:6001:127.0.0.1:6001", "eda", "-J", "bastion",
        ]
    );
}

#[test]
fn tunnel_ports_are_ten_consecutive() {
    let c = SSHClient::from_env(&cfg(None, None, None), false);
    assert_eq!(c.tunnel_ports(), (6000..6010).collect::<Vec<u16>>());
}

#[test]
fn saved_state() {
    let mut c = SSHClient::from_env(&cfg(None, None, None), false);
    c.tunnel_pid = Some(42);
    let s = c.tunnel_state();
    assert_eq!((s.version, s.port, s.pid), (1, 6000, 42));
    assert_eq!(s.remote_host, "eda");
    assert_eq!(s.setup_path.as_deref(), Some("/tmp/virtuoso_bridge"));
    let state = Some(TunnelState { version: 1, port: 7, pid: 1, remote_host: "x".into(), setup_path: None });
    assert_eq!(c.saved_port(&state), Some(7));
    assert_eq!(c.saved_port(&None), None);
}

#[test]
fn daemon_choice() {
    assert_eq!(daemon_kind(&Some("Python 2.7.5".to_string())), DaemonKind::Python27);
    assert_eq!(daemon_kind(&Some("Python 3.9".to_string())), DaemonKind::Python3);
    assert_eq!(daemon_kind(&None), DaemonKind::Native);
    assert_eq!(native_daemon_name("x86_64").unwrap(), "virtuoso-daemon-x86_64");
    assert_eq!(native_daemon_name("aarch64").unwrap(), "virtuoso-daemon-aarch64");
    match native_daemon_name("ppc64") {
        Err(VirtuosoError::Ssh(m)) => assert_eq!(m, "unsupported architecture: ppc64"),
        other => panic!("unexpected {other:?}"),
    }
}

#[test]
fn loader_placeholders() {
    let t = "daemon=__DAEMON_PATH__ py=__PYTHON_CMD__ again=__DAEMON_PATH__";
    assert_eq!(il_script(t, "/d", Some("python3")), "daemon=/d py=python3 again=/d");
    assert_eq!(il_script(t, "/d", None), "daemon=/d py= again=/d");
}

#[test]
fn file_digest_is_sha256_hex() {
    assert_eq!(
        virtuoso_cli::tunnel::file_md5(b"abc"),
        "ba7816bf8f01cfea414140de5dae2223b00361a396177a9cb410ff61f20015ad"
    );
    assert_eq!(
        virtuoso_cli::tunnel::file_md5(b""),
        "e3b0c44298fc1c149afbf4c8996fb92427ae41e4649b934ca495991b7852b855"
    );
}
