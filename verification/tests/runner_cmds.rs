use virtuoso_cli::config::{Config, ConfigVars};
use virtuoso_cli::daemon::{frame_reply, timeout_reply, ReplyFramer, RS};
use virtuoso_cli::error::CliError;
use virtuoso_cli::models::ExecutionStatus;
use virtuoso_cli::output::OutputFormat;
use virtuoso_cli::spectre::{exit_error, remote_outcome, SpectreSimulator};

fn cfg(host: &str, args: Option<&str>) -> Config {
    Config::from_vars(ConfigVars {
        remote_host: Some(host.to_string()),
        remote_user: None,
        port: None,
        jump_host: None,
        jump_user: None,
        timeout: Some("60".into()),
        keep_remote_files: Some("1".into()),
        spectre_cmd: Some("/opt/spectre".into()),
        spectre_args: args.map(|s| s.to_string()),
    })
    .unwrap()
}

#[test]
fn simulator_from_config() {
    let local = SpectreSimulator::from_env(&cfg("", None), "/work".into());
    assert!(!local.remote);
    assert!(local.ssh_runner.is_none());
    assert_eq!(local.output_format, "psfascii");
    let remote = SpectreSimulator::from_env(&cfg("eda", Some("+aps")), "/work".into());
    assert!(remote.remote);
    assert_eq!(remote.ssh_runner.as_ref().unwrap().host, "eda");
    assert!(remote.keep_remote_files);
    assert_eq!(remote.remote_timeout(), 120);
}

#[test]
fn command_lines() {
    let sim = SpectreSimulator::from_env(&cfg("eda", Some("+aps -v")), "/w".into());
    let args = sim.local_args("/w/r/input.scs", "/w/r/spectre.out", "/w/r/raw");
    assert_eq!(
        args,
        vec!["-64", "/w/r/input.scs", "+escchars", "+log", "/w/r/spectre.out", "-format", "psfascii", "-raw",
             "/w/r/raw", "+lqtimeout", "900", "-maxw", "5", "-maxn", "5", "+logstatus", "+aps", "-v"]
    );
    assert_eq!(SpectreSimulator::remote_run_dir("abc"), "/tmp/virtuoso_bridge/spectre/abc");
    assert_eq!(
        sim.remote_sim_command("/tmp/d"),
        "cd /tmp/d && /opt/spectre -64 input.scs +escchars +log spectre.out -format psfascii -raw raw +lqtimeout 900 -maxw 5 -maxn 5 +logstatus +aps -v"
    );
    let plain = SpectreSimulator::from_env(&cfg("eda", None), "/w".into());
    assert!(plain.remote_spectre_command().ends_with("+logstatus"));
}

#[test]
fn outcomes() {
    assert_eq!(exit_error(Some(-1)), "spectre exited with code Some(-1)");
    assert_eq!(exit_error(None), "spectre exited with code None");
    let (st, errs) = remote_outcome(false, "boom");
    assert_eq!(st, ExecutionStatus::Error);
    assert_eq!(errs, vec!["boom".to_string()]);
    assert_eq!(remote_outcome(true, "x").0, ExecutionStatus::Success);
}

#[test]
fn output_format_choice() {
    assert_eq!(OutputFormat::resolve(Some("json"), true), OutputFormat::Json);
    assert_eq!(OutputFormat::resolve(Some("table"), false), OutputFormat::Table);
    assert_eq!(OutputFormat::resolve(Some("yaml"), false), OutputFormat::Table);
    assert_eq!(OutputFormat::resolve(None, true), OutputFormat::Table);
    assert_eq!(OutputFormat::resolve(None, false), OutputFormat::Json);
}

#[test]
fn cli_error_table() {
    let e = CliError { error: "x".into(), message: "m".into(), suggestion: Some("s".into()), retryable: false };
    assert_eq!(e.table_text(), "error: m\nsuggestion: s\n");
    let e = CliError { error: "x".into(), message: "m".into(), suggestion: None, retryable: true };
    assert_eq!(e.table_text(), "error: m\n");
}

#[test]
fn framer_collects_reply() {
    let mut f = ReplyFramer::new();
    let mut got = None;
    for b in b"noise\x02hello\x1erest" {
        if let Some(v) = f.feed(*b) {
            got = Some(v);
            break;
        }
    }
    assert_eq!(got.unwrap(), b"\x02hello".to_vec());
    assert_eq!(timeout_reply(), b"\x15TimeoutError\x1e".to_vec());
}

#[test]
fn framed_reply_reads_back_after_noise() {
    let mut bytes = b"prompt> ".to_vec();
    bytes.push(0x02);
    bytes.extend_from_slice(b"42");
    bytes.push(RS);
    bytes.extend_from_slice(b"\x02later");
    let mut expected = vec![0x02u8];
    expected.extend_from_slice(b"42");
    assert_eq!(frame_reply(&bytes), Some(expected));
    // an error reply keeps its NAK
    assert_eq!(frame_reply(&[0x15, b'e', RS]), Some(vec![0x15, b'e']));
    // no end marker yet: nothing to read
    assert_eq!(frame_reply(&[0x02, b'4']), None);
    assert_eq!(frame_reply(b"noise only"), None);
}
