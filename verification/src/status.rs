use vstd::prelude::*;
use crate::config::Config;
use crate::error::{error_message, VirtuosoError};
use crate::models::TunnelState;
use crate::text::{push_str, string_from};

verus! {

/// The remote host a status report shows: the host, or `local`.
pub fn host_label(cfg: &Config) -> (r: String)
    ensures
        r@ == (if cfg.remote_host@.len() > 0 { cfg.remote_host@ } else { "local"@ }),
{
    if cfg.is_remote() { string_from(cfg.remote_host.as_str()) } else { string_from("local") }
}

/// Whether a saved tunnel goes to the configured host (always, when local).
pub fn tunnel_host_matches(cfg: &Config, state: &TunnelState) -> (b: bool)
    ensures
        b == (cfg.remote_host@.len() == 0 || state.remote_host@ == cfg.remote_host@),
{
    !cfg.is_remote() || crate::text::str_eq(state.remote_host.as_str(), cfg.remote_host.as_str())
}

/// The port the daemon is probed on: the saved tunnel's, else the configured one.
pub fn daemon_port(state: &Option<TunnelState>, cfg: &Config) -> (p: u16)
    ensures
        p == (match state { Some(s) => s.port, None => cfg.port }),
{
    match state {
        Some(s) => s.port,
        None => cfg.port,
    }
}

/// What the daemon probe found: whether the daemon answers, and a detail
/// when it does not.
#[derive(Debug)]
pub struct DaemonStatus {
    pub responsive: bool,
    pub detail: Option<String>,
}

/// The daemon's status: unreachable port, a connection test reply
/// (`probe`), or the test's error.
pub fn daemon_status(port_open: bool, probe: Option<Result<bool, VirtuosoError>>) -> (d: DaemonStatus)
    ensures
        !port_open || probe is None ==> !d.responsive && (d.detail matches Some(m) && m@ == "port not reachable"@),
        port_open ==> match probe {
            Some(Ok(true)) => d.responsive && d.detail is None,
            Some(Ok(false)) => !d.responsive && (d.detail matches Some(m) && m@ == "unexpected response"@),
            Some(Err(e)) => !d.responsive && (d.detail matches Some(m) && m@ == error_message(e)),
            None => true,
        },
{
    if !port_open {
        return DaemonStatus { responsive: false, detail: Some(string_from("port not reachable")) };
    }
    match probe {
        Some(Ok(true)) => DaemonStatus { responsive: true, detail: None },
        Some(Ok(false)) => DaemonStatus { responsive: false, detail: Some(string_from("unexpected response")) },
        Some(Err(e)) => DaemonStatus { responsive: false, detail: Some(e.to_string()) },
        None => DaemonStatus { responsive: false, detail: Some(string_from("port not reachable")) },
    }
}

/// The daemon line of the plain status report.
pub fn daemon_line(port_open: bool, probe: Option<Result<bool, VirtuosoError>>) -> (r: String)
    ensures
        !port_open || probe is None ==> r@ == "daemon: no tunnel, cannot reach daemon"@,
        port_open ==> match probe {
            Some(Ok(true)) => r@ == "daemon: responsive"@,
            Some(Ok(false)) => r@ == "daemon: responded unexpectedly"@,
            Some(Err(e)) => r@ == "daemon: not reachable ("@ + error_message(e) + ")"@,
            None => true,
        },
{
    if !port_open {
        return string_from("daemon: no tunnel, cannot reach daemon");
    }
    match probe {
        Some(Ok(true)) => string_from("daemon: responsive"),
        Some(Ok(false)) => string_from("daemon: responded unexpectedly"),
        Some(Err(e)) => {
            let mut r = string_from("daemon: not reachable (");
            push_str(&mut r, e.to_string().as_str());
            push_str(&mut r, ")");
            r
        },
        None => string_from("daemon: no tunnel, cannot reach daemon"),
    }
}

} // verus!
