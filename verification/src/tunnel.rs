use vstd::prelude::*;
use crate::chars::{contains, replaced, replace_all, str_contains, strings_view};
use crate::config::{opt_view, Config};
use crate::error::VirtuosoError;
use crate::models::TunnelState;
use crate::text::{nat_text, push_char, push_nat, push_str, str_eq, string_from};
use crate::bridge::hex_digit;
use sha2::Digest;

verus! {

/// The directory on the remote host that holds the bridge's files.
pub open spec fn setup_dir() -> Seq<char> {
    "/tmp/virtuoso_bridge"@
}

/// The remote host that SSH commands go to: host, login user, jump host.
#[derive(Clone, Debug)]
pub struct SshTarget {
    pub host: String,
    pub user: Option<String>,
    pub jump_host: Option<String>,
    pub jump_user: Option<String>,
}

impl SshTarget {
    /// The target a configuration names. The jump user only counts when a
    /// jump host is set.
    pub fn from_config(cfg: &Config) -> (t: Self)
        ensures
            names_target(*cfg, t),
    {
        let jump_user = match &cfg.jump_host {
            Some(_) => match &cfg.jump_user {
                Some(u) => Some(string_from(u.as_str())),
                None => None,
            },
            None => None,
        };
        SshTarget {
            host: string_from(cfg.remote_host.as_str()),
            user: match &cfg.remote_user {
                Some(u) => Some(string_from(u.as_str())),
                None => None,
            },
            jump_host: match &cfg.jump_host {
                Some(h) => Some(string_from(h.as_str())),
                None => None,
            },
            jump_user,
        }
    }

    /// The SSH destination: `user@host`, or the host alone.
    pub fn remote_target(&self) -> (r: String)
        ensures
            r@ == target_text(*self),
    {
        match &self.user {
            Some(u) => {
                let mut r = string_from(u.as_str());
                push_char(&mut r, '@');
                push_str(&mut r, self.host.as_str());
                r
            },
            None => string_from(self.host.as_str()),
        }
    }
}

/// `t` is the target that `cfg` names; the jump user only counts when a
/// jump host is set.
pub open spec fn names_target(cfg: Config, t: SshTarget) -> bool {
    &&& t.host@ == cfg.remote_host@
    &&& opt_view(t.user) == opt_view(cfg.remote_user)
    &&& opt_view(t.jump_host) == opt_view(cfg.jump_host)
    &&& opt_view(t.jump_user) == (if cfg.jump_host is Some { opt_view(cfg.jump_user) } else { None })
}

/// `user@host`, or the host alone.
pub open spec fn target_text(t: SshTarget) -> Seq<char> {
    match t.user {
        Some(u) => u@ + seq!['@'] + t.host@,
        None => t.host@,
    }
}

/// An SSH connection to the remote Virtuoso host and its port forward.
pub struct SSHClient {
    pub runner: SshTarget,
    pub port: u16,
    pub keep_remote_files: bool,
    pub tunnel_pid: Option<u32>,
}

/// `127.0.0.1:<port>:127.0.0.1:<port>`, the forward of a local port to the
/// same port on the remote host.
pub open spec fn forward_spec(port: u16) -> Seq<char> {
    "127.0.0.1:"@ + nat_text(port as nat) + ":127.0.0.1:"@ + nat_text(port as nat)
}

/// The arguments of the `ssh` command that opens the port forward.
pub open spec fn tunnel_args_spec(t: SshTarget, port: u16) -> Seq<Seq<char>> {
    let base = seq![
        "-o"@, "BatchMode=yes"@, "-o"@, "ExitOnForwardFailure=yes"@, "-o"@, "ServerAliveInterval=30"@,
        "-o"@, "ServerAliveCountMax=3"@, "-f"@, "-N"@, "-L"@, forward_spec(port), target_text(t)
    ];
    match t.jump_host {
        Some(j) => base + seq!["-J"@, j@],
        None => base,
    }
}

fn push_owned(v: &mut Vec<String>, s: &str)
    ensures
        strings_view(final(v)@) == strings_view(old(v)@).push(s@),
{
    let ghost before = v@;
    v.push(string_from(s));
    assert(strings_view(v@) =~= strings_view(before).push(s@));
}

impl SSHClient {
    /// A client for the configured host with no tunnel running yet.
    pub fn from_env(cfg: &Config, keep_remote_files: bool) -> (c: Self)
        ensures
            names_target(*cfg, c.runner),
            c.port == cfg.port,
            c.keep_remote_files == keep_remote_files,
            c.tunnel_pid is None,
    {
        SSHClient { runner: SshTarget::from_config(cfg), port: cfg.port, keep_remote_files, tunnel_pid: None }
    }

    /// The port of the saved tunnel state, if one was saved.
    pub fn saved_port(&self, state: &Option<TunnelState>) -> (r: Option<u16>)
        ensures
            r == (match state {
                Some(s) => Some(s.port),
                None => None,
            }),
    {
        match state {
            Some(s) => Some(s.port),
            None => None,
        }
    }

    /// The ports tried, in order, when establishing the tunnel.
    pub fn tunnel_ports(&self) -> (r: Vec<u16>)
        requires
            self.port + 10 <= u16::MAX,
        ensures
            r@.len() == 10,
            forall|i: int| 0 <= i < 10 ==> r@[i] == self.port + i,
    {
        let mut r: Vec<u16> = Vec::new();
        let mut p = self.port;
        while p < self.port + 10
            invariant
                self.port <= p <= self.port + 10,
                self.port + 10 <= u16::MAX,
                r@.len() == p - self.port,
                forall|i: int| 0 <= i < r@.len() ==> r@[i] == self.port + i,
            decreases self.port + 10 - p,
        {
            r.push(p);
            p = p + 1;
        }
        r
    }

    /// The arguments of the `ssh` command that forwards `port`.
    pub fn tunnel_args(&self, port: u16) -> (r: Vec<String>)
        ensures
            strings_view(r@) == tunnel_args_spec(self.runner, port),
    {
        let mut r: Vec<String> = Vec::new();
        proof { assert(strings_view(r@) =~= Seq::<Seq<char>>::empty()); }
        push_owned(&mut r, "-o");
        push_owned(&mut r, "BatchMode=yes");
        push_owned(&mut r, "-o");
        push_owned(&mut r, "ExitOnForwardFailure=yes");
        push_owned(&mut r, "-o");
        push_owned(&mut r, "ServerAliveInterval=30");
        push_owned(&mut r, "-o");
        push_owned(&mut r, "ServerAliveCountMax=3");
        push_owned(&mut r, "-f");
        push_owned(&mut r, "-N");
        push_owned(&mut r, "-L");
        let mut fwd = string_from("127.0.0.1:");
        push_nat(&mut fwd, port as u64);
        push_str(&mut fwd, ":127.0.0.1:");
        push_nat(&mut fwd, port as u64);
        push_owned(&mut r, fwd.as_str());
        let target = self.runner.remote_target();
        push_owned(&mut r, target.as_str());
        if let Some(j) = &self.runner.jump_host {
            push_owned(&mut r, "-J");
            push_owned(&mut r, j.as_str());
        }
        r
    }

    /// The tunnel state to save once the tunnel is up.
    pub fn tunnel_state(&self) -> (s: TunnelState)
        ensures
            s.version == 1,
            s.port == self.port,
            s.pid == (match self.tunnel_pid { Some(p) => p, None => 0 }),
            s.remote_host@ == self.runner.host@,
            opt_view(s.setup_path) == Some(setup_dir()),
    {
        TunnelState {
            version: 1,
            port: self.port,
            pid: match self.tunnel_pid {
                Some(p) => p,
                None => 0,
            },
            remote_host: string_from(self.runner.host.as_str()),
            setup_path: Some(string_from("/tmp/virtuoso_bridge")),
        }
    }
}

/// Which daemon is deployed on the remote host.
#[derive(Clone, Copy, Debug, PartialEq, Eq, Structural)]
pub enum DaemonKind {
    /// The Python 2.7 daemon script.
    Python27,
    /// The Python 3 daemon script.
    Python3,
    /// The native daemon binary (no Python found).
    Native,
}

/// The daemon for the detected Python: a version string holding `2.7`
/// gets the 2.7 script, any other the Python 3 script, none the binary.
pub fn daemon_kind(python: &Option<String>) -> (k: DaemonKind)
    ensures
        k == (match python {
            Some(p) => if contains(p@, "2.7"@) { DaemonKind::Python27 } else { DaemonKind::Python3 },
            None => DaemonKind::Native,
        }),
{
    match python {
        Some(p) => if str_contains(p.as_str(), "2.7") { DaemonKind::Python27 } else { DaemonKind::Python3 },
        None => DaemonKind::Native,
    }
}

/// The name of the native daemon binary for a machine architecture.
pub fn native_daemon_name(arch: &str) -> (r: Result<&'static str, VirtuosoError>)
    ensures
        arch@ == "x86_64"@ ==> (r matches Ok(n) && n@ == "virtuoso-daemon-x86_64"@),
        arch@ == "aarch64"@ ==> (r matches Ok(n) && n@ == "virtuoso-daemon-aarch64"@),
        arch@ != "x86_64"@ && arch@ != "aarch64"@ ==> (r matches Err(VirtuosoError::Ssh(m))
            && m@ == "unsupported architecture: "@ + arch@),
{
    proof {
        reveal_strlit("x86_64");
        reveal_strlit("aarch64");
        assert("aarch64"@.len() != "x86_64"@.len());
    }
    if str_eq(arch, "x86_64") {
        Ok("virtuoso-daemon-x86_64")
    } else if str_eq(arch, "aarch64") {
        Ok("virtuoso-daemon-aarch64")
    } else {
        let mut m = string_from("unsupported architecture: ");
        push_str(&mut m, arch);
        Err(VirtuosoError::Ssh(m))
    }
}

/// The SKILL loader script with its placeholders filled in: the daemon's
/// path for `__DAEMON_PATH__` and the Python command (or nothing) for
/// `__PYTHON_CMD__`.
pub fn il_script(template: &str, daemon_path: &str, python: Option<&str>) -> (r: String)
    ensures
        r@ == replaced(replaced(template@, "__DAEMON_PATH__"@, daemon_path@), "__PYTHON_CMD__"@,
            match python { Some(p) => p@, None => Seq::<char>::empty() }),
{
    proof {
        reveal_strlit("__DAEMON_PATH__");
        reveal_strlit("__PYTHON_CMD__");
    }
    let step = replace_all(template, "__DAEMON_PATH__", daemon_path);
    let py = match python {
        Some(p) => p,
        None => "",
    };
    proof {
        reveal_strlit("");
        assert(""@ =~= Seq::<char>::empty());
    }
    replace_all(step.as_str(), "__PYTHON_CMD__", py)
}

// ───────────────────────── file digests ─────────────────────────

/// The SHA-256 digest of some bytes.
pub uninterp spec fn sha256(data: Seq<u8>) -> Seq<u8>;

/// `sha2::Sha256::digest`: the claim is that the result is `sha256` of the
/// bytes and, as the algorithm's output size fixes, 32 bytes long.
#[verifier::external_body]
fn sha256_digest(data: &[u8]) -> (r: Vec<u8>)
    ensures
        r@ == sha256(data@),
        r@.len() == 32,
{
    sha2::Sha256::digest(data).to_vec()
}

/// Bytes in lowercase hexadecimal, two digits per byte, high digit first.
pub open spec fn hex_text(bytes: Seq<u8>) -> Seq<char>
    decreases bytes.len(),
{
    if bytes.len() == 0 {
        Seq::empty()
    } else {
        hex_text(bytes.drop_last()) + seq![hex_digit(bytes.last() as int / 16), hex_digit(bytes.last() as int % 16)]
    }
}

proof fn lemma_hex_text_len(bytes: Seq<u8>)
    ensures
        hex_text(bytes).len() == 2 * bytes.len(),
    decreases bytes.len(),
{
    if bytes.len() > 0 {
        lemma_hex_text_len(bytes.drop_last());
    }
}

/// `hex::encode`: the claim is that it writes each byte as two lowercase
/// hexadecimal digits, high digit first, as its lookup table shows.
#[verifier::external_body]
fn hex_encode(bytes: &[u8]) -> (r: String)
    ensures
        r@ == hex_text(bytes@),
{
    hex::encode(bytes)
}

/// The digest a file's content is known by: its SHA-256 in lowercase
/// hexadecimal (64 characters).
pub fn file_md5(content: &[u8]) -> (r: String)
    ensures
        r@ == hex_text(sha256(content@)),
        r@.len() == 64,
{
    let digest = sha256_digest(content);
    let r = hex_encode(digest.as_slice());
    proof {
        lemma_hex_text_len(digest@);
    }
    r
}

} // verus!
