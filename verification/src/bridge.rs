use vstd::prelude::*;
use crate::chars::{contains, str_contains, strings_view, trim, trim_char, trim_chars, trim_char_chars, trim_parens, trim_parens_chars};
use crate::error::VirtuosoError;
use crate::layout_ops::LayoutOps;
use crate::maestro_ops::MaestroOps;
use crate::models::{ExecutionStatus, SessionInfo, VirtuosoResult};
use crate::schematic_ops::SchematicOps;
use crate::session::{three_words, three_words_exec};
use crate::text::{chars_of, joined, join_strings, nat_text, push_char, push_nat, push_quoted, push_str, quoted, str_eq, string_from, string_of};
use crate::tunnel::SSHClient;
use crate::window_ops::WindowOps;

verus! {

/// The byte that opens a successful daemon reply.
pub const STX: u8 = 0x02;

/// The byte that opens a failed daemon reply.
pub const NAK: u8 = 0x15;

/// The largest daemon reply accepted, in bytes.
pub const MAX_RESPONSE_SIZE: usize = 104857600;

// ───────────────────────── outside calls ─────────────────────────

/// The text `String::from_utf8_lossy` makes of a byte string (invalid
/// sequences become U+FFFD).
pub uninterp spec fn utf8_lossy(bytes: Seq<u8>) -> Seq<char>;

/// std `String::from_utf8_lossy`: the claim is only that the result is
/// `utf8_lossy` of the bytes.
#[verifier::external_body]
fn decode_utf8_lossy(bytes: &[u8]) -> (r: String)
    ensures
        r@ == utf8_lossy(bytes@),
{
    String::from_utf8_lossy(bytes).into_owned()
}

#[verifier::external_type_specification]
#[verifier::external_body]
pub struct ExJsonError(serde_json::Error);

/// The lowercase hexadecimal digit for `n` (below 16).
pub open spec fn hex_digit(n: int) -> char {
    if n < 10 { (48 + n) as char } else { (87 + n) as char }
}

/// How a JSON string writes one character: `"` and `\` behind a backslash,
/// backspace, tab, newline, form feed and carriage return as `\b`, `\t`,
/// `\n`, `\f`, `\r`, the other control characters below U+0020 as
/// `\u00XX` (lowercase hex), every other character as itself.
pub open spec fn json_char(c: char) -> Seq<char> {
    if c == '"' {
        seq!['\\', '"']
    } else if c == '\\' {
        seq!['\\', '\\']
    } else if c == '\u{8}' {
        seq!['\\', 'b']
    } else if c == '\t' {
        seq!['\\', 't']
    } else if c == '\n' {
        seq!['\\', 'n']
    } else if c == '\u{c}' {
        seq!['\\', 'f']
    } else if c == '\r' {
        seq!['\\', 'r']
    } else if (c as u32) < 0x20 {
        seq!['\\', 'u', '0', '0', hex_digit((c as u32) as int / 16), hex_digit((c as u32) as int % 16)]
    } else {
        seq![c]
    }
}

/// The characters of a text as a JSON string writes them.
pub open spec fn json_escaped(s: Seq<char>) -> Seq<char>
    decreases s.len(),
{
    if s.len() == 0 {
        Seq::empty()
    } else {
        json_escaped(s.drop_last()) + json_char(s.last())
    }
}

/// A text as a JSON string literal: quoted, its characters escaped.
pub open spec fn json_string(s: Seq<char>) -> Seq<char> {
    seq!['"'] + json_escaped(s) + seq!['"']
}

/// `serde_json::to_string` of a string: the claim is that it succeeds (a
/// string always serializes) and writes the string as `json_string` says,
/// as its escape table shows.
#[verifier::external_body]
fn json_quote(s: &str) -> (r: Result<String, serde_json::Error>)
    ensures
        r is Ok,
        r matches Ok(t) ==> t@ == json_string(s@),
{
    serde_json::to_string(s)
}

/// The request the daemon reads: `{"skill":<code>,"timeout":<timeout>}`,
/// the code as a JSON string and the timeout in decimal.
pub open spec fn request_json(code: Seq<char>, timeout: u64) -> Seq<char> {
    seq!['{', '"', 's', 'k', 'i', 'l', 'l', '"', ':'] + json_string(code)
        + seq![',', '"', 't', 'i', 'm', 'e', 'o', 'u', 't', '"', ':'] + nat_text(timeout as nat) + seq!['}']
}

fn push_seq_chars(r: &mut String, cs: &[char])
    ensures
        final(r)@ == old(r)@ + cs@,
{
    crate::text::push_chars(r, cs);
}

// ───────────────────────── the client ─────────────────────────

/// A connection to the SKILL daemon and the SKILL builders that go with it.
pub struct VirtuosoClient {
    pub host: String,
    pub port: u16,
    pub timeout: u64,
    pub tunnel: Option<SSHClient>,
    pub layout: LayoutOps,
    pub maestro: MaestroOps,
    pub schematic: SchematicOps,
    pub window: WindowOps,
}

/// What the daemon's reply bytes mean.
pub open spec fn reply_result(data: Seq<u8>, r: VirtuosoResult) -> bool {
    let payload = utf8_lossy(data.skip(1));
    &&& r.metadata@.len() == 0
    &&& if data[0] == STX && !contains(payload, "TimeoutError"@) {
        r.status == ExecutionStatus::Success && r.output@ == payload
            && r.errors@.len() == 0 && r.warnings@.len() == 0
    } else if data[0] == STX || data[0] == NAK {
        r.status == ExecutionStatus::Error && r.output@.len() == 0
            && strings_view(r.errors@) == seq![payload] && r.warnings@.len() == 0
    } else {
        r.status == ExecutionStatus::Success && r.output@ == utf8_lossy(data)
            && r.errors@.len() == 0 && strings_view(r.warnings@) == seq!["non-standard response marker"@]
    }
}

/// The SKILL `progn` block that runs `commands` in order.
pub open spec fn operations_text(commands: Seq<Seq<char>>) -> Seq<char> {
    "progn(\n"@ + joined(commands, "\n"@) + "\n)"@
}

/// The three parts of the current design reply: the output with its outer
/// whitespace and parentheses removed, split into words, each without
/// surrounding double quotes.
pub open spec fn design_parts(output: Seq<char>) -> Option<(Seq<char>, Seq<char>, Seq<char>)> {
    match three_words(trim_parens(trim(output))) {
        Some((a, b, c)) => Some((trim_char(a, '"'), trim_char(b, '"'), trim_char(c, '"'))),
        None => None,
    }
}

/// Where the daemon port comes from when connecting.
#[derive(Debug)]
pub enum PortSource {
    /// The port of a tunnel already running.
    Saved(u16),
    /// The session named by `VB_SESSION`.
    Session(String),
    /// The one active session, if there is exactly one; else the configured port.
    Discover,
}

/// The ids of the sessions joined by `, `.
pub open spec fn session_ids(sessions: Seq<SessionInfo>) -> Seq<Seq<char>> {
    sessions.map_values(|s: SessionInfo| s.id@)
}

fn owned_vec(v: Vec<u8>) -> (r: Vec<u8>)
    ensures
        r@ == v@,
{
    v
}

impl VirtuosoClient {
    /// A client for the daemon at `host:port`, with no tunnel.
    pub fn new(host: &str, port: u16, timeout: u64) -> (c: Self)
        ensures
            c.host@ == host@,
            c.port == port,
            c.timeout == timeout,
            c.tunnel is None,
    {
        VirtuosoClient {
            host: string_from(host),
            port,
            timeout,
            tunnel: None,
            layout: LayoutOps::new(),
            maestro: MaestroOps,
            schematic: SchematicOps::new(),
            window: WindowOps,
        }
    }

    /// A client for a daemon reachable directly (no tunnel).
    pub fn local(host: &str, port: u16, timeout: u64) -> (c: Self)
        ensures
            c.host@ == host@,
            c.port == port,
            c.timeout == timeout,
            c.tunnel is None,
    {
        Self::new(host, port, timeout)
    }

    /// The SSH tunnel this client goes through, if any.
    pub fn tunnel(&self) -> (r: Option<&SSHClient>)
        ensures
            r == (match &self.tunnel {
                Some(t) => Some(t),
                None => None,
            }),
    {
        match &self.tunnel {
            Some(t) => Some(t),
            None => None,
        }
    }

    /// The request body sent to the daemon for `code`: always the JSON
    /// object `{"skill":<code>,"timeout":<timeout>}`.
    pub fn request_payload(code: &str, timeout: u64) -> (r: Result<String, VirtuosoError>)
        ensures
            r matches Ok(t) && t@ == request_json(code@, timeout),
    {
        let quoted = match json_quote(code) {
            Ok(q) => q,
            Err(_) => return Err(VirtuosoError::Json(String::new())),
        };
        let mut r = String::new();
        let head = ['{', '"', 's', 'k', 'i', 'l', 'l', '"', ':'];
        push_seq_chars(&mut r, &head);
        push_str(&mut r, quoted.as_str());
        let mid = [',', '"', 't', 'i', 'm', 'e', 'o', 'u', 't', '"', ':'];
        push_seq_chars(&mut r, &mid);
        push_nat(&mut r, timeout);
        push_char(&mut r, '}');
        proof {
            assert(head@ =~= seq!['{', '"', 's', 'k', 'i', 'l', 'l', '"', ':']);
            assert(mid@ =~= seq![',', '"', 't', 'i', 'm', 'e', 'o', 'u', 't', '"', ':']);
        }
        assert(r@ =~= request_json(code@, timeout));
        Ok(r)
    }

    /// The result a daemon reply stands for: `STX` then the output, or `NAK`
    /// (or `STX` with a `TimeoutError`) then the error; any other first
    /// byte is kept whole as output with a warning.
    pub fn decode_response(data: &[u8]) -> (r: Result<VirtuosoResult, VirtuosoError>)
        ensures
            data@.len() == 0 ==> (r matches Err(VirtuosoError::Execution(m)) && m@ == "empty response from daemon"@),
            data@.len() > 0 ==> (r matches Ok(res) && reply_result(data@, res)),
    {
        if data.len() == 0 {
            return Err(VirtuosoError::Execution(string_from("empty response from daemon")));
        }
        let mut rest: Vec<u8> = Vec::new();
        let mut i: usize = 1;
        while i < data.len()
            invariant
                1 <= i <= data.len(),
                rest@ == data@.subrange(1, i as int),
            decreases data.len() - i,
        {
            rest.push(data[i]);
            assert(data@.subrange(1, i + 1) == data@.subrange(1, i as int).push(data@[i as int]));
            i = i + 1;
        }
        assert(rest@ == data@.skip(1));
        let rest = owned_vec(rest);
        let payload = decode_utf8_lossy(rest.as_slice());
        let status_byte = data[0];
        if status_byte == STX {
            if str_contains(payload.as_str(), "TimeoutError") {
                let mut errors: Vec<String> = Vec::new();
                errors.push(payload);
                proof { assert(strings_view(errors@) =~= seq![utf8_lossy(data@.skip(1))]); }
                Ok(VirtuosoResult { status: ExecutionStatus::Error, output: String::new(), errors, warnings: Vec::new(), metadata: Vec::new() })
            } else {
                Ok(VirtuosoResult { status: ExecutionStatus::Success, output: payload, errors: Vec::new(), warnings: Vec::new(), metadata: Vec::new() })
            }
        } else if status_byte == NAK {
            let mut errors: Vec<String> = Vec::new();
            errors.push(payload);
            proof { assert(strings_view(errors@) =~= seq![utf8_lossy(data@.skip(1))]); }
            Ok(VirtuosoResult { status: ExecutionStatus::Error, output: String::new(), errors, warnings: Vec::new(), metadata: Vec::new() })
        } else {
            let output = decode_utf8_lossy(data);
            let mut warnings: Vec<String> = Vec::new();
            warnings.push(string_from("non-standard response marker"));
            proof { assert(strings_view(warnings@) =~= seq!["non-standard response marker"@]); }
            Ok(VirtuosoResult { status: ExecutionStatus::Success, output, errors: Vec::new(), warnings, metadata: Vec::new() })
        }
    }

    /// The SKILL expression that probes the connection.
    pub fn probe_skill() -> (r: &'static str)
        ensures
            r@ == "1+1"@,
    {
        "1+1"
    }

    /// Whether the probe's reply shows a working connection: its output,
    /// trimmed, is `2`. A failed call is passed on.
    pub fn test_connection(&self, reply: Result<VirtuosoResult, VirtuosoError>) -> (r: Result<bool, VirtuosoError>)
        ensures
            match reply {
                Ok(res) => r == Ok::<bool, VirtuosoError>(trim(res.output@) == "2"@),
                Err(e) => r == Err::<bool, VirtuosoError>(e),
            },
    {
        match reply {
            Ok(res) => {
                let cs = chars_of(res.output.as_str());
                let t = trim_chars(&cs);
                let s = string_of(t.as_slice());
                Ok(str_eq(s.as_str(), "2"))
            },
            Err(e) => Err(e),
        }
    }

    /// The SKILL expression that asks for the design in the current window.
    pub fn current_design_skill() -> (r: &'static str)
        ensures
            r@ == "let((cv) cv = geGetEditCellView() list(cv~>libName cv~>cellName cv~>viewName))"@,
    {
        "let((cv) cv = geGetEditCellView() list(cv~>libName cv~>cellName cv~>viewName))"
    }

    /// The library, cell and view named by the current-design reply. A
    /// failed call is passed on; a reply without three words is an error.
    pub fn get_current_design(&self, reply: Result<VirtuosoResult, VirtuosoError>) -> (r: Result<(String, String, String), VirtuosoError>)
        ensures
            match reply {
                Err(e) => r == Err::<(String, String, String), VirtuosoError>(e),
                Ok(res) => match design_parts(res.output@) {
                    Some((a, b, c)) => r matches Ok((x, y, z)) && x@ == a && y@ == b && z@ == c,
                    None => r matches Err(VirtuosoError::Execution(m)) && m@ == "failed to get current design"@,
                },
            },
    {
        let res = match reply {
            Ok(res) => res,
            Err(e) => return Err(e),
        };
        let cs = chars_of(res.output.as_str());
        let t = trim_chars(&cs);
        let cleaned = trim_parens_chars(&t);
        match three_words_exec(&cleaned) {
            Some((a, b, c)) => {
                let a2 = trim_char_chars(&a, '"');
                let b2 = trim_char_chars(&b, '"');
                let c2 = trim_char_chars(&c, '"');
                Ok((string_of(a2.as_slice()), string_of(b2.as_slice()), string_of(c2.as_slice())))
            },
            None => Err(VirtuosoError::Execution(string_from("failed to get current design"))),
        }
    }

    /// The SKILL block for a batch of commands; `None` when there are none
    /// (nothing is sent, and the batch succeeds with empty output).
    pub fn operations_skill(commands: &[String]) -> (r: Option<String>)
        ensures
            commands@.len() == 0 ==> r is None,
            commands@.len() > 0 ==> (r matches Some(s) && s@ == operations_text(strings_view(commands@))),
    {
        if commands.len() == 0 {
            return None;
        }
        let body = join_strings(commands, "\n");
        let mut s = string_from("progn(\n");
        push_str(&mut s, body.as_str());
        push_str(&mut s, "\n)");
        Some(s)
    }

    /// `geOpenCellView` for a library, cell, view and mode.
    pub fn open_cell_view_skill(lib: &str, cell: &str, view: &str, mode: &str) -> (r: String)
        ensures
            r@ == "geOpenCellView(?libName "@ + quoted(lib@) + " ?cellName "@ + quoted(cell@)
                + " ?viewName "@ + quoted(view@) + " ?mode "@ + quoted(mode@) + ")"@,
    {
        let mut r = string_from("geOpenCellView(?libName ");
        push_quoted(&mut r, lib);
        push_str(&mut r, " ?cellName ");
        push_quoted(&mut r, cell);
        push_str(&mut r, " ?viewName ");
        push_quoted(&mut r, view);
        push_str(&mut r, " ?mode ");
        push_quoted(&mut r, mode);
        push_str(&mut r, ")");
        r
    }

    /// Where a SKILL file is put on the remote host before it is loaded.
    pub fn remote_il_path(file_name: &str) -> (r: String)
        ensures
            r@ == "/tmp/virtuoso_bridge/"@ + file_name@,
    {
        let mut r = string_from("/tmp/virtuoso_bridge/");
        push_str(&mut r, file_name);
        r
    }

    /// `(load "<path>")`.
    pub fn load_il_skill(remote_path: &str) -> (r: String)
        ensures
            r@ == "(load "@ + quoted(remote_path@) + ")"@,
    {
        let mut r = string_from("(load ");
        push_quoted(&mut r, remote_path);
        push_str(&mut r, ")");
        r
    }

    /// A message printed in the CIW, tagged with the CLI's name.
    pub fn ciw_print_skill(message: &str) -> (r: String)
        ensures
            r@ == "printf("@ + quoted("[virtuoso-cli] "@ + message@ + "\n"@) + ")"@,
    {
        let mut text = string_from("[virtuoso-cli] ");
        push_str(&mut text, message);
        push_str(&mut text, "\n");
        let mut r = string_from("printf(");
        push_quoted(&mut r, text.as_str());
        push_str(&mut r, ")");
        r
    }

    /// `(csh "<cmd>")`: a shell command run by Virtuoso.
    pub fn shell_command_skill(cmd: &str) -> (r: String)
        ensures
            r@ == "(csh "@ + quoted(cmd@) + ")"@,
    {
        let mut r = string_from("(csh ");
        push_quoted(&mut r, cmd);
        push_str(&mut r, ")");
        r
    }

    /// Where the daemon port comes from: a running tunnel's saved port,
    /// else the session named by `VB_SESSION`, else discovery.
    pub fn port_source(saved_port: Option<u16>, session_env: Option<String>) -> (r: PortSource)
        ensures
            match saved_port {
                Some(p) => r == PortSource::Saved(p),
                None => match session_env {
                    Some(id) => r == PortSource::Session(id),
                    None => r == PortSource::Discover,
                },
            },
    {
        match saved_port {
            Some(p) => PortSource::Saved(p),
            None => match session_env {
                Some(id) => PortSource::Session(id),
                None => PortSource::Discover,
            },
        }
    }

    /// The port of the named session, or why it could not be loaded.
    pub fn session_port(session_id: &str, lookup: Result<SessionInfo, String>) -> (r: Result<u16, VirtuosoError>)
        ensures
            match lookup {
                Ok(s) => r == Ok::<u16, VirtuosoError>(s.port),
                Err(e) => r matches Err(VirtuosoError::Config(m)) && m@ == "session '"@ + session_id@
                    + "' not found: "@ + e@ + ". Run `virtuoso session list`."@,
            },
    {
        match lookup {
            Ok(s) => Ok(s.port),
            Err(e) => {
                let mut m = string_from("session '");
                push_str(&mut m, session_id);
                push_str(&mut m, "' not found: ");
                push_str(&mut m, e.as_str());
                push_str(&mut m, ". Run `virtuoso session list`.");
                Err(VirtuosoError::Config(m))
            },
        }
    }

    /// The port found by discovery: the one active session's, an error when
    /// several are active, else the configured port (also when listing failed).
    pub fn discovered_port(listed: Option<Vec<SessionInfo>>, configured: u16) -> (r: Result<u16, VirtuosoError>)
        ensures
            match listed {
                Some(v) => if v@.len() == 1 {
                    r == Ok::<u16, VirtuosoError>(v@[0].port)
                } else if v@.len() > 1 {
                    r matches Err(VirtuosoError::Config(m)) && m@ == "multiple Virtuoso sessions active: "@
                        + joined(session_ids(v@), ", "@) + ". Use --session <id> to select one."@
                } else {
                    r == Ok::<u16, VirtuosoError>(configured)
                },
                None => r == Ok::<u16, VirtuosoError>(configured),
            },
    {
        match listed {
            Some(v) => {
                if v.len() == 1 {
                    Ok(v[0].port)
                } else if v.len() > 1 {
                    let mut ids: Vec<String> = Vec::new();
                    for i in 0..v.len()
                        invariant
                            strings_view(ids@) == session_ids(v@.take(i as int)),
                    {
                        ids.push(string_from(v[i].id.as_str()));
                        assert(session_ids(v@.take(i + 1)) =~= session_ids(v@.take(i as int)).push(v@[i as int].id@));
                        assert(strings_view(ids@) =~= strings_view(ids@.drop_last()).push(ids@.last()@));
                    }
                    assert(v@.take(v.len() as int) == v@);
                    let joined_ids = join_strings(ids.as_slice(), ", ");
                    assert(ids@.map_values(|s: String| s@) == strings_view(ids@));
                    let mut m = string_from("multiple Virtuoso sessions active: ");
                    push_str(&mut m, joined_ids.as_str());
                    push_str(&mut m, ". Use --session <id> to select one.");
                    Err(VirtuosoError::Config(m))
                } else {
                    Ok(configured)
                }
            },
            None => Ok(configured),
        }
    }
}

} // verus!
