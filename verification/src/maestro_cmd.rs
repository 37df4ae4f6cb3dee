use vstd::prelude::*;
use crate::chars::{strings_view, trim, trim_char, trim_char_chars};
use crate::error::VirtuosoError;
use crate::maestro_ops::{run_dir_skill_text, MaestroOps, VirtuosoVersion};
use crate::models::{ExecutionStatus, VirtuosoResult};
use crate::session::{
    ade_info_matches, ade_title_parts, extract_skill_string_token, parse_ade_title, parse_skill_list_top_level,
    string_token_value, top_level_tokens, AdeWindowInfo,
};
use crate::schematic_build::json_parse_error;
use crate::text::{chars_of, joined, join_strings, push_str, string_from, string_of};

verus! {

// ───────────────────────── session info ─────────────────────────

/// What `session info` reports about the focused ADE window.
#[derive(Debug)]
pub struct SessionReport {
    pub focused_window: Option<String>,
    pub dav_session: Option<String>,
    pub session: Option<String>,
    pub window: Option<AdeWindowInfo>,
    pub run_dir: Option<String>,
}

/// Either the report is complete, or the run directory of the named
/// session must be asked for with the given SKILL (then call
/// `session_info_finish`).
#[derive(Debug)]
pub enum SessionInfoStep {
    Done(SessionReport),
    QueryRunDir(String, SessionReport),
}

/// The string value of token `i`, if there is one.
pub open spec fn token_value(tokens: Seq<Seq<char>>, i: int) -> Option<Seq<char>> {
    if 0 <= i < tokens.len() { string_token_value(tokens[i]) } else { None }
}

/// The view of an optional string.
pub open spec fn opt_text(o: Option<String>) -> Option<Seq<char>> {
    match o {
        Some(s) => Some(s@),
        None => None,
    }
}

/// The parts of the report that come from the focused-window reply:
/// `(title davSession (titles...) (sessions...) run_dir)`.
pub open spec fn report_from_reply(rep: SessionReport, output: Seq<char>, session: Option<Seq<char>>) -> bool {
    let tokens = top_level_tokens(output);
    &&& opt_text(rep.focused_window) == token_value(tokens, 0)
    &&& opt_text(rep.dav_session) == token_value(tokens, 1)
    &&& opt_text(rep.session) == (match session { Some(s) => Some(s), None => token_value(tokens, 1) })
    &&& match token_value(tokens, 0) {
        Some(title) => match ade_title_parts(title) {
            Some(parts) => rep.window matches Some(info) && ade_info_matches(info, parts),
            None => rep.window is None,
        },
        None => rep.window is None,
    }
}

fn token_at(tokens: &Vec<String>, i: usize) -> (r: Option<String>)
    ensures
        opt_text(r) == token_value(strings_view(tokens@), i as int),
{
    if i < tokens.len() {
        extract_skill_string_token(tokens[i].as_str())
    } else {
        None
    }
}

fn copy_opt(o: &Option<String>) -> (r: Option<String>)
    ensures
        opt_text(r) == opt_text(*o),
{
    match o {
        Some(s) => Some(string_from(s.as_str())),
        None => None,
    }
}

/// The report for the focused-window reply `output`, with `session` as an
/// explicitly named session. The bundled run directory is used unless a
/// session was named that differs from the window's own.
pub fn session_info_step(output: &str, session: Option<&str>) -> (r: SessionInfoStep)
    ensures
        ({
            let tokens = top_level_tokens(output@);
            match session {
                Some(s) if token_value(tokens, 1) != Some(s@) => r matches SessionInfoStep::QueryRunDir(skill, rep)
                    && skill@ == run_dir_skill_text(s@)
                    && report_from_reply(rep, output@, Some(s@)) && rep.run_dir is None,
                _ => r matches SessionInfoStep::Done(rep)
                    && report_from_reply(rep, output@, match session { Some(s) => Some(s@), None => None })
                    && opt_text(rep.run_dir) == token_value(tokens, 4),
            }
        }),
{
    let tokens = parse_skill_list_top_level(output);
    let focused = token_at(&tokens, 0);
    let dav = token_at(&tokens, 1);
    let bundled = token_at(&tokens, 4);
    let window = match &focused {
        Some(t) => parse_ade_title(t.as_str()),
        None => None,
    };
    let effective = match session {
        Some(s) => Some(string_from(s)),
        None => copy_opt(&dav),
    };
    let rep = SessionReport { focused_window: focused, dav_session: copy_opt(&dav), session: effective, window, run_dir: None };
    match session {
        Some(s) => {
            let same = match &dav {
                Some(d) => crate::text::str_eq(d.as_str(), s),
                None => false,
            };
            if same {
                SessionInfoStep::Done(SessionReport { run_dir: bundled, ..rep })
            } else {
                let ops = MaestroOps;
                SessionInfoStep::QueryRunDir(ops.run_dir_skill(s), rep)
            }
        },
        None => SessionInfoStep::Done(SessionReport { run_dir: bundled, ..rep }),
    }
}

/// Completes a report with the run-directory reply: the unquoted output
/// when the call produced a value, else none. A failed call is passed on.
pub fn session_info_finish(partial: SessionReport, reply: Result<VirtuosoResult, VirtuosoError>) -> (r: Result<SessionReport, VirtuosoError>)
    ensures
        match reply {
            Err(e) => r == Err::<SessionReport, VirtuosoError>(e),
            Ok(res) => r matches Ok(rep) && rep.focused_window == partial.focused_window
                && rep.dav_session == partial.dav_session && rep.session == partial.session
                && rep.window == partial.window
                && opt_text(rep.run_dir) == (if res.status == ExecutionStatus::Success && trim(res.output@) != "nil"@ {
                    Some(trim_char(res.output@, '"'))
                } else {
                    None
                }),
        },
{
    let res = match reply {
        Ok(res) => res,
        Err(e) => return Err(e),
    };
    let run_dir = if res.skill_ok() {
        Some(string_of(trim_char_chars(&chars_of(res.output.as_str()), '"').as_slice()))
    } else {
        None
    };
    Ok(SessionReport { run_dir, ..partial })
}

/// A scalar SKILL value: the unquoted output when the call produced a
/// value, else the raw output.
pub fn skill_str(r: &VirtuosoResult) -> (s: String)
    ensures
        s@ == (if r.status == ExecutionStatus::Success && trim(r.output@) != "nil"@ {
            trim_char(r.output@, '"')
        } else {
            r.output@
        }),
{
    if r.skill_ok() {
        string_of(trim_char_chars(&chars_of(r.output.as_str()), '"').as_slice())
    } else {
        string_from(r.output.as_str())
    }
}

// ───────────────────────── analysis options ─────────────────────────

/// The entries of the JSON object a text parses to, in map order, each
/// value as its string content (for a JSON string) or its JSON text; `None`
/// when the text parses to something other than an object.
pub uninterp spec fn json_object_entries(text: Seq<char>) -> Option<Seq<(Seq<char>, Seq<char>)>>;

/// The view of a list of entries.
pub open spec fn entries_view(o: Option<Vec<(String, String)>>) -> Option<Seq<(Seq<char>, Seq<char>)>> {
    match o {
        None => None,
        Some(v) => Some(v@.map_values(|p: (String, String)| (p.0@, p.1@))),
    }
}

/// `serde_json::from_str` into a `Value`, then its object entries: the
/// claim is that it fails exactly as `json_parse_error` says, and otherwise
/// gives `json_object_entries` of the text.
#[verifier::external_body]
fn read_json_object(text: &str) -> (r: Result<Option<Vec<(String, String)>>, String>)
    ensures
        match json_parse_error(text@) {
            Some(m) => r matches Err(e) && e@ == m,
            None => r matches Ok(o) && entries_view(o) == json_object_entries(text@),
        },
{
    match serde_json::from_str::<serde_json::Value>(text) {
        Err(e) => Err(e.to_string()),
        Ok(serde_json::Value::Object(m)) => Ok(Some(m.into_iter().map(|(k, v)| match v {
            serde_json::Value::String(s) => (k, s),
            other => (k, other.to_string()),
        }).collect())),
        Ok(_) => Ok(None),
    }
}

/// `("key" "value")`, one entry of a SKILL association list.
pub open spec fn alist_entry(p: (Seq<char>, Seq<char>)) -> Seq<char> {
    "(\""@ + p.0 + "\" \""@ + p.1 + "\")"@
}

/// The SKILL association list for a JSON object, or why there is none.
pub open spec fn skill_alist_of(text: Seq<char>) -> Result<Seq<char>, Seq<char>> {
    match json_parse_error(text) {
        Some(e) => Err("invalid JSON: "@ + e),
        None => match json_object_entries(text) {
            None => Err("expected a JSON object"@),
            Some(fields) => Ok("("@ + joined(fields.map_values(|p: (Seq<char>, Seq<char>)| alist_entry(p)), " "@) + ")"@),
        },
    }
}

/// Converts a JSON object text to a SKILL association list:
/// `{"start":"1","stop":"10G"}` → `(("start" "1") ("stop" "10G"))`.
pub fn json_to_skill_alist(json_str: &str) -> (r: Result<String, String>)
    ensures
        match skill_alist_of(json_str@) {
            Ok(t) => r matches Ok(s) && s@ == t,
            Err(m) => r matches Err(s) && s@ == m,
        },
{
    let fields = match read_json_object(json_str) {
        Err(e) => {
            let mut m = string_from("invalid JSON: ");
            push_str(&mut m, e.as_str());
            return Err(m);
        },
        Ok(None) => return Err(string_from("expected a JSON object")),
        Ok(Some(f)) => f,
    };
    let ghost fv = fields@.map_values(|p: (String, String)| (p.0@, p.1@));
    let mut entries: Vec<String> = Vec::new();
    for i in 0..fields.len()
        invariant
            fv == fields@.map_values(|p: (String, String)| (p.0@, p.1@)),
            strings_view(entries@) == fv.take(i as int).map_values(|p: (Seq<char>, Seq<char>)| alist_entry(p)),
    {
        let mut e = string_from("(\"");
        push_str(&mut e, fields[i].0.as_str());
        push_str(&mut e, "\" \"");
        push_str(&mut e, fields[i].1.as_str());
        push_str(&mut e, "\")");
        let ghost before = entries@;
        entries.push(e);
        assert(fv.take(i + 1) == fv.take(i as int).push(fv[i as int]));
        assert(strings_view(entries@) =~= strings_view(before).push(e@));
        assert(strings_view(entries@) =~= fv.take(i + 1).map_values(|p: (Seq<char>, Seq<char>)| alist_entry(p)));
    }
    assert(fv.take(fields.len() as int) == fv);
    let body = join_strings(entries.as_slice(), " ");
    assert(entries@.map_values(|x: String| x@) == strings_view(entries@));
    let mut r = string_from("(");
    push_str(&mut r, body.as_str());
    push_str(&mut r, ")");
    Ok(r)
}

/// The `--options` of `set-analysis` as a SKILL association list, with the
/// conversion error reported as `--options: <why>`.
pub fn analysis_options(options: &str) -> (r: Result<String, VirtuosoError>)
    ensures
        match skill_alist_of(options@) {
            Ok(t) => r matches Ok(s) && s@ == t,
            Err(m) => r matches Err(VirtuosoError::Execution(s)) && s@ == "--options: "@ + m,
        },
{
    match json_to_skill_alist(options) {
        Ok(s) => Ok(s),
        Err(e) => {
            let mut m = string_from("--options: ");
            push_str(&mut m, e.as_str());
            Err(VirtuosoError::Execution(m))
        },
    }
}

/// The options actually sent: only the IC25 API takes them.
pub fn effective_options(alist: Option<String>, version: VirtuosoVersion) -> (r: Option<String>)
    ensures
        r == (if version == VirtuosoVersion::IC25 { alist } else { None }),
{
    if version.is_ic25() { alist } else { None }
}

} // verus!
