use vstd::prelude::*;
use crate::chars::{contains, drop_back, drop_front, find_chars, first_occurrence, is_ws, lemma_drop_back_at, lemma_drop_front_at, occurs_at, starts_with, starts_with_chars, strings_view, sub_chars, trim, trim_chars, ws_pred};
use crate::text::{chars_of, joined, join_strings, push_str, string_from, string_of};
use crate::tui_app;
use crate::tui_state;

verus! {

// ───────────────────────── lines ─────────────────────────

/// A line without the `\r` of a `\r\n` ending.
pub open spec fn strip_cr(l: Seq<char>) -> Seq<char> {
    if l.len() > 0 && l.last() == '\r' { l.drop_last() } else { l }
}

/// The finished lines and the line in progress after reading `s`.
pub open spec fn line_scan(s: Seq<char>) -> (Seq<Seq<char>>, Seq<char>)
    decreases s.len(),
{
    if s.len() == 0 {
        (Seq::empty(), Seq::empty())
    } else {
        let (done, cur) = line_scan(s.drop_last());
        if s.last() == '\n' {
            (done.push(strip_cr(cur)), Seq::empty())
        } else {
            (done, cur.push(s.last()))
        }
    }
}

/// `str::lines`: the text split at `\n` and `\r\n`; a final line ending
/// adds no empty line.
pub open spec fn text_lines(s: Seq<char>) -> Seq<Seq<char>> {
    let (done, cur) = line_scan(s);
    if cur.len() > 0 { done.push(cur) } else { done }
}

fn strip_cr_exec(v: &Vec<char>) -> (r: String)
    ensures
        r@ == strip_cr(v@),
{
    if v.len() > 0 && v[v.len() - 1] == '\r' {
        let w = sub_chars(v, 0, v.len() - 1);
        assert(w@ == v@.drop_last());
        string_of(w.as_slice())
    } else {
        string_of(v.as_slice())
    }
}

/// `s.lines()`, each line as a `String`.
pub fn lines_of(s: &str) -> (r: Vec<String>)
    ensures
        strings_view(r@) == text_lines(s@),
{
    let cs = chars_of(s);
    let mut done: Vec<String> = Vec::new();
    let mut cur: Vec<char> = Vec::new();
    let mut i: usize = 0;
    assert(cs@.take(0) =~= Seq::<char>::empty());
    assert(strings_view(done@) =~= Seq::<Seq<char>>::empty());
    while i < cs.len()
        invariant
            i <= cs.len(),
            cs@ == s@,
            (strings_view(done@), cur@) == line_scan(cs@.take(i as int)),
        decreases cs.len() - i,
    {
        let c = cs[i];
        assert(cs@.take(i + 1).drop_last() == cs@.take(i as int));
        assert(cs@.take(i + 1).last() == c);
        if c == '\n' {
            let line = strip_cr_exec(&cur);
            let ghost before = done@;
            done.push(line);
            assert(strings_view(done@) =~= strings_view(before).push(line@));
            cur = Vec::new();
            assert(cur@ =~= Seq::<char>::empty());
        } else {
            cur.push(c);
        }
        i = i + 1;
    }
    assert(cs@.take(cs.len() as int) == cs@);
    if cur.len() > 0 {
        let ghost before = done@;
        let last = string_of(cur.as_slice());
        done.push(last);
        assert(strings_view(done@) =~= strings_view(before).push(cur@));
    }
    done
}

// ───────────────────────── .env entries ─────────────────────────

/// The `KEY=value` entry a `.env` line holds: none for a comment or a line
/// without `=`; else the text around the first `=`, each trimmed.
pub open spec fn env_entry(line: Seq<char>) -> Option<(Seq<char>, Seq<char>)> {
    let t = trim(line);
    if starts_with(t, seq!['#']) || !contains(t, seq!['=']) {
        None
    } else {
        match first_occurrence(t, seq!['=']) {
            Some(i) => Some((trim(t.take(i)), trim(t.skip(i + 1)))),
            None => None,
        }
    }
}

/// The entries of the lines, in order.
pub open spec fn env_entries(lines: Seq<Seq<char>>) -> Seq<(Seq<char>, Seq<char>)>
    decreases lines.len(),
{
    if lines.len() == 0 {
        Seq::empty()
    } else {
        let rest = env_entries(lines.drop_last());
        match env_entry(lines.last()) {
            Some(e) => rest.push(e),
            None => rest,
        }
    }
}

/// The views of a list of string pairs.
pub open spec fn pairs_view(v: Seq<(String, String)>) -> Seq<(Seq<char>, Seq<char>)> {
    v.map_values(|p: (String, String)| (p.0@, p.1@))
}

fn env_entry_exec(line: &String) -> (r: Option<(String, String)>)
    ensures
        match env_entry(line@) {
            Some((k, v)) => r matches Some((a, b)) && a@ == k && b@ == v,
            None => r is None,
        },
{
    let cs = chars_of(line.as_str());
    let t = trim_chars(&cs);
    if starts_with_chars(&t, "#") {
        proof {
            reveal_strlit("#");
            assert("#"@ =~= seq!['#']);
        }
        return None;
    }
    proof {
        reveal_strlit("#");
        assert("#"@ =~= seq!['#']);
    }
    let mut eq: Vec<char> = Vec::new();
    eq.push('=');
    assert(eq@ =~= seq!['=']);
    match find_chars(&t, &eq) {
        None => None,
        Some(i) => {
            let k = sub_chars(&t, 0, i);
            let v = sub_chars(&t, i + 1, t.len());
            assert(k@ == t@.take(i as int));
            assert(v@ == t@.skip(i + 1));
            let kt = trim_chars(&k);
            let vt = trim_chars(&v);
            Some((string_of(kt.as_slice()), string_of(vt.as_slice())))
        },
    }
}

/// The `KEY=value` entries of a `.env` file, in file order.
pub fn parse_env(content: &str) -> (r: Vec<(String, String)>)
    ensures
        pairs_view(r@) == env_entries(text_lines(content@)),
{
    let lines = lines_of(content);
    let ghost ls = strings_view(lines@);
    let mut r: Vec<(String, String)> = Vec::new();
    assert(pairs_view(r@) =~= env_entries(ls.take(0)));
    for i in 0..lines.len()
        invariant
            ls == strings_view(lines@),
            pairs_view(r@) == env_entries(ls.take(i as int)),
    {
        assert(ls.take(i + 1).drop_last() == ls.take(i as int));
        assert(ls.take(i + 1).last() == lines@[i as int]@);
        let ghost before = r@;
        match env_entry_exec(&lines[i]) {
            Some(e) => {
                r.push(e);
                assert(pairs_view(r@) =~= pairs_view(before).push((e.0@, e.1@)));
            },
            None => {},
        }
    }
    assert(ls.take(lines.len() as int) == ls);
    r
}

/// The value of the last entry for `key` (later entries win).
pub open spec fn env_value(entries: Seq<(Seq<char>, Seq<char>)>, key: Seq<char>) -> Option<Seq<char>>
    decreases entries.len(),
{
    if entries.len() == 0 {
        None
    } else if entries.last().0 == key {
        Some(entries.last().1)
    } else {
        env_value(entries.drop_last(), key)
    }
}

/// The value of `key` in the entries: the last entry for it wins.
pub fn env_lookup(entries: &Vec<(String, String)>, key: &str) -> (r: Option<String>)
    ensures
        match env_value(pairs_view(entries@), key@) {
            Some(v) => r matches Some(s) && s@ == v,
            None => r is None,
        },
{
    let ghost pv = pairs_view(entries@);
    let mut i = entries.len();
    assert(pv.take(i as int) =~= pv);
    while i > 0
        invariant
            i <= entries.len(),
            pv == pairs_view(entries@),
            env_value(pv, key@) == env_value(pv.take(i as int), key@),
        decreases i,
    {
        assert(pv.take(i as int).drop_last() == pv.take(i - 1));
        assert(pv.take(i as int).last() == pv[i - 1]);
        if crate::text::str_eq(entries[i - 1].0.as_str(), key) {
            return Some(string_from(entries[i - 1].1.as_str()));
        }
        i = i - 1;
    }
    None
}

// ───────────────────────── the Config tab's fields ─────────────────────────

/// The settings the Config tab shows, with their hints.
pub open spec fn field_def(i: int) -> (Seq<char>, Seq<char>) {
    if i == 0 { ("VB_REMOTE_HOST"@, "SSH remote hostname or alias"@) }
    else if i == 1 { ("VB_REMOTE_USER"@, "SSH login username"@) }
    else if i == 2 { ("VB_PORT"@, "Direct port (default: per-user hash)"@) }
    else if i == 3 { ("VB_TIMEOUT"@, "Timeout in seconds (default: 30)"@) }
    else if i == 4 { ("VB_JUMP_HOST"@, "Bastion/jump host address"@) }
    else if i == 5 { ("VB_JUMP_USER"@, "Jump host username"@) }
    else if i == 6 { ("VB_SSH_PORT"@, "SSH port (default: 22)"@) }
    else if i == 7 { ("VB_SSH_KEY"@, "SSH private key path (e.g. ~/.ssh/id_ed25519)"@) }
    else if i == 8 { ("VB_SPECTRE_CMD"@, "Spectre binary path (default: spectre)"@) }
    else if i == 9 { ("VB_SPECTRE_ARGS"@, "Extra spectre arguments"@) }
    else if i == 10 { ("VB_KEEP_REMOTE_FILES"@, "Keep remote files (true/false)"@) }
    else { ("VB_PROFILE"@, "Config profile name"@) }
}

/// How many settings the Config tab shows.
pub const FIELD_COUNT: usize = 12;

/// The settings of the older dashboard: the same without the SSH port and key.
pub open spec fn legacy_field_def(i: int) -> (Seq<char>, Seq<char>) {
    if i < 6 { field_def(i) } else { field_def(i + 2) }
}

/// How many settings the older dashboard shows.
pub const LEGACY_FIELD_COUNT: usize = 10;

/// The Config tab's settings and hints, in display order.
pub fn config_field_defs() -> (r: Vec<(&'static str, &'static str)>)
    ensures
        r@.len() == FIELD_COUNT,
        forall|i: int| 0 <= i < FIELD_COUNT ==> (#[trigger] r@[i].0@, r@[i].1@) == field_def(i),
{
    let mut r: Vec<(&'static str, &'static str)> = Vec::new();
    r.push(("VB_REMOTE_HOST", "SSH remote hostname or alias"));
    r.push(("VB_REMOTE_USER", "SSH login username"));
    r.push(("VB_PORT", "Direct port (default: per-user hash)"));
    r.push(("VB_TIMEOUT", "Timeout in seconds (default: 30)"));
    r.push(("VB_JUMP_HOST", "Bastion/jump host address"));
    r.push(("VB_JUMP_USER", "Jump host username"));
    r.push(("VB_SSH_PORT", "SSH port (default: 22)"));
    r.push(("VB_SSH_KEY", "SSH private key path (e.g. ~/.ssh/id_ed25519)"));
    r.push(("VB_SPECTRE_CMD", "Spectre binary path (default: spectre)"));
    r.push(("VB_SPECTRE_ARGS", "Extra spectre arguments"));
    r.push(("VB_KEEP_REMOTE_FILES", "Keep remote files (true/false)"));
    r.push(("VB_PROFILE", "Config profile name"));
    r
}

/// The older dashboard's settings and hints, in display order.
pub fn legacy_field_defs() -> (r: Vec<(&'static str, &'static str)>)
    ensures
        r@.len() == LEGACY_FIELD_COUNT,
        forall|i: int| 0 <= i < LEGACY_FIELD_COUNT ==> (#[trigger] r@[i].0@, r@[i].1@) == legacy_field_def(i),
{
    let all = config_field_defs();
    let mut r: Vec<(&'static str, &'static str)> = Vec::new();
    for i in 0..all.len()
        invariant
            all@.len() == FIELD_COUNT,
            forall|k: int| 0 <= k < FIELD_COUNT ==> (#[trigger] all@[k].0@, all@[k].1@) == field_def(k),
            r@.len() == (if i <= 6 { i as int } else if i <= 8 { 6 } else { i - 2 }),
            forall|k: int| 0 <= k < r@.len() ==> (#[trigger] r@[k].0@, r@[k].1@) == legacy_field_def(k),
    {
        if i != 6 && i != 7 {
            r.push(all[i]);
        }
    }
    r
}

/// The value a setting shows: the `.env` file's, else the process
/// environment's, else empty.
pub open spec fn shown_value(entries: Seq<(Seq<char>, Seq<char>)>, key: Seq<char>, process: Option<String>) -> Seq<char> {
    match env_value(entries, key) {
        Some(v) => v,
        None => match process {
            Some(p) => p@,
            None => Seq::empty(),
        },
    }
}

fn shown_value_exec(entries: &Vec<(String, String)>, key: &str, process: &Option<String>) -> (r: String)
    ensures
        r@ == shown_value(pairs_view(entries@), key@, *process),
{
    match env_lookup(entries, key) {
        Some(v) => v,
        None => match process {
            Some(p) => string_from(p.as_str()),
            None => String::new(),
        },
    }
}

/// Whether `fields` are the Config tab's twelve settings in their fixed
/// order, each shown as `shown_value` finds it in `entries` and `process`.
pub open spec fn loaded_fields(fields: Seq<tui_app::ConfigField>, entries: Seq<(Seq<char>, Seq<char>)>, process: Seq<Option<String>>) -> bool {
    &&& fields.len() == FIELD_COUNT
    &&& forall|i: int| 0 <= i < FIELD_COUNT ==> {
        &&& (#[trigger] fields[i]).key@ == field_def(i).0
        &&& fields[i].hint@ == field_def(i).1
        &&& fields[i].value@ == shown_value(entries, field_def(i).0, process[i])
    }
}

/// The Config tab's fields: the `.env` entries first, then the process
/// environment (`process[i]` is the variable of the `i`-th setting).
pub fn load_config_fields(entries: &Vec<(String, String)>, process: &Vec<Option<String>>) -> (r: Vec<tui_app::ConfigField>)
    requires
        process@.len() == FIELD_COUNT,
    ensures
        r@.len() == FIELD_COUNT,
        forall|i: int| 0 <= i < FIELD_COUNT ==> {
            &&& (#[trigger] r@[i]).key@ == field_def(i).0
            &&& r@[i].hint@ == field_def(i).1
            &&& r@[i].value@ == shown_value(pairs_view(entries@), field_def(i).0, process@[i])
        },
        loaded_fields(r@, pairs_view(entries@), process@),
{
    let defs = config_field_defs();
    let mut r: Vec<tui_app::ConfigField> = Vec::new();
    for i in 0..defs.len()
        invariant
            defs@.len() == FIELD_COUNT,
            process@.len() == FIELD_COUNT,
            forall|k: int| 0 <= k < FIELD_COUNT ==> (#[trigger] defs@[k].0@, defs@[k].1@) == field_def(k),
            r@.len() == i,
            forall|k: int| 0 <= k < i ==> {
                &&& (#[trigger] r@[k]).key@ == field_def(k).0
                &&& r@[k].hint@ == field_def(k).1
                &&& r@[k].value@ == shown_value(pairs_view(entries@), field_def(k).0, process@[k])
            },
    {
        let (key, hint) = defs[i];
        let value = shown_value_exec(entries, key, &process[i]);
        r.push(tui_app::ConfigField { key: string_from(key), value, hint });
    }
    r
}

/// The older dashboard's fields, found the same way.
pub fn load_legacy_config_fields(entries: &Vec<(String, String)>, process: &Vec<Option<String>>) -> (r: Vec<tui_state::ConfigField>)
    requires
        process@.len() == LEGACY_FIELD_COUNT,
    ensures
        r@.len() == LEGACY_FIELD_COUNT,
        forall|i: int| 0 <= i < LEGACY_FIELD_COUNT ==> {
            &&& (#[trigger] r@[i]).key@ == legacy_field_def(i).0
            &&& r@[i].hint@ == legacy_field_def(i).1
            &&& r@[i].value@ == shown_value(pairs_view(entries@), legacy_field_def(i).0, process@[i])
        },
{
    let defs = legacy_field_defs();
    let mut r: Vec<tui_state::ConfigField> = Vec::new();
    for i in 0..defs.len()
        invariant
            defs@.len() == LEGACY_FIELD_COUNT,
            process@.len() == LEGACY_FIELD_COUNT,
            forall|k: int| 0 <= k < LEGACY_FIELD_COUNT ==> (#[trigger] defs@[k].0@, defs@[k].1@) == legacy_field_def(k),
            r@.len() == i,
            forall|k: int| 0 <= k < i ==> {
                &&& (#[trigger] r@[k]).key@ == legacy_field_def(k).0
                &&& r@[k].hint@ == legacy_field_def(k).1
                &&& r@[k].value@ == shown_value(pairs_view(entries@), legacy_field_def(k).0, process@[k])
            },
    {
        let (key, hint) = defs[i];
        let value = shown_value_exec(entries, key, &process[i]);
        r.push(tui_state::ConfigField { key: string_from(key), value, hint });
    }
    r
}

// ───────────────────────── writing .env ─────────────────────────

/// The `.env` line of a setting: `KEY=value`, or `# KEY=` when empty.
pub open spec fn env_line(key: Seq<char>, value: Seq<char>) -> Seq<char> {
    if value.len() == 0 { "# "@ + key + "="@ } else { key + "="@ + value }
}

/// The `.env` text for settings: a header line, one line per setting,
/// and a final newline.
pub open spec fn env_text(settings: Seq<(Seq<char>, Seq<char>)>) -> Seq<char> {
    joined(seq!["# Virtuoso CLI Configuration"@] + settings.map_values(|p: (Seq<char>, Seq<char>)| env_line(p.0, p.1))
        + seq![Seq::<char>::empty()], "\n"@)
}

/// The key and value of each Config tab field.
pub open spec fn app_settings(fields: Seq<tui_app::ConfigField>) -> Seq<(Seq<char>, Seq<char>)> {
    fields.map_values(|f: tui_app::ConfigField| (f.key@, f.value@))
}

/// The `.env` text that saves the settings.
pub fn config_env_text(settings: &Vec<(String, String)>) -> (r: String)
    ensures
        r@ == env_text(pairs_view(settings@)),
{
    let mut lines: Vec<String> = Vec::new();
    lines.push(string_from("# Virtuoso CLI Configuration"));
    let ghost pv = pairs_view(settings@);
    for i in 0..settings.len()
        invariant
            pv == pairs_view(settings@),
            strings_view(lines@) == seq!["# Virtuoso CLI Configuration"@]
                + pv.take(i as int).map_values(|p: (Seq<char>, Seq<char>)| env_line(p.0, p.1)),
    {
        let (k, v) = (&settings[i].0, &settings[i].1);
        let mut line = String::new();
        if v.as_str().is_empty() {
            push_str(&mut line, "# ");
            push_str(&mut line, k.as_str());
            push_str(&mut line, "=");
        } else {
            push_str(&mut line, k.as_str());
            push_str(&mut line, "=");
            push_str(&mut line, v.as_str());
        }
        let ghost before = lines@;
        lines.push(line);
        assert(pv.take(i + 1) == pv.take(i as int).push(pv[i as int]));
        assert(strings_view(lines@) =~= strings_view(before).push(line@));
        assert(strings_view(lines@) =~= seq!["# Virtuoso CLI Configuration"@]
            + pv.take(i + 1).map_values(|p: (Seq<char>, Seq<char>)| env_line(p.0, p.1)));
    }
    assert(pv.take(settings.len() as int) == pv);
    let ghost before = lines@;
    lines.push(String::new());
    assert(strings_view(lines@) =~= strings_view(before).push(Seq::<char>::empty()));
    assert(strings_view(lines@) =~= seq!["# Virtuoso CLI Configuration"@]
        + pv.map_values(|p: (Seq<char>, Seq<char>)| env_line(p.0, p.1)) + seq![Seq::<char>::empty()]);
    let r = join_strings(lines.as_slice(), "\n");
    assert(lines@.map_values(|s: String| s@) == strings_view(lines@));
    r
}

/// The key and value of each Config tab field, for saving.
pub fn app_field_settings(fields: &Vec<tui_app::ConfigField>) -> (r: Vec<(String, String)>)
    ensures
        pairs_view(r@) == app_settings(fields@),
{
    let mut r: Vec<(String, String)> = Vec::new();
    for i in 0..fields.len()
        invariant
            pairs_view(r@) == app_settings(fields@.take(i as int)),
    {
        let ghost before = r@;
        r.push((string_from(fields[i].key.as_str()), string_from(fields[i].value.as_str())));
        assert(fields@.take(i + 1) == fields@.take(i as int).push(fields@[i as int]));
        assert(app_settings(fields@.take(i + 1)) =~= app_settings(fields@.take(i as int)).push((fields@[i as int].key@, fields@[i as int].value@)));
        assert(pairs_view(r@) =~= pairs_view(before).push((fields@[i as int].key@, fields@[i as int].value@)));
    }
    assert(fields@.take(fields.len() as int) == fields@);
    r
}

// ───────────────────────── reading back what was saved ─────────────────────────

/// Whether `c` occurs in `s`.
pub open spec fn has_char(s: Seq<char>, c: char) -> bool {
    exists|i: int| 0 <= i < s.len() && s[i] == c
}

/// A key the `.env` file can hold: nonempty, without surrounding
/// whitespace, not starting a comment, and without `=` or line breaks.
pub open spec fn storable_key(k: Seq<char>) -> bool {
    &&& k.len() > 0
    &&& trim(k) == k
    &&& k[0] != '#'
    &&& !has_char(k, '=')
    &&& !has_char(k, '\n')
}

/// A value the `.env` file can hold: without surrounding whitespace or
/// line breaks.
pub open spec fn storable_value(v: Seq<char>) -> bool {
    &&& trim(v) == v
    &&& !has_char(v, '\n')
}

proof fn lemma_scan_append(a: Seq<char>, b: Seq<char>)
    requires
        !has_char(b, '\n'),
    ensures
        line_scan(a + b) == (line_scan(a).0, line_scan(a).1 + b),
    decreases b.len(),
{
    if b.len() == 0 {
        assert(a + b == a);
        assert(line_scan(a).1 + b == line_scan(a).1);
    } else {
        let b1 = b.drop_last();
        assert(!has_char(b1, '\n')) by {
            if has_char(b1, '\n') {
                let i = choose|i: int| 0 <= i < b1.len() && b1[i] == '\n';
                assert(b[i] == '\n');
            }
        }
        lemma_scan_append(a, b1);
        assert((a + b).drop_last() == a + b1);
        assert((a + b).last() == b.last());
        assert(b.last() != '\n') by {
            assert(b[b.len() - 1] == b.last());
        }
        assert((line_scan(a).1 + b1).push(b.last()) == line_scan(a).1 + b);
    }
}

/// The lines of the `.env` text: the header, then one per setting.
pub open spec fn env_file_lines(settings: Seq<(Seq<char>, Seq<char>)>) -> Seq<Seq<char>> {
    seq!["# Virtuoso CLI Configuration"@] + settings.map_values(|p: (Seq<char>, Seq<char>)| env_line(p.0, p.1))
}

/// A line that `str::lines` gives back unchanged.
pub open spec fn plain_line(l: Seq<char>) -> bool {
    !has_char(l, '\n') && (l.len() == 0 || l.last() != '\r')
}

proof fn lemma_scan_joined(ls: Seq<Seq<char>>)
    requires
        ls.len() > 0,
        forall|i: int| 0 <= i < ls.len() ==> plain_line(#[trigger] ls[i]),
    ensures
        line_scan(joined(ls, "\n"@) + "\n"@) == (ls, Seq::<char>::empty()),
    decreases ls.len(),
{
    reveal_strlit("\n");
    assert("\n"@ == seq!['\n']);
    let x = joined(ls, "\n"@);
    if ls.len() == 1 {
        assert(plain_line(ls[0]));
        lemma_scan_append(Seq::empty(), ls[0]);
        assert(Seq::<char>::empty() + ls[0] == ls[0]);
        assert(x == ls[0]);
    } else {
        let front = ls.drop_last();
        assert forall|i: int| 0 <= i < front.len() implies plain_line(#[trigger] front[i]) by {
            assert(front[i] == ls[i]);
        }
        lemma_scan_joined(front);
        let y = joined(front, "\n"@) + "\n"@;
        assert(plain_line(ls[ls.len() - 1]));
        lemma_scan_append(y, ls.last());
        assert(x == y + ls.last());
        assert(Seq::<char>::empty() + ls.last() == ls.last());
        assert(front.push(ls.last()) == ls);
    }
    assert((x + "\n"@).drop_last() == x);
    assert((x + "\n"@).last() == '\n');
}

proof fn lemma_lines_of_saved(ls: Seq<Seq<char>>)
    requires
        forall|i: int| 0 <= i < ls.len() ==> plain_line(#[trigger] ls[i]),
    ensures
        text_lines(joined(ls + seq![Seq::<char>::empty()], "\n"@)) == ls,
{
    reveal_strlit("\n");
    let all = ls + seq![Seq::<char>::empty()];
    if ls.len() == 0 {
        assert(all == seq![Seq::<char>::empty()]);
        assert(joined(all, "\n"@) == Seq::<char>::empty());
    } else {
        assert(all.drop_last() == ls);
        assert(all.last() == Seq::<char>::empty());
        assert(joined(all, "\n"@) == joined(ls, "\n"@) + "\n"@ + Seq::<char>::empty());
        assert(joined(ls, "\n"@) + "\n"@ + Seq::<char>::empty() == joined(ls, "\n"@) + "\n"@);
        lemma_scan_joined(ls);
    }
}

proof fn lemma_trim_fixed(t: Seq<char>)
    requires
        t.len() > 0,
        !is_ws(t[0]),
        !is_ws(t.last()),
    ensures
        trim(t) == t,
{
    lemma_drop_front_at(t, ws_pred(), 0);
    assert(t.skip(0) == t);
    lemma_drop_back_at(t, ws_pred(), t.len() as int);
    assert(t.take(t.len() as int) == t);
}

proof fn lemma_trimmed_ends(s: Seq<char>)
    requires
        s.len() > 0,
        trim(s) == s,
    ensures
        !is_ws(s[0]),
        !is_ws(s.last()),
{
    if is_ws(s[0]) {
        lemma_drop_front_len(s);
        lemma_drop_back_len(drop_front(s, ws_pred()));
    }
    if is_ws(s.last()) {
        lemma_drop_back_len(drop_front(s, ws_pred()));
        lemma_drop_front_keeps_last(s);
    }
}

proof fn lemma_drop_front_len(s: Seq<char>)
    requires
        s.len() > 0,
        is_ws(s[0]),
    ensures
        drop_front(s, ws_pred()).len() < s.len(),
    decreases s.len(),
{
    lemma_drop_front_shrinks(s.skip(1));
}

proof fn lemma_drop_front_shrinks(s: Seq<char>)
    ensures
        drop_front(s, ws_pred()).len() <= s.len(),
    decreases s.len(),
{
    if s.len() > 0 && is_ws(s[0]) {
        lemma_drop_front_shrinks(s.skip(1));
    }
}

proof fn lemma_drop_back_len(s: Seq<char>)
    ensures
        drop_back(s, ws_pred()).len() <= s.len(),
    decreases s.len(),
{
    if s.len() > 0 && is_ws(s.last()) {
        lemma_drop_back_len(s.drop_last());
    }
}

proof fn lemma_drop_front_keeps_last(s: Seq<char>)
    requires
        s.len() > 0,
        is_ws(s.last()),
    ensures
        drop_back(drop_front(s, ws_pred()), ws_pred()).len() < s.len(),
    decreases s.len(),
{
    let t = drop_front(s, ws_pred());
    lemma_drop_front_shrinks(s);
    if t.len() == 0 {
        lemma_drop_back_len(t);
    } else {
        lemma_drop_front_suffix(s);
        assert(t.last() == s.last());
        lemma_drop_back_len(t.drop_last());
        assert(drop_back(t, ws_pred()) == drop_back(t.drop_last(), ws_pred()));
    }
}

proof fn lemma_drop_front_suffix(s: Seq<char>)
    ensures
        drop_front(s, ws_pred()) == s.skip(s.len() - drop_front(s, ws_pred()).len()),
        drop_front(s, ws_pred()).len() <= s.len(),
    decreases s.len(),
{
    if s.len() > 0 && is_ws(s[0]) {
        lemma_drop_front_suffix(s.skip(1));
        let t = drop_front(s, ws_pred());
        assert(s.skip(1).skip(s.len() - 1 - t.len()) == s.skip(s.len() - t.len()));
    } else {
        assert(s.skip(0) == s);
    }
}

proof fn lemma_occurs_one(t: Seq<char>, c: char, j: int)
    ensures
        occurs_at(t, seq![c], j) == (0 <= j < t.len() && t[j] == c),
{
    if 0 <= j < t.len() {
        if t[j] == c {
            assert(t.subrange(j, j + 1) =~= seq![c]);
        } else {
            assert(t.subrange(j, j + 1)[0] == t[j]);
        }
    }
}

proof fn lemma_first_eq(k: Seq<char>, v: Seq<char>)
    requires
        !has_char(k, '='),
    ensures
        first_occurrence(k + seq!['='] + v, seq!['=']) == Some(k.len() as int),
{
    reveal(first_occurrence);
    let t = k + seq!['='] + v;
    let n = k.len() as int;
    lemma_occurs_one(t, '=', n);
    assert(t[n] == '=');
    assert(occurs_at(t, seq!['='], n));
    assert(contains(t, seq!['=']));
    assert forall|j: int| 0 <= j < n implies !occurs_at(t, seq!['='], j) by {
        lemma_occurs_one(t, '=', j);
        assert(t[j] == k[j]);
        if k[j] == '=' {
            assert(has_char(k, '='));
        }
    }
    let i = choose|i: int| occurs_at(t, seq!['='], i) && forall|j: int| 0 <= j < i ==> !occurs_at(t, seq!['='], j);
    assert(occurs_at(t, seq!['='], i) && forall|j: int| 0 <= j < i ==> !occurs_at(t, seq!['='], j));
    lemma_occurs_one(t, '=', i);
    if i < n {
        assert(!occurs_at(t, seq!['='], i));
    }
    if i > n {
        assert(!occurs_at(t, seq!['='], n));
    }
    assert(i == n);
}

proof fn lemma_env_entry_of_line(k: Seq<char>, v: Seq<char>)
    requires
        storable_key(k),
        storable_value(v),
    ensures
        env_entry(env_line(k, v)) == (if v.len() > 0 { Some((k, v)) } else { None::<(Seq<char>, Seq<char>)> }),
{
    reveal_strlit("=");
    reveal_strlit("# ");
    assert("="@ == seq!['=']);
    lemma_trimmed_ends(k);
    if v.len() > 0 {
        lemma_trimmed_ends(v);
        let t = k + "="@ + v;
        assert(t[0] == k[0]);
        assert(t.last() == v.last());
        lemma_trim_fixed(t);
        assert(!starts_with(t, seq!['#'])) by {
            if starts_with(t, seq!['#']) {
                assert(t.take(1)[0] == t[0]);
            }
        }
        lemma_first_eq(k, v);
        assert(occurs_at(t, seq!['='], k.len() as int)) by {
            assert(t.subrange(k.len() as int, k.len() + 1 as int) =~= seq!['=']);
        }
        assert(contains(t, seq!['=']));
        assert(t.take(k.len() as int) == k);
        assert(t.skip(k.len() + 1 as int) == v);
    } else {
        let t = "# "@ + k + "="@;
        assert(t[0] == '#');
        assert(t.last() == '=');
        lemma_trim_fixed(t);
        assert(starts_with(t, seq!['#'])) by {
            assert(t.take(1) =~= seq!['#']);
        }
    }
}

/// The settings with a value, in order (the ones the file keeps).
pub open spec fn kept_settings(settings: Seq<(Seq<char>, Seq<char>)>) -> Seq<(Seq<char>, Seq<char>)>
    decreases settings.len(),
{
    if settings.len() == 0 {
        Seq::empty()
    } else {
        let rest = kept_settings(settings.drop_last());
        if settings.last().1.len() > 0 { rest.push(settings.last()) } else { rest }
    }
}

/// Every setting has a storable key and value.
pub open spec fn storable(settings: Seq<(Seq<char>, Seq<char>)>) -> bool {
    forall|i: int| 0 <= i < settings.len() ==> storable_key(#[trigger] settings[i].0) && storable_value(settings[i].1)
}

proof fn lemma_entries_of_saved(settings: Seq<(Seq<char>, Seq<char>)>)
    requires
        storable(settings),
    ensures
        env_entries(env_file_lines(settings)) == kept_settings(settings),
    decreases settings.len(),
{
    reveal_strlit("# Virtuoso CLI Configuration");
    let f = |p: (Seq<char>, Seq<char>)| env_line(p.0, p.1);
    if settings.len() == 0 {
        let h = "# Virtuoso CLI Configuration"@;
        assert(env_file_lines(settings) == seq![h]);
        assert(seq![h].drop_last() == Seq::<Seq<char>>::empty());
        assert(h[0] == '#');
        assert(h.last() == 'n');
        lemma_trim_fixed(h);
        assert(starts_with(h, seq!['#'])) by {
            assert(h.take(1) =~= seq!['#']);
        }
        assert(env_entry(h) is None);
        assert(seq![h].last() == h);
        assert(env_entries(Seq::<Seq<char>>::empty()) == Seq::<(Seq<char>, Seq<char>)>::empty());
        assert(env_entries(seq![h]) == Seq::<(Seq<char>, Seq<char>)>::empty());
    } else {
        let front = settings.drop_last();
        assert(storable(front)) by {
            assert forall|i: int| 0 <= i < front.len() implies storable_key(#[trigger] front[i].0) && storable_value(front[i].1) by {
                assert(front[i] == settings[i]);
            }
        }
        lemma_entries_of_saved(front);
        let last = settings.last();
        assert(storable_key(settings[settings.len() - 1].0));
        lemma_env_entry_of_line(last.0, last.1);
        assert(env_file_lines(settings).drop_last() == env_file_lines(front));
        assert(env_file_lines(settings).last() == env_line(last.0, last.1));
        assert(last == (last.0, last.1));
        assert(env_entries(env_file_lines(settings)) == (match env_entry(env_line(last.0, last.1)) {
            Some(e) => env_entries(env_file_lines(front)).push(e),
            None => env_entries(env_file_lines(front)),
        }));
        assert(kept_settings(settings) == (if last.1.len() > 0 { kept_settings(front).push(last) } else { kept_settings(front) }));
    }
}

proof fn lemma_lookup_kept(settings: Seq<(Seq<char>, Seq<char>)>, i: int)
    requires
        0 <= i < settings.len(),
        forall|a: int, b: int| 0 <= a < b < settings.len() ==> settings[a].0 != settings[b].0,
    ensures
        env_value(kept_settings(settings), settings[i].0)
            == (if settings[i].1.len() > 0 { Some(settings[i].1) } else { None::<Seq<char>> }),
    decreases settings.len(),
{
    let front = settings.drop_last();
    let n = settings.len() - 1;
    let last = settings[n];
    assert(settings.last() == last);
    let kf = kept_settings(front);
    assert(kept_settings(settings) == (if last.1.len() > 0 { kf.push(last) } else { kf }));
    if last.1.len() > 0 {
        assert(kf.push(last).drop_last() == kf);
        assert(kf.push(last).last() == last);
    }
    if i < n {
        assert(front[i] == settings[i]);
        assert forall|a: int, b: int| 0 <= a < b < front.len() implies front[a].0 != front[b].0 by {
            assert(front[a] == settings[a]);
            assert(front[b] == settings[b]);
        }
        lemma_lookup_kept(front, i);
        assert(settings[n].0 != settings[i].0);
    } else {
        assert forall|a: int| 0 <= a < front.len() implies front[a].0 != settings[i].0 by {
            assert(front[a] == settings[a]);
        }
        lemma_lookup_absent(front, settings[i].0);
    }
}

proof fn lemma_lookup_absent(settings: Seq<(Seq<char>, Seq<char>)>, key: Seq<char>)
    requires
        forall|a: int| 0 <= a < settings.len() ==> settings[a].0 != key,
    ensures
        env_value(kept_settings(settings), key) is None,
    decreases settings.len(),
{
    if settings.len() > 0 {
        let front = settings.drop_last();
        assert forall|a: int| 0 <= a < front.len() implies front[a].0 != key by {
            assert(front[a] == settings[a]);
        }
        lemma_lookup_absent(front, key);
        let last = settings[settings.len() - 1];
        assert(settings.last() == last);
        assert(last.0 != key);
        let kf = kept_settings(front);
        if last.1.len() > 0 {
            assert(kf.push(last).drop_last() == kf);
            assert(kf.push(last).last() == last);
        }
    }
}

/// What is saved reads back: after the settings are written as `.env`
/// text, reading that text finds each storable setting's value, and no
/// entry for a setting saved empty.
pub proof fn law_saved_config_reads_back(settings: Seq<(Seq<char>, Seq<char>)>, i: int)
    requires
        0 <= i < settings.len(),
        storable(settings),
        forall|a: int, b: int| 0 <= a < b < settings.len() ==> settings[a].0 != settings[b].0,
    ensures
        env_value(env_entries(text_lines(env_text(settings))), settings[i].0)
            == (if settings[i].1.len() > 0 { Some(settings[i].1) } else { None::<Seq<char>> }),
{
    let ls = env_file_lines(settings);
    assert forall|j: int| 0 <= j < ls.len() implies plain_line(#[trigger] ls[j]) by {
        reveal_strlit("# Virtuoso CLI Configuration");
        if j == 0 {
            let h = "# Virtuoso CLI Configuration"@;
            assert(ls[0] == h);
            assert(!has_char(h, '\n')) by {
                if has_char(h, '\n') {
                    let q = choose|q: int| 0 <= q < h.len() && h[q] == '\n';
                    assert(h[q] != '\n');
                }
            }
        } else {
            let p = settings[j - 1];
            assert(ls[j] == env_line(p.0, p.1));
            assert(storable_key(settings[j - 1].0));
            lemma_plain_env_line(p.0, p.1);
        }
    }
    lemma_lines_of_saved(ls);
    assert(env_text(settings) == joined(ls + seq![Seq::<char>::empty()], "\n"@));
    lemma_entries_of_saved(settings);
    lemma_lookup_kept(settings, i);
}

proof fn lemma_plain_env_line(k: Seq<char>, v: Seq<char>)
    requires
        storable_key(k),
        storable_value(v),
    ensures
        plain_line(env_line(k, v)),
{
    reveal_strlit("=");
    reveal_strlit("# ");
    let l = env_line(k, v);
    if v.len() > 0 {
        lemma_trimmed_ends(v);
        assert(l.last() == v.last());
        assert(!has_char(l, '\n')) by {
            if has_char(l, '\n') {
                let q = choose|q: int| 0 <= q < l.len() && l[q] == '\n';
                if q < k.len() {
                    assert(l[q] == k[q]);
                } else if q > k.len() {
                    assert(l[q] == v[q - k.len() - 1]);
                }
            }
        }
    } else {
        assert(l.last() == '=');
        assert(!has_char(l, '\n')) by {
            if has_char(l, '\n') {
                let q = choose|q: int| 0 <= q < l.len() && l[q] == '\n';
                if 2 <= q < 2 + k.len() {
                    assert(l[q] == k[q - 2]);
                }
            }
        }
    }
}

} // verus!
