use vstd::prelude::*;
use crate::chars::{
    is_ws, is_ws_exec, ws_pred, char_pred, drop_front, drop_back, trim, trim_chars, sub_chars,
    strings_view, lemma_strings_view_push, starts_with, starts_with_chars, occurs_at, first_occurrence,
    find_chars,
};
use crate::text::{chars_of, chars_eq, string_of};

verus! {

// ───────────────────────── top-level tokens of a SKILL list ─────────────────────────

/// Tokenizer state: paren depth, inside a string, an escaped character
/// pending, the current token, the tokens so far.
pub type TopScan = (int, bool, bool, Seq<char>, Seq<Seq<char>>);

/// One character of the top-level tokenizer. Inside a string a backslash
/// takes the next character along unread; outside strings parentheses
/// nest, and at depth 0 spaces, tabs and newlines end a token.
pub open spec fn top_step(st: TopScan, c: char) -> TopScan {
    let (d, ins, esc, cur, res) = st;
    if esc {
        (d, ins, false, cur.push(c), res)
    } else if !ins && c == '"' {
        (d, true, false, cur.push(c), res)
    } else if ins && c == '\\' {
        (d, ins, true, cur.push(c), res)
    } else if ins && c == '"' {
        (d, false, false, cur.push(c), res)
    } else if !ins && c == '(' {
        (d + 1, ins, false, cur.push(c), res)
    } else if !ins && c == ')' {
        (d - 1, ins, false, cur.push(c), res)
    } else if !ins && (c == ' ' || c == '\t' || c == '\n') && d == 0 {
        let tok = trim(cur);
        (d, ins, false, Seq::<char>::empty(), if tok.len() > 0 { res.push(tok) } else { res })
    } else {
        (d, ins, false, cur.push(c), res)
    }
}

/// The tokenizer state after reading `cs`.
pub open spec fn top_scan(cs: Seq<char>) -> TopScan
    decreases cs.len(),
{
    if cs.len() == 0 {
        (0, false, false, Seq::<char>::empty(), Seq::<Seq<char>>::empty())
    } else {
        top_step(top_scan(cs.drop_last()), cs.last())
    }
}

/// The text between the outer parentheses of a list (the closing one optional).
pub open spec fn list_inner(s: Seq<char>) -> Seq<char> {
    let inner = s.skip(1);
    if inner.len() > 0 && inner.last() == ')' { inner.drop_last() } else { inner }
}

/// The top-level elements of a SKILL list: none unless the trimmed text starts
/// with `(`; otherwise the tokens of the inner text, the last one included.
pub open spec fn top_level_tokens(s: Seq<char>) -> Seq<Seq<char>> {
    let t = trim(s);
    if t.len() == 0 || t[0] != '(' {
        Seq::<Seq<char>>::empty()
    } else {
        let st = top_scan(list_inner(t));
        let last = trim(st.3);
        if last.len() > 0 { st.4.push(last) } else { st.4 }
    }
}

/// Tokenize the top-level elements of a SKILL list, respecting nested parens
/// and quoted strings:
/// `(tok1 tok2 (sub list) "quoted str")` → `["tok1", "tok2", "(sub list)", "\"quoted str\""]`.
pub fn parse_skill_list_top_level(s: &str) -> (r: Vec<String>)
    ensures
        strings_view(r@) == top_level_tokens(s@),
{
    let all = chars_of(s);
    let t = trim_chars(&all);
    let mut result: Vec<String> = Vec::new();
    if t.len() == 0 || t[0] != '(' {
        assert(strings_view(result@) =~= Seq::<Seq<char>>::empty());
        return result;
    }
    let end = if t.len() > 1 && t[t.len() - 1] == ')' { t.len() - 1 } else { t.len() };
    let inner = sub_chars(&t, 1, end);
    proof {
        let i2 = t@.skip(1);
        if t.len() > 1 && t@[t.len() - 1] == ')' {
            assert(i2.last() == t@[t.len() - 1]);
            assert(i2.drop_last() =~= t@.subrange(1, t.len() - 1));
        } else {
            assert(i2 =~= t@.subrange(1, t.len() as int));
        }
    }
    let mut depth: i128 = 0;
    let mut in_string = false;
    let mut escaped = false;
    let mut current: Vec<char> = Vec::new();
    assert(strings_view(result@) =~= Seq::<Seq<char>>::empty());
    assert(inner@.take(0) =~= Seq::<char>::empty());
    for i in 0..inner.len()
        invariant
            -(i as int) <= depth <= i,
            (depth as int, in_string, escaped, current@, strings_view(result@)) == top_scan(inner@.take(i as int)),
    {
        let c = inner[i];
        assert(inner@.take(i + 1).drop_last() == inner@.take(i as int));
        assert(inner@.take(i + 1).last() == c);
        if escaped {
            current.push(c);
            escaped = false;
        } else if !in_string && c == '"' {
            in_string = true;
            current.push(c);
        } else if in_string && c == '\\' {
            current.push(c);
            escaped = true;
        } else if in_string && c == '"' {
            in_string = false;
            current.push(c);
        } else if !in_string && c == '(' {
            depth = depth + 1;
            current.push(c);
        } else if !in_string && c == ')' {
            depth = depth - 1;
            current.push(c);
        } else if !in_string && (c == ' ' || c == '\t' || c == '\n') && depth == 0 {
            let tok = trim_chars(&current);
            if tok.len() > 0 {
                let ts = string_of(tok.as_slice());
                proof { lemma_strings_view_push(result@, ts); }
                result.push(ts);
            }
            current = Vec::new();
        } else {
            current.push(c);
        }
    }
    assert(inner@.take(inner.len() as int) == inner@);
    let tok = trim_chars(&current);
    if tok.len() > 0 {
        let ts = string_of(tok.as_slice());
        proof { lemma_strings_view_push(result@, ts); }
        result.push(ts);
    }
    result
}

// ───────────────────────── string tokens ─────────────────────────

/// The string a SKILL token denotes: `"foo"` → `foo`; `nil`, empty and
/// unquoted tokens denote none.
pub open spec fn string_token_value(token: Seq<char>) -> Option<Seq<char>> {
    let s = trim(token);
    if s == "nil"@ || s.len() == 0 {
        None
    } else if s.len() >= 2 && s[0] == '"' && s.last() == '"' {
        Some(s.subrange(1, s.len() - 1))
    } else {
        None
    }
}

/// Extract the string value from a SKILL token: `"foo"` → `Some("foo")`, `nil` → `None`.
pub fn extract_skill_string_token(token: &str) -> (r: Option<String>)
    ensures
        match r {
            Some(v) => string_token_value(token@) == Some(v@),
            None => string_token_value(token@) is None,
        },
{
    let all = chars_of(token);
    let s = trim_chars(&all);
    let nil = chars_of("nil");
    if chars_eq(&s, &nil) || s.len() == 0 {
        return None;
    }
    if s.len() >= 2 && s[0] == '"' && s[s.len() - 1] == '"' {
        let v = sub_chars(&s, 1, s.len() - 1);
        Some(string_of(v.as_slice()))
    } else {
        None
    }
}

// ───────────────────────── ADE window titles ─────────────────────────

/// What an ADE window title says about the window.
#[derive(Debug)]
pub struct AdeWindowInfo {
    pub application: String,
    pub lib: String,
    pub cell: String,
    pub view: String,
    pub editable: bool,
    pub unsaved_changes: bool,
}

/// How many non-whitespace characters `s` starts with.
pub open spec fn word_len(s: Seq<char>) -> nat
    decreases s.len(),
{
    if s.len() > 0 && !is_ws(s[0]) {
        1 + word_len(s.skip(1))
    } else {
        0
    }
}

/// The next whitespace-separated word of `s` and the text after it.
pub open spec fn next_word(s: Seq<char>) -> Option<(Seq<char>, Seq<char>)> {
    let t = drop_front(s, ws_pred());
    if t.len() == 0 {
        None
    } else {
        Some((t.take(word_len(t) as int), t.skip(word_len(t) as int)))
    }
}

/// The application named after `ADE ` and the text after it.
#[verifier::opaque]
pub open spec fn app_split(rest: Seq<char>) -> Option<(Seq<char>, Seq<char>)> {
    if starts_with(rest, "Assembler "@) {
        Some(("assembler"@, rest.skip(10)))
    } else if starts_with(rest, "Explorer "@) {
        Some(("explorer"@, rest.skip(9)))
    } else {
        None
    }
}

/// Whether the window edits (`Editing: `) or reads (`Reading: `), and the text after it.
#[verifier::opaque]
pub open spec fn mode_split(rest: Seq<char>) -> Option<(bool, Seq<char>)> {
    if starts_with(rest, "Editing: "@) {
        Some((true, rest.skip(9)))
    } else if starts_with(rest, "Reading: "@) {
        Some((false, rest.skip(9)))
    } else {
        None
    }
}

/// The first three words of `s`.
#[verifier::opaque]
pub open spec fn three_words(s: Seq<char>) -> Option<(Seq<char>, Seq<char>, Seq<char>)> {
    match next_word(s) {
        None => None,
        Some((w1, r1)) => match next_word(r1) {
            None => None,
            Some((w2, r2)) => match next_word(r2) {
                None => None,
                Some((w3, _)) => Some((w1, w2, w3)),
            },
        },
    }
}

/// The parts of an ADE title: application, editable, lib, cell, raw view.
#[verifier::opaque]
pub open spec fn ade_title_parts(title: Seq<char>) -> Option<(Seq<char>, bool, Seq<char>, Seq<char>, Seq<char>)> {
    match first_occurrence(title, "ADE "@) {
        None => None,
        Some(pos) => match app_split(title.skip(pos + 4)) {
            None => None,
            Some((app, rest2)) => match mode_split(rest2) {
                None => None,
                Some((editable, rest3)) => match three_words(rest3) {
                    None => None,
                    Some((lib, cell, view_raw)) => Some((app, editable, lib, cell, view_raw)),
                },
            },
        },
    }
}

/// Whether a parse of a title matches the title's parts.
pub open spec fn ade_info_matches(info: AdeWindowInfo, parts: (Seq<char>, bool, Seq<char>, Seq<char>, Seq<char>)) -> bool {
    let (app, editable, lib, cell, view_raw) = parts;
    &&& info.application@ == app
    &&& info.editable == editable
    &&& info.lib@ == lib
    &&& info.cell@ == cell
    &&& info.unsaved_changes == (view_raw.len() > 0 && view_raw.last() == '*')
    &&& info.view@ == drop_back(view_raw, char_pred('*'))
}

proof fn lemma_word_len_at(s: Seq<char>, k: int)
    requires
        0 <= k <= s.len(),
        forall|j: int| 0 <= j < k ==> !is_ws(#[trigger] s[j]),
        k == s.len() || is_ws(s[k]),
    ensures
        word_len(s) == k,
    decreases k,
{
    if k > 0 {
        assert forall|j: int| 0 <= j < k - 1 implies !is_ws(#[trigger] s.skip(1)[j]) by {
            assert(s.skip(1)[j] == s[j + 1]);
        }
        if k - 1 < s.skip(1).len() {
            assert(s.skip(1)[k - 1] == s[k]);
        }
        lemma_word_len_at(s.skip(1), k - 1);
    }
}

proof fn lemma_drop_front_ws(s: Seq<char>, k: int)
    requires
        0 <= k <= s.len(),
        forall|j: int| 0 <= j < k ==> is_ws(#[trigger] s[j]),
        k == s.len() || !is_ws(s[k]),
    ensures
        drop_front(s, ws_pred()) == s.skip(k),
    decreases k,
{
    if k == 0 {
        assert(s.skip(0) == s);
    } else {
        assert(s.skip(1).skip(k - 1) == s.skip(k));
        assert forall|j: int| 0 <= j < k - 1 implies is_ws(#[trigger] s.skip(1)[j]) by {
            assert(s.skip(1)[j] == s[j + 1]);
        }
        if k - 1 < s.skip(1).len() {
            assert(s.skip(1)[k - 1] == s[k]);
        }
        lemma_drop_front_ws(s.skip(1), k - 1);
    }
}

/// The next word of `cs[pos..]`: its bounds, or `None` when only whitespace remains.
fn next_word_exec(cs: &Vec<char>, pos: usize) -> (r: Option<(usize, usize)>)
    requires
        pos <= cs.len(),
    ensures
        match r {
            Some((a, b)) => pos <= a < b <= cs.len() && next_word(cs@.skip(pos as int)) == Some(
                (cs@.subrange(a as int, b as int), cs@.skip(b as int)),
            ),
            None => next_word(cs@.skip(pos as int)) is None,
        },
{
    let ghost s = cs@.skip(pos as int);
    let mut a = pos;
    while a < cs.len() && is_ws_exec(cs[a])
        invariant
            pos <= a <= cs.len(),
            s == cs@.skip(pos as int),
            forall|j: int| 0 <= j < a - pos ==> is_ws(#[trigger] s[j]),
        decreases cs.len() - a,
    {
        assert(s[a - pos] == cs@[a as int]);
        a = a + 1;
    }
    proof {
        if a < cs.len() {
            assert(s[a - pos] == cs@[a as int]);
        }
        lemma_drop_front_ws(s, a - pos);
        assert(s.skip(a - pos) =~= cs@.skip(a as int));
    }
    if a == cs.len() {
        return None;
    }
    let ghost t = cs@.skip(a as int);
    let mut b = a;
    while b < cs.len() && !is_ws_exec(cs[b])
        invariant
            a <= b <= cs.len(),
            t == cs@.skip(a as int),
            forall|j: int| 0 <= j < b - a ==> !is_ws(#[trigger] t[j]),
        decreases cs.len() - b,
    {
        assert(t[b - a] == cs@[b as int]);
        b = b + 1;
    }
    proof {
        if b < cs.len() {
            assert(t[b - a] == cs@[b as int]);
        }
        lemma_word_len_at(t, b - a);
        assert(t.take(b - a) =~= cs@.subrange(a as int, b as int));
        assert(t.skip(b - a) =~= cs@.skip(b as int));
        assert(t[0] == cs@[a as int]);
    }
    Some((a, b))
}

/// `s` without trailing `*` characters, and whether there was one.
fn strip_stars(v: &Vec<char>) -> (r: (Vec<char>, bool))
    ensures
        r.0@ == drop_back(v@, char_pred('*')),
        r.1 == (v@.len() > 0 && v@.last() == '*'),
{
    let unsaved = v.len() > 0 && v[v.len() - 1] == '*';
    let mut hi = v.len();
    assert(v@.take(v.len() as int) == v@);
    while hi > 0 && v[hi - 1] == '*'
        invariant
            hi <= v.len(),
            drop_back(v@, char_pred('*')) == drop_back(v@.take(hi as int), char_pred('*')),
        decreases hi,
    {
        assert(v@.take(hi as int).drop_last() == v@.take(hi - 1));
        assert(v@.take(hi as int).last() == v@[hi - 1]);
        hi = hi - 1;
    }
    proof {
        if hi > 0 {
            assert(v@.take(hi as int).last() == v@[hi - 1]);
        }
        assert(v@.take(v.len() as int) == v@);
    }
    let r = sub_chars(v, 0, hi);
    assert(r@ == v@.take(hi as int));
    (r, unsaved)
}

fn app_split_exec(rest: &Vec<char>) -> (r: Option<(&'static str, Vec<char>)>)
    ensures
        match r {
            Some((app, rest2)) => app_split(rest@) == Some((app@, rest2@)),
            None => app_split(rest@) is None,
        },
{
    proof {
        reveal(app_split);
        reveal_strlit("Assembler ");
        reveal_strlit("Explorer ");
    }
    if starts_with_chars(rest, "Assembler ") {
        let r2 = sub_chars(rest, 10, rest.len());
        assert(r2@ =~= rest@.skip(10));
        Some(("assembler", r2))
    } else if starts_with_chars(rest, "Explorer ") {
        let r2 = sub_chars(rest, 9, rest.len());
        assert(r2@ =~= rest@.skip(9));
        Some(("explorer", r2))
    } else {
        None
    }
}

fn mode_split_exec(rest: &Vec<char>) -> (r: Option<(bool, Vec<char>)>)
    ensures
        match r {
            Some((ed, rest2)) => mode_split(rest@) == Some((ed, rest2@)),
            None => mode_split(rest@) is None,
        },
{
    proof {
        reveal(mode_split);
        reveal_strlit("Editing: ");
        reveal_strlit("Reading: ");
    }
    if starts_with_chars(rest, "Editing: ") {
        let r2 = sub_chars(rest, 9, rest.len());
        assert(r2@ =~= rest@.skip(9));
        Some((true, r2))
    } else if starts_with_chars(rest, "Reading: ") {
        let r2 = sub_chars(rest, 9, rest.len());
        assert(r2@ =~= rest@.skip(9));
        Some((false, r2))
    } else {
        None
    }
}

pub(crate) fn three_words_exec(s: &Vec<char>) -> (r: Option<(Vec<char>, Vec<char>, Vec<char>)>)
    ensures
        match r {
            Some((a, b, c)) => three_words(s@) == Some((a@, b@, c@)),
            None => three_words(s@) is None,
        },
{
    proof { reveal(three_words); }
    assert(s@.skip(0) == s@);
    let (a1, b1) = match next_word_exec(s, 0) {
        Some(w) => w,
        None => return None,
    };
    let (a2, b2) = match next_word_exec(s, b1) {
        Some(w) => w,
        None => return None,
    };
    let (a3, b3) = match next_word_exec(s, b2) {
        Some(w) => w,
        None => return None,
    };
    Some((sub_chars(s, a1, b1), sub_chars(s, a2, b2), sub_chars(s, a3, b3)))
}

fn ade_title_parts_exec(title: &str) -> (r: Option<(&'static str, bool, Vec<char>, Vec<char>, Vec<char>)>)
    ensures
        match r {
            Some((app, ed, lib, cell, view_raw)) => ade_title_parts(title@) == Some((app@, ed, lib@, cell@, view_raw@)),
            None => ade_title_parts(title@) is None,
        },
{
    proof {
        reveal(ade_title_parts);
        reveal_strlit("ADE ");
    }
    let cs = chars_of(title);
    let ade = chars_of("ADE ");
    assert(ade@.len() == 4);
    let pos = match find_chars(&cs, &ade) {
        Some(p) => p,
        None => return None,
    };
    assert(occurs_at(cs@, ade@, pos as int));
    assert(pos + 4 <= cs.len());
    let rest = sub_chars(&cs, pos + 4, cs.len());
    assert(rest@ =~= cs@.skip(pos + 4));
    let (app, rest2) = match app_split_exec(&rest) {
        Some(x) => x,
        None => return None,
    };
    let (editable, rest3) = match mode_split_exec(&rest2) {
        Some(x) => x,
        None => return None,
    };
    let (lib, cell, view_raw) = match three_words_exec(&rest3) {
        Some(x) => x,
        None => return None,
    };
    Some((app, editable, lib, cell, view_raw))
}

/// Parse an ADE window title: `ADE Assembler Editing: LIB CELL VIEW[*]`
/// (or `Explorer`, or `Reading:`); a trailing `*` marks unsaved changes.
pub fn parse_ade_title(title: &str) -> (r: Option<AdeWindowInfo>)
    ensures
        match r {
            Some(info) => ade_title_parts(title@) matches Some(parts) && ade_info_matches(info, parts),
            None => ade_title_parts(title@) is None,
        },
{
    let (app, editable, lib, cell, view_raw) = match ade_title_parts_exec(title) {
        Some(x) => x,
        None => return None,
    };
    let (view, unsaved) = strip_stars(&view_raw);
    Some(AdeWindowInfo {
        application: crate::text::string_from(app),
        lib: string_of(lib.as_slice()),
        cell: string_of(cell.as_slice()),
        view: string_of(view.as_slice()),
        editable,
        unsaved_changes: unsaved,
    })
}

} // verus!
