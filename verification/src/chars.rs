use vstd::prelude::*;

verus! {

// Character-level text operations with the meaning std gives them.

/// Unicode `White_Space`, the property `char::is_whitespace` tests.
pub open spec fn is_ws(c: char) -> bool {
    c == '\t' || c == '\n' || c == '\u{0B}' || c == '\u{0C}' || c == '\r' || c == ' '
        || c == '\u{85}' || c == '\u{A0}' || c == '\u{1680}'
        || ('\u{2000}' <= c && c <= '\u{200A}')
        || c == '\u{2028}' || c == '\u{2029}' || c == '\u{202F}' || c == '\u{205F}' || c == '\u{3000}'
}

/// Whether `c` is whitespace (`char::is_whitespace`).
pub fn is_ws_exec(c: char) -> (r: bool)
    ensures
        r == is_ws(c),
{
    c == '\t' || c == '\n' || c == '\u{0B}' || c == '\u{0C}' || c == '\r' || c == ' '
        || c == '\u{85}' || c == '\u{A0}' || c == '\u{1680}'
        || ('\u{2000}' <= c && c <= '\u{200A}')
        || c == '\u{2028}' || c == '\u{2029}' || c == '\u{202F}' || c == '\u{205F}' || c == '\u{3000}'
}

/// `s` without leading characters that satisfy `p`.
pub open spec fn drop_front(s: Seq<char>, p: spec_fn(char) -> bool) -> Seq<char>
    decreases s.len(),
{
    if s.len() > 0 && p(s[0]) {
        drop_front(s.skip(1), p)
    } else {
        s
    }
}

/// `s` without trailing characters that satisfy `p`.
pub open spec fn drop_back(s: Seq<char>, p: spec_fn(char) -> bool) -> Seq<char>
    decreases s.len(),
{
    if s.len() > 0 && p(s.last()) {
        drop_back(s.drop_last(), p)
    } else {
        s
    }
}

/// The whitespace predicate.
pub open spec fn ws_pred() -> spec_fn(char) -> bool {
    |c: char| is_ws(c)
}

/// The predicate "equals `c`".
pub open spec fn char_pred(c: char) -> spec_fn(char) -> bool {
    |x: char| x == c
}

/// `str::trim`: without leading and trailing whitespace.
pub open spec fn trim(s: Seq<char>) -> Seq<char> {
    drop_back(drop_front(s, ws_pred()), ws_pred())
}

/// `str::trim_matches(c)`: without leading and trailing occurrences of `c`.
pub open spec fn trim_char(s: Seq<char>, c: char) -> Seq<char> {
    drop_back(drop_front(s, char_pred(c)), char_pred(c))
}

pub proof fn lemma_drop_front_at(s: Seq<char>, p: spec_fn(char) -> bool, k: int)
    requires
        0 <= k <= s.len(),
        forall|j: int| 0 <= j < k ==> p(#[trigger] s[j]),
        k == s.len() || !p(s[k]),
    ensures
        drop_front(s, p) == s.skip(k),
    decreases k,
{
    if k == 0 {
        assert(s.skip(0) == s);
    } else {
        assert(s.skip(1).skip(k - 1) == s.skip(k));
        assert forall|j: int| 0 <= j < k - 1 implies p(#[trigger] s.skip(1)[j]) by {
            assert(s.skip(1)[j] == s[j + 1]);
        }
        if k - 1 < s.skip(1).len() {
            assert(s.skip(1)[k - 1] == s[k]);
        }
        lemma_drop_front_at(s.skip(1), p, k - 1);
    }
}

pub proof fn lemma_drop_back_at(s: Seq<char>, p: spec_fn(char) -> bool, k: int)
    requires
        0 <= k <= s.len(),
        forall|j: int| k <= j < s.len() ==> p(#[trigger] s[j]),
        k == 0 || !p(s[k - 1]),
    ensures
        drop_back(s, p) == s.take(k),
    decreases s.len() - k,
{
    if k == s.len() {
        assert(s.take(k) == s);
    } else {
        assert(s.drop_last().take(k) == s.take(k));
        assert forall|j: int| k <= j < s.drop_last().len() implies p(#[trigger] s.drop_last()[j]) by {
            assert(s.drop_last()[j] == s[j]);
        }
        if k > 0 {
            assert(s.drop_last()[k - 1] == s[k - 1]);
        }
        lemma_drop_back_at(s.drop_last(), p, k);
    }
}

/// Which characters a trim removes.
#[derive(Clone, Copy)]
pub enum StripMode {
    Whitespace,
    One(char),
    Parens,
}

/// The predicate "is `(` or `)`".
pub open spec fn paren_pred() -> spec_fn(char) -> bool {
    |x: char| x == '(' || x == ')'
}

/// The predicate a trim mode removes.
pub open spec fn mode_pred(m: StripMode) -> spec_fn(char) -> bool {
    match m {
        StripMode::Whitespace => ws_pred(),
        StripMode::One(c) => char_pred(c),
        StripMode::Parens => paren_pred(),
    }
}

/// `str::trim_matches(|c| c == '(' || c == ')')`.
pub open spec fn trim_parens(s: Seq<char>) -> Seq<char> {
    drop_back(drop_front(s, paren_pred()), paren_pred())
}

fn strips(x: char, m: StripMode) -> (r: bool)
    ensures
        r == mode_pred(m)(x),
{
    match m {
        StripMode::Whitespace => is_ws_exec(x),
        StripMode::One(c) => x == c,
        StripMode::Parens => x == '(' || x == ')',
    }
}

/// The bounds `[lo, hi)` of `cs` that remain after dropping leading and
/// trailing characters that the mode removes.
fn strip_bounds(cs: &Vec<char>, lo0: usize, hi0: usize, m: StripMode) -> (r: (usize, usize))
    requires
        lo0 <= hi0 <= cs.len(),
    ensures
        lo0 <= r.0 <= r.1 <= hi0,
        cs@.subrange(r.0 as int, r.1 as int) == drop_back(drop_front(cs@.subrange(lo0 as int, hi0 as int), mode_pred(m)), mode_pred(m)),
{
    let ghost p = mode_pred(m);
    let ghost s = cs@.subrange(lo0 as int, hi0 as int);
    let mut lo = lo0;
    while lo < hi0 && strips(cs[lo], m)
        invariant
            lo0 <= lo <= hi0 <= cs.len(),
            s == cs@.subrange(lo0 as int, hi0 as int),
            p == mode_pred(m),
            forall|j: int| 0 <= j < lo - lo0 ==> p(#[trigger] s[j]),
        decreases hi0 - lo,
    {
        assert(s[lo - lo0] == cs@[lo as int]);
        lo = lo + 1;
    }
    proof {
        if lo < hi0 {
            assert(s[lo - lo0] == cs@[lo as int]);
        }
        lemma_drop_front_at(s, p, lo - lo0);
        assert(s.skip(lo - lo0) == cs@.subrange(lo as int, hi0 as int));
    }
    let ghost s2 = cs@.subrange(lo as int, hi0 as int);
    let mut hi = hi0;
    while hi > lo && strips(cs[hi - 1], m)
        invariant
            lo <= hi <= hi0 <= cs.len(),
            s2 == cs@.subrange(lo as int, hi0 as int),
            p == mode_pred(m),
            forall|j: int| hi - lo <= j < s2.len() ==> p(#[trigger] s2[j]),
        decreases hi - lo,
    {
        assert(s2[hi - 1 - lo] == cs@[hi - 1]);
        hi = hi - 1;
    }
    proof {
        if hi > lo {
            assert(s2[hi - 1 - lo] == cs@[hi - 1]);
        }
        lemma_drop_back_at(s2, p, hi - lo);
        assert(s2.take(hi - lo) == cs@.subrange(lo as int, hi as int));
    }
    (lo, hi)
}

/// The characters `cs[lo..hi]`.
pub fn sub_chars(cs: &Vec<char>, lo: usize, hi: usize) -> (r: Vec<char>)
    requires
        lo <= hi <= cs.len(),
    ensures
        r@ == cs@.subrange(lo as int, hi as int),
{
    let mut r: Vec<char> = Vec::new();
    let mut i = lo;
    while i < hi
        invariant
            lo <= i <= hi <= cs.len(),
            r@ == cs@.subrange(lo as int, i as int),
        decreases hi - i,
    {
        r.push(cs[i]);
        assert(cs@.subrange(lo as int, i + 1) == cs@.subrange(lo as int, i as int).push(cs@[i as int]));
        i = i + 1;
    }
    r
}

/// `str::trim` on characters.
pub fn trim_chars(cs: &Vec<char>) -> (r: Vec<char>)
    ensures
        r@ == trim(cs@),
{
    let (lo, hi) = strip_bounds(cs, 0, cs.len(), StripMode::Whitespace);
    assert(cs@.subrange(0, cs.len() as int) == cs@);
    sub_chars(cs, lo, hi)
}

/// `str::trim_matches(c)` on characters.
pub fn trim_char_chars(cs: &Vec<char>, c: char) -> (r: Vec<char>)
    ensures
        r@ == trim_char(cs@, c),
{
    let (lo, hi) = strip_bounds(cs, 0, cs.len(), StripMode::One(c));
    assert(cs@.subrange(0, cs.len() as int) == cs@);
    sub_chars(cs, lo, hi)
}

/// `str::trim_matches(|c| c == '(' || c == ')')` on characters.
pub fn trim_parens_chars(cs: &Vec<char>) -> (r: Vec<char>)
    ensures
        r@ == trim_parens(cs@),
{
    let (lo, hi) = strip_bounds(cs, 0, cs.len(), StripMode::Parens);
    assert(cs@.subrange(0, cs.len() as int) == cs@);
    sub_chars(cs, lo, hi)
}

/// Whether `pat` occurs in `s` at position `i`.
pub open spec fn occurs_at(s: Seq<char>, pat: Seq<char>, i: int) -> bool {
    0 <= i && i + pat.len() <= s.len() && s.subrange(i, i + pat.len()) == pat
}

/// `str::contains`: whether `pat` occurs somewhere in `s`.
pub open spec fn contains(s: Seq<char>, pat: Seq<char>) -> bool {
    exists|i: int| occurs_at(s, pat, i)
}

/// The first position at which `pat` occurs in `s`, if any (`str::find`).
#[verifier::opaque]
pub open spec fn first_occurrence(s: Seq<char>, pat: Seq<char>) -> Option<int> {
    if contains(s, pat) {
        Some(choose|i: int| occurs_at(s, pat, i) && forall|j: int| 0 <= j < i ==> !occurs_at(s, pat, j))
    } else {
        None
    }
}

fn occurs_at_exec(s: &Vec<char>, pat: &Vec<char>, i: usize) -> (r: bool)
    requires
        i <= s.len(),
    ensures
        r == occurs_at(s@, pat@, i as int),
{
    if pat.len() > s.len() - i {
        return false;
    }
    for j in 0..pat.len()
        invariant
            i + pat.len() <= s.len(),
            forall|k: int| 0 <= k < j ==> s@[i + k] == pat@[k],
    {
        if s[i + j] != pat[j] {
            assert(s@.subrange(i as int, i + pat.len())[j as int] == s@[i + j]);
            return false;
        }
    }
    assert(s@.subrange(i as int, i + pat.len()) =~= pat@);
    true
}

/// The first position at which `pat` occurs in `s` (`str::find`, counted in characters).
pub fn find_chars(s: &Vec<char>, pat: &Vec<char>) -> (r: Option<usize>)
    ensures
        match r {
            Some(i) => first_occurrence(s@, pat@) == Some(i as int) && occurs_at(s@, pat@, i as int),
            None => first_occurrence(s@, pat@) is None,
        },
        r is Some <==> contains(s@, pat@),
{
    proof { reveal(first_occurrence); }
    if pat.len() > s.len() {
        proof {
            assert forall|k: int| !occurs_at(s@, pat@, k) by {}
        }
        return None;
    }
    let last = s.len() - pat.len();
    let mut i: usize = 0;
    loop
        invariant
            i <= last,
            last == s.len() - pat.len(),
            forall|j: int| 0 <= j < i ==> !occurs_at(s@, pat@, j),
        decreases last - i,
    {
        if occurs_at_exec(s, pat, i) {
            proof {
                reveal(first_occurrence);
                assert(contains(s@, pat@));
                let f = choose|k: int| occurs_at(s@, pat@, k) && forall|j: int| 0 <= j < k ==> !occurs_at(s@, pat@, j);
                assert(occurs_at(s@, pat@, f) && forall|j: int| 0 <= j < f ==> !occurs_at(s@, pat@, j));
                assert(f == i);
            }
            return Some(i);
        }
        if i == last {
            proof {
                reveal(first_occurrence);
                assert forall|k: int| !occurs_at(s@, pat@, k) by {
                    if 0 <= k && k <= i {
                    }
                }
            }
            return None;
        }
        i = i + 1;
    }
}

/// `str::contains` on characters.
pub fn contains_chars(s: &Vec<char>, pat: &Vec<char>) -> (r: bool)
    ensures
        r == contains(s@, pat@),
{
    match find_chars(s, pat) {
        Some(_) => true,
        None => false,
    }
}

/// `str::contains` on string slices.
pub fn str_contains(s: &str, pat: &str) -> (r: bool)
    ensures
        r == contains(s@, pat@),
{
    let sc = crate::text::chars_of(s);
    let pc = crate::text::chars_of(pat);
    contains_chars(&sc, &pc)
}

/// `starts_with` on sequences.
pub open spec fn starts_with(s: Seq<char>, pre: Seq<char>) -> bool {
    pre.len() <= s.len() && s.take(pre.len() as int) == pre
}

/// Whether `cs` starts with `pre`.
pub fn starts_with_chars(cs: &Vec<char>, pre: &str) -> (r: bool)
    ensures
        r == starts_with(cs@, pre@),
{
    let pc = crate::text::chars_of(pre);
    let r = occurs_at_exec(cs, &pc, 0);
    proof {
        if pc.len() <= cs.len() {
            assert(cs@.subrange(0, pc@.len() as int) == cs@.take(pc@.len() as int));
        }
    }
    r
}

} // verus!

verus! {

/// The character sequences of a list of strings.
pub open spec fn strings_view(v: Seq<String>) -> Seq<Seq<char>> {
    v.map_values(|s: String| s@)
}

/// The character sequences of a list of rows of strings.
pub open spec fn rows_view(v: Seq<Vec<String>>) -> Seq<Seq<Seq<char>>> {
    v.map_values(|r: Vec<String>| strings_view(r@))
}

/// A copy of a list of strings.
pub fn clone_strings(v: &Vec<String>) -> (r: Vec<String>)
    ensures
        strings_view(r@) == strings_view(v@),
{
    let mut r: Vec<String> = Vec::new();
    for i in 0..v.len()
        invariant
            r@.len() == i,
            forall|j: int| 0 <= j < i ==> #[trigger] r@[j]@ == v@[j]@,
    {
        r.push(crate::text::string_from(v[i].as_str()));
    }
    assert(strings_view(r@) =~= strings_view(v@));
    r
}

/// Pushing onto a list of strings pushes its characters onto the view.
pub proof fn lemma_strings_view_push(v: Seq<String>, s: String)
    ensures
        strings_view(v.push(s)) == strings_view(v).push(s@),
{
    assert(strings_view(v.push(s)) =~= strings_view(v).push(s@));
}

/// Pushing onto a list of rows pushes the row's view.
pub proof fn lemma_rows_view_push(v: Seq<Vec<String>>, row: Vec<String>)
    ensures
        rows_view(v.push(row)) == rows_view(v).push(strings_view(row@)),
{
    assert(rows_view(v.push(row)) =~= rows_view(v).push(strings_view(row@)));
}

/// `str::replace(pat, rep)` for a nonempty `pat`: every non-overlapping
/// occurrence, from the left, replaced.
pub open spec fn replaced(s: Seq<char>, pat: Seq<char>, rep: Seq<char>) -> Seq<char>
    decreases s.len(),
{
    if pat.len() == 0 {
        s
    } else {
        match first_occurrence(s, pat) {
            None => s,
            Some(i) => if 0 <= i && i + pat.len() <= s.len() {
                s.take(i) + rep + replaced(s.skip(i + pat.len()), pat, rep)
            } else {
                s
            },
        }
    }
}

/// `str::replace` for a nonempty pattern.
pub fn replace_all(s: &str, pat: &str, rep: &str) -> (r: String)
    requires
        pat@.len() > 0,
    ensures
        r@ == replaced(s@, pat@, rep@),
{
    let pc = crate::text::chars_of(pat);
    let mut rest = crate::text::chars_of(s);
    let mut out = String::new();
    loop
        invariant
            pc@ == pat@,
            pat@.len() > 0,
            out@ + replaced(rest@, pat@, rep@) == replaced(s@, pat@, rep@),
        decreases rest.len(),
    {
        match find_chars(&rest, &pc) {
            None => {
                crate::text::push_chars(&mut out, rest.as_slice());
                return out;
            },
            Some(i) => {
                let ghost old_rest = rest@;
                let ghost old_out = out@;
                let head = sub_chars(&rest, 0, i);
                crate::text::push_chars(&mut out, head.as_slice());
                crate::text::push_str(&mut out, rep);
                let tail = sub_chars(&rest, i + pc.len(), rest.len());
                assert(head@ == old_rest.take(i as int));
                assert(tail@ == old_rest.skip(i + pat@.len()));
                rest = tail;
                assert(old_out + replaced(old_rest, pat@, rep@) == out@ + replaced(rest@, pat@, rep@));
            },
        }
    }
}

/// `str::split_once(c)`: the text before and after the first `c`.
pub open spec fn split_once(s: Seq<char>, c: char) -> Option<(Seq<char>, Seq<char>)> {
    match first_occurrence(s, seq![c]) {
        Some(i) => Some((s.take(i), s.skip(i + 1))),
        None => None,
    }
}

/// `str::split_once(c)` on a string slice.
pub fn split_once_str(s: &str, c: char) -> (r: Option<(String, String)>)
    ensures
        match split_once(s@, c) {
            Some((a, b)) => r matches Some((x, y)) && x@ == a && y@ == b,
            None => r is None,
        },
{
    let cs = crate::text::chars_of(s);
    let mut pat: Vec<char> = Vec::new();
    pat.push(c);
    assert(pat@ =~= seq![c]);
    match find_chars(&cs, &pat) {
        Some(i) => {
            assert(occurs_at(cs@, pat@, i as int));
            assert(pat@.len() == 1);
            let n = cs.len();
            let a = sub_chars(&cs, 0, i);
            let b = sub_chars(&cs, i + 1, n);
            assert(a@ == cs@.take(i as int));
            assert(b@ == cs@.skip(i + 1));
            Some((crate::text::string_of(a.as_slice()), crate::text::string_of(b.as_slice())))
        },
        None => None,
    }
}

/// A text contains what stands in its middle.
pub proof fn lemma_contains_middle(pre: Seq<char>, mid: Seq<char>, post: Seq<char>)
    ensures
        contains(pre + mid + post, mid),
{
    let t = pre + mid + post;
    assert(t.subrange(pre.len() as int, (pre.len() + mid.len()) as int) =~= mid);
    assert(occurs_at(t, mid, pre.len() as int));
}

} // verus!
