use vstd::prelude::*;

verus! {

// ───────────────────────── basic string plumbing ─────────────────────────

/// The characters of a string slice, in order.
pub fn chars_of(s: &str) -> (v: Vec<char>)
    ensures
        v@ == s@,
{
    let mut v: Vec<char> = Vec::new();
    for c in it: s.chars()
        invariant
            v@ == it.seq().take(it.index() as int),
            it.seq() == s@,
    {
        v.push(c);
    }
    v
}

/// Appends one character to a `String` (std `String::push`).
#[verifier::external_body]
pub(crate) fn push_char(s: &mut String, c: char)
    ensures
        final(s)@ == old(s)@.push(c),
{
    s.push(c);
}

/// Appends a sequence of characters to a `String`.
pub fn push_chars(s: &mut String, cs: &[char])
    ensures
        final(s)@ == old(s)@ + cs@,
{
    let ghost start = s@;
    for i in 0..cs.len()
        invariant
            s@ == start + cs@.take(i as int),
    {
        push_char(s, cs[i]);
        assert(cs@.take(i + 1) == cs@.take(i as int).push(cs@[i as int]));
    }
    assert(cs@.take(cs.len() as int) == cs@);
}

/// A `String` holding exactly the given characters.
pub fn string_of(cs: &[char]) -> (s: String)
    ensures
        s@ == cs@,
{
    let mut s = String::new();
    push_chars(&mut s, cs);
    s
}

// ───────────────────────── decimal integers ─────────────────────────

/// The ASCII digit for `d` (0..=9).
pub open spec fn digit_char(d: int) -> char {
    if d == 0 { '0' }
    else if d == 1 { '1' }
    else if d == 2 { '2' }
    else if d == 3 { '3' }
    else if d == 4 { '4' }
    else if d == 5 { '5' }
    else if d == 6 { '6' }
    else if d == 7 { '7' }
    else if d == 8 { '8' }
    else { '9' }
}

/// Decimal text of a natural number, without leading zeros.
pub open spec fn nat_text(n: nat) -> Seq<char>
    decreases n,
{
    if n < 10 {
        seq![digit_char(n as int)]
    } else {
        nat_text((n / 10) as nat).push(digit_char((n % 10) as int))
    }
}

/// Decimal text of an integer, as Rust's `Display` writes it.
pub open spec fn int_text(n: int) -> Seq<char> {
    if n < 0 {
        seq!['-'] + nat_text((-n) as nat)
    } else {
        nat_text(n as nat)
    }
}

fn digit_exec(d: u64) -> (c: char)
    requires
        d < 10,
    ensures
        c == digit_char(d as int),
{
    if d == 0 { '0' }
    else if d == 1 { '1' }
    else if d == 2 { '2' }
    else if d == 3 { '3' }
    else if d == 4 { '4' }
    else if d == 5 { '5' }
    else if d == 6 { '6' }
    else if d == 7 { '7' }
    else if d == 8 { '8' }
    else { '9' }
}

/// Appends the decimal text of `n`.
pub fn push_nat(s: &mut String, n: u64)
    ensures
        final(s)@ == old(s)@ + nat_text(n as nat),
    decreases n,
{
    if n < 10 {
        push_char(s, digit_exec(n));
    } else {
        push_nat(s, n / 10);
        push_char(s, digit_exec(n % 10));
    }
}

/// Appends the decimal text of `n`.
pub fn push_int(s: &mut String, n: i64)
    ensures
        final(s)@ == old(s)@ + int_text(n as int),
{
    if n < 0 {
        push_char(s, '-');
        let mag: u64 = ((-(n + 1)) as u64) + 1;
        push_nat(s, mag);
    } else {
        push_nat(s, n as u64);
    }
}

/// Appends the decimal text of `n`.
pub fn push_usize(s: &mut String, n: usize)
    ensures
        final(s)@ == old(s)@ + nat_text(n as nat),
{
    push_nat(s, n as u64);
}

// ───────────────────────── SKILL string escaping ─────────────────────────

/// How one character is written inside a SKILL string literal.
pub open spec fn escape_char(c: char) -> Seq<char> {
    if c == '\\' {
        seq!['\\', '\\']
    } else if c == '"' {
        seq!['\\', '"']
    } else if c == '\n' {
        seq!['\\', 'n']
    } else {
        seq![c]
    }
}

/// The body of a SKILL string literal that denotes `s`: backslash, double
/// quote and newline are written `\\`, `\"` and `\n`; every other character
/// stands for itself.
pub open spec fn escape(s: Seq<char>) -> Seq<char>
    decreases s.len(),
{
    if s.len() == 0 {
        seq![]
    } else {
        escape_char(s[0]) + escape(s.skip(1))
    }
}

/// Escaping distributes over concatenation.
pub proof fn lemma_escape_concat(a: Seq<char>, b: Seq<char>)
    ensures
        escape(a + b) == escape(a) + escape(b),
    decreases a.len(),
{
    if a.len() == 0 {
        assert(a + b == b);
    } else {
        lemma_escape_concat(a.skip(1), b);
        assert((a + b).skip(1) == a.skip(1) + b);
        assert((a + b)[0] == a[0]);
    }
}

proof fn lemma_escape_single(c: char)
    ensures
        escape(seq![c]) == escape_char(c),
{
    assert(seq![c].skip(1) == Seq::<char>::empty());
    assert(escape(Seq::<char>::empty()) == Seq::<char>::empty());
    assert(escape_char(c) + Seq::<char>::empty() == escape_char(c));
}

/// The value of the escape sequence `\c` in a SKILL string literal, for the
/// three escapes that `escape` writes.
pub open spec fn unescape_char(c: char) -> Option<char> {
    if c == 'n' {
        Some('\n')
    } else if c == '\\' || c == '"' {
        Some(c)
    } else {
        None
    }
}

/// Reads `t` as the text that follows the opening quote of a SKILL string
/// literal: the characters the literal denotes, and how many characters of
/// `t` the literal occupies up to and including its closing quote.
/// `None` when no closing quote comes, or an unknown escape does.
pub open spec fn read_literal_body(t: Seq<char>) -> Option<(Seq<char>, nat)>
    decreases t.len(),
{
    if t.len() == 0 {
        None
    } else if t[0] == '"' {
        Some((Seq::<char>::empty(), 1nat))
    } else if t[0] == '\\' {
        if t.len() < 2 {
            None
        } else {
            match unescape_char(t[1]) {
                Some(c) => match read_literal_body(t.skip(2)) {
                    Some((v, n)) => Some((seq![c] + v, n + 2)),
                    None => None,
                },
                None => None,
            }
        }
    } else {
        match read_literal_body(t.skip(1)) {
            Some((v, n)) => Some((seq![t[0]] + v, n + 1)),
            None => None,
        }
    }
}

/// Quoting law: an escaped text followed by a closing quote is read back as
/// exactly the text that was escaped, and the literal ends at that closing quote, so
/// nothing of the text escapes into the surrounding SKILL code.
pub proof fn lemma_escape_reads_back(s: Seq<char>, rest: Seq<char>)
    ensures
        read_literal_body(escape(s) + seq!['"'] + rest) == Some((s, (escape(s).len() + 1) as nat)),
    decreases s.len(),
{
    let t = escape(s) + seq!['"'] + rest;
    if s.len() == 0 {
        assert(escape(s) == Seq::<char>::empty());
        assert(t[0] == '"');
    } else {
        lemma_escape_reads_back(s.skip(1), rest);
        let e = escape_char(s[0]);
        let tail = escape(s.skip(1)) + seq!['"'] + rest;
        assert(t == e + tail);
        if s[0] == '\\' || s[0] == '"' || s[0] == '\n' {
            assert(t.skip(2) == tail);
            assert(t[0] == '\\');
            assert(seq![s[0]] + s.skip(1) == s);
        } else {
            assert(t.skip(1) == tail);
            assert(t[0] == s[0]);
            assert(seq![s[0]] + s.skip(1) == s);
        }
    }
}

/// `escape_skill_string`: the text that denotes `s` inside a SKILL string
/// literal (see `escape`).
pub fn escape_skill_string(s: &str) -> (r: String)
    ensures
        r@ == escape(s@),
{
    let cs = chars_of(s);
    let mut r = String::new();
    let ghost src = s@;
    for i in 0..cs.len()
        invariant
            cs@ == src,
            r@ == escape(src.take(i as int)),
    {
        let c = cs[i];
        proof {
            lemma_escape_concat(src.take(i as int), seq![c]);
            lemma_escape_single(c);
            assert(src.take(i + 1) == src.take(i as int) + seq![c]);
        }
        if c == '\\' {
            push_char(&mut r, '\\');
            push_char(&mut r, '\\');
        } else if c == '"' {
            push_char(&mut r, '\\');
            push_char(&mut r, '"');
        } else if c == '\n' {
            push_char(&mut r, '\\');
            push_char(&mut r, 'n');
        } else {
            push_char(&mut r, c);
        }
    }
    assert(src.take(cs.len() as int) == src);
    r
}

} // verus!

verus! {

/// `"` + escape(s) + `"`: the SKILL string literal that denotes `s`.
pub open spec fn quoted(s: Seq<char>) -> Seq<char> {
    seq!['"'] + escape(s) + seq!['"']
}

/// Appends a string slice.
pub fn push_str(r: &mut String, s: &str)
    ensures
        final(r)@ == old(r)@ + s@,
{
    r.append(s);
}

/// Appends the SKILL string literal that denotes `s`.
pub fn push_quoted(r: &mut String, s: &str)
    ensures
        final(r)@ == old(r)@ + quoted(s@),
{
    let e = escape_skill_string(s);
    push_char(r, '"');
    r.append(e.as_str());
    push_char(r, '"');
}

/// A `String` holding the given string slice.
pub fn string_from(s: &str) -> (r: String)
    ensures
        r@ == s@,
{
    String::from_str(s)
}

} // verus!

verus! {

/// Appends the escaped form of `s` (without surrounding quotes).
pub fn push_escaped(r: &mut String, s: &str)
    ensures
        final(r)@ == old(r)@ + escape(s@),
{
    let e = escape_skill_string(s);
    r.append(e.as_str());
}

/// `x y`: a point as two decimal coordinates.
pub open spec fn point_text(p: (i64, i64)) -> Seq<char> {
    int_text(p.0 as int) + seq![' '] + int_text(p.1 as int)
}

/// `list(x y)`: a point as a SKILL list.
pub open spec fn point_list_text(p: (i64, i64)) -> Seq<char> {
    "list("@ + point_text(p) + ")"@
}

/// The texts `f(p)` of the points, separated by single spaces.
pub open spec fn join_points(ps: Seq<(i64, i64)>, f: spec_fn((i64, i64)) -> Seq<char>) -> Seq<char>
    decreases ps.len(),
{
    if ps.len() == 0 {
        Seq::<char>::empty()
    } else if ps.len() == 1 {
        f(ps[0])
    } else {
        join_points(ps.drop_last(), f) + seq![' '] + f(ps.last())
    }
}

fn push_point(r: &mut String, p: (i64, i64), as_list: bool)
    ensures
        final(r)@ == old(r)@ + (if as_list { point_list_text(p) } else { point_text(p) }),
{
    if as_list {
        push_str(r, "list(");
    }
    push_int(r, p.0);
    push_char(r, ' ');
    push_int(r, p.1);
    if as_list {
        push_str(r, ")");
    }
}

/// Appends the points, each as `x y` (or `list(x y)`), separated by spaces.
pub fn push_points(r: &mut String, ps: &[(i64, i64)], as_list: bool)
    ensures
        final(r)@ == old(r)@ + join_points(
            ps@,
            if as_list { |p: (i64, i64)| point_list_text(p) } else { |p: (i64, i64)| point_text(p) },
        ),
{
    let ghost f = if as_list { |p: (i64, i64)| point_list_text(p) } else { |p: (i64, i64)| point_text(p) };
    let ghost start = r@;
    for i in 0..ps.len()
        invariant
            r@ == start + join_points(ps@.take(i as int), f),
            f == (if as_list { |p: (i64, i64)| point_list_text(p) } else { |p: (i64, i64)| point_text(p) }),
    {
        if i > 0 {
            push_char(r, ' ');
        }
        push_point(r, ps[i], as_list);
        assert(ps@.take(i + 1).drop_last() == ps@.take(i as int));
        assert(ps@.take(i + 1).last() == ps@[i as int]);
        if i == 0 {
            assert(ps@.take(1) == seq![ps@[0]]);
        }
    }
    assert(ps@.take(ps.len() as int) == ps@);
}

} // verus!

verus! {

/// Whether two string slices hold the same characters.
pub fn str_eq(a: &str, b: &str) -> (r: bool)
    ensures
        r == (a@ == b@),
{
    let ac = chars_of(a);
    let bc = chars_of(b);
    if ac.len() != bc.len() {
        return false;
    }
    for i in 0..ac.len()
        invariant
            ac@ == a@,
            bc@ == b@,
            ac.len() == bc.len(),
            forall|j: int| 0 <= j < i ==> ac@[j] == bc@[j],
    {
        if ac[i] != bc[i] {
            return false;
        }
    }
    assert(ac@ =~= bc@);
    true
}

/// Appends each text, indented, one per line (joined by newlines).
pub fn push_indented_lines(r: &mut String, items: &[String], indent: &str)
    ensures
        final(r)@ == old(r)@ + indented_lines(items@, indent@),
{
    let ghost start = r@;
    for i in 0..items.len()
        invariant
            r@ == start + indented_lines(items@.take(i as int), indent@),
    {
        if i > 0 {
            push_char(r, '\n');
        }
        push_str(r, indent);
        push_str(r, items[i].as_str());
        assert(items@.take(i + 1).drop_last() == items@.take(i as int));
        assert(items@.take(i + 1).last() == items@[i as int]);
        if i == 0 {
            assert(items@.take(1) == seq![items@[0]]);
        }
    }
    assert(items@.take(items.len() as int) == items@);
}

/// The texts, each preceded by `indent`, joined by newlines.
pub open spec fn indented_lines(items: Seq<String>, indent: Seq<char>) -> Seq<char>
    decreases items.len(),
{
    if items.len() == 0 {
        Seq::<char>::empty()
    } else if items.len() == 1 {
        indent + items[0]@
    } else {
        indented_lines(items.drop_last(), indent) + seq!['\n'] + indent + items.last()@
    }
}

} // verus!

verus! {

/// Whether two character vectors are equal.
pub fn chars_eq(a: &Vec<char>, b: &Vec<char>) -> (r: bool)
    ensures
        r == (a@ == b@),
{
    if a.len() != b.len() {
        return false;
    }
    for i in 0..a.len()
        invariant
            a.len() == b.len(),
            forall|j: int| 0 <= j < i ==> a@[j] == b@[j],
    {
        if a[i] != b[i] {
            return false;
        }
    }
    assert(a@ =~= b@);
    true
}

} // verus!

verus! {

/// The texts joined by `sep` (`[&str]::join`).
pub open spec fn joined(parts: Seq<Seq<char>>, sep: Seq<char>) -> Seq<char>
    decreases parts.len(),
{
    if parts.len() == 0 {
        Seq::<char>::empty()
    } else if parts.len() == 1 {
        parts[0]
    } else {
        joined(parts.drop_last(), sep) + sep + parts.last()
    }
}

/// `items.join(sep)`.
pub fn join_strings(items: &[String], sep: &str) -> (r: String)
    ensures
        r@ == joined(items@.map_values(|s: String| s@), sep@),
{
    let ghost views = items@.map_values(|s: String| s@);
    let mut r = String::new();
    for i in 0..items.len()
        invariant
            views == items@.map_values(|s: String| s@),
            r@ == joined(views.take(i as int), sep@),
    {
        if i > 0 {
            push_str(&mut r, sep);
        }
        push_str(&mut r, items[i].as_str());
        assert(views.take(i + 1).drop_last() == views.take(i as int));
        assert(views.take(i + 1).last() == items@[i as int]@);
        if i == 0 {
            assert(views.take(1) == seq![items@[0]@]);
        }
    }
    assert(views.take(items.len() as int) == views);
    r
}

} // verus!
