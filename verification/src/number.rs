use vstd::prelude::*;
use crate::text::chars_of;

verus! {

// The texts that Rust's `str::parse::<f64>` accepts. Its documentation gives
// the grammar (compared after ASCII lowercasing):
//
//   Float  ::= Sign? ( 'inf' | 'infinity' | 'nan' | Number )
//   Number ::= ( Digit+ | Digit+ '.' Digit* | Digit* '.' Digit+ ) Exp?
//   Exp    ::= 'e' Sign? Digit+
//   Sign   ::= [+-]

/// An ASCII decimal digit.
pub open spec fn is_digit(c: char) -> bool {
    '0' <= c && c <= '9'
}

/// How many ASCII digits `s` starts with.
pub open spec fn digit_run(s: Seq<char>) -> nat
    decreases s.len(),
{
    if s.len() > 0 && is_digit(s[0]) {
        1 + digit_run(s.skip(1))
    } else {
        0
    }
}

/// `s` is an exponent: `e` or `E`, an optional sign, one or more digits.
pub open spec fn is_exponent(s: Seq<char>) -> bool {
    s.len() >= 1 && (s[0] == 'e' || s[0] == 'E') && {
        let u = if s.len() > 1 && (s[1] == '+' || s[1] == '-') { s.skip(2) } else { s.skip(1) };
        u.len() > 0 && digit_run(u) == u.len()
    }
}

/// `s` is a decimal number with optional fraction and exponent.
pub open spec fn is_number(s: Seq<char>) -> bool {
    let a = digit_run(s);
    let r = s.skip(a as int);
    if r.len() > 0 && r[0] == '.' {
        let r2 = r.skip(1);
        let b = digit_run(r2);
        let r3 = r2.skip(b as int);
        a + b > 0 && (r3.len() == 0 || is_exponent(r3))
    } else {
        a > 0 && (r.len() == 0 || is_exponent(r))
    }
}

/// `s` equals the lowercase ASCII word `w`, ignoring ASCII case.
pub open spec fn eq_ignore_case(s: Seq<char>, w: Seq<char>) -> bool {
    s.len() == w.len() && forall|i: int| 0 <= i < s.len() ==> #[trigger] ascii_lower(s[i]) == w[i]
}

/// ASCII lowercase of a character.
pub open spec fn ascii_lower(c: char) -> char {
    if 'A' <= c && c <= 'Z' {
        ((c as u32) + 32) as char
    } else {
        c
    }
}

/// `s` is text that Rust parses as an `f64`.
pub open spec fn is_float_text(s: Seq<char>) -> bool {
    let body = if s.len() > 0 && (s[0] == '+' || s[0] == '-') { s.skip(1) } else { s };
    eq_ignore_case(body, "inf"@) || eq_ignore_case(body, "infinity"@) || eq_ignore_case(body, "nan"@)
        || is_number(body)
}

fn lower_eq(c: char, w: char) -> (r: bool)
    ensures
        r == (ascii_lower(c) == w),
{
    if 'A' <= c && c <= 'Z' {
        (c as u32) + 32 == (w as u32)
    } else {
        c == w
    }
}

fn word_at(cs: &Vec<char>, pos: usize, w: &str) -> (r: bool)
    requires
        pos <= cs.len(),
    ensures
        r == eq_ignore_case(cs@.skip(pos as int), w@),
{
    let wc = chars_of(w);
    if cs.len() - pos != wc.len() {
        return false;
    }
    for i in 0..wc.len()
        invariant
            wc@ == w@,
            cs.len() - pos == wc.len(),
            pos <= cs.len(),
            forall|j: int| 0 <= j < i ==> ascii_lower(#[trigger] cs@.skip(pos as int)[j]) == wc@[j],
    {
        if !lower_eq(cs[pos + i], wc[i]) {
            assert(cs@.skip(pos as int)[i as int] == cs@[pos + i]);
            return false;
        }
        assert(cs@.skip(pos as int)[i as int] == cs@[pos + i]);
    }
    true
}

proof fn lemma_skip_skip(s: Seq<char>, a: int, b: int)
    requires
        0 <= a,
        0 <= b,
        a + b <= s.len(),
    ensures
        s.skip(a).skip(b) == s.skip(a + b),
{
    assert(s.skip(a).skip(b) =~= s.skip(a + b));
}

fn digit_run_exec(cs: &Vec<char>, pos: usize) -> (n: usize)
    requires
        pos <= cs.len(),
    ensures
        n == digit_run(cs@.skip(pos as int)),
        pos + n <= cs.len(),
{
    let mut i = pos;
    while i < cs.len() && '0' <= cs[i] && cs[i] <= '9'
        invariant
            pos <= i <= cs.len(),
            digit_run(cs@.skip(pos as int)) == (i - pos) + digit_run(cs@.skip(i as int)),
        decreases cs.len() - i,
    {
        proof {
            lemma_skip_skip(cs@, i as int, 1);
            assert(cs@.skip(i as int)[0] == cs@[i as int]);
        }
        i = i + 1;
    }
    proof {
        if i < cs.len() {
            assert(cs@.skip(i as int)[0] == cs@[i as int]);
        }
    }
    i - pos
}

fn exponent_at(cs: &Vec<char>, pos: usize) -> (r: bool)
    requires
        pos <= cs.len(),
    ensures
        r == is_exponent(cs@.skip(pos as int)),
{
    let ghost s = cs@.skip(pos as int);
    if pos >= cs.len() {
        return false;
    }
    assert(s[0] == cs@[pos as int]);
    if !(cs[pos] == 'e' || cs[pos] == 'E') {
        return false;
    }
    let start = if pos + 1 < cs.len() && (cs[pos + 1] == '+' || cs[pos + 1] == '-') {
        assert(s[1] == cs@[pos + 1]);
        proof { lemma_skip_skip(cs@, pos as int, 2); }
        pos + 2
    } else {
        proof {
            lemma_skip_skip(cs@, pos as int, 1);
            if pos + 1 < cs.len() {
                assert(s[1] == cs@[pos + 1]);
            }
        }
        pos + 1
    };
    let n = digit_run_exec(cs, start);
    cs.len() > start && n == cs.len() - start
}

fn number_at(cs: &Vec<char>, pos: usize) -> (r: bool)
    requires
        pos <= cs.len(),
    ensures
        r == is_number(cs@.skip(pos as int)),
{
    let ghost s = cs@.skip(pos as int);
    let a = digit_run_exec(cs, pos);
    let p = pos + a;
    proof { lemma_skip_skip(cs@, pos as int, a as int); }
    if p < cs.len() && cs[p] == '.' {
        assert(s.skip(a as int)[0] == cs@[p as int]);
        proof {
            lemma_skip_skip(cs@, p as int, 1);
            lemma_skip_skip(s, a as int, 1);
        }
        let b = digit_run_exec(cs, p + 1);
        let q = p + 1 + b;
        proof {
            lemma_skip_skip(cs@, (p + 1) as int, b as int);
            assert(s.skip(a as int).skip(1) == cs@.skip(p + 1));
        }
        a + b > 0 && (q == cs.len() || exponent_at(cs, q))
    } else {
        proof {
            if p < cs.len() {
                assert(s.skip(a as int)[0] == cs@[p as int]);
            }
        }
        a > 0 && (p == cs.len() || exponent_at(cs, p))
    }
}

/// Whether Rust parses `v` as an `f64` (see the grammar above).
pub fn str_is_float(v: &str) -> (r: bool)
    ensures
        r == is_float_text(v@),
{
    let cs = chars_of(v);
    let start: usize = if cs.len() > 0 && (cs[0] == '+' || cs[0] == '-') { 1 } else { 0 };
    proof {
        assert(cs@.skip(0) == cs@);
    }
    word_at(&cs, start, "inf") || word_at(&cs, start, "infinity") || word_at(&cs, start, "nan")
        || number_at(&cs, start)
}

} // verus!

verus! {

/// Every character of `s` is an ASCII digit.
pub open spec fn all_digits(s: Seq<char>) -> bool {
    forall|i: int| 0 <= i < s.len() ==> is_digit(#[trigger] s[i])
}

/// No sign, `+` or `-`.
pub open spec fn is_sign(s: Seq<char>) -> bool {
    s == Seq::<char>::empty() || s == seq!['+'] || s == seq!['-']
}

proof fn lemma_digit_run_concat(a: Seq<char>, rest: Seq<char>)
    requires
        all_digits(a),
    ensures
        digit_run(a + rest) == a.len() + digit_run(rest),
    decreases a.len(),
{
    if a.len() > 0 {
        assert((a + rest)[0] == a[0]);
        assert((a + rest).skip(1) =~= a.skip(1) + rest);
        assert forall|i: int| 0 <= i < a.skip(1).len() implies is_digit(#[trigger] a.skip(1)[i]) by {
            assert(a.skip(1)[i] == a[i + 1]);
        }
        lemma_digit_run_concat(a.skip(1), rest);
    } else {
        assert(a + rest =~= rest);
    }
}

proof fn lemma_exponent(e: char, sign: Seq<char>, d: Seq<char>)
    requires
        e == 'e' || e == 'E',
        is_sign(sign),
        all_digits(d),
        d.len() > 0,
    ensures
        is_exponent(seq![e] + sign + d),
{
    let x = seq![e] + sign + d;
    lemma_digit_run_concat(d, Seq::<char>::empty());
    assert(d + Seq::<char>::empty() =~= d);
    if sign.len() == 0 {
        assert(x.skip(1) =~= d);
        assert(is_digit(d[0]));
    } else {
        assert(x[1] == sign[0]);
        assert(x.skip(2) =~= d);
    }
}

proof fn lemma_signed(sign: Seq<char>, body: Seq<char>)
    requires
        is_sign(sign),
        is_number(body),
        body.len() > 0,
        body[0] != '+' && body[0] != '-',
    ensures
        is_float_text(sign + body),
{
    let s = sign + body;
    if sign.len() == 0 {
        assert(s =~= body);
    } else {
        assert(s[0] == sign[0]);
        assert(s.skip(1) =~= body);
    }
}

proof fn lemma_point_number(a: Seq<char>, b: Seq<char>, exp: Seq<char>)
    requires
        all_digits(a),
        all_digits(b),
        a.len() + b.len() > 0,
        exp.len() == 0 || (is_exponent(exp) && !is_digit(exp[0])),
    ensures
        is_number(a + seq!['.'] + b + exp),
{
    let tail = seq!['.'] + b + exp;
    let body = a + seq!['.'] + b + exp;
    assert(body =~= a + tail);
    lemma_digit_run_concat(a, tail);
    assert(tail[0] == '.');
    assert(digit_run(tail) == 0);
    assert(body.skip(a.len() as int) =~= tail);
    assert(tail.skip(1) =~= b + exp);
    lemma_digit_run_concat(b, exp);
    if exp.len() > 0 {
        assert(digit_run(exp) == 0);
    } else {
        assert(digit_run(exp) == 0);
    }
    assert((b + exp).skip(b.len() as int) =~= exp);
}

proof fn lemma_integer_number(a: Seq<char>, exp: Seq<char>)
    requires
        all_digits(a),
        a.len() > 0,
        exp.len() == 0 || (is_exponent(exp) && !is_digit(exp[0])),
    ensures
        is_number(a + exp),
{
    let body = a + exp;
    lemma_digit_run_concat(a, exp);
    assert(digit_run(exp) == 0);
    assert(body.skip(a.len() as int) =~= exp);
    if exp.len() > 0 {
        assert(body.skip(a.len() as int)[0] == exp[0]);
    }
}

/// Rust's `f64` grammar on decimals: an optional sign, digits, a point,
/// digits (not both runs empty) and an optional exponent (`e` or `E`, an
/// optional sign, digits) is float text; so are digits with no point.
pub proof fn law_decimals_are_float_text(sign: Seq<char>, a: Seq<char>, b: Seq<char>, exp: Seq<char>,
    e: char, exp_sign: Seq<char>, exp_digits: Seq<char>)
    requires
        is_sign(sign),
        all_digits(a),
        all_digits(b),
        exp == Seq::<char>::empty() || ((e == 'e' || e == 'E') && is_sign(exp_sign) && all_digits(exp_digits)
            && exp_digits.len() > 0 && exp == seq![e] + exp_sign + exp_digits),
    ensures
        a.len() + b.len() > 0 ==> is_float_text(sign + a + seq!['.'] + b + exp),
        a.len() > 0 ==> is_float_text(sign + a + exp),
{
    if exp.len() > 0 {
        lemma_exponent(e, exp_sign, exp_digits);
        assert(exp[0] == e);
    }
    if a.len() + b.len() > 0 {
        lemma_point_number(a, b, exp);
        let body = a + seq!['.'] + b + exp;
        if a.len() > 0 {
            assert(body[0] == a[0]);
            assert(is_digit(a[0]));
        } else {
            assert(body[0] == '.');
        }
        lemma_signed(sign, body);
        assert(sign + a + seq!['.'] + b + exp =~= sign + body);
    }
    if a.len() > 0 {
        lemma_integer_number(a, exp);
        let body = a + exp;
        assert(body[0] == a[0]);
        assert(is_digit(a[0]));
        lemma_signed(sign, body);
        assert(sign + a + exp =~= sign + body);
    }
}

} // verus!
