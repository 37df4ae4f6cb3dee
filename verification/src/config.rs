use vstd::prelude::*;
use crate::chars::strings_view;
use crate::error::VirtuosoError;
use crate::guard::{lowercase, to_lowercase};
use crate::text::{chars_of, push_char, push_str, str_eq, string_from};

verus! {

// ───────────────────────── unsigned decimal parsing ─────────────────────────

/// Whether `c` is an ASCII decimal digit.
pub open spec fn is_dec_digit(c: char) -> bool {
    '0' <= c && c <= '9'
}

/// The value of an ASCII digit.
pub open spec fn digit_value(c: char) -> nat {
    (c as int - '0' as int) as nat
}

/// The value of a run of decimal digits (most significant first).
pub open spec fn dec_value(s: Seq<char>) -> nat
    decreases s.len(),
{
    if s.len() == 0 {
        0
    } else {
        dec_value(s.drop_last()) * 10 + digit_value(s.last())
    }
}

/// What `str::parse` gives for an unsigned integer type, before the range
/// check: an optional `+`, then one or more ASCII digits.
pub open spec fn unsigned_value(s: Seq<char>) -> Option<nat> {
    let digits = unsigned_digits(s);
    if digits.len() > 0 && all_digits(digits) {
        Some(dec_value(digits))
    } else {
        None
    }
}

/// The text after an optional leading `+`.
pub open spec fn unsigned_digits(s: Seq<char>) -> Seq<char> {
    if s.len() > 0 && s[0] == '+' { s.skip(1) } else { s }
}

/// Whether every character is an ASCII digit.
pub open spec fn all_digits(s: Seq<char>) -> bool {
    forall|i: int| 0 <= i < s.len() ==> is_dec_digit(#[trigger] s[i])
}

/// `str::parse::<T>()` for an unsigned `T` whose largest value is `limit`.
pub open spec fn parse_unsigned_spec(s: Seq<char>, limit: nat) -> Option<nat> {
    match unsigned_value(s) {
        Some(v) => if v <= limit { Some(v) } else { None },
        None => None,
    }
}

proof fn lemma_dec_value_grows(s: Seq<char>, i: int, j: int)
    requires
        0 <= i <= j <= s.len(),
        forall|k: int| 0 <= k < s.len() ==> is_dec_digit(#[trigger] s[k]),
    ensures
        dec_value(s.take(i)) <= dec_value(s.take(j)),
    decreases j - i,
{
    if i < j {
        lemma_dec_value_grows(s, i, j - 1);
        assert(s.take(j).drop_last() == s.take(j - 1));
    }
}

/// The value of the digits `cs[start..]` when they are one or more ASCII
/// digits and their value is at most `limit`.
fn digits_value(cs: &Vec<char>, start: usize, limit: u64) -> (r: Option<u64>)
    requires
        start <= cs.len(),
    ensures
        ({
            let digits = cs@.skip(start as int);
            if digits.len() > 0 && all_digits(digits) && dec_value(digits) <= limit {
                r == Some(dec_value(digits) as u64)
            } else {
                r is None
            }
        }),
{
    let n = cs.len();
    let ghost digits = cs@.skip(start as int);
    if start >= n {
        return None;
    }
    let mut acc: u64 = 0;
    let mut i = start;
    while i < n
        invariant
            start <= i <= n == cs.len(),
            digits == cs@.skip(start as int),
            forall|k: int| 0 <= k < i - start ==> is_dec_digit(#[trigger] digits[k]),
            acc == dec_value(digits.take(i - start)),
            acc <= limit,
        decreases n - i,
    {
        let c = cs[i];
        assert(digits[i - start] == c);
        if !('0' <= c && c <= '9') {
            assert(!is_dec_digit(digits[i - start]));
            return None;
        }
        let d = (c as u32 - '0' as u32) as u64;
        assert(d == digit_value(c));
        assert(digits.take(i - start + 1).drop_last() == digits.take(i - start));
        assert(digits.take(i - start + 1).last() == c);
        if d > limit || acc > (limit - d) / 10 {
            proof {
                if d <= limit {
                    assert(acc * 10 + d > limit) by (nonlinear_arith)
                        requires acc > (limit - d) / 10, d <= limit;
                }
                let k = i - start + 1;
                assert(dec_value(digits.take(k)) == acc * 10 + d);
                if all_digits(digits) {
                    lemma_dec_value_grows(digits, k, digits.len() as int);
                    assert(digits.take(digits.len() as int) == digits);
                }
            }
            return None;
        }
        assert(acc * 10 + d <= limit) by (nonlinear_arith)
            requires acc <= (limit - d) / 10, d <= limit;
        acc = acc * 10 + d;
        i = i + 1;
    }
    assert(digits.take(n - start) == digits);
    Some(acc)
}

/// Parses an unsigned decimal as `str::parse` does for an unsigned type
/// whose largest value is `limit`.
pub fn parse_unsigned(s: &str, limit: u64) -> (r: Option<u64>)
    ensures
        match parse_unsigned_spec(s@, limit as nat) {
            Some(v) => r == Some(v as u64),
            None => r is None,
        },
{
    let cs = chars_of(s);
    let start: usize = if cs.len() > 0 && cs[0] == '+' { 1 } else { 0 };
    assert(unsigned_digits(s@) == cs@.skip(start as int));
    digits_value(&cs, start, limit)
}

/// What `str::parse::<i64>()` gives: an optional sign, then one or more
/// ASCII digits, in range.
pub open spec fn parse_i64_spec(s: Seq<char>) -> Option<int> {
    let neg = s.len() > 0 && s[0] == '-';
    let digits = if s.len() > 0 && (s[0] == '+' || s[0] == '-') { s.skip(1) } else { s };
    if digits.len() > 0 && all_digits(digits) {
        let v: int = if neg { -(dec_value(digits) as int) } else { dec_value(digits) as int };
        if i64::MIN <= v <= i64::MAX { Some(v) } else { None }
    } else {
        None
    }
}

/// Parses a signed decimal as `str::parse::<i64>()` does.
pub fn parse_i64(s: &str) -> (r: Option<i64>)
    ensures
        match parse_i64_spec(s@) {
            Some(v) => r == Some(v as i64),
            None => r is None,
        },
{
    let cs = chars_of(s);
    let neg = cs.len() > 0 && cs[0] == '-';
    let start: usize = if cs.len() > 0 && (cs[0] == '+' || cs[0] == '-') { 1 } else { 0 };
    let limit: u64 = if neg { 9223372036854775808 } else { 9223372036854775807 };
    assert(cs@.skip(start as int) == (if s@.len() > 0 && (s@[0] == '+' || s@[0] == '-') { s@.skip(1) } else { s@ }));
    match digits_value(&cs, start, limit) {
        Some(m) => {
            if neg {
                if m == 9223372036854775808 {
                    Some(i64::MIN)
                } else {
                    Some(-(m as i64))
                }
            } else {
                Some(m as i64)
            }
        },
        None => {
            proof {
                let digits = cs@.skip(start as int);
                if digits.len() > 0 && all_digits(digits) {
                    assert(dec_value(digits) > limit);
                }
            }
            None
        },
    }
}

// ───────────────────────── shell words ─────────────────────────

/// What `shlex::split` returns for a text: its POSIX-shell words, or
/// `None` for malformed input (an unclosed quote, a trailing backslash).
pub uninterp spec fn shell_words(s: Seq<char>) -> Option<Seq<Seq<char>>>;

/// The words of an optional word list.
pub open spec fn opt_words(o: Option<Vec<String>>) -> Option<Seq<Seq<char>>> {
    match o {
        Some(v) => Some(strings_view(v@)),
        None => None,
    }
}

/// `shlex::split`: the claim is only that the result is `shell_words` of
/// the input.
#[verifier::external_body]
fn shlex_split(s: &str) -> (r: Option<Vec<String>>)
    ensures
        opt_words(r) == shell_words(s@),
{
    shlex::split(s)
}

// ───────────────────────── configuration ─────────────────────────

/// The `VB_*` settings as read from the environment (after `.env` is
/// loaded); `None` where a variable is unset.
pub struct ConfigVars {
    pub remote_host: Option<String>,
    pub remote_user: Option<String>,
    pub port: Option<String>,
    pub jump_host: Option<String>,
    pub jump_user: Option<String>,
    pub timeout: Option<String>,
    pub keep_remote_files: Option<String>,
    pub spectre_cmd: Option<String>,
    pub spectre_args: Option<String>,
}

/// The connection settings of the CLI.
#[derive(Debug, Clone)]
pub struct Config {
    pub remote_host: String,
    pub remote_user: Option<String>,
    pub port: u16,
    pub jump_host: Option<String>,
    pub jump_user: Option<String>,
    pub timeout: u64,
    pub keep_remote_files: bool,
    pub spectre_cmd: String,
    pub spectre_args: Vec<String>,
}

/// The port used when `VB_PORT` is unset or not a port number.
pub const DEFAULT_PORT: u16 = 65432;

/// The timeout used when `VB_TIMEOUT` is unset or not a number.
pub const DEFAULT_TIMEOUT: u64 = 30;

/// A numeric setting: its parsed value, or `default`.
pub open spec fn numeric_setting(v: Option<String>, limit: nat, default: nat) -> nat {
    match v {
        Some(s) => match parse_unsigned_spec(s@, limit) {
            Some(n) => n,
            None => default,
        },
        None => default,
    }
}

/// `VB_KEEP_REMOTE_FILES` is on when it is `1` or, ignoring case, `true`.
pub open spec fn keep_setting(v: Option<String>) -> bool {
    match v {
        Some(s) => s@ == "1"@ || lowercase(s@) == "true"@,
        None => false,
    }
}

/// `VB_SPECTRE_ARGS` split into shell words; empty when unset or malformed.
pub open spec fn args_setting(v: Option<String>) -> Seq<Seq<char>> {
    match v {
        Some(s) => match shell_words(s@) {
            Some(w) => w,
            None => Seq::empty(),
        },
        None => Seq::empty(),
    }
}

/// The view of an optional string.
pub open spec fn opt_view(o: Option<String>) -> Option<Seq<char>> {
    match o {
        Some(s) => Some(s@),
        None => None,
    }
}

/// The configuration a set of settings gives.
pub open spec fn config_from(vars: ConfigVars, c: Config) -> bool {
    &&& c.remote_host@ == vars.remote_host->Some_0@
    &&& opt_view(c.remote_user) == opt_view(vars.remote_user)
    &&& c.port == numeric_setting(vars.port, u16::MAX as nat, DEFAULT_PORT as nat)
    &&& opt_view(c.jump_host) == opt_view(vars.jump_host)
    &&& opt_view(c.jump_user) == opt_view(vars.jump_user)
    &&& c.timeout == numeric_setting(vars.timeout, u64::MAX as nat, DEFAULT_TIMEOUT as nat)
    &&& c.keep_remote_files == keep_setting(vars.keep_remote_files)
    &&& c.spectre_cmd@ == (match vars.spectre_cmd { Some(s) => s@, None => "spectre"@ })
    &&& strings_view(c.spectre_args@) == args_setting(vars.spectre_args)
}

fn numeric_or(v: &Option<String>, limit: u64, default: u64) -> (r: u64)
    requires
        default <= limit,
    ensures
        r == numeric_setting(*v, limit as nat, default as nat),
        r <= limit,
{
    match v {
        Some(s) => match parse_unsigned(s.as_str(), limit) {
            Some(n) => n,
            None => default,
        },
        None => default,
    }
}

impl Config {
    /// The configuration from the `VB_*` settings. `VB_REMOTE_HOST` is
    /// required; every other setting has a default.
    pub fn from_vars(vars: ConfigVars) -> (r: Result<Config, VirtuosoError>)
        ensures
            vars.remote_host is None ==> (r matches Err(VirtuosoError::Config(m)) && m@ == "VB_REMOTE_HOST not set"@),
            vars.remote_host is Some ==> (r matches Ok(c) && config_from(vars, c)),
    {
        let ghost v = vars;
        let port = numeric_or(&vars.port, 65535, 65432) as u16;
        let timeout = numeric_or(&vars.timeout, u64::MAX, 30);
        let keep_remote_files = match &vars.keep_remote_files {
            Some(s) => {
                if str_eq(s.as_str(), "1") {
                    true
                } else {
                    let lower = to_lowercase(s.as_str());
                    str_eq(lower.as_str(), "true")
                }
            },
            None => false,
        };
        assert(keep_remote_files == keep_setting(vars.keep_remote_files));
        let empty: Vec<String> = Vec::new();
        assert(strings_view(empty@) =~= Seq::<Seq<char>>::empty());
        let spectre_args = match &vars.spectre_args {
            Some(s) => match shlex_split(s.as_str()) {
                Some(w) => w,
                None => empty,
            },
            None => empty,
        };
        assert(strings_view(spectre_args@) == args_setting(vars.spectre_args));
        let ConfigVars { remote_host, remote_user, port: _, jump_host, jump_user, timeout: _,
            keep_remote_files: _, spectre_cmd, spectre_args: _ } = vars;
        let remote_host = match remote_host {
            Some(h) => h,
            None => {
                return Err(VirtuosoError::Config(string_from("VB_REMOTE_HOST not set")));
            },
        };
        let spectre_cmd = match spectre_cmd {
            Some(c) => c,
            None => string_from("spectre"),
        };
        Ok(Config {
            remote_host,
            remote_user,
            port,
            jump_host,
            jump_user,
            timeout,
            keep_remote_files,
            spectre_cmd,
            spectre_args,
        })
    }

    /// Whether Virtuoso runs on a remote host.
    pub fn is_remote(&self) -> (b: bool)
        ensures
            b == (self.remote_host@.len() > 0),
    {
        !self.remote_host.as_str().is_empty()
    }

    /// The SSH destination: `user@host`, or the host alone.
    pub fn ssh_target(&self) -> (r: String)
        ensures
            r@ == (match self.remote_user {
                Some(u) => u@ + seq!['@'] + self.remote_host@,
                None => self.remote_host@,
            }),
    {
        match &self.remote_user {
            Some(user) => {
                let mut r = string_from(user.as_str());
                push_char(&mut r, '@');
                push_str(&mut r, self.remote_host.as_str());
                r
            },
            None => string_from(self.remote_host.as_str()),
        }
    }

    /// The SSH jump host: `user@host`, the host alone, or none.
    pub fn ssh_jump(&self) -> (r: Option<String>)
        ensures
            opt_view(r) == (match (self.jump_host, self.jump_user) {
                (Some(h), Some(u)) => Some(u@ + seq!['@'] + h@),
                (Some(h), None) => Some(h@),
                _ => None,
            }),
    {
        match (&self.jump_host, &self.jump_user) {
            (Some(host), Some(user)) => {
                let mut r = string_from(user.as_str());
                push_char(&mut r, '@');
                push_str(&mut r, host.as_str());
                Some(r)
            },
            (Some(host), None) => Some(string_from(host.as_str())),
            _ => None,
        }
    }
}

} // verus!
