use vstd::prelude::*;
use crate::chars::{contains, str_contains};
use crate::error::VirtuosoError;
use crate::text::{push_str, string_from};

verus! {

/// What `str::to_lowercase` returns for a text (full Unicode lowercasing).
pub uninterp spec fn lowercase(s: Seq<char>) -> Seq<char>;

/// std `str::to_lowercase`: the claim is only that the result is
/// `lowercase` of the input, a function of the text alone.
#[verifier::external_body]
pub(crate) fn to_lowercase(s: &str) -> (r: String)
    ensures
        r@ == lowercase(s@),
{
    s.to_lowercase()
}

// ───────────────────────── measurement expressions ─────────────────────────

/// How many function-call prefixes a measurement expression may not contain.
pub const BLOCKED_COUNT: usize = 14;

/// The blocked function-call prefixes, in the order they are checked.
pub open spec fn blocked_pattern(i: int) -> Seq<char> {
    if i == 0 { "system("@ }
    else if i == 1 { "sh("@ }
    else if i == 2 { "ipcbeginprocess("@ }
    else if i == 3 { "ipcwriteprocess("@ }
    else if i == 4 { "ipckillprocess("@ }
    else if i == 5 { "deletefile("@ }
    else if i == 6 { "deletedir("@ }
    else if i == 7 { "copyfile("@ }
    else if i == 8 { "movefile("@ }
    else if i == 9 { "writefile("@ }
    else if i == 10 { "createdir("@ }
    else if i == 11 { "load("@ }
    else if i == 12 { "evalstring("@ }
    else { "hiloaddmenu("@ }
}

fn blocked_pattern_exec(i: usize) -> (r: &'static str)
    requires
        i < BLOCKED_COUNT,
    ensures
        r@ == blocked_pattern(i as int),
{
    if i == 0 { "system(" }
    else if i == 1 { "sh(" }
    else if i == 2 { "ipcbeginprocess(" }
    else if i == 3 { "ipcwriteprocess(" }
    else if i == 4 { "ipckillprocess(" }
    else if i == 5 { "deletefile(" }
    else if i == 6 { "deletedir(" }
    else if i == 7 { "copyfile(" }
    else if i == 8 { "movefile(" }
    else if i == 9 { "writefile(" }
    else if i == 10 { "createdir(" }
    else if i == 11 { "load(" }
    else if i == 12 { "evalstring(" }
    else { "hiloaddmenu(" }
}

/// The first blocked prefix (by index) that `lower` contains.
pub open spec fn first_blocked(lower: Seq<char>) -> Option<int> {
    if exists|i: int| 0 <= i < BLOCKED_COUNT && contains(lower, blocked_pattern(i)) {
        Some(choose|i: int| 0 <= i < BLOCKED_COUNT && contains(lower, blocked_pattern(i))
            && forall|j: int| 0 <= j < i ==> !contains(lower, #[trigger] blocked_pattern(j)))
    } else {
        None
    }
}

/// The message for an expression that contains the blocked prefix `pat`.
pub open spec fn blocked_message(pat: Seq<char>) -> Seq<char> {
    "measure expression contains blocked function '"@ + pat
        + "': only waveform access functions are allowed"@
}

/// The verdict on a measurement expression whose lowercase text is `lower`.
pub open spec fn measure_verdict(lower: Seq<char>) -> Result<(), Seq<char>> {
    match first_blocked(lower) {
        Some(i) => Err(blocked_message(blocked_pattern(i))),
        None => Ok(()),
    }
}

/// The verdict as an error value.
pub open spec fn verdict_matches(r: Result<(), VirtuosoError>, v: Result<(), Seq<char>>) -> bool {
    match v {
        Ok(()) => r is Ok,
        Err(m) => r matches Err(VirtuosoError::Execution(msg)) && msg@ == m,
    }
}

/// Rejects a measurement expression, given its lowercase text, when it
/// contains one of the blocked function calls; the error names the first one.
pub fn validate_lowered_measure_expr(lower: &str) -> (r: Result<(), VirtuosoError>)
    ensures
        verdict_matches(r, measure_verdict(lower@)),
{
    let mut i: usize = 0;
    while i < BLOCKED_COUNT
        invariant
            i <= BLOCKED_COUNT,
            forall|j: int| 0 <= j < i ==> !contains(lower@, #[trigger] blocked_pattern(j)),
        decreases BLOCKED_COUNT - i,
    {
        let pat = blocked_pattern_exec(i);
        if str_contains(lower, pat) {
            let mut msg = string_from("measure expression contains blocked function '");
            push_str(&mut msg, pat);
            push_str(&mut msg, "': only waveform access functions are allowed");
            proof {
                assert(exists|k: int| 0 <= k < BLOCKED_COUNT && contains(lower@, blocked_pattern(k)));
                let f = choose|k: int| 0 <= k < BLOCKED_COUNT && contains(lower@, blocked_pattern(k))
                    && forall|j: int| 0 <= j < k ==> !contains(lower@, #[trigger] blocked_pattern(j));
                assert(0 <= f < BLOCKED_COUNT && contains(lower@, blocked_pattern(f))
                    && forall|j: int| 0 <= j < f ==> !contains(lower@, #[trigger] blocked_pattern(j)));
                if f < i {
                    assert(!contains(lower@, blocked_pattern(f)));
                }
                if f > i {
                    assert(!contains(lower@, blocked_pattern(i as int)));
                }
                assert(f == i);
            }
            return Err(VirtuosoError::Execution(msg));
        }
        i = i + 1;
    }
    proof {
        assert(!(exists|k: int| 0 <= k < BLOCKED_COUNT && contains(lower@, blocked_pattern(k))));
    }
    Ok(())
}

/// Reject SKILL expressions that could cause side effects outside of
/// waveform access: `measure` is for read-only PSF queries, so known
/// destructive or process-starting functions are blocked (case-insensitively).
pub fn validate_measure_expr(expr: &str) -> (r: Result<(), VirtuosoError>)
    ensures
        verdict_matches(r, measure_verdict(lowercase(expr@))),
{
    let lower = to_lowercase(expr);
    validate_lowered_measure_expr(lower.as_str())
}

// ───────────────────────── daemon-hanging code ─────────────────────────

/// The warning for code that would run a recursive `find /`.
pub open spec fn blocking_warning() -> Seq<char> {
    "Blocked: system()/sh() with recursive 'find /' can hang the SKILL daemon. Use a specific directory instead (e.g., find /home/...)."@
}

/// Whether code that calls `system(`/`sh(` runs `find /` or `find "/`,
/// given the code and its lowercase text.
pub open spec fn blocks_daemon(code: Seq<char>, lower: Seq<char>) -> bool {
    (contains(code, "system("@) || contains(code, "sh("@))
        && (contains(lower, "find /"@) || contains(lower, "find \"/"@))
}

/// The warning for `code`, given its lowercase text `lower`.
pub fn check_blocking_skill_lowered(code: &str, lower: &str) -> (r: Option<String>)
    ensures
        blocks_daemon(code@, lower@) ==> (r matches Some(w) && w@ == blocking_warning()),
        !blocks_daemon(code@, lower@) ==> r is None,
{
    if str_contains(code, "system(") || str_contains(code, "sh(") {
        if str_contains(lower, "find /") || str_contains(lower, "find \"/") {
            return Some(string_from(
                "Blocked: system()/sh() with recursive 'find /' can hang the SKILL daemon. Use a specific directory instead (e.g., find /home/...).",
            ));
        }
    }
    None
}

/// Guard against SKILL code that can hang the daemon: `system()`/`sh()`
/// running a recursive `find /` (matched case-insensitively).
pub fn check_blocking_skill(code: &str) -> (r: Option<String>)
    ensures
        blocks_daemon(code@, lowercase(code@)) ==> (r matches Some(w) && w@ == blocking_warning()),
        !blocks_daemon(code@, lowercase(code@)) ==> r is None,
{
    if str_contains(code, "system(") || str_contains(code, "sh(") {
        let lower = to_lowercase(code);
        check_blocking_skill_lowered(code, lower.as_str())
    } else {
        None
    }
}

} // verus!
