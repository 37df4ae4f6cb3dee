use vstd::prelude::*;
use crate::chars::{contains, replaced, replace_all, str_contains, strings_view, trim, trim_char, trim_char_chars};
use crate::error::VirtuosoError;
use crate::models::{ExecutionStatus, VirtuosoResult};
use crate::sim_flow::{errors_text};
use crate::text::{chars_of, joined, join_strings, push_char, push_str, str_eq, string_from, string_of};

verus! {

/// The mode a Virtuoso window's name shows.
pub open spec fn window_mode_spec(name: Seq<char>) -> Seq<char> {
    if contains(name, "ADE Explorer Editing"@) || contains(name, "ADE Assembler Editing"@) {
        "ade-editing"@
    } else if contains(name, "ADE Explorer Reading"@) {
        "ade-reading"@
    } else if contains(name, "ADE"@) {
        "ade-other"@
    } else if contains(name, "Schematic Editor"@) {
        "schematic"@
    } else if contains(name, "Layout Editor"@) {
        "layout"@
    } else {
        "other"@
    }
}

/// The mode of a window, from its name.
pub fn window_mode(name: &str) -> (r: &'static str)
    ensures
        r@ == window_mode_spec(name@),
{
    if str_contains(name, "ADE Explorer Editing") || str_contains(name, "ADE Assembler Editing") {
        "ade-editing"
    } else if str_contains(name, "ADE Explorer Reading") {
        "ade-reading"
    } else if str_contains(name, "ADE") {
        "ade-other"
    } else if str_contains(name, "Schematic Editor") {
        "schematic"
    } else if str_contains(name, "Layout Editor") {
        "layout"
    } else {
        "other"
    }
}

// ───────────────────────── SKILL octal escapes ─────────────────────────

/// Whether `n` is a Unicode scalar value (what `char::from_u32` accepts).
pub open spec fn is_scalar(n: u32) -> bool {
    n < 0xD800 || (0xE000 <= n && n <= 0x10FFFF)
}

/// std `char::from_u32`: the character with code `n`, or `None` for a
/// surrogate or a value past U+10FFFF (as its documentation states).
#[verifier::external_body]
fn char_from_code(n: u32) -> (r: Option<char>)
    ensures
        is_scalar(n) ==> r == Some(n as char),
        !is_scalar(n) ==> r is None,
{
    char::from_u32(n)
}

/// Whether a byte is an ASCII digit (`u8::is_ascii_digit`).
pub open spec fn is_digit_byte(b: u8) -> bool {
    0x30 <= b && b <= 0x39
}

/// How many digits (at most three) start at `i`.
pub open spec fn digit_run(bs: Seq<u8>, i: int) -> int
    decreases 3int,
{
    if i < bs.len() && is_digit_byte(bs[i]) {
        if i + 1 < bs.len() && is_digit_byte(bs[i + 1]) {
            if i + 2 < bs.len() && is_digit_byte(bs[i + 2]) { 3 } else { 2 }
        } else {
            1
        }
    } else {
        0
    }
}

/// The value of the octal digits `bs[i..j]`, if they all are octal.
pub open spec fn octal_value(bs: Seq<u8>, i: int, j: int) -> Option<nat>
    decreases j - i,
{
    if j <= i {
        Some(0)
    } else if bs[j - 1] > 0x37 {
        None
    } else {
        match octal_value(bs, i, j - 1) {
            Some(v) => Some(v * 8 + (bs[j - 1] - 0x30) as nat),
            None => None,
        }
    }
}

/// The escape that starts at byte `i`, if any: the character it stands
/// for and how many bytes it takes.
pub open spec fn escape_at(bs: Seq<u8>, i: int) -> Option<(char, int)> {
    if bs[i] == 0x5C && i + 1 < bs.len() && is_digit_byte(bs[i + 1]) {
        let n = digit_run(bs, i + 1);
        match octal_value(bs, i + 1, i + 1 + n) {
            Some(v) => Some((v as u32 as char, 1 + n)),
            None => None,
        }
    } else {
        None
    }
}

/// The text a SKILL string's bytes decode to: each `\NNN` octal escape
/// (one to three digits) becomes its character, every other byte becomes
/// the character with that byte's value.
pub open spec fn octal_decoded(bs: Seq<u8>, i: int) -> Seq<char>
    decreases bs.len() - i,
{
    if i >= bs.len() || i < 0 {
        Seq::empty()
    } else {
        match escape_at(bs, i) {
            Some((c, k)) => if k > 0 { seq![c] + octal_decoded(bs, i + k) } else { Seq::empty() },
            None => seq![bs[i] as char] + octal_decoded(bs, i + 1),
        }
    }
}

/// `8^k` for the lengths an escape can have.
pub open spec fn pow8(k: int) -> nat {
    if k <= 0 { 1 } else if k == 1 { 8 } else if k == 2 { 64 } else { 512 }
}

proof fn lemma_octal_bound(bs: Seq<u8>, i: int, j: int)
    requires
        0 <= i <= j <= bs.len(),
        j - i <= 3,
        forall|k: int| i <= k < j ==> is_digit_byte(#[trigger] bs[k]),
        octal_value(bs, i, j) is Some,
    ensures
        octal_value(bs, i, j)->Some_0 < pow8(j - i),
    decreases j - i,
{
    if j > i {
        lemma_octal_bound(bs, i, j - 1);
        let v = octal_value(bs, i, j - 1)->Some_0;
        let d = (bs[j - 1] - 0x30) as nat;
        let p = pow8(j - 1 - i);
        assert(pow8(j - i) == 8 * p);
        assert(v * 8 + d < 8 * p) by (nonlinear_arith)
            requires v < p, d <= 7;
    }
}

fn octal_of(bs: &[u8], i: usize, j: usize) -> (r: Option<u32>)
    requires
        i <= j <= bs@.len(),
        j - i <= 3,
        forall|k: int| i <= k < j ==> is_digit_byte(#[trigger] bs@[k]),
    ensures
        match octal_value(bs@, i as int, j as int) {
            Some(v) => v < 512 && r == Some(v as u32),
            None => r is None,
        },
    decreases j - i,
{
    if j <= i {
        return Some(0);
    }
    if bs[j - 1] > 0x37 {
        return None;
    }
    match octal_of(bs, i, j - 1) {
        Some(v) => {
            proof {
                lemma_octal_bound(bs@, i as int, j - 1);
            }
            assert(v < 64);
            Some(v * 8 + (bs[j - 1] - 0x30) as u32)
        },
        None => None,
    }
}

/// Decodes SKILL's `\NNN` octal escapes in a string's bytes; other bytes
/// are kept as characters of the same value.
pub fn decode_skill_octal(bytes: &[u8]) -> (r: String)
    ensures
        r@ == octal_decoded(bytes@, 0),
{
    let mut out = String::new();
    let mut i: usize = 0;
    while i < bytes.len()
        invariant
            i <= bytes@.len(),
            out@ + octal_decoded(bytes@, i as int) == octal_decoded(bytes@, 0),
        decreases bytes.len() - i,
    {
        let ghost before = out@;
        if bytes[i] == 0x5C && i + 1 < bytes.len() && 0x30 <= bytes[i + 1] && bytes[i + 1] <= 0x39 {
            let start = i + 1;
            let mut end = start;
            while end < bytes.len() && end - start < 3 && 0x30 <= bytes[end] && bytes[end] <= 0x39
                invariant
                    start <= end <= bytes@.len(),
                    end <= start + 3,
                    forall|k: int| start <= k < end ==> is_digit_byte(#[trigger] bytes@[k]),
                decreases start + 3 - end,
            {
                end = end + 1;
            }
            assert(end - start == digit_run(bytes@, start as int));
            match octal_of(bytes, start, end) {
                Some(n) => {
                    let c = char_from_code(n);
                    match c {
                        Some(ch) => {
                            crate::text::push_char(&mut out, ch);
                            i = end;
                            continue;
                        },
                        None => {},
                    }
                },
                None => {},
            }
        }
        crate::text::push_char(&mut out, bytes[i] as char);
        i = i + 1;
    }
    out
}

/// The JSON text in a window-list reply: the output without its outer
/// double quotes, octal escapes decoded, then `\"` and `\\` unescaped.
pub open spec fn window_json_text_spec(output_bytes: Seq<u8>) -> Seq<char> {
    replaced(replaced(octal_decoded(output_bytes, 0), "\\\""@, "\""@), "\\\\"@, "\\"@)
}

/// The JSON text in a window-list reply whose outer double quotes were
/// already removed (given as the remaining bytes).
pub fn window_json_text(unquoted_bytes: &[u8]) -> (r: String)
    ensures
        r@ == window_json_text_spec(unquoted_bytes@),
{
    let decoded = decode_skill_octal(unquoted_bytes);
    proof {
        reveal_strlit("\\\"");
        reveal_strlit("\\\\");
    }
    let step = replace_all(decoded.as_str(), "\\\"", "\"");
    replace_all(step.as_str(), "\\\\", "\\")
}

// ───────────────────────── dialogs and screenshots ─────────────────────────

/// Whether a reply names an open dialog: the call produced a value other
/// than `no-dialog`.
pub open spec fn names_dialog(r: VirtuosoResult) -> bool {
    r.status == ExecutionStatus::Success && trim(r.output@) != "nil"@ && trim_char(r.output@, '"') != "no-dialog"@
}

/// Whether the dialog reply names an open dialog.
pub fn dialog_active(r: &VirtuosoResult) -> (b: bool)
    ensures
        b == names_dialog(*r),
{
    if !r.skill_ok() {
        return false;
    }
    let raw = string_of(trim_char_chars(&chars_of(r.output.as_str()), '"').as_slice());
    !str_eq(raw.as_str(), "no-dialog")
}

/// The verdict on a screenshot reply: failed calls report their output (or
/// their errors when the output is empty); `no-match` means no window
/// matched `pattern`.
pub fn screenshot_verdict(r: &VirtuosoResult, pattern: Option<&str>) -> (v: Result<(), VirtuosoError>)
    ensures
        !(r.status == ExecutionStatus::Success && trim(r.output@) != "nil"@) ==> (v matches Err(VirtuosoError::Execution(m))
            && m@ == "screenshot failed: "@ + (if r.output@.len() == 0 { errors_text(*r) } else { r.output@ })),
        (r.status == ExecutionStatus::Success && trim(r.output@) != "nil"@) && trim_char(r.output@, '"') == "no-match"@
            ==> (v matches Err(VirtuosoError::NotFound(m)) && m@ == "no window matching pattern '"@
                + (match pattern { Some(p) => p@, None => Seq::<char>::empty() }) + "'"@),
        (r.status == ExecutionStatus::Success && trim(r.output@) != "nil"@) && trim_char(r.output@, '"') != "no-match"@
            ==> v is Ok,
{
    if !r.skill_ok() {
        let detail = if r.output.as_str().is_empty() {
            let s = join_strings(r.errors.as_slice(), "; ");
            assert(r.errors@.map_values(|x: String| x@) == strings_view(r.errors@));
            s
        } else {
            string_from(r.output.as_str())
        };
        let mut m = string_from("screenshot failed: ");
        push_str(&mut m, detail.as_str());
        return Err(VirtuosoError::Execution(m));
    }
    let raw = string_of(trim_char_chars(&chars_of(r.output.as_str()), '"').as_slice());
    if str_eq(raw.as_str(), "no-match") {
        let mut m = string_from("no window matching pattern '");
        match pattern {
            Some(p) => push_str(&mut m, p),
            None => {
                proof {
                    reveal_strlit("no window matching pattern '");
                }
            },
        }
        push_char(&mut m, '\'');
        proof {
            assert("'"@ =~= seq!['\'']) by { reveal_strlit("'"); }
        }
        return Err(VirtuosoError::NotFound(m));
    }
    Ok(())
}

} // verus!
