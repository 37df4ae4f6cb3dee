use vstd::prelude::*;
use crate::chars::strings_view;
use crate::text::{chars_of, push_char, string_of};

verus! {

// ───────────────────────── display widths ─────────────────────────

/// The display width `unicode_width` gives a character: `None` for a
/// control character.
pub uninterp spec fn char_columns(c: char) -> Option<usize>;

/// `UnicodeWidthChar::width`: the claim is that the result is
/// `char_columns` of the character, and, as the crate's lookup shows, that
/// printable ASCII is one column wide and the C0 controls have no width.
#[verifier::external_body]
fn char_width(c: char) -> (r: Option<usize>)
    ensures
        r == char_columns(c),
        '\u{20}' <= c <= '\u{7E}' ==> r == Some(1usize),
        c < '\u{20}' ==> r is None,
{
    unicode_width::UnicodeWidthChar::width(c)
}

/// The display width `unicode_width` gives a text.
pub uninterp spec fn text_columns(s: Seq<char>) -> usize;

/// `UnicodeWidthStr::width`: the claim is only that the result is
/// `text_columns` of the text.
#[verifier::external_body]
fn str_width(s: &str) -> (r: usize)
    ensures
        r == text_columns(s@),
{
    unicode_width::UnicodeWidthStr::width(s)
}

/// The columns a character takes when wrapping: its width, at least one.
pub open spec fn wrap_columns(c: char) -> nat {
    match char_columns(c) {
        Some(w) => if w >= 1 { w as nat } else { 1 },
        None => 1,
    }
}

/// `a + b` saturated at `usize::MAX`.
pub open spec fn sat_add(a: nat, b: nat) -> nat {
    if a + b > usize::MAX { usize::MAX as nat } else { a + b }
}

/// The finished lines, the line in progress and its width after wrapping
/// the characters of `s` at `width` columns.
pub open spec fn wrap_scan(s: Seq<char>, width: nat) -> (Seq<Seq<char>>, Seq<char>, nat)
    decreases s.len(),
{
    if s.len() == 0 {
        (Seq::empty(), Seq::empty(), 0)
    } else {
        let (lines, cur, w) = wrap_scan(s.drop_last(), width);
        let c = s.last();
        if c == '\n' {
            (lines.push(cur), Seq::empty(), 0)
        } else if w + wrap_columns(c) > width && cur.len() > 0 {
            (lines.push(cur), seq![c], wrap_columns(c))
        } else {
            (lines, cur.push(c), sat_add(w, wrap_columns(c)))
        }
    }
}

/// A message wrapped to `width` columns: newlines always break, a line
/// breaks before a character that would overflow it, and a character wider
/// than the width gets a line of its own. Width 0 gives one empty line.
pub open spec fn wrapped(message: Seq<char>, width: nat) -> Seq<Seq<char>> {
    if width == 0 {
        seq![Seq::empty()]
    } else {
        let (lines, cur, _) = wrap_scan(message, width);
        if cur.len() > 0 || lines.len() == 0 { lines.push(cur) } else { lines }
    }
}

fn wrap_cols_exec(c: char) -> (r: usize)
    ensures
        r == wrap_columns(c),
{
    match char_width(c) {
        Some(w) => if w >= 1 { w } else { 1 },
        None => 1,
    }
}

/// Wraps a message to fit within `width` display columns.
pub fn wrap_message_lines(message: &str, width: u16) -> (r: Vec<String>)
    ensures
        strings_view(r@) == wrapped(message@, width as nat),
{
    let width = width as usize;
    if width == 0 {
        let mut v: Vec<String> = Vec::new();
        v.push(String::new());
        assert(strings_view(v@) =~= seq![Seq::<char>::empty()]);
        return v;
    }
    let cs = chars_of(message);
    let mut lines: Vec<String> = Vec::new();
    let mut current: Vec<char> = Vec::new();
    let mut current_width: usize = 0;
    assert(strings_view(lines@) =~= Seq::<Seq<char>>::empty());
    for i in 0..cs.len()
        invariant
            width > 0,
            cs@ == message@,
            (strings_view(lines@), current@, current_width as nat) == wrap_scan(cs@.take(i as int), width as nat),
    {
        let c = cs[i];
        assert(cs@.take(i + 1).drop_last() == cs@.take(i as int));
        assert(cs@.take(i + 1).last() == c);
        let ghost before = lines@;
        if c == '\n' {
            lines.push(string_of(current.as_slice()));
            assert(strings_view(lines@) =~= strings_view(before).push(current@));
            current = Vec::new();
            current_width = 0;
            assert(current@ =~= Seq::<char>::empty());
        } else {
            let w = wrap_cols_exec(c);
            let over = current_width > width || w > width - current_width;
            if over && current.len() > 0 {
                lines.push(string_of(current.as_slice()));
                assert(strings_view(lines@) =~= strings_view(before).push(current@));
                current = Vec::new();
                current.push(c);
                assert(current@ =~= seq![c]);
                current_width = w;
            } else {
                current.push(c);
                current_width = if current_width > usize::MAX - w { usize::MAX } else { current_width + w };
            }
        }
    }
    assert(cs@.take(cs.len() as int) == cs@);
    if current.len() > 0 || lines.len() == 0 {
        let ghost before = lines@;
        lines.push(string_of(current.as_slice()));
        assert(strings_view(lines@) =~= strings_view(before).push(current@));
    }
    lines
}

/// The characters of `s` other than newlines.
pub open spec fn without_newlines(s: Seq<char>) -> Seq<char>
    decreases s.len(),
{
    if s.len() == 0 {
        Seq::empty()
    } else if s.last() == '\n' {
        without_newlines(s.drop_last())
    } else {
        without_newlines(s.drop_last()).push(s.last())
    }
}

/// The lines one after the other.
pub open spec fn flatten(lines: Seq<Seq<char>>) -> Seq<char>
    decreases lines.len(),
{
    if lines.len() == 0 { Seq::empty() } else { flatten(lines.drop_last()) + lines.last() }
}

/// The columns a text takes when wrapping.
pub open spec fn columns(s: Seq<char>) -> nat
    decreases s.len(),
{
    if s.len() == 0 { 0 } else { columns(s.drop_last()) + wrap_columns(s.last()) }
}

/// A wrapped line fits: it takes at most `width` columns, or it is a
/// single character too wide for any line.
pub open spec fn line_fits(l: Seq<char>, width: nat) -> bool {
    l.len() <= 1 || columns(l) <= width
}

proof fn lemma_flatten_push(lines: Seq<Seq<char>>, l: Seq<char>)
    ensures
        flatten(lines.push(l)) == flatten(lines) + l,
{
    assert(lines.push(l).drop_last() == lines);
}

proof fn lemma_wrap_scan(s: Seq<char>, width: nat)
    requires
        width > 0,
        width <= usize::MAX,
    ensures
        ({
            let (lines, cur, w) = wrap_scan(s, width);
            &&& flatten(lines) + cur == without_newlines(s)
            &&& forall|i: int| 0 <= i < lines.len() ==> line_fits(#[trigger] lines[i], width)
            &&& line_fits(cur, width)
            &&& w == (if columns(cur) > usize::MAX { usize::MAX as nat } else { columns(cur) })
        }),
    decreases s.len(),
{
    if s.len() > 0 {
        lemma_wrap_scan(s.drop_last(), width);
        let (lines, cur, w) = wrap_scan(s.drop_last(), width);
        let c = s.last();
        lemma_flatten_push(lines, cur);
        if c == '\n' {
            assert(flatten(lines.push(cur)) + Seq::<char>::empty() == flatten(lines) + cur);
        } else if w + wrap_columns(c) > width && cur.len() > 0 {
            assert(seq![c].drop_last() =~= Seq::<char>::empty());
            assert(seq![c].last() == c);
            assert(columns(Seq::<char>::empty()) == 0);
            assert(columns(seq![c]) == columns(seq![c].drop_last()) + wrap_columns(c));
            assert(columns(seq![c]) == wrap_columns(c));
            assert(flatten(lines.push(cur)) + seq![c] == (flatten(lines) + cur).push(c));
        } else {
            assert(cur.push(c).drop_last() == cur);
            assert(flatten(lines) + cur.push(c) == (flatten(lines) + cur).push(c));
            if cur.len() == 0 {
                assert(cur.push(c).len() == 1);
            }
        }
    }
}

/// Wrapping loses only the newlines: the wrapped lines, one after the
/// other, are the message without its newlines.
pub proof fn law_wrap_keeps_text(message: Seq<char>, width: u16)
    requires
        width > 0,
    ensures
        flatten(wrapped(message, width as nat)) == without_newlines(message),
{
    lemma_wrap_scan(message, width as nat);
    let (lines, cur, w) = wrap_scan(message, width as nat);
    lemma_flatten_push(lines, cur);
    if !(cur.len() > 0 || lines.len() == 0) {
        assert(flatten(lines) + cur == flatten(lines));
    }
}

/// Every wrapped line fits the width, but for a single character wider
/// than the width.
pub proof fn law_wrap_lines_fit(message: Seq<char>, width: u16, i: int)
    requires
        width > 0,
        0 <= i < wrapped(message, width as nat).len(),
    ensures
        line_fits(wrapped(message, width as nat)[i], width as nat),
{
    lemma_wrap_scan(message, width as nat);
    let (lines, cur, w) = wrap_scan(message, width as nat);
    if cur.len() > 0 || lines.len() == 0 {
        if i < lines.len() {
            assert(lines.push(cur)[i] == lines[i]);
        }
    }
}

// ───────────────────────── truncation ─────────────────────────

/// The longest prefix of `s` whose widths (control characters count 0)
/// fit in `budget`, scanning from the left.
pub open spec fn fitting_prefix(s: Seq<char>, budget: nat) -> Seq<char>
    decreases s.len(),
{
    if s.len() == 0 {
        Seq::empty()
    } else {
        let w = match char_columns(s[0]) { Some(w) => w as nat, None => 0 };
        if w > budget { Seq::empty() } else { seq![s[0]] + fitting_prefix(s.skip(1), (budget - w) as nat) }
    }
}

/// `s` cut to `max_width` display columns, with `…` where it was cut.
pub open spec fn truncated(s: Seq<char>, max_width: nat) -> Seq<char> {
    if text_columns(s) <= max_width {
        s
    } else if max_width == 0 {
        Seq::empty()
    } else {
        fitting_prefix(s, (max_width - 1) as nat).push('…')
    }
}

proof fn lemma_fitting_step(s: Seq<char>, i: int, budget: nat, used: nat)
    requires
        0 <= i < s.len(),
        used <= budget,
        fitting_prefix(s, budget) == s.take(i) + fitting_prefix(s.skip(i), (budget - used) as nat),
    ensures
        ({
            let w = match char_columns(s[i]) { Some(w) => w as nat, None => 0 };
            w <= budget - used ==> fitting_prefix(s, budget) == s.take(i + 1) + fitting_prefix(s.skip(i + 1), (budget - used - w) as nat)
        }),
{
    let w = match char_columns(s[i]) { Some(w) => w as nat, None => 0 };
    if w <= budget - used {
        assert(s.skip(i)[0] == s[i]);
        assert(s.skip(i).skip(1) == s.skip(i + 1));
        assert(s.take(i + 1) == s.take(i) + seq![s[i]]);
    }
}

/// Cuts `s` to fit within `max_width` display columns, ending with `…`
/// when something was cut.
pub fn truncate_to_display_width(s: &str, max_width: usize) -> (r: String)
    ensures
        r@ == truncated(s@, max_width as nat),
{
    if str_width(s) <= max_width {
        return string_of(chars_of(s).as_slice());
    }
    if max_width == 0 {
        return String::new();
    }
    let budget = max_width - 1;
    let cs = chars_of(s);
    let mut out: Vec<char> = Vec::new();
    let mut width: usize = 0;
    let mut i: usize = 0;
    assert(cs@.skip(0) == cs@);
    assert(cs@.take(0) == Seq::<char>::empty());
    loop
        invariant_except_break
            i <= cs.len(),
            cs@ == s@,
            width <= budget,
            out@ == cs@.take(i as int),
            fitting_prefix(cs@, budget as nat) == cs@.take(i as int) + fitting_prefix(cs@.skip(i as int), (budget - width) as nat),
        ensures
            fitting_prefix(cs@, budget as nat) == out@,
        decreases cs.len() - i,
    {
        if i >= cs.len() {
            assert(cs@.skip(i as int).len() == 0);
            assert(cs@.take(i as int) + Seq::<char>::empty() == cs@.take(i as int));
            break;
        }
        let c = cs[i];
        let w = match char_width(c) {
            Some(w) => w,
            None => 0,
        };
        proof { lemma_fitting_step(cs@, i as int, budget as nat, width as nat); }
        if w > budget - width {
            assert(cs@.skip(i as int)[0] == c);
            assert(fitting_prefix(cs@.skip(i as int), (budget - width) as nat) == Seq::<char>::empty());
            assert(cs@.take(i as int) + Seq::<char>::empty() == cs@.take(i as int));
            break;
        }
        out.push(c);
        width = width + w;
        i = i + 1;
    }
    out.push('…');
    string_of(out.as_slice())
}

proof fn lemma_fitting_is_prefix(s: Seq<char>, budget: nat)
    ensures
        fitting_prefix(s, budget).len() <= s.len(),
        fitting_prefix(s, budget) == s.take(fitting_prefix(s, budget).len() as int),
    decreases s.len(),
{
    if s.len() > 0 {
        let w = match char_columns(s[0]) { Some(w) => w as nat, None => 0 };
        if w <= budget {
            lemma_fitting_is_prefix(s.skip(1), (budget - w) as nat);
            let p = fitting_prefix(s.skip(1), (budget - w) as nat);
            assert(seq![s[0]] + p =~= s.take(p.len() + 1 as int));
        } else {
            assert(s.take(0) == Seq::<char>::empty());
        }
    }
}

/// Truncation keeps a prefix: the text itself when it fits, else some
/// leading part of it followed by `…`.
pub proof fn law_truncate_keeps_prefix(s: Seq<char>, max_width: nat)
    ensures
        truncated(s, max_width) == s
            || truncated(s, max_width).len() == 0
            || exists|k: int| 0 <= k <= s.len() && #[trigger] truncated(s, max_width) == s.take(k).push('…'),
{
    if text_columns(s) > max_width && max_width > 0 {
        lemma_fitting_is_prefix(s, (max_width - 1) as nat);
        let k = fitting_prefix(s, (max_width - 1) as nat).len() as int;
        assert(truncated(s, max_width) == s.take(k).push('…'));
    }
}

// ───────────────────────── geometry ─────────────────────────

/// A screen rectangle, in terminal cells.
#[derive(Clone, Copy, Debug, PartialEq, Eq, Structural)]
pub struct Rect {
    pub x: u16,
    pub y: u16,
    pub width: u16,
    pub height: u16,
}

impl Rect {
    /// The rectangle at `(x, y)` of the given size.
    pub fn new(x: u16, y: u16, width: u16, height: u16) -> (r: Rect)
        ensures
            r == (Rect { x, y, width, height }),
    {
        Rect { x, y, width, height }
    }
}

/// A `width` x `height` rectangle centered in `r`, each side clamped to
/// `r`'s.
pub open spec fn centered_fixed(width: u16, height: u16, r: Rect) -> Rect {
    let w = if width < r.width { width } else { r.width };
    let h = if height < r.height { height } else { r.height };
    Rect { x: (r.x + (r.width - w) / 2) as u16, y: (r.y + (r.height - h) / 2) as u16, width: w, height: h }
}

/// Centers a fixed-size rectangle in `r`, clamped to `r`.
pub fn centered_rect_fixed(width: u16, height: u16, r: Rect) -> (c: Rect)
    requires
        r.x + r.width <= u16::MAX,
        r.y + r.height <= u16::MAX,
    ensures
        c == centered_fixed(width, height, r),
        c.width <= r.width,
        c.height <= r.height,
        r.x <= c.x && c.x + c.width <= r.x + r.width,
        r.y <= c.y && c.y + c.height <= r.y + r.height,
{
    let w = if width < r.width { width } else { r.width };
    let h = if height < r.height { height } else { r.height };
    Rect { x: r.x + (r.width - w) / 2, y: r.y + (r.height - h) / 2, width: w, height: h }
}

// ───────────────────────── compact overlays ─────────────────────────

/// The widest a compact overlay gets.
pub const TOAST_MAX_WIDTH: u16 = 80;

/// `v.clamp(lo, hi)` (for `lo <= hi`).
pub open spec fn clamp16(v: u16, lo: u16, hi: u16) -> u16 {
    if v < lo { lo } else if v > hi { hi } else { v }
}

/// `a.saturating_sub(b)`.
pub open spec fn sat_sub16(a: u16, b: u16) -> u16 {
    if a >= b { (a - b) as u16 } else { 0 }
}

/// `a.saturating_add(b)`.
pub open spec fn sat_add16(a: u16, b: u16) -> u16 {
    if a + b > u16::MAX { u16::MAX } else { (a + b) as u16 }
}

/// The widest of the lines, in display columns (0 for none).
pub open spec fn max_columns(lines: Seq<Seq<char>>) -> usize
    decreases lines.len(),
{
    if lines.len() == 0 {
        0
    } else {
        let m = max_columns(lines.drop_last());
        let w = text_columns(lines.last());
        if w > m { w } else { m }
    }
}

/// The width of a compact overlay in `area` for a title and lines: the
/// widest text plus 8 columns, at least 36 and at most 80 columns or the
/// area's width less 4, whichever is smaller.
pub open spec fn overlay_width(area: Rect, title: Seq<char>, lines: Seq<Seq<char>>) -> u16 {
    let max_width = clamp16(sat_sub16(area.width, 4), 1, TOAST_MAX_WIDTH);
    let min_width = if 36 < max_width { 36u16 } else { max_width };
    let m = max_columns(lines);
    let t = text_columns(title);
    let content = (if t > m { t } else { m }) as u16;
    clamp16(sat_add16(content, 8), min_width, max_width)
}

/// The columns inside an overlay's border.
pub open spec fn inner_width(width: u16) -> u16 {
    let w = sat_sub16(width, 2);
    if w >= 1 { w } else { 1 }
}

/// The rows one line takes wrapped at `inner` columns (at least one).
pub open spec fn line_rows(line: Seq<char>, inner: u16) -> u16 {
    let n = wrapped(line, inner as nat).len();
    (if n >= 1 { n } else { 1 }) as u16
}

/// The rows all the lines take, summed without bound.
pub open spec fn total_rows(lines: Seq<Seq<char>>, inner: u16) -> int
    decreases lines.len(),
{
    if lines.len() == 0 {
        0
    } else {
        total_rows(lines.drop_last(), inner) + line_rows(lines.last(), inner)
    }
}

/// Whether the rows a compact overlay's lines take fit in a `u16` (the sum
/// that sizes the overlay overflows otherwise).
pub open spec fn compact_rows_fit(area: Rect, title: Seq<char>, lines: Seq<Seq<char>>) -> bool {
    total_rows(lines, inner_width(overlay_width(area, title, lines))) <= u16::MAX
}

/// The compact overlay for a title and lines, centered in `area`: as wide
/// as `overlay_width`, as tall as the wrapped lines plus 3 rows, at least 6
/// and at most the area's height less 4 (at least 1).
pub open spec fn compact_rect(area: Rect, title: Seq<char>, lines: Seq<Seq<char>>) -> Rect {
    let width = overlay_width(area, title, lines);
    let rows = total_rows(lines, inner_width(width)) as u16;
    let wrapped_height = if rows >= 1 { rows } else { 1u16 };
    let mh = sat_sub16(area.height, 4);
    let max_height = if mh >= 1 { mh } else { 1u16 };
    let h = sat_add16(wrapped_height, 3);
    let h6 = if h >= 6 { h } else { 6u16 };
    let height = if h6 < max_height { h6 } else { max_height };
    centered_fixed(width, height, area)
}

proof fn lemma_total_rows_grows(lines: Seq<Seq<char>>, inner: u16, j: int, k: int)
    requires
        0 <= j <= k <= lines.len(),
    ensures
        total_rows(lines.take(j), inner) <= total_rows(lines.take(k), inner),
    decreases k - j,
{
    if j < k {
        assert(lines.take(k).drop_last() =~= lines.take(k - 1));
        lemma_total_rows_grows(lines, inner, j, k - 1);
    }
}

fn exec_overlay_width(area: Rect, title: &str, lines: &Vec<String>) -> (w: u16)
    ensures
        w == overlay_width(area, title@, strings_view(lines@)),
{
    let sub = if area.width >= 4 { area.width - 4 } else { 0 };
    let max_width = if sub < 1 { 1 } else if sub > TOAST_MAX_WIDTH { TOAST_MAX_WIDTH } else { sub };
    let min_width: u16 = if 36 < max_width { 36 } else { max_width };
    let ghost ls = strings_view(lines@);
    let mut m: usize = 0;
    for i in 0..lines.len()
        invariant
            ls == strings_view(lines@),
            m == max_columns(ls.take(i as int)),
    {
        assert(ls.take(i + 1).drop_last() =~= ls.take(i as int));
        let w = str_width(lines[i].as_str());
        if w > m {
            m = w;
        }
    }
    assert(ls.take(lines.len() as int) =~= ls);
    let t = str_width(title);
    let content = (if t > m { t } else { m }) as u16;
    let added = content.saturating_add(8);
    if added < min_width { min_width } else if added > max_width { max_width } else { added }
}

/// The rows the lines take wrapped at `inner` columns, or `None` when their
/// sum does not fit in a `u16`.
pub fn overlay_rows(lines: &Vec<String>, inner: u16) -> (r: Option<u16>)
    ensures
        total_rows(strings_view(lines@), inner) <= u16::MAX ==> r == Some(total_rows(strings_view(lines@), inner) as u16),
        total_rows(strings_view(lines@), inner) > u16::MAX ==> r is None,
{
    let ghost ls = strings_view(lines@);
    let mut acc: u16 = 0;
    let mut i: usize = 0;
    while i < lines.len()
        invariant
            i <= lines.len(),
            ls == strings_view(lines@),
            acc == total_rows(ls.take(i as int), inner),
        decreases lines.len() - i,
    {
        assert(ls.take(i + 1).drop_last() =~= ls.take(i as int));
        let n = wrap_message_lines(lines[i].as_str(), inner).len();
        let h = (if n >= 1 { n } else { 1 }) as u16;
        assert(h == line_rows(ls[i as int], inner));
        match acc.checked_add(h) {
            Some(sum) => acc = sum,
            None => {
                proof { lemma_total_rows_grows(ls, inner, i + 1, ls.len() as int); }
                assert(ls.take(ls.len() as int) =~= ls);
                return None;
            },
        }
        i = i + 1;
    }
    assert(ls.take(lines.len() as int) =~= ls);
    Some(acc)
}

/// The rectangle of a compact overlay for a title and lines, centered in
/// `area`.
pub fn compact_lines_overlay_rect(area: Rect, title: &str, lines: &Vec<String>) -> (r: Rect)
    requires
        area.x + area.width <= u16::MAX,
        area.y + area.height <= u16::MAX,
        compact_rows_fit(area, title@, strings_view(lines@)),
    ensures
        r == compact_rect(area, title@, strings_view(lines@)),
{
    let width = exec_overlay_width(area, title, lines);
    let sub = if width >= 2 { width - 2 } else { 0 };
    let inner: u16 = if sub >= 1 { sub } else { 1 };
    let rows = match overlay_rows(lines, inner) {
        Some(n) => n,
        None => 0,
    };
    let wrapped_height: u16 = if rows >= 1 { rows } else { 1 };
    let mh = if area.height >= 4 { area.height - 4 } else { 0 };
    let max_height: u16 = if mh >= 1 { mh } else { 1 };
    let h = wrapped_height.saturating_add(3);
    let h6: u16 = if h >= 6 { h } else { 6 };
    let height = if h6 < max_height { h6 } else { max_height };
    centered_rect_fixed(width, height, area)
}

/// `compact_lines_overlay_rect`, or `None` when the lines' rows overflow.
pub fn try_compact_lines_overlay_rect(area: Rect, title: &str, lines: &Vec<String>) -> (r: Option<Rect>)
    requires
        area.x + area.width <= u16::MAX,
        area.y + area.height <= u16::MAX,
    ensures
        compact_rows_fit(area, title@, strings_view(lines@)) ==> r == Some(compact_rect(area, title@, strings_view(lines@))),
        !compact_rows_fit(area, title@, strings_view(lines@)) ==> r is None,
{
    let width = exec_overlay_width(area, title, lines);
    let sub = if width >= 2 { width - 2 } else { 0 };
    let inner: u16 = if sub >= 1 { sub } else { 1 };
    match overlay_rows(lines, inner) {
        Some(_) => Some(compact_lines_overlay_rect(area, title, lines)),
        None => None,
    }
}

/// The rectangle of a compact overlay for a title and a message, one line
/// per line of the message.
pub fn compact_message_overlay_rect(area: Rect, title: &str, message: &str) -> (r: Rect)
    requires
        area.x + area.width <= u16::MAX,
        area.y + area.height <= u16::MAX,
        compact_rows_fit(area, title@, crate::envfile::text_lines(message@)),
    ensures
        r == compact_rect(area, title@, crate::envfile::text_lines(message@)),
{
    let lines = crate::envfile::lines_of(message);
    compact_lines_overlay_rect(area, title, &lines)
}

/// `compact_message_overlay_rect`, or `None` when the message's rows
/// overflow.
pub fn try_compact_message_overlay_rect(area: Rect, title: &str, message: &str) -> (r: Option<Rect>)
    requires
        area.x + area.width <= u16::MAX,
        area.y + area.height <= u16::MAX,
    ensures
        compact_rows_fit(area, title@, crate::envfile::text_lines(message@))
            ==> r == Some(compact_rect(area, title@, crate::envfile::text_lines(message@))),
        !compact_rows_fit(area, title@, crate::envfile::text_lines(message@)) ==> r is None,
{
    let lines = crate::envfile::lines_of(message);
    try_compact_lines_overlay_rect(area, title, &lines)
}

/// The lines of a message wrapped to `width` columns and centered
/// vertically in `height` rows: half the spare rows (rounded down) as empty
/// lines first, then the wrapped lines.
pub open spec fn centered_lines(message: Seq<char>, width: u16, height: u16) -> Seq<Seq<char>> {
    let w = wrapped(message, width as nat);
    let pad = sat_sub16(height, w.len() as u16) / 2;
    Seq::new(pad as nat, |i: int| Seq::<char>::empty()) + w
}

/// A message wrapped to `width` and padded above to sit in the middle of
/// `height` rows, one text per screen line.
pub fn centered_message_lines(message: &str, width: u16, height: u16) -> (r: Vec<String>)
    ensures
        strings_view(r@) == centered_lines(message@, width, height),
{
    let wrapped_lines = wrap_message_lines(message, width);
    let n = wrapped_lines.len() as u16;
    let pad = (if height >= n { height - n } else { 0 }) / 2;
    let ghost w = strings_view(wrapped_lines@);
    let mut out: Vec<String> = Vec::new();
    let mut i: u16 = 0;
    while i < pad
        invariant
            i <= pad,
            strings_view(out@) == Seq::new(i as nat, |k: int| Seq::<char>::empty()),
        decreases pad - i,
    {
        let ghost before = out@;
        out.push(String::new());
        assert(strings_view(out@) =~= strings_view(before).push(Seq::<char>::empty()));
        assert(strings_view(out@) =~= Seq::new((i + 1) as nat, |k: int| Seq::<char>::empty()));
        i = i + 1;
    }
    let ghost head = strings_view(out@);
    for j in 0..wrapped_lines.len()
        invariant
            w == strings_view(wrapped_lines@),
            strings_view(out@) == head + w.take(j as int),
    {
        let ghost before = out@;
        out.push(crate::text::string_from(wrapped_lines[j].as_str()));
        assert(strings_view(out@) =~= strings_view(before).push(w[j as int]));
        assert(w.take(j + 1) =~= w.take(j as int).push(w[j as int]));
        assert(strings_view(out@) =~= head + w.take(j + 1));
    }
    assert(w.take(wrapped_lines.len() as int) =~= w);
    out
}

/// A compact overlay stays inside its container and is never wider than
/// `TOAST_MAX_WIDTH`.
pub proof fn law_compact_overlay_inside(area: Rect, title: Seq<char>, lines: Seq<Seq<char>>)
    requires
        area.x + area.width <= u16::MAX,
        area.y + area.height <= u16::MAX,
    ensures
        ({
            let r = compact_rect(area, title, lines);
            &&& r.width <= TOAST_MAX_WIDTH
            &&& area.x <= r.x && r.x + r.width <= area.x + area.width
            &&& area.y <= r.y && r.y + r.height <= area.y + area.height
        }),
{
    let max_width = clamp16(sat_sub16(area.width, 4), 1, TOAST_MAX_WIDTH);
    assert(1 <= max_width <= TOAST_MAX_WIDTH);
    assert(overlay_width(area, title, lines) <= max_width);
}

} // verus!
