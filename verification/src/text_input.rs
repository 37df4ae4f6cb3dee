use vstd::prelude::*;
use vstd::utf8::{encode_utf8, encode_scalar};
use crate::text::{chars_of, string_of};

verus! {

// ───────────────────────── UTF-8 lengths ─────────────────────────

/// How many bytes UTF-8 takes for `c` (`char::len_utf8`).
pub open spec fn char_utf8_len(c: char) -> nat {
    if (c as u32) < 0x80 {
        1
    } else if (c as u32) < 0x800 {
        2
    } else if (c as u32) < 0x10000 {
        3
    } else {
        4
    }
}

/// How many bytes UTF-8 takes for `s` (`str::len`).
pub open spec fn byte_len(s: Seq<char>) -> nat {
    encode_utf8(s).len()
}

/// A text in memory has a byte length that fits a `usize`: its bytes are a
/// slice.
pub fn text_byte_len(s: &str) -> (n: usize)
    ensures
        n == byte_len(s@),
{
    let b = s.as_bytes();
    b.len()
}

fn char_utf8_len_exec(c: char) -> (n: usize)
    ensures
        n == char_utf8_len(c),
{
    if (c as u32) < 0x80 {
        1
    } else if (c as u32) < 0x800 {
        2
    } else if (c as u32) < 0x10000 {
        3
    } else {
        4
    }
}

proof fn lemma_scalar_len(c: char)
    ensures
        encode_scalar(c as u32).len() == char_utf8_len(c),
{
}

/// Byte lengths add up over concatenation.
pub proof fn lemma_byte_len_concat(a: Seq<char>, b: Seq<char>)
    ensures
        byte_len(a + b) == byte_len(a) + byte_len(b),
    decreases a.len(),
{
    if a.len() == 0 {
        assert(a + b == b);
    } else {
        lemma_byte_len_concat(a.drop_first(), b);
        assert((a + b).drop_first() == a.drop_first() + b);
        assert((a + b)[0] == a[0]);
    }
}

/// The byte length of a single character.
pub proof fn lemma_byte_len_single(c: char)
    ensures
        byte_len(seq![c]) == char_utf8_len(c),
{
    lemma_scalar_len(c);
    assert(seq![c].drop_first() == Seq::<char>::empty());
    assert(encode_utf8(Seq::<char>::empty()) == Seq::<u8>::empty());
}

/// The byte length of the first `i + 1` characters.
pub proof fn lemma_byte_len_take_step(s: Seq<char>, i: int)
    requires
        0 <= i < s.len(),
    ensures
        byte_len(s.take(i + 1)) == byte_len(s.take(i)) + char_utf8_len(s[i]),
{
    assert(s.take(i + 1) == s.take(i) + seq![s[i]]);
    lemma_byte_len_concat(s.take(i), seq![s[i]]);
    lemma_byte_len_single(s[i]);
}

/// Longer prefixes take strictly more bytes.
pub proof fn lemma_byte_len_take_strict(s: Seq<char>, i: int, j: int)
    requires
        0 <= i < j <= s.len(),
    ensures
        byte_len(s.take(i)) < byte_len(s.take(j)),
    decreases j - i,
{
    lemma_byte_len_take_step(s, j - 1);
    if i < j - 1 {
        lemma_byte_len_take_strict(s, i, j - 1);
    }
}

/// A prefix takes at most the bytes of the whole text.
pub proof fn lemma_byte_len_take_le(s: Seq<char>, i: int)
    requires
        0 <= i <= s.len(),
    ensures
        byte_len(s.take(i)) <= byte_len(s),
{
    assert(s.take(s.len() as int) == s);
    if i < s.len() {
        lemma_byte_len_take_strict(s, i, s.len() as int);
    }
}

// ───────────────────────── the editing model ─────────────────────────

/// `cur` is the byte offset of a character boundary of `v`.
pub open spec fn is_boundary(v: Seq<char>, cur: nat) -> bool {
    exists|k: int| 0 <= k <= v.len() && byte_len(v.take(k)) == cur
}

/// The number of characters before the boundary at byte offset `cur`.
pub open spec fn char_index(v: Seq<char>, cur: nat) -> int {
    choose|k: int| 0 <= k <= v.len() && byte_len(v.take(k)) == cur
}

/// The boundary at `cur` is after exactly `k` characters.
pub proof fn lemma_char_index(v: Seq<char>, cur: nat, k: int)
    requires
        0 <= k <= v.len(),
        byte_len(v.take(k)) == cur,
    ensures
        char_index(v, cur) == k,
{
    let c = char_index(v, cur);
    assert(0 <= c <= v.len() && byte_len(v.take(c)) == cur);
    if c < k {
        lemma_byte_len_take_strict(v, c, k);
    } else if k < c {
        lemma_byte_len_take_strict(v, k, c);
    }
}

/// Text and cursor after inserting `c` at the cursor.
pub open spec fn insert_spec(v: Seq<char>, cur: nat, c: char) -> (Seq<char>, nat) {
    let k = char_index(v, cur);
    (v.take(k) + seq![c] + v.skip(k), cur + char_utf8_len(c))
}

/// Text and cursor after deleting the character before the cursor.
pub open spec fn backspace_spec(v: Seq<char>, cur: nat) -> (Seq<char>, nat) {
    let k = char_index(v, cur);
    if cur == 0 || k == 0 {
        (v, cur)
    } else {
        (v.take(k - 1) + v.skip(k), (cur - char_utf8_len(v[k - 1])) as nat)
    }
}

/// The cursor one character to the left (unchanged at the start).
pub open spec fn left_spec(v: Seq<char>, cur: nat) -> nat {
    let k = char_index(v, cur);
    if k > 0 { (cur - char_utf8_len(v[k - 1])) as nat } else { cur }
}

/// The cursor one character to the right (unchanged at the end).
pub open spec fn right_spec(v: Seq<char>, cur: nat) -> nat {
    let k = char_index(v, cur);
    if k < v.len() { cur + char_utf8_len(v[k]) } else { cur }
}

/// A one-line text field whose cursor is a byte offset that always sits on
/// a character boundary.
#[derive(Clone, Debug)]
pub struct TextInput {
    pub value: String,
    pub cursor: usize,
}

impl TextInput {
    /// The cursor sits on a character boundary and the text's byte length fits a `usize`.
    pub open spec fn wf(&self) -> bool {
        &&& is_boundary(self.value@, self.cursor as nat)
        &&& byte_len(self.value@) <= usize::MAX
    }

    /// A field holding `s` with the cursor at its end.
    pub fn new(s: &str) -> (t: Self)
        ensures
            t.wf(),
            t.value@ == s@,
            t.cursor == byte_len(s@),
    {
        let n = text_byte_len(s);
        proof {
            assert(s@.take(s@.len() as int) == s@);
        }
        TextInput { value: String::from_str(s), cursor: n }
    }

    /// The number of characters before the cursor.
    fn index(&self, cs: &Vec<char>) -> (k: usize)
        requires
            self.wf(),
            cs@ == self.value@,
        ensures
            k == char_index(self.value@, self.cursor as nat),
            k <= cs.len(),
            byte_len(cs@.take(k as int)) == self.cursor,
    {
        let ghost v = cs@;
        let ghost w = char_index(v, self.cursor as nat);
        let mut i: usize = 0;
        let mut acc: usize = 0;
        assert(v.take(0) == Seq::<char>::empty());
        assert(encode_utf8(Seq::<char>::empty()) == Seq::<u8>::empty());
        while acc < self.cursor
            invariant
                0 <= w <= v.len(),
                byte_len(v.take(w)) == self.cursor,
                v == cs@,
                v.len() == cs.len(),
                i <= w,
                acc == byte_len(v.take(i as int)),
            decreases w - i,
        {
            proof {
                if i == w {
                    assert(false);
                }
                assert(i < w);
                lemma_byte_len_take_step(v, i as int);
                lemma_byte_len_take_le(v.take(w), i + 1);
                assert(v.take(w).take(i + 1) == v.take(i + 1));
            }
            acc = acc + char_utf8_len_exec(cs[i]);
            i = i + 1;
        }
        proof {
            if i < w {
                lemma_byte_len_take_strict(v, i as int, w);
            }
            lemma_char_index(v, self.cursor as nat, i as int);
        }
        i
    }

    /// Inserts `c` at the cursor and moves the cursor past it.
    pub fn insert_char(&mut self, c: char)
        requires
            old(self).wf(),
            byte_len(old(self).value@) + char_utf8_len(c) <= usize::MAX,
        ensures
            final(self).wf(),
            (final(self).value@, final(self).cursor as nat) == insert_spec(old(self).value@, old(self).cursor as nat, c),
    {
        let cs = chars_of(self.value.as_str());
        let k = self.index(&cs);
        let ghost v = cs@;
        let mut nv: Vec<char> = Vec::new();
        for i in 0..k
            invariant
                k <= cs.len(),
                nv@ == cs@.take(i as int),
        {
            nv.push(cs[i]);
            assert(cs@.take(i + 1) == cs@.take(i as int).push(cs@[i as int]));
        }
        nv.push(c);
        for i in k..cs.len()
            invariant
                k <= cs.len(),
                nv@ == cs@.take(k as int) + seq![c] + cs@.subrange(k as int, i as int),
        {
            nv.push(cs[i]);
            assert(cs@.subrange(k as int, i + 1) == cs@.subrange(k as int, i as int).push(cs@[i as int]));
        }
        assert(cs@.subrange(k as int, cs.len() as int) == cs@.skip(k as int));
        let n = char_utf8_len_exec(c);
        proof {
            lemma_byte_len_take_le(v, k as int);
            let nw = v.take(k as int) + seq![c] + v.skip(k as int);
            assert(nw.take(k + 1) == v.take(k as int) + seq![c]);
            lemma_byte_len_concat(v.take(k as int), seq![c]);
            lemma_byte_len_single(c);
            assert(v.take(k as int) + v.skip(k as int) == v);
            lemma_byte_len_concat(v.take(k as int), v.skip(k as int));
            lemma_byte_len_concat(v.take(k as int) + seq![c], v.skip(k as int));
            lemma_char_index(nw, (self.cursor + n) as nat, k + 1);
        }
        self.value = string_of(nv.as_slice());
        self.cursor = self.cursor + n;
    }

    /// Deletes the character before the cursor (nothing at the start).
    pub fn backspace(&mut self)
        requires
            old(self).wf(),
        ensures
            final(self).wf(),
            (final(self).value@, final(self).cursor as nat) == backspace_spec(old(self).value@, old(self).cursor as nat),
    {
        if self.cursor == 0 {
            return;
        }
        let cs = chars_of(self.value.as_str());
        let k = self.index(&cs);
        let ghost v = cs@;
        if k == 0 {
            return;
        }
        let ch = cs[k - 1];
        let n = char_utf8_len_exec(ch);
        let mut nv: Vec<char> = Vec::new();
        let mut i: usize = 0;
        while i < k - 1
            invariant
                1 <= k <= cs.len(),
                i <= k - 1,
                nv@ == cs@.take(i as int),
            decreases k - 1 - i,
        {
            nv.push(cs[i]);
            assert(cs@.take(i + 1) == cs@.take(i as int).push(cs@[i as int]));
            i = i + 1;
        }
        for i in k..cs.len()
            invariant
                1 <= k <= cs.len(),
                nv@ == cs@.take(k - 1) + cs@.subrange(k as int, i as int),
        {
            nv.push(cs[i]);
            assert(cs@.subrange(k as int, i + 1) == cs@.subrange(k as int, i as int).push(cs@[i as int]));
        }
        assert(cs@.subrange(k as int, cs.len() as int) == cs@.skip(k as int));
        proof {
            lemma_byte_len_take_step(v, k - 1);
            let nw = v.take(k - 1) + v.skip(k as int);
            assert(nw.take(k - 1) == v.take(k - 1));
            lemma_char_index(nw, (self.cursor - n) as nat, k - 1);
            assert(v.take(k - 1) + seq![v[k - 1]] + v.skip(k as int) == v);
            lemma_byte_len_concat(v.take(k - 1), v.skip(k as int));
            lemma_byte_len_concat(v.take(k - 1) + seq![v[k - 1]], v.skip(k as int));
            lemma_byte_len_concat(v.take(k - 1), seq![v[k - 1]]);
            lemma_byte_len_single(v[k - 1]);
        }
        self.value = string_of(nv.as_slice());
        self.cursor = self.cursor - n;
    }

    /// Moves the cursor one character left (nothing at the start).
    pub fn move_left(&mut self)
        requires
            old(self).wf(),
        ensures
            final(self).wf(),
            final(self).value@ == old(self).value@,
            final(self).cursor == left_spec(old(self).value@, old(self).cursor as nat),
    {
        let cs = chars_of(self.value.as_str());
        let k = self.index(&cs);
        if k > 0 {
            let n = char_utf8_len_exec(cs[k - 1]);
            proof {
                lemma_byte_len_take_step(cs@, k - 1);
                lemma_char_index(cs@, (self.cursor - n) as nat, k - 1);
            }
            self.cursor = self.cursor - n;
        }
    }

    /// Moves the cursor one character right (nothing at the end).
    pub fn move_right(&mut self)
        requires
            old(self).wf(),
        ensures
            final(self).wf(),
            final(self).value@ == old(self).value@,
            final(self).cursor == right_spec(old(self).value@, old(self).cursor as nat),
    {
        let cs = chars_of(self.value.as_str());
        let k = self.index(&cs);
        if k < cs.len() {
            let n = char_utf8_len_exec(cs[k]);
            proof {
                lemma_byte_len_take_step(cs@, k as int);
                lemma_byte_len_take_le(cs@, k + 1);
                lemma_char_index(cs@, (self.cursor + n) as nat, k + 1);
            }
            self.cursor = self.cursor + n;
        }
    }

    /// Moves the cursor to the start.
    pub fn home(&mut self)
        requires
            old(self).wf(),
        ensures
            final(self).wf(),
            final(self).value@ == old(self).value@,
            final(self).cursor == 0,
    {
        proof {
            assert(self.value@.take(0) == Seq::<char>::empty());
            assert(encode_utf8(Seq::<char>::empty()) == Seq::<u8>::empty());
        }
        self.cursor = 0;
    }

    /// Moves the cursor to the end.
    pub fn end(&mut self)
        requires
            old(self).wf(),
        ensures
            final(self).wf(),
            final(self).value@ == old(self).value@,
            final(self).cursor == byte_len(old(self).value@),
    {
        proof {
            assert(self.value@.take(self.value@.len() as int) == self.value@);
        }
        self.cursor = self.value.as_str().len();
    }

    /// The text.
    pub fn as_str(&self) -> (s: &str)
        ensures
            s@ == self.value@,
    {
        self.value.as_str()
    }
}

impl Default for TextInput {
    /// An empty field.
    fn default() -> (t: Self)
        ensures
            t.wf(),
            t.value@ == Seq::<char>::empty(),
            t.cursor == 0,
    {
        let t = TextInput { value: String::new(), cursor: 0 };
        proof {
            assert(t.value@.take(0) == Seq::<char>::empty());
            assert(encode_utf8(Seq::<char>::empty()) == Seq::<u8>::empty());
        }
        t
    }
}

// ───────────────────────── laws ─────────────────────────

/// Backspace undoes an insertion: inserting a character and deleting it
/// again gives back the text and the cursor.
pub proof fn law_insert_then_backspace(v: Seq<char>, cur: nat, c: char)
    requires
        is_boundary(v, cur),
    ensures
        backspace_spec(insert_spec(v, cur, c).0, insert_spec(v, cur, c).1) == (v, cur),
{
    let k = char_index(v, cur);
    let nw = v.take(k) + seq![c] + v.skip(k);
    assert(nw.take(k + 1) == v.take(k) + seq![c]);
    lemma_byte_len_concat(v.take(k), seq![c]);
    lemma_byte_len_single(c);
    lemma_char_index(nw, cur + char_utf8_len(c), k + 1);
    assert(nw[k] == c);
    assert(nw.take(k) == v.take(k));
    assert(nw.skip(k + 1) == v.skip(k));
    assert(v.take(k) + v.skip(k) == v);
}

/// Moving left and then right returns the cursor to where it was, unless it
/// was already at the start.
pub proof fn law_left_then_right(v: Seq<char>, cur: nat)
    requires
        is_boundary(v, cur),
        cur > 0,
    ensures
        right_spec(v, left_spec(v, cur)) == cur,
{
    let k = char_index(v, cur);
    if k == 0 {
        assert(v.take(0) == Seq::<char>::empty());
        assert(encode_utf8(Seq::<char>::empty()) == Seq::<u8>::empty());
        assert(false);
    }
    lemma_byte_len_take_step(v, k - 1);
    lemma_char_index(v, left_spec(v, cur), k - 1);
}

/// Moving right and then left returns the cursor to where it was, unless it
/// was already at the end.
pub proof fn law_right_then_left(v: Seq<char>, cur: nat)
    requires
        is_boundary(v, cur),
        cur < byte_len(v),
    ensures
        left_spec(v, right_spec(v, cur)) == cur,
{
    let k = char_index(v, cur);
    if k == v.len() {
        assert(v.take(k) == v);
        assert(false);
    }
    lemma_byte_len_take_step(v, k);
    lemma_char_index(v, right_spec(v, cur), k + 1);
}

} // verus!
