use vstd::prelude::*;
use vstd::string::StrSliceExecFns;

verus! {

/// Whether `c` is whitespace in the sense of `char::is_whitespace`: it has
/// the Unicode `White_Space` property.
pub open spec fn white_space(c: char) -> bool {
    let u = c as u32;
    (0x09 <= u && u <= 0x0d) || u == 0x20 || u == 0x85 || u == 0xa0 || u == 0x1680 || (0x2000
        <= u && u <= 0x200a) || u == 0x2028 || u == 0x2029 || u == 0x202f || u == 0x205f || u
        == 0x3000
}

/// Whether `c` is whitespace.
pub fn is_white_space(c: char) -> (r: bool)
    ensures
        r == white_space(c),
{
    let u = c as u32;
    (0x09 <= u && u <= 0x0d) || u == 0x20 || u == 0x85 || u == 0xa0 || u == 0x1680 || (0x2000
        <= u && u <= 0x200a) || u == 0x2028 || u == 0x2029 || u == 0x202f || u == 0x205f || u
        == 0x3000
}

/// Relies on `String: FromIterator<char>`: the characters, in order.
#[verifier::external_body]
pub(crate) fn string_from_chars(v: &Vec<char>) -> (r: String)
    ensures
        r@ == v@,
{
    v.iter().collect()
}

/// `s` with leading and trailing whitespace removed is empty.
pub open spec fn trims_to_empty(s: Seq<char>) -> bool {
    forall|i: int| 0 <= i < s.len() ==> white_space(s[i])
}

/// The first character of `s` with leading whitespace removed.
pub open spec fn trimmed_head(s: Seq<char>) -> Option<char>
    decreases s.len(),
{
    if s.len() == 0 {
        None
    } else if !white_space(s[0]) {
        Some(s[0])
    } else {
        trimmed_head(s.drop_first())
    }
}

/// Every character of `s` is whitespace.
pub open spec fn all_white(s: Seq<char>) -> bool {
    forall|i: int| 0 <= i < s.len() ==> white_space(#[trigger] s[i])
}

proof fn lemma_white_prefix(w: Seq<char>, t: Seq<char>)
    requires
        all_white(w),
    ensures
        trimmed_head(w + t) == trimmed_head(t),
    decreases w.len(),
{
    if w.len() > 0 {
        assert(white_space(w[0]));
        assert((w + t)[0] == w[0]);
        assert((w + t).drop_first() =~= w.drop_first() + t);
        lemma_white_prefix(w.drop_first(), t);
    } else {
        assert(w + t =~= t);
    }
}

proof fn lemma_white_suffix(t: Seq<char>, w: Seq<char>)
    requires
        all_white(w),
    ensures
        trimmed_head(t + w) == trimmed_head(t),
    decreases t.len(),
{
    if t.len() > 0 {
        assert((t + w)[0] == t[0]);
        assert((t + w).drop_first() =~= t.drop_first() + w);
        lemma_white_suffix(t.drop_first(), w);
    } else {
        assert(t + w =~= w);
        lemma_white_prefix(w, Seq::empty());
        assert(w + Seq::<char>::empty() =~= w);
    }
}

/// Whitespace around a text changes neither its first character once
/// trimmed nor whether it trims to nothing.
pub proof fn lemma_trimmed_head_ignores_surrounding_white(w1: Seq<char>, t: Seq<char>, w2: Seq<char>)
    requires
        all_white(w1),
        all_white(w2),
    ensures
        trimmed_head(w1 + t + w2) == trimmed_head(t),
        trims_to_empty(w1 + t + w2) == trims_to_empty(t),
{
    lemma_white_suffix(t, w2);
    lemma_white_prefix(w1, t + w2);
    assert(w1 + t + w2 =~= w1 + (t + w2));
    let s = w1 + t + w2;
    if trims_to_empty(t) {
        assert forall|i: int| 0 <= i < s.len() implies white_space(s[i]) by {
            if i < w1.len() {
                assert(s[i] == w1[i]);
            } else if i < w1.len() + t.len() {
                assert(s[i] == t[i - w1.len()]);
            } else {
                assert(s[i] == w2[i - w1.len() - t.len()]);
            }
        }
    }
    if trims_to_empty(s) {
        assert forall|i: int| 0 <= i < t.len() implies white_space(t[i]) by {
            assert(s[i + w1.len()] == t[i]);
        }
    }
}

/// Characters of a string, one by one.
pub fn chars_of(s: &str) -> (r: Vec<char>)
    ensures
        r@ == s@,
{
    let n = s.unicode_len();
    let mut r: Vec<char> = Vec::new();
    let mut i: usize = 0;
    while i < n
        invariant
            n == s@.len(),
            i <= n,
            r@ == s@.subrange(0, i as int),
        decreases n - i,
    {
        r.push(s.get_char(i));
        i = i + 1;
    }
    assert(r@ =~= s@);
    r
}

/// Whether `s`, trimmed of whitespace, is empty.
pub fn is_blank(s: &str) -> (r: bool)
    ensures
        r == trims_to_empty(s@),
{
    let n = s.unicode_len();
    let mut i: usize = 0;
    while i < n
        invariant
            n == s@.len(),
            i <= n,
            forall|j: int| 0 <= j < i ==> white_space(s@[j]),
        decreases n - i,
    {
        if !is_white_space(s.get_char(i)) {
            return false;
        }
        i = i + 1;
    }
    true
}

/// First character of `s` once leading whitespace is removed.
pub fn trimmed_first(s: &str) -> (r: Option<char>)
    ensures
        r == trimmed_head(s@),
{
    let n = s.unicode_len();
    let mut i: usize = 0;
    assert(s@.subrange(0, n as int) =~= s@);
    while i < n
        invariant
            n == s@.len(),
            i <= n,
            trimmed_head(s@) == trimmed_head(s@.subrange(i as int, n as int)),
        decreases n - i,
    {
        let c = s.get_char(i);
        assert(s@.subrange(i as int, n as int).drop_first() =~= s@.subrange(i + 1, n as int));
        if !is_white_space(c) {
            return Some(c);
        }
        i = i + 1;
    }
    None
}

/// One editing step on a buffer.
#[derive(Clone, Copy, Debug, PartialEq, Eq, Structural)]
pub enum Edit {
    /// Type a character at the cursor.
    Insert(char),
    /// Delete the character before the cursor.
    Backspace,
}

/// The text and cursor after one edit: an insert puts the character at the
/// cursor and moves past it; a backspace at a cursor above zero moves the
/// cursor back and removes the character there, and at zero does nothing.
pub open spec fn after_edit(v: (Seq<char>, nat), e: Edit) -> (Seq<char>, nat) {
    match e {
        Edit::Insert(c) => (v.0.insert(v.1 as int, c), v.1 + 1),
        Edit::Backspace => if v.1 > 0 {
            (v.0.remove(v.1 - 1), (v.1 - 1) as nat)
        } else {
            v
        },
    }
}

/// The text and cursor after a series of edits, applied in order.
pub open spec fn after_edits(v: (Seq<char>, nat), es: Seq<Edit>) -> (Seq<char>, nat)
    decreases es.len(),
{
    if es.len() == 0 {
        v
    } else {
        after_edit(after_edits(v, es.drop_last()), es.last())
    }
}

/// The cursor lies within the text.
pub open spec fn cursor_in_text(v: (Seq<char>, nat)) -> bool {
    v.1 <= v.0.len()
}

proof fn lemma_after_edits_cursor(v: (Seq<char>, nat), es: Seq<Edit>)
    requires
        cursor_in_text(v),
    ensures
        cursor_in_text(after_edits(v, es)),
    decreases es.len(),
{
    if es.len() > 0 {
        lemma_after_edits_cursor(v, es.drop_last());
    }
}

/// Whatever series of inserts and backspaces is applied to a buffer whose
/// cursor lies within its text, the cursor lies within the text after
/// every one of them.
pub proof fn lemma_edits_keep_cursor_in_text(v: (Seq<char>, nat), es: Seq<Edit>)
    requires
        cursor_in_text(v),
    ensures
        forall|k: int| 0 <= k <= es.len() ==> #[trigger] cursor_in_text(after_edits(v, es.take(k))),
{
    assert forall|k: int| 0 <= k <= es.len() implies #[trigger] cursor_in_text(
        after_edits(v, es.take(k)),
    ) by {
        lemma_after_edits_cursor(v, es.take(k));
    }
}

/// An editable sequence of characters with a cursor between them.
pub struct TextBuffer {
    chars: Vec<char>,
    cursor: usize,
}

impl View for TextBuffer {
    type V = (Seq<char>, nat);

    closed spec fn view(&self) -> (Seq<char>, nat) {
        (self.chars@, self.cursor as nat)
    }
}

impl TextBuffer {
    /// The cursor never leaves the text: `0 <= cursor <= length`.
    pub open spec fn wf(&self) -> bool {
        cursor_in_text(self@)
    }

    /// An empty buffer, cursor at the start.
    pub fn new() -> (r: TextBuffer)
        ensures
            r.wf(),
            r@.0 == Seq::<char>::empty(),
            r@.1 == 0,
    {
        TextBuffer { chars: Vec::new(), cursor: 0 }
    }

    /// A buffer holding `s`, cursor at the end.
    pub fn from_str(s: &str) -> (r: TextBuffer)
        ensures
            r.wf(),
            r@.0 == s@,
            r@.1 == s@.len(),
    {
        let chars = chars_of(s);
        let cursor = chars.len();
        TextBuffer { chars, cursor }
    }

    /// The text, as a string.
    pub fn text(&self) -> (r: String)
        ensures
            r@ == self@.0,
    {
        string_from_chars(&self.chars)
    }

    /// The text, one character each.
    pub fn chars(&self) -> (r: &Vec<char>)
        ensures
            r@ == self@.0,
    {
        &self.chars
    }

    /// Position of the cursor, counted in characters.
    pub fn cursor(&self) -> (r: usize)
        ensures
            r == self@.1,
    {
        self.cursor
    }

    /// Number of characters.
    pub fn len(&self) -> (r: usize)
        ensures
            r == self@.0.len(),
    {
        self.chars.len()
    }

    /// Inserts `c` at the cursor and moves the cursor past it.
    pub fn insert_char(&mut self, c: char)
        requires
            old(self).wf(),
            old(self)@.0.len() < usize::MAX,
        ensures
            final(self).wf(),
            final(self)@ == after_edit(old(self)@, Edit::Insert(c)),
    {
        self.chars.insert(self.cursor, c);
        self.cursor = self.cursor + 1;
    }

    /// Removes the character before the cursor, if there is one, and moves
    /// the cursor back onto its place; at the start nothing changes.
    pub fn backspace(&mut self)
        requires
            old(self).wf(),
        ensures
            final(self).wf(),
            final(self)@ == after_edit(old(self)@, Edit::Backspace),
    {
        if self.cursor > 0 {
            self.cursor = self.cursor - 1;
            self.chars.remove(self.cursor);
        }
    }
}

} // verus!
