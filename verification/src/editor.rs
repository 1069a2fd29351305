//! A one-line text editor with a character cursor, an optional selection
//! anchor and a kill buffer: the model behind the SQL, shell and prompt
//! input areas.
//!
//! Positions are character indices. The selection runs between the anchor
//! and the cursor; an anchor past the end of the text selects up to the end.
use vstd::prelude::*;

use crate::completion::{is_completion_separator, is_separator};
use crate::text::{byte_offset_of, chars_of, push_char, push_chars, string_of, utf8_len};

verus! {

/// `t` with `t[from..to]` replaced by `ins`.
pub open spec fn spliced(t: Seq<char>, from: int, to: int, ins: Seq<char>) -> Seq<char> {
    t.subrange(0, from) + ins + t.subrange(to, t.len() as int)
}

/// A new string: `t` with the characters `from..to` replaced by `ins`.
pub fn splice(t: &str, from: usize, to: usize, ins: &str) -> (r: String)
    requires
        from <= to <= t@.len(),
    ensures
        r@ == spliced(t@, from as int, to as int, ins@),
{
    let v = chars_of(t);
    let mut out = string_of(&v, 0, from);
    out.append(ins);
    push_chars(&mut out, &v, to, v.len());
    out
}

/// The number of characters of a string.
pub fn char_count(s: &str) -> (r: usize)
    ensures
        r == s@.len(),
{
    s.unicode_len()
}

// ---------------------------------------------------------------------
// Word boundaries
// ---------------------------------------------------------------------

/// From `pos`, moves left over separators.
pub open spec fn skip_seps_back(t: Seq<char>, pos: int) -> int
    decreases pos,
{
    if pos > 0 && is_separator(t[pos - 1]) {
        skip_seps_back(t, pos - 1)
    } else {
        pos
    }
}

/// From `pos`, moves left over word characters.
pub open spec fn skip_word_back(t: Seq<char>, pos: int) -> int
    decreases pos,
{
    if pos > 0 && !is_separator(t[pos - 1]) {
        skip_word_back(t, pos - 1)
    } else {
        pos
    }
}

/// From `pos`, moves right over separators.
pub open spec fn skip_seps_fwd(t: Seq<char>, pos: int) -> int
    decreases t.len() - pos,
{
    if 0 <= pos < t.len() && is_separator(t[pos]) {
        skip_seps_fwd(t, pos + 1)
    } else {
        pos
    }
}

/// From `pos`, moves right over word characters.
pub open spec fn skip_word_fwd(t: Seq<char>, pos: int) -> int
    decreases t.len() - pos,
{
    if 0 <= pos < t.len() && !is_separator(t[pos]) {
        skip_word_fwd(t, pos + 1)
    } else {
        pos
    }
}

/// The start of the word left of `from` (readline's backward-word):
/// separators are skipped, then word characters.
pub open spec fn word_left_of(t: Seq<char>, from: int) -> int {
    if from == 0 {
        0
    } else {
        skip_word_back(t, skip_seps_back(t, from))
    }
}

/// The end of the word right of `from` (readline's forward-word):
/// separators are skipped, then word characters. At or past the end it
/// is the end.
pub open spec fn word_right_of(t: Seq<char>, from: int) -> int {
    if from >= t.len() {
        t.len() as int
    } else {
        skip_word_fwd(t, skip_seps_fwd(t, from))
    }
}

pub proof fn lemma_skip_back(t: Seq<char>, pos: int)
    requires
        0 <= pos <= t.len(),
    ensures
        0 <= skip_seps_back(t, pos) <= pos,
        0 <= skip_word_back(t, pos) <= pos,
    decreases pos,
{
    if pos > 0 {
        lemma_skip_back(t, pos - 1);
    }
}

pub proof fn lemma_skip_fwd(t: Seq<char>, pos: int)
    requires
        0 <= pos <= t.len(),
    ensures
        pos <= skip_seps_fwd(t, pos) <= t.len(),
        pos <= skip_word_fwd(t, pos) <= t.len(),
    decreases t.len() - pos,
{
    if pos < t.len() {
        lemma_skip_fwd(t, pos + 1);
    }
}

/// The start of the word left of `from` in `v`.
pub fn word_left_in(v: &Vec<char>, from: usize) -> (r: usize)
    requires
        from <= v@.len(),
    ensures
        r == word_left_of(v@, from as int),
        r <= from,
{
    if from == 0 {
        return 0;
    }
    let mut pos = from;
    while pos > 0 && is_completion_separator(v[pos - 1])
        invariant
            pos <= from <= v@.len(),
            skip_seps_back(v@, from as int) == skip_seps_back(v@, pos as int),
        decreases pos,
    {
        pos = pos - 1;
    }
    let ghost mid = pos;
    while pos > 0 && !is_completion_separator(v[pos - 1])
        invariant
            pos <= mid <= from <= v@.len(),
            skip_seps_back(v@, from as int) == mid,
            skip_word_back(v@, mid as int) == skip_word_back(v@, pos as int),
        decreases pos,
    {
        pos = pos - 1;
    }
    pos
}

/// The end of the word right of `from` in `v`.
pub fn word_right_in(v: &Vec<char>, from: usize) -> (r: usize)
    ensures
        r == word_right_of(v@, from as int),
        from >= v@.len() ==> r == v@.len(),
        from < v@.len() ==> from <= r <= v@.len(),
{
    let len = v.len();
    if from >= len {
        return len;
    }
    let mut pos = from;
    while pos < len && is_completion_separator(v[pos])
        invariant
            from <= pos <= len == v@.len(),
            skip_seps_fwd(v@, from as int) == skip_seps_fwd(v@, pos as int),
        decreases len - pos,
    {
        pos = pos + 1;
    }
    let ghost mid = pos;
    while pos < len && !is_completion_separator(v[pos])
        invariant
            from <= mid <= pos <= len == v@.len(),
            skip_seps_fwd(v@, from as int) == mid,
            skip_word_fwd(v@, mid as int) == skip_word_fwd(v@, pos as int),
        decreases len - pos,
    {
        pos = pos + 1;
    }
    pos
}

// ---------------------------------------------------------------------
// The editor
// ---------------------------------------------------------------------

/// One line of editable text.
pub struct LineEditor {
    /// The text.
    pub text: String,
    /// The cursor, in characters.
    pub cursor_position: usize,
    /// Where a selection started (in characters), if one is active.
    pub selection_start: Option<usize>,
    /// Text removed by kill-to-end or kill-to-start, for yanking back.
    pub kill_buffer: String,
}

/// The mathematical state of a `LineEditor`.
pub struct EditState {
    pub text: Seq<char>,
    pub cursor: int,
    pub sel: Option<int>,
    pub kill: Seq<char>,
}

/// The selected range `(lo, hi)` of text `t` with cursor `c` and anchor
/// `s`: from the smaller of anchor and cursor to the larger, cut at the end.
pub open spec fn selection_range(t: Seq<char>, c: int, s: int) -> (int, int) {
    let lo = if s < c {
        s
    } else {
        c
    };
    let hi = if s > c {
        s
    } else {
        c
    };
    (lo, if hi > t.len() {
        t.len() as int
    } else {
        hi
    })
}

/// The selected text, if a selection is active.
pub open spec fn es_selected(s: EditState) -> Option<Seq<char>> {
    match s.sel {
        None => None,
        Some(a) => {
            let (lo, hi) = selection_range(s.text, s.cursor, a);
            Some(s.text.subrange(lo, hi))
        },
    }
}

/// The selection deleted (if any): the cursor goes to its start and the
/// selection ends.
pub open spec fn es_delete_selection(s: EditState) -> EditState {
    match s.sel {
        None => s,
        Some(a) => {
            let (lo, hi) = selection_range(s.text, s.cursor, a);
            EditState { text: spliced(s.text, lo, hi, Seq::empty()), cursor: lo, sel: None, ..s }
        },
    }
}

/// `ins` inserted at the cursor, the cursor after it.
pub open spec fn es_insert(s: EditState, ins: Seq<char>) -> EditState {
    EditState { text: spliced(s.text, s.cursor, s.cursor, ins), cursor: s.cursor + ins.len(), ..s }
}

/// The text replaced, the cursor at its end, no selection.
pub open spec fn es_set_text(s: EditState, t: Seq<char>) -> EditState {
    EditState { text: t, cursor: t.len() as int, sel: None, ..s }
}

/// The text replaced and the cursor put at its end; the selection anchor
/// and the kill buffer stay as they were.
pub open spec fn es_replace_text(s: EditState, t: Seq<char>) -> EditState {
    EditState { text: t, cursor: t.len() as int, ..s }
}

/// Typing a character: it replaces the selection.
pub open spec fn es_insert_char(s: EditState, c: char) -> EditState {
    es_insert(es_delete_selection(s), seq![c])
}

/// Pasted text made one line: newline becomes a space, carriage return is dropped.
pub open spec fn one_line(s: Seq<char>) -> Seq<char>
    decreases s.len(),
{
    if s.len() == 0 {
        Seq::empty()
    } else {
        let r = one_line(s.drop_last());
        if s.last() == '\n' {
            r.push(' ')
        } else if s.last() == '\r' {
            r
        } else {
            r.push(s.last())
        }
    }
}

/// Everything selected, the cursor at the end.
pub open spec fn es_select_all(s: EditState) -> EditState {
    EditState { sel: Some(0), cursor: s.text.len() as int, ..s }
}

/// The cursor moved to `pos`, no selection.
pub open spec fn es_move_to(s: EditState, pos: int) -> EditState {
    EditState { cursor: pos, sel: None, ..s }
}

/// The cursor moved to `pos`, the selection anchored where the cursor
/// was unless a selection was already active.
pub open spec fn es_select_to(s: EditState, pos: int) -> EditState {
    EditState {
        cursor: pos,
        sel: Some(
            match s.sel {
                Some(a) => a,
                None => s.cursor,
            },
        ),
        ..s
    }
}

/// One character left, no selection.
pub open spec fn es_move_left(s: EditState) -> EditState {
    es_move_to(s, if s.cursor > 0 { s.cursor - 1 } else { s.cursor })
}

/// One character right, no selection.
pub open spec fn es_move_right(s: EditState) -> EditState {
    es_move_to(s, if s.cursor < s.text.len() { s.cursor + 1 } else { s.cursor })
}

/// Backspace: the selection, or else the character before the cursor.
pub open spec fn es_backspace(s: EditState) -> EditState {
    if s.sel is Some {
        es_delete_selection(s)
    } else if s.cursor > 0 {
        EditState {
            text: spliced(s.text, s.cursor - 1, s.cursor, Seq::empty()),
            cursor: s.cursor - 1,
            ..s
        }
    } else {
        s
    }
}

/// Delete: the selection, or else the character after the cursor.
pub open spec fn es_delete_forward(s: EditState) -> EditState {
    if s.sel is Some {
        es_delete_selection(s)
    } else if s.cursor < s.text.len() {
        EditState { text: spliced(s.text, s.cursor, s.cursor + 1, Seq::empty()), ..s }
    } else {
        s
    }
}

/// Backward-kill-word: the selection, or else the word before the cursor
/// (not kept in the kill buffer).
pub open spec fn es_delete_word_before(s: EditState) -> EditState {
    if s.sel is Some {
        es_delete_selection(s)
    } else {
        let w = word_left_of(s.text, s.cursor);
        EditState { text: spliced(s.text, w, s.cursor, Seq::empty()), cursor: w, ..s }
    }
}

/// Kill-word forward: the selection, or else the word after the cursor;
/// the cursor stays.
pub open spec fn es_delete_word_after(s: EditState) -> EditState {
    if s.sel is Some {
        es_delete_selection(s)
    } else {
        let w = word_right_of(s.text, s.cursor);
        EditState { text: spliced(s.text, s.cursor, w, Seq::empty()), ..s }
    }
}

/// Kill-line: the selection, or else the text from the cursor to the end,
/// which goes to the kill buffer.
pub open spec fn es_kill_to_end(s: EditState) -> EditState {
    if s.sel is Some {
        es_delete_selection(s)
    } else {
        EditState {
            kill: s.text.subrange(s.cursor, s.text.len() as int),
            text: s.text.subrange(0, s.cursor),
            ..s
        }
    }
}

/// Kill to start: the selection, or else the text before the cursor,
/// which goes to the kill buffer; the cursor goes to the start.
pub open spec fn es_kill_to_start(s: EditState) -> EditState {
    if s.sel is Some {
        es_delete_selection(s)
    } else {
        EditState {
            kill: s.text.subrange(0, s.cursor),
            text: s.text.subrange(s.cursor, s.text.len() as int),
            cursor: 0,
            ..s
        }
    }
}

/// Yank: the selection replaced by the kill buffer.
pub open spec fn es_yank(s: EditState) -> EditState {
    es_insert(es_delete_selection(s), s.kill)
}

impl LineEditor {
    /// The cursor is within the text.
    pub open spec fn wf(&self) -> bool {
        self.cursor_position <= self.text@.len()
    }

    /// The mathematical state.
    pub open spec fn state(&self) -> EditState {
        EditState {
            text: self.text@,
            cursor: self.cursor_position as int,
            sel: match self.selection_start {
                Some(a) => Some(a as int),
                None => None,
            },
            kill: self.kill_buffer@,
        }
    }

    /// An empty editor.
    pub fn new() -> (e: Self)
        ensures
            e.wf(),
            e.state() == (EditState {
                text: Seq::empty(),
                cursor: 0,
                sel: None,
                kill: Seq::empty(),
            }),
    {
        LineEditor {
            text: String::new(),
            cursor_position: 0,
            selection_start: None,
            kill_buffer: String::new(),
        }
    }

    /// The number of characters of the text.
    pub fn len(&self) -> (r: usize)
        ensures
            r == self.text@.len(),
    {
        char_count(self.text.as_str())
    }

    /// The byte offset of character position `char_pos`, or the byte
    /// length of the text when the position is past the end.
    pub fn char_to_byte(&self, char_pos: usize) -> (r: usize)
        requires
            utf8_len(self.text@) <= usize::MAX,
        ensures
            char_pos <= self.text@.len() ==> r == utf8_len(self.text@.take(char_pos as int)),
            char_pos > self.text@.len() ==> r == utf8_len(self.text@),
    {
        let v = chars_of(self.text.as_str());
        let k = if char_pos <= v.len() {
            char_pos
        } else {
            v.len()
        };
        proof {
            assert(v@.take(v@.len() as int) =~= v@);
            crate::text::lemma_utf8_len_prefix_mono(v@, k as int, v@.len() as int);
        }
        byte_offset_of(&v, k) as usize
    }

    /// The selected range in characters, if a selection is active.
    pub fn selection_range(&self) -> (r: Option<(usize, usize)>)
        requires
            self.wf(),
        ensures
            r is None <==> self.selection_start is None,
            r matches Some(p) ==> (p.0 as int, p.1 as int) == selection_range(
                self.text@,
                self.cursor_position as int,
                self.selection_start->0 as int,
            ),
            r matches Some(p) ==> p.0 <= self.cursor_position && p.0 <= p.1 <= self.text@.len(),
    {
        match self.selection_start {
            None => None,
            Some(s) => {
                let c = self.cursor_position;
                let lo = if s < c {
                    s
                } else {
                    c
                };
                let hi = if s > c {
                    s
                } else {
                    c
                };
                let len = self.len();
                Some((lo, if hi > len {
                    len
                } else {
                    hi
                }))
            },
        }
    }

    /// The selected range in bytes, if a selection is active.
    pub fn selection_byte_range(&self) -> (r: Option<(usize, usize)>)
        requires
            self.wf(),
            utf8_len(self.text@) <= usize::MAX,
        ensures
            r is None <==> self.selection_start is None,
            r matches Some(p) ==> ({
                let (lo, hi) = selection_range(
                    self.text@,
                    self.cursor_position as int,
                    self.selection_start->0 as int,
                );
                p.0 == utf8_len(self.text@.take(lo)) && p.1 == utf8_len(self.text@.take(hi))
            }),
    {
        match self.selection_range() {
            None => None,
            Some((lo, hi)) => Some((self.char_to_byte(lo), self.char_to_byte(hi))),
        }
    }

    /// The selected text, if a selection is active.
    pub fn selected_text(&self) -> (r: Option<String>)
        requires
            self.wf(),
        ensures
            opt_chars(r) == es_selected(self.state()),
    {
        match self.selection_range() {
            None => None,
            Some((lo, hi)) => {
                let v = chars_of(self.text.as_str());
                Some(string_of(&v, lo, hi))
            },
        }
    }

    /// Deletes the selected text, if any (see `es_delete_selection`).
    pub fn delete_selection(&mut self)
        requires
            old(self).wf(),
        ensures
            final(self).wf(),
            final(self).state() == es_delete_selection(old(self).state()),
    {
        match self.selection_range() {
            None => {},
            Some((lo, hi)) => {
                self.text = splice(self.text.as_str(), lo, hi, "");
                self.cursor_position = lo;
                self.selection_start = None;
                proof {
                    reveal_strlit("");
                }
            },
        }
    }

    /// Inserts `s` at the cursor and moves the cursor after it.
    pub fn insert_str(&mut self, s: &str)
        requires
            old(self).wf(),
        ensures
            final(self).wf(),
            final(self).state() == es_insert(old(self).state(), s@),
    {
        let c = self.cursor_position;
        let tail = self.len() - c;
        self.text = splice(self.text.as_str(), c, c, s);
        self.cursor_position = self.len() - tail;
    }

    /// The start of the word left of `from`.
    pub fn word_left(&self, from: usize) -> (r: usize)
        requires
            from <= self.text@.len(),
        ensures
            r == word_left_of(self.text@, from as int),
            r <= from,
    {
        let v = chars_of(self.text.as_str());
        word_left_in(&v, from)
    }

    /// The end of the word right of `from`.
    pub fn word_right(&self, from: usize) -> (r: usize)
        ensures
            r == word_right_of(self.text@, from as int),
            r <= self.text@.len(),
            from < self.text@.len() ==> from <= r,
    {
        let v = chars_of(self.text.as_str());
        word_right_in(&v, from)
    }

    /// Replaces the text, the cursor at its end, no selection.
    pub fn set_text(&mut self, text: String)
        ensures
            final(self).wf(),
            final(self).state() == es_set_text(old(self).state(), text@),
    {
        self.text = text;
        self.cursor_position = self.len();
        self.selection_start = None;
    }

    /// Replaces the text and puts the cursor at its end, leaving the
    /// selection anchor and the kill buffer alone.
    pub fn replace_text(&mut self, text: String)
        ensures
            final(self).wf(),
            final(self).state() == es_replace_text(old(self).state(), text@),
    {
        self.text = text;
        self.cursor_position = self.len();
    }

    /// Types one character, replacing the selection if any.
    pub fn insert_char(&mut self, c: char)
        requires
            old(self).wf(),
        ensures
            final(self).wf(),
            final(self).state() == es_insert_char(old(self).state(), c),
    {
        self.delete_selection();
        let mut s = String::new();
        push_char(&mut s, c);
        self.insert_str(s.as_str());
    }

    /// Inserts pasted text at the cursor, made one line (see `one_line`).
    pub fn insert_pasted(&mut self, clip: &str)
        requires
            old(self).wf(),
        ensures
            final(self).wf(),
            final(self).state() == es_insert(old(self).state(), one_line(clip@)),
    {
        let v = chars_of(clip);
        let mut s = String::new();
        let mut i: usize = 0;
        while i < v.len()
            invariant
                i <= v@.len(),
                v@ == clip@,
                s@ == one_line(v@.take(i as int)),
            decreases v.len() - i,
        {
            assert(v@.take(i + 1).drop_last() =~= v@.take(i as int));
            if v[i] == '\n' {
                push_char(&mut s, ' ');
            } else if v[i] != '\r' {
                push_char(&mut s, v[i]);
            }
            i = i + 1;
        }
        assert(v@.take(v@.len() as int) =~= v@);
        self.insert_str(s.as_str());
    }

    /// Selects the whole text, the cursor at the end.
    pub fn select_all(&mut self)
        requires
            old(self).wf(),
        ensures
            final(self).wf(),
            final(self).state() == es_select_all(old(self).state()),
    {
        self.selection_start = Some(0);
        self.cursor_position = self.len();
    }

    /// Moves the cursor to `pos`, ending any selection.
    pub fn move_to(&mut self, pos: usize)
        requires
            old(self).wf(),
            pos <= old(self).text@.len(),
        ensures
            final(self).wf(),
            final(self).state() == es_move_to(old(self).state(), pos as int),
    {
        self.selection_start = None;
        self.cursor_position = pos;
    }

    /// Moves the cursor one character left, ending any selection.
    pub fn move_left(&mut self)
        requires
            old(self).wf(),
        ensures
            final(self).wf(),
            final(self).state() == es_move_left(old(self).state()),
    {
        let c = self.cursor_position;
        self.move_to(if c > 0 { c - 1 } else { c });
    }

    /// Moves the cursor one character right, ending any selection.
    pub fn move_right(&mut self)
        requires
            old(self).wf(),
        ensures
            final(self).wf(),
            final(self).state() == es_move_right(old(self).state()),
    {
        let c = self.cursor_position;
        let n = self.len();
        self.move_to(if c < n { c + 1 } else { c });
    }

    /// Moves the cursor to `pos`, extending the selection.
    pub fn select_to(&mut self, pos: usize)
        requires
            old(self).wf(),
            pos <= old(self).text@.len(),
        ensures
            final(self).wf(),
            final(self).state() == es_select_to(old(self).state(), pos as int),
    {
        if self.selection_start.is_none() {
            self.selection_start = Some(self.cursor_position);
        }
        self.cursor_position = pos;
    }

    /// Backspace (see `es_backspace`).
    pub fn backspace(&mut self)
        requires
            old(self).wf(),
        ensures
            final(self).wf(),
            final(self).state() == es_backspace(old(self).state()),
    {
        if self.selection_start.is_some() {
            self.delete_selection();
        } else if self.cursor_position > 0 {
            let c = self.cursor_position;
            self.text = splice(self.text.as_str(), c - 1, c, "");
            self.cursor_position = c - 1;
            proof {
                reveal_strlit("");
            }
        }
    }

    /// Delete (see `es_delete_forward`).
    pub fn delete_forward(&mut self)
        requires
            old(self).wf(),
        ensures
            final(self).wf(),
            final(self).state() == es_delete_forward(old(self).state()),
    {
        if self.selection_start.is_some() {
            self.delete_selection();
        } else if self.cursor_position < self.len() {
            let c = self.cursor_position;
            self.text = splice(self.text.as_str(), c, c + 1, "");
            proof {
                reveal_strlit("");
            }
        }
    }

    /// Backward-kill-word (see `es_delete_word_before`).
    pub fn delete_word_before(&mut self)
        requires
            old(self).wf(),
        ensures
            final(self).wf(),
            final(self).state() == es_delete_word_before(old(self).state()),
    {
        if self.selection_start.is_some() {
            self.delete_selection();
        } else {
            let c = self.cursor_position;
            let w = self.word_left(c);
            if w < c {
                self.text = splice(self.text.as_str(), w, c, "");
                self.cursor_position = w;
                proof {
                    reveal_strlit("");
                }
            } else {
                proof {
                    assert(old(self).text@ =~= spliced(old(self).text@, w as int, c as int, Seq::empty()));
                }
            }
        }
    }

    /// Kill-word forward (see `es_delete_word_after`).
    pub fn delete_word_after(&mut self)
        requires
            old(self).wf(),
        ensures
            final(self).wf(),
            final(self).state() == es_delete_word_after(old(self).state()),
    {
        if self.selection_start.is_some() {
            self.delete_selection();
        } else {
            let c = self.cursor_position;
            let w = self.word_right(c);
            if w > c {
                self.text = splice(self.text.as_str(), c, w, "");
                proof {
                    reveal_strlit("");
                }
            } else {
                proof {
                    assert(old(self).text@ =~= spliced(old(self).text@, c as int, w as int, Seq::empty()));
                }
            }
        }
    }

    /// Kill-line (see `es_kill_to_end`).
    pub fn kill_to_end(&mut self)
        requires
            old(self).wf(),
        ensures
            final(self).wf(),
            final(self).state() == es_kill_to_end(old(self).state()),
    {
        if self.selection_start.is_some() {
            self.delete_selection();
        } else {
            let v = chars_of(self.text.as_str());
            let c = self.cursor_position;
            self.kill_buffer = string_of(&v, c, v.len());
            self.text = string_of(&v, 0, c);
        }
    }

    /// Kill to start (see `es_kill_to_start`).
    pub fn kill_to_start(&mut self)
        requires
            old(self).wf(),
        ensures
            final(self).wf(),
            final(self).state() == es_kill_to_start(old(self).state()),
    {
        if self.selection_start.is_some() {
            self.delete_selection();
        } else {
            let v = chars_of(self.text.as_str());
            let c = self.cursor_position;
            self.kill_buffer = string_of(&v, 0, c);
            self.text = string_of(&v, c, v.len());
            self.cursor_position = 0;
        }
    }

    /// Yank (see `es_yank`).
    pub fn yank(&mut self)
        requires
            old(self).wf(),
        ensures
            final(self).wf(),
            final(self).state() == es_yank(old(self).state()),
    {
        self.delete_selection();
        if !self.kill_buffer.as_str().is_empty() {
            let k = self.kill_buffer.clone();
            self.insert_str(k.as_str());
        } else {
            assert(self.text@ =~= spliced(self.text@, self.cursor_position as int, self.cursor_position as int, self.kill_buffer@));
        }
    }

    /// Takes the selected text out, if any (cut).
    pub fn cut_selection(&mut self) -> (r: Option<String>)
        requires
            old(self).wf(),
        ensures
            final(self).wf(),
            opt_chars(r) == es_selected(old(self).state()),
            final(self).state() == es_delete_selection(old(self).state()),
    {
        let t = self.selected_text();
        self.delete_selection();
        t
    }
}

/// The characters of an optional string.
pub open spec fn opt_chars(o: Option<String>) -> Option<Seq<char>> {
    match o {
        Some(s) => Some(s@),
        None => None,
    }
}


/// Typing a character and then pressing Backspace leaves the line as it
/// was, when no selection is active.
pub proof fn law_backspace_undoes_typing(s: EditState, c: char)
    requires
        s.sel is None,
        0 <= s.cursor <= s.text.len(),
    ensures
        es_backspace(es_insert_char(s, c)) == s,
{
    let typed = es_insert_char(s, c);
    assert(typed.text =~= s.text.subrange(0, s.cursor) + seq![c] + s.text.subrange(s.cursor, s.text.len() as int));
    assert(spliced(typed.text, s.cursor, s.cursor + 1, Seq::empty()) =~= s.text);
}

/// Killing to the end of the line and yanking puts the killed text back:
/// the line is as it was and the cursor at its end, when no selection is
/// active.
pub proof fn law_yank_restores_kill_to_end(s: EditState)
    requires
        s.sel is None,
        0 <= s.cursor <= s.text.len(),
    ensures
        es_yank(es_kill_to_end(s)) == (EditState {
            text: s.text,
            cursor: s.text.len() as int,
            sel: None,
            kill: s.text.subrange(s.cursor, s.text.len() as int),
        }),
{
    let killed = es_kill_to_end(s);
    assert(spliced(killed.text, s.cursor, s.cursor, killed.kill) =~= s.text);
}

/// Killing to the start of the line and yanking puts the killed text
/// back: the line and the cursor are as they were, when no selection is
/// active.
pub proof fn law_yank_restores_kill_to_start(s: EditState)
    requires
        s.sel is None,
        0 <= s.cursor <= s.text.len(),
    ensures
        es_yank(es_kill_to_start(s)) == (EditState { kill: s.text.subrange(0, s.cursor), ..s }),
{
    let killed = es_kill_to_start(s);
    assert(spliced(killed.text, 0, 0, killed.kill) =~= s.text);
}

} // verus!
