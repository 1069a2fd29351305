//! Input history for the SQL and shell input areas: entries are added on
//! execution (trimmed, not repeating the latest, at most
//! `MAX_SQL_HISTORY`), and Up/Down walk through them while the text being
//! typed is kept aside as a draft.
use vstd::prelude::*;
use std::collections::VecDeque;

use crate::editor::{char_count, LineEditor};
use crate::text::{chars_of, names_view, skip_ws_backward, skip_ws_forward, str_eq, string_of, trim};

verus! {

/// The most entries a history keeps; the oldest is dropped beyond it.
pub const MAX_SQL_HISTORY: usize = 100;

/// `h` after adding `t`: appended unless it equals the latest entry, and
/// the oldest dropped when the limit is exceeded.
pub open spec fn history_after_add(h: Seq<Seq<char>>, t: Seq<char>) -> Seq<Seq<char>> {
    let h1 = if h.len() > 0 && h.last() == t {
        h
    } else {
        h.push(t)
    };
    if h1.len() > MAX_SQL_HISTORY {
        h1.drop_first()
    } else {
        h1
    }
}

/// The entries executed so far and the position while browsing them.
pub struct History {
    /// Entries, oldest first.
    pub entries: VecDeque<String>,
    /// The entry shown while browsing, or `None` while typing new text.
    pub index: Option<usize>,
    /// The text that was being typed when browsing started.
    pub draft: String,
}

/// A new string with the characters of `s` without leading and trailing whitespace.
pub fn trimmed(s: &str) -> (r: String)
    ensures
        r@ == trim(s@),
{
    let v = chars_of(s);
    let a = skip_ws_forward(&v, 0, v.len());
    let b = skip_ws_backward(&v, a, v.len());
    assert(v@.subrange(0, v@.len() as int) =~= v@);
    string_of(&v, a, b)
}

/// What `History::prev` does: with an empty history or the oldest entry
/// shown nothing changes; otherwise the previous entry (the newest, when
/// browsing starts, the typed text then kept as the draft) is put in the
/// editor with the cursor at its end.
pub open spec fn prev_result(h0: History, e0: LineEditor, h1: History, e1: LineEditor, moved: bool) -> bool {
    &&& h1.entries == h0.entries
    &&& e1.selection_start == e0.selection_start
    &&& e1.kill_buffer == e0.kill_buffer
    &&& moved <==> h0.items().len() > 0 && (h0.index matches Some(i) ==> i > 0)
    &&& !moved ==> h1.index == h0.index && h1.draft == h0.draft && e1 == e0
    &&& moved ==> {
        let i = match h0.index {
            Some(i) => i - 1,
            None => h0.items().len() - 1,
        };
        &&& h1.index == Some(i as usize)
        &&& e1.text@ == h0.items()[i]
        &&& e1.cursor_position == e1.text@.len()
        &&& h0.index is None ==> h1.draft@ == e0.text@
        &&& h0.index is Some ==> h1.draft == h0.draft
    }
}

/// What `History::next` does: when not browsing nothing changes; otherwise
/// the next entry is put in the editor, or past the newest the draft comes
/// back and browsing stops; the cursor goes to the end.
pub open spec fn next_result(h0: History, e0: LineEditor, h1: History, e1: LineEditor) -> bool {
    &&& h1.entries == h0.entries
    &&& e1.selection_start == e0.selection_start
    &&& e1.kill_buffer == e0.kill_buffer
    &&& h0.index is None ==> h1.index is None && h1.draft == h0.draft && e1 == e0
    &&& h0.index is Some ==> e1.cursor_position == e1.text@.len()
    &&& h0.index is Some && h0.index->0 + 1 < h0.items().len() ==> {
        &&& h1.index == Some((h0.index->0 + 1) as usize)
        &&& e1.text@ == h0.items()[h0.index->0 + 1]
        &&& h1.draft == h0.draft
    }
    &&& h0.index is Some && h0.index->0 + 1 >= h0.items().len() ==> {
        &&& h1.index is None
        &&& e1.text@ == h0.draft@
        &&& h1.draft@ == Seq::<char>::empty()
    }
}

/// What `History::add` does: a blank entry changes nothing; otherwise the
/// trimmed entry is recorded (see `history_after_add`) and browsing stops.
pub open spec fn add_result(h0: History, h1: History, entry: Seq<char>) -> bool {
    &&& trim(entry).len() == 0 ==> h1.items() == h0.items() && h1.index == h0.index && h1.draft@
        == h0.draft@
    &&& trim(entry).len() > 0 ==> {
        &&& h1.items() == history_after_add(h0.items(), trim(entry))
        &&& h1.index is None
        &&& h1.draft@ == Seq::<char>::empty()
    }
}

/// Every entry is non-empty and equal to its trimmed form.
pub open spec fn clean_entries(h: Seq<Seq<char>>) -> bool {
    forall|i: int| 0 <= i < h.len() ==> (#[trigger] h[i]).len() > 0 && trim(h[i]) == h[i]
}

impl History {
    /// At most `MAX_SQL_HISTORY` entries, each non-empty and trimmed, no
    /// entry equal to the one after it, and the browsing index on one of
    /// them.
    pub open spec fn wf(&self) -> bool {
        &&& self.entries@.len() <= MAX_SQL_HISTORY
        &&& clean_entries(self.items())
        &&& adjacent_distinct(self.items())
        &&& self.index matches Some(i) ==> i < self.entries@.len()
    }

    /// The entries as character sequences.
    pub open spec fn items(&self) -> Seq<Seq<char>> {
        names_view(self.entries@)
    }

    /// An empty history, not browsing.
    pub fn new() -> (h: Self)
        ensures
            h.wf(),
            h.items() == Seq::<Seq<char>>::empty(),
            h.index is None,
            h.draft@ == Seq::<char>::empty(),
    {
        History { entries: VecDeque::new(), index: None, draft: String::new() }
    }

    /// Records an executed entry (trimmed; nothing when it is blank) and
    /// stops browsing.
    pub fn add(&mut self, entry: &str)
        requires
            old(self).wf(),
        ensures
            final(self).wf(),
            add_result(*old(self), *final(self), entry@),
    {
        let t = trimmed(entry);
        if t.as_str().is_empty() {
            return;
        }
        proof {
            crate::text::lemma_trim_idempotent(entry@);
            law_add_history(self.items(), trim(entry@));
        }
        let n = self.entries.len();
        let same_as_last = n > 0 && str_eq(self.entries[n - 1].as_str(), t.as_str());
        proof {
            if n > 0 {
                assert(self.items().last() == self.entries@[n - 1]@);
            }
        }
        if !same_as_last {
            self.entries.push_back(t);
            proof {
                assert(self.items() =~= old(self).items().push(trim(entry@)));
            }
            if self.entries.len() > MAX_SQL_HISTORY {
                self.entries.pop_front();
                proof {
                    assert(self.items() =~= old(self).items().push(trim(entry@)).drop_first());
                }
            }
        }
        self.index = None;
        self.draft = String::new();
    }

    /// Shows the previous (older) entry in `ed`, keeping the typed text as
    /// the draft when browsing starts. Returns whether anything changed:
    /// nothing does when the history is empty or the oldest is shown.
    pub fn prev(&mut self, ed: &mut LineEditor) -> (moved: bool)
        requires
            old(self).wf(),
        ensures
            final(self).wf(),
            prev_result(*old(self), *old(ed), *final(self), *final(ed), moved),
    {
        let n = self.entries.len();
        if n == 0 {
            return false;
        }
        let i = match self.index {
            None => {
                self.draft = ed.text.clone();
                n - 1
            },
            Some(i) => {
                if i == 0 {
                    return false;
                }
                i - 1
            },
        };
        self.index = Some(i);
        ed.text = self.entries[i].clone();
        ed.cursor_position = char_count(ed.text.as_str());
        assert(self.items()[i as int] == self.entries@[i as int]@);
        true
    }

    /// Shows the next (newer) entry in `ed`; past the newest the draft
    /// comes back and browsing stops. Nothing happens when not browsing.
    pub fn next(&mut self, ed: &mut LineEditor)
        requires
            old(self).wf(),
        ensures
            final(self).wf(),
            next_result(*old(self), *old(ed), *final(self), *final(ed)),
    {
        match self.index {
            None => {},
            Some(i) => {
                if i + 1 < self.entries.len() {
                    self.index = Some(i + 1);
                    ed.text = self.entries[i + 1].clone();
                    assert(self.items()[i + 1] == self.entries@[i + 1]@);
                } else {
                    self.index = None;
                    ed.text = self.draft.clone();
                    self.draft = String::new();
                }
                ed.cursor_position = char_count(ed.text.as_str());
            },
        }
    }
}

/// No entry equals the one right after it.
pub open spec fn adjacent_distinct(h: Seq<Seq<char>>) -> bool {
    forall|i: int, j: int| 0 <= i && j == i + 1 && j < h.len() ==> #[trigger] h[i] != #[trigger] h[j]
}

/// Going back one entry and then forward one returns to where browsing
/// was: the same index, and, when not browsing before, the same text.
pub proof fn law_next_undoes_prev(
    h0: History,
    e0: LineEditor,
    h1: History,
    e1: LineEditor,
    h2: History,
    e2: LineEditor,
)
    requires
        h0.wf(),
        prev_result(h0, e0, h1, e1, true),
        next_result(h1, e1, h2, e2),
    ensures
        h2.index == h0.index,
        h0.index is None ==> e2.text@ == e0.text@,
        h0.index matches Some(i) ==> e2.text@ == h0.items()[i as int],
{
}

/// Adding a non-empty trimmed entry keeps the history within its limit,
/// makes the entry the latest one, keeps every entry non-empty and
/// trimmed, and never puts two equal entries next to each other.
pub proof fn law_add_history(h: Seq<Seq<char>>, t: Seq<char>)
    requires
        h.len() <= MAX_SQL_HISTORY,
        t.len() > 0,
        trim(t) == t,
        clean_entries(h),
        adjacent_distinct(h),
    ensures
        history_after_add(h, t).len() <= MAX_SQL_HISTORY,
        history_after_add(h, t).len() > 0,
        history_after_add(h, t).last() == t,
        clean_entries(history_after_add(h, t)),
        adjacent_distinct(history_after_add(h, t)),
{
    let h1 = if h.len() > 0 && h.last() == t {
        h
    } else {
        h.push(t)
    };
    assert forall|i: int, j: int| 0 <= i && j == i + 1 && j < h1.len() implies #[trigger] h1[i]
        != #[trigger] h1[j] by {
        if j < h.len() {
            assert(h1[i] == h[i] && h1[j] == h[j]);
        }
    }
    assert forall|i: int| 0 <= i < h1.len() implies (#[trigger] h1[i]).len() > 0 && trim(h1[i]) == h1[i] by {
        if i < h.len() {
            assert(h1[i] == h[i]);
        }
    }
    if h1.len() > MAX_SQL_HISTORY {
        let h2 = h1.drop_first();
        assert forall|i: int, j: int| 0 <= i && j == i + 1 && j < h2.len() implies #[trigger] h2[i]
            != #[trigger] h2[j] by {
            assert(h2[i] == h1[i + 1] && h2[j] == h1[j + 1]);
        }
        assert forall|i: int| 0 <= i < h2.len() implies (#[trigger] h2[i]).len() > 0 && trim(h2[i]) == h2[i] by {
            assert(h2[i] == h1[i + 1]);
        }
    }
}

} // verus!
