//! The SQL input area of the connected screen: what each key does to the
//! text, the history and the completion popup, and what the screen has to
//! do next (run a query, copy to the clipboard, quit, ...).
use vstd::prelude::*;

use crate::completion::{
    analyze_context, cache_candidates, context_of, extract_from_panics, get_candidates,
    is_completion_separator, items_view, opt_view, token_start, try_analyze_context,
    CompletionCache, CompletionItem, ContextView, SqlContext,
};
use crate::editor::{
    char_count, es_backspace, es_delete_forward, es_delete_selection, es_delete_word_after,
    es_delete_word_before, es_kill_to_end, es_kill_to_start, es_move_left, es_move_right,
    es_move_to, es_select_all, es_select_to, es_selected, es_set_text, es_yank, es_insert_char,
    spliced, word_left_of, word_right_of, EditState, LineEditor, splice,
};
use crate::history::{history_after_add, History};
use crate::query::{is_write_sql, is_write_sql_spec};
use crate::text::{
    chars_of, is_ws, string_of, lowercased, uppercased, starts_with, str_eq, str_to_string,
    to_lowercase, to_uppercase, trim,
};
use crate::history::trimmed;
use crate::completion::str_starts_with;

verus! {

// ---------------------------------------------------------------------
// Keys
// ---------------------------------------------------------------------

/// A key, as far as the input areas tell keys apart.
#[derive(Debug, Clone, Copy, PartialEq, Eq, Structural)]
pub enum Key {
    Char(char),
    Backspace,
    Delete,
    Left,
    Right,
    Home,
    End,
    Up,
    Down,
    Enter,
    Esc,
    Tab,
    BackTab,
    Other,
}

/// The modifier keys held with a key.
#[derive(Debug, Clone, Copy, PartialEq, Eq, Structural)]
pub struct Modifiers {
    pub ctrl: bool,
    pub alt: bool,
    pub shift: bool,
}

/// What a key asks the SQL input to do.
#[derive(Debug, Clone, Copy, PartialEq, Eq, Structural)]
pub enum EditCommand {
    ShowDatabases,
    ShowTables,
    SelectColumns,
    Copy,
    Cut,
    Paste,
    SelectAll,
    CursorToEnd,
    KillToEnd,
    DeleteWordBefore,
    KillToStart,
    Yank,
    SelectWordLeft,
    SelectWordRight,
    SelectLeft,
    SelectRight,
    SelectToStart,
    SelectToEnd,
    WordLeft,
    WordRight,
    Quit,
    Insert(char),
    Backspace,
    DeleteWordAfter,
    Delete,
    Left,
    Right,
    Home,
    End,
    Submit,
    HistoryPrev,
    HistoryNext,
    Clear,
    Ignore,
}

/// The key bindings of the SQL input, the first matching rule winning:
/// Ctrl+D/T/S/C/X/V/A/E/K/W/U/Y, then Alt+Shift, Shift and Alt with the
/// arrow keys (and Alt+B/F as word moves), `q` on an empty input quits,
/// any other character is typed.
pub open spec fn key_command(key: Key, m: Modifiers, text_empty: bool) -> EditCommand {
    match key {
        Key::Char(c) => if m.ctrl && c == 'd' {
            EditCommand::ShowDatabases
        } else if m.ctrl && c == 't' {
            EditCommand::ShowTables
        } else if m.ctrl && c == 's' {
            EditCommand::SelectColumns
        } else if m.ctrl && c == 'c' {
            EditCommand::Copy
        } else if m.ctrl && c == 'x' {
            EditCommand::Cut
        } else if m.ctrl && c == 'v' {
            EditCommand::Paste
        } else if m.ctrl && c == 'a' {
            EditCommand::SelectAll
        } else if m.ctrl && c == 'e' {
            EditCommand::CursorToEnd
        } else if m.ctrl && c == 'k' {
            EditCommand::KillToEnd
        } else if m.ctrl && c == 'w' {
            EditCommand::DeleteWordBefore
        } else if m.ctrl && c == 'u' {
            EditCommand::KillToStart
        } else if m.ctrl && c == 'y' {
            EditCommand::Yank
        } else if m.alt && c == 'b' {
            EditCommand::WordLeft
        } else if m.alt && c == 'f' {
            EditCommand::WordRight
        } else if c == 'q' && text_empty {
            EditCommand::Quit
        } else {
            EditCommand::Insert(c)
        },
        Key::Left => if m.alt && m.shift {
            EditCommand::SelectWordLeft
        } else if m.shift {
            EditCommand::SelectLeft
        } else if m.alt {
            EditCommand::WordLeft
        } else {
            EditCommand::Left
        },
        Key::Right => if m.alt && m.shift {
            EditCommand::SelectWordRight
        } else if m.shift {
            EditCommand::SelectRight
        } else if m.alt {
            EditCommand::WordRight
        } else {
            EditCommand::Right
        },
        Key::Home => if m.shift {
            EditCommand::SelectToStart
        } else {
            EditCommand::Home
        },
        Key::End => if m.shift {
            EditCommand::SelectToEnd
        } else {
            EditCommand::End
        },
        Key::Backspace => if m.alt {
            EditCommand::DeleteWordBefore
        } else {
            EditCommand::Backspace
        },
        Key::Delete => if m.alt {
            EditCommand::DeleteWordAfter
        } else {
            EditCommand::Delete
        },
        Key::Enter => EditCommand::Submit,
        Key::Up => EditCommand::HistoryPrev,
        Key::Down => EditCommand::HistoryNext,
        Key::Esc => EditCommand::Clear,
        _ => EditCommand::Ignore,
    }
}

/// The command a key stands for (see `key_command`).
pub fn command_for_key(key: Key, m: Modifiers, text_empty: bool) -> (r: EditCommand)
    ensures
        r == key_command(key, m, text_empty),
{
    match key {
        Key::Char(c) => if m.ctrl && c == 'd' {
            EditCommand::ShowDatabases
        } else if m.ctrl && c == 't' {
            EditCommand::ShowTables
        } else if m.ctrl && c == 's' {
            EditCommand::SelectColumns
        } else if m.ctrl && c == 'c' {
            EditCommand::Copy
        } else if m.ctrl && c == 'x' {
            EditCommand::Cut
        } else if m.ctrl && c == 'v' {
            EditCommand::Paste
        } else if m.ctrl && c == 'a' {
            EditCommand::SelectAll
        } else if m.ctrl && c == 'e' {
            EditCommand::CursorToEnd
        } else if m.ctrl && c == 'k' {
            EditCommand::KillToEnd
        } else if m.ctrl && c == 'w' {
            EditCommand::DeleteWordBefore
        } else if m.ctrl && c == 'u' {
            EditCommand::KillToStart
        } else if m.ctrl && c == 'y' {
            EditCommand::Yank
        } else if m.alt && c == 'b' {
            EditCommand::WordLeft
        } else if m.alt && c == 'f' {
            EditCommand::WordRight
        } else if c == 'q' && text_empty {
            EditCommand::Quit
        } else {
            EditCommand::Insert(c)
        },
        Key::Left => if m.alt && m.shift {
            EditCommand::SelectWordLeft
        } else if m.shift {
            EditCommand::SelectLeft
        } else if m.alt {
            EditCommand::WordLeft
        } else {
            EditCommand::Left
        },
        Key::Right => if m.alt && m.shift {
            EditCommand::SelectWordRight
        } else if m.shift {
            EditCommand::SelectRight
        } else if m.alt {
            EditCommand::WordRight
        } else {
            EditCommand::Right
        },
        Key::Home => if m.shift {
            EditCommand::SelectToStart
        } else {
            EditCommand::Home
        },
        Key::End => if m.shift {
            EditCommand::SelectToEnd
        } else {
            EditCommand::End
        },
        Key::Backspace => if m.alt {
            EditCommand::DeleteWordBefore
        } else {
            EditCommand::Backspace
        },
        Key::Delete => if m.alt {
            EditCommand::DeleteWordAfter
        } else {
            EditCommand::Delete
        },
        Key::Enter => EditCommand::Submit,
        Key::Up => EditCommand::HistoryPrev,
        Key::Down => EditCommand::HistoryNext,
        Key::Esc => EditCommand::Clear,
        _ => EditCommand::Ignore,
    }
}

// ---------------------------------------------------------------------
// State and outcome
// ---------------------------------------------------------------------

/// The completion popup.
#[derive(Debug, Clone)]
pub struct CompletionState {
    /// The candidates shown.
    pub candidates: Vec<CompletionItem>,
    /// The highlighted candidate.
    pub selected_index: usize,
    /// The word being completed when the list was made.
    pub current_token: String,
}

impl CompletionState {
    /// The highlighted candidate is one of the list (when there is a list).
    pub open spec fn wf(&self) -> bool {
        self.candidates@.len() > 0 ==> self.selected_index < self.candidates@.len()
    }
}

/// The SQL input area.
pub struct SqlInputState {
    /// The line being edited.
    pub editor: LineEditor,
    /// The last statement run (for the table name of record templates).
    pub last_sql: String,
    /// Executed statements.
    pub history: History,
    /// The completion popup, when shown.
    pub completion_state: Option<CompletionState>,
}

impl SqlInputState {
    pub open spec fn wf(&self) -> bool {
        &&& self.editor.wf()
        &&& self.history.wf()
        &&& self.completion_state matches Some(cs) ==> cs.wf()
    }

    /// An empty input area.
    pub fn new() -> (s: Self)
        ensures
            s.wf(),
            s.editor.state() == (EditState {
                text: Seq::empty(),
                cursor: 0,
                sel: None,
                kill: Seq::empty(),
            }),
            s.history.items() == Seq::<Seq<char>>::empty(),
            s.history.index is None,
            s.history.draft@ == Seq::<char>::empty(),
            s.last_sql@ == Seq::<char>::empty(),
            s.completion_state is None,
    {
        SqlInputState {
            editor: LineEditor::new(),
            last_sql: String::new(),
            history: History::new(),
            completion_state: None,
        }
    }
}

/// What the screen does after a key.
#[derive(Debug, Clone, PartialEq, Eq)]
pub enum KeyAction {
    Nothing,
    /// Leave the application.
    Quit,
    /// Run the input as a query whose rows are shown as they arrive.
    StreamQuery,
    /// Start choosing a table and columns to build a SELECT.
    SelectColumns,
    /// Run the input in the background (USE and SET, which show no rows).
    ExecuteInBackground,
    /// Refuse the input: it writes and the connection is read-only.
    ReadonlyBlocked,
    /// Put this text on the clipboard.
    CopyToClipboard(String),
    /// Insert the clipboard's text at the cursor (see `LineEditor::insert_pasted`).
    PasteFromClipboard,
}

/// The action, whether the record preview is to be cleared, and whether
/// the completion popup is to be brought up to date.
#[derive(Debug, Clone, PartialEq, Eq)]
pub struct KeyOutcome {
    pub action: KeyAction,
    pub clear_record: bool,
    pub refresh_completion: bool,
}

/// The mathematical value of a `KeyAction`.
pub enum ActionView {
    Nothing,
    Quit,
    StreamQuery,
    SelectColumns,
    ExecuteInBackground,
    ReadonlyBlocked,
    CopyToClipboard(Seq<char>),
    PasteFromClipboard,
}

impl View for KeyAction {
    type V = ActionView;

    open spec fn view(&self) -> ActionView {
        match self {
            KeyAction::Nothing => ActionView::Nothing,
            KeyAction::Quit => ActionView::Quit,
            KeyAction::StreamQuery => ActionView::StreamQuery,
            KeyAction::SelectColumns => ActionView::SelectColumns,
            KeyAction::ExecuteInBackground => ActionView::ExecuteInBackground,
            KeyAction::ReadonlyBlocked => ActionView::ReadonlyBlocked,
            KeyAction::CopyToClipboard(t) => ActionView::CopyToClipboard(t@),
            KeyAction::PasteFromClipboard => ActionView::PasteFromClipboard,
        }
    }
}


// ---------------------------------------------------------------------
// Submitting
// ---------------------------------------------------------------------

/// The short forms `sd` and `st` (trimmed, any case) stand for SHOW
/// DATABASES and SHOW TABLES; other text is unchanged.
pub open spec fn expand_alias(t: Seq<char>) -> Seq<char> {
    let k = lowercased(trim(t));
    if k == "sd"@ {
        "SHOW DATABASES"@
    } else if k == "st"@ {
        "SHOW TABLES"@
    } else {
        t
    }
}

/// Statements that show no rows and run in the background: USE and SET
/// (the trimmed, upper-cased text starts with `USE ` or `SET `).
pub open spec fn runs_in_background(t: Seq<char>) -> bool {
    let up = uppercased(trim(t));
    starts_with(up, "USE "@) || starts_with(up, "SET "@)
}

/// The text with its alias expanded (see `expand_alias`).
pub fn expand_aliases(text: &str) -> (r: String)
    ensures
        r@ == expand_alias(text@),
{
    let lower = to_lowercase(trimmed(text).as_str());
    if str_eq(lower.as_str(), "sd") {
        str_to_string("SHOW DATABASES")
    } else if str_eq(lower.as_str(), "st") {
        str_to_string("SHOW TABLES")
    } else {
        str_to_string(text)
    }
}

/// Whether a statement runs in the background (see `runs_in_background`).
pub fn is_background_statement(text: &str) -> (r: bool)
    ensures
        r == runs_in_background(text@),
{
    let up = to_uppercase(trimmed(text).as_str());
    str_starts_with(up.as_str(), "USE ") || str_starts_with(up.as_str(), "SET ")
}

// ---------------------------------------------------------------------
// Applying a command
// ---------------------------------------------------------------------

/// The outcome with the given action, record clearing and refresh.
pub open spec fn outcome_is(out: KeyOutcome, a: ActionView, clear: bool, refresh: bool) -> bool {
    out.action@ == a && out.clear_record == clear && out.refresh_completion == refresh
}

/// What Enter does: a blank input is left alone; `sc` clears the input
/// and starts column selection; otherwise the alias is expanded, the text
/// recorded in the history and the cursor put at its end, and the
/// statement is refused if it writes on a read-only connection, run in
/// the background if it is USE or SET, and streamed otherwise.
pub open spec fn submit_post(s0: SqlInputState, s1: SqlInputState, readonly: bool, out: KeyOutcome) -> bool {
    let e0 = s0.editor.state();
    let e1 = s1.editor.state();
    let tt = trim(e0.text);
    if tt.len() == 0 {
        e1 == e0 && s1.history == s0.history && outcome_is(out, ActionView::Nothing, false, true)
    } else if lowercased(tt) == "sc"@ {
        &&& e1 == (EditState { text: Seq::empty(), cursor: 0, sel: None, ..e0 })
        &&& s1.history == s0.history
        &&& outcome_is(out, ActionView::SelectColumns, true, false)
    } else {
        let t2 = expand_alias(e0.text);
        &&& e1 == (EditState { text: t2, cursor: t2.len() as int, ..e0 })
        &&& s1.history.items() == history_after_add(s0.history.items(), trim(t2))
        &&& s1.history.index is None
        &&& s1.history.draft@ == Seq::<char>::empty()
        &&& if readonly && is_write_sql_spec(t2) {
            outcome_is(out, ActionView::ReadonlyBlocked, true, false)
        } else if runs_in_background(t2) {
            outcome_is(out, ActionView::ExecuteInBackground, true, true)
        } else {
            outcome_is(out, ActionView::StreamQuery, true, true)
        }
    }
}

/// What a command does to the input area and what it asks of the screen.
pub open spec fn command_post(
    s0: SqlInputState,
    s1: SqlInputState,
    cmd: EditCommand,
    readonly: bool,
    out: KeyOutcome,
) -> bool {
    let e0 = s0.editor.state();
    let e1 = s1.editor.state();
    let len = e0.text.len() as int;
    let same_history = s1.history == s0.history;
    let plain = |a: ActionView| outcome_is(out, a, false, true);
    &&& s1.completion_state == s0.completion_state
    &&& s1.last_sql == s0.last_sql
    &&& match cmd {
        EditCommand::ShowDatabases => e1 == es_set_text(e0, "SHOW DATABASES"@) && same_history
            && outcome_is(out, ActionView::StreamQuery, true, true),
        EditCommand::ShowTables => e1 == es_set_text(e0, "SHOW TABLES"@) && same_history
            && outcome_is(out, ActionView::StreamQuery, true, true),
        EditCommand::SelectColumns => e1 == (EditState { sel: None, ..e0 }) && same_history
            && outcome_is(out, ActionView::SelectColumns, true, true),
        EditCommand::Copy => same_history && match es_selected(e0) {
            Some(t) => e1 == (EditState { sel: None, ..e0 }) && plain(ActionView::CopyToClipboard(t)),
            None => e1 == e0 && plain(ActionView::Quit),
        },
        EditCommand::Cut => same_history && e1 == es_delete_selection(e0) && match es_selected(e0) {
            Some(t) => plain(ActionView::CopyToClipboard(t)),
            None => plain(ActionView::Nothing),
        },
        EditCommand::Paste => same_history && e1 == es_delete_selection(e0) && plain(
            ActionView::PasteFromClipboard,
        ),
        EditCommand::SelectAll => same_history && e1 == es_select_all(e0) && plain(ActionView::Nothing),
        EditCommand::CursorToEnd => same_history && e1 == es_move_to(e0, len) && plain(ActionView::Nothing),
        EditCommand::KillToEnd => same_history && e1 == es_kill_to_end(e0) && plain(ActionView::Nothing),
        EditCommand::DeleteWordBefore => same_history && e1 == es_delete_word_before(e0) && plain(
            ActionView::Nothing,
        ),
        EditCommand::KillToStart => same_history && e1 == es_kill_to_start(e0) && plain(ActionView::Nothing),
        EditCommand::Yank => same_history && e1 == es_yank(e0) && plain(ActionView::Nothing),
        EditCommand::SelectWordLeft => same_history && e1 == es_select_to(e0, word_left_of(e0.text, e0.cursor))
            && plain(ActionView::Nothing),
        EditCommand::SelectWordRight => same_history && e1 == es_select_to(
            e0,
            word_right_of(e0.text, e0.cursor),
        ) && plain(ActionView::Nothing),
        EditCommand::SelectLeft => same_history && e1 == (if e0.cursor > 0 {
            es_select_to(e0, e0.cursor - 1)
        } else {
            e0
        }) && plain(ActionView::Nothing),
        EditCommand::SelectRight => same_history && e1 == (if e0.cursor < len {
            es_select_to(e0, e0.cursor + 1)
        } else {
            e0
        }) && plain(ActionView::Nothing),
        EditCommand::SelectToStart => same_history && e1 == es_select_to(e0, 0) && plain(ActionView::Nothing),
        EditCommand::SelectToEnd => same_history && e1 == es_select_to(e0, len) && plain(ActionView::Nothing),
        EditCommand::WordLeft => same_history && e1 == es_move_to(e0, word_left_of(e0.text, e0.cursor))
            && plain(ActionView::Nothing),
        EditCommand::WordRight => same_history && e1 == es_move_to(e0, word_right_of(e0.text, e0.cursor))
            && plain(ActionView::Nothing),
        EditCommand::Quit => same_history && e1 == e0 && plain(ActionView::Quit),
        EditCommand::Insert(c) => same_history && e1 == es_insert_char(e0, c) && plain(ActionView::Nothing),
        EditCommand::Backspace => same_history && e1 == es_backspace(e0) && plain(ActionView::Nothing),
        EditCommand::DeleteWordAfter => same_history && e1 == es_delete_word_after(e0) && plain(
            ActionView::Nothing,
        ),
        EditCommand::Delete => same_history && e1 == es_delete_forward(e0) && plain(ActionView::Nothing),
        EditCommand::Left => same_history && e1 == es_move_left(e0) && plain(ActionView::Nothing),
        EditCommand::Right => same_history && e1 == es_move_right(e0) && plain(ActionView::Nothing),
        EditCommand::Home => same_history && e1 == es_move_to(e0, 0) && plain(ActionView::Nothing),
        EditCommand::End => same_history && e1 == es_move_to(e0, len) && plain(ActionView::Nothing),
        EditCommand::Submit => submit_post(s0, s1, readonly, out),
        EditCommand::HistoryPrev => {
            let h0 = s0.history;
            let moved = h0.items().len() > 0 && (h0.index matches Some(i) ==> i > 0);
            if !moved {
                same_history && e1 == e0 && outcome_is(out, ActionView::Nothing, false, false)
            } else {
                let i = match h0.index {
                    Some(i) => i - 1,
                    None => h0.items().len() - 1,
                };
                &&& s1.history.entries == h0.entries
                &&& s1.history.index == Some(i as usize)
                &&& h0.index is None ==> s1.history.draft@ == e0.text
                &&& h0.index is Some ==> s1.history.draft == h0.draft
                &&& e1 == es_set_text(e0, h0.items()[i])
                &&& plain(ActionView::Nothing)
            }
        },
        EditCommand::HistoryNext => {
            let h0 = s0.history;
            &&& plain(ActionView::Nothing)
            &&& s1.history.entries == h0.entries
            &&& match h0.index {
                None => same_history && e1 == e0,
                Some(i) => if i + 1 < h0.items().len() {
                    &&& s1.history.index == Some((i + 1) as usize)
                    &&& s1.history.draft == h0.draft
                    &&& e1 == es_set_text(e0, h0.items()[i + 1])
                } else {
                    &&& s1.history.index is None
                    &&& s1.history.draft@ == Seq::<char>::empty()
                    &&& e1 == es_set_text(e0, h0.draft@)
                },
            }
        },
        EditCommand::Clear => same_history && e1 == (EditState { text: Seq::empty(), cursor: 0, ..e0 })
            && outcome_is(out, ActionView::Nothing, true, true),
        EditCommand::Ignore => same_history && e1 == e0 && plain(ActionView::Nothing),
    }
}

fn outcome(action: KeyAction, clear_record: bool, refresh_completion: bool) -> (r: KeyOutcome)
    ensures
        r.action == action,
        r.clear_record == clear_record,
        r.refresh_completion == refresh_completion,
{
    KeyOutcome { action, clear_record, refresh_completion }
}

impl SqlInputState {
    /// Enter (see `submit_post`).
    fn submit(&mut self, readonly: bool) -> (out: KeyOutcome)
        requires
            old(self).wf(),
        ensures
            final(self).wf(),
            final(self).completion_state == old(self).completion_state,
            final(self).last_sql == old(self).last_sql,
            submit_post(*old(self), *final(self), readonly, out),
    {
        let tt = trimmed(self.editor.text.as_str());
        if tt.as_str().is_empty() {
            return outcome(KeyAction::Nothing, false, true);
        }
        let lower = to_lowercase(tt.as_str());
        if str_eq(lower.as_str(), "sc") {
            self.editor.text = String::new();
            self.editor.cursor_position = 0;
            self.editor.selection_start = None;
            return outcome(KeyAction::SelectColumns, true, false);
        }
        let expanded = expand_aliases(self.editor.text.as_str());
        proof {
            reveal_strlit("SHOW DATABASES");
            reveal_strlit("SHOW TABLES");
            assert(crate::text::trim_start("SHOW DATABASES"@) == "SHOW DATABASES"@);
            assert(crate::text::trim_end("SHOW DATABASES"@) == "SHOW DATABASES"@);
            assert(crate::text::trim_start("SHOW TABLES"@) == "SHOW TABLES"@);
            assert(crate::text::trim_end("SHOW TABLES"@) == "SHOW TABLES"@);
            assert(trim(expanded@).len() > 0);
        }
        self.history.add(expanded.as_str());
        let n = char_count(expanded.as_str());
        self.editor.text = expanded;
        self.editor.cursor_position = n;
        if readonly && is_write_sql(self.editor.text.as_str()) {
            return outcome(KeyAction::ReadonlyBlocked, true, false);
        }
        if is_background_statement(self.editor.text.as_str()) {
            outcome(KeyAction::ExecuteInBackground, true, true)
        } else {
            outcome(KeyAction::StreamQuery, true, true)
        }
    }

    /// Carries out one command (see `command_post`).
    pub fn apply_command(&mut self, cmd: EditCommand, readonly: bool) -> (out: KeyOutcome)
        requires
            old(self).wf(),
        ensures
            final(self).wf(),
            command_post(*old(self), *final(self), cmd, readonly, out),
    {
        let nothing = KeyAction::Nothing;
        match cmd {
            EditCommand::ShowDatabases => {
                self.editor.set_text(str_to_string("SHOW DATABASES"));
                outcome(KeyAction::StreamQuery, true, true)
            },
            EditCommand::ShowTables => {
                self.editor.set_text(str_to_string("SHOW TABLES"));
                outcome(KeyAction::StreamQuery, true, true)
            },
            EditCommand::SelectColumns => {
                self.editor.selection_start = None;
                outcome(KeyAction::SelectColumns, true, true)
            },
            EditCommand::Copy => {
                match self.editor.selected_text() {
                    Some(t) => {
                        self.editor.selection_start = None;
                        outcome(KeyAction::CopyToClipboard(t), false, true)
                    },
                    None => outcome(KeyAction::Quit, false, true),
                }
            },
            EditCommand::Cut => {
                match self.editor.cut_selection() {
                    Some(t) => outcome(KeyAction::CopyToClipboard(t), false, true),
                    None => outcome(nothing, false, true),
                }
            },
            EditCommand::Paste => {
                self.editor.delete_selection();
                outcome(KeyAction::PasteFromClipboard, false, true)
            },
            EditCommand::SelectAll => {
                self.editor.select_all();
                outcome(nothing, false, true)
            },
            EditCommand::CursorToEnd => {
                let n = self.editor.len();
                self.editor.move_to(n);
                outcome(nothing, false, true)
            },
            EditCommand::KillToEnd => {
                self.editor.kill_to_end();
                outcome(nothing, false, true)
            },
            EditCommand::DeleteWordBefore => {
                self.editor.delete_word_before();
                outcome(nothing, false, true)
            },
            EditCommand::KillToStart => {
                self.editor.kill_to_start();
                outcome(nothing, false, true)
            },
            EditCommand::Yank => {
                self.editor.yank();
                outcome(nothing, false, true)
            },
            EditCommand::SelectWordLeft => {
                let w = self.editor.word_left(self.editor.cursor_position);
                self.editor.select_to(w);
                outcome(nothing, false, true)
            },
            EditCommand::SelectWordRight => {
                let w = self.editor.word_right(self.editor.cursor_position);
                self.editor.select_to(w);
                outcome(nothing, false, true)
            },
            EditCommand::SelectLeft => {
                let c = self.editor.cursor_position;
                if c > 0 {
                    self.editor.select_to(c - 1);
                }
                outcome(nothing, false, true)
            },
            EditCommand::SelectRight => {
                let c = self.editor.cursor_position;
                if c < self.editor.len() {
                    self.editor.select_to(c + 1);
                }
                outcome(nothing, false, true)
            },
            EditCommand::SelectToStart => {
                self.editor.select_to(0);
                outcome(nothing, false, true)
            },
            EditCommand::SelectToEnd => {
                let n = self.editor.len();
                self.editor.select_to(n);
                outcome(nothing, false, true)
            },
            EditCommand::WordLeft => {
                let w = self.editor.word_left(self.editor.cursor_position);
                self.editor.move_to(w);
                outcome(nothing, false, true)
            },
            EditCommand::WordRight => {
                let w = self.editor.word_right(self.editor.cursor_position);
                self.editor.move_to(w);
                outcome(nothing, false, true)
            },
            EditCommand::Quit => outcome(KeyAction::Quit, false, true),
            EditCommand::Insert(c) => {
                self.editor.insert_char(c);
                outcome(nothing, false, true)
            },
            EditCommand::Backspace => {
                self.editor.backspace();
                outcome(nothing, false, true)
            },
            EditCommand::DeleteWordAfter => {
                self.editor.delete_word_after();
                outcome(nothing, false, true)
            },
            EditCommand::Delete => {
                self.editor.delete_forward();
                outcome(nothing, false, true)
            },
            EditCommand::Left => {
                self.editor.move_left();
                outcome(nothing, false, true)
            },
            EditCommand::Right => {
                self.editor.move_right();
                outcome(nothing, false, true)
            },
            EditCommand::Home => {
                self.editor.move_to(0);
                outcome(nothing, false, true)
            },
            EditCommand::End => {
                let n = self.editor.len();
                self.editor.move_to(n);
                outcome(nothing, false, true)
            },
            EditCommand::Submit => self.submit(readonly),
            EditCommand::HistoryPrev => {
                let moved = self.history.prev(&mut self.editor);
                if !moved {
                    return outcome(nothing, false, false);
                }
                self.editor.selection_start = None;
                outcome(nothing, false, true)
            },
            EditCommand::HistoryNext => {
                let browsing = self.history.index.is_some();
                self.history.next(&mut self.editor);
                if browsing {
                    self.editor.selection_start = None;
                }
                outcome(nothing, false, true)
            },
            EditCommand::Clear => {
                self.editor.text = String::new();
                self.editor.cursor_position = 0;
                outcome(nothing, true, true)
            },
            EditCommand::Ignore => outcome(nothing, false, true),
        }
    }
}


// ---------------------------------------------------------------------
// The completion popup's keys
// ---------------------------------------------------------------------

/// The keys the popup takes for itself while it is shown.
pub open spec fn popup_key(key: Key) -> bool {
    key == Key::Tab || key == Key::Down || key == Key::BackTab || key == Key::Up || key == Key::Enter
        || key == Key::Esc
}

/// Confirming the highlighted candidate: the word before the cursor is
/// replaced by it, the cursor goes after it, the selection and the popup
/// end. Without a highlighted candidate only the popup ends.
pub open spec fn confirm_post(s0: SqlInputState, s1: SqlInputState) -> bool {
    let cs = s0.completion_state->0;
    let e0 = s0.editor.state();
    let e1 = s1.editor.state();
    &&& s1.completion_state is None
    &&& s1.history == s0.history
    &&& s1.last_sql == s0.last_sql
    &&& if cs.selected_index < cs.candidates@.len() {
        let item = cs.candidates@[cs.selected_index as int].text@;
        let ts = token_start(e0.text.take(e0.cursor));
        e1 == (EditState {
            text: spliced(e0.text, ts, e0.cursor, item),
            cursor: ts + item.len(),
            sel: None,
            ..e0
        })
    } else {
        e1 == e0
    }
}

/// What a popup key does: Tab and Down highlight the next candidate (an
/// empty list closes the popup), BackTab and Up the previous one, both
/// wrapping around; Enter confirms; Esc closes the popup.
pub open spec fn popup_key_post(s0: SqlInputState, s1: SqlInputState, key: Key) -> bool {
    let cs = s0.completion_state->0;
    let n = cs.candidates@.len();
    let i = cs.selected_index as int;
    let rest_same = s1.editor == s0.editor && s1.history == s0.history && s1.last_sql == s0.last_sql;
    let highlight = |j: int|
        s1.completion_state matches Some(c) && c.candidates == cs.candidates && c.current_token
            == cs.current_token && c.selected_index == j;
    if key == Key::Tab || key == Key::Down {
        rest_same && if n == 0 {
            s1.completion_state is None
        } else {
            highlight((i + 1) % (n as int))
        }
    } else if key == Key::BackTab || key == Key::Up {
        rest_same && if n == 0 {
            s1.completion_state == s0.completion_state
        } else {
            highlight((i + n - 1) % (n as int))
        }
    } else if key == Key::Enter {
        confirm_post(s0, s1)
    } else {
        rest_same && s1.completion_state is None
    }
}

/// The start of the word that ends at `k` in `v`.
fn token_start_in(v: &Vec<char>, k: usize) -> (r: usize)
    requires
        k <= v@.len(),
    ensures
        r == token_start(v@.take(k as int)),
        r <= k,
{
    let ghost before = v@.take(k as int);
    let mut start = k;
    assert(before.take(k as int) =~= before);
    while start > 0 && !is_completion_separator(v[start - 1])
        invariant
            start <= k <= v@.len(),
            before == v@.take(k as int),
            token_start(before) == token_start(before.take(start as int)),
        decreases start,
    {
        assert(before.take(start as int).drop_last() =~= before.take(start - 1));
        start = start - 1;
    }
    proof {
        if start > 0 {
            assert(before.take(start as int).last() == v@[start - 1]);
        }
    }
    start
}

impl SqlInputState {
    /// Inserts the highlighted candidate (see `confirm_post`).
    pub fn confirm_completion(&mut self)
        requires
            old(self).wf(),
            old(self).completion_state is Some,
        ensures
            final(self).wf(),
            confirm_post(*old(self), *final(self)),
    {
        let cs = match self.completion_state.take() {
            Some(cs) => cs,
            None => {
                return;
            },
        };
        if cs.selected_index >= cs.candidates.len() {
            return;
        }
        let item = &cs.candidates[cs.selected_index].text;
        let v = chars_of(self.editor.text.as_str());
        let c = self.editor.cursor_position;
        let ts = token_start_in(&v, c);
        let tail = v.len() - c;
        self.editor.text = splice(self.editor.text.as_str(), ts, c, item.as_str());
        self.editor.cursor_position = self.editor.len() - tail;
        self.editor.selection_start = None;
    }

    /// Handles a key while the popup is shown; returns whether the popup
    /// took it (see `popup_key_post`).
    pub fn handle_completion_key(&mut self, key: Key) -> (consumed: bool)
        requires
            old(self).wf(),
            old(self).completion_state is Some,
        ensures
            final(self).wf(),
            consumed == popup_key(key),
            consumed ==> popup_key_post(*old(self), *final(self), key),
            !consumed ==> *final(self) == *old(self),
    {
        match key {
            Key::Tab | Key::Down => {
                let n = match &self.completion_state {
                    Some(cs) => cs.candidates.len(),
                    None => 0,
                };
                if n == 0 {
                    self.completion_state = None;
                } else {
                    match &mut self.completion_state {
                        Some(cs) => {
                            cs.selected_index = (cs.selected_index + 1) % n;
                        },
                        None => {},
                    }
                }
                true
            },
            Key::BackTab | Key::Up => {
                match &mut self.completion_state {
                    Some(cs) => {
                        let n = cs.candidates.len();
                        if n > 0 {
                            let i = cs.selected_index;
                            cs.selected_index = if i == 0 {
                                n - 1
                            } else {
                                i - 1
                            };
                            proof {
                                let ni = n as int;
                                let ii = i as int;
                                if ii == 0 {
                                    assert((ii + ni - 1) % ni == ni - 1) by (nonlinear_arith)
                                        requires
                                            ii == 0,
                                            ni > 0,
                                    ;
                                } else {
                                    assert((ii + ni - 1) % ni == ii - 1) by (nonlinear_arith)
                                        requires
                                            0 < ii < ni,
                                    ;
                                }
                            }
                        }
                    },
                    None => {},
                }
                true
            },
            Key::Enter => {
                self.confirm_completion();
                true
            },
            Key::Esc => {
                self.completion_state = None;
                true
            },
            _ => false,
        }
    }

    /// A key on the connected screen: the popup, when shown, takes its
    /// keys first (see `popup_key_post`); any other key is carried out as
    /// its command (see `key_command` and `command_post`).
    pub fn handle_connected_key(&mut self, key: Key, mods: Modifiers, readonly: bool) -> (out: KeyOutcome)
        requires
            old(self).wf(),
        ensures
            final(self).wf(),
            old(self).completion_state is Some && popup_key(key) ==> popup_key_post(
                *old(self),
                *final(self),
                key,
            ) && outcome_is(out, ActionView::Nothing, false, false),
            !(old(self).completion_state is Some && popup_key(key)) ==> command_post(
                *old(self),
                *final(self),
                key_command(key, mods, old(self).editor.text@.len() == 0),
                readonly,
                out,
            ),
    {
        if self.completion_state.is_some() {
            if self.handle_completion_key(key) {
                return outcome(KeyAction::Nothing, false, false);
            }
        }
        let cmd = command_for_key(key, mods, self.editor.text.as_str().is_empty());
        self.apply_command(cmd, readonly)
    }
}


// ---------------------------------------------------------------------
// Bringing the popup up to date
// ---------------------------------------------------------------------

/// Where the last whitespace-separated segment of `s` starts.
pub open spec fn last_segment_start(s: Seq<char>) -> int
    decreases s.len(),
{
    if s.len() == 0 {
        0
    } else if is_ws(s.last()) {
        s.len() as int
    } else {
        last_segment_start(s.drop_last())
    }
}

/// `s` without leading backticks.
pub open spec fn strip_backticks_start(s: Seq<char>) -> Seq<char>
    decreases s.len(),
{
    if s.len() > 0 && s[0] == '`' {
        strip_backticks_start(s.drop_first())
    } else {
        s
    }
}

/// `s` without trailing backticks.
pub open spec fn strip_backticks_end(s: Seq<char>) -> Seq<char>
    decreases s.len(),
{
    if s.len() > 0 && s.last() == '`' {
        strip_backticks_end(s.drop_last())
    } else {
        s
    }
}

/// The database named before a `.` that ends `t[..ts]`: the last
/// whitespace-separated segment before the dot, backticks stripped from
/// both ends, when not empty (the `db.table` form).
pub open spec fn qualifier_of(t: Seq<char>, ts: int) -> Option<Seq<char>> {
    if ts > 0 && t[ts - 1] == '.' {
        let d = t.take(ts - 1);
        let q = strip_backticks_end(strip_backticks_start(d.skip(last_segment_start(d))));
        if q.len() > 0 {
            Some(q)
        } else {
            None
        }
    } else {
        None
    }
}

/// What to do with the popup after an edit.
pub enum CompletionRequest {
    /// Leave it as it is (nothing typed and no popup).
    Keep,
    /// Close it (nothing typed).
    Close,
    /// Look up candidates for the word in this context.
    Lookup { token: String, context: SqlContext },
}

/// The word before the cursor, and the context the popup looks it up in:
/// `db.` before the word asks for that database's tables; a table asked
/// for while no database is selected becomes a database; otherwise the
/// context of the text before the cursor.
pub open spec fn completion_request_spec(
    t: Seq<char>,
    c: int,
    popup_open: bool,
    database_selected: bool,
) -> Option<(Seq<char>, ContextView)> {
    let before = t.take(c);
    let ts = token_start(before);
    let token = before.skip(ts);
    if token.len() == 0 {
        None
    } else {
        let ctx0 = context_of(before);
        let ctx = match qualifier_of(t, ts) {
            Some(db) => ContextView::DatabaseTableName(db),
            None => if !database_selected && ctx0 == ContextView::TableName {
                ContextView::DatabaseName
            } else {
                ctx0
            },
        };
        Some((token, ctx))
    }
}

/// The completion context may need the table after FROM, which needs the
/// text after FROM to be sliceable.
pub open spec fn request_sliceable(t: Seq<char>, c: int) -> bool {
    let before = t.take(c);
    before.skip(token_start(before)).len() > 0 && context_of(before) is ColumnName
        ==> !extract_from_panics(before)
}

/// Strips backticks from both ends of `v[a..b]`, returning the new bounds.
fn strip_backticks_in(v: &Vec<char>, a: usize, b: usize) -> (r: (usize, usize))
    requires
        a <= b <= v@.len(),
    ensures
        a <= r.0 <= r.1 <= b,
        strip_backticks_end(strip_backticks_start(v@.subrange(a as int, b as int))) == v@.subrange(
            r.0 as int,
            r.1 as int,
        ),
{
    let mut i = a;
    while i < b && v[i] == '`'
        invariant
            a <= i <= b <= v@.len(),
            strip_backticks_start(v@.subrange(a as int, b as int)) == strip_backticks_start(
                v@.subrange(i as int, b as int),
            ),
        decreases b - i,
    {
        assert(v@.subrange(i as int, b as int).drop_first() =~= v@.subrange(i + 1, b as int));
        i = i + 1;
    }
    let mut j = b;
    while j > i && v[j - 1] == '`'
        invariant
            a <= i <= j <= b <= v@.len(),
            strip_backticks_end(v@.subrange(i as int, b as int)) == strip_backticks_end(
                v@.subrange(i as int, j as int),
            ),
        decreases j,
    {
        assert(v@.subrange(i as int, j as int).drop_last() =~= v@.subrange(i as int, j - 1));
        j = j - 1;
    }
    (i, j)
}

/// The qualifying database before the word at `ts` (see `qualifier_of`).
fn qualifier_in(v: &Vec<char>, ts: usize) -> (r: Option<String>)
    requires
        ts <= v@.len(),
    ensures
        opt_view(r) == qualifier_of(v@, ts as int),
{
    if ts > 0 && v[ts - 1] == '.' {
        let d_end = ts - 1;
        let ghost d = v@.take(d_end as int);
        let mut st = d_end;
        assert(d.take(d_end as int) =~= d);
        while st > 0 && !crate::text::is_whitespace(v[st - 1])
            invariant
                st <= d_end < v@.len(),
                d == v@.take(d_end as int),
                last_segment_start(d) == last_segment_start(d.take(st as int)),
            decreases st,
        {
            assert(d.take(st as int).drop_last() =~= d.take(st - 1));
            st = st - 1;
        }
        proof {
            if st > 0 {
                assert(d.take(st as int).last() == v@[st - 1]);
            }
            assert(d.take(st as int).take(st as int) =~= d.take(st as int));
            assert(d.skip(st as int) =~= v@.subrange(st as int, d_end as int));
        }
        let (a, b) = strip_backticks_in(v, st, d_end);
        if a < b {
            Some(string_of(v, a, b))
        } else {
            None
        }
    } else {
        None
    }
}

/// What the popup should do after an edit (see `completion_request_spec`).
pub fn completion_request(ed: &LineEditor, popup_open: bool, database_selected: bool) -> (r: CompletionRequest)
    requires
        ed.wf(),
        request_sliceable(ed.text@, ed.cursor_position as int),
    ensures
        match completion_request_spec(ed.text@, ed.cursor_position as int, popup_open, database_selected) {
            None => if popup_open {
                r is Close
            } else {
                r is Keep
            },
            Some((token, ctx)) => r matches CompletionRequest::Lookup { token: t, context: c }
                && t@ == token && c@ == ctx,
        },
{
    let v = chars_of(ed.text.as_str());
    let c = ed.cursor_position;
    let ts = token_start_in(&v, c);
    let ghost before = v@.take(c as int);
    if ts == c {
        assert(before.skip(ts as int).len() == 0);
        return if popup_open {
            CompletionRequest::Close
        } else {
            CompletionRequest::Keep
        };
    }
    let token = string_of(&v, ts, c);
    let sql_before = string_of(&v, 0, c);
    assert(token@ =~= before.skip(ts as int));
    assert(sql_before@ =~= before);
    let ctx0 = analyze_context(sql_before.as_str());
    let context = match qualifier_in(&v, ts) {
        Some(db) => SqlContext::DatabaseTableName { database: db },
        None => {
            let is_table = match ctx0 {
                SqlContext::TableName => true,
                _ => false,
            };
            if !database_selected && is_table {
                SqlContext::DatabaseName
            } else {
                ctx0
            }
        },
    };
    CompletionRequest::Lookup { token, context }
}

/// The request, or `None` where looking up the context would need to
/// slice the text after FROM where it cannot be sliced.
pub fn try_completion_request(ed: &LineEditor, popup_open: bool, database_selected: bool) -> (r: Option<CompletionRequest>)
    requires
        ed.wf(),
    ensures
        r is None <==> !request_sliceable(ed.text@, ed.cursor_position as int),
        r matches Some(q) ==> match completion_request_spec(
            ed.text@,
            ed.cursor_position as int,
            popup_open,
            database_selected,
        ) {
            None => if popup_open {
                q is Close
            } else {
                q is Keep
            },
            Some((token, ctx)) => q matches CompletionRequest::Lookup { token: t, context: c }
                && t@ == token && c@ == ctx,
        },
{
    let v = chars_of(ed.text.as_str());
    let c = ed.cursor_position;
    let ts = token_start_in(&v, c);
    let sql_before = string_of(&v, 0, c);
    assert(sql_before@ =~= v@.take(c as int));
    if ts < c {
        match try_analyze_context(sql_before.as_str()) {
            None => {
                return None;
            },
            Some(_) => {},
        }
    }
    Some(completion_request(ed, popup_open, database_selected))
}

impl SqlInputState {
    /// Shows the candidates for `token` in `context` from `cache`: none
    /// closes the popup; otherwise the highlight stays where it was (moved
    /// back onto the list when the list got shorter) or starts at the first.
    pub fn show_candidates(&mut self, token: String, context: &SqlContext, cache: &CompletionCache)
        requires
            old(self).wf(),
        ensures
            final(self).wf(),
            final(self).editor == old(self).editor,
            final(self).history == old(self).history,
            final(self).last_sql == old(self).last_sql,
            cache_candidates(token@, context@, cache).len() == 0 ==> final(self).completion_state is None,
            cache_candidates(token@, context@, cache).len() > 0 ==> (final(self).completion_state matches Some(cs)
                && items_view(cs.candidates@) == cache_candidates(token@, context@, cache)
                && cs.current_token@ == token@ && cs.selected_index == match old(self).completion_state {
                Some(old_cs) => if old_cs.selected_index < cs.candidates@.len() - 1 {
                    old_cs.selected_index as int
                } else {
                    cs.candidates@.len() - 1
                },
                None => 0,
            }),
    {
        let candidates = get_candidates(token.as_str(), context, cache);
        let n = candidates.len();
        if n == 0 {
            self.completion_state = None;
            return;
        }
        let selected_index = match &self.completion_state {
            Some(cs) => if cs.selected_index < n - 1 {
                cs.selected_index
            } else {
                n - 1
            },
            None => 0,
        };
        self.completion_state = Some(CompletionState { candidates, selected_index, current_token: token });
    }
}

} // verus!
