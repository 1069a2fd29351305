//! The decisions of the interactive session around the SQL input: which
//! input area has the focus, the shell and prompt input areas, what
//! follows the result picker, how a finished query or prompt request
//! changes the screen, and how a shell command is started.
use vstd::prelude::*;

use crate::completion::opt_view;
use crate::config::{BastionConfig, BastionSetting, ConnectionConfig};
use crate::editor::{
    es_backspace, es_delete_forward, es_delete_selection, es_delete_word_after,
    es_delete_word_before, es_insert_char, es_kill_to_end, es_kill_to_start, es_move_left,
    es_move_right, es_move_to, es_select_all, es_select_to, es_selected, es_set_text, es_replace_text, es_yank,
    word_left_of, word_right_of, EditState, LineEditor,
};
use crate::error::{error_text, Error};
use crate::history::History;
use crate::query::QueryResult;
use crate::i18n::{Lang, TuiMsg};
use crate::result_actions::{
    ascii_words, normalize_sql_to_oneliner, try_database_from_use, use_sliceable,
    used_database, SelectedRecord, SkimAction,
};

use crate::sql_input::{
    command_for_key, is_background_statement, key_command, runs_in_background, EditCommand, Key,
    Modifiers, SqlInputState,
};
use crate::text::{concat2, decimal, decimal_string, joined, str_to_string, trim};
use crate::history::trimmed;

verus! {

// ---------------------------------------------------------------------
// Focus
// ---------------------------------------------------------------------

/// The input area that receives typed keys.
#[derive(Debug, Clone, Copy, PartialEq, Eq, Structural)]
pub enum InputFocus {
    /// The SQL input (where the session starts).
    Sql,
    /// The shell command input.
    Shell,
    /// The natural-language prompt input.
    Prompt,
}

impl Default for InputFocus {
    fn default() -> (f: InputFocus)
        ensures
            f == InputFocus::Sql,
    {
        InputFocus::Sql
    }
}

impl InputFocus {
    /// The area Tab moves to: SQL, shell, prompt and back to SQL; the
    /// prompt is skipped when it is not available (no API key).
    pub fn next(self, prompt_available: bool) -> (f: InputFocus)
        ensures
            f == (match self {
                InputFocus::Sql => InputFocus::Shell,
                InputFocus::Shell => if prompt_available {
                    InputFocus::Prompt
                } else {
                    InputFocus::Sql
                },
                InputFocus::Prompt => InputFocus::Sql,
            }),
    {
        match self {
            InputFocus::Sql => InputFocus::Shell,
            InputFocus::Shell => if prompt_available {
                InputFocus::Prompt
            } else {
                InputFocus::Sql
            },
            InputFocus::Prompt => InputFocus::Sql,
        }
    }
}

/// Whether the session is read-only: the command line's `--readonly`
/// applies to every connection, and a connection can ask for it itself.
pub fn effective_readonly(cli_readonly: bool, conn: &ConnectionConfig) -> (r: bool)
    ensures
        r == (cli_readonly || conn.readonly),
{
    cli_readonly || conn.readonly
}

/// Whether a key moves the focus on (see `InputFocus::next`): Tab does,
/// except in the SQL input while the completion popup is open, where it
/// moves the popup's highlight instead.
pub fn tab_switches_focus(focus: InputFocus, key: Key, popup_open: bool) -> (r: bool)
    ensures
        r == (key == Key::Tab && !(focus == InputFocus::Sql && popup_open)),
{
    match key {
        Key::Tab => !(focus == InputFocus::Sql && popup_open),
        _ => false,
    }
}

// ---------------------------------------------------------------------
// The shell input
// ---------------------------------------------------------------------

/// The shell command input: its editor, its history and the command
/// waiting to run once the screen is released.
pub struct ShellInputState {
    pub editor: LineEditor,
    pub history: History,
    pub pending_command: Option<String>,
}

impl ShellInputState {
    /// The editor is consistent and the history within its bounds.
    pub open spec fn wf(&self) -> bool {
        self.editor.wf() && self.history.wf()
    }

    /// An empty shell input with no history and nothing pending.
    pub fn new() -> (s: Self)
        ensures
            s.wf(),
            s.editor.state() == (EditState {
                text: Seq::empty(),
                cursor: 0,
                sel: None,
                kill: Seq::empty(),
            }),
            s.history.items() == Seq::<Seq<char>>::empty(),
            s.history.index is None,
            s.pending_command is None,
    {
        ShellInputState { editor: LineEditor::new(), history: History::new(), pending_command: None }
    }

    /// Records a run command in the shell history (see `History::add`).
    pub fn add_to_history(&mut self, cmd: &str)
        requires
            old(self).wf(),
        ensures
            final(self).wf(),
            final(self).editor == old(self).editor,
            final(self).pending_command == old(self).pending_command,
            crate::history::add_result(old(self).history, final(self).history, cmd@),
    {
        self.history.add(cmd);
    }

    /// Shows the previous (older) shell command (see `History::prev`).
    pub fn history_prev(&mut self)
        requires
            old(self).wf(),
        ensures
            final(self).wf(),
            final(self).pending_command == old(self).pending_command,
            exists|moved: bool|
                crate::history::prev_result(
                    old(self).history,
                    old(self).editor,
                    final(self).history,
                    final(self).editor,
                    moved,
                ),
    {
        let moved = self.history.prev(&mut self.editor);
        let _ = moved;
    }

    /// Shows the next (newer) shell command, or the draft past the newest
    /// (see `History::next`).
    pub fn history_next(&mut self)
        requires
            old(self).wf(),
        ensures
            final(self).wf(),
            final(self).pending_command == old(self).pending_command,
            crate::history::next_result(
                old(self).history,
                old(self).editor,
                final(self).history,
                final(self).editor,
            ),
    {
        self.history.next(&mut self.editor);
    }
}

/// The program and arguments that run a shell command: through `ssh` on
/// the bastion (port, `user@host`, the key file when one is set, then the
/// command) when the connection goes through one, otherwise `sh -c` here.
pub open spec fn shell_argv(cmd: Seq<char>, bastion: Option<BastionConfig>) -> Seq<Seq<char>> {
    match bastion {
        Some(b) => seq!["ssh"@, "-p"@, decimal(b.port as nat), b.user@ + "@"@ + b.host@] + match b.key_path {
            Some(k) => seq!["-i"@, k@],
            None => Seq::empty(),
        } + seq![cmd],
        None => seq!["sh"@, "-c"@, cmd],
    }
}

/// The strings of a list as character sequences.
pub open spec fn strings_view(v: Seq<String>) -> Seq<Seq<char>> {
    v.map_values(|s: String| s@)
}

fn push_arg(v: &mut Vec<String>, s: String)
    ensures
        strings_view(final(v)@) == strings_view(old(v)@).push(s@),
{
    let ghost before = v@;
    v.push(s);
    assert(strings_view(v@) =~= strings_view(before).push(s@));
}

/// The command line for a shell command (see `shell_argv`).
pub fn shell_command_argv(cmd: &str, bastion: Option<&BastionConfig>) -> (r: Vec<String>)
    ensures
        strings_view(r@) == shell_argv(
            cmd@,
            match bastion {
                Some(b) => Some(*b),
                None => None,
            },
        ),
{
    let mut v: Vec<String> = Vec::new();
    assert(strings_view(v@) =~= Seq::<Seq<char>>::empty());
    match bastion {
        Some(b) => {
            push_arg(&mut v, str_to_string("ssh"));
            push_arg(&mut v, str_to_string("-p"));
            push_arg(&mut v, decimal_string(b.port as u128));
            let mut target = b.user.clone();
            target.append("@");
            target.append(b.host.as_str());
            push_arg(&mut v, target);
            match &b.key_path {
                Some(k) => {
                    push_arg(&mut v, str_to_string("-i"));
                    push_arg(&mut v, k.clone());
                },
                None => {},
            }
            push_arg(&mut v, str_to_string(cmd));
        },
        None => {
            push_arg(&mut v, str_to_string("sh"));
            push_arg(&mut v, str_to_string("-c"));
            push_arg(&mut v, str_to_string(cmd));
        },
    }
    assert(strings_view(v@) =~= shell_argv(
        cmd@,
        match bastion {
            Some(b) => Some(*b),
            None => None,
        },
    ));
    v
}

/// The bastion a connection goes through (after its settings were
/// resolved, only an own bastion remains).
pub fn connection_bastion(conn: &ConnectionConfig) -> (r: Option<&BastionConfig>)
    ensures
        match conn.bastion {
            Some(BastionSetting::Config(b)) => r == Some(&b),
            _ => r is None,
        },
{
    match &conn.bastion {
        Some(BastionSetting::Config(b)) => Some(b),
        _ => None,
    }
}

// ---------------------------------------------------------------------
// The prompt input
// ---------------------------------------------------------------------

/// The prompt input: its editor, whether a request is under way, the
/// last failure and the frame counter of the waiting animation.
pub struct PromptInputState {
    pub editor: LineEditor,
    pub is_processing: bool,
    pub last_error: Option<String>,
    pub loading_tick: u8,
}

impl PromptInputState {
    /// An empty prompt input, idle.
    pub fn new() -> (p: Self)
        ensures
            p.editor.wf(),
            p.editor.state() == (EditState {
                text: Seq::empty(),
                cursor: 0,
                sel: None,
                kill: Seq::empty(),
            }),
            !p.is_processing,
            p.last_error is None,
            p.loading_tick == 0,
    {
        PromptInputState {
            editor: LineEditor::new(),
            is_processing: false,
            last_error: None,
            loading_tick: 0,
        }
    }

    /// Advances the waiting animation by one frame while a request is under
    /// way (the counter wraps around).
    pub fn tick(&mut self)
        ensures
            final(self).editor == old(self).editor,
            final(self).is_processing == old(self).is_processing,
            final(self).last_error == old(self).last_error,
            final(self).loading_tick == (if old(self).is_processing {
                ((old(self).loading_tick + 1) % 256) as u8
            } else {
                old(self).loading_tick
            }),
    {
        if self.is_processing {
            self.loading_tick = self.loading_tick.wrapping_add(1);
        }
    }
}

/// How a prompt request ended.
pub enum PromptOutcome {
    /// The agent produced this SQL.
    Generated(String),
    /// The agent failed.
    Failed(Error),
    /// The request's task stopped abnormally, for this reason.
    Crashed(String),
}

/// The message shown when the request's task stopped abnormally.
pub open spec fn crashed_text(detail: Seq<char>) -> Seq<char> {
    "タスクが異常終了しました: "@ + detail
}

/// Takes in the end of a prompt request: generated SQL goes into the SQL
/// input as one line (cursor at its end) and the focus moves there; a
/// failure is kept as the prompt's error in `lang`. Either way the request
/// is over and the animation stops.
pub fn apply_prompt_outcome(
    prompt: &mut PromptInputState,
    sql: &mut SqlInputState,
    focus: &mut InputFocus,
    outcome: PromptOutcome,
    lang: Lang,
)
    requires
        old(sql).wf(),
    ensures
        final(sql).wf(),
        !final(prompt).is_processing,
        final(prompt).loading_tick == 0,
        final(prompt).editor == old(prompt).editor,
        final(sql).history == old(sql).history,
        final(sql).last_sql == old(sql).last_sql,
        final(sql).completion_state == old(sql).completion_state,
        match outcome {
            PromptOutcome::Generated(s) => {
                &&& final(sql).editor.state() == es_replace_text(
                    old(sql).editor.state(),
                    joined(ascii_words(s@), " "@),
                )
                &&& final(prompt).last_error is None
                &&& *final(focus) == InputFocus::Sql
            },
            PromptOutcome::Failed(e) => {
                &&& final(sql).editor == old(sql).editor
                &&& final(prompt).last_error matches Some(m) && m@ == error_text(e, lang)
                &&& *final(focus) == *old(focus)
            },
            PromptOutcome::Crashed(d) => {
                &&& final(sql).editor == old(sql).editor
                &&& final(prompt).last_error matches Some(m) && m@ == crashed_text(d@)
                &&& *final(focus) == *old(focus)
            },
        },
{
    match outcome {
        PromptOutcome::Generated(s) => {
            let line = normalize_sql_to_oneliner(s.as_str());
            sql.editor.replace_text(line);
            prompt.last_error = None;
            *focus = InputFocus::Sql;
        },
        PromptOutcome::Failed(e) => {
            prompt.last_error = Some(e.user_message(lang));
        },
        PromptOutcome::Crashed(d) => {
            prompt.last_error = Some(concat2("タスクが異常終了しました: ", d.as_str()));
        },
    }
    prompt.is_processing = false;
    prompt.loading_tick = 0;
}

// ---------------------------------------------------------------------
// After the result picker
// ---------------------------------------------------------------------

/// What runs next after the result picker closed.
#[derive(Debug, Clone, Copy, PartialEq, Eq, Structural)]
pub enum FollowUp {
    /// Nothing; the SQL input waits.
    Nothing,
    /// Run the input as a plain command in the background (USE, SET).
    RunCommand,
    /// Run the input and stream its rows into the picker.
    Stream,
    /// Run the input in the background and show its result when done.
    Execute,
}

/// Takes in what the result picker chose. Drilling down puts the new
/// statement in the input (cursor at its end), records it in the history
/// and runs it: from a streamed result USE and SET run as commands and
/// other statements stream, from a finished result it runs in the
/// background. Choosing a record puts its WHERE template in the input
/// and shows the record. Closing the picker clears the input after a
/// streamed result and leaves it alone after a finished one.
pub fn apply_result_action(
    sql: &mut SqlInputState,
    selected_record: &mut Option<SelectedRecord>,
    action: Option<SkimAction>,
    streamed: bool,
) -> (next: FollowUp)
    requires
        old(sql).wf(),
    ensures
        final(sql).wf(),
        final(sql).last_sql == old(sql).last_sql,
        final(sql).completion_state == old(sql).completion_state,
        match action {
            Some(SkimAction::DrillDown(s)) => {
                &&& final(sql).editor.state() == es_replace_text(old(sql).editor.state(), s@)
                &&& crate::history::add_result(old(sql).history, final(sql).history, s@)
                &&& *final(selected_record) is None
                &&& next == (if !streamed {
                    FollowUp::Execute
                } else if runs_in_background(s@) {
                    FollowUp::RunCommand
                } else {
                    FollowUp::Stream
                })
            },
            Some(SkimAction::SelectRecord { where_template, record }) => {
                &&& final(sql).editor.state() == es_replace_text(
                    old(sql).editor.state(),
                    where_template@,
                )
                &&& final(sql).history == old(sql).history
                &&& *final(selected_record) == Some(record)
                &&& next == FollowUp::Nothing
            },
            None => {
                &&& (if streamed {
                    final(sql).editor.state() == es_replace_text(old(sql).editor.state(), Seq::empty())
                } else {
                    final(sql).editor == old(sql).editor
                })
                &&& final(sql).history == old(sql).history
                &&& *final(selected_record) == *old(selected_record)
                &&& next == FollowUp::Nothing
            },
        },
{
    match action {
        Some(SkimAction::DrillDown(s)) => {
            *selected_record = None;
            sql.history.add(s.as_str());
            let background = is_background_statement(s.as_str());
            sql.editor.replace_text(s);
            if !streamed {
                FollowUp::Execute
            } else if background {
                FollowUp::RunCommand
            } else {
                FollowUp::Stream
            }
        },
        Some(SkimAction::SelectRecord { where_template, record }) => {
            sql.editor.replace_text(where_template);
            *selected_record = Some(record);
            FollowUp::Nothing
        },
        None => {
            if streamed {
                sql.editor.replace_text(String::new());
            }
            FollowUp::Nothing
        },
    }
}

// ---------------------------------------------------------------------
// A finished query
// ---------------------------------------------------------------------

/// The database and table the breadcrumb trail shows.
pub struct Navigation {
    pub current_database: Option<String>,
    pub current_table: Option<String>,
}

/// What `Navigation::after_command` does: a USE that names a database
/// selects it and forgets the table; anything else changes nothing.
pub open spec fn after_command_result(n0: Navigation, n1: Navigation, last_sql: Seq<char>) -> bool {
    &&& use_sliceable(last_sql) && used_database(last_sql) is Some ==> {
        &&& opt_view(n1.current_database) == used_database(last_sql)
        &&& n1.current_table is None
    }
    &&& !(use_sliceable(last_sql) && used_database(last_sql) is Some) ==> n1 == n0
}

impl Navigation {
    /// After a command ran: a USE that names a database selects it and
    /// forgets the table; anything else changes nothing. A statement whose
    /// name would be cut inside a character also changes nothing.
    pub fn after_command(&mut self, last_sql: &str)
        ensures
            after_command_result(*old(self), *final(self), last_sql@),
    {
        match try_database_from_use(last_sql) {
            Some(Some(db)) => {
                self.current_database = Some(db);
                self.current_table = None;
            },
            _ => {},
        }
    }
}

/// How a query run in the background ended.
pub enum QueryOutcome {
    /// The database reported this error.
    Failed(Error),
    /// The query finished with this result.
    Finished(QueryResult),
    /// The query's task stopped before finishing: cancelled, or crashed
    /// for this reason.
    Stopped { cancelled: bool, detail: String },
}

/// What the screen turns to after a query run in the background ended.
pub enum QueryFollowUp {
    /// The error screen, with this message.
    ShowError(String),
    /// The result picker, with this result.
    ShowResult(QueryResult),
    /// The input again, after a command that shows no rows; the table
    /// names of the (possibly newly selected) database are fetched again.
    Connected,
}

/// Takes in the end of a query run in the background (`query` is its
/// text). A failure or a stopped task leads to the error screen with its
/// message in `lang`, the input unchanged. A finished query empties the
/// input (the cursor at the start); a result that is shown goes to the
/// result picker, while after a command that shows none (USE, SET) the
/// last statement may select a database (see `Navigation::after_command`)
/// and the input waits.
pub fn apply_query_outcome(
    sql: &mut SqlInputState,
    nav: &mut Navigation,
    outcome: QueryOutcome,
    query: &str,
    lang: Lang,
) -> (next: QueryFollowUp)
    requires
        old(sql).wf(),
    ensures
        final(sql).wf(),
        final(sql).history == old(sql).history,
        final(sql).last_sql == old(sql).last_sql,
        final(sql).completion_state == old(sql).completion_state,
        match outcome {
            QueryOutcome::Failed(e) => {
                &&& next matches QueryFollowUp::ShowError(m) && m@ == query_failed_text(error_text(e, lang), lang)
                &&& final(sql).editor == old(sql).editor
                &&& *final(nav) == *old(nav)
            },
            QueryOutcome::Stopped { cancelled, detail } => {
                &&& next matches QueryFollowUp::ShowError(m) && m@ == task_stopped_text(
                    cancelled,
                    query@,
                    detail@,
                    lang,
                )
                &&& final(sql).editor == old(sql).editor
                &&& *final(nav) == *old(nav)
            },
            QueryOutcome::Finished(r) => {
                &&& final(sql).editor.state() == es_replace_text(old(sql).editor.state(), Seq::empty())
                &&& if r.should_display {
                    next == QueryFollowUp::ShowResult(r) && *final(nav) == *old(nav)
                } else {
                    next is Connected && after_command_result(*old(nav), *final(nav), old(sql).last_sql@)
                }
            },
        },
{
    match outcome {
        QueryOutcome::Failed(e) => QueryFollowUp::ShowError(query_failed_message(&e, lang)),
        QueryOutcome::Stopped { cancelled, detail } => QueryFollowUp::ShowError(
            task_stopped_message(cancelled, query, detail.as_str(), lang),
        ),
        QueryOutcome::Finished(r) => {
            sql.editor.replace_text(String::new());
            if r.should_display {
                QueryFollowUp::ShowResult(r)
            } else {
                nav.after_command(sql.last_sql.as_str());
                QueryFollowUp::Connected
            }
        },
    }
}

/// The "query failed" message around a detail, in `lang`.
pub open spec fn query_failed_text(detail: Seq<char>, lang: Lang) -> Seq<char> {
    match lang {
        Lang::En => "Query execution failed: "@ + detail,
        Lang::Ja => "クエリ実行に失敗しました: "@ + detail,
    }
}

/// The message for a query task that stopped before finishing, in `lang`:
/// "cancelled" with the query when it was cancelled, otherwise "crashed"
/// with the reason.
pub open spec fn task_stopped_text(cancelled: bool, query: Seq<char>, detail: Seq<char>, lang: Lang) -> Seq<char> {
    match lang {
        Lang::En => if cancelled {
            "Query execution was cancelled: "@ + query
        } else {
            "Query execution task crashed: "@ + detail
        },
        Lang::Ja => if cancelled {
            "クエリ実行がキャンセルされました: "@ + query
        } else {
            "クエリ実行タスクが異常終了しました: "@ + detail
        },
    }
}

/// The message for a query that failed: the error's message in `lang`
/// inside the localized "query failed" text.
pub fn query_failed_message(e: &Error, lang: Lang) -> (r: String)
    ensures
        r@ == query_failed_text(error_text(*e, lang), lang),
{
    let detail = e.user_message(lang);
    TuiMsg::QueryFailed { detail: detail.as_str() }.translate(lang)
}

/// The message for a query task that stopped before finishing (see
/// `task_stopped_text`).
pub fn task_stopped_message(cancelled: bool, query: &str, detail: &str, lang: Lang) -> (r: String)
    ensures
        r@ == task_stopped_text(cancelled, query@, detail@, lang),
{
    if cancelled {
        TuiMsg::QueryCancelled { query }.translate(lang)
    } else {
        TuiMsg::QueryTaskFailed { detail }.translate(lang)
    }
}


// ---------------------------------------------------------------------
// The error screen
// ---------------------------------------------------------------------

/// What a key does on the error screen.
#[derive(Debug, Clone, Copy, PartialEq, Eq, Structural)]
pub enum ErrorKeyEffect {
    /// Leave the program (the error came from connecting).
    Quit,
    /// Go back to the screen before the error.
    Restore,
    /// Nothing.
    Ignore,
}

/// Enter, Esc and `q` close the error screen: after a failed connection
/// the program ends, otherwise the previous screen returns. Other keys do
/// nothing.
pub fn error_key_effect(key: Key, after_connect_failure: bool) -> (r: ErrorKeyEffect)
    ensures
        (key == Key::Enter || key == Key::Esc || key == Key::Char('q')) ==> r == (if after_connect_failure {
            ErrorKeyEffect::Quit
        } else {
            ErrorKeyEffect::Restore
        }),
        !(key == Key::Enter || key == Key::Esc || key == Key::Char('q')) ==> r == ErrorKeyEffect::Ignore,
{
    let closes = match key {
        Key::Enter => true,
        Key::Esc => true,
        Key::Char(c) => c == 'q',
        _ => false,
    };
    if !closes {
        ErrorKeyEffect::Ignore
    } else if after_connect_failure {
        ErrorKeyEffect::Quit
    } else {
        ErrorKeyEffect::Restore
    }
}


// ---------------------------------------------------------------------
// Starting a statement
// ---------------------------------------------------------------------

/// A streamed `SHOW TABLES` (trimmed, any case, with or without `;`) is
/// rewritten to name the selected database.
pub open spec fn rewrites_show_tables(input: Seq<char>, current_database: Option<Seq<char>>, streaming: bool) -> bool {
    let up = crate::text::uppercased(crate::text::trim(input));
    streaming && current_database is Some && (up == "SHOW TABLES"@ || up == "SHOW TABLES;"@)
}

/// The statement to run from the input: a rewritten `SHOW TABLES` names
/// the selected database (see `show_tables_rewrite`); otherwise the input
/// as it is.
pub open spec fn statement_to_run(input: Seq<char>, current_database: Option<Seq<char>>, streaming: bool) -> Seq<char> {
    if rewrites_show_tables(input, current_database, streaming) {
        "SHOW TABLES FROM "@ + crate::query::escaped_identifier(current_database.unwrap())
    } else {
        input
    }
}

/// Takes the input as the statement to run (see `statement_to_run`): a
/// rewritten statement replaces the input (cursor at its end), and the
/// statement is kept as the last one run, from which record templates
/// take their table.
pub fn take_statement(sql: &mut SqlInputState, current_database: Option<&str>, streaming: bool) -> (r: String)
    requires
        old(sql).wf(),
    ensures
        final(sql).wf(),
        r@ == statement_to_run(
            old(sql).editor.text@,
            match current_database {
                Some(d) => Some(d@),
                None => None,
            },
            streaming,
        ),
        final(sql).last_sql@ == r@,
        rewrites_show_tables(
            old(sql).editor.text@,
            match current_database {
                Some(d) => Some(d@),
                None => None,
            },
            streaming,
        ) ==> final(sql).editor.state() == es_replace_text(old(sql).editor.state(), r@),
        !rewrites_show_tables(
            old(sql).editor.text@,
            match current_database {
                Some(d) => Some(d@),
                None => None,
            },
            streaming,
        ) ==> final(sql).editor == old(sql).editor,
        final(sql).history == old(sql).history,
        final(sql).completion_state == old(sql).completion_state,
{
    let rewritten = if streaming {
        crate::result_actions::show_tables_rewrite(sql.editor.text.as_str(), current_database)
    } else {
        None
    };
    match rewritten {
        Some(q) => {
            let copy = q.clone();
            sql.editor.replace_text(q);
            sql.last_sql = copy.clone();
            copy
        },
        None => {
            let q = sql.editor.text.clone();
            sql.last_sql = q.clone();
            q
        },
    }
}


// ---------------------------------------------------------------------
// Keys of the shell and prompt inputs
// ---------------------------------------------------------------------

/// What a key did to a plain input line.
pub enum LineKeyResult {
    /// The line was edited or the cursor moved (possibly nothing changed).
    Edited,
    /// Enter was pressed.
    Submit,
    /// Up was pressed.
    HistoryPrev,
    /// Down was pressed.
    HistoryNext,
    /// This text is to go on the clipboard.
    CopyToClipboard(String),
    /// The clipboard's text is to be inserted at the cursor.
    PasteFromClipboard,
    /// The key does nothing here.
    Ignored,
}

/// The state of a plain input line after an editing command; the
/// commands that do not edit leave it as it is.
pub open spec fn line_edit(s: EditState, c: EditCommand) -> EditState {
    let n = s.text.len() as int;
    match c {
        EditCommand::Cut => es_delete_selection(s),
        EditCommand::Paste => es_delete_selection(s),
        EditCommand::SelectAll => es_select_all(s),
        EditCommand::CursorToEnd => es_move_to(s, n),
        EditCommand::KillToEnd => es_kill_to_end(s),
        EditCommand::DeleteWordBefore => es_delete_word_before(s),
        EditCommand::KillToStart => es_kill_to_start(s),
        EditCommand::Yank => es_yank(s),
        EditCommand::SelectWordLeft => es_select_to(s, word_left_of(s.text, s.cursor)),
        EditCommand::SelectWordRight => es_select_to(s, word_right_of(s.text, s.cursor)),
        EditCommand::SelectLeft => if s.cursor > 0 {
            es_select_to(s, s.cursor - 1)
        } else {
            s
        },
        EditCommand::SelectRight => if s.cursor < n {
            es_select_to(s, s.cursor + 1)
        } else {
            s
        },
        EditCommand::SelectToStart => es_select_to(s, 0),
        EditCommand::SelectToEnd => es_select_to(s, n),
        EditCommand::WordLeft => es_move_to(s, word_left_of(s.text, s.cursor)),
        EditCommand::WordRight => es_move_to(s, word_right_of(s.text, s.cursor)),
        EditCommand::Insert(ch) => es_insert_char(s, ch),
        EditCommand::Backspace => es_backspace(s),
        EditCommand::DeleteWordAfter => es_delete_word_after(s),
        EditCommand::Delete => es_delete_forward(s),
        EditCommand::Left => es_move_left(s),
        EditCommand::Right => es_move_right(s),
        EditCommand::Home => es_move_to(s, 0),
        EditCommand::End => es_move_to(s, n),
        _ => s,
    }
}

/// What a key does to a plain input line: the same bindings as the SQL
/// input (`key_command`, where `q` is always typed), Ctrl+C copying the
/// selection (nothing without one) and Ctrl+X cutting it; Enter, Up and
/// Down are reported; the SQL input's own commands do nothing here.
pub open spec fn line_key_post(e0: EditState, e1: EditState, key: Key, m: Modifiers, r: LineKeyResult) -> bool {
    let c = key_command(key, m, false);
    match c {
        EditCommand::Submit => r is Submit && e1 == e0,
        EditCommand::HistoryPrev => r is HistoryPrev && e1 == e0,
        EditCommand::HistoryNext => r is HistoryNext && e1 == e0,
        EditCommand::Copy => match es_selected(e0) {
            Some(t) => (r matches LineKeyResult::CopyToClipboard(x) && x@ == t) && e1 == EditState {
                sel: None,
                ..e0
            },
            None => r is Ignored && e1 == e0,
        },
        EditCommand::Cut => match es_selected(e0) {
            Some(t) => (r matches LineKeyResult::CopyToClipboard(x) && x@ == t) && e1 == line_edit(
                e0,
                c,
            ),
            None => r is Edited && e1 == line_edit(e0, c),
        },
        EditCommand::Paste => r is PasteFromClipboard && e1 == line_edit(e0, c),
        EditCommand::ShowDatabases | EditCommand::ShowTables | EditCommand::SelectColumns
        | EditCommand::Quit | EditCommand::Clear | EditCommand::Ignore => r is Ignored && e1 == e0,
        _ => r is Edited && e1 == line_edit(e0, c),
    }
}

/// Applies a key to a plain input line (see `line_key_post`).
pub fn apply_line_key(ed: &mut LineEditor, key: Key, m: Modifiers) -> (r: LineKeyResult)
    requires
        old(ed).wf(),
    ensures
        final(ed).wf(),
        line_key_post(old(ed).state(), final(ed).state(), key, m, r),
{
    let c = command_for_key(key, m, false);
    match c {
        EditCommand::Submit => LineKeyResult::Submit,
        EditCommand::HistoryPrev => LineKeyResult::HistoryPrev,
        EditCommand::HistoryNext => LineKeyResult::HistoryNext,
        EditCommand::Copy => match ed.selected_text() {
            Some(t) => {
                ed.selection_start = None;
                LineKeyResult::CopyToClipboard(t)
            },
            None => LineKeyResult::Ignored,
        },
        EditCommand::Cut => match ed.cut_selection() {
            Some(t) => LineKeyResult::CopyToClipboard(t),
            None => LineKeyResult::Edited,
        },
        EditCommand::Paste => {
            ed.delete_selection();
            LineKeyResult::PasteFromClipboard
        },
        EditCommand::SelectAll => {
            ed.select_all();
            LineKeyResult::Edited
        },
        EditCommand::CursorToEnd => {
            let n = ed.len();
            ed.move_to(n);
            LineKeyResult::Edited
        },
        EditCommand::KillToEnd => {
            ed.kill_to_end();
            LineKeyResult::Edited
        },
        EditCommand::DeleteWordBefore => {
            ed.delete_word_before();
            LineKeyResult::Edited
        },
        EditCommand::KillToStart => {
            ed.kill_to_start();
            LineKeyResult::Edited
        },
        EditCommand::Yank => {
            ed.yank();
            LineKeyResult::Edited
        },
        EditCommand::SelectWordLeft => {
            let w = ed.word_left(ed.cursor_position);
            ed.select_to(w);
            LineKeyResult::Edited
        },
        EditCommand::SelectWordRight => {
            let w = ed.word_right(ed.cursor_position);
            ed.select_to(w);
            LineKeyResult::Edited
        },
        EditCommand::SelectLeft => {
            let cur = ed.cursor_position;
            if cur > 0 {
                ed.select_to(cur - 1);
            }
            LineKeyResult::Edited
        },
        EditCommand::SelectRight => {
            let cur = ed.cursor_position;
            if cur < ed.len() {
                ed.select_to(cur + 1);
            }
            LineKeyResult::Edited
        },
        EditCommand::SelectToStart => {
            ed.select_to(0);
            LineKeyResult::Edited
        },
        EditCommand::SelectToEnd => {
            let n = ed.len();
            ed.select_to(n);
            LineKeyResult::Edited
        },
        EditCommand::WordLeft => {
            let w = ed.word_left(ed.cursor_position);
            ed.move_to(w);
            LineKeyResult::Edited
        },
        EditCommand::WordRight => {
            let w = ed.word_right(ed.cursor_position);
            ed.move_to(w);
            LineKeyResult::Edited
        },
        EditCommand::Insert(ch) => {
            ed.insert_char(ch);
            LineKeyResult::Edited
        },
        EditCommand::Backspace => {
            ed.backspace();
            LineKeyResult::Edited
        },
        EditCommand::DeleteWordAfter => {
            ed.delete_word_after();
            LineKeyResult::Edited
        },
        EditCommand::Delete => {
            ed.delete_forward();
            LineKeyResult::Edited
        },
        EditCommand::Left => {
            ed.move_left();
            LineKeyResult::Edited
        },
        EditCommand::Right => {
            ed.move_right();
            LineKeyResult::Edited
        },
        EditCommand::Home => {
            ed.move_to(0);
            LineKeyResult::Edited
        },
        EditCommand::End => {
            let n = ed.len();
            ed.move_to(n);
            LineKeyResult::Edited
        },
        _ => LineKeyResult::Ignored,
    }
}

impl ShellInputState {
    /// Runs the typed command: a blank line does nothing; otherwise the
    /// command is recorded in the history, set waiting to run, and the
    /// input is emptied.
    pub fn submit(&mut self)
        requires
            old(self).wf(),
        ensures
            final(self).wf(),
            trim(old(self).editor.text@).len() == 0 ==> *final(self) == *old(self),
            trim(old(self).editor.text@).len() > 0 ==> {
                &&& final(self).pending_command matches Some(c) && c@ == trim(old(self).editor.text@)
                &&& final(self).editor.state() == es_set_text(old(self).editor.state(), Seq::empty())
                &&& crate::history::add_result(
                    old(self).history,
                    final(self).history,
                    old(self).editor.text@,
                )
            },
    {
        let cmd = trimmed(self.editor.text.as_str());
        if cmd.as_str().is_empty() {
            return;
        }
        self.history.add(self.editor.text.as_str());
        self.pending_command = Some(cmd);
        self.editor.set_text(String::new());
    }
}

impl PromptInputState {
    /// Starts a request with the typed prompt: nothing happens while one
    /// is under way or when the prompt is blank; otherwise the request is
    /// marked under way, the last error forgotten, and the trimmed prompt
    /// returned.
    pub fn submit(&mut self) -> (r: Option<String>)
        ensures
            final(self).editor == old(self).editor,
            (old(self).is_processing || trim(old(self).editor.text@).len() == 0) ==> r is None
                && *final(self) == *old(self),
            !(old(self).is_processing || trim(old(self).editor.text@).len() == 0) ==> {
                &&& r matches Some(p) && p@ == trim(old(self).editor.text@)
                &&& final(self).is_processing
                &&& final(self).last_error is None
                &&& final(self).loading_tick == 0
            },
    {
        if self.is_processing {
            return None;
        }
        let p = trimmed(self.editor.text.as_str());
        if p.as_str().is_empty() {
            return None;
        }
        self.is_processing = true;
        self.last_error = None;
        self.loading_tick = 0;
        Some(p)
    }
}


impl PromptInputState {
    /// A key in the prompt input: ignored while a request is under way;
    /// otherwise the line is edited as `apply_line_key` says.
    pub fn handle_key(&mut self, key: Key, m: Modifiers) -> (r: LineKeyResult)
        requires
            old(self).editor.wf(),
        ensures
            final(self).editor.wf(),
            old(self).is_processing ==> r is Ignored && *final(self) == *old(self),
            !old(self).is_processing ==> {
                &&& line_key_post(old(self).editor.state(), final(self).editor.state(), key, m, r)
                &&& final(self).is_processing == old(self).is_processing
                &&& final(self).last_error == old(self).last_error
                &&& final(self).loading_tick == old(self).loading_tick
            },
    {
        if self.is_processing {
            return LineKeyResult::Ignored;
        }
        apply_line_key(&mut self.editor, key, m)
    }
}

} // verus!
