//! What the result list and the column chooser produce: the action for
//! a selected row (drill down into a database or table, or a WHERE
//! template for the record), the statements the column chooser runs and
//! builds, the preview command, and how statements are rewritten or read
//! back (SHOW TABLES, USE, one-line SQL).
use vstd::prelude::*;

use crate::completion::{
    extract_from_panics, extract_from_table, from_table, from_table_unsliceable, opt_view,
    str_starts_with,
};
use crate::query::{escape_identifier, escaped_identifier};
use crate::text::{
    char_index_at_byte, char_index_of_byte, chars_of, concat2, concat3, joined, names_view,
    push_char, skip_ws_backward, skip_ws_forward, uppercased, starts_with, str_eq,
    str_to_string, string_of, to_uppercase, trim, all_ascii, ascii_upper, ascii_lower,
    ascii_upper_seq, eq_ignore_ascii_case_spec, trim_end, trim_start, lemma_trim_word_concat,
};
use crate::history::trimmed;

verus! {

// ---------------------------------------------------------------------
// Escaping
// ---------------------------------------------------------------------

/// `s` with every `from` character replaced by `to`.
pub open spec fn replace_char(s: Seq<char>, from: char, to: Seq<char>) -> Seq<char>
    decreases s.len(),
{
    if s.len() == 0 {
        Seq::empty()
    } else if s.last() == from {
        replace_char(s.drop_last(), from, to) + to
    } else {
        replace_char(s.drop_last(), from, to).push(s.last())
    }
}

/// `s` with every `from` character replaced by `to` (`str::replace`).
pub fn replace_char_exec(s: &str, from: char, to: &str) -> (r: String)
    ensures
        r@ == replace_char(s@, from, to@),
{
    let v = chars_of(s);
    let mut out = String::new();
    let mut i: usize = 0;
    while i < v.len()
        invariant
            i <= v@.len(),
            v@ == s@,
            out@ == replace_char(v@.take(i as int), from, to@),
        decreases v.len() - i,
    {
        assert(v@.take(i + 1).drop_last() =~= v@.take(i as int));
        if v[i] == from {
            out.append(to);
        } else {
            push_char(&mut out, v[i]);
        }
        i = i + 1;
    }
    assert(v@.take(v@.len() as int) =~= v@);
    out
}

/// `s` made safe inside single quotes of a shell command: each `'`
/// becomes `'\''`.
pub open spec fn shell_quoted(s: Seq<char>) -> Seq<char> {
    replace_char(s, '\'', seq!['\'', '\\', '\'', '\''])
}

/// `s` made safe inside a MySQL string literal: backslashes doubled
/// first, then each `'` preceded by a backslash.
pub open spec fn sql_string_escaped(s: Seq<char>) -> Seq<char> {
    replace_char(replace_char(s, '\\', seq!['\\', '\\']), '\'', seq!['\\', '\''])
}

// ---------------------------------------------------------------------
// The preview command
// ---------------------------------------------------------------------

/// The shell command skim runs to preview a row: it reads the row's
/// record from its chunk file under `dir` (chunks of 1000 rows, records
/// ended by `---`), with a `[Table: name]` header when the table is
/// known, or says that it is still loading.
pub open spec fn preview_command(dir: Seq<char>, table: Option<Seq<char>>) -> Seq<char> {
    let header = match table {
        Some(name) => "echo '[Table: "@ + shell_quoted(name) + "]'; echo ''; "@,
        None => Seq::empty(),
    };
    "IDX={}; CHUNK=$((IDX / 1000)); OFF=$((IDX % 1000)); FILE='"@ + shell_quoted(dir)
        + "/chunk_'$CHUNK'.txt'; "@ + header
        + "[ -f \"$FILE\" ] && awk -v idx=$OFF 'BEGIN{RS=\"---\\n\"} NR==idx+1{printf \"%s\", $0}' \"$FILE\" || echo '(読み込み中...)'"@
}

/// Builds the preview command (see `preview_command`).
pub fn build_preview_cmd(dir: &str, table_name: Option<&str>) -> (r: String)
    ensures
        r@ == preview_command(
            dir@,
            match table_name {
                Some(t) => Some(t@),
                None => None,
            },
        ),
{
    let dir_escaped = replace_char_exec(dir, '\'', "'\\''");
    proof {
        reveal_strlit("'\\''");
        assert("'\\''"@ =~= seq!['\'', '\\', '\'', '\'']);
    }
    let mut out = str_to_string("IDX={}; CHUNK=$((IDX / 1000)); OFF=$((IDX % 1000)); FILE='");
    out.append(dir_escaped.as_str());
    out.append("/chunk_'$CHUNK'.txt'; ");
    match table_name {
        Some(name) => {
            let name_escaped = replace_char_exec(name, '\'', "'\\''");
            out.append("echo '[Table: ");
            out.append(name_escaped.as_str());
            out.append("]'; echo ''; ");
        },
        None => {
            proof {
                assert(out@ + Seq::<char>::empty() =~= out@);
            }
        },
    }
    out.append(
        "[ -f \"$FILE\" ] && awk -v idx=$OFF 'BEGIN{RS=\"---\\n\"} NR==idx+1{printf \"%s\", $0}' \"$FILE\" || echo '(読み込み中...)'",
    );
    out
}

// ---------------------------------------------------------------------
// Selected rows
// ---------------------------------------------------------------------

/// A selected record: its column names and values, for the preview
/// shown under the SQL input.
pub struct SelectedRecord {
    pub columns: Vec<(String, String)>,
}

/// What selecting a row leads to.
pub enum SkimAction {
    /// Run this statement (USE a database, or SELECT from a table).
    DrillDown(String),
    /// Put this WHERE template in the input and show the record.
    SelectRecord { where_template: String, record: SelectedRecord },
}

/// The rows of a result listing databases have a `Database` column.
pub open spec fn lists_databases(first_column: Seq<char>) -> bool {
    first_column == "Database"@
}

/// The rows of a result listing tables have a `Tables_in_...` column.
pub open spec fn lists_tables(first_column: Seq<char>) -> bool {
    starts_with(first_column, "Tables_in_"@)
}

/// The WHERE template for a record: its table (the one after FROM in
/// the statement that produced it, `?` when unknown), its first column,
/// and its first value as a string literal.
pub open spec fn where_template(first_column: Seq<char>, first_value: Seq<char>, source_sql: Seq<char>) -> Seq<char> {
    let table = match from_table(source_sql) {
        Some(t) => t,
        None => seq!['?'],
    };
    "SELECT * FROM "@ + escaped_identifier(table) + " WHERE "@ + escaped_identifier(first_column)
        + " = '"@ + sql_string_escaped(first_value) + "'"@
}

/// The name-value pairs of a record, as many as both lists have.
pub open spec fn record_pairs(columns: Seq<Seq<char>>, values: Seq<Seq<char>>) -> Seq<(Seq<char>, Seq<char>)> {
    let n = if columns.len() < values.len() {
        columns.len()
    } else {
        values.len()
    };
    Seq::new(n, |i: int| (columns[i], values[i]))
}

/// The action chooses a record (not a database or table listing), which
/// needs the table after FROM.
pub open spec fn action_reads_from(first_column: Seq<char>) -> bool {
    !lists_databases(first_column) && !lists_tables(first_column)
}

/// The action for a selected row: USE the database of a database
/// listing, SELECT from the table of a table listing, otherwise the
/// record with its WHERE template (see `where_template`).
pub open spec fn action_post(
    r: SkimAction,
    first_column: Seq<char>,
    first_value: Seq<char>,
    columns: Seq<Seq<char>>,
    values: Seq<Seq<char>>,
    source_sql: Seq<char>,
) -> bool {
    if lists_databases(first_column) {
        r matches SkimAction::DrillDown(q) && q@ == "USE "@ + escaped_identifier(first_value)
    } else if lists_tables(first_column) {
        r matches SkimAction::DrillDown(q) && q@ == "SELECT * FROM "@ + escaped_identifier(first_value)
    } else {
        r matches SkimAction::SelectRecord { where_template: w, record } && w@ == where_template(
            first_column,
            first_value,
            source_sql,
        ) && record.columns@.map_values(|p: (String, String)| (p.0@, p.1@)) == record_pairs(
            columns,
            values,
        )
    }
}

fn pairs_of(columns: &Vec<String>, values: &Vec<String>) -> (r: Vec<(String, String)>)
    ensures
        r@.map_values(|p: (String, String)| (p.0@, p.1@)) == record_pairs(
            names_view(columns@),
            names_view(values@),
        ),
{
    let n = if columns.len() < values.len() {
        columns.len()
    } else {
        values.len()
    };
    let mut out: Vec<(String, String)> = Vec::new();
    let mut i: usize = 0;
    while i < n
        invariant
            i <= n,
            n <= columns@.len(),
            n <= values@.len(),
            out@.len() == i,
            forall|k: int|
                #![trigger out@[k]]
                0 <= k < i ==> out@[k].0@ == columns@[k]@ && out@[k].1@ == values@[k]@,
        decreases n - i,
    {
        out.push((columns[i].clone(), values[i].clone()));
        i = i + 1;
    }
    assert(out@.map_values(|p: (String, String)| (p.0@, p.1@)) =~= record_pairs(
        names_view(columns@),
        names_view(values@),
    ));
    out
}

/// The action for a selected row (see `action_post`).
pub fn determine_skim_action(
    first_column: &str,
    first_value: &str,
    columns: &Vec<String>,
    values: &Vec<String>,
    source_sql: &str,
) -> (r: SkimAction)
    requires
        action_reads_from(first_column@) ==> !extract_from_panics(source_sql@),
    ensures
        action_post(r, first_column@, first_value@, names_view(columns@), names_view(values@), source_sql@),
{
    if str_eq(first_column, "Database") {
        SkimAction::DrillDown(concat2("USE ", escape_identifier(first_value).as_str()))
    } else if str_starts_with(first_column, "Tables_in_") {
        SkimAction::DrillDown(concat2("SELECT * FROM ", escape_identifier(first_value).as_str()))
    } else {
        let record = SelectedRecord { columns: pairs_of(columns, values) };
        let table_name = match extract_from_table(source_sql) {
            Some(t) => t,
            None => str_to_string("?"),
        };
        proof {
            reveal_strlit("?");
        }
        let escaped_value = replace_char_exec(
            replace_char_exec(first_value, '\\', "\\\\").as_str(),
            '\'',
            "\\'",
        );
        proof {
            reveal_strlit("\\\\");
            reveal_strlit("\\'");
            assert("\\\\"@ =~= seq!['\\', '\\']);
            assert("\\'"@ =~= seq!['\\', '\'']);
        }
        let ghost table = match from_table(source_sql@) {
            Some(t) => t,
            None => seq!['?'],
        };
        assert(table_name@ == table);
        assert(escaped_value@ == sql_string_escaped(first_value@));
        let mut w = str_to_string("SELECT * FROM ");
        w.append(escape_identifier(table_name.as_str()).as_str());
        w.append(" WHERE ");
        w.append(escape_identifier(first_column).as_str());
        w.append(" = '");
        w.append(escaped_value.as_str());
        w.append("'");
        assert(w@ =~= where_template(first_column@, first_value@, source_sql@));
        SkimAction::SelectRecord { where_template: w, record }
    }
}

/// The action for a selected row, or `None` where the record's table
/// would be read from text after FROM that cannot be sliced (where
/// `determine_skim_action` has no result).
pub fn try_determine_skim_action(
    first_column: &str,
    first_value: &str,
    columns: &Vec<String>,
    values: &Vec<String>,
    source_sql: &str,
) -> (r: Option<SkimAction>)
    ensures
        r is None <==> (action_reads_from(first_column@) && extract_from_panics(source_sql@)),
        r matches Some(a) ==> action_post(
            a,
            first_column@,
            first_value@,
            names_view(columns@),
            names_view(values@),
            source_sql@,
        ),
{
    let reads_from = !str_eq(first_column, "Database") && !str_starts_with(first_column, "Tables_in_");
    if reads_from && from_table_unsliceable(source_sql) {
        None
    } else {
        Some(determine_skim_action(first_column, first_value, columns, values, source_sql))
    }
}

/// A first value that selects nothing: `NULL`, or blank (when `blank`
/// counts) or empty.
pub open spec fn ignored_value(v: Seq<char>, blank: bool) -> bool {
    v == "NULL"@ || (if blank {
        trim(v).len() == 0
    } else {
        v.len() == 0
    })
}

/// The first element of a list, or the empty string.
pub open spec fn first_or_empty(v: Seq<Seq<char>>) -> Seq<char> {
    if v.len() > 0 {
        v[0]
    } else {
        Seq::empty()
    }
}

/// The row selected in a complete result leads nowhere when it is empty
/// or its first value is NULL or blank; otherwise to its action.
pub fn action_for_selected_row(columns: &Vec<String>, row: &Vec<String>, source_sql: &str) -> (r: Option<SkimAction>)
    requires
        action_reads_from(first_or_empty(names_view(columns@))) ==> !extract_from_panics(source_sql@),
    ensures
        (row@.len() == 0 || ignored_value(row@[0]@, true)) ==> r is None,
        !(row@.len() == 0 || ignored_value(row@[0]@, true)) ==> (r matches Some(a) && action_post(
            a,
            first_or_empty(names_view(columns@)),
            row@[0]@,
            names_view(columns@),
            names_view(row@),
            source_sql@,
        )),
{
    if row.len() == 0 {
        return None;
    }
    let first_value = row[0].as_str();
    if str_eq(first_value, "NULL") || trimmed(first_value).as_str().is_empty() {
        return None;
    }
    proof {
        reveal_strlit("");
    }
    let first_column = if columns.len() > 0 {
        columns[0].as_str()
    } else {
        ""
    };
    assert(first_column@ == first_or_empty(names_view(columns@)));
    proof {
        reveal_strlit("");
    }
    Some(determine_skim_action(first_column, first_value, columns, row, source_sql))
}

/// The row selected while rows were still streaming leads nowhere when
/// its first value is empty or NULL; otherwise to its action.
pub fn action_for_streamed_row(columns: &Vec<String>, row: &Vec<String>, source_sql: &str) -> (r: Option<SkimAction>)
    requires
        action_reads_from(first_or_empty(names_view(columns@))) ==> !extract_from_panics(source_sql@),
    ensures
        ignored_value(first_or_empty(names_view(row@)), false) ==> r is None,
        !ignored_value(first_or_empty(names_view(row@)), false) ==> (r matches Some(a) && action_post(
            a,
            first_or_empty(names_view(columns@)),
            first_or_empty(names_view(row@)),
            names_view(columns@),
            names_view(row@),
            source_sql@,
        )),
{
    proof {
        reveal_strlit("");
    }
    let first_value = if row.len() > 0 {
        row[0].as_str()
    } else {
        ""
    };
    assert(first_value@ == first_or_empty(names_view(row@)));
    if first_value.is_empty() || str_eq(first_value, "NULL") {
        return None;
    }
    let first_column = if columns.len() > 0 {
        columns[0].as_str()
    } else {
        ""
    };
    assert(first_column@ == first_or_empty(names_view(columns@)));
    Some(determine_skim_action(first_column, first_value, columns, row, source_sql))
}

/// The action for a selected row of a complete result, or `None` where
/// the record's table cannot be read (see `action_for_selected_row`).
pub fn try_action_for_selected_row(columns: &Vec<String>, row: &Vec<String>, source_sql: &str) -> (r: Option<Option<SkimAction>>)
    ensures
        r is None <==> (action_reads_from(first_or_empty(names_view(columns@))) && extract_from_panics(
            source_sql@,
        )),
        r matches Some(x) ==> ((row@.len() == 0 || ignored_value(row@[0]@, true)) ==> x is None),
        r matches Some(x) ==> (!(row@.len() == 0 || ignored_value(row@[0]@, true)) ==> (x matches Some(a)
            && action_post(
            a,
            first_or_empty(names_view(columns@)),
            row@[0]@,
            names_view(columns@),
            names_view(row@),
            source_sql@,
        ))),
{
    proof {
        reveal_strlit("");
    }
    let first_column = if columns.len() > 0 {
        columns[0].as_str()
    } else {
        ""
    };
    assert(first_column@ == first_or_empty(names_view(columns@)));
    let reads_from = !str_eq(first_column, "Database") && !str_starts_with(first_column, "Tables_in_");
    if reads_from && from_table_unsliceable(source_sql) {
        None
    } else {
        Some(action_for_selected_row(columns, row, source_sql))
    }
}

/// The action for a row selected while streaming, or `None` where the
/// record's table cannot be read (see `action_for_streamed_row`).
pub fn try_action_for_streamed_row(columns: &Vec<String>, row: &Vec<String>, source_sql: &str) -> (r: Option<Option<SkimAction>>)
    ensures
        r is None <==> (action_reads_from(first_or_empty(names_view(columns@))) && extract_from_panics(
            source_sql@,
        )),
        r matches Some(x) ==> (ignored_value(first_or_empty(names_view(row@)), false) ==> x is None),
        r matches Some(x) ==> (!ignored_value(first_or_empty(names_view(row@)), false) ==> (x matches Some(a)
            && action_post(
            a,
            first_or_empty(names_view(columns@)),
            first_or_empty(names_view(row@)),
            names_view(columns@),
            names_view(row@),
            source_sql@,
        ))),
{
    proof {
        reveal_strlit("");
    }
    let first_column = if columns.len() > 0 {
        columns[0].as_str()
    } else {
        ""
    };
    assert(first_column@ == first_or_empty(names_view(columns@)));
    let reads_from = !str_eq(first_column, "Database") && !str_starts_with(first_column, "Tables_in_");
    if reads_from && from_table_unsliceable(source_sql) {
        None
    } else {
        Some(action_for_streamed_row(columns, row, source_sql))
    }
}


// ---------------------------------------------------------------------
// Statements
// ---------------------------------------------------------------------

/// With a database selected, SHOW TABLES (trimmed, any case, with or
/// without `;`) becomes SHOW TABLES FROM that database, so that it does
/// not depend on the pooled connection's session; `None` when nothing is
/// rewritten.
pub fn show_tables_rewrite(query: &str, current_database: Option<&str>) -> (r: Option<String>)
    ensures
        match current_database {
            Some(db) => {
                let up = uppercased(trim(query@));
                if up == "SHOW TABLES"@ || up == "SHOW TABLES;"@ {
                    r matches Some(q) && q@ == "SHOW TABLES FROM "@ + escaped_identifier(db@)
                } else {
                    r is None
                }
            },
            None => r is None,
        },
{
    match current_database {
        None => None,
        Some(db) => {
            let up = to_uppercase(trimmed(query).as_str());
            if str_eq(up.as_str(), "SHOW TABLES") || str_eq(up.as_str(), "SHOW TABLES;") {
                Some(concat2("SHOW TABLES FROM ", escape_identifier(db).as_str()))
            } else {
                None
            }
        },
    }
}

/// `s` without trailing semicolons.
pub open spec fn strip_semicolons_end(s: Seq<char>) -> Seq<char>
    decreases s.len(),
{
    if s.len() > 0 && s.last() == ';' {
        strip_semicolons_end(s.drop_last())
    } else {
        s
    }
}

/// `s` without backticks at either end.
pub open spec fn strip_backticks(s: Seq<char>) -> Seq<char> {
    crate::sql_input::strip_backticks_end(crate::sql_input::strip_backticks_start(s))
}

/// The statement is a USE: its trimmed, upper-cased text starts with `USE `.
pub open spec fn is_use_statement(sql: Seq<char>) -> bool {
    starts_with(uppercased(trim(sql)), "USE "@)
}

/// The database a USE statement selects: the trimmed text after its
/// first four bytes, without trailing semicolons and surrounding
/// backticks; nothing when that is empty or the statement is no USE.
pub open spec fn used_database(sql: Seq<char>) -> Option<Seq<char>> {
    if !is_use_statement(sql) {
        None
    } else {
        let t = trim(sql);
        let db = strip_backticks(strip_semicolons_end(trim(t.skip(char_index_of_byte(t, 4)))));
        if db.len() > 0 {
            Some(db)
        } else {
            None
        }
    }
}

/// Whether a statement selects a database, and which one, does not
/// depend on the ASCII case of its USE keyword: `use`, `Use` or `uSE`
/// followed by an ASCII text selects what `USE` followed by it selects.
pub proof fn law_use_keyword_case_insensitive(keyword: Seq<char>, rest: Seq<char>)
    requires
        eq_ignore_ascii_case_spec(keyword, "USE"@),
        all_ascii(rest),
    ensures
        used_database(keyword + rest) == used_database("USE"@ + rest),
{
    reveal_strlit("USE");
    reveal_strlit("USE ");
    let u = "USE"@;
    assert forall|i: int| 0 <= i < 3 implies ascii_upper(#[trigger] keyword[i]) == u[i]
        && keyword[i] <= '\u{7F}' && !crate::text::is_ws(keyword[i]) by {
        assert(ascii_lower(keyword[i]) == ascii_lower(u[i]));
    }
    let tt = trim_end(rest);
    crate::text::lemma_trim_end_prefix(rest);
    lemma_trim_word_concat(keyword, rest);
    lemma_trim_word_concat(u, rest);
    let t1 = keyword + tt;
    let t2 = u + tt;
    assert(trim(keyword + rest) == t1);
    assert(trim(u + rest) == t2);
    assert(all_ascii(t1));
    assert(all_ascii(t2));
    assert(ascii_upper_seq(t1) =~= ascii_upper_seq(t2));
    assert(is_use_statement(keyword + rest) == is_use_statement(u + rest));
    if is_use_statement(u + rest) {
        assert(uppercased(t2) == ascii_upper_seq(t2));
        assert(ascii_upper_seq(t2).subrange(0, 4)[3] == "USE "@[3]);
        assert(ascii_upper(t2[3]) == ' ');
        assert(t1[3] == ' ' && t2[3] == ' ');
        reveal_with_fuel(char_index_of_byte, 5);
        assert(t1.drop_first().drop_first().drop_first().drop_first() =~= t1.skip(4));
        assert(t2.drop_first().drop_first().drop_first().drop_first() =~= t2.skip(4));
        assert(char_index_of_byte(t1, 4) == 4);
        assert(char_index_of_byte(t2, 4) == 4);
        assert(t1.skip(4) =~= t2.skip(4));
    }
}

/// `USE name`, with the keyword in any ASCII case, selects `name`: an
/// ASCII name that starts and ends with neither whitespace nor a
/// backtick, and does not end with `;`.
pub proof fn law_use_selects_named_database(keyword: Seq<char>, name: Seq<char>)
    requires
        eq_ignore_ascii_case_spec(keyword, "USE"@),
        all_ascii(name),
        name.len() > 0,
        !crate::text::is_ws(name[0]),
        !crate::text::is_ws(name.last()),
        name[0] != '`',
        name.last() != '`',
        name.last() != ';',
    ensures
        used_database(keyword + " "@ + name) == Some(name),
{
    reveal_strlit("USE");
    reveal_strlit("USE ");
    reveal_strlit(" ");
    let u = "USE"@;
    let rest = " "@ + name;
    assert(all_ascii(rest));
    assert(keyword + " "@ + name =~= keyword + rest);
    law_use_keyword_case_insensitive(keyword, rest);
    lemma_trim_word_concat(u, rest);
    assert(rest.last() == name.last());
    assert(trim_end(rest) == rest);
    let t = u + rest;
    assert(trim(u + rest) == t);
    assert(all_ascii(t));
    assert(uppercased(t) == ascii_upper_seq(t));
    assert(ascii_upper_seq(t).subrange(0, 4) =~= "USE "@);
    assert(is_use_statement(u + rest));
    reveal_with_fuel(char_index_of_byte, 5);
    assert(t.drop_first().drop_first().drop_first().drop_first() =~= t.skip(4));
    assert(char_index_of_byte(t, 4) == 4);
    assert(t.skip(4) =~= name);
    assert(trim_start(name) == name);
    assert(trim_end(name) == name);
    assert(strip_semicolons_end(name) == name);
    assert(crate::sql_input::strip_backticks_start(name) == name);
    assert(crate::sql_input::strip_backticks_end(name) == name);
}

/// The four bytes after which the database name starts fall on a
/// character boundary of the trimmed statement.
pub open spec fn use_sliceable(sql: Seq<char>) -> bool {
    is_use_statement(sql) ==> char_index_of_byte(trim(sql), 4) >= 0
}

/// The database selected by a USE statement (see `used_database`).
pub fn database_from_use(last_sql: &str) -> (r: Option<String>)
    requires
        use_sliceable(last_sql@),
    ensures
        opt_view(r) == used_database(last_sql@),
{
    let t = trimmed(last_sql);
    let up = to_uppercase(t.as_str());
    if !str_starts_with(up.as_str(), "USE ") {
        return None;
    }
    let v = chars_of(t.as_str());
    let k = match char_index_at_byte(&v, 4) {
        Some(k) => k,
        None => {
            proof {
                assert(false);
            }
            0
        },
    };
    let a = skip_ws_forward(&v, k, v.len());
    let b0 = skip_ws_backward(&v, a, v.len());
    proof {
        assert(v@.subrange(k as int, v@.len() as int) =~= v@.skip(k as int));
    }
    let ghost rest = v@.subrange(a as int, b0 as int);
    let mut b = b0;
    assert(v@.subrange(a as int, b as int) == rest);
    while b > a && v[b - 1] == ';'
        invariant
            a <= b <= b0 <= v@.len(),
            strip_semicolons_end(rest) == strip_semicolons_end(v@.subrange(a as int, b as int)),
        decreases b,
    {
        assert(v@.subrange(a as int, b as int).drop_last() =~= v@.subrange(a as int, b - 1));
        b = b - 1;
    }
    let mut i = a;
    assert(v@.subrange(a as int, b as int) == strip_semicolons_end(rest));
    while i < b && v[i] == '`'
        invariant
            a <= i <= b <= v@.len(),
            crate::sql_input::strip_backticks_start(strip_semicolons_end(rest))
                == crate::sql_input::strip_backticks_start(v@.subrange(i as int, b as int)),
        decreases b - i,
    {
        assert(v@.subrange(i as int, b as int).drop_first() =~= v@.subrange(i + 1, b as int));
        i = i + 1;
    }
    let mut j = b;
    assert(v@.subrange(i as int, j as int) == crate::sql_input::strip_backticks_start(v@.subrange(i as int, b as int)));
    while j > i && v[j - 1] == '`'
        invariant
            i <= j <= b <= v@.len(),
            crate::sql_input::strip_backticks_end(v@.subrange(i as int, b as int))
                == crate::sql_input::strip_backticks_end(v@.subrange(i as int, j as int)),
        decreases j,
    {
        assert(v@.subrange(i as int, j as int).drop_last() =~= v@.subrange(i as int, j - 1));
        j = j - 1;
    }
    if i < j {
        Some(string_of(&v, i, j))
    } else {
        None
    }
}

/// The database of a USE statement, or `None` where its name would be
/// sliced off at a byte that is not a character boundary (where
/// `database_from_use` has no result).
pub fn try_database_from_use(last_sql: &str) -> (r: Option<Option<String>>)
    ensures
        r is None <==> !use_sliceable(last_sql@),
        r matches Some(d) ==> opt_view(d) == used_database(last_sql@),
{
    let t = trimmed(last_sql);
    let up = to_uppercase(t.as_str());
    if str_starts_with(up.as_str(), "USE ") {
        let v = chars_of(t.as_str());
        if char_index_at_byte(&v, 4).is_none() {
            return None;
        }
    }
    Some(database_from_use(last_sql))
}

/// The statement listing tables: of the selected database when there is
/// one, otherwise of the session's.
pub fn show_tables_query(current_database: Option<&str>) -> (r: String)
    ensures
        match current_database {
            Some(db) => r@ == "SHOW TABLES FROM "@ + escaped_identifier(db@),
            None => r@ == "SHOW TABLES"@,
        },
{
    match current_database {
        Some(db) => concat2("SHOW TABLES FROM ", escape_identifier(db).as_str()),
        None => str_to_string("SHOW TABLES"),
    }
}

/// A table name quoted for SQL, qualified with the selected database
/// when there is one.
pub open spec fn qualified_table(db: Option<Seq<char>>, table: Seq<char>) -> Seq<char> {
    match db {
        Some(d) => escaped_identifier(d) + seq!['.'] + escaped_identifier(table),
        None => escaped_identifier(table),
    }
}

/// The quoted, qualified table name (see `qualified_table`).
pub fn qualified_table_name(current_database: Option<&str>, table: &str) -> (r: String)
    ensures
        r@ == qualified_table(
            match current_database {
                Some(d) => Some(d@),
                None => None,
            },
            table@,
        ),
{
    match current_database {
        Some(db) => {
            let r = concat3(escape_identifier(db).as_str(), ".", escape_identifier(table).as_str());
            proof {
                reveal_strlit(".");
            }
            r
        },
        None => escape_identifier(table),
    }
}

/// The statement listing the columns of a (qualified) table.
pub fn show_columns_query(qualified: &str) -> (r: String)
    ensures
        r@ == "SHOW COLUMNS FROM "@ + qualified@,
{
    concat2("SHOW COLUMNS FROM ", qualified)
}

/// The SELECT of the chosen columns (each quoted) from a qualified table.
pub fn select_columns_query(columns: &Vec<String>, qualified: &str) -> (r: String)
    ensures
        r@ == "SELECT "@ + joined(names_view(columns@).map_values(|c: Seq<char>| escaped_identifier(c)), ", "@)
            + " FROM "@ + qualified@,
{
    let mut quoted: Vec<String> = Vec::new();
    let mut i: usize = 0;
    while i < columns.len()
        invariant
            i <= columns@.len(),
            quoted@.len() == i,
            forall|k: int| #![trigger quoted@[k]] 0 <= k < i ==> quoted@[k]@ == escaped_identifier(columns@[k]@),
        decreases columns.len() - i,
    {
        quoted.push(escape_identifier(columns[i].as_str()));
        i = i + 1;
    }
    assert(names_view(quoted@) =~= names_view(columns@).map_values(|c: Seq<char>| escaped_identifier(c)));
    let mut out = str_to_string("SELECT ");
    crate::text::push_joined(&mut out, &quoted, ", ");
    out.append(" FROM ");
    out.append(qualified);
    out
}

// ---------------------------------------------------------------------
// One-line SQL
// ---------------------------------------------------------------------

/// ASCII whitespace (`char::is_ascii_whitespace`): space, tab, newline,
/// form feed, carriage return.
pub open spec fn is_ascii_ws(c: char) -> bool {
    c == ' ' || c == '\t' || c == '\n' || c == '\x0C' || c == '\r'
}

/// The words of `s` read so far and the word being read.
pub open spec fn words_run(s: Seq<char>) -> (Seq<Seq<char>>, Seq<char>)
    decreases s.len(),
{
    if s.len() == 0 {
        (Seq::empty(), Seq::empty())
    } else {
        let (ws, cur) = words_run(s.drop_last());
        if is_ascii_ws(s.last()) {
            (if cur.len() > 0 {
                ws.push(cur)
            } else {
                ws
            }, Seq::empty())
        } else {
            (ws, cur.push(s.last()))
        }
    }
}

/// The words of `s` separated by ASCII whitespace (`split_ascii_whitespace`).
pub open spec fn ascii_words(s: Seq<char>) -> Seq<Seq<char>> {
    let (ws, cur) = words_run(s);
    if cur.len() > 0 {
        ws.push(cur)
    } else {
        ws
    }
}

/// Generated SQL made one line: line breaks are whitespace like the rest,
/// and the words are joined with single spaces (no space at either end).
pub fn normalize_sql_to_oneliner(sql: &str) -> (r: String)
    ensures
        r@ == joined(ascii_words(sql@), " "@),
{
    let v = chars_of(sql);
    let mut words: Vec<String> = Vec::new();
    let mut cur = String::new();
    let mut i: usize = 0;
    assert(v@.take(0) =~= Seq::<char>::empty());
    while i < v.len()
        invariant
            i <= v@.len(),
            v@ == sql@,
            (names_view(words@), cur@) == words_run(v@.take(i as int)),
        decreases v.len() - i,
    {
        let c = v[i];
        assert(v@.take(i + 1).drop_last() =~= v@.take(i as int));
        let ghost before = names_view(words@);
        if c == ' ' || c == '\t' || c == '\n' || c == '\x0C' || c == '\r' {
            if !cur.as_str().is_empty() {
                words.push(cur);
            }
            cur = String::new();
        } else {
            push_char(&mut cur, c);
        }
        assert(names_view(words@) =~= words_run(v@.take(i + 1)).0);
        i = i + 1;
    }
    assert(v@.take(v@.len() as int) =~= v@);
    if !cur.as_str().is_empty() {
        words.push(cur);
    }
    assert(names_view(words@) =~= ascii_words(sql@));
    let mut out = String::new();
    crate::text::push_joined(&mut out, &words, " ");
    out
}

} // verus!
