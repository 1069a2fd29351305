//! SQL input completion: the token under the cursor, the context the cursor
//! is in (keyword, table, column, database), and the candidates offered
//! from the keyword list and the cache of names fetched from the server.
use vstd::prelude::*;

use crate::name_map::NameMap;
use crate::query::{escape_identifier, escaped_identifier};
use crate::text::{
    all_ascii, ascii_lower, ascii_lower_seq,
    byte_offset_of, char_index_at_byte, char_index_of_byte, chars_of, eq_ignore_ascii_case,
    eq_ignore_ascii_case_spec, find, find_from_exec, is_whitespace, is_ws, names_view,
    push_char, lowercased, uppercased, starts_with, starts_with_at, str_eq,
    str_to_string, concat2, to_lowercase, to_uppercase, trim_start, utf8_len, contains,
    lemma_find_from_bounds, lemma_utf8_len_bound,
};

verus! {

// ---------------------------------------------------------------------
// Types
// ---------------------------------------------------------------------

/// What kind of name a candidate is.
#[derive(Debug, Clone, PartialEq, Eq)]
pub enum CompletionKind {
    /// An SQL keyword from the static list.
    Keyword,
    /// A table name from the cache.
    Table,
    /// A column name of the given table.
    Column { table: String },
    /// A database name from the cache.
    Database,
}

/// The mathematical value of a `CompletionKind`.
pub enum KindView {
    Keyword,
    Table,
    Column(Seq<char>),
    Database,
}

impl View for CompletionKind {
    type V = KindView;

    open spec fn view(&self) -> KindView {
        match self {
            CompletionKind::Keyword => KindView::Keyword,
            CompletionKind::Table => KindView::Table,
            CompletionKind::Column { table } => KindView::Column(table@),
            CompletionKind::Database => KindView::Database,
        }
    }
}

/// One completion candidate.
#[derive(Debug, Clone)]
pub struct CompletionItem {
    /// The text shown and inserted.
    pub text: String,
    /// Its kind (a hint for the display colour).
    pub kind: CompletionKind,
}

impl View for CompletionItem {
    type V = (Seq<char>, KindView);

    open spec fn view(&self) -> (Seq<char>, KindView) {
        (self.text@, self.kind@)
    }
}

/// The views of a list of candidates.
pub open spec fn items_view(v: Seq<CompletionItem>) -> Seq<(Seq<char>, KindView)> {
    v.map_values(|i: CompletionItem| i@)
}

/// Names the completion engine knows of, filled in after connecting.
pub struct CompletionCache {
    pub tables: Vec<String>,
    pub databases: Vec<String>,
    /// Column names by lower-cased table name.
    pub columns: NameMap,
    /// Table names by lower-cased database name (for `db.table`).
    pub database_tables: NameMap,
    /// Whether the connection is established.
    pub is_ready: bool,
}

impl CompletionCache {
    /// An empty cache, not ready.
    pub fn new() -> (c: Self)
        ensures
            c.tables@.len() == 0,
            c.databases@.len() == 0,
            c.columns@ == Map::<Seq<char>, Seq<Seq<char>>>::empty(),
            c.database_tables@ == Map::<Seq<char>, Seq<Seq<char>>>::empty(),
            !c.is_ready,
    {
        CompletionCache {
            tables: Vec::new(),
            databases: Vec::new(),
            columns: NameMap::new(),
            database_tables: NameMap::new(),
            is_ready: false,
        }
    }
}

impl Default for CompletionCache {
    fn default() -> (c: Self)
        ensures
            c.tables@.len() == 0,
            c.databases@.len() == 0,
            c.columns@ == Map::<Seq<char>, Seq<Seq<char>>>::empty(),
            c.database_tables@ == Map::<Seq<char>, Seq<Seq<char>>>::empty(),
            !c.is_ready,
    {
        CompletionCache::new()
    }
}

/// What the cursor position expects.
#[derive(Debug, Clone, PartialEq, Eq)]
pub enum SqlContext {
    /// A keyword (start of input and other places).
    Keyword,
    /// A table name (after FROM or JOIN).
    TableName,
    /// A column name, with the table guessed from FROM.
    ColumnName { table: Option<String> },
    /// A database name (after USE).
    DatabaseName,
    /// A table of the given database (`db.table`).
    DatabaseTableName { database: String },
}

/// The mathematical value of an `SqlContext`.
pub enum ContextView {
    Keyword,
    TableName,
    ColumnName(Option<Seq<char>>),
    DatabaseName,
    DatabaseTableName(Seq<char>),
}

pub open spec fn opt_view(o: Option<String>) -> Option<Seq<char>> {
    match o {
        Some(s) => Some(s@),
        None => None,
    }
}

impl View for SqlContext {
    type V = ContextView;

    open spec fn view(&self) -> ContextView {
        match self {
            SqlContext::Keyword => ContextView::Keyword,
            SqlContext::TableName => ContextView::TableName,
            SqlContext::ColumnName { table } => ContextView::ColumnName(opt_view(*table)),
            SqlContext::DatabaseName => ContextView::DatabaseName,
            SqlContext::DatabaseTableName { database } => ContextView::DatabaseTableName(
                database@,
            ),
        }
    }
}

/// The SQL keywords offered for completion.
pub const SQL_KEYWORDS: [&'static str; 43] = [
    "SELECT",
    "INSERT",
    "UPDATE",
    "DELETE",
    "CREATE",
    "DROP",
    "ALTER",
    "TRUNCATE",
    "FROM",
    "WHERE",
    "JOIN",
    "INNER JOIN",
    "LEFT JOIN",
    "RIGHT JOIN",
    "LEFT OUTER JOIN",
    "ON",
    "GROUP BY",
    "ORDER BY",
    "HAVING",
    "LIMIT",
    "OFFSET",
    "AS",
    "DISTINCT",
    "AND",
    "OR",
    "NOT",
    "IN",
    "LIKE",
    "BETWEEN",
    "IS NULL",
    "IS NOT NULL",
    "COUNT",
    "SUM",
    "AVG",
    "MAX",
    "MIN",
    "SHOW TABLES",
    "SHOW DATABASES",
    "SHOW COLUMNS FROM",
    "DESCRIBE",
    "USE",
    "SET",
    "EXPLAIN",
];


// ---------------------------------------------------------------------
// The token under the cursor
// ---------------------------------------------------------------------

/// Characters that end a word for completion and word-wise movement:
/// blanks, punctuation, brackets, operators and quotes.
pub open spec fn is_separator(c: char) -> bool {
    c == ' ' || c == '\t' || c == ',' || c == ';' || c == '.' || c == '(' || c == ')' || c == '['
        || c == ']' || c == '=' || c == '<' || c == '>' || c == '!' || c == '+' || c == '-' || c
        == '*' || c == '/' || c == '`' || c == '\'' || c == '"'
}

/// Whether `c` separates words (see `is_separator`).
pub fn is_completion_separator(c: char) -> (r: bool)
    ensures
        r == is_separator(c),
{
    c == ' ' || c == '\t' || c == ',' || c == ';' || c == '.' || c == '(' || c == ')' || c == '['
        || c == ']' || c == '=' || c == '<' || c == '>' || c == '!' || c == '+' || c == '-' || c
        == '*' || c == '/' || c == '`' || c == '\'' || c == '"'
}

/// Where the word that ends `s` starts: just after the last separator, or 0.
pub open spec fn token_start(s: Seq<char>) -> int
    decreases s.len(),
{
    if s.len() == 0 {
        0
    } else if is_separator(s.last()) {
        s.len() as int
    } else {
        token_start(s.drop_last())
    }
}

pub proof fn lemma_token_start(s: Seq<char>)
    ensures
        0 <= token_start(s) <= s.len(),
        forall|j: int| token_start(s) <= j < s.len() ==> !is_separator(#[trigger] s[j]),
        token_start(s) > 0 ==> is_separator(s[token_start(s) - 1]),
    decreases s.len(),
{
    if s.len() > 0 && !is_separator(s.last()) {
        lemma_token_start(s.drop_last());
        assert forall|j: int| token_start(s) <= j < s.len() implies !is_separator(#[trigger] s[j]) by {
            if j < s.len() - 1 {
                assert(s[j] == s.drop_last()[j]);
            }
        }
    }
}

/// The word being typed just before the cursor, and the byte offset where
/// it starts. `cursor_byte_pos` is a byte offset into `query_input` that
/// falls on a character boundary.
pub fn current_token_with_pos(query_input: &str, cursor_byte_pos: usize) -> (r: (&str, usize))
    requires
        char_index_of_byte(query_input@, cursor_byte_pos as int) >= 0,
    ensures
        ({
            let before = query_input@.take(char_index_of_byte(query_input@, cursor_byte_pos as int));
            &&& r.0@ == before.skip(token_start(before))
            &&& r.1 == utf8_len(before.take(token_start(before)))
        }),
{
    let v = chars_of(query_input);
    let k = match char_index_at_byte(&v, cursor_byte_pos as u128) {
        Some(k) => k,
        None => {
            proof {
                assert(false);
            }
            0
        },
    };
    let ghost before = v@.take(k as int);
    let mut start = k;
    assert(before.take(k as int) =~= before);
    while start > 0 && !is_completion_separator(v[start - 1])
        invariant
            start <= k <= v@.len(),
            before == v@.take(k as int),
            token_start(before) == token_start(before.take(start as int)),
        decreases start,
    {
        assert(before.take(start as int).drop_last() =~= before.take(start - 1));
        start = start - 1;
    }
    proof {
        if start > 0 {
            assert(before.take(start as int).last() == v@[start - 1]);
        }
        assert(before.take(start as int).take(start as int) =~= before.take(start as int));
        assert(before.take(start as int) =~= v@.take(start as int));
        lemma_utf8_len_bound(before);
    }
    let b = byte_offset_of(&v, start);
    proof {
        crate::text::lemma_utf8_len_prefix_mono(v@, start as int, k as int);
    }
    let token = query_input.substring_char(start, k);
    proof {
        assert(token@ =~= before.skip(token_start(before)));
    }
    (token, b as usize)
}


// ---------------------------------------------------------------------
// Tokenizing
// ---------------------------------------------------------------------

/// A quote character that opens a quoted token.
pub open spec fn is_quote(c: char) -> bool {
    c == '\'' || c == '"' || c == '`'
}

/// The tokens so far, the token being read, and the open quote if inside one.
pub type TokState = (Seq<Seq<char>>, Seq<char>, Option<char>);

/// `tokens` with `cur` appended when it is not empty.
pub open spec fn flush(tokens: Seq<Seq<char>>, cur: Seq<char>) -> Seq<Seq<char>> {
    if cur.len() > 0 {
        tokens.push(cur)
    } else {
        tokens
    }
}

/// One step of the tokenizer: inside quotes everything up to the same
/// closing quote belongs to the token; outside, whitespace separates
/// tokens and a quote starts a new one.
pub open spec fn tok_step(st: TokState, c: char) -> TokState {
    let (tokens, cur, quote) = st;
    match quote {
        Some(q) => if c == q {
            (tokens.push(cur.push(c)), Seq::empty(), None)
        } else {
            (tokens, cur.push(c), Some(q))
        },
        None => if is_quote(c) {
            (flush(tokens, cur), seq![c], Some(c))
        } else if is_ws(c) {
            (flush(tokens, cur), Seq::empty(), None)
        } else {
            (tokens, cur.push(c), None)
        },
    }
}

/// The tokenizer state after reading `s`.
pub open spec fn tok_run(s: Seq<char>) -> TokState
    decreases s.len(),
{
    if s.len() == 0 {
        (Seq::empty(), Seq::empty(), None)
    } else {
        tok_step(tok_run(s.drop_last()), s.last())
    }
}

/// The tokens of `s`: whitespace-separated words, where a quoted part
/// (single, double or back quotes) is one token with its quotes.
pub open spec fn tokenize(s: Seq<char>) -> Seq<Seq<char>> {
    flush(tok_run(s).0, tok_run(s).1)
}

/// Splits SQL text into tokens (see `tokenize`).
pub fn tokenize_sql(sql: &str) -> (r: Vec<String>)
    ensures
        names_view(r@) == tokenize(sql@),
{
    let v = chars_of(sql);
    let mut tokens: Vec<String> = Vec::new();
    let mut current = String::new();
    let mut in_quote: Option<char> = None;
    let mut i: usize = 0;
    assert(v@.take(0) =~= Seq::<char>::empty());
    while i < v.len()
        invariant
            i <= v@.len(),
            v@ == sql@,
            (names_view(tokens@), current@, in_quote) == tok_run(v@.take(i as int)),
        decreases v.len() - i,
    {
        let c = v[i];
        assert(v@.take(i + 1).drop_last() =~= v@.take(i as int));
        let ghost before = names_view(tokens@);
        match in_quote {
            Some(q) => {
                if c == q {
                    push_char(&mut current, c);
                    tokens.push(current);
                    current = String::new();
                    in_quote = None;
                } else {
                    push_char(&mut current, c);
                }
            },
            None => {
                if c == '\'' || c == '"' || c == '`' {
                    if !current.as_str().is_empty() {
                        tokens.push(current);
                    }
                    current = String::new();
                    push_char(&mut current, c);
                    in_quote = Some(c);
                } else if is_whitespace(c) {
                    if !current.as_str().is_empty() {
                        tokens.push(current);
                    }
                    current = String::new();
                } else {
                    push_char(&mut current, c);
                }
            },
        }
        assert(names_view(tokens@) =~= tok_run(v@.take(i + 1)).0);
        i = i + 1;
    }
    assert(v@.take(v@.len() as int) =~= v@);
    if !current.as_str().is_empty() {
        tokens.push(current);
    }
    assert(names_view(tokens@) =~= tokenize(sql@));
    tokens
}


// ---------------------------------------------------------------------
// The table after FROM
// ---------------------------------------------------------------------

/// The start of `s` up to the first whitespace or `;`.
pub open spec fn first_field(s: Seq<char>) -> Seq<char>
    decreases s.len(),
{
    if s.len() == 0 || is_ws(s[0]) || s[0] == ';' {
        Seq::empty()
    } else {
        seq![s[0]] + first_field(s.drop_first())
    }
}

/// `s` with its backticks removed.
pub open spec fn without_backticks(s: Seq<char>) -> Seq<char>
    decreases s.len(),
{
    if s.len() == 0 {
        Seq::empty()
    } else if s.last() == '`' {
        without_backticks(s.drop_last())
    } else {
        without_backticks(s.drop_last()).push(s.last())
    }
}

/// The byte offset just after the first ` FROM ` of the upper-cased text.
pub open spec fn from_keyword_end(sql: Seq<char>) -> Option<int> {
    match find(uppercased(sql), " FROM "@) {
        Some(ci) => Some(utf8_len(uppercased(sql).take(ci)) + 6int),
        None => None,
    }
}

/// The offset found in the upper-cased text is not a character boundary
/// of the statement itself (upper-casing changed some byte lengths), so the
/// text after FROM cannot be sliced there.
pub open spec fn extract_from_panics(sql: Seq<char>) -> bool {
    from_keyword_end(sql) matches Some(b) && char_index_of_byte(sql, b) < 0
}

/// The table named after the first ` FROM `: the first word after it
/// (ending at whitespace or `;`), backticks removed, or nothing when there
/// is no ` FROM ` or the word is empty.
pub open spec fn from_table(sql: Seq<char>) -> Option<Seq<char>> {
    match from_keyword_end(sql) {
        None => None,
        Some(b) => {
            let raw = without_backticks(
                first_field(trim_start(sql.skip(char_index_of_byte(sql, b)))),
            );
            if raw.len() == 0 {
                None
            } else {
                Some(raw)
            }
        },
    }
}

/// The byte offset just after the first ` FROM ` of the upper-cased text.
fn from_keyword_end_exec(sql: &str) -> (r: Option<u128>)
    ensures
        r matches Some(b) ==> from_keyword_end(sql@) == Some(b as int),
        r is None ==> from_keyword_end(sql@) is None,
{
    let upper = to_uppercase(sql);
    let uv = chars_of(upper.as_str());
    let pat = chars_of(" FROM ");
    match find_from_exec(&uv, &pat, 0) {
        Some(ci) => {
            proof {
                lemma_find_from_bounds(uv@, pat@, 0);
            }
            let b = byte_offset_of(&uv, ci);
            proof {
                lemma_utf8_len_bound(uv@.take(ci as int));
            }
            Some(b + 6)
        },
        None => None,
    }
}

/// The end of the first field of `v[from..]` (see `first_field`).
fn field_end(v: &Vec<char>, from: usize) -> (r: usize)
    requires
        from <= v@.len(),
    ensures
        from <= r <= v@.len(),
        first_field(v@.subrange(from as int, v@.len() as int)) == v@.subrange(from as int, r as int),
{
    let mut i = from;
    while i < v.len() && !is_whitespace(v[i]) && v[i] != ';'
        invariant
            from <= i <= v@.len(),
            first_field(v@.subrange(from as int, v@.len() as int)) == v@.subrange(from as int, i as int)
                + first_field(v@.subrange(i as int, v@.len() as int)),
        decreases v.len() - i,
    {
        assert(v@.subrange(i as int, v@.len() as int).drop_first() =~= v@.subrange(i + 1, v@.len() as int));
        assert(v@.subrange(from as int, i as int) + seq![v@[i as int]] =~= v@.subrange(from as int, i + 1));
        i = i + 1;
    }
    assert(v@.subrange(from as int, i as int) + Seq::<char>::empty() =~= v@.subrange(from as int, i as int));
    i
}

/// `v[from..to]` without backticks, as a new string.
fn string_without_backticks(v: &Vec<char>, from: usize, to: usize) -> (r: String)
    requires
        from <= to <= v@.len(),
    ensures
        r@ == without_backticks(v@.subrange(from as int, to as int)),
{
    let mut out = String::new();
    let mut i = from;
    assert(v@.subrange(from as int, from as int) =~= Seq::<char>::empty());
    while i < to
        invariant
            from <= i <= to <= v@.len(),
            out@ == without_backticks(v@.subrange(from as int, i as int)),
        decreases to - i,
    {
        assert(v@.subrange(from as int, i + 1).drop_last() =~= v@.subrange(from as int, i as int));
        if v[i] != '`' {
            push_char(&mut out, v[i]);
        }
        i = i + 1;
    }
    out
}

/// Whether slicing the text after FROM would fail (see `extract_from_panics`).
pub fn from_table_unsliceable(sql: &str) -> (r: bool)
    ensures
        r == extract_from_panics(sql@),
{
    match from_keyword_end_exec(sql) {
        None => false,
        Some(b) => {
            let v = chars_of(sql);
            char_index_at_byte(&v, b).is_none()
        },
    }
}

/// The table named after the first ` FROM ` (see `from_table`).
pub fn extract_from_table(sql: &str) -> (r: Option<String>)
    requires
        !extract_from_panics(sql@),
    ensures
        opt_view(r) == from_table(sql@),
{
    match from_keyword_end_exec(sql) {
        None => None,
        Some(b) => {
            let v = chars_of(sql);
            let k = match char_index_at_byte(&v, b) {
                Some(k) => k,
                None => {
                    proof {
                        assert(false);
                    }
                    0
                },
            };
            let st = crate::text::skip_ws_forward(&v, k, v.len());
            proof {
                assert(v@.subrange(k as int, v@.len() as int) =~= v@.skip(k as int));
            }
            let end = field_end(&v, st);
            let raw = string_without_backticks(&v, st, end);
            if raw.as_str().is_empty() {
                None
            } else {
                Some(raw)
            }
        },
    }
}

/// The table named after FROM, or `None` when the text after FROM cannot
/// be sliced (where `extract_from_table` has no result).
pub fn try_extract_from_table(sql: &str) -> (r: Option<Option<String>>)
    ensures
        r is None <==> extract_from_panics(sql@),
        r matches Some(t) ==> opt_view(t) == from_table(sql@),
{
    if from_table_unsliceable(sql) {
        None
    } else {
        Some(extract_from_table(sql))
    }
}


// ---------------------------------------------------------------------
// The context at the cursor
// ---------------------------------------------------------------------

/// `t` is the word `w`, ignoring ASCII case.
pub open spec fn is_kw(t: Seq<char>, w: Seq<char>) -> bool {
    eq_ignore_ascii_case_spec(t, w)
}

/// `t` upper-cases to `JOIN` or `ON`.
pub open spec fn is_join_kw(t: Seq<char>) -> bool {
    uppercased(t) == "JOIN"@ || uppercased(t) == "ON"@
}

/// `t` is WHERE, AND or OR, ignoring ASCII case.
pub open spec fn is_filter_kw(t: Seq<char>) -> bool {
    is_kw(t, "WHERE"@) || is_kw(t, "AND"@) || is_kw(t, "OR"@)
}

/// The upper-cased text contains SELECT but not ` FROM `.
pub open spec fn between_select_and_from(sql: Seq<char>) -> bool {
    contains(uppercased(sql), "SELECT"@) && !contains(uppercased(sql), " FROM "@)
}

/// The four kinds of completion context, before the table is looked up.
#[derive(PartialEq, Eq, Structural)]
pub enum ContextShape {
    Keyword,
    Database,
    Table,
    Column,
}

/// The shape of context after the tokens `toks` of the text `sql`,
/// decided by the last one or two tokens, first rule first:
/// USE (or USE and a word) expects a database; SHOW COLUMNS, FROM (or
/// FROM and a word), JOIN/ON (or one and a word) expect a table;
/// WHERE/AND/OR (or one and a word), or being after SELECT with no FROM
/// yet, expect a column; anything else a keyword.
pub open spec fn shape_of(toks: Seq<Seq<char>>, sql: Seq<char>) -> ContextShape {
    let n = toks.len();
    if n == 0 {
        ContextShape::Keyword
    } else if is_kw(toks[n - 1], "USE"@) {
        ContextShape::Database
    } else if n >= 2 && is_kw(toks[n - 2], "USE"@) {
        ContextShape::Database
    } else if n >= 2 && is_kw(toks[n - 2], "SHOW"@) && is_kw(toks[n - 1], "COLUMNS"@) {
        ContextShape::Table
    } else if is_kw(toks[n - 1], "FROM"@) {
        ContextShape::Table
    } else if n >= 2 && is_kw(toks[n - 2], "FROM"@) {
        ContextShape::Table
    } else if is_join_kw(toks[n - 1]) {
        ContextShape::Table
    } else if n >= 2 && is_join_kw(toks[n - 2]) {
        ContextShape::Table
    } else if is_filter_kw(toks[n - 1]) {
        ContextShape::Column
    } else if n >= 2 && is_filter_kw(toks[n - 2]) {
        ContextShape::Column
    } else if between_select_and_from(sql) {
        ContextShape::Column
    } else {
        ContextShape::Keyword
    }
}

/// The completion context for the text before the cursor.
pub open spec fn context_of(sql: Seq<char>) -> ContextView {
    match shape_of(tokenize(sql), sql) {
        ContextShape::Keyword => ContextView::Keyword,
        ContextShape::Database => ContextView::DatabaseName,
        ContextShape::Table => ContextView::TableName,
        ContextShape::Column => ContextView::ColumnName(from_table(sql)),
    }
}

/// The last token, or the one before it, asks for a database or a table:
/// USE, SHOW COLUMNS, FROM, JOIN or ON.
pub open spec fn expects_database_or_table(toks: Seq<Seq<char>>) -> bool {
    let n = toks.len();
    ||| n >= 1 && is_kw(toks[n - 1], "USE"@)
    ||| n >= 1 && is_kw(toks[n - 1], "FROM"@)
    ||| n >= 1 && is_join_kw(toks[n - 1])
    ||| n >= 2 && is_kw(toks[n - 2], "USE"@)
    ||| n >= 2 && is_kw(toks[n - 2], "FROM"@)
    ||| n >= 2 && is_join_kw(toks[n - 2])
    ||| n >= 2 && is_kw(toks[n - 2], "SHOW"@) && is_kw(toks[n - 1], "COLUMNS"@)
}

/// After WHERE, AND or OR, in any ASCII case, as the last token or as
/// the one before it, a column of the table named after the first FROM
/// is expected, unless USE, SHOW COLUMNS, FROM, JOIN or ON comes in the
/// last two tokens. So `... WHERE x = 1 AND ` expects a column just as
/// `... WHERE ` does.
pub proof fn law_filter_keyword_expects_column(sql: Seq<char>)
    requires
        ({
            let toks = tokenize(sql);
            let n = toks.len();
            ||| n >= 1 && (is_kw(toks[n - 1], "WHERE"@) || is_kw(toks[n - 1], "AND"@) || is_kw(
                toks[n - 1],
                "OR"@,
            ))
            ||| n >= 2 && (is_kw(toks[n - 2], "WHERE"@) || is_kw(toks[n - 2], "AND"@) || is_kw(
                toks[n - 2],
                "OR"@,
            ))
        }),
        !expects_database_or_table(tokenize(sql)),
    ensures
        context_of(sql) == ContextView::ColumnName(from_table(sql)),
{
}

/// After USE, or USE and one more word, in any ASCII case, database
/// names are expected.
pub proof fn law_use_expects_database(sql: Seq<char>)
    requires
        ({
            let toks = tokenize(sql);
            let n = toks.len();
            ||| n >= 1 && is_kw(toks[n - 1], "USE"@)
            ||| n >= 2 && is_kw(toks[n - 2], "USE"@)
        }),
    ensures
        context_of(sql) == ContextView::DatabaseName,
{
}

/// After FROM, JOIN or ON (or one of them and one more word), or after
/// SHOW COLUMNS, table names are expected, unless USE comes in the last
/// two tokens.
pub proof fn law_table_keyword_expects_table(sql: Seq<char>)
    requires
        ({
            let toks = tokenize(sql);
            let n = toks.len();
            &&& !(n >= 1 && is_kw(toks[n - 1], "USE"@))
            &&& !(n >= 2 && is_kw(toks[n - 2], "USE"@))
            &&& {
                ||| n >= 1 && is_kw(toks[n - 1], "FROM"@)
                ||| n >= 2 && is_kw(toks[n - 2], "FROM"@)
                ||| n >= 1 && (uppercased(toks[n - 1]) == "JOIN"@ || uppercased(toks[n - 1])
                    == "ON"@)
                ||| n >= 2 && (uppercased(toks[n - 2]) == "JOIN"@ || uppercased(toks[n - 2])
                    == "ON"@)
                ||| n >= 2 && is_kw(toks[n - 2], "SHOW"@) && is_kw(toks[n - 1], "COLUMNS"@)
            }
        }),
    ensures
        context_of(sql) == ContextView::TableName,
{
}

/// Whether `token` upper-cases to JOIN or ON.
fn matches_join_keyword(token: &str) -> (r: bool)
    ensures
        r == is_join_kw(token@),
{
    let upper = to_uppercase(token);
    str_eq(upper.as_str(), "JOIN") || str_eq(upper.as_str(), "ON")
}

/// Whether the text contains SELECT but no FROM yet (upper-cased).
fn is_between_select_and_from(sql_before_cursor: &str) -> (r: bool)
    ensures
        r == between_select_and_from(sql_before_cursor@),
{
    let upper = to_uppercase(sql_before_cursor);
    let uv = chars_of(upper.as_str());
    let has_select = find_from_exec(&uv, &chars_of("SELECT"), 0).is_some();
    let has_from = find_from_exec(&uv, &chars_of(" FROM "), 0).is_some();
    has_select && !has_from
}

fn shape_exec(sql: &str) -> (r: ContextShape)
    ensures
        r == shape_of(tokenize(sql@), sql@),
{
    let tokens = tokenize_sql(sql);
    let ghost toks = names_view(tokens@);
    let n = tokens.len();
    if n == 0 {
        return ContextShape::Keyword;
    }
    let last = tokens[n - 1].as_str();
    assert(toks[n - 1] == last@);
    if eq_ignore_ascii_case(last, "USE") {
        return ContextShape::Database;
    }
    let prev = if n >= 2 {
        tokens[n - 2].as_str()
    } else {
        ""
    };
    assert(n >= 2 ==> toks[n - 2] == prev@);
    if n >= 2 && eq_ignore_ascii_case(prev, "USE") {
        ContextShape::Database
    } else if n >= 2 && eq_ignore_ascii_case(prev, "SHOW") && eq_ignore_ascii_case(last, "COLUMNS") {
        ContextShape::Table
    } else if eq_ignore_ascii_case(last, "FROM") {
        ContextShape::Table
    } else if n >= 2 && eq_ignore_ascii_case(prev, "FROM") {
        ContextShape::Table
    } else if matches_join_keyword(last) {
        ContextShape::Table
    } else if n >= 2 && matches_join_keyword(prev) {
        ContextShape::Table
    } else if eq_ignore_ascii_case(last, "WHERE") || eq_ignore_ascii_case(last, "AND")
        || eq_ignore_ascii_case(last, "OR") {
        ContextShape::Column
    } else if n >= 2 && (eq_ignore_ascii_case(prev, "WHERE") || eq_ignore_ascii_case(prev, "AND")
        || eq_ignore_ascii_case(prev, "OR")) {
        ContextShape::Column
    } else if is_between_select_and_from(sql) {
        ContextShape::Column
    } else {
        ContextShape::Keyword
    }
}

/// The completion context for the text before the cursor
/// (see `context_of`). Where a column is expected, the table is the one
/// named after FROM, which needs the text after FROM to be sliceable.
pub fn analyze_context(sql_before_cursor: &str) -> (r: SqlContext)
    requires
        context_of(sql_before_cursor@) is ColumnName ==> !extract_from_panics(sql_before_cursor@),
    ensures
        r@ == context_of(sql_before_cursor@),
{
    match shape_exec(sql_before_cursor) {
        ContextShape::Keyword => SqlContext::Keyword,
        ContextShape::Database => SqlContext::DatabaseName,
        ContextShape::Table => SqlContext::TableName,
        ContextShape::Column => {
            let table = extract_from_table(sql_before_cursor);
            SqlContext::ColumnName { table }
        },
    }
}

/// The completion context, or `None` where a column is expected but the
/// text after FROM cannot be sliced (where `analyze_context` has no result).
pub fn try_analyze_context(sql_before_cursor: &str) -> (r: Option<SqlContext>)
    ensures
        r is None <==> (context_of(sql_before_cursor@) is ColumnName && extract_from_panics(
            sql_before_cursor@,
        )),
        r matches Some(c) ==> c@ == context_of(sql_before_cursor@),
{
    let shape = shape_exec(sql_before_cursor);
    if shape == ContextShape::Column && from_table_unsliceable(sql_before_cursor) {
        None
    } else {
        Some(analyze_context(sql_before_cursor))
    }
}


// ---------------------------------------------------------------------
// Candidates
// ---------------------------------------------------------------------

/// The keywords as character sequences, in list order.
pub open spec fn keywords_view() -> Seq<Seq<char>> {
    SQL_KEYWORDS@.map_values(|k: &str| k@)
}

/// The names of `names`, in order, whose lower-cased form starts with the
/// lower-cased `prefix`.
pub open spec fn matching_names(names: Seq<Seq<char>>, prefix: Seq<char>) -> Seq<Seq<char>>
    decreases names.len(),
{
    if names.len() == 0 {
        Seq::empty()
    } else {
        let r = matching_names(names.drop_last(), prefix);
        if starts_with(lowercased(names.last()), lowercased(prefix)) {
            r.push(names.last())
        } else {
            r
        }
    }
}

/// `name` starts with `prefix`, ignoring ASCII case.
pub open spec fn starts_with_ignoring_ascii_case(name: Seq<char>, prefix: Seq<char>) -> bool {
    prefix.len() <= name.len() && eq_ignore_ascii_case_spec(name.take(prefix.len() as int), prefix)
}

/// On ASCII text, the lower-cased `a` starts with the lower-cased `b`
/// exactly when `a` starts with `b` ignoring ASCII case.
pub proof fn lemma_lowercased_starts_with(a: Seq<char>, b: Seq<char>)
    requires
        all_ascii(a),
        all_ascii(b),
    ensures
        starts_with(lowercased(a), lowercased(b)) <==> starts_with_ignoring_ascii_case(a, b),
{
    let la = ascii_lower_seq(a);
    let lb = ascii_lower_seq(b);
    if b.len() <= a.len() {
        if starts_with(la, lb) {
            assert forall|i: int| 0 <= i < b.len() implies ascii_lower(
                #[trigger] a.take(b.len() as int)[i],
            ) == ascii_lower(b[i]) by {
                assert(la.subrange(0, b.len() as int)[i] == lb[i]);
            }
        }
        if starts_with_ignoring_ascii_case(a, b) {
            assert forall|i: int| 0 <= i < b.len() implies #[trigger] la.subrange(0, b.len() as int)[i]
                == lb[i] by {
                assert(ascii_lower(a.take(b.len() as int)[i]) == ascii_lower(b[i]));
            }
            assert(la.subrange(0, b.len() as int) =~= lb);
        }
    }
}

/// Cached names are matched without regard to ASCII case: for ASCII
/// names and prefix, a name is offered exactly when it starts with the
/// prefix ignoring ASCII case, and the offered names keep their order.
pub proof fn law_matching_names_ignore_ascii_case(names: Seq<Seq<char>>, prefix: Seq<char>)
    requires
        all_ascii(prefix),
        forall|k: int| 0 <= k < names.len() ==> all_ascii(#[trigger] names[k]),
    ensures
        matching_names(names, prefix) == names.filter(
            |n: Seq<char>| starts_with_ignoring_ascii_case(n, prefix),
        ),
    decreases names.len(),
{
    reveal(Seq::filter);
    if names.len() > 0 {
        let front = names.drop_last();
        assert forall|k: int| 0 <= k < front.len() implies all_ascii(#[trigger] front[k]) by {
            assert(front[k] == names[k]);
        }
        law_matching_names_ignore_ascii_case(front, prefix);
        lemma_lowercased_starts_with(names.last(), prefix);
        let pred = |n: Seq<char>| starts_with_ignoring_ascii_case(n, prefix);
        assert(names.filter(pred) == if pred(names.last()) {
            front.filter(pred).push(names.last())
        } else {
            front.filter(pred)
        });
    }
}

/// The candidates do not change when the prefix changes only in ASCII
/// case (for ASCII names and prefixes).
pub proof fn law_matching_names_prefix_case(
    names: Seq<Seq<char>>,
    p1: Seq<char>,
    p2: Seq<char>,
)
    requires
        all_ascii(p1),
        all_ascii(p2),
        eq_ignore_ascii_case_spec(p1, p2),
        forall|k: int| 0 <= k < names.len() ==> all_ascii(#[trigger] names[k]),
    ensures
        matching_names(names, p1) == matching_names(names, p2),
    decreases names.len(),
{
    if names.len() > 0 {
        let front = names.drop_last();
        assert forall|k: int| 0 <= k < front.len() implies all_ascii(#[trigger] front[k]) by {
            assert(front[k] == names[k]);
        }
        law_matching_names_prefix_case(front, p1, p2);
        let n = names.last();
        lemma_lowercased_starts_with(n, p1);
        lemma_lowercased_starts_with(n, p2);
        if starts_with_ignoring_ascii_case(n, p1) {
            assert forall|i: int| 0 <= i < p2.len() implies ascii_lower(
                #[trigger] n.take(p2.len() as int)[i],
            ) == ascii_lower(p2[i]) by {
                assert(ascii_lower(n.take(p1.len() as int)[i]) == ascii_lower(p1[i]));
                assert(ascii_lower(p1[i]) == ascii_lower(p2[i]));
            }
        }
        if starts_with_ignoring_ascii_case(n, p2) {
            assert forall|i: int| 0 <= i < p1.len() implies ascii_lower(
                #[trigger] n.take(p1.len() as int)[i],
            ) == ascii_lower(p1[i]) by {
                assert(ascii_lower(n.take(p2.len() as int)[i]) == ascii_lower(p2[i]));
                assert(ascii_lower(p1[i]) == ascii_lower(p2[i]));
            }
        }
    }
}

/// The words of `words`, in order, that start with `up`.
pub open spec fn words_starting(words: Seq<Seq<char>>, up: Seq<char>) -> Seq<Seq<char>>
    decreases words.len(),
{
    if words.len() == 0 {
        Seq::empty()
    } else {
        let r = words_starting(words.drop_last(), up);
        if starts_with(words.last(), up) {
            r.push(words.last())
        } else {
            r
        }
    }
}

/// The keywords, in list order, that start with the upper-cased `prefix`.
pub open spec fn matching_keywords(prefix: Seq<char>) -> Seq<Seq<char>> {
    words_starting(keywords_view(), uppercased(prefix))
}

/// Keywords are matched on the upper-cased prefix, so for an ASCII
/// prefix the keywords offered do not depend on its ASCII case.
pub proof fn law_matching_keywords_prefix_case(p1: Seq<char>, p2: Seq<char>)
    requires
        all_ascii(p1),
        all_ascii(p2),
        eq_ignore_ascii_case_spec(p1, p2),
    ensures
        matching_keywords(p1) == matching_keywords(p2),
{
    crate::text::lemma_ascii_upper_seq_agrees(p1, p2);
}

/// Each name paired with the kind `k`.
pub open spec fn tagged(names: Seq<Seq<char>>, k: KindView) -> Seq<(Seq<char>, KindView)> {
    names.map_values(|n: Seq<char>| (n, k))
}

/// What a map holds for the lower-cased `key`, or nothing.
pub open spec fn lookup_lower(m: Map<Seq<char>, Seq<Seq<char>>>, key: Seq<char>) -> Seq<Seq<char>> {
    if m.dom().contains(lowercased(key)) {
        m[lowercased(key)]
    } else {
        Seq::empty()
    }
}

/// The candidates offered for `prefix` in context `ctx`:
/// keywords for a keyword; cached tables, databases, or the tables of the
/// named database for those contexts; for a column, the cached columns of
/// the table (if one is known) followed by the keywords. Names are
/// matched on their lower-cased start, keywords on the upper-cased prefix.
pub open spec fn candidates(
    prefix: Seq<char>,
    ctx: ContextView,
    tables: Seq<Seq<char>>,
    databases: Seq<Seq<char>>,
    columns: Map<Seq<char>, Seq<Seq<char>>>,
    database_tables: Map<Seq<char>, Seq<Seq<char>>>,
) -> Seq<(Seq<char>, KindView)> {
    match ctx {
        ContextView::Keyword => tagged(matching_keywords(prefix), KindView::Keyword),
        ContextView::TableName => tagged(matching_names(tables, prefix), KindView::Table),
        ContextView::ColumnName(t) => {
            let (cols, name) = match t {
                Some(t) => (lookup_lower(columns, t), t),
                None => (Seq::empty(), Seq::empty()),
            };
            tagged(matching_names(cols, prefix), KindView::Column(name)) + tagged(
                matching_keywords(prefix),
                KindView::Keyword,
            )
        },
        ContextView::DatabaseName => tagged(matching_names(databases, prefix), KindView::Database),
        ContextView::DatabaseTableName(db) => if database_tables.dom().contains(
            lowercased(db),
        ) {
            tagged(
                matching_names(database_tables[lowercased(db)], prefix),
                KindView::Table,
            )
        } else {
            Seq::empty()
        },
    }
}

/// The candidates `get_candidates` gives for a cache.
pub open spec fn cache_candidates(prefix: Seq<char>, ctx: ContextView, cache: &CompletionCache) -> Seq<(Seq<char>, KindView)> {
    candidates(
        prefix,
        ctx,
        names_view(cache.tables@),
        names_view(cache.databases@),
        cache.columns@,
        cache.database_tables@,
    )
}

/// Whether `s` starts with `p`.
pub fn str_starts_with(s: &str, p: &str) -> (r: bool)
    ensures
        r == starts_with(s@, p@),
{
    let v = chars_of(s);
    let pv = chars_of(p);
    let r = starts_with_at(&v, &pv, 0, v.len());
    assert(v@.subrange(0, v@.len() as int) =~= v@);
    r
}

fn kind_copy(k: &CompletionKind) -> (r: CompletionKind)
    ensures
        r@ == k@,
{
    match k {
        CompletionKind::Keyword => CompletionKind::Keyword,
        CompletionKind::Table => CompletionKind::Table,
        CompletionKind::Column { table } => CompletionKind::Column { table: table.clone() },
        CompletionKind::Database => CompletionKind::Database,
    }
}

/// Appends the names of `names` that match `prefix`, each with the kind `kind`.
fn push_matching_names(
    out: &mut Vec<CompletionItem>,
    names: &Vec<String>,
    prefix: &str,
    kind: &CompletionKind,
)
    ensures
        items_view(final(out)@) == items_view(old(out)@) + tagged(
            matching_names(names_view(names@), prefix@),
            kind@,
        ),
{
    let prefix_lower = to_lowercase(prefix);
    let ghost nv = names_view(names@);
    let mut i: usize = 0;
    assert(nv.take(0) =~= Seq::<Seq<char>>::empty());
    assert(items_view(out@) =~= items_view(old(out)@) + tagged(matching_names(nv.take(0), prefix@), kind@));
    while i < names.len()
        invariant
            i <= names@.len(),
            nv == names_view(names@),
            prefix_lower@ == lowercased(prefix@),
            items_view(out@) == items_view(old(out)@) + tagged(matching_names(nv.take(i as int), prefix@), kind@),
        decreases names.len() - i,
    {
        let t = &names[i];
        let tl = to_lowercase(t.as_str());
        assert(nv.take(i + 1).drop_last() =~= nv.take(i as int));
        assert(nv.take(i + 1).last() == t@);
        if str_starts_with(tl.as_str(), prefix_lower.as_str()) {
            let ghost before = out@;
            out.push(CompletionItem { text: t.clone(), kind: kind_copy(kind) });
            assert(items_view(out@) =~= items_view(before).push((t@, kind@)));
            assert(tagged(matching_names(nv.take(i + 1), prefix@), kind@) =~= tagged(
                matching_names(nv.take(i as int), prefix@),
                kind@,
            ).push((t@, kind@)));
        }
        i = i + 1;
    }
    assert(nv.take(names@.len() as int) =~= nv);
}

/// Appends the keywords that start with `prefix_upper`.
fn push_matching_keywords(out: &mut Vec<CompletionItem>, prefix_upper: &str)
    ensures
        items_view(final(out)@) == items_view(old(out)@) + tagged(
            words_starting(keywords_view(), prefix_upper@),
            KindView::Keyword,
        ),
{
    let ghost kv = keywords_view();
    let mut i: usize = 0;
    assert(kv.take(0) =~= Seq::<Seq<char>>::empty());
    assert(items_view(out@) =~= items_view(old(out)@) + tagged(words_starting(kv.take(0), prefix_upper@), KindView::Keyword));
    while i < SQL_KEYWORDS.len()
        invariant
            i <= kv.len(),
            kv == keywords_view(),
            kv.len() == SQL_KEYWORDS@.len(),
            items_view(out@) == items_view(old(out)@) + tagged(
                words_starting(kv.take(i as int), prefix_upper@),
                KindView::Keyword,
            ),
        decreases SQL_KEYWORDS@.len() - i,
    {
        let kw: &str = SQL_KEYWORDS[i];
        assert(kv.take(i + 1).drop_last() =~= kv.take(i as int));
        assert(kv.take(i + 1).last() == kw@);
        if str_starts_with(kw, prefix_upper) {
            let ghost before = out@;
            out.push(CompletionItem { text: str_to_string(kw), kind: CompletionKind::Keyword });
            assert(items_view(out@) =~= items_view(before).push((kw@, KindView::Keyword)));
            assert(tagged(words_starting(kv.take(i + 1), prefix_upper@), KindView::Keyword) =~= tagged(
                words_starting(kv.take(i as int), prefix_upper@),
                KindView::Keyword,
            ).push((kw@, KindView::Keyword)));
        }
        i = i + 1;
    }
    assert(kv.take(kv.len() as int) =~= kv);
}

/// The candidates for the word being typed in the given context
/// (see `candidates`).
pub fn get_candidates(input_prefix: &str, context: &SqlContext, cache: &CompletionCache) -> (r: Vec<CompletionItem>)
    ensures
        items_view(r@) == cache_candidates(input_prefix@, context@, cache),
{
    let mut out: Vec<CompletionItem> = Vec::new();
    assert(items_view(out@) =~= Seq::<(Seq<char>, KindView)>::empty());
    match context {
        SqlContext::Keyword => {
            let prefix_upper = to_uppercase(input_prefix);
            push_matching_keywords(&mut out, prefix_upper.as_str());
        },
        SqlContext::TableName => {
            push_matching_names(&mut out, &cache.tables, input_prefix, &CompletionKind::Table);
        },
        SqlContext::ColumnName { table } => {
            let name = match table {
                Some(t) => t.clone(),
                None => String::new(),
            };
            let kind = CompletionKind::Column { table: name };
            match table {
                Some(t) => {
                    let lower = to_lowercase(t.as_str());
                    match cache.columns.get(lower.as_str()) {
                        Some(cols) => {
                            push_matching_names(&mut out, cols, input_prefix, &kind);
                        },
                        None => {
                            assert(matching_names(Seq::<Seq<char>>::empty(), input_prefix@) =~= Seq::<Seq<char>>::empty());
                        },
                    }
                },
                None => {
                    assert(matching_names(Seq::<Seq<char>>::empty(), input_prefix@) =~= Seq::<Seq<char>>::empty());
                },
            }
            let prefix_upper = to_uppercase(input_prefix);
            push_matching_keywords(&mut out, prefix_upper.as_str());
        },
        SqlContext::DatabaseName => {
            push_matching_names(&mut out, &cache.databases, input_prefix, &CompletionKind::Database);
        },
        SqlContext::DatabaseTableName { database } => {
            let lower = to_lowercase(database.as_str());
            match cache.database_tables.get(lower.as_str()) {
                Some(tables) => {
                    push_matching_names(&mut out, tables, input_prefix, &CompletionKind::Table);
                },
                None => {},
            }
        },
    }
    assert(items_view(out@) =~= cache_candidates(input_prefix@, context@, cache));
    out
}


// ---------------------------------------------------------------------
// Filling the cache
// ---------------------------------------------------------------------

/// The statement that lists the columns of `table_name`, unless its
/// columns are cached already (under the lower-cased name).
pub fn column_fetch_sql(cache: &CompletionCache, table_name: &str) -> (r: Option<String>)
    ensures
        r is None <==> cache.columns@.dom().contains(lowercased(table_name@)),
        r matches Some(q) ==> q@ == "SHOW COLUMNS FROM "@ + escaped_identifier(table_name@),
{
    let lower = to_lowercase(table_name);
    if cache.columns.contains_key(lower.as_str()) {
        None
    } else {
        Some(concat2("SHOW COLUMNS FROM ", escape_identifier(table_name).as_str()))
    }
}

/// Stores the fetched columns of `table_name` under its lower-cased name.
pub fn store_columns(cache: &mut CompletionCache, table_name: &str, columns: Vec<String>)
    ensures
        final(cache).columns@ == old(cache).columns@.insert(lowercased(table_name@), names_view(columns@)),
        final(cache).tables == old(cache).tables,
        final(cache).databases == old(cache).databases,
        final(cache).database_tables@ == old(cache).database_tables@,
        final(cache).is_ready == old(cache).is_ready,
{
    let lower = to_lowercase(table_name);
    cache.columns.insert(lower, columns);
}

/// The statement that lists the tables of `database_name`, unless they
/// are cached already (under the lower-cased name).
pub fn database_tables_fetch_sql(cache: &CompletionCache, database_name: &str) -> (r: Option<String>)
    ensures
        r is None <==> cache.database_tables@.dom().contains(lowercased(database_name@)),
        r matches Some(q) ==> q@ == "SHOW TABLES FROM "@ + escaped_identifier(database_name@),
{
    let lower = to_lowercase(database_name);
    if cache.database_tables.contains_key(lower.as_str()) {
        None
    } else {
        Some(concat2("SHOW TABLES FROM ", escape_identifier(database_name).as_str()))
    }
}

/// Stores the fetched tables of `database_name` under its lower-cased name.
pub fn store_database_tables(cache: &mut CompletionCache, database_name: &str, tables: Vec<String>)
    ensures
        final(cache).database_tables@ == old(cache).database_tables@.insert(
            lowercased(database_name@),
            names_view(tables@),
        ),
        final(cache).tables == old(cache).tables,
        final(cache).databases == old(cache).databases,
        final(cache).columns@ == old(cache).columns@,
        final(cache).is_ready == old(cache).is_ready,
{
    let lower = to_lowercase(database_name);
    cache.database_tables.insert(lower, tables);
}

} // verus!
