//! The SQL-writing assistant: what its tool may run, how query results are
//! handed back to it, how each reply is read (tool calls or the final
//! answer), and how the SQL is taken out of the answer text.
use vstd::prelude::*;

use crate::error::Error;
use crate::query::{is_write_sql, is_write_sql_spec};
use crate::text::{
    chars_of, concat2, concat3, decimal, decimal_string, find, find_in, joined, names_view, push_joined,
    skip_ws_backward, skip_ws_forward, str_eq, str_to_string, string_of, trim,
};

verus! {

/// The most turns the assistant may take.
pub const MAX_AGENT_TURNS: usize = 10;

/// The most rows of a query result handed back to the assistant.
pub const MAX_RESULT_ROWS: usize = 100;

// ---------------------------------------------------------------------
// The answer text
// ---------------------------------------------------------------------

/// The SQL in an answer: inside the first fenced code block (after the
/// rest of the opening fence's line), trimmed; without a complete code
/// block, the whole text trimmed.
pub open spec fn extracted_sql(text: Seq<char>) -> Seq<char> {
    let t = trim(text);
    match find(t, "```"@) {
        None => t,
        Some(s) => {
            let after = t.skip(s + 3);
            let cs = match find(after, seq!['\n']) {
                Some(n) => n + 1,
                None => 0,
            };
            let content = after.skip(cs);
            match find(content, "```"@) {
                Some(e) => trim(content.take(e)),
                None => t,
            }
        },
    }
}

/// Takes the SQL out of an answer (see `extracted_sql`).
#[verifier::spinoff_prover]
#[verifier::rlimit(40)]
pub fn extract_sql_from_text(text: &str) -> (r: String)
    ensures
        r@ == extracted_sql(text@),
{
    let v = chars_of(text);
    let a = skip_ws_forward(&v, 0, v.len());
    let b = skip_ws_backward(&v, a, v.len());
    let ghost t = v@.subrange(a as int, b as int);
    proof {
        assert(v@.subrange(0, v@.len() as int) =~= v@);
        assert(t == trim(text@));
    }
    let fence = chars_of("```");
    proof {
        reveal_strlit("```");
    }
    match find_in(&v, &fence, a, b) {
        None => string_of(&v, a, b),
        Some(i) => {
            proof {
                crate::text::lemma_find_from_bounds(t, fence@, 0);
            }
            let after_start = i + 3;
            let ghost after = t.skip(i - a + 3);
            assert(after =~= v@.subrange(after_start as int, b as int));
            let nl = chars_of("\n");
            proof {
                reveal_strlit("\n");
                assert(nl@ =~= seq!['\n']);
            }
            let cs = match find_in(&v, &nl, after_start, b) {
                Some(n) => {
                    proof {
                        crate::text::lemma_find_from_bounds(after, nl@, 0);
                    }
                    n + 1
                },
                None => after_start,
            };
            let ghost content = v@.subrange(cs as int, b as int);
            assert(content =~= after.skip(cs - after_start));
            match find_in(&v, &fence, cs, b) {
                Some(j) => {
                    proof {
                        crate::text::lemma_find_from_bounds(content, fence@, 0);
                        assert(content.take(j - cs) =~= v@.subrange(cs as int, j as int));
                    }
                    let p = skip_ws_forward(&v, cs, j);
                    let q = skip_ws_backward(&v, p, j);
                    string_of(&v, p, q)
                },
                None => string_of(&v, a, b),
            }
        },
    }
}

// ---------------------------------------------------------------------
// The query tool
// ---------------------------------------------------------------------

/// What the tool answers to a statement that writes.
pub open spec fn write_blocked_text() -> Seq<char> {
    "Error: Write operations are not allowed in the agent context. Only SELECT and schema inspection queries are permitted."@
}

/// The answer to give instead of running `sql`: statements that write
/// are refused; anything else may run.
pub fn tool_query_refusal(sql: &str) -> (r: Option<String>)
    ensures
        r is Some <==> is_write_sql_spec(sql@),
        r matches Some(t) ==> t@ == write_blocked_text(),
{
    if is_write_sql(sql) {
        Some(
            str_to_string(
                "Error: Write operations are not allowed in the agent context. Only SELECT and schema inspection queries are permitted.",
            ),
        )
    } else {
        None
    }
}

/// The tool's answer when the database reports an error.
pub fn tool_query_error(detail: &str) -> (r: String)
    ensures
        r@ == "Query error: "@ + detail@,
{
    concat2("Query error: ", detail)
}

/// Rows as lines of tab-separated values, each followed by a newline.
pub open spec fn tsv_lines(rows: Seq<Seq<Seq<char>>>) -> Seq<char>
    decreases rows.len(),
{
    if rows.len() == 0 {
        Seq::empty()
    } else {
        tsv_lines(rows.drop_last()) + joined(rows.last(), "\t"@) + seq!['\n']
    }
}

/// The cells of a list of rows.
pub open spec fn rows_view(rows: Seq<Vec<String>>) -> Seq<Seq<Seq<char>>> {
    rows.map_values(|r: Vec<String>| names_view(r@))
}

/// A query result as handed back to the assistant: `(empty result)`
/// without rows; otherwise the column names and at most
/// `MAX_RESULT_ROWS` rows as tab-separated lines, and, when rows were
/// left out, a line saying how many there were.
pub open spec fn tool_result_text(columns: Seq<Seq<char>>, rows: Seq<Seq<Seq<char>>>) -> Seq<char> {
    if rows.len() == 0 {
        "(empty result)"@
    } else {
        let shown = if rows.len() > MAX_RESULT_ROWS {
            rows.take(MAX_RESULT_ROWS as int)
        } else {
            rows
        };
        let body = joined(columns, "\t"@) + seq!['\n'] + tsv_lines(shown);
        if rows.len() > MAX_RESULT_ROWS {
            body + "... ("@ + decimal(rows.len()) + " rows total, showing first "@ + decimal(
                MAX_RESULT_ROWS as nat,
            ) + ")"@
        } else {
            body
        }
    }
}

/// Formats a query result for the assistant (see `tool_result_text`).
pub fn format_tool_result(columns: &Vec<String>, rows: &Vec<Vec<String>>) -> (r: String)
    ensures
        r@ == tool_result_text(names_view(columns@), rows_view(rows@)),
{
    if rows.len() == 0 {
        return str_to_string("(empty result)");
    }
    let ghost rv = rows_view(rows@);
    let mut out = String::new();
    push_joined(&mut out, columns, "\t");
    out.append("\n");
    proof {
        reveal_strlit("\n");
    }
    let ghost head = out@;
    assert(head =~= joined(names_view(columns@), "\t"@) + seq!['\n']);
    let n = if rows.len() > MAX_RESULT_ROWS {
        MAX_RESULT_ROWS
    } else {
        rows.len()
    };
    let mut i: usize = 0;
    assert(rv.take(0) =~= Seq::<Seq<Seq<char>>>::empty());
    while i < n
        invariant
            i <= n <= rows@.len(),
            n == if rows@.len() > MAX_RESULT_ROWS {
                MAX_RESULT_ROWS as int
            } else {
                rows@.len() as int
            },
            rv == rows_view(rows@),
            out@ == head + tsv_lines(rv.take(i as int)),
        decreases n - i,
    {
        push_joined(&mut out, &rows[i], "\t");
        out.append("\n");
        proof {
            reveal_strlit("\n");
            assert(rv.take(i + 1).drop_last() =~= rv.take(i as int));
            assert(rv.take(i + 1).last() == names_view(rows@[i as int]@));
        }
        assert(out@ =~= head + tsv_lines(rv.take(i + 1)));
        i = i + 1;
    }
    proof {
        if rows@.len() <= MAX_RESULT_ROWS {
            assert(rv.take(n as int) =~= rv);
        }
    }
    if rows.len() > MAX_RESULT_ROWS {
        out.append("... (");
        let total = decimal_string(rows.len() as u128);
        out.append(total.as_str());
        out.append(" rows total, showing first ");
        let shown = decimal_string(MAX_RESULT_ROWS as u128);
        out.append(shown.as_str());
        out.append(")");
    }
    out
}

// ---------------------------------------------------------------------
// The assistant's replies
// ---------------------------------------------------------------------

/// One block of a reply, as far as it is read.
pub struct ContentBlock {
    /// The block's `type`, when it is a string.
    pub kind: Option<String>,
    /// The tool call's id (empty when absent).
    pub id: String,
    /// The tool's name (empty when absent).
    pub name: String,
    /// The `sql` of the tool call's input (empty when absent).
    pub sql: String,
    /// The block's `text`, when it is a string.
    pub text: Option<String>,
}

/// What the assistant asked a tool for.
pub enum ToolRequest {
    /// Run this statement.
    ExecuteQuery(String),
    /// A tool that does not exist, by name.
    Unknown(String),
}

/// One tool call of a reply.
pub struct ToolCall {
    pub id: String,
    pub request: ToolRequest,
}

/// What a reply asks for next.
pub enum AgentStep {
    /// Run these tool calls and send their results back.
    UseTools(Vec<ToolCall>),
    /// The final answer: this SQL.
    Answer(String),
}

/// The block's type is `t`.
pub open spec fn block_is(b: ContentBlock, t: Seq<char>) -> bool {
    b.kind matches Some(k) && k@ == t
}

/// The tool calls of the blocks, in order: `execute_query` runs its
/// `sql`; any other name is an unknown tool.
pub open spec fn tool_calls(blocks: Seq<ContentBlock>) -> Seq<(Seq<char>, bool, Seq<char>)>
    decreases blocks.len(),
{
    if blocks.len() == 0 {
        Seq::empty()
    } else {
        let r = tool_calls(blocks.drop_last());
        let b = blocks.last();
        if block_is(b, "tool_use"@) {
            if b.name@ == "execute_query"@ {
                r.push((b.id@, true, b.sql@))
            } else {
                r.push((b.id@, false, b.name@))
            }
        } else {
            r
        }
    }
}

/// The text of the first text block (empty when there is none or it has no text).
pub open spec fn first_text(blocks: Seq<ContentBlock>) -> Seq<char>
    decreases blocks.len(),
{
    if blocks.len() == 0 {
        Seq::empty()
    } else if block_is(blocks[0], "text"@) {
        match blocks[0].text {
            Some(t) => t@,
            None => Seq::empty(),
        }
    } else {
        first_text(blocks.drop_first())
    }
}

/// The view of a tool call: its id, whether it runs a query, and the
/// statement (or the unknown tool's name).
pub open spec fn call_view(c: ToolCall) -> (Seq<char>, bool, Seq<char>) {
    match c.request {
        ToolRequest::ExecuteQuery(q) => (c.id@, true, q@),
        ToolRequest::Unknown(n) => (c.id@, false, n@),
    }
}

fn block_has_kind(b: &ContentBlock, t: &str) -> (r: bool)
    ensures
        r == block_is(*b, t@),
{
    match &b.kind {
        Some(k) => str_eq(k.as_str(), t),
        None => false,
    }
}

/// What a reply asks for: the tool calls when it has any (see
/// `tool_calls`), otherwise the SQL of its first text block.
pub fn agent_step(blocks: &Vec<ContentBlock>) -> (r: AgentStep)
    ensures
        tool_calls(blocks@).len() > 0 ==> (r matches AgentStep::UseTools(calls)
            && calls@.map_values(|c: ToolCall| call_view(c)) == tool_calls(blocks@)),
        tool_calls(blocks@).len() == 0 ==> (r matches AgentStep::Answer(sql) && sql@ == extracted_sql(
            first_text(blocks@),
        )),
{
    let mut calls: Vec<ToolCall> = Vec::new();
    let mut i: usize = 0;
    assert(blocks@.take(0) =~= Seq::<ContentBlock>::empty());
    while i < blocks.len()
        invariant
            i <= blocks@.len(),
            calls@.map_values(|c: ToolCall| call_view(c)) == tool_calls(blocks@.take(i as int)),
        decreases blocks.len() - i,
    {
        let b = &blocks[i];
        assert(blocks@.take(i + 1).drop_last() =~= blocks@.take(i as int));
        assert(blocks@.take(i + 1).last() == *b);
        if block_has_kind(b, "tool_use") {
            let id = b.id.clone();
            let request = if str_eq(b.name.as_str(), "execute_query") {
                ToolRequest::ExecuteQuery(b.sql.clone())
            } else {
                ToolRequest::Unknown(b.name.clone())
            };
            let ghost before = calls@;
            calls.push(ToolCall { id, request });
            assert(calls@.map_values(|c: ToolCall| call_view(c)) =~= before.map_values(
                |c: ToolCall| call_view(c),
            ).push(call_view(calls@.last())));
        }
        i = i + 1;
    }
    assert(blocks@.take(blocks@.len() as int) =~= blocks@);
    if calls.len() > 0 {
        return AgentStep::UseTools(calls);
    }
    proof {
        reveal_strlit("");
    }
    let mut j: usize = 0;
    assert(blocks@.skip(0) =~= blocks@);
    while j < blocks.len() && !block_has_kind(&blocks[j], "text")
        invariant
            j <= blocks@.len(),
            first_text(blocks@) == first_text(blocks@.skip(j as int)),
        decreases blocks.len() - j,
    {
        assert(blocks@.skip(j as int).drop_first() =~= blocks@.skip(j + 1));
        j = j + 1;
    }
    if j < blocks.len() {
        assert(blocks@.skip(j as int)[0] == blocks@[j as int]);
        match &blocks[j].text {
            Some(t) => AgentStep::Answer(extract_sql_from_text(t.as_str())),
            None => AgentStep::Answer(extract_sql_from_text("")),
        }
    } else {
        assert(blocks@.skip(j as int).len() == 0);
        AgentStep::Answer(extract_sql_from_text(""))
    }
}

/// The tool's answer to a call of an unknown tool.
pub fn unknown_tool_text(name: &str) -> (r: String)
    ensures
        r@ == "Unknown tool: "@ + name@,
{
    concat2("Unknown tool: ", name)
}


// ---------------------------------------------------------------------
// Failures of the agent loop
// ---------------------------------------------------------------------

/// Why a prompt request failed before the agent produced SQL.
pub enum AgentFailure {
    /// The HTTP client could not be built.
    ClientBuild(String),
    /// The tool definition could not be read.
    ToolDefinition(String),
    /// The request could not be sent.
    Request(String),
    /// The API answered with an error status (as `404 Not Found`) and body.
    Status { status: String, body: String },
    /// The response could not be decoded.
    Decode(String),
    /// The response has no `content` list.
    MissingContent,
    /// The agent kept calling tools for `MAX_AGENT_TURNS` turns.
    TooManyTurns,
}

/// The message of each failure.
pub open spec fn agent_failure_text(f: AgentFailure) -> Seq<char> {
    match f {
        AgentFailure::ClientBuild(d) => "HTTP クライアントの構築に失敗しました: "@ + d@,
        AgentFailure::ToolDefinition(d) => "ツール定義の解析に失敗しました: "@ + d@,
        AgentFailure::Request(d) => "API リクエストに失敗しました: "@ + d@,
        AgentFailure::Status { status, body } => "API がエラーを返しました (HTTP "@ + status@ + "): "@
            + body@,
        AgentFailure::Decode(d) => "レスポンスの解析に失敗しました: "@ + d@,
        AgentFailure::MissingContent => "レスポンスに content フィールドがありません"@,
        AgentFailure::TooManyTurns => "エージェントが最大ターン数を超えました"@,
    }
}

/// The error a failed prompt request ends with: its message as it is.
pub fn agent_error(f: AgentFailure) -> (e: Error)
    ensures
        e matches Error::Other(m) && m@ == agent_failure_text(f),
{
    let m = match f {
        AgentFailure::ClientBuild(d) => concat2("HTTP クライアントの構築に失敗しました: ", d.as_str()),
        AgentFailure::ToolDefinition(d) => concat2("ツール定義の解析に失敗しました: ", d.as_str()),
        AgentFailure::Request(d) => concat2("API リクエストに失敗しました: ", d.as_str()),
        AgentFailure::Status { status, body } => {
            let mut s = concat3("API がエラーを返しました (HTTP ", status.as_str(), "): ");
            s.append(body.as_str());
            s
        },
        AgentFailure::Decode(d) => concat2("レスポンスの解析に失敗しました: ", d.as_str()),
        AgentFailure::MissingContent => str_to_string("レスポンスに content フィールドがありません"),
        AgentFailure::TooManyTurns => str_to_string("エージェントが最大ターン数を超えました"),
    };
    Error::Other(m)
}

/// Whether the agent may take turn `turn` (counted from zero).
pub fn turn_allowed(turn: usize) -> (r: bool)
    ensures
        r == (turn < MAX_AGENT_TURNS),
{
    turn < MAX_AGENT_TURNS
}

} // verus!
