use sqsh::claude::{
    agent_error, extract_sql_from_text, format_tool_result, tool_query_error, tool_query_refusal,
    turn_allowed, AgentFailure, MAX_AGENT_TURNS,
};
use sqsh::error::Error;
use sqsh::query::is_write_sql;

#[test]
fn test_extract_sql_from_code_block() {
    let text = "Here is the SQL:\n```sql\nSELECT * FROM users;\n```";
    let sql = extract_sql_from_text(text);
    assert_eq!(sql, "SELECT * FROM users;");
}

#[test]
fn test_extract_sql_from_plain_code_block() {
    let text = "```\nSELECT id FROM orders\n```";
    let sql = extract_sql_from_text(text);
    assert_eq!(sql, "SELECT id FROM orders");
}

#[test]
fn test_extract_sql_no_code_block() {
    let text = "SELECT * FROM users WHERE id = 1";
    let sql = extract_sql_from_text(text);
    assert_eq!(sql, "SELECT * FROM users WHERE id = 1");
}

#[test]
fn test_extract_sql_trims_whitespace() {
    let text = "   SELECT 1   ";
    let sql = extract_sql_from_text(text);
    assert_eq!(sql, "SELECT 1");
}

#[test]
fn test_write_sql_blocked_in_agent_context() {
    assert!(is_write_sql("INSERT INTO t VALUES (1)"));
    assert!(is_write_sql("DELETE FROM t"));
    assert!(is_write_sql("DROP TABLE t"));
    assert!(!is_write_sql("SELECT * FROM t"));
    assert!(!is_write_sql("SELECT table_name FROM information_schema.tables"));
}

// Further cases of this library.

#[test]
fn tool_refuses_writes_and_allows_reads() {
    let refusal = tool_query_refusal("DELETE FROM t").unwrap();
    assert!(refusal.starts_with("Error: Write operations are not allowed"));
    assert!(tool_query_refusal("SELECT 1").is_none());
    assert_eq!(tool_query_error("bad syntax"), "Query error: bad syntax");
}

#[test]
fn tool_results_are_tab_separated_and_capped() {
    let columns = vec!["a".to_string(), "b".to_string()];
    let rows = vec![vec!["1".to_string(), "2".to_string()]];
    assert_eq!(format_tool_result(&columns, &rows), "a\tb\n1\t2\n");
    assert_eq!(format_tool_result(&columns, &vec![]), "(empty result)");
    let many: Vec<Vec<String>> = (0..105).map(|i| vec![i.to_string(), "x".to_string()]).collect();
    let text = format_tool_result(&columns, &many);
    assert!(text.ends_with("... (105 rows total, showing first 100)"));
    assert_eq!(text.lines().count(), 102);
}

#[test]
fn unterminated_code_block_falls_back_to_the_whole_text() {
    assert_eq!(extract_sql_from_text("```sql\nSELECT 1"), "```sql\nSELECT 1");
}

#[test]
fn agent_failures_keep_their_messages() {
    let e = agent_error(AgentFailure::Status { status: "404 Not Found".to_string(), body: "{}".to_string() });
    assert!(matches!(&e, Error::Other(m) if m == "API がエラーを返しました (HTTP 404 Not Found): {}"));
    let e = agent_error(AgentFailure::TooManyTurns);
    assert_eq!(e.display(), "エージェントが最大ターン数を超えました");
    assert!(turn_allowed(MAX_AGENT_TURNS - 1));
    assert!(!turn_allowed(MAX_AGENT_TURNS));
}
