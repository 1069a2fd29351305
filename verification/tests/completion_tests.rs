use sqsh::completion::{
    analyze_context, current_token_with_pos, get_candidates, tokenize_sql, CompletionCache,
    CompletionKind, SqlContext, SQL_KEYWORDS,
};

// analyze_context

#[test]
fn test_analyze_context_empty() {
    assert_eq!(analyze_context(""), SqlContext::Keyword);
}

#[test]
fn test_analyze_context_keyword_prefix() {
    assert_eq!(analyze_context("SEL"), SqlContext::Keyword);
}

#[test]
fn test_analyze_context_from() {
    assert_eq!(analyze_context("SELECT * FROM "), SqlContext::TableName);
}

#[test]
fn test_analyze_context_from_partial() {
    assert_eq!(analyze_context("SELECT * FROM "), SqlContext::TableName);
}

#[test]
fn test_analyze_context_where() {
    let context = analyze_context("SELECT * FROM users WHERE ");
    assert_eq!(context, SqlContext::ColumnName { table: Some("users".to_string()) });
}

#[test]
fn test_analyze_context_use() {
    assert_eq!(analyze_context("USE "), SqlContext::DatabaseName);
}

#[test]
fn test_analyze_context_select_before_from() {
    let context = analyze_context("SELECT ");
    assert_eq!(context, SqlContext::ColumnName { table: None });
}

// current_token_with_pos

#[test]
fn test_current_token_basic() {
    let input = "SELECT * FROM us";
    let cursor = input.len();
    assert_eq!(current_token_with_pos(input, cursor).0, "us");
}

#[test]
fn test_current_token_after_space() {
    let input = "SELECT ";
    let cursor = input.len();
    assert_eq!(current_token_with_pos(input, cursor).0, "");
}

#[test]
fn test_current_token_empty() {
    assert_eq!(current_token_with_pos("", 0).0, "");
}

#[test]
fn test_current_token_full_word() {
    let input = "SELECT";
    let cursor = input.len();
    assert_eq!(current_token_with_pos(input, cursor).0, "SELECT");
}

// tokenize_sql

#[test]
fn test_tokenize_sql_basic() {
    let tokens = tokenize_sql("SELECT * FROM users");
    assert_eq!(tokens, vec!["SELECT", "*", "FROM", "users"]);
}

#[test]
fn test_tokenize_sql_empty() {
    let tokens = tokenize_sql("");
    assert!(tokens.is_empty());
}

#[test]
fn test_tokenize_sql_with_semicolon() {
    let tokens = tokenize_sql("USE mydb;");
    assert_eq!(tokens, vec!["USE", "mydb;"]);
}

// get_candidates

#[test]
fn test_completion_cache_new_initializes_database_tables() {
    let cache = CompletionCache::new();
    assert!(cache.database_tables.is_empty());
    assert!(!cache.is_ready);
}

#[test]
fn test_completion_cache_database_tables_insert() {
    let mut cache = CompletionCache::new();
    cache
        .database_tables
        .insert("warehouse".to_string(), vec!["billing".to_string(), "orders".to_string()]);
    let tables = cache.database_tables.get("warehouse").unwrap();
    assert_eq!(tables.len(), 2);
    assert!(tables.contains(&"billing".to_string()));
}

#[test]
fn test_get_candidates_keyword() {
    let cache = CompletionCache::new();
    let context = SqlContext::Keyword;
    let candidates = get_candidates("SEL", &context, &cache);
    let texts: Vec<&str> = candidates.iter().map(|c| c.text.as_str()).collect();
    assert!(texts.contains(&"SELECT"));
}

#[test]
fn test_get_candidates_table() {
    let mut cache = CompletionCache::new();
    cache.tables = vec!["users".to_string(), "orders".to_string()];
    let context = SqlContext::TableName;
    let candidates = get_candidates("us", &context, &cache);
    assert_eq!(candidates.len(), 1);
    assert_eq!(candidates[0].text, "users");
}

#[test]
fn test_get_candidates_column() {
    let mut cache = CompletionCache::new();
    cache.columns.insert(
        "users".to_string(),
        vec!["id".to_string(), "name".to_string(), "email".to_string()],
    );
    let context = SqlContext::ColumnName { table: Some("users".to_string()) };
    let candidates = get_candidates("n", &context, &cache);
    let texts: Vec<&str> = candidates.iter().map(|c| c.text.as_str()).collect();
    assert!(texts.contains(&"name"));
    assert!(texts.contains(&"NOT"));
}

#[test]
fn test_get_candidates_database() {
    let mut cache = CompletionCache::new();
    cache.databases = vec!["mydb".to_string(), "testdb".to_string()];
    let context = SqlContext::DatabaseName;
    let candidates = get_candidates("my", &context, &cache);
    assert_eq!(candidates.len(), 1);
    assert_eq!(candidates[0].text, "mydb");
}

#[test]
fn test_get_candidates_empty_prefix_keyword() {
    let cache = CompletionCache::new();
    let context = SqlContext::Keyword;
    let candidates = get_candidates("", &context, &cache);
    assert_eq!(candidates.len(), SQL_KEYWORDS.len());
}

#[test]
fn test_get_candidates_no_match() {
    let mut cache = CompletionCache::new();
    cache.tables = vec!["users".to_string()];
    let context = SqlContext::TableName;
    let candidates = get_candidates("xyz", &context, &cache);
    assert!(candidates.is_empty());
}

#[test]
fn test_analyze_context_from_partial_table() {
    assert_eq!(analyze_context("SELECT * FROM d"), SqlContext::TableName);
}

#[test]
fn test_analyze_context_use_partial_db() {
    assert_eq!(analyze_context("USE my"), SqlContext::DatabaseName);
}

#[test]
fn test_analyze_context_where_partial_column() {
    let context = analyze_context("SELECT * FROM users WHERE n");
    assert_eq!(context, SqlContext::ColumnName { table: Some("users".to_string()) });
}

#[test]
fn test_analyze_context_join_partial_table() {
    assert_eq!(analyze_context("SELECT * FROM users JOIN o"), SqlContext::TableName);
}

#[test]
fn test_get_candidates_column_includes_keywords() {
    let cache = CompletionCache::new();
    let context = SqlContext::ColumnName { table: None };
    let candidates = get_candidates("FR", &context, &cache);
    let texts: Vec<&str> = candidates.iter().map(|c| c.text.as_str()).collect();
    assert!(texts.contains(&"FROM"));
}

// Further cases of this library.

#[test]
fn candidates_for_a_database_qualified_table() {
    let mut cache = CompletionCache::new();
    cache
        .database_tables
        .insert("warehouse".to_string(), vec!["billing".to_string(), "orders".to_string()]);
    let context = SqlContext::DatabaseTableName { database: "warehouse".to_string() };
    let candidates = get_candidates("bi", &context, &cache);
    assert_eq!(candidates.len(), 1);
    assert_eq!(candidates[0].text, "billing");
    assert_eq!(candidates[0].kind, CompletionKind::Table);
}

#[test]
fn current_token_reports_its_byte_start() {
    let input = "SELECT * FROM テー";
    let (token, start) = current_token_with_pos(input, input.len());
    assert_eq!(token, "テー");
    assert_eq!(start, "SELECT * FROM ".len());
}

#[test]
fn tokenize_keeps_quoted_text_together() {
    let tokens = tokenize_sql("SELECT 'a b',c FROM t");
    assert_eq!(tokens, vec!["SELECT", "'a b'", ",c", "FROM", "t"]);
}
