use sqsh::perf::Duration;
use sqsh::query::{
    command_result, escape_identifier, format_bytes, is_non_prepared_command, memory_estimate,
    sanitize_for_display, unknown_type_text, use_database_statement, value_kind, QueryResult,
    ValueKind,
};

#[test]
fn test_escape_identifier_plain() {
    assert_eq!(escape_identifier("users"), "`users`");
}

#[test]
fn test_escape_identifier_with_backtick() {
    assert_eq!(escape_identifier("my`table"), "`my``table`");
}

#[test]
fn test_escape_identifier_empty() {
    assert_eq!(escape_identifier(""), "``");
}

#[test]
fn test_query_result_creation() {
    let result = QueryResult {
        columns: vec!["id".to_string(), "name".to_string()],
        rows: vec![
            vec!["1".to_string(), "Alice".to_string()],
            vec!["2".to_string(), "Bob".to_string()],
        ],
        execution_time: Duration::from_millis(100),
        should_display: true,
    };

    assert_eq!(result.columns.len(), 2);
    assert_eq!(result.row_count(), 2);
    assert_eq!(result.rows.len(), 2);
    assert!(result.should_display);
}

#[test]
fn test_query_result_empty() {
    let result = QueryResult {
        columns: vec![],
        rows: vec![],
        execution_time: Duration::from_millis(10),
        should_display: true,
    };

    assert_eq!(result.columns.len(), 0);
    assert_eq!(result.row_count(), 0);
    assert_eq!(result.rows.len(), 0);
}

#[test]
fn test_query_result_with_null_values() {
    let result = QueryResult {
        columns: vec!["id".to_string(), "name".to_string(), "age".to_string()],
        rows: vec![
            vec!["1".to_string(), "Alice".to_string(), "NULL".to_string()],
            vec!["2".to_string(), "NULL".to_string(), "30".to_string()],
        ],
        execution_time: Duration::from_millis(50),
        should_display: true,
    };

    assert_eq!(result.row_count(), 2);
    assert_eq!(result.rows[0][2], "NULL");
    assert_eq!(result.rows[1][1], "NULL");
}

#[test]
fn test_memory_usage_estimation() {
    let result = QueryResult {
        columns: vec!["id".to_string(), "name".to_string()],
        rows: vec![
            vec!["1".to_string(), "Alice".to_string()],
            vec!["2".to_string(), "Bob".to_string()],
        ],
        execution_time: Duration::from_millis(100),
        should_display: true,
    };

    let memory_usage = result.estimate_memory_usage();
    assert!(memory_usage > 0);

    let formatted = result.format_memory_usage();
    assert!(!formatted.is_empty());
    assert!(formatted.contains("B") || formatted.contains("KB") || formatted.contains("MB"));
}

#[test]
fn test_memory_usage_large_result() {
    let mut rows = Vec::new();
    for i in 0..10000 {
        rows.push(vec![i.to_string(), format!("User_{}", i), format!("user_{}@example.com", i)]);
    }

    let result = QueryResult {
        columns: vec!["id".to_string(), "name".to_string(), "email".to_string()],
        rows,
        execution_time: Duration::from_millis(500),
        should_display: true,
    };

    let memory_usage = result.estimate_memory_usage();
    assert!(memory_usage > 100_000);

    let formatted = result.format_memory_usage();
    println!("Memory usage for 10000 rows: {}", formatted);
}

// Further cases of this library.

#[test]
fn byte_counts_are_shown_as_two_decimal_floats_would_be() {
    for bytes in [
        0usize, 1, 1023, 1024, 1025, 1152, 1536, 4000, 10_240, 1_048_575, 1_048_576, 1_572_864,
        5_000_000, 1_073_741_823, 1_073_741_824, 1_610_612_736, 123_456_789_012,
    ] {
        let expected = if bytes < 1024 {
            format!("{} B", bytes)
        } else if bytes < 1024 * 1024 {
            format!("{:.2} KB", bytes as f64 / 1024.0)
        } else if bytes < 1024 * 1024 * 1024 {
            format!("{:.2} MB", bytes as f64 / (1024.0 * 1024.0))
        } else {
            format!("{:.2} GB", bytes as f64 / (1024.0 * 1024.0 * 1024.0))
        };
        assert_eq!(format_bytes(bytes), expected, "bytes = {}", bytes);
    }
}

#[test]
fn huge_byte_counts_round_like_f64() {
    for bytes in [usize::MAX, usize::MAX - 1, (1usize << 53) + 1, (1usize << 60) + 12345] {
        let expected = format!("{:.2} GB", bytes as f64 / (1024.0 * 1024.0 * 1024.0));
        assert_eq!(format_bytes(bytes), expected, "bytes = {}", bytes);
    }
}

#[test]
fn exact_ties_round_to_even() {
    assert_eq!(format_bytes(1152), "1.12 KB");
    assert_eq!(format_bytes(1152), format!("{:.2} KB", 1152f64 / 1024.0));
}

#[test]
fn memory_estimate_adds_capacities_and_headers() {
    let r = memory_estimate(&vec![2, 4], &vec![vec![1, 5], vec![3]], 24);
    assert_eq!(r, 2 + 4 + 1 + 5 + 3 + 24 * 3);
    let saturated = memory_estimate(&vec![usize::MAX], &vec![], 1);
    assert_eq!(saturated, usize::MAX);
}

#[test]
fn sanitize_replaces_control_characters() {
    assert_eq!(sanitize_for_display("a\nb\tc\r\u{7}d"), "a⏎b→c d");
}

#[test]
fn use_and_set_run_as_plain_commands() {
    assert!(is_non_prepared_command("  use mydb"));
    assert!(is_non_prepared_command("SET NAMES utf8mb4"));
    assert!(!is_non_prepared_command("SELECT 1"));
    assert!(!is_non_prepared_command("USER"));
    assert_eq!(use_database_statement("my`db"), "USE `my``db`");
    let r = command_result(Duration::from_millis(3));
    assert!(!r.should_display);
    assert_eq!(r.row_count(), 0);
}

#[test]
fn column_types_choose_how_cells_are_read() {
    assert_eq!(value_kind("INT UNSIGNED"), ValueKind::Integer);
    assert_eq!(value_kind("boolean"), ValueKind::Integer);
    assert_eq!(value_kind("DOUBLE"), ValueKind::Float);
    assert_eq!(value_kind("DECIMAL(10,2)"), ValueKind::Decimal);
    assert_eq!(value_kind("VARCHAR"), ValueKind::Text);
    assert_eq!(value_kind("DATETIME(6)"), ValueKind::DateTime);
    assert_eq!(value_kind("TIMESTAMP"), ValueKind::Timestamp);
    assert_eq!(value_kind("DATE"), ValueKind::Date);
    assert_eq!(value_kind("TIME"), ValueKind::Time);
    assert_eq!(value_kind("YEAR"), ValueKind::Year);
    assert_eq!(value_kind("json"), ValueKind::Json);
    assert_eq!(value_kind("VARBINARY(16)"), ValueKind::Blob);
    assert_eq!(value_kind("GEOMETRY"), ValueKind::Other);
    assert_eq!(unknown_type_text("GEOMETRY"), "[GEOMETRY]");
}
