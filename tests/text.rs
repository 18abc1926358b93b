use taotie::summary::sort_by_label;
use taotie::text::{contains, decimal, ends_with, starts_with, str_eq, text_le_exec};
use taotie::{Cell, DescribeMethod, SummaryRow};

#[test]
fn decimal_rendering() {
    assert_eq!(decimal(0), "0");
    assert_eq!(decimal(7), "7");
    assert_eq!(decimal(10), "10");
    assert_eq!(decimal(1234567890), "1234567890");
    assert_eq!(decimal(u64::MAX), "18446744073709551615");
}

#[test]
fn searching_text() {
    assert!(contains("hello world", "o w"));
    assert!(contains("abc", ""));
    assert!(!contains("abc", "abcd"));
    assert!(starts_with("postgres://x", "postgres://"));
    assert!(!starts_with("postgre", "postgres://"));
    assert!(ends_with("a.parquet", ".parquet"));
    assert!(!ends_with("a.parquet.gz", ".parquet"));
    assert!(str_eq("gz", "gz"));
    assert!(!str_eq("gz", "g"));
}

#[test]
fn lexicographic_order() {
    assert!(text_le_exec("max", "mean"));
    assert!(!text_le_exec("mean", "max"));
    assert!(text_le_exec("min", "min"));
    assert!(text_le_exec("null", "null_total"));
    assert!(text_le_exec("percentile_90", "percentile_95"));
    assert!(text_le_exec("Z", "a"));
}

#[test]
fn sorting_rows_by_label() {
    let row = |label: &str, v: u8| SummaryRow {
        method: DescribeMethod::Percentile(v),
        label: label.to_string(),
        cells: vec![Cell::Value(v)],
    };
    let rows = vec![row("b", 1), row("a", 2), row("c", 3), row("a", 4)];
    let sorted = sort_by_label(rows);
    let got: Vec<(String, u8)> = sorted
        .iter()
        .map(|r| match r.cells[0] {
            Cell::Value(v) => (r.label.clone(), v),
            Cell::NotApplicable => panic!(),
        })
        .collect();
    assert_eq!(
        got,
        vec![
            ("a".to_string(), 2),
            ("a".to_string(), 4),
            ("b".to_string(), 1),
            ("c".to_string(), 3)
        ]
    );
}
