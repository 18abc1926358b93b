use taotie::describe::is_empty_aggregate_error;
use taotie::method::{catalog, PERCENTILE_CENTROIDS};
use taotie::{
    Aggregate, AggregateQuery, Cell, ColumnType, DataFrameDescriber, DataType, DescribeError,
    DescribeMethod, DisplayCast, EngineReply, Field, Normalization, SummaryTable,
};

/// Column data for a small in-memory engine.
#[derive(Clone)]
enum Values {
    Num(Vec<Option<f64>>),
    Text(Vec<Option<&'static str>>),
    Bool(Vec<Option<bool>>),
    Lists(Vec<Option<Vec<f64>>>),
}

struct Column {
    name: &'static str,
    data_type: DataType,
    values: Values,
}

fn normalize(values: &Values, normalization: Normalization) -> Vec<Option<f64>> {
    match (values, normalization) {
        (Values::Num(v), Normalization::Identity | Normalization::CastFloat64) => v.clone(),
        (Values::Num(v), Normalization::StringLength) => v
            .iter()
            .map(|x| x.map(|x| x.to_string().chars().count() as f64))
            .collect(),
        (Values::Text(v), _) => v.iter().map(|x| x.map(|s| s.chars().count() as f64)).collect(),
        (Values::Bool(v), _) => v
            .iter()
            .map(|x| x.map(|b| b.to_string().chars().count() as f64))
            .collect(),
        (Values::Lists(v), _) => v.iter().map(|x| x.as_ref().map(|l| l.len() as f64)).collect(),
        (Values::Num(v), Normalization::ArrayLength) => v.clone(),
    }
}

fn percentile_of(sorted: &[f64], p: f64) -> Option<f64> {
    if sorted.is_empty() {
        return None;
    }
    let rank = p * (sorted.len() - 1) as f64;
    let lo = rank.floor() as usize;
    let hi = rank.ceil() as usize;
    Some(sorted[lo] + (sorted[hi] - sorted[lo]) * (rank - lo as f64))
}

fn aggregate(func: Aggregate, column: &[Option<f64>]) -> Option<f64> {
    let mut present: Vec<f64> = column.iter().flatten().copied().collect();
    present.sort_by(|a, b| a.partial_cmp(b).unwrap());
    let n = present.len() as f64;
    let mean = if present.is_empty() { None } else { Some(present.iter().sum::<f64>() / n) };
    match func {
        Aggregate::Count => Some(n),
        Aggregate::NullCount => Some(column.iter().filter(|v| v.is_none()).count() as f64),
        Aggregate::Avg => mean,
        Aggregate::Stddev => {
            if present.len() < 2 {
                return None;
            }
            let m = mean.unwrap();
            let var = present.iter().map(|x| (x - m) * (x - m)).sum::<f64>() / (n - 1.0);
            Some(var.sqrt())
        }
        Aggregate::Min => present.first().copied(),
        Aggregate::Max => present.last().copied(),
        Aggregate::Median => percentile_of(&present, 0.5),
        Aggregate::ApproxPercentile(p) => percentile_of(&present, p as f64 / 100.0),
    }
}

fn fields(columns: &[Column]) -> Vec<Field> {
    columns
        .iter()
        .map(|c| Field::new(c.name.to_string(), c.data_type))
        .collect()
}

fn answer(
    describer: &DataFrameDescriber,
    columns: &[Column],
    query: &AggregateQuery,
) -> EngineReply<Option<f64>> {
    if query.exprs.is_empty() {
        return EngineReply::NotSubmitted;
    }
    let normalized = describer.normalized_columns();
    EngineReply::Row(
        query
            .exprs
            .iter()
            .map(|e| {
                let n = &normalized[e.column];
                aggregate(e.func, &normalize(&columns[e.column].values, n.normalization))
            })
            .collect(),
    )
}

fn run(columns: &[Column]) -> SummaryTable<Option<f64>> {
    let describer = DataFrameDescriber::try_new(fields(columns)).unwrap();
    let replies = describer
        .queries()
        .iter()
        .map(|q| answer(&describer, columns, q))
        .collect();
    describer.describe(replies).unwrap()
}

fn cell<'a>(t: &'a SummaryTable<Option<f64>>, label: &str, column: usize) -> &'a Cell<Option<f64>> {
    let row = t.rows.iter().find(|r| r.label == label).expect("row");
    &row.cells[column]
}

fn value(t: &SummaryTable<Option<f64>>, label: &str, column: usize) -> f64 {
    match cell(t, label, column) {
        Cell::Value(Some(v)) => *v,
        other => panic!("no value for {label}: {other:?}"),
    }
}

fn is_null(t: &SummaryTable<Option<f64>>, label: &str, column: usize) -> bool {
    matches!(cell(t, label, column), Cell::NotApplicable)
}

fn labels(t: &SummaryTable<Option<f64>>) -> Vec<String> {
    t.rows.iter().map(|r| r.label.clone()).collect()
}

const SORTED_LABELS: [&str; 12] = [
    "max",
    "mean",
    "median",
    "min",
    "null_total",
    "percentile_50",
    "percentile_75",
    "percentile_90",
    "percentile_95",
    "percentile_99",
    "stddev",
    "total",
];

fn int_and_float(ints: Vec<Option<f64>>, floats: Vec<Option<f64>>) -> Vec<Column> {
    vec![
        Column { name: "int_col", data_type: DataType::Int32, values: Values::Num(ints) },
        Column { name: "float_col", data_type: DataType::Float64, values: Values::Num(floats) },
    ]
}

fn mixed() -> Vec<Column> {
    vec![
        Column {
            name: "n",
            data_type: DataType::Int64,
            values: Values::Num(vec![Some(2.0), Some(4.0), None]),
        },
        Column {
            name: "s",
            data_type: DataType::Utf8,
            values: Values::Text(vec![Some("ab"), None, Some("abcd")]),
        },
        Column {
            name: "b",
            data_type: DataType::Boolean,
            values: Values::Bool(vec![Some(true), Some(false), None]),
        },
        Column {
            name: "bin",
            data_type: DataType::Binary,
            values: Values::Text(vec![Some("x"), Some("yz"), Some("")]),
        },
        Column {
            name: "d",
            data_type: DataType::Date32,
            values: Values::Num(vec![Some(19000.0), None, Some(19002.0)]),
        },
        Column {
            name: "l",
            data_type: DataType::List,
            values: Values::Lists(vec![Some(vec![1.0, 2.0]), None, Some(vec![])]),
        },
    ]
}

#[test]
fn summary_of_five_values() {
    let t = run(&int_and_float(
        vec![Some(1.0), Some(2.0), Some(3.0), Some(4.0), Some(5.0)],
        vec![Some(1.0), Some(2.0), Some(3.0), Some(4.0), Some(5.0)],
    ));
    assert_eq!(labels(&t), SORTED_LABELS.to_vec());
    for col in 0..2 {
        assert_eq!(value(&t, "mean", col), 3.0);
        assert_eq!(value(&t, "stddev", col), 1.5811388300841898);
        assert_eq!(value(&t, "median", col), 3.0);
        assert_eq!(value(&t, "min", col), 1.0);
        assert_eq!(value(&t, "max", col), 5.0);
        assert_eq!(value(&t, "percentile_50", col), 3.0);
        assert_eq!(value(&t, "total", col), 5.0);
        assert_eq!(value(&t, "null_total", col), 0.0);
    }
}

#[test]
fn summary_with_null_values() {
    let t = run(&int_and_float(
        vec![Some(1.0), None, Some(3.0), None, Some(3.0), Some(4.0), Some(5.0)],
        vec![Some(1.0), Some(2.0), None, Some(2.0), None, Some(4.0), Some(5.0)],
    ));
    assert_eq!(labels(&t), SORTED_LABELS.to_vec());
    assert_eq!(value(&t, "null_total", 0), 2.0);
    assert_eq!(value(&t, "null_total", 1), 2.0);
    assert_eq!(value(&t, "total", 0), 5.0);
    assert_eq!(value(&t, "total", 1), 5.0);
    assert!((value(&t, "mean", 0) - 3.2).abs() < 1e-12);
    assert!((value(&t, "mean", 1) - 2.8).abs() < 1e-12);
    assert_eq!(value(&t, "median", 0), 3.0);
    assert_eq!(value(&t, "median", 1), 2.0);
    assert!((value(&t, "stddev", 0) - 1.4832396974191326).abs() < 1e-12);
    assert!((value(&t, "stddev", 1) - 1.6431676725154984).abs() < 1e-12);
    assert_eq!(value(&t, "min", 0), 1.0);
    assert_eq!(value(&t, "max", 1), 5.0);
}

#[test]
fn columns_keep_dataset_order() {
    let t = run(&mixed());
    let names: Vec<&str> = t.columns.iter().map(|c| c.name.as_str()).collect();
    assert_eq!(names, vec!["n", "s", "b", "bin", "d", "l"]);
    for row in &t.rows {
        assert_eq!(row.cells.len(), 6);
    }
    let casts: Vec<DisplayCast> = t.columns.iter().map(|c| c.display).collect();
    assert_eq!(
        casts,
        vec![
            DisplayCast::Keep,
            DisplayCast::Keep,
            DisplayCast::Keep,
            DisplayCast::Keep,
            DisplayCast::Temporal,
            DisplayCast::Int32
        ]
    );
}

#[test]
fn rows_are_every_statistic_sorted_by_label() {
    let t = run(&mixed());
    assert_eq!(t.rows.len(), catalog().len());
    assert_eq!(labels(&t), SORTED_LABELS.to_vec());
    for w in t.rows.windows(2) {
        assert!(w[0].label < w[1].label);
    }
    for row in &t.rows {
        assert_eq!(row.label, row.method.label());
    }
}

#[test]
fn boolean_and_binary_have_no_min_or_max() {
    let t = run(&mixed());
    for label in ["min", "max"] {
        assert!(is_null(&t, label, 2));
        assert!(is_null(&t, label, 3));
        assert!(!is_null(&t, label, 0));
        assert!(!is_null(&t, label, 1));
    }
    assert_eq!(value(&t, "min", 1), 2.0);
    assert_eq!(value(&t, "max", 1), 4.0);
    assert_eq!(value(&t, "max", 4), 19002.0);
    assert_eq!(value(&t, "max", 5), 2.0);
    assert_eq!(value(&t, "total", 2), 2.0);
}

#[test]
fn only_numeric_columns_have_moments() {
    let t = run(&mixed());
    for label in ["mean", "stddev", "median"] {
        assert!(!is_null(&t, label, 0));
        for col in 1..6 {
            assert!(is_null(&t, label, col));
        }
    }
    assert_eq!(value(&t, "mean", 0), 3.0);
    assert!(!is_null(&t, "percentile_50", 1));
}

#[test]
fn describing_twice_gives_the_same_table() {
    let columns = mixed();
    let a = run(&columns);
    let b = run(&columns);
    assert_eq!(format!("{a:?}"), format!("{b:?}"));
}

#[test]
fn totals_count_values_and_nulls() {
    let t = run(&mixed());
    let expected = [(2.0, 1.0), (2.0, 1.0), (2.0, 1.0), (3.0, 0.0), (2.0, 1.0), (2.0, 1.0)];
    for (col, (k, m)) in expected.iter().enumerate() {
        assert_eq!(value(&t, "total", col), *k);
        assert_eq!(value(&t, "null_total", col), *m);
    }
}

#[test]
fn queries_select_applicable_columns() {
    let d = DataFrameDescriber::try_new(fields(&mixed())).unwrap();
    let qs = d.queries();
    assert_eq!(qs.len(), 12);
    let cols = |k: usize| qs[k].exprs.iter().map(|e| e.column).collect::<Vec<_>>();
    assert_eq!(qs[0].method, DescribeMethod::Total);
    assert_eq!(cols(0), vec![0, 1, 2, 3, 4, 5]);
    assert_eq!(cols(1), vec![0, 1, 2, 3, 4, 5]);
    assert_eq!(cols(2), vec![0]);
    assert_eq!(cols(3), vec![0]);
    assert_eq!(cols(4), vec![0, 1, 4, 5]);
    assert_eq!(cols(5), vec![0, 1, 4, 5]);
    assert_eq!(cols(6), vec![0]);
    assert_eq!(cols(11), vec![0, 1, 2, 3, 4, 5]);
    assert_eq!(qs[4].exprs[2].name, "d");
    assert_eq!(qs[4].exprs[2].func, Aggregate::Min);
    assert_eq!(qs[1].exprs[0].func, Aggregate::NullCount);
    assert_eq!(qs[9].method, DescribeMethod::Percentile(90));
    assert_eq!(qs[9].exprs[0].func, Aggregate::ApproxPercentile(90));
    assert_eq!(PERCENTILE_CENTROIDS, 100);
}

#[test]
fn normalization_follows_column_type() {
    let d = DataFrameDescriber::try_new(fields(&mixed())).unwrap();
    let n: Vec<Normalization> = d.normalized_columns().iter().map(|c| c.normalization).collect();
    assert_eq!(
        n,
        vec![
            Normalization::Identity,
            Normalization::StringLength,
            Normalization::StringLength,
            Normalization::StringLength,
            Normalization::CastFloat64,
            Normalization::ArrayLength
        ]
    );
    assert_eq!(d.normalized_columns()[3].name, "bin");
}

#[test]
fn classification_is_total() {
    assert_eq!(DataType::Int8.classify(), ColumnType::Numeric);
    assert_eq!(DataType::Decimal128.classify(), ColumnType::Numeric);
    assert_eq!(DataType::Float16.classify(), ColumnType::Numeric);
    assert_eq!(DataType::Timestamp.classify(), ColumnType::Temporal);
    assert_eq!(DataType::Interval.classify(), ColumnType::Temporal);
    assert_eq!(DataType::LargeList.classify(), ColumnType::ListLike);
    assert_eq!(DataType::FixedSizeList.classify(), ColumnType::Textual);
    assert_eq!(DataType::Utf8.classify(), ColumnType::Textual);
    assert_eq!(DataType::Null.classify(), ColumnType::Textual);
    assert_eq!(DataType::Other.classify(), ColumnType::Textual);
}

#[test]
fn labels_of_statistics() {
    let labels: Vec<String> = catalog().iter().map(|m| m.label()).collect();
    assert_eq!(
        labels,
        vec![
            "total",
            "null_total",
            "mean",
            "stddev",
            "min",
            "max",
            "median",
            "percentile_50",
            "percentile_75",
            "percentile_90",
            "percentile_95",
            "percentile_99"
        ]
    );
    assert_eq!(DescribeMethod::Percentile(5).label(), "percentile_5");
}

#[test]
fn empty_aggregate_error_is_tolerated() {
    let columns = vec![Column {
        name: "flag",
        data_type: DataType::Boolean,
        values: Values::Bool(vec![Some(true), None]),
    }];
    let describer = DataFrameDescriber::try_new(fields(&columns)).unwrap();
    let replies: Vec<EngineReply<Option<f64>>> = describer
        .queries()
        .iter()
        .map(|q| {
            if q.exprs.is_empty() {
                EngineReply::Failed(
                    "Error during planning: Aggregate requires at least one grouping or aggregate expression. Please use VALUES instead."
                        .to_string(),
                )
            } else {
                answer(&describer, &columns, q)
            }
        })
        .collect();
    let t = describer.describe(replies).unwrap();
    assert!(is_null(&t, "min", 0));
    assert!(is_null(&t, "mean", 0));
    assert_eq!(value(&t, "total", 0), 1.0);
    assert_eq!(value(&t, "null_total", 0), 1.0);
}

#[test]
fn other_engine_errors_fail_the_call() {
    let columns = int_and_float(vec![Some(1.0)], vec![Some(2.0)]);
    let describer = DataFrameDescriber::try_new(fields(&columns)).unwrap();
    let replies: Vec<EngineReply<Option<f64>>> = describer
        .queries()
        .iter()
        .enumerate()
        .map(|(k, q)| match k {
            3 => EngineReply::Failed("Cast error: bad value".to_string()),
            5 => EngineReply::Failed("IO error: gone".to_string()),
            _ => answer(&describer, &columns, q),
        })
        .collect();
    match describer.describe(replies) {
        Err(DescribeError::Engine(msg)) => assert_eq!(msg, "Cast error: bad value"),
        other => panic!("unexpected: {other:?}"),
    }
}

#[test]
fn duplicate_column_names_are_rejected() {
    let f = vec![
        Field::new("a".to_string(), DataType::Int32),
        Field::new("b".to_string(), DataType::Utf8),
        Field::new("a".to_string(), DataType::Float64),
    ];
    match DataFrameDescriber::try_new(f) {
        Err(DescribeError::DuplicateColumn(name)) => assert_eq!(name, "a"),
        _ => panic!("expected a duplicate column error"),
    }
}

#[test]
fn dataset_without_columns() {
    let t = run(&[]);
    assert!(t.columns.is_empty());
    assert_eq!(labels(&t), SORTED_LABELS.to_vec());
}

#[test]
fn empty_aggregate_message_predicate() {
    assert!(is_empty_aggregate_error(
        "Error during planning: Aggregate requires at least one grouping or aggregate expression"
    ));
    assert!(!is_empty_aggregate_error("Aggregate requires at least one"));
    assert!(!is_empty_aggregate_error(""));
}
