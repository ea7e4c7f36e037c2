use taotie::describe::{
    push_decimal, AggregateFn, Cell, DataFrameDescriber, DescribeError, DescribeMethod,
    PassOutcome,
};
use taotie::order::name_le;
use taotie::schema::{
    cast_back_rule, classify, transform, value_type, CastBack, ColumnDescriptor, DataKind,
    TransformRule, ValueType,
};

fn col(name: &str, kind: DataKind) -> ColumnDescriptor {
    ColumnDescriptor::new(name.to_string(), kind, true)
}

fn scenario_schema() -> Vec<ColumnDescriptor> {
    vec![
        col("id", DataKind::Int64),
        col("name", DataKind::Utf8),
        col("joined", DataKind::Date32),
    ]
}

fn row(values: &[Option<&str>]) -> PassOutcome {
    PassOutcome::Row(values.iter().map(|v| v.map(|s| s.to_string())).collect())
}

fn full_outcomes() -> Vec<PassOutcome> {
    (0..10)
        .map(|i| {
            let v = format!("{}", i);
            row(&[Some(v.as_str()), Some(v.as_str()), Some(v.as_str())])
        })
        .collect()
}

#[test]
fn classify_follows_declared_type() {
    assert_eq!(classify(DataKind::Date32), TransformRule::CastToFloat);
    assert_eq!(classify(DataKind::Timestamp), TransformRule::CastToFloat);
    assert_eq!(classify(DataKind::Int64), TransformRule::Passthrough);
    assert_eq!(classify(DataKind::Float64), TransformRule::Passthrough);
    assert_eq!(classify(DataKind::Decimal128), TransformRule::Passthrough);
    assert_eq!(classify(DataKind::List), TransformRule::ListLength);
    assert_eq!(classify(DataKind::Utf8), TransformRule::TextLength);
    assert_eq!(classify(DataKind::Boolean), TransformRule::TextLength);
    assert_eq!(classify(DataKind::Binary), TransformRule::TextLength);
    assert_eq!(classify(DataKind::LargeList), TransformRule::ListLength);
}

#[test]
fn transform_keeps_order_and_names() {
    let p = transform(&scenario_schema());
    let names: Vec<&str> = p.iter().map(|i| i.name.as_str()).collect();
    assert_eq!(names, vec!["id", "name", "joined"]);
    let rules: Vec<TransformRule> = p.iter().map(|i| i.rule).collect();
    assert_eq!(
        rules,
        vec![TransformRule::Passthrough, TransformRule::TextLength, TransformRule::CastToFloat]
    );
}

#[test]
fn presentation_and_cast_back_rules() {
    assert_eq!(value_type(DataKind::Int32), ValueType::Float64);
    assert_eq!(value_type(DataKind::Date64), ValueType::Utf8);
    assert_eq!(value_type(DataKind::Utf8), ValueType::Utf8);
    assert_eq!(cast_back_rule(DataKind::Date32), CastBack::Original(DataKind::Date32));
    assert_eq!(cast_back_rule(DataKind::List), CastBack::Int32);
    assert_eq!(cast_back_rule(DataKind::LargeList), CastBack::Int32);
    assert_eq!(cast_back_rule(DataKind::Float32), CastBack::Keep);
}

#[test]
fn method_names() {
    assert_eq!(DescribeMethod::Count.name(), "count");
    assert_eq!(DescribeMethod::NullCount.name(), "null_count");
    assert_eq!(DescribeMethod::Mean.name(), "mean");
    assert_eq!(DescribeMethod::Std.name(), "std");
    assert_eq!(DescribeMethod::Min.name(), "min");
    assert_eq!(DescribeMethod::Max.name(), "max");
    assert_eq!(DescribeMethod::Median.name(), "median");
    assert_eq!(DescribeMethod::Percentile(25).name(), "percentile_25");
    assert_eq!(DescribeMethod::Percentile(5).name(), "percentile_5");
    assert_eq!(DescribeMethod::Percentile(100).name(), "percentile_100");
}

#[test]
fn decimal_digits() {
    let mut s = String::from("n=");
    push_decimal(&mut s, 0);
    assert_eq!(s, "n=0");
    let mut s = String::new();
    push_decimal(&mut s, 1050);
    assert_eq!(s, "1050");
}

#[test]
fn names_compare_by_character() {
    assert!(name_le("max", "mean"));
    assert!(!name_le("mean", "max"));
    assert!(name_le("min", "min"));
    assert!(name_le("min", "minimum"));
    assert!(!name_le("percentile_50", "percentile_25"));
    assert!(name_le("", "a"));
}

#[test]
fn describer_computes_ten_statistics_in_order() {
    let d = DataFrameDescriber::try_new(scenario_schema());
    assert_eq!(
        d.methods,
        vec![
            DescribeMethod::Count,
            DescribeMethod::NullCount,
            DescribeMethod::Mean,
            DescribeMethod::Std,
            DescribeMethod::Min,
            DescribeMethod::Max,
            DescribeMethod::Median,
            DescribeMethod::Percentile(25),
            DescribeMethod::Percentile(50),
            DescribeMethod::Percentile(75),
        ]
    );
}

#[test]
fn plans_aggregate_every_column() {
    let d = DataFrameDescriber::try_new(scenario_schema());
    let p = d.null_count();
    assert_eq!(p.len(), 3);
    assert!(p.iter().all(|e| e.func == AggregateFn::NullIndicatorSum));
    assert_eq!(p[2].column, "joined");
    let p = d.percentile(75);
    assert!(p.iter().all(|e| e.func == AggregateFn::ApproxPercentile(75)));
    let p = d.plan(DescribeMethod::Median);
    assert!(p.iter().all(|e| e.func == AggregateFn::Median));
    assert_eq!(d.count()[0].column, "id");
    match d.pass_request(2) {
        Some(p) => assert!(p.iter().all(|e| e.func == AggregateFn::Avg)),
        None => panic!("expected an aggregation"),
    }
}

#[test]
fn empty_schema_passes_are_placeholders() {
    let d = DataFrameDescriber::try_new(Vec::new());
    for i in 0..10 {
        assert!(d.pass_request(i).is_none());
    }
    let outcomes: Vec<PassOutcome> = (0..10).map(|_| PassOutcome::Placeholder).collect();
    let t = d.describe_table(&outcomes).unwrap();
    assert_eq!(t.rows.len(), 10);
    assert!(t.columns.is_empty());
    assert!(t.rows.iter().all(|r| r.cells.is_empty()));
}

#[test]
fn describe_rows_sorted_and_unique() {
    let d = DataFrameDescriber::try_new(scenario_schema());
    let t = d.describe_table(&full_outcomes()).unwrap();
    let names: Vec<&str> = t.rows.iter().map(|r| r.name.as_str()).collect();
    assert_eq!(
        names,
        vec![
            "count",
            "max",
            "mean",
            "median",
            "min",
            "null_count",
            "percentile_25",
            "percentile_50",
            "percentile_75",
            "std",
        ]
    );
    // each row keeps the cells of its own pass
    let max_row = &t.rows[1];
    assert_eq!(max_row.cells, vec![Cell::Value("5".to_string()); 3]);
    let std_row = &t.rows[9];
    assert_eq!(std_row.cells, vec![Cell::Value("3".to_string()); 3]);
}

#[test]
fn describe_keeps_pass_order_before_cast_back() {
    let d = DataFrameDescriber::try_new(scenario_schema());
    let t = d.describe(&full_outcomes()).unwrap();
    assert_eq!(t.rows[0].name, "count");
    assert_eq!(t.rows[9].name, "percentile_75");
    assert!(t.columns.iter().all(|c| c.cast == CastBack::Keep));
}

#[test]
fn temporal_column_is_cast_back_to_date() {
    let d = DataFrameDescriber::try_new(scenario_schema());
    let t = d.describe_table(&full_outcomes()).unwrap();
    let joined = &t.columns[2];
    assert_eq!(joined.name, "joined");
    assert_eq!(joined.cast, CastBack::Original(DataKind::Date32));
    assert_eq!(joined.value_type, ValueType::Utf8);
    assert_eq!(t.columns[0].value_type, ValueType::Float64);
    assert_eq!(t.columns[0].cast, CastBack::Keep);
    assert_eq!(t.columns[1].cast, CastBack::Keep);
}

#[test]
fn missing_values_become_placeholders() {
    let d = DataFrameDescriber::try_new(scenario_schema());
    let mut outcomes = full_outcomes();
    outcomes[2] = row(&[Some("1.5"), None, None]);
    outcomes[3] = PassOutcome::Placeholder;
    let t = d.describe(&outcomes).unwrap();
    assert_eq!(
        t.rows[2].cells,
        vec![Cell::Value("1.5".to_string()), Cell::Null, Cell::Null]
    );
    assert_eq!(t.rows[3].cells, vec![Cell::Null; 3]);
    assert_eq!(Cell::Null.text(), "null");
    assert_eq!(Cell::Value("2".to_string()).text(), "2");
}

#[test]
fn empty_table_counts_zero_and_placeholders() {
    let d = DataFrameDescriber::try_new(scenario_schema());
    let mut outcomes = full_outcomes();
    outcomes[0] = row(&[Some("0"), Some("0"), Some("0")]);
    for i in [2, 3, 6] {
        outcomes[i] = row(&[None, None, None]);
    }
    let t = d.describe_table(&outcomes).unwrap();
    let find = |n: &str| t.rows.iter().find(|r| r.name == n).unwrap().cells.clone();
    assert_eq!(find("count"), vec![Cell::Value("0".to_string()); 3]);
    assert_eq!(find("mean"), vec![Cell::Null; 3]);
    assert_eq!(find("std"), vec![Cell::Null; 3]);
    assert_eq!(find("median"), vec![Cell::Null; 3]);
}

#[test]
fn first_engine_failure_is_reported() {
    let d = DataFrameDescriber::try_new(scenario_schema());
    let mut outcomes = full_outcomes();
    outcomes[4] = PassOutcome::Failed("cast failed".to_string());
    outcomes[7] = PassOutcome::Failed("later".to_string());
    match d.describe_table(&outcomes) {
        Err(DescribeError::Engine(m)) => assert_eq!(m, "cast failed"),
        Ok(_) => panic!("expected an error"),
    }
}

#[test]
fn rows_of_equal_name_keep_pass_order() {
    let mut d = DataFrameDescriber::try_new(vec![col("x", DataKind::Float64)]);
    d.methods = vec![
        DescribeMethod::Percentile(50),
        DescribeMethod::Count,
        DescribeMethod::Percentile(50),
    ];
    let outcomes = vec![row(&[Some("first")]), row(&[Some("7")]), row(&[Some("second")])];
    let t = d.describe_table(&outcomes).unwrap();
    let names: Vec<&str> = t.rows.iter().map(|r| r.name.as_str()).collect();
    assert_eq!(names, vec!["count", "percentile_50", "percentile_50"]);
    assert_eq!(t.rows[1].cells, vec![Cell::Value("first".to_string())]);
    assert_eq!(t.rows[2].cells, vec![Cell::Value("second".to_string())]);
}

#[test]
fn distinct_statistics_have_distinct_names() {
    assert_ne!(DescribeMethod::Percentile(5).name(), DescribeMethod::Percentile(50).name());
    assert_ne!(DescribeMethod::Percentile(10).name(), DescribeMethod::Percentile(1).name());
    assert_ne!(DescribeMethod::Min.name(), DescribeMethod::Max.name());
}

#[test]
fn large_list_columns_are_counted() {
    let d = DataFrameDescriber::try_new(vec![col("tags", DataKind::LargeList)]);
    assert_eq!(d.transformed[0].rule, TransformRule::ListLength);
    let t = d.describe_table(&full_outcomes_one()).unwrap();
    assert_eq!(t.columns[0].cast, CastBack::Int32);
}

fn full_outcomes_one() -> Vec<PassOutcome> {
    (0..10).map(|_| row(&[Some("2")])).collect()
}
