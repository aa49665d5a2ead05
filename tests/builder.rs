use greptime_ingest::error::Error;
use greptime_ingest::row::RowBuilder;
use greptime_ingest::value::{DataType, SemanticType, TimeUnit, Value};

fn ts(ms: i64) -> Value {
    Value::Timestamp(TimeUnit::Millisecond, ms)
}

fn metrics_builder() -> RowBuilder {
    let mut b = RowBuilder::new("metrics".to_string()).unwrap();
    b.add_column(
        "ts".to_string(),
        DataType::Timestamp(TimeUnit::Millisecond),
        SemanticType::Timestamp,
    )
    .unwrap();
    b.add_column("value".to_string(), DataType::Float64, SemanticType::Field)
        .unwrap();
    b
}

#[test]
fn three_rows_build_into_columns() {
    let mut b = metrics_builder();
    for (t, v) in [(100i64, 1.0f64), (200, 2.0), (300, 3.0)] {
        b.add_row(vec![ts(t), Value::Float64(v.to_bits())]).unwrap();
    }
    let batch = b.build().unwrap();
    assert_eq!(batch.table_name, "metrics");
    assert_eq!(batch.row_count, 3);
    assert_eq!(batch.region_number, 0);
    assert_eq!(batch.columns.len(), 2);
    assert_eq!(batch.columns[0].name, "ts");
    assert_eq!(batch.columns[0].semantic_type, SemanticType::Timestamp);
    let stamps: Vec<i64> = batch.columns[0]
        .values
        .iter()
        .map(|v| match v {
            Value::Timestamp(TimeUnit::Millisecond, x) => *x,
            other => panic!("unexpected {:?}", other),
        })
        .collect();
    assert_eq!(stamps, vec![100, 200, 300]);
    assert_eq!(batch.columns[1].name, "value");
    let floats: Vec<f64> = batch.columns[1]
        .values
        .iter()
        .map(|v| match v {
            Value::Float64(bits) => f64::from_bits(*bits),
            other => panic!("unexpected {:?}", other),
        })
        .collect();
    assert_eq!(floats, vec![1.0, 2.0, 3.0]);
    assert_eq!(batch.columns[0].null_mask, vec![false, false, false]);
    assert_eq!(batch.columns[1].null_mask, vec![false, false, false]);
}

#[test]
fn every_column_has_one_value_and_flag_per_row() {
    let mut b = metrics_builder();
    b.add_column("host".to_string(), DataType::String, SemanticType::Tag)
        .unwrap();
    for i in 0..5i64 {
        let host = if i % 2 == 0 {
            Value::String(format!("h{}", i))
        } else {
            Value::Null
        };
        b.add_row(vec![ts(i), Value::Null, host]).unwrap();
    }
    assert_eq!(b.row_count(), 5);
    let batch = b.build().unwrap();
    assert_eq!(batch.row_count, 5);
    for c in &batch.columns {
        assert_eq!(c.values.len(), 5);
        assert_eq!(c.null_mask.len(), 5);
    }
    assert_eq!(batch.columns[1].null_mask, vec![true; 5]);
    assert_eq!(
        batch.columns[2].null_mask,
        vec![false, true, false, true, false]
    );
}

#[test]
fn build_leaves_columns_and_no_rows() {
    let mut b = metrics_builder();
    b.add_row(vec![ts(1), Value::Float64(0)]).unwrap();
    let first = b.build().unwrap();
    assert_eq!(first.row_count, 1);
    assert_eq!(b.row_count(), 0);
    assert_eq!(b.column_count(), 2);
    b.add_row(vec![ts(2), Value::Null]).unwrap();
    let second = b.build().unwrap();
    assert_eq!(second.row_count, 1);
    assert!(matches!(second.columns[0].values[0], Value::Timestamp(_, 2)));
}

#[test]
fn row_with_wrong_arity_is_rejected_whole() {
    let mut b = metrics_builder();
    b.add_row(vec![ts(1), Value::Float64(0)]).unwrap();
    assert_eq!(b.add_row(vec![ts(2)]), Err(Error::ColumnCountMismatch));
    assert_eq!(
        b.add_row(vec![ts(2), Value::Null, Value::Null]),
        Err(Error::ColumnCountMismatch)
    );
    assert_eq!(b.row_count(), 1);
    let batch = b.build().unwrap();
    assert_eq!(batch.row_count, 1);
    assert_eq!(batch.columns[0].values.len(), 1);
}

#[test]
fn value_of_wrong_type_is_rejected() {
    let mut b = metrics_builder();
    assert_eq!(
        b.add_row(vec![ts(1), Value::Int64(5)]),
        Err(Error::TypeMismatch)
    );
    assert_eq!(
        b.add_row(vec![Value::Timestamp(TimeUnit::Second, 1), Value::Float64(0)]),
        Err(Error::TypeMismatch)
    );
    assert_eq!(b.row_count(), 0);
}

#[test]
fn no_timestamp_column_fails_build() {
    let mut b = RowBuilder::new("t".to_string()).unwrap();
    b.add_column("v".to_string(), DataType::Int32, SemanticType::Field)
        .unwrap();
    b.add_row(vec![Value::Int32(1)]).unwrap();
    assert_eq!(
        b.build().err(),
        Some(Error::MissingOrDuplicateTimestampColumn)
    );
    assert_eq!(b.row_count(), 1);
    let mut empty = RowBuilder::new("t".to_string()).unwrap();
    assert_eq!(
        empty.build().err(),
        Some(Error::MissingOrDuplicateTimestampColumn)
    );
}

#[test]
fn two_timestamp_columns_fail_build() {
    let mut b = metrics_builder();
    b.add_column(
        "ts2".to_string(),
        DataType::Timestamp(TimeUnit::Second),
        SemanticType::Timestamp,
    )
    .unwrap();
    assert_eq!(
        b.build().err(),
        Some(Error::MissingOrDuplicateTimestampColumn)
    );
}

#[test]
fn names_are_checked() {
    assert_eq!(
        RowBuilder::new(String::new()).err(),
        Some(Error::InvalidArgument)
    );
    let mut b = metrics_builder();
    assert_eq!(
        b.add_column("ts".to_string(), DataType::Int8, SemanticType::Tag),
        Err(Error::DuplicateColumn)
    );
    assert_eq!(
        b.add_column(String::new(), DataType::Int8, SemanticType::Tag),
        Err(Error::InvalidArgument)
    );
    assert_eq!(b.column_count(), 2);
    assert_eq!(b.table_name(), "metrics");
}

#[test]
fn column_added_after_rows_is_null_there() {
    let mut b = metrics_builder();
    b.add_row(vec![ts(1), Value::Float64(0)]).unwrap();
    b.add_column("ok".to_string(), DataType::Boolean, SemanticType::Field)
        .unwrap();
    b.add_row(vec![ts(2), Value::Float64(0), Value::Boolean(true)])
        .unwrap();
    let batch = b.build().unwrap();
    assert_eq!(batch.columns[2].null_mask, vec![true, false]);
    assert!(matches!(batch.columns[2].values[1], Value::Boolean(true)));
}

#[test]
fn clear_rows_keeps_columns() {
    let mut b = metrics_builder();
    b.add_row(vec![ts(1), Value::Float64(0)]).unwrap();
    b.clear_rows();
    assert_eq!(b.row_count(), 0);
    assert_eq!(b.column_count(), 2);
    let batch = b.build().unwrap();
    assert_eq!(batch.row_count, 0);
    assert!(batch.columns.iter().all(|c| c.values.is_empty()));
}

#[test]
fn null_fits_every_type_and_others_only_their_own() {
    assert!(Value::Null.fits(DataType::Binary));
    assert!(Value::Binary(vec![1, 2]).fits(DataType::Binary));
    assert!(!Value::String("x".to_string()).fits(DataType::Binary));
    assert!(Value::UInt16(3).fits(DataType::UInt16));
    assert!(!Value::UInt16(3).fits(DataType::Int16));
    assert!(Value::Null.is_null());
    assert!(!Value::Int8(0).is_null());
}
