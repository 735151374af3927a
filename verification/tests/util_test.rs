//! Rendering tests: batches as plain text.

use query_engine::catalog::ColumnDesc;
use query_engine::executor::batch::{Batch, Column};
use query_engine::types::DataType;
use query_engine::utill::record_batch_to_string;

fn build_record_batch() -> Batch {
    Batch {
        fields: vec![
            ColumnDesc { name: "id".to_string(), data_type: DataType::Int64 },
            ColumnDesc { name: "first_name".to_string(), data_type: DataType::Utf8 },
        ],
        columns: vec![
            Column::Int64(vec![Some(1), Some(2), Some(3)]),
            Column::Utf8(vec![
                Some("Bill".to_string()),
                Some("Gregg".to_string()),
                Some("John".to_string()),
            ]),
        ],
    }
}

#[test]
fn test_record_batch_to_string() {
    let record_batch = build_record_batch();
    let output = record_batch_to_string(&record_batch);

    let expected = vec!["1 Bill", "2 Gregg", "3 John"];
    let actual: Vec<&str> = output.lines().collect();
    assert_eq!(expected, actual);
}

#[test]
fn test_render_nulls_and_negatives() {
    let batch = Batch {
        fields: vec![
            ColumnDesc { name: "a".to_string(), data_type: DataType::Int32 },
            ColumnDesc { name: "b".to_string(), data_type: DataType::Boolean },
        ],
        columns: vec![
            Column::Int32(vec![Some(-42), None]),
            Column::Boolean(vec![Some(true), Some(false)]),
        ],
    };
    let output = record_batch_to_string(&batch);
    assert_eq!(output, "-42 true\nNULL false\n");
}

#[test]
fn test_render_extreme_values() {
    let batch = Batch {
        fields: vec![ColumnDesc { name: "a".to_string(), data_type: DataType::Int64 }],
        columns: vec![Column::Int64(vec![Some(i64::MIN), Some(i64::MAX), Some(0)])],
    };
    let output = record_batch_to_string(&batch);
    assert_eq!(output, "-9223372036854775808\n9223372036854775807\n0\n");
}
