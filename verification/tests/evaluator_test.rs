//! Evaluator tests: columnar expression evaluation over batches.

use query_engine::binder::expression::{BoundExpr, BoundInputRef, BoundTypeCast};
use query_engine::catalog::ColumnDesc;
use query_engine::executor::batch::{Batch, Column};
use query_engine::executor::ExecutorError;
use query_engine::types::DataType;

fn build_record_batch() -> Batch {
    Batch {
        fields: vec![
            ColumnDesc { name: "a".to_string(), data_type: DataType::Int32 },
            ColumnDesc { name: "b".to_string(), data_type: DataType::Int32 },
        ],
        columns: vec![
            Column::Int32(vec![Some(1), Some(2)]),
            Column::Int32(vec![Some(3), Some(4)]),
        ],
    }
}

#[test]
fn test_eval_column_for_input_ref() -> Result<(), ExecutorError> {
    let batch = build_record_batch();
    let expr = BoundExpr::InputRef(BoundInputRef { index: 1, return_type: DataType::Int32 });
    let result = expr.eval_column(&batch)?;
    assert_eq!(result.len(), 2);
    assert_eq!(result, Column::Int32(vec![Some(3), Some(4)]));
    Ok(())
}

#[test]
fn test_eval_column_fro_type_cast() -> Result<(), ExecutorError> {
    let batch = build_record_batch();
    let expr = BoundExpr::TypeCast(BoundTypeCast {
        expr: Box::new(BoundExpr::InputRef(BoundInputRef {
            index: 1,
            return_type: DataType::Int32,
        })),
        cast_type: DataType::Int64,
    });
    let result = expr.eval_column(&batch)?;
    assert_eq!(result.len(), 2);
    assert_eq!(result, Column::Int64(vec![Some(3), Some(4)]));
    Ok(())
}

#[test]
fn test_eval_binary_arithmetic() {
    let batch = build_record_batch();
    let expr = BoundExpr::BinaryOp(query_engine::binder::expression::BoundBinaryOp {
        op: query_engine::ast::BinaryOperator::Plus,
        left: Box::new(BoundExpr::InputRef(BoundInputRef { index: 0, return_type: DataType::Int32 })),
        right: Box::new(BoundExpr::InputRef(BoundInputRef { index: 1, return_type: DataType::Int32 })),
        return_type: Some(DataType::Int32),
    });
    let result = expr.eval_column(&batch).unwrap();
    assert_eq!(result, Column::Int32(vec![Some(4), Some(6)]));
}

#[test]
fn test_eval_arithmetic_overflow_fails() {
    let batch = Batch {
        fields: vec![ColumnDesc { name: "a".to_string(), data_type: DataType::Int32 }],
        columns: vec![Column::Int32(vec![Some(i32::MAX)])],
    };
    let expr = BoundExpr::BinaryOp(query_engine::binder::expression::BoundBinaryOp {
        op: query_engine::ast::BinaryOperator::Plus,
        left: Box::new(BoundExpr::InputRef(BoundInputRef { index: 0, return_type: DataType::Int32 })),
        right: Box::new(BoundExpr::InputRef(BoundInputRef { index: 0, return_type: DataType::Int32 })),
        return_type: Some(DataType::Int32),
    });
    assert_eq!(expr.eval_column(&batch), Err(ExecutorError::ArithmeticOverflow));
}

#[test]
fn test_eval_division_by_zero_fails() {
    let batch = Batch {
        fields: vec![ColumnDesc { name: "a".to_string(), data_type: DataType::Int32 }],
        columns: vec![Column::Int32(vec![Some(10)])],
    };
    let zero = BoundExpr::Constant(query_engine::types::ScalarValue::Int32(Some(0)));
    let expr = BoundExpr::BinaryOp(query_engine::binder::expression::BoundBinaryOp {
        op: query_engine::ast::BinaryOperator::Divide,
        left: Box::new(BoundExpr::InputRef(BoundInputRef { index: 0, return_type: DataType::Int32 })),
        right: Box::new(zero),
        return_type: Some(DataType::Int32),
    });
    assert_eq!(expr.eval_column(&batch), Err(ExecutorError::DivisionByZero));
}

#[test]
fn test_eval_null_propagates() {
    let batch = Batch {
        fields: vec![ColumnDesc { name: "a".to_string(), data_type: DataType::Int32 }],
        columns: vec![Column::Int32(vec![Some(1), None])],
    };
    let one = BoundExpr::Constant(query_engine::types::ScalarValue::Int32(Some(1)));
    let expr = BoundExpr::BinaryOp(query_engine::binder::expression::BoundBinaryOp {
        op: query_engine::ast::BinaryOperator::Plus,
        left: Box::new(BoundExpr::InputRef(BoundInputRef { index: 0, return_type: DataType::Int32 })),
        right: Box::new(one),
        return_type: Some(DataType::Int32),
    });
    let result = expr.eval_column(&batch).unwrap();
    assert_eq!(result, Column::Int32(vec![Some(2), None]));
}

#[test]
fn test_eval_unresolved_column_ref_fails() {
    let batch = build_record_batch();
    let expr = BoundExpr::ColumnRef(query_engine::binder::expression::BoundColumnRef {
        column_catalog: query_engine::catalog::ColumnCatalog {
            id: "a".to_string(),
            desc: ColumnDesc { name: "a".to_string(), data_type: DataType::Int32 },
        },
    });
    assert_eq!(expr.eval_column(&batch), Err(ExecutorError::UnresolvedColumnRef));
}

#[test]
fn test_eval_input_ref_out_of_range_fails() {
    let batch = build_record_batch();
    let expr = BoundExpr::InputRef(BoundInputRef { index: 5, return_type: DataType::Int32 });
    assert_eq!(expr.eval_column(&batch), Err(ExecutorError::ColumnIndexOutOfRange));
}

#[test]
fn test_eval_string_comparison() {
    let batch = Batch {
        fields: vec![ColumnDesc { name: "name".to_string(), data_type: DataType::Utf8 }],
        columns: vec![Column::Utf8(vec![
            Some("Hopkins".to_string()),
            Some("Smith".to_string()),
            None,
        ])],
    };
    let expr = BoundExpr::BinaryOp(query_engine::binder::expression::BoundBinaryOp {
        op: query_engine::ast::BinaryOperator::Eq,
        left: Box::new(BoundExpr::InputRef(BoundInputRef { index: 0, return_type: DataType::Utf8 })),
        right: Box::new(BoundExpr::Constant(query_engine::types::ScalarValue::Utf8(Some(
            "Hopkins".to_string(),
        )))),
        return_type: Some(DataType::Boolean),
    });
    let result = expr.eval_column(&batch).unwrap();
    assert_eq!(result, Column::Boolean(vec![Some(true), Some(false), None]));
}

#[test]
fn test_eval_logical_operator_unsupported() {
    let batch = Batch {
        fields: vec![ColumnDesc { name: "a".to_string(), data_type: DataType::Boolean }],
        columns: vec![Column::Boolean(vec![Some(true)])],
    };
    let col = BoundExpr::InputRef(BoundInputRef { index: 0, return_type: DataType::Boolean });
    let expr = BoundExpr::BinaryOp(query_engine::binder::expression::BoundBinaryOp {
        op: query_engine::ast::BinaryOperator::And,
        left: Box::new(col.clone()),
        right: Box::new(col),
        return_type: Some(DataType::Boolean),
    });
    assert_eq!(expr.eval_column(&batch), Err(ExecutorError::UnsupportedOperator));
}

#[test]
fn test_eval_aggregate_unsupported() {
    let batch = build_record_batch();
    let expr = BoundExpr::AggFunc(query_engine::binder::agg_func::BoundAggFunc {
        func: query_engine::binder::agg_func::AggFunc::Sum,
        exprs: vec![BoundExpr::InputRef(BoundInputRef { index: 0, return_type: DataType::Int32 })],
        return_type: DataType::Int32,
    });
    assert_eq!(expr.eval_column(&batch), Err(ExecutorError::UnsupportedExpression));
}

#[test]
fn test_eval_invalid_cast_fails() {
    let batch = build_record_batch();
    let expr = BoundExpr::TypeCast(BoundTypeCast {
        expr: Box::new(BoundExpr::InputRef(BoundInputRef {
            index: 0,
            return_type: DataType::Int32,
        })),
        cast_type: DataType::Boolean,
    });
    assert_eq!(expr.eval_column(&batch), Err(ExecutorError::InvalidCast));
}

#[test]
fn test_eval_operand_type_mismatch_fails() {
    let batch = Batch {
        fields: vec![
            ColumnDesc { name: "a".to_string(), data_type: DataType::Int32 },
            ColumnDesc { name: "b".to_string(), data_type: DataType::Int64 },
        ],
        columns: vec![
            Column::Int32(vec![Some(1)]),
            Column::Int64(vec![Some(1)]),
        ],
    };
    let expr = BoundExpr::BinaryOp(query_engine::binder::expression::BoundBinaryOp {
        op: query_engine::ast::BinaryOperator::Plus,
        left: Box::new(BoundExpr::InputRef(BoundInputRef { index: 0, return_type: DataType::Int32 })),
        right: Box::new(BoundExpr::InputRef(BoundInputRef { index: 1, return_type: DataType::Int64 })),
        return_type: Some(DataType::Int32),
    });
    assert_eq!(expr.eval_column(&batch), Err(ExecutorError::TypeMismatch));
}

#[test]
fn test_narrowing_cast_turns_overflow_into_null() {
    let batch = Batch {
        fields: vec![ColumnDesc { name: "a".to_string(), data_type: DataType::Int64 }],
        columns: vec![Column::Int64(vec![Some(5), Some(1i64 << 40), None])],
    };
    let expr = BoundExpr::TypeCast(BoundTypeCast {
        expr: Box::new(BoundExpr::InputRef(BoundInputRef {
            index: 0,
            return_type: DataType::Int64,
        })),
        cast_type: DataType::Int32,
    });
    let result = expr.eval_column(&batch).unwrap();
    assert_eq!(result, Column::Int32(vec![Some(5), None, None]));
}
