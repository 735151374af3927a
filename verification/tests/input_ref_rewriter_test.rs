//! Rewriter tests: symbolic column references become positional input
//! references.

use query_engine::ast::BinaryOperator;
use query_engine::binder::agg_func::{AggFunc, BoundAggFunc};
use query_engine::binder::expression::{
    BoundBinaryOp, BoundColumnRef, BoundExpr, BoundInputRef,
};
use query_engine::catalog::{ColumnCatalog, ColumnDesc};
use query_engine::optimizer::input_ref_rewriter::InputRefRewriter;
use query_engine::optimizer::plan_node::{
    LogicalAgg, LogicalFilter, LogicalProject, LogicalTableScan, PlanNode,
};
use query_engine::types::{DataType, ScalarValue};

fn build_test_column(column_name: String) -> ColumnCatalog {
    ColumnCatalog {
        id: column_name.clone(),
        desc: ColumnDesc { name: column_name, data_type: DataType::Int32 },
    }
}

fn build_local_table_scan() -> PlanNode {
    PlanNode::LogicalTableScan(LogicalTableScan::new(
        "t".to_string(),
        vec![build_test_column("c1".to_string()), build_test_column("c2".to_string())],
    ))
}

fn build_logical_project(input: PlanNode) -> PlanNode {
    PlanNode::LogicalProject(LogicalProject::new(
        vec![BoundExpr::ColumnRef(BoundColumnRef {
            column_catalog: build_test_column("c2".to_string()),
        })],
        Box::new(input),
    ))
}

fn build_logical_filter(input: PlanNode) -> PlanNode {
    PlanNode::LogicalFilter(LogicalFilter::new(
        BoundExpr::BinaryOp(BoundBinaryOp {
            op: BinaryOperator::Eq,
            left: Box::new(BoundExpr::ColumnRef(BoundColumnRef {
                column_catalog: build_test_column("c1".to_string()),
            })),
            right: Box::new(BoundExpr::Constant(ScalarValue::Int32(Some(2)))),
            return_type: Some(DataType::Boolean),
        }),
        Box::new(input),
    ))
}

fn build_logical_project_with_simple_agg(input: PlanNode) -> PlanNode {
    let expr = BoundExpr::AggFunc(BoundAggFunc {
        func: AggFunc::Sum,
        exprs: vec![BoundExpr::ColumnRef(BoundColumnRef {
            column_catalog: build_test_column("c1".to_string()),
        })],
        return_type: DataType::Int32,
    });
    let agg_arg = expr.clone();
    let simple_agg = PlanNode::LogicalAgg(LogicalAgg::new(vec![agg_arg], vec![], Box::new(input)));
    PlanNode::LogicalProject(LogicalProject::new(vec![expr], Box::new(simple_agg)))
}

#[test]
fn test_rewrite_column_ref_to_input_ref() {
    let plan = build_local_table_scan();
    let filter_plan = build_logical_filter(plan);
    let project_plan = build_logical_project(filter_plan);

    let mut rewriter = InputRefRewriter::default();
    let new_plan = rewriter.rewrite(&project_plan);

    assert_eq!(
        new_plan.as_logical_project().unwrap().exprs(),
        vec![BoundExpr::InputRef(BoundInputRef { index: 1, return_type: DataType::Int32 })]
    );
    assert_eq!(
        new_plan.children()[0].as_logical_filter().unwrap().expr(),
        BoundExpr::BinaryOp(BoundBinaryOp {
            op: BinaryOperator::Eq,
            left: Box::new(BoundExpr::InputRef(BoundInputRef {
                index: 0,
                return_type: DataType::Int32,
            })),
            right: Box::new(BoundExpr::Constant(ScalarValue::Int32(Some(2)))),
            return_type: Some(DataType::Boolean),
        })
    );
}

#[test]
fn test_rewrite_simple_aggregation_column_ref_to_input_ref() {
    let plan = build_local_table_scan();
    let plan = build_logical_project_with_simple_agg(plan);

    let mut rewriter = InputRefRewriter::default();
    let new_plan = rewriter.rewrite(&plan);

    assert_eq!(
        new_plan.as_logical_project().unwrap().exprs(),
        vec![BoundExpr::InputRef(BoundInputRef { index: 0, return_type: DataType::Int32 })]
    );
}
