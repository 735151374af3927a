//! Lowering tests: each logical node gains its physical mirror, shape
//! unchanged.

use query_engine::ast::BinaryOperator;
use query_engine::binder::expression::{BoundBinaryOp, BoundColumnRef, BoundExpr};
use query_engine::catalog::{ColumnCatalog, ColumnDesc};
use query_engine::optimizer::physical_rewriter::PhysicalRewriter;
use query_engine::optimizer::plan_node::{
    LogicalFilter, LogicalProject, LogicalTableScan, PlanNode, PlanNodeType, WithPlanNodeType,
};
use query_engine::types::{DataType, ScalarValue};

fn build_test_column(column_name: String) -> ColumnCatalog {
    ColumnCatalog {
        id: column_name.clone(),
        desc: ColumnDesc { name: column_name, data_type: DataType::Int32 },
    }
}

#[test]
fn test_physical_rewriter_works() {
    let mut rewriter = PhysicalRewriter {};
    let table_id = "t".to_string();
    let columns = vec![
        build_test_column("c1".to_string()),
        build_test_column("c2".to_string()),
    ];
    let mut plan = PlanNode::LogicalTableScan(LogicalTableScan::new(table_id, columns));
    let filter_expr = BoundExpr::BinaryOp(BoundBinaryOp {
        op: BinaryOperator::Eq,
        left: Box::new(BoundExpr::ColumnRef(BoundColumnRef {
            column_catalog: build_test_column("c2".to_string()),
        })),
        right: Box::new(BoundExpr::Constant(ScalarValue::Int32(Some(2)))),
        return_type: Some(DataType::Boolean),
    });
    plan = PlanNode::LogicalFilter(LogicalFilter::new(filter_expr, Box::new(plan)));
    let project_expr = BoundExpr::ColumnRef(BoundColumnRef {
        column_catalog: build_test_column("c1".to_string()),
    });
    plan = PlanNode::LogicalProject(LogicalProject::new(vec![project_expr], Box::new(plan)));

    let mut physical_plan = rewriter.rewrite(&plan);

    assert_eq!(physical_plan.node_type(), PlanNodeType::PhysicalProject);
    physical_plan = physical_plan.children().remove(0);
    assert_eq!(physical_plan.node_type(), PlanNodeType::PhysicalFilter);
    physical_plan = physical_plan.children().remove(0);
    assert_eq!(physical_plan.node_type(), PlanNodeType::PhysicalTableScan);
}

#[test]
fn test_lowering_preserves_schema() {
    let mut rewriter = PhysicalRewriter {};
    let scan = PlanNode::LogicalTableScan(LogicalTableScan::new(
        "t".to_string(),
        vec![build_test_column("c1".to_string())],
    ));
    let physical = rewriter.rewrite(&scan);
    assert_eq!(physical.schema(), scan.schema());
}

#[test]
fn test_schema_propagation() {
    // A projection's and a filter's schema equal their input's schema.
    let scan = PlanNode::LogicalTableScan(LogicalTableScan::new(
        "t".to_string(),
        vec![build_test_column("c1".to_string()), build_test_column("c2".to_string())],
    ));
    let scan_schema = scan.schema();
    let filter = PlanNode::LogicalFilter(LogicalFilter::new(
        BoundExpr::ColumnRef(BoundColumnRef { column_catalog: build_test_column("c1".to_string()) }),
        Box::new(scan),
    ));
    assert_eq!(filter.schema(), scan_schema);
    let project = PlanNode::LogicalProject(LogicalProject::new(
        vec![BoundExpr::ColumnRef(BoundColumnRef {
            column_catalog: build_test_column("c1".to_string()),
        })],
        Box::new(filter),
    ));
    assert_eq!(project.schema(), scan_schema);
}
