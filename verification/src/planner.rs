//! The planner: translates a bound statement into a logical plan tree.

use vstd::prelude::*;

use crate::binder::statement::{BoundSelect, BoundSelectV, BoundStatement, BoundStatementV};
use crate::optimizer::plan_node::{
    LogicalFilter, LogicalFilterV, LogicalProject, LogicalProjectV, LogicalTableScan,
    LogicalTableScanV, PlanNode, PlanNodeV,
};

verus! {

/// Why no logical plan could be built.
#[derive(Debug, PartialEq, Eq, Structural, Clone, Copy)]
pub enum LogicalPlanError {
    /// A `SELECT` without a `FROM` clause has no source to scan.
    NoSourceTable,
}

/// Builds logical plans from bound statements.
pub struct Planner {}

/// The plan a bound `SELECT` yields: a scan of its source table, wrapped in
/// a filter when there is a predicate, wrapped in a projection when the
/// select list is not empty.
pub open spec fn spec_plan_select(stmt: BoundSelectV) -> Result<PlanNodeV, LogicalPlanError> {
    match stmt.from_table {
        None => Err(LogicalPlanError::NoSourceTable),
        Some(t) => {
            let scan = PlanNodeV::LogicalTableScan(
                LogicalTableScanV { table_id: t.id, columns: t.columns },
            );
            let filtered = match stmt.where_clause {
                Some(e) => PlanNodeV::LogicalFilter(
                    LogicalFilterV { expr: e, input: Box::new(scan) },
                ),
                None => scan,
            };
            if stmt.select_list.len() > 0 {
                Ok(
                    PlanNodeV::LogicalProject(
                        LogicalProjectV { exprs: stmt.select_list, input: Box::new(filtered) },
                    ),
                )
            } else {
                Ok(filtered)
            }
        },
    }
}

/// The plan a bound statement yields.
pub open spec fn spec_plan(stmt: BoundStatementV) -> Result<PlanNodeV, LogicalPlanError> {
    match stmt {
        BoundStatementV::Select(s) => spec_plan_select(s),
    }
}

impl Planner {
    /// Build the logical plan of a bound statement.
    pub fn plan(&self, stmt: BoundStatement) -> (r: Result<PlanNode, LogicalPlanError>)
        ensures
            match r {
                Ok(p) => spec_plan(stmt@) == Ok::<PlanNodeV, LogicalPlanError>(p@),
                Err(e) => spec_plan(stmt@) == Err::<PlanNodeV, LogicalPlanError>(e),
            },
    {
        match stmt {
            BoundStatement::Select(s) => self.plan_select(s),
        }
    }

    /// Build the logical plan of a bound `SELECT`: scan, then filter, then
    /// project.
    pub fn plan_select(&self, stmt: BoundSelect) -> (r: Result<PlanNode, LogicalPlanError>)
        ensures
            match r {
                Ok(p) => spec_plan_select(stmt@) == Ok::<PlanNodeV, LogicalPlanError>(p@),
                Err(e) => spec_plan_select(stmt@) == Err::<PlanNodeV, LogicalPlanError>(e),
            },
    {
        proof {
            crate::binder::expression::lemma_bound_exprs_view(stmt.select_list@);
        }
        let table_ref = match stmt.from_table {
            Some(t) => t,
            None => {
                return Err(LogicalPlanError::NoSourceTable);
            },
        };
        let columns = table_ref.table_catalog.get_all_columns();
        let mut plan = PlanNode::LogicalTableScan(
            LogicalTableScan::new(table_ref.table_catalog.id, columns),
        );

        if let Some(expr) = stmt.where_clause {
            plan = PlanNode::LogicalFilter(LogicalFilter::new(expr, Box::new(plan)));
        }
        if stmt.select_list.len() > 0 {
            plan = PlanNode::LogicalProject(LogicalProject::new(stmt.select_list, Box::new(plan)));
        }
        proof {
            assert(spec_plan_select(stmt@) matches Ok(p) && p =~~= plan@);
        }
        Ok(plan)
    }
}

} // verus!
