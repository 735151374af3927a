//! Lowering of logical plans to physical plans: a post-order pass that
//! rewrites every child, rebuilds the node over the rewritten children and
//! wraps it in its physical counterpart.

use vstd::prelude::*;

use crate::binder::expression::clone_bound_exprs;
use crate::optimizer::plan_node::{
    LogicalAgg, LogicalAggV, LogicalFilter, LogicalFilterV, LogicalProject, LogicalProjectV,
    LogicalTableScan, PhysicalFilter, PhysicalProject, PhysicalSimpleAgg, PhysicalTableScan,
    PlanNode, PlanNodeType, PlanNodeV,
};

verus! {

/// Is `p` still a purely logical tree (a `Dummy` leaf counts)?
pub open spec fn plan_is_logical(p: PlanNodeV) -> bool
    decreases p,
{
    match p {
        PlanNodeV::Dummy => true,
        PlanNodeV::LogicalTableScan(_) => true,
        PlanNodeV::LogicalProject(pr) => plan_is_logical(*pr.input),
        PlanNodeV::LogicalFilter(f) => plan_is_logical(*f.input),
        PlanNodeV::LogicalAgg(a) => plan_is_logical(*a.input),
        PlanNodeV::PhysicalTableScan(_) => false,
        PlanNodeV::PhysicalProject(_) => false,
        PlanNodeV::PhysicalFilter(_) => false,
        PlanNodeV::PhysicalSimpleAgg(_) => false,
    }
}

/// What lowering yields: each logical node wrapped in its physical mirror,
/// children lowered first; a `Dummy` leaf passes through.
pub open spec fn spec_lower(p: PlanNodeV) -> PlanNodeV
    decreases p,
{
    match p {
        PlanNodeV::Dummy => PlanNodeV::Dummy,
        PlanNodeV::LogicalTableScan(s) => PlanNodeV::PhysicalTableScan(s),
        PlanNodeV::LogicalProject(pr) => PlanNodeV::PhysicalProject(
            LogicalProjectV { exprs: pr.exprs, input: Box::new(spec_lower(*pr.input)) },
        ),
        PlanNodeV::LogicalFilter(f) => PlanNodeV::PhysicalFilter(
            LogicalFilterV { expr: f.expr, input: Box::new(spec_lower(*f.input)) },
        ),
        PlanNodeV::LogicalAgg(a) => PlanNodeV::PhysicalSimpleAgg(
            LogicalAggV {
                agg_funcs: a.agg_funcs,
                group_by: a.group_by,
                input: Box::new(spec_lower(*a.input)),
            },
        ),
        PlanNodeV::PhysicalTableScan(_) => p,
        PlanNodeV::PhysicalProject(_) => p,
        PlanNodeV::PhysicalFilter(_) => p,
        PlanNodeV::PhysicalSimpleAgg(_) => p,
    }
}

/// Decide `plan_is_logical` for a concrete plan.
pub fn check_plan_is_logical(plan: &PlanNode) -> (r: bool)
    ensures
        r == plan_is_logical(plan@),
    decreases plan,
{
    match plan {
        PlanNode::Dummy(_) => true,
        PlanNode::LogicalTableScan(_) => true,
        PlanNode::LogicalProject(p) => check_plan_is_logical(&p.input),
        PlanNode::LogicalFilter(f) => check_plan_is_logical(&f.input),
        PlanNode::LogicalAgg(a) => check_plan_is_logical(&a.input),
        _ => false,
    }
}

/// The physical counterpart of each logical node-type tag.
pub open spec fn lowered_tag(t: PlanNodeType) -> PlanNodeType {
    match t {
        PlanNodeType::Dummy => PlanNodeType::Dummy,
        PlanNodeType::LogicalTableScan => PlanNodeType::PhysicalTableScan,
        PlanNodeType::LogicalProject => PlanNodeType::PhysicalProject,
        PlanNodeType::LogicalFilter => PlanNodeType::PhysicalFilter,
        PlanNodeType::LogicalAgg => PlanNodeType::PhysicalSimpleAgg,
        PlanNodeType::PhysicalTableScan => PlanNodeType::PhysicalTableScan,
        PlanNodeType::PhysicalProject => PlanNodeType::PhysicalProject,
        PlanNodeType::PhysicalFilter => PlanNodeType::PhysicalFilter,
        PlanNodeType::PhysicalSimpleAgg => PlanNodeType::PhysicalSimpleAgg,
    }
}

/// `q` mirrors `p` node for node: same tree shape (node count and child
/// arity at every node), each node's type mapped one-to-one to its physical
/// counterpart.
pub open spec fn mirrors_lowered(p: PlanNodeV, q: PlanNodeV) -> bool
    decreases p,
{
    &&& q.node_type() == lowered_tag(p.node_type())
    &&& q.children().len() == p.children().len()
    &&& forall|i: int|
        0 <= i < p.children().len() ==> #[trigger] mirrors_lowered(
            p.children()[i],
            q.children()[i],
        )
}

/// Lowering preserves the shape of the tree: the physical plan mirrors its
/// logical source node for node, and has the same node count.
pub proof fn lemma_lowering_preserves_shape(p: PlanNodeV)
    requires
        plan_is_logical(p),
    ensures
        mirrors_lowered(p, spec_lower(p)),
        spec_lower(p).node_count() == p.node_count(),
    decreases p,
{
    match p {
        PlanNodeV::Dummy => {},
        PlanNodeV::LogicalTableScan(_) => {},
        PlanNodeV::LogicalProject(pr) => {
            lemma_lowering_preserves_shape(*pr.input);
        },
        PlanNodeV::LogicalFilter(f) => {
            lemma_lowering_preserves_shape(*f.input);
        },
        PlanNodeV::LogicalAgg(a) => {
            lemma_lowering_preserves_shape(*a.input);
        },
        _ => {},
    }
}

/// Lowering also preserves the output schema of the plan.
pub proof fn lemma_lowering_preserves_schema(p: PlanNodeV)
    requires
        plan_is_logical(p),
    ensures
        spec_lower(p).schema() == p.schema(),
    decreases p,
{
    match p {
        PlanNodeV::LogicalProject(pr) => lemma_lowering_preserves_schema(*pr.input),
        PlanNodeV::LogicalFilter(f) => lemma_lowering_preserves_schema(*f.input),
        PlanNodeV::LogicalAgg(a) => lemma_lowering_preserves_schema(*a.input),
        _ => {},
    }
}

/// The lowering pass. It carries no state; each call lowers one tree.
pub struct PhysicalRewriter {}

impl PhysicalRewriter {
    /// Lower a logical plan to its physical mirror, children first.
    pub fn rewrite(&mut self, plan: &PlanNode) -> (r: PlanNode)
        requires
            plan_is_logical(plan@),
        ensures
            r@ == spec_lower(plan@),
        decreases plan,
    {
        match plan {
            PlanNode::Dummy(_) => PlanNode::Dummy(crate::optimizer::plan_node::Dummy {}),
            PlanNode::LogicalTableScan(s) => self.rewrite_logical_table_scan(s),
            PlanNode::LogicalProject(p) => self.rewrite_logical_project(p),
            PlanNode::LogicalFilter(f) => self.rewrite_logical_filter(f),
            PlanNode::LogicalAgg(a) => self.rewrite_logical_agg(a),
            // Physical nodes are this pass's output, never its input; they
            // are ruled out by this function's precondition.
            _ => {
                proof {
                    assert(false);
                }
                PlanNode::Dummy(crate::optimizer::plan_node::Dummy {})
            },
        }
    }

    /// A scan is wrapped as it stands.
    pub fn rewrite_logical_table_scan(&mut self, plan: &LogicalTableScan) -> (r: PlanNode)
        ensures
            r@ == PlanNodeV::PhysicalTableScan(plan@),
    {
        PlanNode::PhysicalTableScan(PhysicalTableScan { logical: plan.clone() })
    }

    /// A projection is rebuilt over its lowered child, then wrapped.
    pub fn rewrite_logical_project(&mut self, plan: &LogicalProject) -> (r: PlanNode)
        requires
            plan_is_logical(*plan@.input),
        ensures
            r@ == spec_lower(PlanNodeV::LogicalProject(plan@)),
        decreases plan,
    {
        let child = self.rewrite(&plan.input);
        PlanNode::PhysicalProject(
            PhysicalProject {
                logical: LogicalProject {
                    exprs: clone_bound_exprs(&plan.exprs),
                    input: Box::new(child),
                },
            },
        )
    }

    /// A filter is rebuilt over its lowered child, then wrapped.
    pub fn rewrite_logical_filter(&mut self, plan: &LogicalFilter) -> (r: PlanNode)
        requires
            plan_is_logical(*plan@.input),
        ensures
            r@ == spec_lower(PlanNodeV::LogicalFilter(plan@)),
        decreases plan,
    {
        let child = self.rewrite(&plan.input);
        PlanNode::PhysicalFilter(
            PhysicalFilter {
                logical: LogicalFilter { expr: plan.expr.clone(), input: Box::new(child) },
            },
        )
    }

    /// An aggregation is rebuilt over its lowered child, then wrapped.
    pub fn rewrite_logical_agg(&mut self, plan: &LogicalAgg) -> (r: PlanNode)
        requires
            plan_is_logical(*plan@.input),
        ensures
            r@ == spec_lower(PlanNodeV::LogicalAgg(plan@)),
        decreases plan,
    {
        let child = self.rewrite(&plan.input);
        PlanNode::PhysicalSimpleAgg(
            PhysicalSimpleAgg {
                logical: LogicalAgg {
                    agg_funcs: clone_bound_exprs(&plan.agg_funcs),
                    group_by: clone_bound_exprs(&plan.group_by),
                    input: Box::new(child),
                },
            },
        )
    }
}

} // verus!
