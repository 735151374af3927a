//! The plan intermediate representation: a tree over a closed set of node
//! variants. The enumeration is the single source of truth for dispatch, so
//! the node-type tags and the match arms cannot drift apart.

use vstd::prelude::*;

use crate::binder::expression::{
    bound_exprs_view, clone_bound_exprs, lemma_bound_exprs_view, BoundExpr, BoundExprV,
};
use crate::catalog::{clone_columns, ColumnCatalog, ColumnCatalogV};

verus! {

/// A placeholder leaf used when exercising the traversal framework.
#[derive(Debug, Clone)]
pub struct Dummy {}

/// A logical scan of one table: the scan owns its output schema.
#[derive(Debug)]
pub struct LogicalTableScan {
    pub table_id: String,
    pub columns: Vec<ColumnCatalog>,
}

/// A logical projection of expressions over its input.
#[derive(Debug)]
pub struct LogicalProject {
    pub exprs: Vec<BoundExpr>,
    pub input: Box<PlanNode>,
}

/// A logical filter of its input by a predicate.
#[derive(Debug)]
pub struct LogicalFilter {
    pub expr: BoundExpr,
    pub input: Box<PlanNode>,
}

/// A logical ungrouped aggregation over its input.
#[derive(Debug)]
pub struct LogicalAgg {
    pub agg_funcs: Vec<BoundExpr>,
    pub group_by: Vec<BoundExpr>,
    pub input: Box<PlanNode>,
}

/// The physical mirror of a table scan; it wraps its logical node.
#[derive(Debug)]
pub struct PhysicalTableScan {
    pub logical: LogicalTableScan,
}

/// The physical mirror of a projection.
#[derive(Debug)]
pub struct PhysicalProject {
    pub logical: LogicalProject,
}

/// The physical mirror of a filter.
#[derive(Debug)]
pub struct PhysicalFilter {
    pub logical: LogicalFilter,
}

/// The physical mirror of an ungrouped aggregation.
#[derive(Debug)]
pub struct PhysicalSimpleAgg {
    pub logical: LogicalAgg,
}

/// A plan node: the closed set of variants every pass dispatches over.
#[derive(Debug)]
pub enum PlanNode {
    Dummy(Dummy),
    LogicalTableScan(LogicalTableScan),
    LogicalProject(LogicalProject),
    LogicalFilter(LogicalFilter),
    LogicalAgg(LogicalAgg),
    PhysicalTableScan(PhysicalTableScan),
    PhysicalProject(PhysicalProject),
    PhysicalFilter(PhysicalFilter),
    PhysicalSimpleAgg(PhysicalSimpleAgg),
}

/// The model of a `LogicalTableScan`.
#[verifier::ext_equal]
pub struct LogicalTableScanV {
    pub table_id: Seq<char>,
    pub columns: Seq<ColumnCatalogV>,
}

/// The model of a `LogicalProject`.
#[verifier::ext_equal]
pub struct LogicalProjectV {
    pub exprs: Seq<BoundExprV>,
    pub input: Box<PlanNodeV>,
}

/// The model of a `LogicalFilter`.
#[verifier::ext_equal]
pub struct LogicalFilterV {
    pub expr: BoundExprV,
    pub input: Box<PlanNodeV>,
}

/// The model of a `LogicalAgg`.
#[verifier::ext_equal]
pub struct LogicalAggV {
    pub agg_funcs: Seq<BoundExprV>,
    pub group_by: Seq<BoundExprV>,
    pub input: Box<PlanNodeV>,
}

/// The model of a plan node. A physical node carries the model of the
/// logical node it wraps.
#[verifier::ext_equal]
pub enum PlanNodeV {
    Dummy,
    LogicalTableScan(LogicalTableScanV),
    LogicalProject(LogicalProjectV),
    LogicalFilter(LogicalFilterV),
    LogicalAgg(LogicalAggV),
    PhysicalTableScan(LogicalTableScanV),
    PhysicalProject(LogicalProjectV),
    PhysicalFilter(LogicalFilterV),
    PhysicalSimpleAgg(LogicalAggV),
}

impl View for LogicalTableScan {
    type V = LogicalTableScanV;

    open spec fn view(&self) -> LogicalTableScanV {
        LogicalTableScanV {
            table_id: self.table_id@,
            columns: self.columns@.map_values(|c: ColumnCatalog| c@),
        }
    }
}

impl View for LogicalProject {
    type V = LogicalProjectV;

    open spec fn view(&self) -> LogicalProjectV
        decreases self,
    {
        LogicalProjectV { exprs: bound_exprs_view(self.exprs@), input: Box::new((*self.input)@) }
    }
}

impl View for LogicalFilter {
    type V = LogicalFilterV;

    open spec fn view(&self) -> LogicalFilterV
        decreases self,
    {
        LogicalFilterV { expr: self.expr@, input: Box::new((*self.input)@) }
    }
}

impl View for LogicalAgg {
    type V = LogicalAggV;

    open spec fn view(&self) -> LogicalAggV
        decreases self,
    {
        LogicalAggV {
            agg_funcs: bound_exprs_view(self.agg_funcs@),
            group_by: bound_exprs_view(self.group_by@),
            input: Box::new((*self.input)@),
        }
    }
}

impl View for PlanNode {
    type V = PlanNodeV;

    open spec fn view(&self) -> PlanNodeV
        decreases self,
    {
        match self {
            PlanNode::Dummy(_) => PlanNodeV::Dummy,
            PlanNode::LogicalTableScan(s) => PlanNodeV::LogicalTableScan(s@),
            PlanNode::LogicalProject(p) => PlanNodeV::LogicalProject(p@),
            PlanNode::LogicalFilter(f) => PlanNodeV::LogicalFilter(f@),
            PlanNode::LogicalAgg(a) => PlanNodeV::LogicalAgg(a@),
            PlanNode::PhysicalTableScan(p) => PlanNodeV::PhysicalTableScan(p.logical@),
            PlanNode::PhysicalProject(p) => PlanNodeV::PhysicalProject(p.logical@),
            PlanNode::PhysicalFilter(p) => PlanNodeV::PhysicalFilter(p.logical@),
            PlanNode::PhysicalSimpleAgg(p) => PlanNodeV::PhysicalSimpleAgg(p.logical@),
        }
    }
}

/// The node-type tag used for dispatch; one value per plan node variant.
#[derive(Debug, Clone, Copy, PartialEq, Eq, Structural)]
pub enum PlanNodeType {
    Dummy,
    LogicalTableScan,
    LogicalProject,
    LogicalFilter,
    LogicalAgg,
    PhysicalTableScan,
    PhysicalProject,
    PhysicalFilter,
    PhysicalSimpleAgg,
}

impl PlanNodeV {
    /// The dispatch tag of a plan node model.
    pub open spec fn node_type(self) -> PlanNodeType {
        match self {
            PlanNodeV::Dummy => PlanNodeType::Dummy,
            PlanNodeV::LogicalTableScan(_) => PlanNodeType::LogicalTableScan,
            PlanNodeV::LogicalProject(_) => PlanNodeType::LogicalProject,
            PlanNodeV::LogicalFilter(_) => PlanNodeType::LogicalFilter,
            PlanNodeV::LogicalAgg(_) => PlanNodeType::LogicalAgg,
            PlanNodeV::PhysicalTableScan(_) => PlanNodeType::PhysicalTableScan,
            PlanNodeV::PhysicalProject(_) => PlanNodeType::PhysicalProject,
            PlanNodeV::PhysicalFilter(_) => PlanNodeType::PhysicalFilter,
            PlanNodeV::PhysicalSimpleAgg(_) => PlanNodeType::PhysicalSimpleAgg,
        }
    }

    /// The output schema: a scan owns its schema, every other node passes its
    /// input's schema through.
    pub open spec fn schema(self) -> Seq<ColumnCatalogV>
        decreases self,
    {
        match self {
            PlanNodeV::Dummy => Seq::empty(),
            PlanNodeV::LogicalTableScan(s) => s.columns,
            PlanNodeV::LogicalProject(p) => p.input.schema(),
            PlanNodeV::LogicalFilter(f) => f.input.schema(),
            PlanNodeV::LogicalAgg(a) => a.input.schema(),
            PlanNodeV::PhysicalTableScan(s) => s.columns,
            PlanNodeV::PhysicalProject(p) => p.input.schema(),
            PlanNodeV::PhysicalFilter(f) => f.input.schema(),
            PlanNodeV::PhysicalSimpleAgg(a) => a.input.schema(),
        }
    }

    /// The ordered children of a plan node model.
    pub open spec fn children(self) -> Seq<PlanNodeV> {
        match self {
            PlanNodeV::Dummy => Seq::empty(),
            PlanNodeV::LogicalTableScan(_) => Seq::empty(),
            PlanNodeV::LogicalProject(p) => seq![*p.input],
            PlanNodeV::LogicalFilter(f) => seq![*f.input],
            PlanNodeV::LogicalAgg(a) => seq![*a.input],
            PlanNodeV::PhysicalTableScan(_) => Seq::empty(),
            PlanNodeV::PhysicalProject(p) => seq![*p.input],
            PlanNodeV::PhysicalFilter(f) => seq![*f.input],
            PlanNodeV::PhysicalSimpleAgg(a) => seq![*a.input],
        }
    }

    /// The arity a node demands of `with_children`.
    pub open spec fn arity(self) -> int {
        self.children().len() as int
    }

    /// The node rebuilt over new children; a physical node rebuilds the
    /// logical node it wraps. Meaningful only when `children` matches the
    /// node's arity.
    pub open spec fn with_children(self, children: Seq<PlanNodeV>) -> PlanNodeV
        recommends
            children.len() == self.arity(),
    {
        match self {
            PlanNodeV::Dummy => PlanNodeV::Dummy,
            PlanNodeV::LogicalTableScan(s) => PlanNodeV::LogicalTableScan(s),
            PlanNodeV::LogicalProject(p) => PlanNodeV::LogicalProject(
                LogicalProjectV { exprs: p.exprs, input: Box::new(children[0]) },
            ),
            PlanNodeV::LogicalFilter(f) => PlanNodeV::LogicalFilter(
                LogicalFilterV { expr: f.expr, input: Box::new(children[0]) },
            ),
            PlanNodeV::LogicalAgg(a) => PlanNodeV::LogicalAgg(
                LogicalAggV {
                    agg_funcs: a.agg_funcs,
                    group_by: a.group_by,
                    input: Box::new(children[0]),
                },
            ),
            PlanNodeV::PhysicalTableScan(s) => PlanNodeV::LogicalTableScan(s),
            PlanNodeV::PhysicalProject(p) => PlanNodeV::LogicalProject(
                LogicalProjectV { exprs: p.exprs, input: Box::new(children[0]) },
            ),
            PlanNodeV::PhysicalFilter(f) => PlanNodeV::LogicalFilter(
                LogicalFilterV { expr: f.expr, input: Box::new(children[0]) },
            ),
            PlanNodeV::PhysicalSimpleAgg(a) => PlanNodeV::LogicalAgg(
                LogicalAggV {
                    agg_funcs: a.agg_funcs,
                    group_by: a.group_by,
                    input: Box::new(children[0]),
                },
            ),
        }
    }

    /// The number of nodes in the plan tree.
    pub open spec fn node_count(self) -> nat
        decreases self,
    {
        match self {
            PlanNodeV::Dummy => 1,
            PlanNodeV::LogicalTableScan(_) => 1,
            PlanNodeV::LogicalProject(p) => 1 + p.input.node_count(),
            PlanNodeV::LogicalFilter(f) => 1 + f.input.node_count(),
            PlanNodeV::LogicalAgg(a) => 1 + a.input.node_count(),
            PlanNodeV::PhysicalTableScan(_) => 1,
            PlanNodeV::PhysicalProject(p) => 1 + p.input.node_count(),
            PlanNodeV::PhysicalFilter(f) => 1 + f.input.node_count(),
            PlanNodeV::PhysicalSimpleAgg(a) => 1 + a.input.node_count(),
        }
    }
}

/// Schema propagation: a projection or filter node's schema equals its
/// input's schema — a filter never changes the shape of its rows, and the
/// projection's schema is read off its positional references downstream.
pub proof fn lemma_schema_propagation(p: PlanNodeV)
    ensures
        p matches PlanNodeV::LogicalProject(pr) ==> p.schema() == pr.input.schema(),
        p matches PlanNodeV::LogicalFilter(f) ==> p.schema() == f.input.schema(),
        p matches PlanNodeV::PhysicalProject(pr) ==> p.schema() == pr.input.schema(),
        p matches PlanNodeV::PhysicalFilter(f) ==> p.schema() == f.input.schema(),
{
}

/// The dispatch tag, read off a plan node. Every node type declares its tag
/// through this trait.
pub trait WithPlanNodeType {
    /// The node-type tag used for dispatch.
    fn node_type(&self) -> PlanNodeType;
}

impl WithPlanNodeType for PlanNode {
    fn node_type(&self) -> (r: PlanNodeType)
        ensures
            r == self@.node_type(),
    {
        match self {
            PlanNode::Dummy(_) => PlanNodeType::Dummy,
            PlanNode::LogicalTableScan(_) => PlanNodeType::LogicalTableScan,
            PlanNode::LogicalProject(_) => PlanNodeType::LogicalProject,
            PlanNode::LogicalFilter(_) => PlanNodeType::LogicalFilter,
            PlanNode::LogicalAgg(_) => PlanNodeType::LogicalAgg,
            PlanNode::PhysicalTableScan(_) => PlanNodeType::PhysicalTableScan,
            PlanNode::PhysicalProject(_) => PlanNodeType::PhysicalProject,
            PlanNode::PhysicalFilter(_) => PlanNodeType::PhysicalFilter,
            PlanNode::PhysicalSimpleAgg(_) => PlanNodeType::PhysicalSimpleAgg,
        }
    }
}

impl Clone for LogicalTableScan {
    /// A deep copy with the same model.
    fn clone(&self) -> (r: Self)
        ensures
            r@ == self@,
    {
        let r = LogicalTableScan {
            table_id: self.table_id.clone(),
            columns: clone_columns(&self.columns),
        };
        proof {
            assert(r@ =~= self@);
        }
        r
    }
}

impl Clone for LogicalProject {
    /// A deep copy with the same model.
    fn clone(&self) -> (r: Self)
        ensures
            r@ == self@,
        decreases self,
    {
        LogicalProject { exprs: clone_bound_exprs(&self.exprs), input: Box::new((*self.input).clone()) }
    }
}

impl Clone for LogicalFilter {
    /// A deep copy with the same model.
    fn clone(&self) -> (r: Self)
        ensures
            r@ == self@,
        decreases self,
    {
        LogicalFilter { expr: self.expr.clone(), input: Box::new((*self.input).clone()) }
    }
}

impl Clone for LogicalAgg {
    /// A deep copy with the same model.
    fn clone(&self) -> (r: Self)
        ensures
            r@ == self@,
        decreases self,
    {
        LogicalAgg {
            agg_funcs: clone_bound_exprs(&self.agg_funcs),
            group_by: clone_bound_exprs(&self.group_by),
            input: Box::new((*self.input).clone()),
        }
    }
}

impl Clone for PlanNode {
    /// A deep copy with the same model.
    fn clone(&self) -> (r: Self)
        ensures
            r@ == self@,
        decreases self,
    {
        match self {
            PlanNode::Dummy(_) => PlanNode::Dummy(Dummy {}),
            PlanNode::LogicalTableScan(s) => PlanNode::LogicalTableScan(s.clone()),
            PlanNode::LogicalProject(p) => PlanNode::LogicalProject(p.clone()),
            PlanNode::LogicalFilter(f) => PlanNode::LogicalFilter(f.clone()),
            PlanNode::LogicalAgg(a) => PlanNode::LogicalAgg(a.clone()),
            PlanNode::PhysicalTableScan(p) => PlanNode::PhysicalTableScan(
                PhysicalTableScan { logical: p.logical.clone() },
            ),
            PlanNode::PhysicalProject(p) => PlanNode::PhysicalProject(
                PhysicalProject { logical: p.logical.clone() },
            ),
            PlanNode::PhysicalFilter(p) => PlanNode::PhysicalFilter(
                PhysicalFilter { logical: p.logical.clone() },
            ),
            PlanNode::PhysicalSimpleAgg(p) => PlanNode::PhysicalSimpleAgg(
                PhysicalSimpleAgg { logical: p.logical.clone() },
            ),
        }
    }
}

impl PlanNode {
    /// The output schema of this node.
    pub fn schema(&self) -> (r: Vec<ColumnCatalog>)
        ensures
            r@.map_values(|c: ColumnCatalog| c@) == self@.schema(),
        decreases self,
    {
        match self {
            PlanNode::Dummy(_) => {
                let r: Vec<ColumnCatalog> = Vec::new();
                proof {
                    assert(r@.map_values(|c: ColumnCatalog| c@) =~= self@.schema());
                }
                r
            },
            PlanNode::LogicalTableScan(s) => clone_columns(&s.columns),
            PlanNode::LogicalProject(p) => (*p.input).schema(),
            PlanNode::LogicalFilter(f) => (*f.input).schema(),
            PlanNode::LogicalAgg(a) => (*a.input).schema(),
            PlanNode::PhysicalTableScan(p) => clone_columns(&p.logical.columns),
            PlanNode::PhysicalProject(p) => (*p.logical.input).schema(),
            PlanNode::PhysicalFilter(f) => (*f.logical.input).schema(),
            PlanNode::PhysicalSimpleAgg(a) => (*a.logical.input).schema(),
        }
    }

    /// The ordered children of this node, as fresh copies.
    pub fn children(&self) -> (r: Vec<PlanNode>)
        ensures
            r@.map_values(|p: PlanNode| p@) == self@.children(),
    {
        let mut r: Vec<PlanNode> = Vec::new();
        match self {
            PlanNode::Dummy(_) => {},
            PlanNode::LogicalTableScan(_) => {},
            PlanNode::LogicalProject(p) => {
                r.push((*p.input).clone());
            },
            PlanNode::LogicalFilter(f) => {
                r.push((*f.input).clone());
            },
            PlanNode::LogicalAgg(a) => {
                r.push((*a.input).clone());
            },
            PlanNode::PhysicalTableScan(_) => {},
            PlanNode::PhysicalProject(p) => {
                r.push((*p.logical.input).clone());
            },
            PlanNode::PhysicalFilter(f) => {
                r.push((*f.logical.input).clone());
            },
            PlanNode::PhysicalSimpleAgg(a) => {
                r.push((*a.logical.input).clone());
            },
        }
        proof {
            assert(r@.map_values(|p: PlanNode| p@) =~= self@.children());
        }
        r
    }

    /// The node rebuilt over new children; the child count must match the
    /// node's arity exactly — a mismatch is a programming error, not a
    /// recoverable one.
    pub fn clone_with_children(&self, children: Vec<PlanNode>) -> (r: PlanNode)
        requires
            children@.len() == self@.arity(),
        ensures
            r@ == self@.with_children(children@.map_values(|p: PlanNode| p@)),
    {
        let ghost children_v = children@.map_values(|p: PlanNode| p@);
        let mut children = children;
        match self {
            PlanNode::Dummy(_) => PlanNode::Dummy(Dummy {}),
            PlanNode::LogicalTableScan(s) => PlanNode::LogicalTableScan(s.clone()),
            PlanNode::LogicalProject(p) => {
                let input = children.pop().unwrap();
                PlanNode::LogicalProject(
                    LogicalProject { exprs: clone_bound_exprs(&p.exprs), input: Box::new(input) },
                )
            },
            PlanNode::LogicalFilter(f) => {
                let input = children.pop().unwrap();
                PlanNode::LogicalFilter(
                    LogicalFilter { expr: f.expr.clone(), input: Box::new(input) },
                )
            },
            PlanNode::LogicalAgg(a) => {
                let input = children.pop().unwrap();
                PlanNode::LogicalAgg(
                    LogicalAgg {
                        agg_funcs: clone_bound_exprs(&a.agg_funcs),
                        group_by: clone_bound_exprs(&a.group_by),
                        input: Box::new(input),
                    },
                )
            },
            PlanNode::PhysicalTableScan(p) => PlanNode::LogicalTableScan(p.logical.clone()),
            PlanNode::PhysicalProject(p) => {
                let input = children.pop().unwrap();
                PlanNode::LogicalProject(
                    LogicalProject {
                        exprs: clone_bound_exprs(&p.logical.exprs),
                        input: Box::new(input),
                    },
                )
            },
            PlanNode::PhysicalFilter(f) => {
                let input = children.pop().unwrap();
                PlanNode::LogicalFilter(
                    LogicalFilter { expr: f.logical.expr.clone(), input: Box::new(input) },
                )
            },
            PlanNode::PhysicalSimpleAgg(a) => {
                let input = children.pop().unwrap();
                PlanNode::LogicalAgg(
                    LogicalAgg {
                        agg_funcs: clone_bound_exprs(&a.logical.agg_funcs),
                        group_by: clone_bound_exprs(&a.logical.group_by),
                        input: Box::new(input),
                    },
                )
            },
        }
    }

    /// This node as a logical projection, when it is one.
    pub fn as_logical_project(&self) -> (r: Option<&LogicalProject>)
        ensures
            match r {
                Some(p) => self@ == PlanNodeV::LogicalProject(p@),
                None => !(self@ is LogicalProject),
            },
    {
        match self {
            PlanNode::LogicalProject(p) => Some(p),
            _ => None,
        }
    }

    /// This node as a logical filter, when it is one.
    pub fn as_logical_filter(&self) -> (r: Option<&LogicalFilter>)
        ensures
            match r {
                Some(f) => self@ == PlanNodeV::LogicalFilter(f@),
                None => !(self@ is LogicalFilter),
            },
    {
        match self {
            PlanNode::LogicalFilter(f) => Some(f),
            _ => None,
        }
    }

    /// This node as a logical aggregation, when it is one.
    pub fn as_logical_agg(&self) -> (r: Option<&LogicalAgg>)
        ensures
            match r {
                Some(a) => self@ == PlanNodeV::LogicalAgg(a@),
                None => !(self@ is LogicalAgg),
            },
    {
        match self {
            PlanNode::LogicalAgg(a) => Some(a),
            _ => None,
        }
    }
}

impl Dummy {
    /// A placeholder leaf.
    pub fn new() -> (r: Self)
        ensures
            r@ == PlanNodeV::Dummy,
    {
        Dummy {}
    }
}

impl View for Dummy {
    type V = PlanNodeV;

    open spec fn view(&self) -> PlanNodeV {
        PlanNodeV::Dummy
    }
}

impl LogicalTableScan {
    /// A scan of `table_id` producing `columns`.
    pub fn new(table_id: String, columns: Vec<ColumnCatalog>) -> (r: Self)
        ensures
            r@.table_id == table_id@,
            r@.columns == columns@.map_values(|c: ColumnCatalog| c@),
    {
        LogicalTableScan { table_id, columns }
    }

    /// The scanned table's id.
    pub fn table_id(&self) -> (r: String)
        ensures
            r@ == self@.table_id,
    {
        self.table_id.clone()
    }

    /// The ids of the scanned columns, in schema order.
    pub fn column_ids(&self) -> (r: Vec<String>)
        ensures
            r@.len() == self@.columns.len(),
            forall|i: int| 0 <= i < r@.len() ==> r@[i]@ == self@.columns[i].id,
    {
        let mut r: Vec<String> = Vec::new();
        let mut i: usize = 0;
        while i < self.columns.len()
            invariant
                i <= self.columns@.len(),
                r@.len() == i,
                forall|j: int| 0 <= j < i ==> r@[j]@ == self.columns@[j]@.id,
            decreases self.columns@.len() - i,
        {
            r.push(self.columns[i].id.clone());
            i += 1;
        }
        r
    }

    /// The scanned columns, in schema order.
    pub fn columns(&self) -> (r: Vec<ColumnCatalog>)
        ensures
            r@.map_values(|c: ColumnCatalog| c@) == self@.columns,
    {
        clone_columns(&self.columns)
    }
}

impl LogicalProject {
    /// A projection of `exprs` over `input`.
    pub fn new(exprs: Vec<BoundExpr>, input: Box<PlanNode>) -> (r: Self)
        ensures
            r@.exprs == bound_exprs_view(exprs@),
            *r@.input == input@,
    {
        LogicalProject { exprs, input }
    }

    /// The projected expressions.
    pub fn exprs(&self) -> (r: Vec<BoundExpr>)
        ensures
            bound_exprs_view(r@) == self@.exprs,
    {
        clone_bound_exprs(&self.exprs)
    }

    /// The projected input plan.
    pub fn input(&self) -> (r: Box<PlanNode>)
        ensures
            r@ == *self@.input,
    {
        Box::new((*self.input).clone())
    }
}

impl LogicalFilter {
    /// A filter of `input` by `expr`.
    pub fn new(expr: BoundExpr, input: Box<PlanNode>) -> (r: Self)
        ensures
            r@.expr == expr@,
            *r@.input == input@,
    {
        LogicalFilter { expr, input }
    }

    /// The predicate.
    pub fn expr(&self) -> (r: BoundExpr)
        ensures
            r@ == self@.expr,
    {
        self.expr.clone()
    }

    /// The filtered input plan.
    pub fn input(&self) -> (r: Box<PlanNode>)
        ensures
            r@ == *self@.input,
    {
        Box::new((*self.input).clone())
    }
}

impl LogicalAgg {
    /// An ungrouped aggregation of `agg_funcs` over `input`.
    pub fn new(agg_funcs: Vec<BoundExpr>, group_by: Vec<BoundExpr>, input: Box<PlanNode>) -> (r:
        Self)
        ensures
            r@.agg_funcs == bound_exprs_view(agg_funcs@),
            r@.group_by == bound_exprs_view(group_by@),
            *r@.input == input@,
    {
        LogicalAgg { agg_funcs, group_by, input }
    }

    /// The aggregate expressions.
    pub fn agg_funcs(&self) -> (r: Vec<BoundExpr>)
        ensures
            bound_exprs_view(r@) == self@.agg_funcs,
    {
        clone_bound_exprs(&self.agg_funcs)
    }

    /// The grouping expressions.
    pub fn group_by(&self) -> (r: Vec<BoundExpr>)
        ensures
            bound_exprs_view(r@) == self@.group_by,
    {
        clone_bound_exprs(&self.group_by)
    }

    /// The aggregated input plan.
    pub fn input(&self) -> (r: Box<PlanNode>)
        ensures
            r@ == *self@.input,
    {
        Box::new((*self.input).clone())
    }
}

impl PhysicalTableScan {
    /// Wrap a logical scan for execution.
    pub fn new(logical: LogicalTableScan) -> (r: Self)
        ensures
            r.logical@ == logical@,
    {
        PhysicalTableScan { logical }
    }

    /// The wrapped logical scan.
    pub fn logical(&self) -> (r: &LogicalTableScan)
        ensures
            r@ == self.logical@,
    {
        &self.logical
    }
}

impl PhysicalProject {
    /// Wrap a logical projection for execution.
    pub fn new(logical: LogicalProject) -> (r: Self)
        ensures
            r.logical@ == logical@,
    {
        PhysicalProject { logical }
    }

    /// The wrapped logical projection.
    pub fn logical(&self) -> (r: &LogicalProject)
        ensures
            r@ == self.logical@,
    {
        &self.logical
    }
}

impl PhysicalFilter {
    /// Wrap a logical filter for execution.
    pub fn new(logical: LogicalFilter) -> (r: Self)
        ensures
            r.logical@ == logical@,
    {
        PhysicalFilter { logical }
    }

    /// The wrapped logical filter.
    pub fn logical(&self) -> (r: &LogicalFilter)
        ensures
            r@ == self.logical@,
    {
        &self.logical
    }
}

impl PhysicalSimpleAgg {
    /// Wrap a logical aggregation for execution.
    pub fn new(logical: LogicalAgg) -> (r: Self)
        ensures
            r.logical@ == logical@,
    {
        PhysicalSimpleAgg { logical }
    }

    /// The wrapped logical aggregation.
    pub fn logical(&self) -> (r: &LogicalAgg)
        ensures
            r@ == self.logical@,
    {
        &self.logical
    }
}

} // verus!
