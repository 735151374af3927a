//! Resolution of symbolic column references into positional input
//! references: each expression a node evaluates is matched against the
//! ordered list of expressions its child is known to emit.

use vstd::prelude::*;

use crate::binder::expression::{
    bound_exprs_view, clone_bound_exprs, eq_bound_expr, lemma_bound_exprs_view, BoundColumnRef,
    BoundExpr, BoundExprV, BoundInputRef,
};
use crate::binder::agg_func::BoundAggFunc;
use crate::catalog::{ColumnCatalog, ColumnCatalogV};
use crate::optimizer::plan_node::{
    LogicalAgg, LogicalAggV, LogicalFilter, LogicalFilterV, LogicalProject, LogicalProjectV,
    LogicalTableScan, PlanNode, PlanNodeV,
};

verus! {

/// The first position of `e` in `bindings` at or after `from`, or -1.
pub open spec fn find_index_from(bindings: Seq<BoundExprV>, e: BoundExprV, from: int) -> int
    decreases bindings.len() - from,
{
    if from < 0 || from >= bindings.len() {
        -1
    } else if bindings[from] == e {
        from
    } else {
        find_index_from(bindings, e, from + 1)
    }
}

/// The first position of `e` in `bindings`, or -1 when it is not there.
pub open spec fn find_index(bindings: Seq<BoundExprV>, e: BoundExprV) -> int {
    find_index_from(bindings, e, 0)
}

/// Can `e` be rewritten against `bindings` without hitting an unmatched,
/// non-decomposable expression? An expression found in the bindings must
/// carry a return type; one not found must be decomposable, down to leaves
/// that are constants or input references.
pub open spec fn expr_resolvable(bindings: Seq<BoundExprV>, e: BoundExprV) -> bool
    decreases e,
{
    match e {
        BoundExprV::Constant(_) => true,
        BoundExprV::InputRef { .. } => true,
        BoundExprV::ColumnRef(_) => find_index(bindings, e) >= 0,
        BoundExprV::BinaryOp { left, right, .. } => {
            if find_index(bindings, e) >= 0 {
                e.return_type() is Some
            } else {
                expr_resolvable(bindings, *left) && expr_resolvable(bindings, *right)
            }
        },
        BoundExprV::TypeCast { expr, .. } => {
            if find_index(bindings, e) >= 0 {
                true
            } else {
                expr_resolvable(bindings, *expr)
            }
        },
        BoundExprV::AggFunc { exprs, .. } => {
            if find_index(bindings, e) >= 0 {
                true
            } else {
                exprs_resolvable(bindings, exprs)
            }
        },
    }
}

/// Every expression of the list can be rewritten against `bindings`.
pub open spec fn exprs_resolvable(bindings: Seq<BoundExprV>, exprs: Seq<BoundExprV>) -> bool
    decreases exprs,
{
    if exprs.len() == 0 {
        true
    } else {
        expr_resolvable(bindings, exprs[0]) && exprs_resolvable(bindings, exprs.drop_first())
    }
}

/// What rewriting `e` against `bindings` yields: an exact match becomes a
/// positional reference; anything else is decomposed, leaves staying as they
/// are.
pub open spec fn spec_rewrite_expr(bindings: Seq<BoundExprV>, e: BoundExprV) -> BoundExprV
    decreases e,
{
    let idx = find_index(bindings, e);
    match e {
        BoundExprV::Constant(_) => e,
        BoundExprV::InputRef { .. } => e,
        BoundExprV::ColumnRef(_) => {
            if idx >= 0 {
                BoundExprV::InputRef { index: idx as usize, return_type: e.return_type()->0 }
            } else {
                e
            }
        },
        BoundExprV::BinaryOp { op, left, right, return_type } => {
            if idx >= 0 {
                BoundExprV::InputRef { index: idx as usize, return_type: e.return_type()->0 }
            } else {
                BoundExprV::BinaryOp {
                    op,
                    left: Box::new(spec_rewrite_expr(bindings, *left)),
                    right: Box::new(spec_rewrite_expr(bindings, *right)),
                    return_type,
                }
            }
        },
        BoundExprV::TypeCast { expr, cast_type } => {
            if idx >= 0 {
                BoundExprV::InputRef { index: idx as usize, return_type: e.return_type()->0 }
            } else {
                BoundExprV::TypeCast {
                    expr: Box::new(spec_rewrite_expr(bindings, *expr)),
                    cast_type,
                }
            }
        },
        BoundExprV::AggFunc { func, exprs, return_type } => {
            if idx >= 0 {
                BoundExprV::InputRef { index: idx as usize, return_type: e.return_type()->0 }
            } else {
                BoundExprV::AggFunc {
                    func,
                    exprs: spec_rewrite_exprs(bindings, exprs),
                    return_type,
                }
            }
        },
    }
}

/// Rewriting a list of expressions, elementwise.
pub open spec fn spec_rewrite_exprs(bindings: Seq<BoundExprV>, exprs: Seq<BoundExprV>) -> Seq<
    BoundExprV,
>
    decreases exprs,
{
    if exprs.len() == 0 {
        Seq::empty()
    } else {
        seq![spec_rewrite_expr(bindings, exprs[0])] + spec_rewrite_exprs(
            bindings,
            exprs.drop_first(),
        )
    }
}

/// `spec_rewrite_exprs` is the elementwise rewrite of its argument.
pub proof fn lemma_spec_rewrite_exprs(bindings: Seq<BoundExprV>, exprs: Seq<BoundExprV>)
    ensures
        spec_rewrite_exprs(bindings, exprs).len() == exprs.len(),
        forall|i: int|
            0 <= i < exprs.len() ==> spec_rewrite_exprs(bindings, exprs)[i] == spec_rewrite_expr(
                bindings,
                exprs[i],
            ),
    decreases exprs,
{
    if exprs.len() > 0 {
        assert(spec_rewrite_exprs(bindings, exprs) == seq![
            spec_rewrite_expr(bindings, exprs[0]),
        ] + spec_rewrite_exprs(bindings, exprs.drop_first()));
        lemma_spec_rewrite_exprs(bindings, exprs.drop_first());
        assert forall|i: int| 0 <= i < exprs.len() implies spec_rewrite_exprs(bindings, exprs)[i]
            == spec_rewrite_expr(bindings, exprs[i]) by {
            if i > 0 {
                assert(spec_rewrite_exprs(bindings, exprs)[i] == spec_rewrite_exprs(
                    bindings,
                    exprs.drop_first(),
                )[i - 1]);
                assert(exprs.drop_first()[i - 1] == exprs[i]);
            }
        }
    }
}

/// No column reference is reachable in `e`.
pub open spec fn no_column_ref(e: BoundExprV) -> bool
    decreases e,
{
    match e {
        BoundExprV::Constant(_) => true,
        BoundExprV::InputRef { .. } => true,
        BoundExprV::ColumnRef(_) => false,
        BoundExprV::BinaryOp { left, right, .. } => no_column_ref(*left) && no_column_ref(*right),
        BoundExprV::TypeCast { expr, .. } => no_column_ref(*expr),
        BoundExprV::AggFunc { exprs, .. } => no_column_ref_list(exprs),
    }
}

/// No column reference is reachable in any expression of the list.
pub open spec fn no_column_ref_list(exprs: Seq<BoundExprV>) -> bool
    decreases exprs,
{
    if exprs.len() == 0 {
        true
    } else {
        no_column_ref(exprs[0]) && no_column_ref_list(exprs.drop_first())
    }
}

/// Rewriting a resolvable expression leaves no column reference behind.
pub proof fn lemma_rewrite_no_column_ref(bindings: Seq<BoundExprV>, e: BoundExprV)
    requires
        expr_resolvable(bindings, e),
    ensures
        no_column_ref(spec_rewrite_expr(bindings, e)),
    decreases e,
{
    match e {
        BoundExprV::Constant(_) => {},
        BoundExprV::InputRef { .. } => {},
        BoundExprV::ColumnRef(_) => {},
        BoundExprV::BinaryOp { left, right, .. } => {
            if find_index(bindings, e) < 0 {
                lemma_rewrite_no_column_ref(bindings, *left);
                lemma_rewrite_no_column_ref(bindings, *right);
            }
        },
        BoundExprV::TypeCast { expr, .. } => {
            if find_index(bindings, e) < 0 {
                lemma_rewrite_no_column_ref(bindings, *expr);
            }
        },
        BoundExprV::AggFunc { exprs, .. } => {
            if find_index(bindings, e) < 0 {
                lemma_rewrite_exprs_no_column_ref(bindings, exprs);
            }
        },
    }
}

/// Rewriting a resolvable expression list leaves no column reference behind.
pub proof fn lemma_rewrite_exprs_no_column_ref(bindings: Seq<BoundExprV>, exprs: Seq<BoundExprV>)
    requires
        exprs_resolvable(bindings, exprs),
    ensures
        no_column_ref_list(spec_rewrite_exprs(bindings, exprs)),
    decreases exprs,
{
    if exprs.len() > 0 {
        lemma_rewrite_no_column_ref(bindings, exprs[0]);
        lemma_rewrite_exprs_no_column_ref(bindings, exprs.drop_first());
        let rewritten = spec_rewrite_exprs(bindings, exprs);
        assert(rewritten == seq![spec_rewrite_expr(bindings, exprs[0])] + spec_rewrite_exprs(
            bindings,
            exprs.drop_first(),
        ));
        assert(rewritten.drop_first() =~= spec_rewrite_exprs(bindings, exprs.drop_first()));
    }
}

/// The column references a table scan emits, one per column in schema order.
pub open spec fn scan_bindings(columns: Seq<ColumnCatalogV>) -> Seq<BoundExprV> {
    columns.map_values(|c: ColumnCatalogV| BoundExprV::ColumnRef(c))
}

/// The bindings the traversal carries after it has processed `p`, having
/// carried `incoming` before: a scan emits its columns, a projection or
/// aggregation emits its own (pre-rewrite) expression list, a filter leaves
/// its child's bindings untouched, and every other node leaves the incoming
/// bindings as they are.
pub open spec fn bindings_after(p: PlanNodeV, incoming: Seq<BoundExprV>) -> Seq<BoundExprV>
    decreases p,
{
    match p {
        PlanNodeV::LogicalTableScan(s) => scan_bindings(s.columns),
        PlanNodeV::LogicalProject(pr) => pr.exprs,
        PlanNodeV::LogicalFilter(f) => bindings_after(*f.input, incoming),
        PlanNodeV::LogicalAgg(a) => a.agg_funcs,
        PlanNodeV::Dummy => incoming,
        PlanNodeV::PhysicalTableScan(_) => incoming,
        PlanNodeV::PhysicalProject(pr) => bindings_after(*pr.input, incoming),
        PlanNodeV::PhysicalFilter(f) => bindings_after(*f.input, incoming),
        PlanNodeV::PhysicalSimpleAgg(a) => bindings_after(*a.input, incoming),
    }
}

/// Can the whole plan be rewritten without hitting an unmatched,
/// non-decomposable expression? Physical nodes are not rewritten by this
/// pass.
pub open spec fn plan_resolvable(p: PlanNodeV, incoming: Seq<BoundExprV>) -> bool
    decreases p,
{
    match p {
        PlanNodeV::Dummy => true,
        PlanNodeV::LogicalTableScan(_) => true,
        PlanNodeV::LogicalProject(pr) => plan_resolvable(*pr.input, incoming) && exprs_resolvable(
            bindings_after(*pr.input, incoming),
            pr.exprs,
        ),
        PlanNodeV::LogicalFilter(f) => plan_resolvable(*f.input, incoming) && expr_resolvable(
            bindings_after(*f.input, incoming),
            f.expr,
        ),
        PlanNodeV::LogicalAgg(a) => plan_resolvable(*a.input, incoming) && exprs_resolvable(
            bindings_after(*a.input, incoming),
            a.agg_funcs,
        ),
        PlanNodeV::PhysicalTableScan(_) => false,
        PlanNodeV::PhysicalProject(_) => false,
        PlanNodeV::PhysicalFilter(_) => false,
        PlanNodeV::PhysicalSimpleAgg(_) => false,
    }
}

/// What rewriting the plan yields: each node's expressions are rewritten
/// against its child's bindings; a scan is left as it is. A physical node
/// falls to the pass-through behaviour: its children are rewritten and the
/// node is rebuilt over them.
pub open spec fn spec_rewrite_plan(p: PlanNodeV, incoming: Seq<BoundExprV>) -> PlanNodeV
    decreases p,
{
    match p {
        PlanNodeV::Dummy => PlanNodeV::Dummy,
        PlanNodeV::LogicalTableScan(s) => PlanNodeV::LogicalTableScan(s),
        PlanNodeV::LogicalProject(pr) => PlanNodeV::LogicalProject(
            LogicalProjectV {
                exprs: spec_rewrite_exprs(bindings_after(*pr.input, incoming), pr.exprs),
                input: Box::new(spec_rewrite_plan(*pr.input, incoming)),
            },
        ),
        PlanNodeV::LogicalFilter(f) => PlanNodeV::LogicalFilter(
            LogicalFilterV {
                expr: spec_rewrite_expr(bindings_after(*f.input, incoming), f.expr),
                input: Box::new(spec_rewrite_plan(*f.input, incoming)),
            },
        ),
        PlanNodeV::LogicalAgg(a) => PlanNodeV::LogicalAgg(
            LogicalAggV {
                agg_funcs: spec_rewrite_exprs(bindings_after(*a.input, incoming), a.agg_funcs),
                group_by: Seq::empty(),
                input: Box::new(spec_rewrite_plan(*a.input, incoming)),
            },
        ),
        PlanNodeV::PhysicalTableScan(s) => PlanNodeV::LogicalTableScan(s),
        PlanNodeV::PhysicalProject(pr) => PlanNodeV::LogicalProject(
            LogicalProjectV {
                exprs: pr.exprs,
                input: Box::new(spec_rewrite_plan(*pr.input, incoming)),
            },
        ),
        PlanNodeV::PhysicalFilter(f) => PlanNodeV::LogicalFilter(
            LogicalFilterV {
                expr: f.expr,
                input: Box::new(spec_rewrite_plan(*f.input, incoming)),
            },
        ),
        PlanNodeV::PhysicalSimpleAgg(a) => PlanNodeV::LogicalAgg(
            LogicalAggV {
                agg_funcs: a.agg_funcs,
                group_by: a.group_by,
                input: Box::new(spec_rewrite_plan(*a.input, incoming)),
            },
        ),
    }
}

/// No column reference is reachable in any expression of the plan.
pub open spec fn plan_no_column_ref(p: PlanNodeV) -> bool
    decreases p,
{
    match p {
        PlanNodeV::Dummy => true,
        PlanNodeV::LogicalTableScan(_) => true,
        PlanNodeV::LogicalProject(pr) => no_column_ref_list(pr.exprs) && plan_no_column_ref(
            *pr.input,
        ),
        PlanNodeV::LogicalFilter(f) => no_column_ref(f.expr) && plan_no_column_ref(*f.input),
        PlanNodeV::LogicalAgg(a) => no_column_ref_list(a.agg_funcs) && no_column_ref_list(
            a.group_by,
        ) && plan_no_column_ref(*a.input),
        PlanNodeV::PhysicalTableScan(_) => true,
        PlanNodeV::PhysicalProject(pr) => no_column_ref_list(pr.exprs) && plan_no_column_ref(
            *pr.input,
        ),
        PlanNodeV::PhysicalFilter(f) => no_column_ref(f.expr) && plan_no_column_ref(*f.input),
        PlanNodeV::PhysicalSimpleAgg(a) => no_column_ref_list(a.agg_funcs) && no_column_ref_list(
            a.group_by,
        ) && plan_no_column_ref(*a.input),
    }
}

/// Rewriting a resolvable plan leaves no column reference reachable
/// anywhere in the rewritten tree.
pub proof fn lemma_rewrite_plan_no_column_ref(p: PlanNodeV, incoming: Seq<BoundExprV>)
    requires
        plan_resolvable(p, incoming),
    ensures
        plan_no_column_ref(spec_rewrite_plan(p, incoming)),
    decreases p,
{
    match p {
        PlanNodeV::Dummy => {},
        PlanNodeV::LogicalTableScan(_) => {},
        PlanNodeV::LogicalProject(pr) => {
            lemma_rewrite_plan_no_column_ref(*pr.input, incoming);
            lemma_rewrite_exprs_no_column_ref(bindings_after(*pr.input, incoming), pr.exprs);
        },
        PlanNodeV::LogicalFilter(f) => {
            lemma_rewrite_plan_no_column_ref(*f.input, incoming);
            lemma_rewrite_no_column_ref(bindings_after(*f.input, incoming), f.expr);
        },
        PlanNodeV::LogicalAgg(a) => {
            lemma_rewrite_plan_no_column_ref(*a.input, incoming);
            lemma_rewrite_exprs_no_column_ref(bindings_after(*a.input, incoming), a.agg_funcs);
        },
        _ => {},
    }
}

/// The traversal state: the expressions the last visited node is known to
/// emit, in output order.
pub struct InputRefRewriter {
    pub bindings: Vec<BoundExpr>,
}

impl View for InputRefRewriter {
    type V = Seq<BoundExprV>;

    open spec fn view(&self) -> Seq<BoundExprV> {
        bound_exprs_view(self.bindings@)
    }
}

impl Default for InputRefRewriter {
    /// A rewriter with no bindings yet.
    fn default() -> (r: Self)
        ensures
            r@.len() == 0,
    {
        InputRefRewriter { bindings: Vec::new() }
    }
}

impl InputRefRewriter {
    /// The first position of `e` among the current bindings.
    fn position_of(&self, e: &BoundExpr) -> (r: Option<usize>)
        ensures
            match r {
                Some(i) => find_index(self@, e@) == i as int,
                None => find_index(self@, e@) == -1,
            },
    {
        proof {
            lemma_bound_exprs_view(self.bindings@);
        }
        let n = self.bindings.len();
        let mut i: usize = 0;
        #[verifier::loop_isolation(false)]
        while i < n
            invariant
                i <= n,
                find_index_from(self@, e@, 0) == find_index_from(self@, e@, i as int),
            decreases n - i,
        {
            if eq_bound_expr(&self.bindings[i], e) {
                return Some(i);
            }
            i += 1;
        }
        None
    }

    /// Rewrite an expression found among the bindings, or decompose it.
    fn rewrite_internal(&self, expr: &BoundExpr) -> (r: BoundExpr)
        requires
            expr_resolvable(self@, expr@),
            !(expr@ is Constant),
            !(expr@ is InputRef),
        ensures
            r@ == spec_rewrite_expr(self@, expr@),
        decreases expr, 0int,
    {
        match self.position_of(expr) {
            Some(idx) => {
                let rt = expr.return_type().unwrap();
                BoundExpr::InputRef(BoundInputRef { index: idx, return_type: rt })
            },
            None => {
                match expr {
                    BoundExpr::BinaryOp(b) => {
                        let left = self.rewrite_expr(&b.left);
                        let right = self.rewrite_expr(&b.right);
                        BoundExpr::BinaryOp(
                            crate::binder::expression::BoundBinaryOp {
                                op: b.op,
                                left: Box::new(left),
                                right: Box::new(right),
                                return_type: b.return_type,
                            },
                        )
                    },
                    BoundExpr::TypeCast(t) => {
                        let inner = self.rewrite_expr(&t.expr);
                        BoundExpr::TypeCast(
                            crate::binder::expression::BoundTypeCast {
                                expr: Box::new(inner),
                                cast_type: t.cast_type,
                            },
                        )
                    },
                    BoundExpr::AggFunc(a) => {
                        let ghost exprs_v = bound_exprs_view(a.exprs@);
                        proof {
                            lemma_bound_exprs_view(a.exprs@);
                            lemma_exprs_resolvable_each(self@, exprs_v);
                            lemma_spec_rewrite_exprs(self@, exprs_v);
                        }
                        let n = a.exprs.len();
                        let mut new_exprs: Vec<BoundExpr> = Vec::new();
                        let mut i: usize = 0;
                        #[verifier::loop_isolation(false)]
                        while i < n
                            invariant
                                i <= n,
                                new_exprs@.len() == i,
                                forall|j: int|
                                    0 <= j < i ==> new_exprs@[j]@ == spec_rewrite_expr(
                                        self@,
                                        exprs_v[j],
                                    ),
                            decreases n - i,
                        {
                            proof {
                                assert(exprs_v[i as int] == a.exprs@[i as int]@);
                                assert(expr_resolvable(self@, exprs_v[i as int]));
                            }
                            let e = self.rewrite_expr(&a.exprs[i]);
                            new_exprs.push(e);
                            i += 1;
                        }
                        proof {
                            lemma_bound_exprs_view(new_exprs@);
                            assert(bound_exprs_view(new_exprs@) =~= spec_rewrite_exprs(
                                self@,
                                exprs_v,
                            ));
                        }
                        BoundExpr::AggFunc(
                            BoundAggFunc {
                                func: a.func,
                                exprs: new_exprs,
                                return_type: a.return_type,
                            },
                        )
                    },
                    // A column reference that is not among the bindings is
                    // ruled out by this function's precondition.
                    _ => {
                        proof {
                            assert(false);
                        }
                        BoundExpr::InputRef(BoundInputRef { index: 0, return_type: crate::types::DataType::Null })
                    },
                }
            },
        }
    }

    /// Rewrite one expression against the current bindings.
    pub fn rewrite_expr(&self, expr: &BoundExpr) -> (r: BoundExpr)
        requires
            expr_resolvable(self@, expr@),
        ensures
            r@ == spec_rewrite_expr(self@, expr@),
        decreases expr, 1int,
    {
        match expr {
            BoundExpr::Constant(_) => expr.clone(),
            BoundExpr::InputRef(_) => expr.clone(),
            _ => self.rewrite_internal(expr),
        }
    }
}

impl InputRefRewriter {
    /// Rewrite a whole logical plan: resolve every expression against the
    /// bindings its child emits, carrying the bindings up the tree.
    pub fn rewrite(&mut self, plan: &PlanNode) -> (r: PlanNode)
        requires
            plan_resolvable(plan@, old(self)@),
        ensures
            r@ == spec_rewrite_plan(plan@, old(self)@),
            final(self)@ == bindings_after(plan@, old(self)@),
        decreases plan,
    {
        let ghost incoming = self@;
        match plan {
            PlanNode::Dummy(_) => PlanNode::Dummy(crate::optimizer::plan_node::Dummy {}),
            PlanNode::LogicalTableScan(s) => {
                let ghost cols = s@.columns;
                let n = s.columns.len();
                let mut bs: Vec<BoundExpr> = Vec::new();
                let mut i: usize = 0;
                #[verifier::loop_isolation(false)]
                while i < n
                    invariant
                        i <= n,
                        bs@.len() == i,
                        forall|j: int| 0 <= j < i ==> bs@[j]@ == BoundExprV::ColumnRef(cols[j]),
                    decreases n - i,
                {
                    proof {
                        assert(cols[i as int] == s.columns@[i as int]@);
                    }
                    bs.push(
                        BoundExpr::ColumnRef(BoundColumnRef { column_catalog: s.columns[i].clone() }),
                    );
                    i += 1;
                }
                self.bindings = bs;
                proof {
                    lemma_bound_exprs_view(self.bindings@);
                    assert(self@ =~= scan_bindings(cols));
                }
                PlanNode::LogicalTableScan(s.clone())
            },
            PlanNode::LogicalProject(p) => {
                let new_child = self.rewrite(&p.input);
                let new_exprs = self.rewrite_expr_list(&p.exprs);
                self.bindings = clone_bound_exprs(&p.exprs);
                PlanNode::LogicalProject(
                    LogicalProject { exprs: new_exprs, input: Box::new(new_child) },
                )
            },
            PlanNode::LogicalFilter(f) => {
                let new_child = self.rewrite(&f.input);
                let new_expr = self.rewrite_expr(&f.expr);
                PlanNode::LogicalFilter(
                    LogicalFilter { expr: new_expr, input: Box::new(new_child) },
                )
            },
            PlanNode::LogicalAgg(a) => {
                let new_child = self.rewrite(&a.input);
                let new_exprs = self.rewrite_expr_list(&a.agg_funcs);
                self.bindings = clone_bound_exprs(&a.agg_funcs);
                let group_by: Vec<BoundExpr> = Vec::new();
                proof {
                    assert(bound_exprs_view(group_by@) =~= Seq::<BoundExprV>::empty());
                }
                PlanNode::LogicalAgg(
                    LogicalAgg { agg_funcs: new_exprs, group_by, input: Box::new(new_child) },
                )
            },
            // Physical nodes are created only after this pass has run; they
            // are ruled out by this function's precondition.
            _ => {
                proof {
                    assert(false);
                }
                PlanNode::Dummy(crate::optimizer::plan_node::Dummy {})
            },
        }
    }

    /// Rewrite each expression of a list against the current bindings.
    fn rewrite_expr_list(&self, exprs: &Vec<BoundExpr>) -> (r: Vec<BoundExpr>)
        requires
            exprs_resolvable(self@, bound_exprs_view(exprs@)),
        ensures
            bound_exprs_view(r@) == spec_rewrite_exprs(self@, bound_exprs_view(exprs@)),
    {
        let ghost exprs_v = bound_exprs_view(exprs@);
        proof {
            lemma_bound_exprs_view(exprs@);
            lemma_exprs_resolvable_each(self@, exprs_v);
            lemma_spec_rewrite_exprs(self@, exprs_v);
        }
        let n = exprs.len();
        let mut r: Vec<BoundExpr> = Vec::new();
        let mut i: usize = 0;
        #[verifier::loop_isolation(false)]
        while i < n
            invariant
                i <= n,
                r@.len() == i,
                forall|j: int| 0 <= j < i ==> r@[j]@ == spec_rewrite_expr(self@, exprs_v[j]),
            decreases n - i,
        {
            proof {
                assert(exprs_v[i as int] == exprs@[i as int]@);
                assert(expr_resolvable(self@, exprs_v[i as int]));
            }
            let e = self.rewrite_expr(&exprs[i]);
            r.push(e);
            i += 1;
        }
        proof {
            lemma_bound_exprs_view(r@);
            assert(bound_exprs_view(r@) =~= spec_rewrite_exprs(self@, exprs_v));
        }
        r
    }
}

/// Decide `expr_resolvable` for one expression against concrete bindings.
pub fn check_expr_resolvable(bindings: &Vec<BoundExpr>, e: &BoundExpr) -> (r: bool)
    ensures
        r == expr_resolvable(bound_exprs_view(bindings@), e@),
    decreases e, 0int,
{
    let ghost bv = bound_exprs_view(bindings@);
    let found = position_in(bindings, e);
    match e {
        BoundExpr::Constant(_) => true,
        BoundExpr::InputRef(_) => true,
        BoundExpr::ColumnRef(_) => found.is_some(),
        BoundExpr::BinaryOp(b) => {
            if found.is_some() {
                b.return_type.is_some()
            } else {
                check_expr_resolvable(bindings, &b.left) && check_expr_resolvable(
                    bindings,
                    &b.right,
                )
            }
        },
        BoundExpr::TypeCast(t) => {
            if found.is_some() {
                true
            } else {
                check_expr_resolvable(bindings, &t.expr)
            }
        },
        BoundExpr::AggFunc(a) => {
            if found.is_some() {
                true
            } else {
                check_exprs_resolvable(bindings, &a.exprs)
            }
        },
    }
}

/// Decide `exprs_resolvable` for a list of expressions.
pub fn check_exprs_resolvable(bindings: &Vec<BoundExpr>, exprs: &Vec<BoundExpr>) -> (r: bool)
    ensures
        r == exprs_resolvable(bound_exprs_view(bindings@), bound_exprs_view(exprs@)),
    decreases exprs, 1int,
{
    let ghost bv = bound_exprs_view(bindings@);
    let ghost ev = bound_exprs_view(exprs@);
    proof {
        lemma_bound_exprs_view(exprs@);
        lemma_exprs_resolvable_iff_each(bv, ev);
    }
    let n = exprs.len();
    let mut i: usize = 0;
    #[verifier::loop_isolation(false)]
    while i < n
        invariant
            i <= n,
            forall|j: int| 0 <= j < i ==> expr_resolvable(bv, ev[j]),
        decreases n - i,
    {
        proof {
            assert(ev[i as int] == exprs@[i as int]@);
        }
        if !check_expr_resolvable(bindings, &exprs[i]) {
            return false;
        }
        i += 1;
    }
    true
}

/// The first position of `e` among `bindings`, searched left to right.
fn position_in(bindings: &Vec<BoundExpr>, e: &BoundExpr) -> (r: Option<usize>)
    ensures
        match r {
            Some(i) => find_index(bound_exprs_view(bindings@), e@) == i as int,
            None => find_index(bound_exprs_view(bindings@), e@) == -1,
        },
{
    let ghost bv = bound_exprs_view(bindings@);
    proof {
        lemma_bound_exprs_view(bindings@);
    }
    let n = bindings.len();
    let mut i: usize = 0;
    #[verifier::loop_isolation(false)]
    while i < n
        invariant
            i <= n,
            find_index_from(bv, e@, 0) == find_index_from(bv, e@, i as int),
        decreases n - i,
    {
        if eq_bound_expr(&bindings[i], e) {
            return Some(i);
        }
        i += 1;
    }
    None
}

/// List resolvability is elementwise resolvability.
proof fn lemma_exprs_resolvable_iff_each(bindings: Seq<BoundExprV>, exprs: Seq<BoundExprV>)
    ensures
        exprs_resolvable(bindings, exprs) <==> (forall|i: int|
            0 <= i < exprs.len() ==> expr_resolvable(bindings, exprs[i])),
    decreases exprs,
{
    if exprs.len() > 0 {
        lemma_exprs_resolvable_iff_each(bindings, exprs.drop_first());
        if forall|i: int| 0 <= i < exprs.len() ==> expr_resolvable(bindings, #[trigger] exprs[i]) {
            assert(expr_resolvable(bindings, exprs[0]));
            assert forall|i: int|
                0 <= i < exprs.drop_first().len() implies expr_resolvable(
                bindings,
                #[trigger] exprs.drop_first()[i],
            ) by {
                assert(exprs.drop_first()[i] == exprs[i + 1]);
            }
        }
        if exprs_resolvable(bindings, exprs) {
            assert forall|i: int|
                0 <= i < exprs.len() implies expr_resolvable(bindings, #[trigger] exprs[i]) by {
                if i > 0 {
                    assert(exprs.drop_first()[i - 1] == exprs[i]);
                }
            }
        }
    }
}

/// The bindings the traversal would carry after `plan`, built concretely.
pub fn bindings_after_exec(plan: &PlanNode, incoming: &Vec<BoundExpr>) -> (r: Vec<BoundExpr>)
    ensures
        bound_exprs_view(r@) == bindings_after(plan@, bound_exprs_view(incoming@)),
    decreases plan,
{
    match plan {
        PlanNode::LogicalTableScan(s) => {
            let ghost cols = s@.columns;
            let n = s.columns.len();
            let mut bs: Vec<BoundExpr> = Vec::new();
            let mut i: usize = 0;
            #[verifier::loop_isolation(false)]
            while i < n
                invariant
                    i <= n,
                    bs@.len() == i,
                    forall|j: int| 0 <= j < i ==> bs@[j]@ == BoundExprV::ColumnRef(cols[j]),
                decreases n - i,
            {
                proof {
                    assert(cols[i as int] == s.columns@[i as int]@);
                }
                bs.push(
                    BoundExpr::ColumnRef(BoundColumnRef { column_catalog: s.columns[i].clone() }),
                );
                i += 1;
            }
            proof {
                lemma_bound_exprs_view(bs@);
                assert(bound_exprs_view(bs@) =~= scan_bindings(cols));
            }
            bs
        },
        PlanNode::LogicalProject(p) => clone_bound_exprs(&p.exprs),
        PlanNode::LogicalFilter(f) => bindings_after_exec(&f.input, incoming),
        PlanNode::LogicalAgg(a) => clone_bound_exprs(&a.agg_funcs),
        PlanNode::Dummy(_) => clone_bound_exprs(incoming),
        PlanNode::PhysicalTableScan(_) => clone_bound_exprs(incoming),
        PlanNode::PhysicalProject(p) => bindings_after_exec(&p.logical.input, incoming),
        PlanNode::PhysicalFilter(f) => bindings_after_exec(&f.logical.input, incoming),
        PlanNode::PhysicalSimpleAgg(a) => bindings_after_exec(&a.logical.input, incoming),
    }
}

/// Decide `plan_resolvable` for a whole plan against concrete incoming
/// bindings.
pub fn check_plan_resolvable(plan: &PlanNode, incoming: &Vec<BoundExpr>) -> (r: bool)
    ensures
        r == plan_resolvable(plan@, bound_exprs_view(incoming@)),
    decreases plan,
{
    match plan {
        PlanNode::Dummy(_) => true,
        PlanNode::LogicalTableScan(_) => true,
        PlanNode::LogicalProject(p) => {
            if !check_plan_resolvable(&p.input, incoming) {
                return false;
            }
            let bindings = bindings_after_exec(&p.input, incoming);
            check_exprs_resolvable(&bindings, &p.exprs)
        },
        PlanNode::LogicalFilter(f) => {
            if !check_plan_resolvable(&f.input, incoming) {
                return false;
            }
            let bindings = bindings_after_exec(&f.input, incoming);
            check_expr_resolvable(&bindings, &f.expr)
        },
        PlanNode::LogicalAgg(a) => {
            if !check_plan_resolvable(&a.input, incoming) {
                return false;
            }
            let bindings = bindings_after_exec(&a.input, incoming);
            check_exprs_resolvable(&bindings, &a.agg_funcs)
        },
        _ => false,
    }
}

/// An expression that occurs in the bindings is found by the search.
pub proof fn lemma_find_index_present(bindings: Seq<BoundExprV>, e: BoundExprV, j: int)
    requires
        0 <= j < bindings.len(),
        bindings[j] == e,
    ensures
        find_index(bindings, e) >= 0,
{
    lemma_find_from_present(bindings, e, 0, j);
}

/// Helper for `lemma_find_index_present`, over the suffix search.
proof fn lemma_find_from_present(bindings: Seq<BoundExprV>, e: BoundExprV, from: int, j: int)
    requires
        0 <= from <= j < bindings.len(),
        bindings[j] == e,
    ensures
        find_index_from(bindings, e, from) >= 0,
    decreases bindings.len() - from,
{
    if bindings[from] != e {
        lemma_find_from_present(bindings, e, from + 1, j);
    }
}

/// Element indexing restates list resolvability.
proof fn lemma_exprs_resolvable_each(bindings: Seq<BoundExprV>, exprs: Seq<BoundExprV>)
    requires
        exprs_resolvable(bindings, exprs),
    ensures
        forall|i: int| 0 <= i < exprs.len() ==> expr_resolvable(bindings, exprs[i]),
    decreases exprs,
{
    if exprs.len() > 0 {
        lemma_exprs_resolvable_each(bindings, exprs.drop_first());
        assert forall|i: int| 0 <= i < exprs.len() implies expr_resolvable(bindings, exprs[i]) by {
            if i > 0 {
                assert(exprs.drop_first()[i - 1] == exprs[i]);
            }
        }
    }
}

} // verus!
