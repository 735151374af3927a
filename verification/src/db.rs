//! The database facade: bind, plan, rewrite, lower and execute one
//! statement against the stored tables.

use vstd::prelude::*;

use crate::ast::{Statement, StatementV};
use crate::binder::{BindError, BindErrorV, Binder, BinderV};
use crate::catalog::{RootCatalogV, TableCatalog};
use crate::executor::batch::{Batch, BatchV};
use crate::executor::{
    check_executable, executable, plan_ops, scan_table_id, spec_collect, try_collect,
    ExecutorBuilder, ExecutorError,
};
use crate::optimizer::input_ref_rewriter::{
    check_plan_resolvable, plan_resolvable, spec_rewrite_plan, InputRefRewriter,
};
use crate::optimizer::physical_rewriter::{
    check_plan_is_logical, plan_is_logical, spec_lower, PhysicalRewriter,
};
use crate::planner::{spec_plan, LogicalPlanError, Planner};
use crate::storage::{InMemoryStorage, StorageError, StorageErrorV, StorageImpl};
use crate::binder::expression::{bound_exprs_view, BoundExprV};

verus! {

/// The model of an `ExecutorError`.
#[verifier::ext_equal]
pub enum ExecutorErrorV {
    Storage(StorageErrorV),
    TypeMismatch,
    UnsupportedOperator,
    UnsupportedExpression,
    ArithmeticOverflow,
    DivisionByZero,
    InvalidCast,
    ColumnIndexOutOfRange,
    UnresolvedColumnRef,
    PredicateNotBoolean,
}

impl View for ExecutorError {
    type V = ExecutorErrorV;

    open spec fn view(&self) -> ExecutorErrorV {
        match self {
            ExecutorError::Storage(s) => ExecutorErrorV::Storage(s@),
            ExecutorError::TypeMismatch => ExecutorErrorV::TypeMismatch,
            ExecutorError::UnsupportedOperator => ExecutorErrorV::UnsupportedOperator,
            ExecutorError::UnsupportedExpression => ExecutorErrorV::UnsupportedExpression,
            ExecutorError::ArithmeticOverflow => ExecutorErrorV::ArithmeticOverflow,
            ExecutorError::DivisionByZero => ExecutorErrorV::DivisionByZero,
            ExecutorError::InvalidCast => ExecutorErrorV::InvalidCast,
            ExecutorError::ColumnIndexOutOfRange => ExecutorErrorV::ColumnIndexOutOfRange,
            ExecutorError::UnresolvedColumnRef => ExecutorErrorV::UnresolvedColumnRef,
            ExecutorError::PredicateNotBoolean => ExecutorErrorV::PredicateNotBoolean,
        }
    }
}

/// Why a statement failed, by stage.
#[derive(Debug, PartialEq)]
pub enum DatabaseError {
    Bind(BindError),
    Plan(LogicalPlanError),
    Execute(ExecutorError),
    /// A failure that indicates an incomplete implementation, not bad input.
    InternalError(String),
}

/// The model of a `DatabaseError`.
#[verifier::ext_equal]
pub enum DatabaseErrorV {
    Bind(BindErrorV),
    Plan(LogicalPlanError),
    Execute(ExecutorErrorV),
    InternalError(Seq<char>),
}

impl View for DatabaseError {
    type V = DatabaseErrorV;

    open spec fn view(&self) -> DatabaseErrorV {
        match self {
            DatabaseError::Bind(e) => DatabaseErrorV::Bind(e@),
            DatabaseError::Plan(e) => DatabaseErrorV::Plan(*e),
            DatabaseError::Execute(e) => DatabaseErrorV::Execute(e@),
            DatabaseError::InternalError(s) => DatabaseErrorV::InternalError(s@),
        }
    }
}

/// A database over one storage back end.
pub struct Database {
    pub storage: StorageImpl,
}

/// The catalog a store exposes: the catalog entry of each stored table, in
/// storage order.
pub open spec fn spec_catalog_of(st: crate::storage::InMemoryStorageV) -> RootCatalogV {
    RootCatalogV { tables: Seq::new(st.tables.len(), |i: int| st.tables[i].catalog) }
}

/// What running one statement yields: bind, plan, resolve references, lower
/// to a physical plan, and stream the scanned table through the operators.
pub open spec fn spec_run(st: crate::storage::InMemoryStorageV, stmt: StatementV) -> Result<
    Seq<BatchV>,
    DatabaseErrorV,
> {
    let b0 = BinderV { catalog: spec_catalog_of(st), context: Seq::empty() };
    match crate::binder::spec_bind(b0, stmt).0 {
        Err(e) => Err(DatabaseErrorV::Bind(e)),
        Ok(bound) => match spec_plan(bound) {
            Err(e) => Err(DatabaseErrorV::Plan(e)),
            Ok(plan) => {
                if !plan_resolvable(plan, Seq::empty()) {
                    Err(DatabaseErrorV::InternalError("unresolved reference in plan"@))
                } else {
                    let resolved = spec_rewrite_plan(plan, Seq::empty());
                    if !plan_is_logical(resolved) {
                        Err(DatabaseErrorV::InternalError("plan left the logical stage early"@))
                    } else {
                        let lowered = spec_lower(resolved);
                        if !executable(lowered) {
                            Err(DatabaseErrorV::InternalError("physical plan has no operator"@))
                        } else {
                            match st.lookup(scan_table_id(lowered)) {
                                None => Err(
                                    DatabaseErrorV::Execute(
                                        ExecutorErrorV::Storage(
                                            StorageErrorV::TableNotFound(scan_table_id(lowered)),
                                        ),
                                    ),
                                ),
                                Some(t) => match spec_collect(plan_ops(lowered), t.batches) {
                                    Err(e) => Err(DatabaseErrorV::Execute(e@)),
                                    Ok(out) => Ok(out),
                                },
                            }
                        }
                    }
                }
            },
        },
    }
}

/// Resolving an unqualified name over a single-table scope is that table's
/// column lookup.
proof fn lemma_singleton_resolve(t: crate::catalog::TableCatalogV, name: Seq<char>)
    ensures
        crate::binder::expression::spec_resolve_unqualified(seq![t], name) == (match t.lookup_column(
            name,
        ) {
            Some(c) => Ok::<crate::catalog::ColumnCatalogV, BindErrorV>(c),
            None => Err::<crate::catalog::ColumnCatalogV, BindErrorV>(
                BindErrorV::InvalidColumn(name),
            ),
        }),
{
    let ctx = seq![t];
    assert(ctx[0] == t);
    assert(ctx.drop_first() =~= Seq::<crate::catalog::TableCatalogV>::empty());
    assert(crate::binder::expression::count_tables_with_column(
        Seq::<crate::catalog::TableCatalogV>::empty(),
        name,
    ) == 0);
    assert(crate::binder::expression::first_column_in_context(
        Seq::<crate::catalog::TableCatalogV>::empty(),
        name,
    ) is None);
    assert(crate::binder::expression::first_column_in_context(ctx, name) == t.lookup_column(name));
}

/// Looking a table name up in a single-table scope finds that table or
/// nothing.
proof fn lemma_singleton_lookup(t: crate::catalog::TableCatalogV, name: Seq<char>)
    ensures
        crate::binder::expression::lookup_context(seq![t], name) == (if crate::ident::ci_equal(
            name,
            t.id,
        ) {
            Some(t)
        } else {
            None::<crate::catalog::TableCatalogV>
        }),
{
    let ctx = seq![t];
    assert(ctx[0] == t);
    assert(ctx.drop_first() =~= Seq::<crate::catalog::TableCatalogV>::empty());
    assert(crate::binder::expression::lookup_context(
        Seq::<crate::catalog::TableCatalogV>::empty(),
        name,
    ) is None);
}

/// A column the lookup resolves is one of the table's columns.
proof fn lemma_lookup_column_member(t: crate::catalog::TableCatalogV, name: Seq<char>)
    requires
        t.lookup_column(name) is Some,
    ensures
        exists|j: int|
            0 <= j < t.columns.len() && t.columns[j] == t.lookup_column(name)->0,
{
    lemma_first_column_member(t, name, 0);
}

/// Helper for `lemma_lookup_column_member`, over the suffix search.
proof fn lemma_first_column_member(t: crate::catalog::TableCatalogV, name: Seq<char>, from: int)
    requires
        t.first_column_from(name, from) is Some,
    ensures
        exists|j: int|
            0 <= j < t.columns.len() && t.columns[j] == t.first_column_from(name, from)->0,
    decreases t.columns.len() - from,
{
    if 0 <= from < t.columns.len() {
        if crate::ident::matches_lower(name, t.columns[from].id) {
            assert(t.columns[from] == t.first_column_from(name, from)->0);
        } else {
            lemma_first_column_member(t, name, from + 1);
        }
    }
}

/// A resolved column reference occurs among the scan bindings of its table.
proof fn lemma_column_ref_in_scan_bindings(t: crate::catalog::TableCatalogV, c: crate::catalog::ColumnCatalogV)
    requires
        exists|j: int| 0 <= j < t.columns.len() && t.columns[j] == c,
    ensures
        crate::optimizer::input_ref_rewriter::find_index(
            crate::optimizer::input_ref_rewriter::scan_bindings(t.columns),
            crate::binder::expression::BoundExprV::ColumnRef(c),
        ) >= 0,
{
    let bindings = crate::optimizer::input_ref_rewriter::scan_bindings(t.columns);
    let j = choose|j: int| 0 <= j < t.columns.len() && t.columns[j] == c;
    assert(bindings[j] == crate::binder::expression::BoundExprV::ColumnRef(c));
    crate::optimizer::input_ref_rewriter::lemma_find_index_present(
        bindings,
        crate::binder::expression::BoundExprV::ColumnRef(c),
        j,
    );
}

/// An expression the binder resolved over a single-table scope carries a
/// return type and resolves against that table's scan bindings.
proof fn lemma_bound_expr_resolvable(
    b: BinderV,
    t: crate::catalog::TableCatalogV,
    e: crate::ast::ExprV,
    x: crate::binder::expression::BoundExprV,
)
    requires
        b.context == seq![t],
        crate::binder::expression::spec_bind_expr(b, e) == Ok::<
            crate::binder::expression::BoundExprV,
            BindErrorV,
        >(x),
    ensures
        crate::optimizer::input_ref_rewriter::expr_resolvable(
            crate::optimizer::input_ref_rewriter::scan_bindings(t.columns),
            x,
        ),
        x.return_type() is Some,
    decreases e, 1int,
{
    let bindings = crate::optimizer::input_ref_rewriter::scan_bindings(t.columns);
    match e {
        crate::ast::ExprV::Identifier(s) => {
            lemma_singleton_resolve(t, s);
            lemma_lookup_column_member(t, s);
            lemma_column_ref_in_scan_bindings(t, t.lookup_column(s)->0);
        },
        crate::ast::ExprV::CompoundIdentifier(parts) => {
            if parts.len() == 1 {
                lemma_singleton_resolve(t, parts[0]);
                lemma_lookup_column_member(t, parts[0]);
                lemma_column_ref_in_scan_bindings(t, t.lookup_column(parts[0])->0);
            } else if parts.len() == 2 || parts.len() == 3 {
                let cname = parts[parts.len() - 1];
                lemma_singleton_lookup(t, parts[parts.len() - 2]);
                lemma_lookup_column_member(t, cname);
                lemma_column_ref_in_scan_bindings(t, t.lookup_column(cname)->0);
            }
        },
        crate::ast::ExprV::BinaryOp { left, op, right } => {
            let bl = crate::binder::expression::spec_bind_expr(b, *left)->Ok_0;
            let br = crate::binder::expression::spec_bind_expr(b, *right)->Ok_0;
            lemma_bound_expr_resolvable(b, t, *left, bl);
            lemma_bound_expr_resolvable(b, t, *right, br);
        },
        crate::ast::ExprV::Value(_) => {},
        crate::ast::ExprV::Function { name, args } => {
            let bargs = crate::binder::expression::spec_bind_args(b, args)->Ok_0;
            lemma_bound_args_resolvable(b, t, args, bargs);
        },
        crate::ast::ExprV::Unsupported(_) => {},
    }
}

/// Bound aggregate arguments resolve against the scan bindings, elementwise.
proof fn lemma_bound_args_resolvable(
    b: BinderV,
    t: crate::catalog::TableCatalogV,
    args: Seq<crate::ast::ExprV>,
    bargs: Seq<crate::binder::expression::BoundExprV>,
)
    requires
        b.context == seq![t],
        crate::binder::expression::spec_bind_args(b, args) == Ok::<
            Seq<crate::binder::expression::BoundExprV>,
            BindErrorV,
        >(bargs),
    ensures
        crate::optimizer::input_ref_rewriter::exprs_resolvable(
            crate::optimizer::input_ref_rewriter::scan_bindings(t.columns),
            bargs,
        ),
    decreases args, 0int,
{
    let bindings = crate::optimizer::input_ref_rewriter::scan_bindings(t.columns);
    if args.len() == 0 {
        assert(bargs =~= Seq::<crate::binder::expression::BoundExprV>::empty());
    } else {
        let x0 = crate::binder::expression::spec_bind_expr(b, args[0])->Ok_0;
        let rest = crate::binder::expression::spec_bind_args(b, args.drop_first())->Ok_0;
        lemma_bound_expr_resolvable(b, t, args[0], x0);
        lemma_bound_args_resolvable(b, t, args.drop_first(), rest);
        assert(bargs == seq![x0] + rest);
        assert(bargs[0] == x0);
        assert(bargs.drop_first() =~= rest);
    }
}

/// A bound projection list resolves against the scan bindings, elementwise.
proof fn lemma_bound_items_resolvable(
    b: BinderV,
    t: crate::catalog::TableCatalogV,
    items: Seq<crate::ast::SelectItemV>,
    list: Seq<crate::binder::expression::BoundExprV>,
)
    requires
        b.context == seq![t],
        crate::binder::statement::spec_bind_select_items(b, items) == Ok::<
            Seq<crate::binder::expression::BoundExprV>,
            BindErrorV,
        >(list),
    ensures
        crate::optimizer::input_ref_rewriter::exprs_resolvable(
            crate::optimizer::input_ref_rewriter::scan_bindings(t.columns),
            list,
        ),
    decreases items,
{
    if items.len() == 0 {
        assert(list =~= Seq::<crate::binder::expression::BoundExprV>::empty());
    } else {
        let x0 = crate::binder::statement::spec_bind_select_item(b, items[0])->Ok_0;
        let rest = crate::binder::statement::spec_bind_select_items(b, items.drop_first())->Ok_0;
        match items[0] {
            crate::ast::SelectItemV::UnnamedExpr(e) => {
                lemma_bound_expr_resolvable(b, t, e, x0);
            },
            _ => {},
        }
        lemma_bound_items_resolvable(b, t, items.drop_first(), rest);
        assert(list == seq![x0] + rest);
        assert(list[0] == x0);
        assert(list.drop_first() =~= rest);
    }
}

/// Every plan built from a statement that bound against an empty scope is
/// resolvable, stays logical through reference resolution, and lowers to an
/// executable physical plan: the internal-error stages of `spec_run` can
/// never fire on a bound statement's plan.
pub proof fn lemma_bound_plans_run(b0: BinderV, stmt: StatementV, bs: crate::binder::statement::BoundStatementV, plan: crate::optimizer::plan_node::PlanNodeV)
    requires
        b0.context.len() == 0,
        crate::binder::spec_bind(b0, stmt).0 == Ok::<
            crate::binder::statement::BoundStatementV,
            BindErrorV,
        >(bs),
        spec_plan(bs) == Ok::<crate::optimizer::plan_node::PlanNodeV, LogicalPlanError>(plan),
    ensures
        plan_resolvable(plan, Seq::empty()),
        plan_is_logical(spec_rewrite_plan(plan, Seq::empty())),
        executable(spec_lower(spec_rewrite_plan(plan, Seq::empty()))),
{
    let bsel = bs->Select_0;
    let t = bsel.from_table->0;
    let sv = stmt->Query_0->Select_0;
    let empty = Seq::<crate::binder::expression::BoundExprV>::empty();
    let b2 = BinderV { catalog: b0.catalog, context: b0.context.push(t) };
    assert(b2.context =~= seq![t]);

    // Invert the binding: the projection list and the predicate were bound
    // under the single-table scope `[t]`.
    assert(crate::binder::statement::spec_bind_select_items(b2, sv.projection) == Ok::<
        Seq<crate::binder::expression::BoundExprV>,
        BindErrorV,
    >(bsel.select_list));
    lemma_bound_items_resolvable(b2, t, sv.projection, bsel.select_list);
    if bsel.where_clause is Some {
        let w = bsel.where_clause->0;
        assert(crate::binder::expression::spec_bind_expr(b2, sv.selection->0) == Ok::<
            crate::binder::expression::BoundExprV,
            BindErrorV,
        >(w));
        lemma_bound_expr_resolvable(b2, t, sv.selection->0, w);
    }

    // Walk the plan the planner built: an optional projection over an
    // optional filter over the scan of `t`.
    let scan = crate::optimizer::plan_node::PlanNodeV::LogicalTableScan(
        crate::optimizer::plan_node::LogicalTableScanV { table_id: t.id, columns: t.columns },
    );
    let bindings = crate::optimizer::input_ref_rewriter::scan_bindings(t.columns);
    assert(crate::optimizer::input_ref_rewriter::bindings_after(scan, empty) == bindings);
    assert(plan_resolvable(scan, empty));
    assert(spec_rewrite_plan(scan, empty) == scan);
    assert(plan_is_logical(scan));
    assert(executable(spec_lower(scan)));

    let filtered = if bsel.where_clause is Some {
        crate::optimizer::plan_node::PlanNodeV::LogicalFilter(
            crate::optimizer::plan_node::LogicalFilterV {
                expr: bsel.where_clause->0,
                input: Box::new(scan),
            },
        )
    } else {
        scan
    };
    assert(crate::optimizer::input_ref_rewriter::bindings_after(filtered, empty) == bindings);
    assert(plan_resolvable(filtered, empty));
    let rw_filtered = spec_rewrite_plan(filtered, empty);
    assert(plan_is_logical(rw_filtered));
    assert(executable(spec_lower(rw_filtered)));

    if bsel.select_list.len() > 0 {
        assert(plan == crate::optimizer::plan_node::PlanNodeV::LogicalProject(
            crate::optimizer::plan_node::LogicalProjectV {
                exprs: bsel.select_list,
                input: Box::new(filtered),
            },
        ));
        assert(plan_resolvable(plan, empty));
        let rw = spec_rewrite_plan(plan, empty);
        assert(rw == crate::optimizer::plan_node::PlanNodeV::LogicalProject(
            crate::optimizer::plan_node::LogicalProjectV {
                exprs: crate::optimizer::input_ref_rewriter::spec_rewrite_exprs(
                    bindings,
                    bsel.select_list,
                ),
                input: Box::new(rw_filtered),
            },
        ));
        assert(plan_is_logical(rw));
        assert(executable(spec_lower(rw)));
    } else {
        assert(plan == filtered);
    }
}

impl Database {
    /// A database over a fresh in-memory store.
    pub fn new_in_memory() -> (r: Self)
        ensures
            r.storage matches StorageImpl::InMemoryStorage(st) && st@.tables.len() == 0,
    {
        Database { storage: StorageImpl::InMemoryStorage(InMemoryStorage::new()) }
    }

    /// Load a table into the store.
    pub fn create_table(&mut self, catalog: TableCatalog, batches: Vec<Batch>)
        ensures
            final(self).storage matches StorageImpl::InMemoryStorage(st) && (old(
                self,
            ).storage matches StorageImpl::InMemoryStorage(st0) && st@.tables == st0@.tables.push(
                crate::storage::InMemoryTableV {
                    catalog: catalog@,
                    batches: batches@.map_values(|b: Batch| b@),
                },
            )),
    {
        let StorageImpl::InMemoryStorage(st) = &mut self.storage;
        st.create_table(catalog, batches);
    }

    /// Run one statement end to end; see `spec_run` for the exact result.
    pub fn run(&self, stmt: &Statement) -> (r: Result<Vec<Batch>, DatabaseError>)
        ensures
            match (r, &self.storage) {
                (Ok(v), StorageImpl::InMemoryStorage(st)) => spec_run(st@, stmt@) == Ok::<
                    Seq<BatchV>,
                    DatabaseErrorV,
                >(v@.map_values(|b: Batch| b@)),
                (Err(e), StorageImpl::InMemoryStorage(st)) => spec_run(st@, stmt@) == Err::<
                    Seq<BatchV>,
                    DatabaseErrorV,
                >(e@),
            },
    {
        let StorageImpl::InMemoryStorage(storage) = &self.storage;
        let ghost stv = storage@;

        let catalog = storage.get_catalog();
        proof {
            assert(catalog@ =~= spec_catalog_of(stv));
        }
        let mut binder = Binder::new(catalog);
        proof {
            assert(binder@ =~= (BinderV { catalog: spec_catalog_of(stv), context: Seq::empty() }));
        }
        let bound = match binder.bind(stmt) {
            Ok(b) => b,
            Err(e) => {
                return Err(DatabaseError::Bind(e));
            },
        };

        let planner = Planner {};
        let logical_plan = match planner.plan(bound) {
            Ok(p) => p,
            Err(e) => {
                return Err(DatabaseError::Plan(e));
            },
        };

        let no_bindings: Vec<crate::binder::expression::BoundExpr> = Vec::new();
        proof {
            assert(bound_exprs_view(no_bindings@) =~= Seq::<BoundExprV>::empty());
        }
        if !check_plan_resolvable(&logical_plan, &no_bindings) {
            return Err(
                DatabaseError::InternalError(String::from_str("unresolved reference in plan")),
            );
        }
        let mut input_ref_rewriter = InputRefRewriter::default();
        proof {
            assert(input_ref_rewriter@ =~= Seq::<BoundExprV>::empty());
        }
        let resolved_plan = input_ref_rewriter.rewrite(&logical_plan);

        if !check_plan_is_logical(&resolved_plan) {
            return Err(
                DatabaseError::InternalError(
                    String::from_str("plan left the logical stage early"),
                ),
            );
        }
        let mut physical_rewriter = PhysicalRewriter {};
        let physical_plan = physical_rewriter.rewrite(&resolved_plan);

        if !check_executable(&physical_plan) {
            return Err(
                DatabaseError::InternalError(String::from_str("physical plan has no operator")),
            );
        }
        let mut builder = ExecutorBuilder::new(
            StorageImpl::InMemoryStorage(storage.clone_storage()),
        );
        let executor = match builder.build(&physical_plan) {
            Ok(e) => e,
            Err(e) => {
                return Err(DatabaseError::Execute(e));
            },
        };
        match try_collect(executor) {
            Ok(out) => Ok(out),
            Err(e) => Err(DatabaseError::Execute(e)),
        }
    }
}

} // verus!
