//! The streaming execution engine: a physical plan becomes a tree of
//! pull-based operators over columnar batches.

pub mod array_compute;
pub mod batch;
pub mod evaluator;
pub mod filter;
pub mod project;
pub mod table_scan;

use vstd::prelude::*;

use crate::binder::expression::{bound_exprs_view, BoundExprV};
use crate::executor::batch::{Batch, BatchV};
use crate::executor::filter::{filter_batch, spec_filter_batch, FilterExecutor};
use crate::executor::project::{project_batch, spec_project_batch, ProjectExecutor};
use crate::executor::table_scan::TableScanExecutor;
use crate::optimizer::plan_node::{PhysicalFilter, PhysicalProject, PhysicalTableScan, PlanNode,
    PlanNodeV};
use crate::storage::{StorageError, StorageErrorV, StorageImpl};

verus! {

/// Why execution failed. Storage failures and data errors both abort the
/// stream at the first failing batch.
#[derive(Debug, PartialEq)]
pub enum ExecutorError {
    /// The storage layer failed.
    Storage(StorageError),
    /// Operand columns whose types or lengths disagree.
    TypeMismatch,
    /// An operator/type combination the engine does not evaluate.
    UnsupportedOperator,
    /// An expression kind the engine does not evaluate.
    UnsupportedExpression,
    /// Elementwise arithmetic left the value range.
    ArithmeticOverflow,
    /// A non-NULL divisor was zero.
    DivisionByZero,
    /// A cast combination the engine does not perform.
    InvalidCast,
    /// A positional reference past the batch's width.
    ColumnIndexOutOfRange,
    /// A column reference that was never resolved to a position.
    UnresolvedColumnRef,
    /// A filter predicate that did not evaluate to a boolean column.
    PredicateNotBoolean,
}

/// One operator of the pipeline, as a batch-to-batch transform; the leaf
/// scan is not listed, it is the source the transforms are applied over.
pub enum PipeOp {
    Filter(BoundExprV),
    Project(Seq<BoundExprV>),
}

/// An operator tree: the executable form of a physical plan. Each operator
/// pulls batches from its child only when it is itself pulled.
pub enum ExecutorImpl {
    TableScan(TableScanExecutor),
    Filter(FilterExecutor),
    Project(ProjectExecutor),
}

impl ExecutorImpl {
    /// Every scan cursor in the tree is in bounds.
    pub open spec fn wf(self) -> bool
        decreases self,
    {
        match self {
            ExecutorImpl::TableScan(t) => t.tx.wf(),
            ExecutorImpl::Filter(f) => (*f.child).wf(),
            ExecutorImpl::Project(p) => (*p.child).wf(),
        }
    }

    /// The source batches the pipeline has not consumed yet.
    pub open spec fn pending(self) -> Seq<BatchV>
        decreases self,
    {
        match self {
            ExecutorImpl::TableScan(t) => t.tx.pending(),
            ExecutorImpl::Filter(f) => (*f.child).pending(),
            ExecutorImpl::Project(p) => (*p.child).pending(),
        }
    }

    /// The transforms above the scan, bottom-most first.
    pub open spec fn ops(self) -> Seq<PipeOp>
        decreases self,
    {
        match self {
            ExecutorImpl::TableScan(_) => Seq::empty(),
            ExecutorImpl::Filter(f) => (*f.child).ops().push(PipeOp::Filter(f.expr@)),
            ExecutorImpl::Project(p) => (*p.child).ops().push(
                PipeOp::Project(bound_exprs_view(p.exprs@)),
            ),
        }
    }
}

/// One source batch pushed through the transforms, bottom-most first; the
/// first failing operator aborts.
pub open spec fn apply_ops(ops: Seq<PipeOp>, b: BatchV) -> Result<BatchV, ExecutorError>
    decreases ops.len(),
{
    if ops.len() == 0 {
        Ok(b)
    } else {
        match apply_ops(ops.drop_last(), b) {
            Err(e) => Err(e),
            Ok(x) => match ops.last() {
                PipeOp::Filter(pred) => spec_filter_batch(pred, x),
                PipeOp::Project(exprs) => spec_project_batch(exprs, x),
            },
        }
    }
}

/// Every source batch pushed through the transforms, in order; the first
/// failing batch aborts the stream.
pub open spec fn spec_collect(ops: Seq<PipeOp>, batches: Seq<BatchV>) -> Result<
    Seq<BatchV>,
    ExecutorError,
>
    decreases batches.len(),
{
    if batches.len() == 0 {
        Ok(Seq::empty())
    } else {
        match apply_ops(ops, batches[0]) {
            Err(e) => Err(e),
            Ok(b) => match spec_collect(ops, batches.drop_first()) {
                Err(e) => Err(e),
                Ok(rest) => Ok(seq![b] + rest),
            },
        }
    }
}

impl ExecutorImpl {
    /// Pull the next result batch: the next source batch, pushed through
    /// every operator of the pipeline; `None` exactly at exhaustion.
    pub fn next_batch(&mut self) -> (r: Result<Option<Batch>, ExecutorError>)
        requires
            old(self).wf(),
        ensures
            final(self).wf(),
            final(self).ops() == old(self).ops(),
            if old(self).pending().len() == 0 {
                &&& r == Ok::<Option<Batch>, ExecutorError>(None::<Batch>)
                &&& final(self).pending() == old(self).pending()
            } else {
                &&& final(self).pending() == old(self).pending().drop_first()
                &&& match r {
                    Ok(Some(b)) => apply_ops(old(self).ops(), old(self).pending()[0]) == Ok::<
                        BatchV,
                        ExecutorError,
                    >(b@),
                    Ok(None) => false,
                    Err(e) => apply_ops(old(self).ops(), old(self).pending()[0]) == Err::<
                        BatchV,
                        ExecutorError,
                    >(e),
                }
            },
        decreases *old(self),
    {
        match self {
            ExecutorImpl::TableScan(t) => {
                match t.tx.next_batch() {
                    Ok(Some(b)) => Ok(Some(b)),
                    Ok(None) => Ok(None),
                    Err(e) => Err(ExecutorError::Storage(e)),
                }
            },
            ExecutorImpl::Filter(f) => {
                let ghost child_ops = (*f.child).ops();
                proof {
                    assert(old(self).ops().drop_last() =~= child_ops);
                }
                let pulled = match (*f.child).next_batch() {
                    Ok(Some(b)) => b,
                    Ok(None) => {
                        return Ok(None);
                    },
                    Err(e) => {
                        return Err(e);
                    },
                };
                match filter_batch(&f.expr, &pulled) {
                    Ok(b) => Ok(Some(b)),
                    Err(e) => Err(e),
                }
            },
            ExecutorImpl::Project(p) => {
                let ghost child_ops = (*p.child).ops();
                proof {
                    assert(old(self).ops().drop_last() =~= child_ops);
                }
                let pulled = match (*p.child).next_batch() {
                    Ok(Some(b)) => b,
                    Ok(None) => {
                        return Ok(None);
                    },
                    Err(e) => {
                        return Err(e);
                    },
                };
                match project_batch(&p.exprs, &pulled) {
                    Ok(b) => Ok(Some(b)),
                    Err(e) => Err(e),
                }
            },
        }
    }
}

/// Drive a pipeline to completion, collecting every result batch in order;
/// the stream aborts at the first error.
pub fn try_collect(executor: ExecutorImpl) -> (r: Result<Vec<Batch>, ExecutorError>)
    requires
        executor.wf(),
    ensures
        match r {
            Ok(v) => spec_collect(executor.ops(), executor.pending()) == Ok::<
                Seq<BatchV>,
                ExecutorError,
            >(v@.map_values(|b: Batch| b@)),
            Err(e) => spec_collect(executor.ops(), executor.pending()) == Err::<
                Seq<BatchV>,
                ExecutorError,
            >(e),
        },
{
    let ghost ops0 = executor.ops();
    let ghost pending0 = executor.pending();
    let mut exec = executor;
    let mut output: Vec<Batch> = Vec::new();
    proof {
        assert(output@.map_values(|b: Batch| b@) =~= Seq::<BatchV>::empty());
        if let Ok(all) = spec_collect(ops0, pending0) {
            assert(Seq::<BatchV>::empty() + all =~= all);
        }
    }
    #[verifier::loop_isolation(false)]
    loop
        invariant
            exec.wf(),
            exec.ops() == ops0,
            spec_collect(ops0, pending0) == match spec_collect(ops0, exec.pending()) {
                Ok(rest) => Ok::<Seq<BatchV>, ExecutorError>(
                    output@.map_values(|b: Batch| b@) + rest,
                ),
                Err(e) => Err::<Seq<BatchV>, ExecutorError>(e),
            },
        decreases exec.pending().len(),
    {
        let ghost pend = exec.pending();
        match exec.next_batch() {
            Ok(Some(b)) => {
                let ghost pre = output@.map_values(|x: Batch| x@);
                proof {
                    assert(pend.drop_first().len() < pend.len());
                }
                output.push(b);
                proof {
                    assert(output@.map_values(|x: Batch| x@) =~= pre.push(b@));
                    assert forall|rest: Seq<BatchV>| true implies pre + (seq![b@] + rest)
                        =~= output@.map_values(|x: Batch| x@) + rest by {}
                }
            },
            Ok(None) => {
                proof {
                    assert(spec_collect(ops0, exec.pending()) == Ok::<Seq<BatchV>, ExecutorError>(
                        Seq::<BatchV>::empty(),
                    ));
                    assert(output@.map_values(|x: Batch| x@) + Seq::<BatchV>::empty()
                        =~= output@.map_values(|x: Batch| x@));
                }
                return Ok(output);
            },
            Err(e) => {
                return Err(e);
            },
        }
    }
}

/// Is the plan a tree the executor can run: a physical scan, under any
/// stack of physical filters and projections?
pub open spec fn executable(p: PlanNodeV) -> bool
    decreases p,
{
    match p {
        PlanNodeV::PhysicalTableScan(_) => true,
        PlanNodeV::PhysicalProject(pr) => executable(*pr.input),
        PlanNodeV::PhysicalFilter(f) => executable(*f.input),
        _ => false,
    }
}

/// Decide `executable` for a concrete plan.
pub fn check_executable(plan: &PlanNode) -> (r: bool)
    ensures
        r == executable(plan@),
    decreases plan,
{
    match plan {
        PlanNode::PhysicalTableScan(_) => true,
        PlanNode::PhysicalProject(p) => check_executable(&p.logical.input),
        PlanNode::PhysicalFilter(f) => check_executable(&f.logical.input),
        _ => false,
    }
}

/// The transforms an executable plan describes, bottom-most first.
pub open spec fn plan_ops(p: PlanNodeV) -> Seq<PipeOp>
    decreases p,
{
    match p {
        PlanNodeV::PhysicalProject(pr) => plan_ops(*pr.input).push(PipeOp::Project(pr.exprs)),
        PlanNodeV::PhysicalFilter(f) => plan_ops(*f.input).push(PipeOp::Filter(f.expr)),
        _ => Seq::empty(),
    }
}

/// The id of the table the executable plan's leaf scan reads.
pub open spec fn scan_table_id(p: PlanNodeV) -> Seq<char>
    decreases p,
{
    match p {
        PlanNodeV::PhysicalTableScan(s) => s.table_id,
        PlanNodeV::PhysicalProject(pr) => scan_table_id(*pr.input),
        PlanNodeV::PhysicalFilter(f) => scan_table_id(*f.input),
        _ => Seq::empty(),
    }
}

/// Builds the operator tree of a physical plan, visiting one node type at a
/// time; the table scan is wired to the chosen storage back end.
pub struct ExecutorBuilder {
    pub storage: StorageImpl,
}

impl ExecutorBuilder {
    /// A builder over the given storage back end.
    pub fn new(storage: StorageImpl) -> (r: Self)
        ensures
            r.storage == storage,
    {
        ExecutorBuilder { storage }
    }

    /// Build the operator tree of an executable physical plan. The one
    /// failure is a scan over a table the storage does not hold.
    pub fn build(&mut self, plan: &PlanNode) -> (r: Result<ExecutorImpl, ExecutorError>)
        requires
            executable(plan@),
        ensures
            final(self).storage == old(self).storage,
            match r {
                Ok(e) => {
                    &&& e.wf()
                    &&& e.ops() == plan_ops(plan@)
                    &&& match old(self).storage {
                        StorageImpl::InMemoryStorage(st) => st@.lookup(scan_table_id(plan@))
                            matches Some(t) && e.pending() == t.batches,
                    }
                },
                Err(er) => {
                    &&& match old(self).storage {
                        StorageImpl::InMemoryStorage(st) => st@.lookup(scan_table_id(plan@))
                            is None,
                    }
                    &&& er matches ExecutorError::Storage(s) && s@ == StorageErrorV::TableNotFound(
                        scan_table_id(plan@),
                    )
                },
            },
        decreases plan,
    {
        match plan {
            PlanNode::PhysicalTableScan(p) => self.visit_physical_table_scan(p),
            PlanNode::PhysicalProject(p) => self.visit_physical_project(p),
            PlanNode::PhysicalFilter(f) => self.visit_physical_filter(f),
            _ => {
                proof {
                    assert(false);
                }
                Err(ExecutorError::UnsupportedOperator)
            },
        }
    }

    /// Wire a physical scan to its stored table.
    pub fn visit_physical_table_scan(&mut self, plan: &PhysicalTableScan) -> (r: Result<
        ExecutorImpl,
        ExecutorError,
    >)
        ensures
            final(self).storage == old(self).storage,
            match r {
                Ok(e) => {
                    &&& e.wf()
                    &&& e.ops() == Seq::<PipeOp>::empty()
                    &&& match old(self).storage {
                        StorageImpl::InMemoryStorage(st) => st@.lookup(plan.logical@.table_id)
                            matches Some(t) && e.pending() == t.batches,
                    }
                },
                Err(er) => {
                    &&& match old(self).storage {
                        StorageImpl::InMemoryStorage(st) => st@.lookup(plan.logical@.table_id)
                            is None,
                    }
                    &&& er matches ExecutorError::Storage(s) && s@ == StorageErrorV::TableNotFound(
                        plan.logical@.table_id,
                    )
                },
            },
    {
        let StorageImpl::InMemoryStorage(storage) = &self.storage;
        let table = match storage.get_table(plan.logical.table_id.as_str()) {
            Ok(t) => t,
            Err(e) => {
                return Err(ExecutorError::Storage(e));
            },
        };
        let tx = match table.read() {
            Ok(tx) => tx,
            Err(e) => {
                return Err(ExecutorError::Storage(e));
            },
        };
        Ok(ExecutorImpl::TableScan(TableScanExecutor { tx }))
    }

    /// Build the child of a physical projection, then wrap it.
    pub fn visit_physical_project(&mut self, plan: &PhysicalProject) -> (r: Result<
        ExecutorImpl,
        ExecutorError,
    >)
        requires
            executable(*plan.logical@.input),
        ensures
            final(self).storage == old(self).storage,
            match r {
                Ok(e) => {
                    &&& e.wf()
                    &&& e.ops() == plan_ops(PlanNodeV::PhysicalProject(plan.logical@))
                    &&& match old(self).storage {
                        StorageImpl::InMemoryStorage(st) => st@.lookup(
                            scan_table_id(*plan.logical@.input),
                        ) matches Some(t) && e.pending() == t.batches,
                    }
                },
                Err(er) => {
                    &&& match old(self).storage {
                        StorageImpl::InMemoryStorage(st) => st@.lookup(
                            scan_table_id(*plan.logical@.input),
                        ) is None,
                    }
                    &&& er matches ExecutorError::Storage(s) && s@ == StorageErrorV::TableNotFound(
                        scan_table_id(*plan.logical@.input),
                    )
                },
            },
        decreases plan,
    {
        let child = match self.build(&plan.logical.input) {
            Ok(c) => c,
            Err(e) => {
                return Err(e);
            },
        };
        let e = ExecutorImpl::Project(
            ProjectExecutor {
                exprs: crate::binder::expression::clone_bound_exprs(&plan.logical.exprs),
                child: Box::new(child),
            },
        );
        Ok(e)
    }

    /// Build the child of a physical filter, then wrap it.
    pub fn visit_physical_filter(&mut self, plan: &PhysicalFilter) -> (r: Result<
        ExecutorImpl,
        ExecutorError,
    >)
        requires
            executable(*plan.logical@.input),
        ensures
            final(self).storage == old(self).storage,
            match r {
                Ok(e) => {
                    &&& e.wf()
                    &&& e.ops() == plan_ops(PlanNodeV::PhysicalFilter(plan.logical@))
                    &&& match old(self).storage {
                        StorageImpl::InMemoryStorage(st) => st@.lookup(
                            scan_table_id(*plan.logical@.input),
                        ) matches Some(t) && e.pending() == t.batches,
                    }
                },
                Err(er) => {
                    &&& match old(self).storage {
                        StorageImpl::InMemoryStorage(st) => st@.lookup(
                            scan_table_id(*plan.logical@.input),
                        ) is None,
                    }
                    &&& er matches ExecutorError::Storage(s) && s@ == StorageErrorV::TableNotFound(
                        scan_table_id(*plan.logical@.input),
                    )
                },
            },
        decreases plan,
    {
        let child = match self.build(&plan.logical.input) {
            Ok(c) => c,
            Err(e) => {
                return Err(e);
            },
        };
        let e = ExecutorImpl::Filter(
            FilterExecutor { expr: plan.logical.expr.clone(), child: Box::new(child) },
        );
        Ok(e)
    }
}

} // verus!
