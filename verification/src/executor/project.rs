//! The project operator: evaluates every projection expression into an
//! output column and emits a fresh batch over those columns, in expression
//! order.

use vstd::prelude::*;

use crate::binder::expression::{bound_exprs_view, lemma_bound_exprs_view, BoundExpr, BoundExprV};
use crate::catalog::{ColumnDesc, ColumnDescV};
use crate::executor::batch::{Batch, BatchV, Column, ColumnV};
use crate::executor::evaluator::{spec_eval, spec_eval_field};
use crate::executor::ExecutorError;

verus! {

/// The columns a projection list evaluates to, left to right; the first
/// failure aborts.
pub open spec fn spec_eval_all(exprs: Seq<BoundExprV>, batch: BatchV) -> Result<
    Seq<ColumnV>,
    ExecutorError,
>
    decreases exprs,
{
    if exprs.len() == 0 {
        Ok(Seq::empty())
    } else {
        match spec_eval(exprs[0], batch) {
            Err(e) => Err(e),
            Ok(c) => match spec_eval_all(exprs.drop_first(), batch) {
                Err(e) => Err(e),
                Ok(rest) => Ok(seq![c] + rest),
            },
        }
    }
}

/// The output fields a projection list carries over, left to right.
pub open spec fn spec_fields_all(exprs: Seq<BoundExprV>, batch: BatchV) -> Result<
    Seq<ColumnDescV>,
    ExecutorError,
>
    decreases exprs,
{
    if exprs.len() == 0 {
        Ok(Seq::empty())
    } else {
        match spec_eval_field(exprs[0], batch) {
            Err(e) => Err(e),
            Ok(f) => match spec_fields_all(exprs.drop_first(), batch) {
                Err(e) => Err(e),
                Ok(rest) => Ok(seq![f] + rest),
            },
        }
    }
}

/// What projecting a batch yields: every expression becomes one output
/// column, the output schema is read off the positional references, and the
/// batch is rebuilt in expression order.
pub open spec fn spec_project_batch(exprs: Seq<BoundExprV>, batch: BatchV) -> Result<
    BatchV,
    ExecutorError,
> {
    match spec_eval_all(exprs, batch) {
        Err(e) => Err(e),
        Ok(columns) => match spec_fields_all(exprs, batch) {
            Err(e) => Err(e),
            Ok(fields) => Ok(BatchV { fields, columns }),
        },
    }
}

/// Evaluating a projection list over a well-formed batch yields one column
/// per expression, each with one cell per input row.
proof fn lemma_eval_all_shape(exprs: Seq<BoundExprV>, batch: BatchV)
    requires
        batch.wf(),
        spec_eval_all(exprs, batch) is Ok,
    ensures
        spec_eval_all(exprs, batch)->Ok_0.len() == exprs.len(),
        forall|i: int|
            0 <= i < exprs.len() ==> #[trigger] spec_eval_all(exprs, batch)->Ok_0[i].len()
                == batch.num_rows(),
    decreases exprs,
{
    if exprs.len() > 0 {
        crate::executor::evaluator::lemma_eval_len(exprs[0], batch);
        lemma_eval_all_shape(exprs.drop_first(), batch);
        let cols = spec_eval_all(exprs, batch)->Ok_0;
        let rest = spec_eval_all(exprs.drop_first(), batch)->Ok_0;
        assert(cols == seq![spec_eval(exprs[0], batch)->Ok_0] + rest);
        assert forall|i: int| 0 <= i < exprs.len() implies #[trigger] cols[i].len()
            == batch.num_rows() by {
            if i > 0 {
                assert(cols[i] == rest[i - 1]);
            }
        }
    }
}

/// The fields of a projected batch count one per expression.
proof fn lemma_fields_all_len(exprs: Seq<BoundExprV>, batch: BatchV)
    requires
        spec_fields_all(exprs, batch) is Ok,
    ensures
        spec_fields_all(exprs, batch)->Ok_0.len() == exprs.len(),
    decreases exprs,
{
    if exprs.len() > 0 {
        lemma_fields_all_len(exprs.drop_first(), batch);
    }
}

/// A projected batch is well formed and keeps the input's row count: one
/// output column per expression, each as long as the input batch.
pub proof fn lemma_project_preserves_row_count(exprs: Seq<BoundExprV>, batch: BatchV, out: BatchV)
    requires
        batch.wf(),
        spec_project_batch(exprs, batch) == Ok::<BatchV, ExecutorError>(out),
    ensures
        out.wf(),
        out.columns.len() == exprs.len(),
        exprs.len() > 0 ==> out.num_rows() == batch.num_rows(),
{
    lemma_eval_all_shape(exprs, batch);
    lemma_fields_all_len(exprs, batch);
}

/// A projection over an upstream operator: each pulled batch is rebuilt
/// over the evaluated projection expressions.
pub struct ProjectExecutor {
    pub exprs: Vec<BoundExpr>,
    pub child: Box<crate::executor::ExecutorImpl>,
}

/// Project one batch through a projection list; see `spec_project_batch`
/// for the exact behaviour.
pub fn project_batch(exprs: &Vec<BoundExpr>, batch: &Batch) -> (r: Result<Batch, ExecutorError>)
    ensures
        match r {
            Ok(b) => spec_project_batch(bound_exprs_view(exprs@), batch@) == Ok::<
                BatchV,
                ExecutorError,
            >(b@),
            Err(e) => spec_project_batch(bound_exprs_view(exprs@), batch@) == Err::<
                BatchV,
                ExecutorError,
            >(e),
        },
{
    let ghost ev = bound_exprs_view(exprs@);
    proof {
        lemma_bound_exprs_view(exprs@);
        assert(ev.skip(0) =~= ev);
        if let Ok(all) = spec_eval_all(ev, batch@) {
            assert(Seq::<ColumnV>::empty() + all =~= all);
        }
    }
    let n = exprs.len();
    let mut columns: Vec<Column> = Vec::new();
    proof {
        assert(columns@.map_values(|c: Column| c@) =~= Seq::<ColumnV>::empty());
    }
    let mut i: usize = 0;
    #[verifier::loop_isolation(false)]
    while i < n
        invariant
            i <= n,
            columns@.len() == i,
            spec_eval_all(ev, batch@) == match spec_eval_all(ev.skip(i as int), batch@) {
                Ok(rest) => Ok::<Seq<ColumnV>, ExecutorError>(
                    columns@.map_values(|c: Column| c@) + rest,
                ),
                Err(e) => Err::<Seq<ColumnV>, ExecutorError>(e),
            },
        decreases n - i,
    {
        let ghost tail = ev.skip(i as int);
        proof {
            assert(tail[0] == ev[i as int]);
            assert(ev[i as int] == exprs@[i as int]@);
            assert(tail.drop_first() =~= ev.skip(i + 1));
        }
        match exprs[i].eval_column(batch) {
            Err(e) => {
                return Err(e);
            },
            Ok(c) => {
                let ghost pre = columns@.map_values(|c: Column| c@);
                columns.push(c);
                proof {
                    assert(columns@.map_values(|c: Column| c@) =~= pre.push(c@));
                    assert forall|rest: Seq<ColumnV>| true implies pre + (seq![c@] + rest)
                        =~= columns@.map_values(|c: Column| c@) + rest by {}
                }
            },
        }
        i += 1;
    }
    proof {
        assert(ev.skip(n as int) =~= Seq::<BoundExprV>::empty());
        assert(columns@.map_values(|c: Column| c@) + Seq::<ColumnV>::empty() =~= columns@.map_values(
            |c: Column| c@,
        ));
        if let Ok(all) = spec_fields_all(ev, batch@) {
            assert(Seq::<ColumnDescV>::empty() + all =~= all);
        }
    }
    let mut fields: Vec<ColumnDesc> = Vec::new();
    proof {
        assert(fields@.map_values(|f: ColumnDesc| f@) =~= Seq::<ColumnDescV>::empty());
    }
    let mut k: usize = 0;
    #[verifier::loop_isolation(false)]
    while k < n
        invariant
            k <= n,
            fields@.len() == k,
            spec_fields_all(ev, batch@) == match spec_fields_all(ev.skip(k as int), batch@) {
                Ok(rest) => Ok::<Seq<ColumnDescV>, ExecutorError>(
                    fields@.map_values(|f: ColumnDesc| f@) + rest,
                ),
                Err(e) => Err::<Seq<ColumnDescV>, ExecutorError>(e),
            },
        decreases n - k,
    {
        let ghost tail = ev.skip(k as int);
        proof {
            assert(tail[0] == ev[k as int]);
            assert(ev[k as int] == exprs@[k as int]@);
            assert(tail.drop_first() =~= ev.skip(k + 1));
        }
        match exprs[k].eval_field(batch) {
            Err(e) => {
                return Err(e);
            },
            Ok(f) => {
                let ghost pre = fields@.map_values(|f: ColumnDesc| f@);
                fields.push(f);
                proof {
                    assert(fields@.map_values(|f: ColumnDesc| f@) =~= pre.push(f@));
                    assert forall|rest: Seq<ColumnDescV>| true implies pre + (seq![f@] + rest)
                        =~= fields@.map_values(|f: ColumnDesc| f@) + rest by {}
                }
            },
        }
        k += 1;
    }
    proof {
        assert(fields@.map_values(|f: ColumnDesc| f@) + Seq::<ColumnDescV>::empty()
            =~= fields@.map_values(|f: ColumnDesc| f@));
    }
    let r = Batch { fields, columns };
    proof {
        assert(r@ =~= spec_project_batch(ev, batch@)->Ok_0);
    }
    Ok(r)
}

} // verus!
