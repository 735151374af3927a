//! The filter operator: evaluates its predicate into a boolean selection
//! mask and keeps the rows where the mask is true and not NULL, in their
//! original order.

use vstd::prelude::*;

use crate::binder::expression::{BoundExpr, BoundExprV};
use crate::executor::batch::{strings_view, Batch, BatchV, Column, ColumnV};
use crate::executor::evaluator::spec_eval;
use crate::executor::ExecutorError;

verus! {

/// The cells of `s` kept by the mask: row `i` stays exactly when `mask[i]`
/// is true and not NULL.
pub open spec fn filter_seq<T>(s: Seq<T>, mask: Seq<Option<bool>>) -> Seq<T>
    decreases s.len(),
{
    if s.len() == 0 || mask.len() == 0 {
        Seq::empty()
    } else {
        (if mask[0] == Some(true) {
            seq![s[0]]
        } else {
            Seq::empty()
        }) + filter_seq(s.drop_first(), mask.drop_first())
    }
}

/// How many of the first `n` mask cells select their row.
pub open spec fn count_kept(mask: Seq<Option<bool>>, n: nat) -> nat
    decreases n,
{
    if n == 0 {
        0
    } else if n <= mask.len() && mask[n - 1] == Some(true) {
        count_kept(mask, (n - 1) as nat) + 1
    } else {
        count_kept(mask, (n - 1) as nat)
    }
}

/// One column filtered by the mask.
pub open spec fn filter_column(c: ColumnV, mask: Seq<Option<bool>>) -> ColumnV {
    match c {
        ColumnV::Boolean(v) => ColumnV::Boolean(filter_seq(v, mask)),
        ColumnV::Int32(v) => ColumnV::Int32(filter_seq(v, mask)),
        ColumnV::Int64(v) => ColumnV::Int64(filter_seq(v, mask)),
        ColumnV::Utf8(v) => ColumnV::Utf8(filter_seq(v, mask)),
        ColumnV::Null(n) => ColumnV::Null(count_kept(mask, n)),
    }
}

/// What filtering a batch by a predicate yields: the predicate must
/// evaluate to a boolean column with one cell per row; the batch keeps its
/// fields and drops the unselected rows of every column.
pub open spec fn spec_filter_batch(pred: BoundExprV, batch: BatchV) -> Result<
    BatchV,
    ExecutorError,
> {
    match spec_eval(pred, batch) {
        Err(e) => Err(e),
        Ok(col) => match col {
            ColumnV::Boolean(mask) => {
                if mask.len() == batch.num_rows() {
                    Ok(
                        BatchV {
                            fields: batch.fields,
                            columns: Seq::new(
                                batch.columns.len(),
                                |i: int| filter_column(batch.columns[i], mask),
                            ),
                        },
                    )
                } else {
                    Err(ExecutorError::TypeMismatch)
                }
            },
            _ => Err(ExecutorError::PredicateNotBoolean),
        },
    }
}

/// The suffix of `filter_seq` left after the first `i` rows were decided;
/// a mask shorter than the data is exhausted and selects nothing further.
pub open spec fn filter_rest<T>(s: Seq<T>, mask: Seq<Option<bool>>, i: int) -> Seq<T> {
    filter_seq(
        s.skip(i),
        mask.skip(
            if i <= mask.len() {
                i
            } else {
                mask.len() as int
            },
        ),
    )
}

/// Peeling one row off the front of a filtered sequence.
proof fn lemma_filter_step<T>(s: Seq<T>, mask: Seq<Option<bool>>, i: int)
    requires
        0 <= i < s.len(),
    ensures
        filter_rest(s, mask, i) == (if i < mask.len() && mask[i] == Some(true) {
            seq![s[i]]
        } else {
            Seq::<T>::empty()
        }) + filter_rest(s, mask, i + 1),
{
    assert(s.skip(i).len() > 0);
    assert(s.skip(i)[0] == s[i]);
    assert(s.skip(i).drop_first() =~= s.skip(i + 1));
    if i < mask.len() {
        assert(mask.skip(i)[0] == mask[i]);
        assert(mask.skip(i).drop_first() =~= mask.skip(i + 1));
    } else {
        assert(mask.skip(mask.len() as int).len() == 0);
        assert(filter_rest(s, mask, i) =~= Seq::<T>::empty());
        assert(filter_rest(s, mask, i + 1) =~= Seq::<T>::empty());
        assert(Seq::<T>::empty() + filter_rest(s, mask, i + 1) =~= Seq::<T>::empty());
    }
}

/// Filter a vector of copyable cells by the mask.
fn filter_cells<T: Copy>(v: &Vec<T>, mask: &Vec<Option<bool>>) -> (r: Vec<T>)
    ensures
        r@ == filter_seq(v@, mask@),
{
    let n = v.len();
    let mut out: Vec<T> = Vec::new();
    proof {
        assert(v@.skip(0) =~= v@);
        assert(mask@.skip(0) =~= mask@);
        assert(out@ + filter_rest(v@, mask@, 0) =~= filter_rest(v@, mask@, 0));
    }
    let mut i: usize = 0;
    #[verifier::loop_isolation(false)]
    while i < n
        invariant
            i <= n,
            filter_seq(v@, mask@) == out@ + filter_rest(v@, mask@, i as int),
        decreases n - i,
    {
        proof {
            lemma_filter_step(v@, mask@, i as int);
        }
        let keep = if i < mask.len() {
            match mask[i] {
                Some(b) => b,
                None => false,
            }
        } else {
            false
        };
        let ghost pre = out@;
        if keep {
            out.push(v[i]);
            proof {
                assert(pre + (seq![v@[i as int]] + filter_rest(v@, mask@, i + 1)) =~= out@
                    + filter_rest(v@, mask@, i + 1));
            }
        } else {
            proof {
                assert(pre + (Seq::<T>::empty() + filter_rest(v@, mask@, i + 1)) =~= out@
                    + filter_rest(v@, mask@, i + 1));
            }
        }
        i += 1;
    }
    proof {
        assert(v@.skip(n as int) =~= Seq::<T>::empty());
        assert(out@ + Seq::<T>::empty() =~= out@);
    }
    out
}

/// Filter a vector of string cells by the mask.
fn filter_string_cells(v: &Vec<Option<String>>, mask: &Vec<Option<bool>>) -> (r: Vec<
    Option<String>,
>)
    ensures
        strings_view(r@) == filter_seq(strings_view(v@), mask@),
{
    let ghost sv = strings_view(v@);
    let n = v.len();
    let mut out: Vec<Option<String>> = Vec::new();
    proof {
        assert(sv.skip(0) =~= sv);
        assert(mask@.skip(0) =~= mask@);
        assert(strings_view(out@) =~= Seq::<Option<Seq<char>>>::empty());
        assert(strings_view(out@) + filter_rest(sv, mask@, 0) =~= filter_rest(sv, mask@, 0));
    }
    let mut i: usize = 0;
    #[verifier::loop_isolation(false)]
    while i < n
        invariant
            i <= n,
            n == v@.len(),
            filter_seq(sv, mask@) == strings_view(out@) + filter_rest(sv, mask@, i as int),
        decreases n - i,
    {
        proof {
            lemma_filter_step(sv, mask@, i as int);
            assert(sv[i as int] == (match v@[i as int] {
                Some(s) => Some(s@),
                None => None,
            }));
        }
        let keep = if i < mask.len() {
            match mask[i] {
                Some(b) => b,
                None => false,
            }
        } else {
            false
        };
        let ghost pre = strings_view(out@);
        if keep {
            let cell = match &v[i] {
                Some(s) => Some(s.clone()),
                None => None,
            };
            out.push(cell);
            proof {
                assert(strings_view(out@) =~= pre.push(sv[i as int]));
                assert(pre + (seq![sv[i as int]] + filter_rest(sv, mask@, i + 1)) =~= strings_view(
                    out@,
                ) + filter_rest(sv, mask@, i + 1));
            }
        } else {
            proof {
                assert(pre + (Seq::<Option<Seq<char>>>::empty() + filter_rest(sv, mask@, i + 1))
                    =~= strings_view(out@) + filter_rest(sv, mask@, i + 1));
            }
        }
        i += 1;
    }
    proof {
        assert(sv.skip(n as int) =~= Seq::<Option<Seq<char>>>::empty());
        assert(strings_view(out@) + Seq::<Option<Seq<char>>>::empty() =~= strings_view(out@));
    }
    out
}

/// How many of the first `n` mask cells select their row.
fn count_kept_exec(mask: &Vec<Option<bool>>, n: usize) -> (r: usize)
    requires
        n <= usize::MAX,
    ensures
        r == count_kept(mask@, n as nat),
        r <= n,
{
    let mut count: usize = 0;
    let mut i: usize = 0;
    while i < n
        invariant
            i <= n,
            count == count_kept(mask@, i as nat),
            count <= i,
        decreases n - i,
    {
        let keep = if i < mask.len() {
            match mask[i] {
                Some(b) => b,
                None => false,
            }
        } else {
            false
        };
        if keep {
            count += 1;
        }
        i += 1;
    }
    count
}

/// Filter one column by the mask.
fn filter_column_exec(c: &Column, mask: &Vec<Option<bool>>) -> (r: Column)
    ensures
        r@ == filter_column(c@, mask@),
{
    match c {
        Column::Boolean(v) => Column::Boolean(filter_cells(v, mask)),
        Column::Int32(v) => Column::Int32(filter_cells(v, mask)),
        Column::Int64(v) => Column::Int64(filter_cells(v, mask)),
        Column::Utf8(v) => Column::Utf8(filter_string_cells(v, mask)),
        Column::Null(n) => Column::Null(count_kept_exec(mask, *n)),
    }
}

/// A filter over an upstream operator: each pulled batch is filtered by
/// the predicate before it is passed on.
pub struct FilterExecutor {
    pub expr: BoundExpr,
    pub child: Box<crate::executor::ExecutorImpl>,
}

/// Filter a batch by a predicate; see `spec_filter_batch` for the exact
/// behaviour.
pub fn filter_batch(pred: &BoundExpr, batch: &Batch) -> (r: Result<Batch, ExecutorError>)
    ensures
        match r {
            Ok(b) => spec_filter_batch(pred@, batch@) == Ok::<BatchV, ExecutorError>(b@),
            Err(e) => spec_filter_batch(pred@, batch@) == Err::<BatchV, ExecutorError>(e),
        },
{
    let mask_col = match pred.eval_column(batch) {
        Ok(c) => c,
        Err(e) => {
            return Err(e);
        },
    };
    let mask = match mask_col {
        Column::Boolean(m) => m,
        _ => {
            return Err(ExecutorError::PredicateNotBoolean);
        },
    };
    if mask.len() != batch.num_rows() {
        return Err(ExecutorError::TypeMismatch);
    }
    let ghost goal = spec_filter_batch(pred@, batch@)->Ok_0;
    let mut columns: Vec<Column> = Vec::new();
    let n = batch.columns.len();
    let mut i: usize = 0;
    #[verifier::loop_isolation(false)]
    while i < n
        invariant
            i <= n,
            columns@.len() == i,
            forall|j: int| 0 <= j < i ==> columns@[j]@ == goal.columns[j],
        decreases n - i,
    {
        proof {
            assert(batch@.columns[i as int] == batch.columns@[i as int]@);
        }
        columns.push(filter_column_exec(&batch.columns[i], &mask));
        i += 1;
    }
    let mut fields: Vec<crate::catalog::ColumnDesc> = Vec::new();
    let m = batch.fields.len();
    let mut k: usize = 0;
    #[verifier::loop_isolation(false)]
    while k < m
        invariant
            k <= m,
            fields@.len() == k,
            forall|j: int| 0 <= j < k ==> fields@[j]@ == batch@.fields[j],
        decreases m - k,
    {
        fields.push(batch.fields[k].clone());
        k += 1;
    }
    let r = Batch { fields, columns };
    proof {
        assert(r@ =~= goal);
    }
    Ok(r)
}

} // verus!
