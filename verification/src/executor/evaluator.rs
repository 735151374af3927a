//! Columnar expression evaluation: recursive and vectorized, one whole
//! column at a time.

use vstd::prelude::*;

use crate::binder::expression::{BoundExpr, BoundExprV};
use crate::catalog::{ColumnDesc, ColumnDescV};
use crate::executor::array_compute::{binary_op, spec_binary_op};
use crate::executor::batch::{build_scalar_value_array, spec_broadcast, Batch, BatchV, Column,
    ColumnV};
use crate::executor::ExecutorError;
use crate::types::DataType;

verus! {

/// What casting a column yields: a cast to the column's own type keeps it;
/// 32-bit cells widen losslessly to 64 bits; 64-bit cells narrow to 32 bits
/// with out-of-range values becoming NULL; anything else is unsupported.
pub open spec fn spec_cast(col: ColumnV, to: DataType) -> Result<ColumnV, ExecutorError> {
    if col.data_type() == to {
        Ok(col)
    } else {
        match (col, to) {
            (ColumnV::Int32(v), DataType::Int64) => Ok(
                ColumnV::Int64(
                    Seq::new(
                        v.len(),
                        |i: int|
                            match v[i] {
                                Some(x) => Some(x as i64),
                                None => None,
                            },
                    ),
                ),
            ),
            (ColumnV::Int64(v), DataType::Int32) => Ok(
                ColumnV::Int32(
                    Seq::new(
                        v.len(),
                        |i: int|
                            match v[i] {
                                Some(x) => if i32::MIN <= x <= i32::MAX {
                                    Some(x as i32)
                                } else {
                                    None
                                },
                                None => None,
                            },
                    ),
                ),
            ),
            _ => Err(ExecutorError::InvalidCast),
        }
    }
}

/// What evaluating `e` over a batch yields: a positional reference selects a
/// column, a constant broadcasts to the batch's row count, a binary operator
/// combines its operand columns elementwise; an unresolved column reference
/// cannot be evaluated.
pub open spec fn spec_eval(e: BoundExprV, batch: BatchV) -> Result<ColumnV, ExecutorError>
    decreases e,
{
    match e {
        BoundExprV::InputRef { index, .. } => {
            if index < batch.columns.len() {
                Ok(batch.columns[index as int])
            } else {
                Err(ExecutorError::ColumnIndexOutOfRange)
            }
        },
        BoundExprV::Constant(v) => Ok(spec_broadcast(v, batch.num_rows())),
        BoundExprV::ColumnRef(_) => Err(ExecutorError::UnresolvedColumnRef),
        BoundExprV::BinaryOp { op, left, right, .. } => match spec_eval(*left, batch) {
            Err(e) => Err(e),
            Ok(l) => match spec_eval(*right, batch) {
                Err(e) => Err(e),
                Ok(r) => spec_binary_op(op, l, r),
            },
        },
        BoundExprV::TypeCast { expr, cast_type } => match spec_eval(*expr, batch) {
            Err(e) => Err(e),
            Ok(c) => spec_cast(c, cast_type),
        },
        BoundExprV::AggFunc { .. } => Err(ExecutorError::UnsupportedExpression),
    }
}

/// The output field `e` contributes to a projected batch: only a positional
/// reference carries a field over.
pub open spec fn spec_eval_field(e: BoundExprV, batch: BatchV) -> Result<
    ColumnDescV,
    ExecutorError,
> {
    match e {
        BoundExprV::InputRef { index, .. } => {
            if index < batch.fields.len() {
                Ok(batch.fields[index as int])
            } else {
                Err(ExecutorError::ColumnIndexOutOfRange)
            }
        },
        _ => Err(ExecutorError::UnsupportedExpression),
    }
}

/// Cast a column to `to`; see `spec_cast` for the exact behaviour.
fn cast_column(col: Column, to: DataType) -> (r: Result<Column, ExecutorError>)
    ensures
        match r {
            Ok(c) => spec_cast(col@, to) == Ok::<ColumnV, ExecutorError>(c@),
            Err(e) => spec_cast(col@, to) == Err::<ColumnV, ExecutorError>(e),
        },
{
    if col.data_type() == to {
        return Ok(col);
    }
    match (&col, to) {
        (Column::Int32(v), DataType::Int64) => {
            let ghost goal = spec_cast(col@, to)->Ok_0->Int64_0;
            let n = v.len();
            let mut out: Vec<Option<i64>> = Vec::new();
            let mut i: usize = 0;
            #[verifier::loop_isolation(false)]
            while i < n
                invariant
                    i <= n,
                    out@.len() == i,
                    forall|j: int| 0 <= j < i ==> out@[j] == goal[j],
                decreases n - i,
            {
                let cell: Option<i64> = match v[i] {
                    Some(x) => Some(x as i64),
                    None => None,
                };
                out.push(cell);
                i += 1;
            }
            proof {
                assert(out@ =~= goal);
            }
            Ok(Column::Int64(out))
        },
        (Column::Int64(v), DataType::Int32) => {
            let ghost goal = spec_cast(col@, to)->Ok_0->Int32_0;
            let n = v.len();
            let mut out: Vec<Option<i32>> = Vec::new();
            let mut i: usize = 0;
            #[verifier::loop_isolation(false)]
            while i < n
                invariant
                    i <= n,
                    out@.len() == i,
                    forall|j: int| 0 <= j < i ==> out@[j] == goal[j],
                decreases n - i,
            {
                let cell: Option<i32> = match v[i] {
                    Some(x) => {
                        if -2147483648i64 <= x && x <= 2147483647i64 {
                            Some(x as i32)
                        } else {
                            None
                        }
                    },
                    None => None,
                };
                out.push(cell);
                i += 1;
            }
            proof {
                assert(out@ =~= goal);
            }
            Ok(Column::Int32(out))
        },
        _ => Err(ExecutorError::InvalidCast),
    }
}

impl BoundExpr {
    /// Evaluate this expression over a batch into one output column; see
    /// `spec_eval` for the exact behaviour.
    pub fn eval_column(&self, batch: &Batch) -> (r: Result<Column, ExecutorError>)
        ensures
            match r {
                Ok(c) => spec_eval(self@, batch@) == Ok::<ColumnV, ExecutorError>(c@),
                Err(e) => spec_eval(self@, batch@) == Err::<ColumnV, ExecutorError>(e),
            },
        decreases self,
    {
        match self {
            BoundExpr::InputRef(input_ref) => {
                if input_ref.index < batch.columns.len() {
                    Ok(batch.columns[input_ref.index].clone())
                } else {
                    Err(ExecutorError::ColumnIndexOutOfRange)
                }
            },
            BoundExpr::Constant(val) => Ok(build_scalar_value_array(val, batch.num_rows())),
            BoundExpr::ColumnRef(_) => Err(ExecutorError::UnresolvedColumnRef),
            BoundExpr::BinaryOp(expr) => {
                let left = match (*expr.left).eval_column(batch) {
                    Ok(c) => c,
                    Err(e) => {
                        return Err(e);
                    },
                };
                let right = match (*expr.right).eval_column(batch) {
                    Ok(c) => c,
                    Err(e) => {
                        return Err(e);
                    },
                };
                binary_op(&left, &right, &expr.op)
            },
            BoundExpr::TypeCast(tc) => {
                let inner = match (*tc.expr).eval_column(batch) {
                    Ok(c) => c,
                    Err(e) => {
                        return Err(e);
                    },
                };
                cast_column(inner, tc.cast_type)
            },
            BoundExpr::AggFunc(_) => Err(ExecutorError::UnsupportedExpression),
        }
    }

    /// The output field this expression contributes to a projected batch.
    pub fn eval_field(&self, batch: &Batch) -> (r: Result<ColumnDesc, ExecutorError>)
        ensures
            match r {
                Ok(f) => spec_eval_field(self@, batch@) == Ok::<ColumnDescV, ExecutorError>(f@),
                Err(e) => spec_eval_field(self@, batch@) == Err::<ColumnDescV, ExecutorError>(e),
            },
    {
        match self {
            BoundExpr::InputRef(input_ref) => {
                if input_ref.index < batch.fields.len() {
                    Ok(batch.fields[input_ref.index].clone())
                } else {
                    Err(ExecutorError::ColumnIndexOutOfRange)
                }
            },
            _ => Err(ExecutorError::UnsupportedExpression),
        }
    }
}

/// Under a well-formed batch, a successful evaluation yields a column with
/// one cell per row.
pub proof fn lemma_eval_len(e: BoundExprV, batch: BatchV)
    requires
        batch.wf(),
        spec_eval(e, batch) is Ok,
    ensures
        spec_eval(e, batch)->Ok_0.len() == batch.num_rows(),
    decreases e,
{
    match e {
        BoundExprV::InputRef { .. } => {},
        BoundExprV::Constant(_) => {},
        BoundExprV::ColumnRef(_) => {},
        BoundExprV::BinaryOp { op, left, right, .. } => {
            lemma_eval_len(*left, batch);
            lemma_eval_len(*right, batch);
            let l = spec_eval(*left, batch)->Ok_0;
            let r = spec_eval(*right, batch)->Ok_0;
            lemma_binary_op_len(op, l, r);
        },
        BoundExprV::TypeCast { expr, cast_type } => {
            lemma_eval_len(*expr, batch);
        },
        BoundExprV::AggFunc { .. } => {},
    }
}

/// A successful binary operation keeps its left operand's length.
pub proof fn lemma_binary_op_len(op: crate::ast::BinaryOperator, l: ColumnV, r: ColumnV)
    requires
        spec_binary_op(op, l, r) is Ok,
    ensures
        spec_binary_op(op, l, r)->Ok_0.len() == l.len(),
{
    if op.is_arithmetic() {
        match (l, r) {
            (ColumnV::Int32(a), ColumnV::Int32(b)) => {
                lemma_zip_arith_i32_len(op, a, b);
            },
            (ColumnV::Int64(a), ColumnV::Int64(b)) => {
                lemma_zip_arith_i64_len(op, a, b);
            },
            _ => {},
        }
    }
}

/// A successful 32-bit arithmetic zip keeps its operands' length.
proof fn lemma_zip_arith_i32_len(op: crate::ast::BinaryOperator, a: Seq<Option<i32>>, b: Seq<
    Option<i32>,
>)
    requires
        crate::executor::array_compute::zip_arith_i32(op, a, b) is Ok,
    ensures
        crate::executor::array_compute::zip_arith_i32(op, a, b)->Ok_0.len() == a.len(),
    decreases a.len(),
{
    if a.len() > 0 {
        lemma_zip_arith_i32_len(op, a.drop_first(), b.drop_first());
    }
}

/// A successful 64-bit arithmetic zip keeps its operands' length.
proof fn lemma_zip_arith_i64_len(op: crate::ast::BinaryOperator, a: Seq<Option<i64>>, b: Seq<
    Option<i64>,
>)
    requires
        crate::executor::array_compute::zip_arith_i64(op, a, b) is Ok,
    ensures
        crate::executor::array_compute::zip_arith_i64(op, a, b)->Ok_0.len() == a.len(),
    decreases a.len(),
{
    if a.len() > 0 {
        lemma_zip_arith_i64_len(op, a.drop_first(), b.drop_first());
    }
}

} // verus!
