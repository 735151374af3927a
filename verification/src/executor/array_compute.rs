//! Vectorized binary operators over columns: elementwise arithmetic on the
//! numeric types, elementwise comparisons on every comparable type, with
//! NULLs propagated cell by cell.

use vstd::prelude::*;

use crate::ast::BinaryOperator;
use crate::executor::batch::{Column, ColumnV};
use crate::executor::ExecutorError;

verus! {

/// One arithmetic step on 32-bit cells: NULL in, NULL out; overflow and
/// division by zero are errors.
pub open spec fn elem_arith_i32(op: BinaryOperator, x: Option<i32>, y: Option<i32>) -> Result<
    Option<i32>,
    ExecutorError,
> {
    match (x, y) {
        (Some(a), Some(b)) => match op {
            BinaryOperator::Plus => match a.checked_add(b) {
                Some(v) => Ok(Some(v)),
                None => Err(ExecutorError::ArithmeticOverflow),
            },
            BinaryOperator::Minus => match a.checked_sub(b) {
                Some(v) => Ok(Some(v)),
                None => Err(ExecutorError::ArithmeticOverflow),
            },
            BinaryOperator::Multiply => match a.checked_mul(b) {
                Some(v) => Ok(Some(v)),
                None => Err(ExecutorError::ArithmeticOverflow),
            },
            BinaryOperator::Divide => {
                if b == 0 {
                    Err(ExecutorError::DivisionByZero)
                } else {
                    match a.checked_div(b) {
                        Some(v) => Ok(Some(v)),
                        None => Err(ExecutorError::ArithmeticOverflow),
                    }
                }
            },
            _ => Err(ExecutorError::UnsupportedOperator),
        },
        _ => Ok(None),
    }
}

/// One arithmetic step on 64-bit cells.
pub open spec fn elem_arith_i64(op: BinaryOperator, x: Option<i64>, y: Option<i64>) -> Result<
    Option<i64>,
    ExecutorError,
> {
    match (x, y) {
        (Some(a), Some(b)) => match op {
            BinaryOperator::Plus => match a.checked_add(b) {
                Some(v) => Ok(Some(v)),
                None => Err(ExecutorError::ArithmeticOverflow),
            },
            BinaryOperator::Minus => match a.checked_sub(b) {
                Some(v) => Ok(Some(v)),
                None => Err(ExecutorError::ArithmeticOverflow),
            },
            BinaryOperator::Multiply => match a.checked_mul(b) {
                Some(v) => Ok(Some(v)),
                None => Err(ExecutorError::ArithmeticOverflow),
            },
            BinaryOperator::Divide => {
                if b == 0 {
                    Err(ExecutorError::DivisionByZero)
                } else {
                    match a.checked_div(b) {
                        Some(v) => Ok(Some(v)),
                        None => Err(ExecutorError::ArithmeticOverflow),
                    }
                }
            },
            _ => Err(ExecutorError::UnsupportedOperator),
        },
        _ => Ok(None),
    }
}

/// Elementwise arithmetic over two equally long 32-bit columns; the first
/// failing cell aborts.
pub open spec fn zip_arith_i32(op: BinaryOperator, l: Seq<Option<i32>>, r: Seq<Option<i32>>) -> Result<
    Seq<Option<i32>>,
    ExecutorError,
>
    decreases l.len(),
{
    if l.len() == 0 {
        Ok(Seq::empty())
    } else {
        match elem_arith_i32(op, l[0], r[0]) {
            Err(e) => Err(e),
            Ok(v) => match zip_arith_i32(op, l.drop_first(), r.drop_first()) {
                Err(e) => Err(e),
                Ok(rest) => Ok(seq![v] + rest),
            },
        }
    }
}

/// Elementwise arithmetic over two equally long 64-bit columns.
pub open spec fn zip_arith_i64(op: BinaryOperator, l: Seq<Option<i64>>, r: Seq<Option<i64>>) -> Result<
    Seq<Option<i64>>,
    ExecutorError,
>
    decreases l.len(),
{
    if l.len() == 0 {
        Ok(Seq::empty())
    } else {
        match elem_arith_i64(op, l[0], r[0]) {
            Err(e) => Err(e),
            Ok(v) => match zip_arith_i64(op, l.drop_first(), r.drop_first()) {
                Err(e) => Err(e),
                Ok(rest) => Ok(seq![v] + rest),
            },
        }
    }
}

/// The truth value of a comparison, from "is less" and "is equal".
pub open spec fn apply_cmp(op: BinaryOperator, lt: bool, eq: bool) -> bool {
    match op {
        BinaryOperator::Lt => lt,
        BinaryOperator::LtEq => lt || eq,
        BinaryOperator::Gt => !lt && !eq,
        BinaryOperator::GtEq => !lt,
        BinaryOperator::Eq => eq,
        BinaryOperator::NotEq => !eq,
        _ => false,
    }
}

/// Is `op` one of the six comparison operators?
pub open spec fn is_comparison(op: BinaryOperator) -> bool {
    op == BinaryOperator::Lt || op == BinaryOperator::LtEq || op == BinaryOperator::Gt || op
        == BinaryOperator::GtEq || op == BinaryOperator::Eq || op == BinaryOperator::NotEq
}

/// `a` before `b` in lexicographic order over characters.
pub open spec fn lex_lt(a: Seq<char>, b: Seq<char>) -> bool
    decreases a.len(),
{
    if b.len() == 0 {
        false
    } else if a.len() == 0 {
        true
    } else if a[0] != b[0] {
        (a[0] as u32) < (b[0] as u32)
    } else {
        lex_lt(a.drop_first(), b.drop_first())
    }
}

/// One comparison step on boolean cells; `false` orders before `true`.
pub open spec fn elem_cmp_bool(op: BinaryOperator, x: Option<bool>, y: Option<bool>) -> Option<
    bool,
> {
    match (x, y) {
        (Some(a), Some(b)) => Some(apply_cmp(op, !a && b, a == b)),
        _ => None,
    }
}

/// One comparison step on 32-bit cells.
pub open spec fn elem_cmp_i32(op: BinaryOperator, x: Option<i32>, y: Option<i32>) -> Option<bool> {
    match (x, y) {
        (Some(a), Some(b)) => Some(apply_cmp(op, a < b, a == b)),
        _ => None,
    }
}

/// One comparison step on 64-bit cells.
pub open spec fn elem_cmp_i64(op: BinaryOperator, x: Option<i64>, y: Option<i64>) -> Option<bool> {
    match (x, y) {
        (Some(a), Some(b)) => Some(apply_cmp(op, a < b, a == b)),
        _ => None,
    }
}

/// One comparison step on string cells, in lexicographic order.
pub open spec fn elem_cmp_str(op: BinaryOperator, x: Option<Seq<char>>, y: Option<Seq<char>>) -> Option<
    bool,
> {
    match (x, y) {
        (Some(a), Some(b)) => Some(apply_cmp(op, lex_lt(a, b), a == b)),
        _ => None,
    }
}

/// What a binary operator yields over two columns: arithmetic is dispatched
/// by the left operand's type among the numeric types; comparisons work on
/// every typed column; operand columns must share type and length.
pub open spec fn spec_binary_op(op: BinaryOperator, l: ColumnV, r: ColumnV) -> Result<
    ColumnV,
    ExecutorError,
> {
    if op.is_arithmetic() {
        match (l, r) {
            (ColumnV::Int32(a), ColumnV::Int32(b)) => {
                if a.len() == b.len() {
                    match zip_arith_i32(op, a, b) {
                        Ok(v) => Ok(ColumnV::Int32(v)),
                        Err(e) => Err(e),
                    }
                } else {
                    Err(ExecutorError::TypeMismatch)
                }
            },
            (ColumnV::Int64(a), ColumnV::Int64(b)) => {
                if a.len() == b.len() {
                    match zip_arith_i64(op, a, b) {
                        Ok(v) => Ok(ColumnV::Int64(v)),
                        Err(e) => Err(e),
                    }
                } else {
                    Err(ExecutorError::TypeMismatch)
                }
            },
            (ColumnV::Int32(_), _) => Err(ExecutorError::TypeMismatch),
            (ColumnV::Int64(_), _) => Err(ExecutorError::TypeMismatch),
            _ => Err(ExecutorError::UnsupportedOperator),
        }
    } else if is_comparison(op) {
        match (l, r) {
            (ColumnV::Boolean(a), ColumnV::Boolean(b)) => {
                if a.len() == b.len() {
                    Ok(ColumnV::Boolean(Seq::new(a.len(), |i: int| elem_cmp_bool(op, a[i], b[i]))))
                } else {
                    Err(ExecutorError::TypeMismatch)
                }
            },
            (ColumnV::Int32(a), ColumnV::Int32(b)) => {
                if a.len() == b.len() {
                    Ok(ColumnV::Boolean(Seq::new(a.len(), |i: int| elem_cmp_i32(op, a[i], b[i]))))
                } else {
                    Err(ExecutorError::TypeMismatch)
                }
            },
            (ColumnV::Int64(a), ColumnV::Int64(b)) => {
                if a.len() == b.len() {
                    Ok(ColumnV::Boolean(Seq::new(a.len(), |i: int| elem_cmp_i64(op, a[i], b[i]))))
                } else {
                    Err(ExecutorError::TypeMismatch)
                }
            },
            (ColumnV::Utf8(a), ColumnV::Utf8(b)) => {
                if a.len() == b.len() {
                    Ok(ColumnV::Boolean(Seq::new(a.len(), |i: int| elem_cmp_str(op, a[i], b[i]))))
                } else {
                    Err(ExecutorError::TypeMismatch)
                }
            },
            _ => Err(ExecutorError::TypeMismatch),
        }
    } else {
        Err(ExecutorError::UnsupportedOperator)
    }
}

/// Is `a` lexicographically before `b`?
fn str_lt(a: &str, b: &str) -> (r: bool)
    ensures
        r == lex_lt(a@, b@),
{
    let an = a.unicode_len();
    let bn = b.unicode_len();
    proof {
        assert(a@.skip(0) =~= a@);
        assert(b@.skip(0) =~= b@);
    }
    let mut i: usize = 0;
    #[verifier::loop_isolation(false)]
    while i < an && i < bn
        invariant
            i <= an,
            i <= bn,
            lex_lt(a@, b@) == lex_lt(a@.skip(i as int), b@.skip(i as int)),
        decreases an - i,
    {
        let ca = a.get_char(i);
        let cb = b.get_char(i);
        proof {
            assert(a@.skip(i as int)[0] == a@[i as int]);
            assert(b@.skip(i as int)[0] == b@[i as int]);
            assert(a@.skip(i as int).drop_first() =~= a@.skip(i + 1));
            assert(b@.skip(i as int).drop_first() =~= b@.skip(i + 1));
        }
        if ca != cb {
            return (ca as u32) < (cb as u32);
        }
        i += 1;
    }
    proof {
        assert(a@.skip(i as int).len() == an - i);
        assert(b@.skip(i as int).len() == bn - i);
    }
    i < bn
}

/// Apply one comparison operator given "is less" and "is equal".
fn apply_cmp_exec(op: BinaryOperator, lt: bool, eq: bool) -> (r: bool)
    ensures
        r == apply_cmp(op, lt, eq),
{
    match op {
        BinaryOperator::Lt => lt,
        BinaryOperator::LtEq => lt || eq,
        BinaryOperator::Gt => !lt && !eq,
        BinaryOperator::GtEq => !lt,
        BinaryOperator::Eq => eq,
        BinaryOperator::NotEq => !eq,
        _ => false,
    }
}

/// Elementwise arithmetic over two 32-bit columns.
fn arith_i32(op: BinaryOperator, a: &Vec<Option<i32>>, b: &Vec<Option<i32>>) -> (r: Result<
    Vec<Option<i32>>,
    ExecutorError,
>)
    requires
        a@.len() == b@.len(),
    ensures
        match r {
            Ok(v) => zip_arith_i32(op, a@, b@) == Ok::<Seq<Option<i32>>, ExecutorError>(v@),
            Err(e) => zip_arith_i32(op, a@, b@) == Err::<Seq<Option<i32>>, ExecutorError>(e),
        },
{
    let n = a.len();
    let mut out: Vec<Option<i32>> = Vec::new();
    proof {
        assert(a@.skip(0) =~= a@);
        assert(b@.skip(0) =~= b@);
        if let Ok(all) = zip_arith_i32(op, a@, b@) {
            assert(out@ + all =~= all);
        }
    }
    let mut i: usize = 0;
    #[verifier::loop_isolation(false)]
    while i < n
        invariant
            i <= n,
            out@.len() == i,
            zip_arith_i32(op, a@, b@) == match zip_arith_i32(op, a@.skip(i as int), b@.skip(i as int)) {
                Ok(rest) => Ok::<Seq<Option<i32>>, ExecutorError>(out@ + rest),
                Err(e) => Err::<Seq<Option<i32>>, ExecutorError>(e),
            },
        decreases n - i,
    {
        proof {
            assert(a@.skip(i as int)[0] == a@[i as int]);
            assert(b@.skip(i as int)[0] == b@[i as int]);
            assert(a@.skip(i as int).drop_first() =~= a@.skip(i + 1));
            assert(b@.skip(i as int).drop_first() =~= b@.skip(i + 1));
        }
        let cell: Option<i32> = match (a[i], b[i]) {
            (Some(x), Some(y)) => {
                match op {
                    BinaryOperator::Plus => match x.checked_add(y) {
                        Some(v) => Some(v),
                        None => {
                            return Err(ExecutorError::ArithmeticOverflow);
                        },
                    },
                    BinaryOperator::Minus => match x.checked_sub(y) {
                        Some(v) => Some(v),
                        None => {
                            return Err(ExecutorError::ArithmeticOverflow);
                        },
                    },
                    BinaryOperator::Multiply => match x.checked_mul(y) {
                        Some(v) => Some(v),
                        None => {
                            return Err(ExecutorError::ArithmeticOverflow);
                        },
                    },
                    BinaryOperator::Divide => {
                        if y == 0 {
                            return Err(ExecutorError::DivisionByZero);
                        }
                        match x.checked_div(y) {
                            Some(v) => Some(v),
                            None => {
                                return Err(ExecutorError::ArithmeticOverflow);
                            },
                        }
                    },
                    _ => {
                        return Err(ExecutorError::UnsupportedOperator);
                    },
                }
            },
            _ => None,
        };
        let ghost pre = out@;
        out.push(cell);
        proof {
            assert forall|rest: Seq<Option<i32>>| true implies pre + (seq![cell] + rest) =~= out@
                + rest by {}
        }
        i += 1;
    }
    proof {
        assert(a@.skip(n as int) =~= Seq::<Option<i32>>::empty());
        assert(out@ + Seq::<Option<i32>>::empty() =~= out@);
    }
    Ok(out)
}

/// Elementwise arithmetic over two 64-bit columns.
fn arith_i64(op: BinaryOperator, a: &Vec<Option<i64>>, b: &Vec<Option<i64>>) -> (r: Result<
    Vec<Option<i64>>,
    ExecutorError,
>)
    requires
        a@.len() == b@.len(),
    ensures
        match r {
            Ok(v) => zip_arith_i64(op, a@, b@) == Ok::<Seq<Option<i64>>, ExecutorError>(v@),
            Err(e) => zip_arith_i64(op, a@, b@) == Err::<Seq<Option<i64>>, ExecutorError>(e),
        },
{
    let n = a.len();
    let mut out: Vec<Option<i64>> = Vec::new();
    proof {
        assert(a@.skip(0) =~= a@);
        assert(b@.skip(0) =~= b@);
        if let Ok(all) = zip_arith_i64(op, a@, b@) {
            assert(out@ + all =~= all);
        }
    }
    let mut i: usize = 0;
    #[verifier::loop_isolation(false)]
    while i < n
        invariant
            i <= n,
            out@.len() == i,
            zip_arith_i64(op, a@, b@) == match zip_arith_i64(op, a@.skip(i as int), b@.skip(i as int)) {
                Ok(rest) => Ok::<Seq<Option<i64>>, ExecutorError>(out@ + rest),
                Err(e) => Err::<Seq<Option<i64>>, ExecutorError>(e),
            },
        decreases n - i,
    {
        proof {
            assert(a@.skip(i as int)[0] == a@[i as int]);
            assert(b@.skip(i as int)[0] == b@[i as int]);
            assert(a@.skip(i as int).drop_first() =~= a@.skip(i + 1));
            assert(b@.skip(i as int).drop_first() =~= b@.skip(i + 1));
        }
        let cell: Option<i64> = match (a[i], b[i]) {
            (Some(x), Some(y)) => {
                match op {
                    BinaryOperator::Plus => match x.checked_add(y) {
                        Some(v) => Some(v),
                        None => {
                            return Err(ExecutorError::ArithmeticOverflow);
                        },
                    },
                    BinaryOperator::Minus => match x.checked_sub(y) {
                        Some(v) => Some(v),
                        None => {
                            return Err(ExecutorError::ArithmeticOverflow);
                        },
                    },
                    BinaryOperator::Multiply => match x.checked_mul(y) {
                        Some(v) => Some(v),
                        None => {
                            return Err(ExecutorError::ArithmeticOverflow);
                        },
                    },
                    BinaryOperator::Divide => {
                        if y == 0 {
                            return Err(ExecutorError::DivisionByZero);
                        }
                        match x.checked_div(y) {
                            Some(v) => Some(v),
                            None => {
                                return Err(ExecutorError::ArithmeticOverflow);
                            },
                        }
                    },
                    _ => {
                        return Err(ExecutorError::UnsupportedOperator);
                    },
                }
            },
            _ => None,
        };
        let ghost pre = out@;
        out.push(cell);
        proof {
            assert forall|rest: Seq<Option<i64>>| true implies pre + (seq![cell] + rest) =~= out@
                + rest by {}
        }
        i += 1;
    }
    proof {
        assert(a@.skip(n as int) =~= Seq::<Option<i64>>::empty());
        assert(out@ + Seq::<Option<i64>>::empty() =~= out@);
    }
    Ok(out)
}

/// Apply one binary operator over two columns: elementwise, vectorized, with
/// NULL propagation; see `spec_binary_op` for the exact behaviour.
pub fn binary_op(left: &Column, right: &Column, op: &BinaryOperator) -> (r: Result<
    Column,
    ExecutorError,
>)
    ensures
        match r {
            Ok(c) => spec_binary_op(*op, left@, right@) == Ok::<ColumnV, ExecutorError>(c@),
            Err(e) => spec_binary_op(*op, left@, right@) == Err::<ColumnV, ExecutorError>(e),
        },
{
    let arithmetic = match op {
        BinaryOperator::Plus => true,
        BinaryOperator::Minus => true,
        BinaryOperator::Multiply => true,
        BinaryOperator::Divide => true,
        _ => false,
    };
    let comparison = match op {
        BinaryOperator::Lt => true,
        BinaryOperator::LtEq => true,
        BinaryOperator::Gt => true,
        BinaryOperator::GtEq => true,
        BinaryOperator::Eq => true,
        BinaryOperator::NotEq => true,
        _ => false,
    };
    if arithmetic {
        match (left, right) {
            (Column::Int32(a), Column::Int32(b)) => {
                if a.len() != b.len() {
                    return Err(ExecutorError::TypeMismatch);
                }
                match arith_i32(*op, a, b) {
                    Ok(v) => Ok(Column::Int32(v)),
                    Err(e) => Err(e),
                }
            },
            (Column::Int64(a), Column::Int64(b)) => {
                if a.len() != b.len() {
                    return Err(ExecutorError::TypeMismatch);
                }
                match arith_i64(*op, a, b) {
                    Ok(v) => Ok(Column::Int64(v)),
                    Err(e) => Err(e),
                }
            },
            (Column::Int32(_), _) => Err(ExecutorError::TypeMismatch),
            (Column::Int64(_), _) => Err(ExecutorError::TypeMismatch),
            _ => Err(ExecutorError::UnsupportedOperator),
        }
    } else if comparison {
        match (left, right) {
            (Column::Boolean(a), Column::Boolean(b)) => {
                if a.len() != b.len() {
                    return Err(ExecutorError::TypeMismatch);
                }
                let ghost goal = Seq::new(a@.len(), |i: int| elem_cmp_bool(*op, a@[i], b@[i]));
                let n = a.len();
                let mut out: Vec<Option<bool>> = Vec::new();
                let mut i: usize = 0;
                #[verifier::loop_isolation(false)]
                while i < n
                    invariant
                        i <= n,
                        out@.len() == i,
                        forall|j: int| 0 <= j < i ==> out@[j] == goal[j],
                    decreases n - i,
                {
                    let cell = match (a[i], b[i]) {
                        (Some(x), Some(y)) => Some(apply_cmp_exec(*op, !x && y, x == y)),
                        _ => None,
                    };
                    out.push(cell);
                    i += 1;
                }
                proof {
                    assert(out@ =~= goal);
                }
                Ok(Column::Boolean(out))
            },
            (Column::Int32(a), Column::Int32(b)) => {
                if a.len() != b.len() {
                    return Err(ExecutorError::TypeMismatch);
                }
                let ghost goal = Seq::new(a@.len(), |i: int| elem_cmp_i32(*op, a@[i], b@[i]));
                let n = a.len();
                let mut out: Vec<Option<bool>> = Vec::new();
                let mut i: usize = 0;
                #[verifier::loop_isolation(false)]
                while i < n
                    invariant
                        i <= n,
                        out@.len() == i,
                        forall|j: int| 0 <= j < i ==> out@[j] == goal[j],
                    decreases n - i,
                {
                    let cell = match (a[i], b[i]) {
                        (Some(x), Some(y)) => Some(apply_cmp_exec(*op, x < y, x == y)),
                        _ => None,
                    };
                    out.push(cell);
                    i += 1;
                }
                proof {
                    assert(out@ =~= goal);
                }
                Ok(Column::Boolean(out))
            },
            (Column::Int64(a), Column::Int64(b)) => {
                if a.len() != b.len() {
                    return Err(ExecutorError::TypeMismatch);
                }
                let ghost goal = Seq::new(a@.len(), |i: int| elem_cmp_i64(*op, a@[i], b@[i]));
                let n = a.len();
                let mut out: Vec<Option<bool>> = Vec::new();
                let mut i: usize = 0;
                #[verifier::loop_isolation(false)]
                while i < n
                    invariant
                        i <= n,
                        out@.len() == i,
                        forall|j: int| 0 <= j < i ==> out@[j] == goal[j],
                    decreases n - i,
                {
                    let cell = match (a[i], b[i]) {
                        (Some(x), Some(y)) => Some(apply_cmp_exec(*op, x < y, x == y)),
                        _ => None,
                    };
                    out.push(cell);
                    i += 1;
                }
                proof {
                    assert(out@ =~= goal);
                }
                Ok(Column::Boolean(out))
            },
            (Column::Utf8(a), Column::Utf8(b)) => {
                if a.len() != b.len() {
                    return Err(ExecutorError::TypeMismatch);
                }
                let ghost av = crate::executor::batch::strings_view(a@);
                let ghost bv = crate::executor::batch::strings_view(b@);
                let ghost goal = Seq::new(av.len(), |i: int| elem_cmp_str(*op, av[i], bv[i]));
                let n = a.len();
                let mut out: Vec<Option<bool>> = Vec::new();
                let mut i: usize = 0;
                #[verifier::loop_isolation(false)]
                while i < n
                    invariant
                        i <= n,
                        out@.len() == i,
                        forall|j: int| 0 <= j < i ==> out@[j] == goal[j],
                    decreases n - i,
                {
                    let cell = match (&a[i], &b[i]) {
                        (Some(x), Some(y)) => Some(
                            apply_cmp_exec(
                                *op,
                                str_lt(x.as_str(), y.as_str()),
                                crate::ident::str_eq(x.as_str(), y.as_str()),
                            ),
                        ),
                        _ => None,
                    };
                    out.push(cell);
                    i += 1;
                }
                proof {
                    assert(out@ =~= goal);
                }
                Ok(Column::Boolean(out))
            },
            _ => Err(ExecutorError::TypeMismatch),
        }
    } else {
        Err(ExecutorError::UnsupportedOperator)
    }
}

} // verus!
