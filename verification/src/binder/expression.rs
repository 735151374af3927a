//! Bound expressions: name-resolved, typed expression trees, and the binding
//! of expression syntax against the catalog.

use vstd::prelude::*;

use crate::ast::{BinaryOperator, Expr, ExprV, Value, ValueV};
use crate::catalog::{ColumnCatalog, ColumnCatalogV, TableCatalog, TableCatalogV};
use crate::types::{DataType, ScalarValue, ScalarValueV};
use crate::binder::agg_func::{AggFunc, BoundAggFunc};
use crate::binder::{BindError, BindErrorV, Binder, BinderV};
use crate::number;

verus! {

/// A name-resolved but not yet positional column reference.
#[derive(Debug, PartialEq)]
pub struct BoundColumnRef {
    pub column_catalog: ColumnCatalog,
}

/// A positional reference into the batch produced by a child operator.
#[derive(Debug, PartialEq)]
pub struct BoundInputRef {
    /// Column index in the child's output batch.
    pub index: usize,
    pub return_type: DataType,
}

/// A typed binary operation over two bound operands.
#[derive(Debug, PartialEq)]
pub struct BoundBinaryOp {
    pub op: BinaryOperator,
    pub left: Box<BoundExpr>,
    pub right: Box<BoundExpr>,
    pub return_type: Option<DataType>,
}

/// An explicit coercion of a bound operand.
#[derive(Debug, PartialEq)]
pub struct BoundTypeCast {
    pub expr: Box<BoundExpr>,
    pub cast_type: DataType,
}

/// A bound expression: one variant per expression kind.
#[derive(Debug, PartialEq)]
pub enum BoundExpr {
    Constant(ScalarValue),
    ColumnRef(BoundColumnRef),
    InputRef(BoundInputRef),
    BinaryOp(BoundBinaryOp),
    TypeCast(BoundTypeCast),
    AggFunc(BoundAggFunc),
}

/// The model of a `BoundExpr`.
#[verifier::ext_equal]
pub enum BoundExprV {
    Constant(ScalarValueV),
    ColumnRef(ColumnCatalogV),
    InputRef { index: usize, return_type: DataType },
    BinaryOp { op: BinaryOperator, left: Box<BoundExprV>, right: Box<BoundExprV>, return_type: Option<DataType> },
    TypeCast { expr: Box<BoundExprV>, cast_type: DataType },
    AggFunc { func: AggFunc, exprs: Seq<BoundExprV>, return_type: DataType },
}

impl View for BoundExpr {
    type V = BoundExprV;

    open spec fn view(&self) -> BoundExprV
        decreases self,
    {
        match self {
            BoundExpr::Constant(v) => BoundExprV::Constant(v@),
            BoundExpr::ColumnRef(c) => BoundExprV::ColumnRef(c.column_catalog@),
            BoundExpr::InputRef(i) => BoundExprV::InputRef {
                index: i.index,
                return_type: i.return_type,
            },
            BoundExpr::BinaryOp(b) => BoundExprV::BinaryOp {
                op: b.op,
                left: Box::new((*b.left)@),
                right: Box::new((*b.right)@),
                return_type: b.return_type,
            },
            BoundExpr::TypeCast(t) => BoundExprV::TypeCast {
                expr: Box::new((*t.expr)@),
                cast_type: t.cast_type,
            },
            BoundExpr::AggFunc(a) => BoundExprV::AggFunc {
                func: a.func,
                exprs: bound_exprs_view(a.exprs@),
                return_type: a.return_type,
            },
        }
    }
}

/// The models of a list of bound expressions, in order.
pub open spec fn bound_exprs_view(exprs: Seq<BoundExpr>) -> Seq<BoundExprV>
    decreases exprs,
{
    if exprs.len() == 0 {
        Seq::empty()
    } else {
        seq![exprs[0]@] + bound_exprs_view(exprs.drop_first())
    }
}

/// `bound_exprs_view` is the elementwise model of its argument.
pub proof fn lemma_bound_exprs_view(exprs: Seq<BoundExpr>)
    ensures
        bound_exprs_view(exprs).len() == exprs.len(),
        forall|i: int| 0 <= i < exprs.len() ==> bound_exprs_view(exprs)[i] == exprs[i]@,
    decreases exprs,
{
    if exprs.len() > 0 {
        assert(bound_exprs_view(exprs) == seq![exprs[0]@] + bound_exprs_view(exprs.drop_first()));
        lemma_bound_exprs_view(exprs.drop_first());
        assert forall|i: int| 0 <= i < exprs.len() implies bound_exprs_view(exprs)[i]
            == exprs[i]@ by {
            if i > 0 {
                assert(bound_exprs_view(exprs)[i] == bound_exprs_view(exprs.drop_first())[i - 1]);
                assert(exprs.drop_first()[i - 1] == exprs[i]);
            }
        }
    }
}

impl BoundExprV {
    /// The statically derivable type of a bound expression, when it has one.
    pub open spec fn return_type(self) -> Option<DataType> {
        match self {
            BoundExprV::Constant(v) => Some(v.data_type()),
            BoundExprV::ColumnRef(c) => Some(c.desc.data_type),
            BoundExprV::InputRef { return_type, .. } => Some(return_type),
            BoundExprV::BinaryOp { return_type, .. } => return_type,
            BoundExprV::TypeCast { cast_type, .. } => Some(cast_type),
            BoundExprV::AggFunc { return_type, .. } => Some(return_type),
        }
    }
}

impl Clone for BoundExpr {
    /// A deep copy with the same model.
    fn clone(&self) -> (r: Self)
        ensures
            r@ == self@,
        decreases self,
    {
        match self {
            BoundExpr::Constant(v) => BoundExpr::Constant(v.clone()),
            BoundExpr::ColumnRef(c) => BoundExpr::ColumnRef(BoundColumnRef {
                column_catalog: c.column_catalog.clone(),
            }),
            BoundExpr::InputRef(i) => BoundExpr::InputRef(BoundInputRef {
                index: i.index,
                return_type: i.return_type,
            }),
            BoundExpr::BinaryOp(b) => BoundExpr::BinaryOp(BoundBinaryOp {
                op: b.op,
                left: Box::new((*b.left).clone()),
                right: Box::new((*b.right).clone()),
                return_type: b.return_type,
            }),
            BoundExpr::TypeCast(t) => BoundExpr::TypeCast(BoundTypeCast {
                expr: Box::new((*t.expr).clone()),
                cast_type: t.cast_type,
            }),
            BoundExpr::AggFunc(a) => {
                let r = BoundExpr::AggFunc(BoundAggFunc {
                    func: a.func,
                    exprs: clone_bound_exprs(&a.exprs),
                    return_type: a.return_type,
                });
                r
            },
        }
    }
}

/// Clone a bound expression list, keeping its model.
pub fn clone_bound_exprs(exprs: &Vec<BoundExpr>) -> (r: Vec<BoundExpr>)
    ensures
        bound_exprs_view(r@) == bound_exprs_view(exprs@),
        r@.len() == exprs@.len(),
    decreases exprs,
{
    let mut r: Vec<BoundExpr> = Vec::new();
    let mut i: usize = 0;
    while i < exprs.len()
        invariant
            i <= exprs@.len(),
            r@.len() == i,
            forall|j: int| 0 <= j < i ==> r@[j]@ == exprs@[j]@,
        decreases exprs@.len() - i,
    {
        let e = exprs[i].clone();
        r.push(e);
        i += 1;
    }
    proof {
        lemma_bound_exprs_view(r@);
        lemma_bound_exprs_view(exprs@);
        assert(bound_exprs_view(r@) =~= bound_exprs_view(exprs@));
    }
    r
}

/// Structural equality of two bound expressions, usable from verified code.
pub fn eq_bound_expr(a: &BoundExpr, b: &BoundExpr) -> (r: bool)
    ensures
        r == (a@ == b@),
    decreases a,
{
    match (a, b) {
        (BoundExpr::Constant(x), BoundExpr::Constant(y)) => x.eq_scalar(y),
        (BoundExpr::ColumnRef(x), BoundExpr::ColumnRef(y)) => x.column_catalog.eq_column(
            &y.column_catalog,
        ),
        (BoundExpr::InputRef(x), BoundExpr::InputRef(y)) => x.index == y.index && x.return_type
            == y.return_type,
        (BoundExpr::BinaryOp(x), BoundExpr::BinaryOp(y)) => {
            x.op == y.op && eq_bound_expr(&x.left, &y.left) && eq_bound_expr(&x.right, &y.right)
                && x.return_type == y.return_type
        },
        (BoundExpr::TypeCast(x), BoundExpr::TypeCast(y)) => {
            eq_bound_expr(&x.expr, &y.expr) && x.cast_type == y.cast_type
        },
        (BoundExpr::AggFunc(x), BoundExpr::AggFunc(y)) => {
            x.func == y.func && x.return_type == y.return_type && eq_bound_expr_list(
                &x.exprs,
                &y.exprs,
            )
        },
        _ => false,
    }
}

/// Structural equality of two bound expression lists.
pub fn eq_bound_expr_list(a: &Vec<BoundExpr>, b: &Vec<BoundExpr>) -> (r: bool)
    ensures
        r == (bound_exprs_view(a@) == bound_exprs_view(b@)),
    decreases a,
{
    proof {
        lemma_bound_exprs_view(a@);
        lemma_bound_exprs_view(b@);
    }
    if a.len() != b.len() {
        return false;
    }
    let n = a.len();
    let mut i: usize = 0;
    while i < n
        invariant
            i <= n,
            n == a@.len(),
            n == b@.len(),
            bound_exprs_view(a@).len() == n,
            bound_exprs_view(b@).len() == n,
            forall|j: int| 0 <= j < n ==> bound_exprs_view(a@)[j] == a@[j]@,
            forall|j: int| 0 <= j < n ==> bound_exprs_view(b@)[j] == b@[j]@,
            forall|j: int| 0 <= j < i ==> a@[j]@ == b@[j]@,
        decreases n - i,
    {
        if !eq_bound_expr(&a[i], &b[i]) {
            proof {
                assert(bound_exprs_view(a@)[i as int] != bound_exprs_view(b@)[i as int]);
            }
            return false;
        }
        i += 1;
    }
    proof {
        assert(bound_exprs_view(a@) =~= bound_exprs_view(b@));
    }
    true
}

/// How many tables in scope offer a column named `name` (lower-cased).
pub open spec fn count_tables_with_column(context: Seq<TableCatalogV>, name: Seq<char>) -> int
    decreases context.len(),
{
    if context.len() == 0 {
        0
    } else {
        (if context[0].lookup_column(name) is Some {
            1int
        } else {
            0int
        }) + count_tables_with_column(context.drop_first(), name)
    }
}

/// The column the first table in scope that offers `name` resolves it to.
pub open spec fn first_column_in_context(context: Seq<TableCatalogV>, name: Seq<char>) -> Option<
    ColumnCatalogV,
>
    decreases context.len(),
{
    if context.len() == 0 {
        None
    } else if context[0].lookup_column(name) is Some {
        context[0].lookup_column(name)
    } else {
        first_column_in_context(context.drop_first(), name)
    }
}

/// Resolving an unqualified column name: exactly one table in scope must
/// offer it.
pub open spec fn spec_resolve_unqualified(context: Seq<TableCatalogV>, name: Seq<char>) -> Result<
    ColumnCatalogV,
    BindErrorV,
> {
    let n = count_tables_with_column(context, name);
    if n == 0 {
        Err(BindErrorV::InvalidColumn(name))
    } else if n == 1 {
        Ok(first_column_in_context(context, name)->0)
    } else {
        Err(BindErrorV::AmbiguousColumn(name))
    }
}

/// The first table in scope whose name matches `name` case-insensitively.
pub open spec fn lookup_context(context: Seq<TableCatalogV>, name: Seq<char>) -> Option<
    TableCatalogV,
>
    decreases context.len(),
{
    if context.len() == 0 {
        None
    } else if crate::ident::ci_equal(name, context[0].id) {
        Some(context[0])
    } else {
        lookup_context(context.drop_first(), name)
    }
}

/// Binding a dotted identifier of 1 to 3 parts to a column reference.
pub open spec fn spec_bind_ident(b: BinderV, parts: Seq<Seq<char>>) -> Result<
    BoundExprV,
    BindErrorV,
> {
    if parts.len() == 1 {
        match spec_resolve_unqualified(b.context, parts[0]) {
            Ok(c) => Ok(BoundExprV::ColumnRef(c)),
            Err(e) => Err(e),
        }
    } else if parts.len() == 2 || parts.len() == 3 {
        let tname = parts[parts.len() - 2];
        let cname = parts[parts.len() - 1];
        match lookup_context(b.context, tname) {
            None => Err(BindErrorV::InvalidTable(tname)),
            Some(t) => match t.lookup_column(cname) {
                Some(c) => Ok(BoundExprV::ColumnRef(c)),
                None => Err(BindErrorV::InvalidColumn(cname)),
            },
        }
    } else {
        Err(BindErrorV::InvalidTableName(parts))
    }
}

/// The scalar a literal binds to. Integer literals become `Int32` when they
/// fit, `Int64` otherwise; anything past the 64-bit range is unsupported.
pub open spec fn spec_scalar_of_value(v: ValueV) -> Result<ScalarValueV, BindErrorV> {
    match v {
        ValueV::Number(s) => {
            if number::is_int_literal(s) && -0x8000_0000 <= number::int_literal_value(s)
                < 0x8000_0000 {
                Ok(ScalarValueV::Int32(Some(number::int_literal_value(s) as i32)))
            } else if number::is_int_literal(s) && -0x8000_0000_0000_0000
                <= number::int_literal_value(s) < 0x8000_0000_0000_0000 {
                Ok(ScalarValueV::Int64(Some(number::int_literal_value(s) as i64)))
            } else {
                Err(BindErrorV::UnsupportedStmt(s))
            }
        },
        ValueV::SingleQuotedString(s) => Ok(ScalarValueV::Utf8(Some(s))),
        ValueV::DoubleQuotedString(s) => Ok(ScalarValueV::Utf8(Some(s))),
        ValueV::Boolean(b) => Ok(ScalarValueV::Boolean(Some(b))),
        ValueV::Null => Ok(ScalarValueV::Null),
    }
}

/// The aggregate function a call name resolves to, case-insensitively.
pub open spec fn spec_agg_name(name: Seq<char>) -> Option<AggFunc> {
    if crate::ident::matches_lower(name, "count"@) {
        Some(AggFunc::Count)
    } else if crate::ident::matches_lower(name, "sum"@) {
        Some(AggFunc::Sum)
    } else if crate::ident::matches_lower(name, "min"@) {
        Some(AggFunc::Min)
    } else if crate::ident::matches_lower(name, "max"@) {
        Some(AggFunc::Max)
    } else {
        None
    }
}

/// Binding one expression against the catalog and the tables in scope.
pub open spec fn spec_bind_expr(b: BinderV, e: ExprV) -> Result<BoundExprV, BindErrorV>
    decreases e,
{
    match e {
        ExprV::Identifier(s) => spec_bind_ident(b, seq![s]),
        ExprV::CompoundIdentifier(parts) => spec_bind_ident(b, parts),
        ExprV::BinaryOp { left, op, right } => match spec_bind_expr(b, *left) {
            Err(er) => Err(er),
            Ok(bl) => match spec_bind_expr(b, *right) {
                Err(er) => Err(er),
                Ok(br) => spec_typed_binary_op(bl, op, br),
            },
        },
        ExprV::Value(v) => match spec_scalar_of_value(v) {
            Ok(s) => Ok(BoundExprV::Constant(s)),
            Err(er) => Err(er),
        },
        ExprV::Function { name, args } => match spec_bind_args(b, args) {
            Err(er) => Err(er),
            Ok(bargs) => spec_agg_of(name, bargs),
        },
        ExprV::Unsupported(s) => Err(BindErrorV::UnsupportedStmt(s)),
    }
}

/// Typing a binary operation: operand types must match; comparisons yield
/// booleans, arithmetic keeps the operand type.
pub open spec fn spec_typed_binary_op(bl: BoundExprV, op: BinaryOperator, br: BoundExprV) -> Result<
    BoundExprV,
    BindErrorV,
> {
    let lt = bl.return_type();
    let rt = br.return_type();
    if lt == rt {
        Ok(
            BoundExprV::BinaryOp {
                op,
                left: Box::new(bl),
                right: Box::new(br),
                return_type: if op.is_arithmetic() {
                    lt
                } else {
                    Some(DataType::Boolean)
                },
            },
        )
    } else {
        Err(BindErrorV::BinaryOpTypeMismatch(lt, rt))
    }
}

/// Binding a list of aggregate arguments, left to right; the first failure
/// aborts.
pub open spec fn spec_bind_args(b: BinderV, args: Seq<ExprV>) -> Result<Seq<BoundExprV>, BindErrorV>
    decreases args,
{
    if args.len() == 0 {
        Ok(Seq::empty())
    } else {
        match spec_bind_expr(b, args[0]) {
            Err(er) => Err(er),
            Ok(x) => match spec_bind_args(b, args.drop_first()) {
                Err(er) => Err(er),
                Ok(rest) => Ok(seq![x] + rest),
            },
        }
    }
}

/// The aggregate a resolved name and bound arguments build: `count` returns
/// `Int64`; `sum`, `min` and `max` inherit their first argument's type.
pub open spec fn spec_agg_of(name: Seq<char>, bargs: Seq<BoundExprV>) -> Result<
    BoundExprV,
    BindErrorV,
> {
    match spec_agg_name(name) {
        None => Err(BindErrorV::UnsupportedStmt(name)),
        Some(f) => {
            if f == AggFunc::Count {
                Ok(BoundExprV::AggFunc { func: f, exprs: bargs, return_type: DataType::Int64 })
            } else if bargs.len() > 0 && bargs[0].return_type() is Some {
                Ok(
                    BoundExprV::AggFunc {
                        func: f,
                        exprs: bargs,
                        return_type: bargs[0].return_type()->0,
                    },
                )
            } else {
                Err(BindErrorV::UnsupportedStmt(name))
            }
        },
    }
}

impl BoundExpr {
    /// The statically derivable type of this expression, when it has one.
    pub fn return_type(&self) -> (r: Option<DataType>)
        ensures
            r == self@.return_type(),
    {
        match self {
            BoundExpr::Constant(v) => Some(v.data_type()),
            BoundExpr::ColumnRef(c) => Some(c.column_catalog.desc.data_type),
            BoundExpr::InputRef(i) => Some(i.return_type),
            BoundExpr::BinaryOp(b) => b.return_type,
            BoundExpr::TypeCast(t) => Some(t.cast_type),
            BoundExpr::AggFunc(a) => Some(a.return_type),
        }
    }
}

/// The scalar a literal binds to; integer literals past the 64-bit range and
/// non-integer numbers are unsupported.
pub fn scalar_from_value(v: &Value) -> (r: Result<ScalarValue, BindError>)
    ensures
        match r {
            Ok(s) => spec_scalar_of_value(v@) == Ok::<ScalarValueV, BindErrorV>(s@),
            Err(e) => spec_scalar_of_value(v@) == Err::<ScalarValueV, BindErrorV>(e@),
        },
{
    match v {
        Value::Number(s) => {
            match number::parse_int_magnitude(s.as_str(), 9223372036854775808u64) {
                None => Err(BindError::UnsupportedStmt(s.clone())),
                Some((neg, m)) => {
                    if neg {
                        if m <= 2147483648 {
                            Ok(ScalarValue::Int32(Some((-(m as i64)) as i32)))
                        } else if m == 9223372036854775808u64 {
                            Ok(ScalarValue::Int64(Some(-9223372036854775807i64 - 1)))
                        } else {
                            Ok(ScalarValue::Int64(Some(-(m as i64))))
                        }
                    } else {
                        if m <= 2147483647 {
                            Ok(ScalarValue::Int32(Some(m as i32)))
                        } else if m <= 9223372036854775807u64 {
                            Ok(ScalarValue::Int64(Some(m as i64)))
                        } else {
                            Err(BindError::UnsupportedStmt(s.clone()))
                        }
                    }
                },
            }
        },
        Value::SingleQuotedString(s) => Ok(ScalarValue::Utf8(Some(s.clone()))),
        Value::DoubleQuotedString(s) => Ok(ScalarValue::Utf8(Some(s.clone()))),
        Value::Boolean(b) => Ok(ScalarValue::Boolean(Some(*b))),
        Value::Null => Ok(ScalarValue::Null),
    }
}

impl Binder {
    /// Resolve an unqualified column name: exactly one table in scope must
    /// offer it.
    fn resolve_unqualified(&self, name: &str) -> (r: Result<ColumnCatalog, BindError>)
        ensures
            match r {
                Ok(c) => spec_resolve_unqualified(self@.context, name@) == Ok::<
                    ColumnCatalogV,
                    BindErrorV,
                >(c@),
                Err(e) => spec_resolve_unqualified(self@.context, name@) == Err::<
                    ColumnCatalogV,
                    BindErrorV,
                >(e@),
            },
    {
        let ghost ctx = self@.context;
        proof {
            lemma_count_whole(ctx, name@);
        }
        let mut found: Option<ColumnCatalog> = None;
        let n = self.context.tables.len();
        let mut i: usize = 0;
        #[verifier::loop_isolation(false)]
        while i < n
            invariant
                i <= n,
                match found {
                    None => count_from(ctx, name@, 0) == count_from(ctx, name@, i as int)
                        && first_from(ctx, name@, 0) == first_from(ctx, name@, i as int),
                    Some(c) => count_from(ctx, name@, 0) == 1 + count_from(ctx, name@, i as int)
                        && first_from(ctx, name@, 0) == Some(c@),
                },
            decreases n - i,
        {
            proof {
                assert(ctx[i as int] == self.context.tables@[i as int]@);
            }
            match self.context.tables[i].get_column_by_name(name) {
                Some(c) => {
                    if found.is_some() {
                        proof {
                            lemma_count_from_nonneg(ctx, name@, i + 1);
                        }
                        return Err(BindError::AmbiguousColumn(name.to_owned()));
                    }
                    found = Some(c);
                },
                None => {},
            }
            i += 1;
        }
        match found {
            Some(c) => Ok(c),
            None => Err(BindError::InvalidColumn(name.to_owned())),
        }
    }

    /// Look up a (possibly differently cased) table name among the tables in
    /// scope.
    fn context_table(&self, name: &str) -> (r: Option<TableCatalog>)
        ensures
            match r {
                Some(t) => lookup_context(self@.context, name@) == Some(t@),
                None => lookup_context(self@.context, name@) is None,
            },
    {
        let ghost ctx = self@.context;
        proof {
            lemma_lookup_whole(ctx, name@);
        }
        let n = self.context.tables.len();
        let mut i: usize = 0;
        #[verifier::loop_isolation(false)]
        while i < n
            invariant
                i <= n,
                lookup_from(ctx, name@, 0) == lookup_from(ctx, name@, i as int),
            decreases n - i,
        {
            proof {
                assert(ctx[i as int] == self.context.tables@[i as int]@);
            }
            if crate::ident::eq_ci(name, self.context.tables[i].id.as_str()) {
                return Some(self.context.tables[i].clone());
            }
            i += 1;
        }
        None
    }

    /// Bind a dotted identifier of 1 to 3 parts (`column`, `table.column` or
    /// `schema.table.column`) to a column reference.
    pub fn bind_column_ref_from_identifiers(&self, idents: &Vec<String>) -> (r: Result<
        BoundExpr,
        BindError,
    >)
        ensures
            match r {
                Ok(e) => spec_bind_ident(self@, idents@.map_values(|p: String| p@)) == Ok::<
                    BoundExprV,
                    BindErrorV,
                >(e@),
                Err(er) => spec_bind_ident(self@, idents@.map_values(|p: String| p@)) == Err::<
                    BoundExprV,
                    BindErrorV,
                >(er@),
            },
    {
        let ghost parts = idents@.map_values(|p: String| p@);
        if idents.len() == 1 {
            let name = &idents[0];
            proof {
                assert(parts[0] == name@);
            }
            match self.resolve_unqualified(name.as_str()) {
                Ok(c) => Ok(BoundExpr::ColumnRef(BoundColumnRef { column_catalog: c })),
                Err(e) => Err(e),
            }
        } else if idents.len() == 2 || idents.len() == 3 {
            let tname = &idents[idents.len() - 2];
            let cname = &idents[idents.len() - 1];
            proof {
                assert(parts[parts.len() - 2] == tname@);
                assert(parts[parts.len() - 1] == cname@);
            }
            match self.context_table(tname.as_str()) {
                None => Err(BindError::InvalidTable(tname.clone())),
                Some(t) => match t.get_column_by_name(cname.as_str()) {
                    Some(c) => Ok(BoundExpr::ColumnRef(BoundColumnRef { column_catalog: c })),
                    None => Err(BindError::InvalidColumn(cname.clone())),
                },
            }
        } else {
            Err(BindError::InvalidTableName(crate::binder::table::clone_strings(idents)))
        }
    }

    /// Type and combine two bound operands under a binary operator.
    fn typed_binary_op(&self, bl: BoundExpr, op: BinaryOperator, br: BoundExpr) -> (r: Result<
        BoundExpr,
        BindError,
    >)
        ensures
            match r {
                Ok(e) => spec_typed_binary_op(bl@, op, br@) == Ok::<BoundExprV, BindErrorV>(e@),
                Err(er) => spec_typed_binary_op(bl@, op, br@) == Err::<BoundExprV, BindErrorV>(
                    er@,
                ),
            },
    {
        let lt = bl.return_type();
        let rt = br.return_type();
        if lt == rt {
            let arithmetic = match op {
                BinaryOperator::Plus => true,
                BinaryOperator::Minus => true,
                BinaryOperator::Multiply => true,
                BinaryOperator::Divide => true,
                _ => false,
            };
            Ok(
                BoundExpr::BinaryOp(
                    BoundBinaryOp {
                        op,
                        left: Box::new(bl),
                        right: Box::new(br),
                        return_type: if arithmetic {
                            lt
                        } else {
                            Some(DataType::Boolean)
                        },
                    },
                ),
            )
        } else {
            Err(BindError::BinaryOpTypeMismatch(lt, rt))
        }
    }

    /// Bind both sides of a binary operator; their resolved types must agree.
    pub fn bind_binary_op(&self, left: &Expr, op: BinaryOperator, right: &Expr) -> (r: Result<
        BoundExpr,
        BindError,
    >)
        ensures
            match r {
                Ok(e) => spec_bind_expr(
                    self@,
                    ExprV::BinaryOp { left: Box::new(left@), op, right: Box::new(right@) },
                ) == Ok::<BoundExprV, BindErrorV>(e@),
                Err(er) => spec_bind_expr(
                    self@,
                    ExprV::BinaryOp { left: Box::new(left@), op, right: Box::new(right@) },
                ) == Err::<BoundExprV, BindErrorV>(er@),
            },
    {
        let bl = match self.bind_expr(left) {
            Ok(e) => e,
            Err(er) => {
                return Err(er);
            },
        };
        let br = match self.bind_expr(right) {
            Ok(e) => e,
            Err(er) => {
                return Err(er);
            },
        };
        self.typed_binary_op(bl, op, br)
    }

    /// Bind one expression: identifiers resolve against the tables in scope,
    /// literals become constants, calls become aggregates.
    pub fn bind_expr(&self, expr: &Expr) -> (r: Result<BoundExpr, BindError>)
        ensures
            match r {
                Ok(e) => spec_bind_expr(self@, expr@) == Ok::<BoundExprV, BindErrorV>(e@),
                Err(er) => spec_bind_expr(self@, expr@) == Err::<BoundExprV, BindErrorV>(er@),
            },
        decreases expr,
    {
        match expr {
            Expr::Identifier(s) => {
                let idents = vec_of_one(s.clone());
                proof {
                    assert(idents@.map_values(|p: String| p@) =~= seq![s@]);
                }
                self.bind_column_ref_from_identifiers(&idents)
            },
            Expr::CompoundIdentifier(parts) => self.bind_column_ref_from_identifiers(parts),
            Expr::BinaryOp { left, op, right } => {
                let bl = match self.bind_expr(left) {
                    Ok(e) => e,
                    Err(er) => {
                        return Err(er);
                    },
                };
                let br = match self.bind_expr(right) {
                    Ok(e) => e,
                    Err(er) => {
                        return Err(er);
                    },
                };
                self.typed_binary_op(bl, *op, br)
            },
            Expr::Value(v) => match scalar_from_value(v) {
                Ok(s) => Ok(BoundExpr::Constant(s)),
                Err(er) => Err(er),
            },
            Expr::Function(f) => self.bind_agg_func(f),
            Expr::Unsupported(s) => Err(BindError::UnsupportedStmt(s.clone())),
        }
    }
}

/// Binder resolution idempotence: binding is a function of the catalog,
/// the scope and the expression alone, so any two successful binds of the
/// same expression against the same binder state yield structurally equal
/// bound expressions.
pub proof fn lemma_binding_idempotent(b: BinderV, e: ExprV, r1: BoundExprV, r2: BoundExprV)
    requires
        spec_bind_expr(b, e) == Ok::<BoundExprV, BindErrorV>(r1),
        spec_bind_expr(b, e) == Ok::<BoundExprV, BindErrorV>(r2),
    ensures
        r1 == r2,
{
}

/// Aggregate binding: `count` always binds return type `Int64`; `sum`,
/// `min` and `max` bind their first argument's resolved type.
pub proof fn lemma_agg_binding_types(name: Seq<char>, bargs: Seq<BoundExprV>, r: BoundExprV)
    requires
        spec_agg_of(name, bargs) == Ok::<BoundExprV, BindErrorV>(r),
    ensures
        spec_agg_name(name) == Some(AggFunc::Count) ==> r->AggFunc_return_type
            == DataType::Int64,
        (spec_agg_name(name) matches Some(f) && f != AggFunc::Count) ==> r->AggFunc_return_type
            == bargs[0].return_type()->0,
{
}

/// A one-element vector.
fn vec_of_one(s: String) -> (r: Vec<String>)
    ensures
        r@.len() == 1,
        r@[0] == s,
{
    let mut r: Vec<String> = Vec::new();
    r.push(s);
    r
}

/// Counting and searching the scope suffix that starts at `from`.
pub open spec fn count_from(context: Seq<TableCatalogV>, name: Seq<char>, from: int) -> int
    decreases context.len() - from,
{
    if from < 0 || from >= context.len() {
        0
    } else {
        (if context[from].lookup_column(name) is Some {
            1int
        } else {
            0int
        }) + count_from(context, name, from + 1)
    }
}

/// The first match in the scope suffix that starts at `from`.
pub open spec fn first_from(context: Seq<TableCatalogV>, name: Seq<char>, from: int) -> Option<
    ColumnCatalogV,
>
    decreases context.len() - from,
{
    if from < 0 || from >= context.len() {
        None
    } else if context[from].lookup_column(name) is Some {
        context[from].lookup_column(name)
    } else {
        first_from(context, name, from + 1)
    }
}

/// The first case-insensitive table-name match in the scope suffix that
/// starts at `from`.
pub open spec fn lookup_from(context: Seq<TableCatalogV>, name: Seq<char>, from: int) -> Option<
    TableCatalogV,
>
    decreases context.len() - from,
{
    if from < 0 || from >= context.len() {
        None
    } else if crate::ident::ci_equal(name, context[from].id) {
        Some(context[from])
    } else {
        lookup_from(context, name, from + 1)
    }
}

/// Counts over a suffix are never negative.
proof fn lemma_count_from_nonneg(context: Seq<TableCatalogV>, name: Seq<char>, from: int)
    ensures
        count_from(context, name, from) >= 0,
    decreases context.len() - from,
{
    if 0 <= from && from < context.len() {
        lemma_count_from_nonneg(context, name, from + 1);
    }
}

/// The front-recursion and suffix-recursion forms coincide.
proof fn lemma_count_whole(context: Seq<TableCatalogV>, name: Seq<char>)
    ensures
        count_tables_with_column(context, name) == count_from(context, name, 0),
        first_column_in_context(context, name) == first_from(context, name, 0),
    decreases context.len(),
{
    if context.len() > 0 {
        lemma_count_whole(context.drop_first(), name);
        lemma_count_shift(context, name, 0);
    }
}

/// Dropping the head shifts suffix counting by one.
proof fn lemma_count_shift(context: Seq<TableCatalogV>, name: Seq<char>, from: int)
    requires
        0 <= from < context.len(),
    ensures
        count_from(context.drop_first(), name, from) == count_from(context, name, from + 1),
        first_from(context.drop_first(), name, from) == first_from(context, name, from + 1),
    decreases context.len() - from,
{
    if from + 1 < context.len() {
        lemma_count_shift(context, name, from + 1);
    }
}

/// The front-recursion and suffix-recursion table lookups coincide.
proof fn lemma_lookup_whole(context: Seq<TableCatalogV>, name: Seq<char>)
    ensures
        lookup_context(context, name) == lookup_from(context, name, 0),
    decreases context.len(),
{
    if context.len() > 0 {
        lemma_lookup_whole(context.drop_first(), name);
        lemma_lookup_shift(context, name, 0);
    }
}

/// Dropping the head shifts the suffix table lookup by one.
proof fn lemma_lookup_shift(context: Seq<TableCatalogV>, name: Seq<char>, from: int)
    requires
        0 <= from < context.len(),
    ensures
        lookup_from(context.drop_first(), name, from) == lookup_from(context, name, from + 1),
    decreases context.len() - from,
{
    if from + 1 < context.len() {
        lemma_lookup_shift(context, name, from + 1);
    }
}

} // verus!
