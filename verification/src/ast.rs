//! The statement tree the binder consumes. A parser front end turns SQL text
//! into this form; everything the binder reads is plain data here.

use vstd::prelude::*;

verus! {

/// A binary operator as written in SQL.
#[derive(Debug, Clone, Copy, PartialEq, Eq, Structural)]
pub enum BinaryOperator {
    Plus,
    Minus,
    Multiply,
    Divide,
    Gt,
    Lt,
    GtEq,
    LtEq,
    Eq,
    NotEq,
    And,
    Or,
}

impl BinaryOperator {
    /// Arithmetic operators keep their operand type; all others compare.
    pub open spec fn is_arithmetic(self) -> bool {
        self == BinaryOperator::Plus || self == BinaryOperator::Minus || self
            == BinaryOperator::Multiply || self == BinaryOperator::Divide
    }
}

/// A literal value as written in SQL.
#[derive(Debug, PartialEq)]
pub enum Value {
    /// An unparsed numeric literal.
    Number(String),
    SingleQuotedString(String),
    DoubleQuotedString(String),
    Boolean(bool),
    Null,
}

/// The model of a `Value`.
#[verifier::ext_equal]
pub enum ValueV {
    Number(Seq<char>),
    SingleQuotedString(Seq<char>),
    DoubleQuotedString(Seq<char>),
    Boolean(bool),
    Null,
}

impl View for Value {
    type V = ValueV;

    open spec fn view(&self) -> ValueV {
        match self {
            Value::Number(s) => ValueV::Number(s@),
            Value::SingleQuotedString(s) => ValueV::SingleQuotedString(s@),
            Value::DoubleQuotedString(s) => ValueV::DoubleQuotedString(s@),
            Value::Boolean(b) => ValueV::Boolean(*b),
            Value::Null => ValueV::Null,
        }
    }
}

/// An aggregate call as written in SQL: a function name over argument
/// expressions.
#[derive(Debug, PartialEq)]
pub struct Function {
    pub name: String,
    pub args: Vec<Expr>,
}

/// An expression as written in SQL.
#[derive(Debug, PartialEq)]
pub enum Expr {
    /// A bare identifier, e.g. `c1`.
    Identifier(String),
    /// A dotted identifier, e.g. `t1.c1`.
    CompoundIdentifier(Vec<String>),
    BinaryOp { left: Box<Expr>, op: BinaryOperator, right: Box<Expr> },
    Value(Value),
    Function(Function),
    /// Any expression form the engine does not understand, with a short
    /// description used in error messages.
    Unsupported(String),
}

/// The model of an `Expr`.
#[verifier::ext_equal]
pub enum ExprV {
    Identifier(Seq<char>),
    CompoundIdentifier(Seq<Seq<char>>),
    BinaryOp { left: Box<ExprV>, op: BinaryOperator, right: Box<ExprV> },
    Value(ValueV),
    Function { name: Seq<char>, args: Seq<ExprV> },
    Unsupported(Seq<char>),
}

impl View for Expr {
    type V = ExprV;

    open spec fn view(&self) -> ExprV
        decreases self,
    {
        match self {
            Expr::Identifier(s) => ExprV::Identifier(s@),
            Expr::CompoundIdentifier(parts) => ExprV::CompoundIdentifier(
                parts@.map_values(|p: String| p@),
            ),
            Expr::BinaryOp { left, op, right } => ExprV::BinaryOp {
                left: Box::new((**left)@),
                op: *op,
                right: Box::new((**right)@),
            },
            Expr::Value(v) => ExprV::Value(v@),
            Expr::Function(f) => ExprV::Function { name: f.name@, args: exprs_view(f.args@) },
            Expr::Unsupported(s) => ExprV::Unsupported(s@),
        }
    }
}

/// The models of a list of expressions, in order.
pub open spec fn exprs_view(args: Seq<Expr>) -> Seq<ExprV>
    decreases args,
{
    if args.len() == 0 {
        Seq::empty()
    } else {
        seq![args[0]@] + exprs_view(args.drop_first())
    }
}

/// `exprs_view` is the elementwise model of its argument.
pub proof fn lemma_exprs_view(args: Seq<Expr>)
    ensures
        exprs_view(args).len() == args.len(),
        forall|i: int| 0 <= i < args.len() ==> exprs_view(args)[i] == args[i]@,
    decreases args,
{
    if args.len() > 0 {
        assert(exprs_view(args) == seq![args[0]@] + exprs_view(args.drop_first()));
        lemma_exprs_view(args.drop_first());
        assert(exprs_view(args).len() == 1 + exprs_view(args.drop_first()).len());
        assert forall|i: int| 0 <= i < args.len() implies exprs_view(args)[i] == args[i]@ by {
            if i > 0 {
                assert(exprs_view(args)[i] == exprs_view(args.drop_first())[i - 1]);
                assert(args.drop_first()[i - 1] == args[i]);
            }
        }
    }
}

/// One item of a `SELECT` list.
#[derive(Debug, PartialEq)]
pub enum SelectItem {
    UnnamedExpr(Expr),
    ExprWithAlias { expr: Expr, alias: String },
    Wildcard,
    QualifiedWildcard(Vec<String>),
}

/// The model of a `SelectItem`.
#[verifier::ext_equal]
pub enum SelectItemV {
    UnnamedExpr(ExprV),
    ExprWithAlias { expr: ExprV, alias: Seq<char> },
    Wildcard,
    QualifiedWildcard(Seq<Seq<char>>),
}

impl View for SelectItem {
    type V = SelectItemV;

    open spec fn view(&self) -> SelectItemV {
        match self {
            SelectItem::UnnamedExpr(e) => SelectItemV::UnnamedExpr(e@),
            SelectItem::ExprWithAlias { expr, alias } => SelectItemV::ExprWithAlias {
                expr: expr@,
                alias: alias@,
            },
            SelectItem::Wildcard => SelectItemV::Wildcard,
            SelectItem::QualifiedWildcard(parts) => SelectItemV::QualifiedWildcard(
                parts@.map_values(|p: String| p@),
            ),
        }
    }
}

/// A table reference in a `FROM` clause.
#[derive(Debug, PartialEq)]
pub enum TableFactor {
    /// A 1- to 3-part table name, e.g. `t1` or `db.schema.t1`.
    Table(Vec<String>),
    /// A table form the engine does not understand (subquery, derived table).
    Unsupported(String),
}

/// The model of a `TableFactor`.
#[verifier::ext_equal]
pub enum TableFactorV {
    Table(Seq<Seq<char>>),
    Unsupported(Seq<char>),
}

impl View for TableFactor {
    type V = TableFactorV;

    open spec fn view(&self) -> TableFactorV {
        match self {
            TableFactor::Table(parts) => TableFactorV::Table(parts@.map_values(|p: String| p@)),
            TableFactor::Unsupported(s) => TableFactorV::Unsupported(s@),
        }
    }
}

/// A `FROM` entry; join clauses are not understood and never reach the
/// binder.
#[derive(Debug, PartialEq)]
pub struct TableWithJoins {
    pub relation: TableFactor,
}

impl View for TableWithJoins {
    type V = TableFactorV;

    open spec fn view(&self) -> TableFactorV {
        self.relation@
    }
}

/// The body of a `SELECT` statement.
#[derive(Debug, PartialEq)]
pub struct Select {
    pub projection: Vec<SelectItem>,
    pub from: Vec<TableWithJoins>,
    pub selection: Option<Expr>,
}

/// The model of a `Select`.
#[verifier::ext_equal]
pub struct SelectV {
    pub projection: Seq<SelectItemV>,
    pub from: Seq<TableFactorV>,
    pub selection: Option<ExprV>,
}

impl View for Select {
    type V = SelectV;

    open spec fn view(&self) -> SelectV {
        SelectV {
            projection: self.projection@.map_values(|s: SelectItem| s@),
            from: self.from@.map_values(|t: TableWithJoins| t@),
            selection: match &self.selection {
                Some(e) => Some(e@),
                None => None,
            },
        }
    }
}

/// A query: only plain `SELECT` bodies are understood.
#[derive(Debug, PartialEq)]
pub enum Query {
    Select(Select),
    /// Any other query body (union, values list), with a short description.
    Unsupported(String),
}

/// The model of a `Query`.
#[verifier::ext_equal]
pub enum QueryV {
    Select(SelectV),
    Unsupported(Seq<char>),
}

impl View for Query {
    type V = QueryV;

    open spec fn view(&self) -> QueryV {
        match self {
            Query::Select(s) => QueryV::Select(s@),
            Query::Unsupported(s) => QueryV::Unsupported(s@),
        }
    }
}

/// A statement handed to the binder.
#[derive(Debug, PartialEq)]
pub enum Statement {
    Query(Query),
    /// Any non-query statement, with a short description.
    Unsupported(String),
}

/// The model of a `Statement`.
#[verifier::ext_equal]
pub enum StatementV {
    Query(QueryV),
    Unsupported(Seq<char>),
}

impl View for Statement {
    type V = StatementV;

    open spec fn view(&self) -> StatementV {
        match self {
            Statement::Query(q) => StatementV::Query(q@),
            Statement::Unsupported(s) => StatementV::Unsupported(s@),
        }
    }
}

} // verus!

