//! The semantic binder: validates and types a parsed statement against
//! catalog metadata, producing a bound statement.

pub mod agg_func;
pub mod expression;
pub mod statement;
pub mod table;

use vstd::prelude::*;

use crate::ast::{Statement, StatementV};
use crate::catalog::{RootCatalog, RootCatalogV, TableCatalog, TableCatalogV};
use crate::types::DataType;
use crate::binder::statement::{BoundStatement, BoundStatementV};

verus! {

/// Why a statement failed to bind.
#[derive(Debug, PartialEq)]
pub enum BindError {
    /// A statement or expression form the engine does not understand.
    UnsupportedStmt(String),
    /// A table name that is not in the catalog or not in scope.
    InvalidTable(String),
    /// An identifier with more parts than `db.schema.table.column`.
    InvalidTableName(Vec<String>),
    /// A column name no table in scope offers.
    InvalidColumn(String),
    /// An unqualified column name more than one table in scope offers.
    AmbiguousColumn(String),
    /// A binary operator whose operand types differ.
    BinaryOpTypeMismatch(Option<DataType>, Option<DataType>),
}

/// The model of a `BindError`.
#[verifier::ext_equal]
pub enum BindErrorV {
    UnsupportedStmt(Seq<char>),
    InvalidTable(Seq<char>),
    InvalidTableName(Seq<Seq<char>>),
    InvalidColumn(Seq<char>),
    AmbiguousColumn(Seq<char>),
    BinaryOpTypeMismatch(Option<DataType>, Option<DataType>),
}

impl View for BindError {
    type V = BindErrorV;

    open spec fn view(&self) -> BindErrorV {
        match self {
            BindError::UnsupportedStmt(s) => BindErrorV::UnsupportedStmt(s@),
            BindError::InvalidTable(s) => BindErrorV::InvalidTable(s@),
            BindError::InvalidTableName(parts) => BindErrorV::InvalidTableName(
                parts@.map_values(|p: String| p@),
            ),
            BindError::InvalidColumn(s) => BindErrorV::InvalidColumn(s@),
            BindError::AmbiguousColumn(s) => BindErrorV::AmbiguousColumn(s@),
            BindError::BinaryOpTypeMismatch(l, r) => BindErrorV::BinaryOpTypeMismatch(*l, *r),
        }
    }
}

/// The tables a statement has brought into scope, in binding order.
pub struct BinderContext {
    pub tables: Vec<TableCatalog>,
}

/// The binder: the catalog it resolves against and the statement-local scope.
pub struct Binder {
    pub catalog: RootCatalog,
    pub context: BinderContext,
}

/// The model of a `Binder`: its catalog and the tables in scope.
#[verifier::ext_equal]
pub struct BinderV {
    pub catalog: RootCatalogV,
    pub context: Seq<TableCatalogV>,
}

impl View for Binder {
    type V = BinderV;

    open spec fn view(&self) -> BinderV {
        BinderV {
            catalog: self.catalog@,
            context: self.context.tables@.map_values(|t: TableCatalog| t@),
        }
    }
}

impl Binder {
    /// A binder over `catalog` with nothing in scope yet.
    pub fn new(catalog: RootCatalog) -> (r: Self)
        ensures
            r@.catalog == catalog@,
            r@.context.len() == 0,
    {
        let r = Binder { catalog, context: BinderContext { tables: Vec::new() } };
        proof {
            assert(r@.context =~= Seq::<TableCatalogV>::empty());
        }
        r
    }
}

/// What binding a statement yields, and the scope it leaves behind: only
/// `SELECT` is supported.
pub open spec fn spec_bind(b: BinderV, stmt: StatementV) -> (Result<BoundStatementV, BindErrorV>,
    Seq<TableCatalogV>,
) {
    match stmt {
        StatementV::Query(q) => match q {
            crate::ast::QueryV::Select(sv) => {
                let (res, ctx) = crate::binder::statement::spec_bind_select(b, sv);
                (
                    match res {
                        Ok(bs) => Ok(BoundStatementV::Select(bs)),
                        Err(e) => Err(e),
                    },
                    ctx,
                )
            },
            crate::ast::QueryV::Unsupported(s) => (
                Err(BindErrorV::UnsupportedStmt(s)),
                b.context,
            ),
        },
        StatementV::Unsupported(s) => (Err(BindErrorV::UnsupportedStmt(s)), b.context),
    }
}

impl Binder {
    /// Bind a statement: dispatch on its kind; only `SELECT` is supported.
    pub fn bind(&mut self, stmt: &Statement) -> (r: Result<BoundStatement, BindError>)
        ensures
            final(self)@.catalog == old(self)@.catalog,
            final(self)@.context == spec_bind(old(self)@, stmt@).1,
            match r {
                Ok(bs) => spec_bind(old(self)@, stmt@).0 == Ok::<BoundStatementV, BindErrorV>(bs@),
                Err(e) => spec_bind(old(self)@, stmt@).0 == Err::<BoundStatementV, BindErrorV>(e@),
            },
    {
        match stmt {
            Statement::Query(q) => match self.bind_select(q) {
                Ok(bs) => Ok(BoundStatement::Select(bs)),
                Err(e) => Err(e),
            },
            Statement::Unsupported(s) => Err(BindError::UnsupportedStmt(s.clone())),
        }
    }
}

} // verus!
