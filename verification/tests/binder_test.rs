//! Binder tests: name resolution, typing and scope handling.

use query_engine::ast::{
    Expr, Function, Query, Select, SelectItem, Statement, TableFactor, TableWithJoins, Value,
};
use query_engine::binder::expression::BoundExpr;
use query_engine::binder::statement::BoundStatement;
use query_engine::binder::{BindError, Binder};
use query_engine::catalog::{ColumnCatalog, ColumnDesc, RootCatalog, TableCatalog};
use query_engine::types::DataType;

fn int32_column(name: &str) -> ColumnCatalog {
    ColumnCatalog {
        id: name.to_string(),
        desc: ColumnDesc { name: name.to_string(), data_type: DataType::Int32 },
    }
}

fn build_test_catalog() -> RootCatalog {
    let table_id = "t1".to_string();
    let table_catalog = TableCatalog {
        id: table_id.clone(),
        name: table_id,
        columns: vec![int32_column("c1"), int32_column("c2")],
    };
    let mut catalog = RootCatalog::new();
    catalog.tables.push(table_catalog);
    catalog
}

fn select_stmt(projection: Vec<SelectItem>, from: Vec<TableWithJoins>, selection: Option<Expr>) -> Statement {
    Statement::Query(Query::Select(Select { projection, from, selection }))
}

fn from_t1() -> Vec<TableWithJoins> {
    vec![TableWithJoins { relation: TableFactor::Table(vec!["t1".to_string()]) }]
}

#[test]
fn test_bind_select_works() {
    let catalog = build_test_catalog();
    let mut binder = Binder::new(catalog);
    // select c1, c2 from t1
    let stmt = select_stmt(
        vec![
            SelectItem::UnnamedExpr(Expr::Identifier("c1".to_string())),
            SelectItem::UnnamedExpr(Expr::Identifier("c2".to_string())),
        ],
        from_t1(),
        None,
    );
    let bound_stmt = binder.bind(&stmt).unwrap();
    match bound_stmt {
        BoundStatement::Select(select) => {
            assert_eq!(select.select_list.len(), 2);
            assert_eq!(select.from_table.is_some(), true);
            assert_eq!(select.from_table.unwrap().table_catalog.id, "t1");
        }
    }
}

#[test]
fn test_bind_select_constant_works() {
    let catalog = build_test_catalog();
    let mut binder = Binder::new(catalog);
    // select 1
    let stmt = select_stmt(
        vec![SelectItem::UnnamedExpr(Expr::Value(Value::Number("1".to_string())))],
        vec![],
        None,
    );
    let bound_stmt = binder.bind(&stmt).unwrap();
    match bound_stmt {
        BoundStatement::Select(select) => {
            assert_eq!(select.select_list.len(), 1);
            assert_eq!(select.from_table.is_some(), false);
        }
    }
}

#[test]
fn test_bind_select_agg_func_works() {
    let catalog = build_test_catalog();
    let mut binder = Binder::new(catalog);
    // select sum(c1), sum(c2) from t1
    let stmt = select_stmt(
        vec![
            SelectItem::UnnamedExpr(Expr::Function(Function {
                name: "sum".to_string(),
                args: vec![Expr::Identifier("c1".to_string())],
            })),
            SelectItem::UnnamedExpr(Expr::Function(Function {
                name: "sum".to_string(),
                args: vec![Expr::Identifier("c2".to_string())],
            })),
        ],
        from_t1(),
        None,
    );
    let bound_stmt = binder.bind(&stmt).unwrap();
    match bound_stmt {
        BoundStatement::Select(select) => {
            assert!(matches!(select.select_list[0], BoundExpr::AggFunc(..)));
            assert!(matches!(select.select_list[1], BoundExpr::AggFunc(..)));
        }
    }
}

#[test]
fn test_bind_resolution_is_idempotent() {
    // Binding the same identifier twice against the same catalog yields
    // structurally equal bound expressions.
    let catalog = build_test_catalog();
    let mut binder = Binder::new(catalog);
    let table = TableWithJoins { relation: TableFactor::Table(vec!["t1".to_string()]) };
    binder.bind_table_with_joins(&table).unwrap();
    let first = binder.bind_expr(&Expr::Identifier("c1".to_string())).unwrap();
    let second = binder.bind_expr(&Expr::Identifier("c1".to_string())).unwrap();
    assert_eq!(first, second);
}

#[test]
fn test_bind_is_case_insensitive() {
    let catalog = build_test_catalog();
    let mut binder = Binder::new(catalog);
    let stmt = select_stmt(
        vec![SelectItem::UnnamedExpr(Expr::Identifier("C1".to_string()))],
        from_t1(),
        None,
    );
    let bound_stmt = binder.bind(&stmt).unwrap();
    match bound_stmt {
        BoundStatement::Select(select) => match &select.select_list[0] {
            BoundExpr::ColumnRef(c) => assert_eq!(c.column_catalog.id, "c1"),
            other => panic!("expected a column reference, got {other:?}"),
        },
    }
}

#[test]
fn test_bind_unknown_column_fails() {
    let catalog = build_test_catalog();
    let mut binder = Binder::new(catalog);
    let stmt = select_stmt(
        vec![SelectItem::UnnamedExpr(Expr::Identifier("c9".to_string()))],
        from_t1(),
        None,
    );
    match binder.bind(&stmt) {
        Err(BindError::InvalidColumn(name)) => assert_eq!(name, "c9"),
        other => panic!("expected an invalid-column error, got {other:?}"),
    }
}

#[test]
fn test_bind_unknown_table_fails() {
    let catalog = build_test_catalog();
    let mut binder = Binder::new(catalog);
    let stmt = select_stmt(
        vec![SelectItem::UnnamedExpr(Expr::Identifier("c1".to_string()))],
        vec![TableWithJoins { relation: TableFactor::Table(vec!["t9".to_string()]) }],
        None,
    );
    match binder.bind(&stmt) {
        Err(BindError::InvalidTable(name)) => assert_eq!(name, "t9"),
        other => panic!("expected an invalid-table error, got {other:?}"),
    }
}

#[test]
fn test_bind_binary_op_type_mismatch_fails() {
    let catalog = build_test_catalog();
    let mut binder = Binder::new(catalog);
    // c1 = 'x' compares an Int32 with a Utf8.
    let stmt = select_stmt(
        vec![SelectItem::UnnamedExpr(Expr::Identifier("c1".to_string()))],
        from_t1(),
        Some(Expr::BinaryOp {
            left: Box::new(Expr::Identifier("c1".to_string())),
            op: query_engine::ast::BinaryOperator::Eq,
            right: Box::new(Expr::Value(Value::SingleQuotedString("x".to_string()))),
        }),
    );
    match binder.bind(&stmt) {
        Err(BindError::BinaryOpTypeMismatch(l, r)) => {
            assert_eq!(l, Some(DataType::Int32));
            assert_eq!(r, Some(DataType::Utf8));
        }
        other => panic!("expected a type-mismatch error, got {other:?}"),
    }
}

#[test]
fn test_bind_wildcard_is_unsupported() {
    let catalog = build_test_catalog();
    let mut binder = Binder::new(catalog);
    let stmt = select_stmt(vec![SelectItem::Wildcard], from_t1(), None);
    assert!(matches!(binder.bind(&stmt), Err(BindError::UnsupportedStmt(_))));
}

#[test]
fn test_bind_non_query_is_unsupported() {
    let catalog = build_test_catalog();
    let mut binder = Binder::new(catalog);
    let stmt = Statement::Unsupported("insert".to_string());
    assert!(matches!(binder.bind(&stmt), Err(BindError::UnsupportedStmt(_))));
}

#[test]
fn test_bind_number_literals() {
    let catalog = build_test_catalog();
    let mut binder = Binder::new(catalog);
    let bound = binder.bind_expr(&Expr::Value(Value::Number("2147483647".to_string()))).unwrap();
    assert_eq!(
        bound,
        BoundExpr::Constant(query_engine::types::ScalarValue::Int32(Some(2147483647)))
    );
    let bound = binder.bind_expr(&Expr::Value(Value::Number("2147483648".to_string()))).unwrap();
    assert_eq!(
        bound,
        BoundExpr::Constant(query_engine::types::ScalarValue::Int64(Some(2147483648)))
    );
    let bound = binder.bind_expr(&Expr::Value(Value::Number("-2147483648".to_string()))).unwrap();
    assert_eq!(
        bound,
        BoundExpr::Constant(query_engine::types::ScalarValue::Int32(Some(-2147483648)))
    );
    // Past the 64-bit range nothing binds.
    assert!(binder
        .bind_expr(&Expr::Value(Value::Number("9223372036854775808".to_string())))
        .is_err());
}

#[test]
fn test_agg_binding_types() {
    // sum(c1) inherits c1's type; count(c1) is always Int64.
    let catalog = build_test_catalog();
    let mut binder = Binder::new(catalog);
    let table = TableWithJoins { relation: TableFactor::Table(vec!["t1".to_string()]) };
    binder.bind_table_with_joins(&table).unwrap();

    let sum = binder
        .bind_agg_func(&Function { name: "sum".to_string(), args: vec![Expr::Identifier("c1".to_string())] })
        .unwrap();
    assert_eq!(sum.return_type(), Some(DataType::Int32));

    let count = binder
        .bind_agg_func(&Function { name: "count".to_string(), args: vec![Expr::Identifier("c1".to_string())] })
        .unwrap();
    assert_eq!(count.return_type(), Some(DataType::Int64));
}

#[test]
fn test_bind_compound_identifier() {
    let catalog = build_test_catalog();
    let mut binder = Binder::new(catalog);
    let stmt = select_stmt(
        vec![SelectItem::UnnamedExpr(Expr::CompoundIdentifier(vec![
            "t1".to_string(),
            "c1".to_string(),
        ]))],
        from_t1(),
        None,
    );
    let bound_stmt = binder.bind(&stmt).unwrap();
    match bound_stmt {
        BoundStatement::Select(select) => match &select.select_list[0] {
            BoundExpr::ColumnRef(c) => assert_eq!(c.column_catalog.id, "c1"),
            other => panic!("expected a column reference, got {other:?}"),
        },
    }
}

#[test]
fn test_bind_ambiguous_column_fails() {
    // Two tables in scope, both offering c1: an unqualified c1 is ambiguous.
    let mut catalog = build_test_catalog();
    let other = TableCatalog {
        id: "t2".to_string(),
        name: "t2".to_string(),
        columns: vec![int32_column("c1")],
    };
    catalog.tables.push(other);
    let mut binder = Binder::new(catalog);
    binder
        .bind_table_with_joins(&TableWithJoins {
            relation: TableFactor::Table(vec!["t1".to_string()]),
        })
        .unwrap();
    binder
        .bind_table_with_joins(&TableWithJoins {
            relation: TableFactor::Table(vec!["t2".to_string()]),
        })
        .unwrap();
    match binder.bind_expr(&Expr::Identifier("c1".to_string())) {
        Err(BindError::AmbiguousColumn(name)) => assert_eq!(name, "c1"),
        other => panic!("expected an ambiguous-column error, got {other:?}"),
    }
}

#[test]
fn test_bind_agg_name_is_case_insensitive() {
    let catalog = build_test_catalog();
    let mut binder = Binder::new(catalog);
    binder
        .bind_table_with_joins(&TableWithJoins {
            relation: TableFactor::Table(vec!["t1".to_string()]),
        })
        .unwrap();
    let bound = binder
        .bind_agg_func(&query_engine::ast::Function {
            name: "SUM".to_string(),
            args: vec![Expr::Identifier("c1".to_string())],
        })
        .unwrap();
    assert!(matches!(bound, BoundExpr::AggFunc(..)));
}
