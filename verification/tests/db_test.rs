//! End-to-end scenarios: a statement through binder, planner, rewriters and
//! the streaming executor.

use query_engine::ast::{
    BinaryOperator, Expr, Query, Select, SelectItem, Statement, TableFactor, TableWithJoins,
    Value,
};
use query_engine::catalog::{ColumnCatalog, ColumnDesc, TableCatalog};
use query_engine::db::{Database, DatabaseError};
use query_engine::executor::batch::{Batch, Column};
use query_engine::executor::{ExecutorBuilder, ExecutorError};
use query_engine::optimizer::plan_node::{LogicalTableScan, PhysicalTableScan, PlanNode};
use query_engine::storage::{infer_catalog, InMemoryStorage, StorageError, StorageImpl};
use query_engine::types::DataType;

fn select_stmt(
    projection: Vec<SelectItem>,
    from: Vec<TableWithJoins>,
    selection: Option<Expr>,
) -> Statement {
    Statement::Query(Query::Select(Select { projection, from, selection }))
}

fn from_table(name: &str) -> Vec<TableWithJoins> {
    vec![TableWithJoins { relation: TableFactor::Table(vec![name.to_string()]) }]
}

fn ident(name: &str) -> Expr {
    Expr::Identifier(name.to_string())
}

fn int32_table(id: &str, columns: &[&str]) -> TableCatalog {
    TableCatalog {
        id: id.to_string(),
        name: id.to_string(),
        columns: columns
            .iter()
            .map(|c| ColumnCatalog {
                id: c.to_string(),
                desc: ColumnDesc { name: c.to_string(), data_type: DataType::Int32 },
            })
            .collect(),
    }
}

#[test]
fn test_filter_selectivity() {
    // A table with rows id in {1, 2, 1, 3}: filtering by id = 1 returns
    // exactly the rows where id is 1, in original order, other columns
    // intact.
    let mut db = Database::new_in_memory();
    let catalog = int32_table("t1", &["id", "v"]);
    let batch = Batch {
        fields: vec![
            ColumnDesc { name: "id".to_string(), data_type: DataType::Int32 },
            ColumnDesc { name: "v".to_string(), data_type: DataType::Int32 },
        ],
        columns: vec![
            Column::Int32(vec![Some(1), Some(2), Some(1), Some(3)]),
            Column::Int32(vec![Some(10), Some(20), Some(30), Some(40)]),
        ],
    };
    db.create_table(catalog, vec![batch]);

    // select id, v from t1 where id = 1
    let stmt = select_stmt(
        vec![
            SelectItem::UnnamedExpr(ident("id")),
            SelectItem::UnnamedExpr(ident("v")),
        ],
        from_table("t1"),
        Some(Expr::BinaryOp {
            left: Box::new(ident("id")),
            op: BinaryOperator::Eq,
            right: Box::new(Expr::Value(Value::Number("1".to_string()))),
        }),
    );
    let output = db.run(&stmt).unwrap();
    assert_eq!(output.len(), 1);
    assert_eq!(output[0].columns[0], Column::Int32(vec![Some(1), Some(1)]));
    assert_eq!(output[0].columns[1], Column::Int32(vec![Some(10), Some(30)]));
}

#[test]
fn test_execution_scenario() {
    // A table of employees with a row where last_name = 'Hopkins':
    // selecting first_name with that predicate yields exactly the matching
    // first names, in file order.
    let mut db = Database::new_in_memory();
    let fields = vec![
        ColumnDesc { name: "id".to_string(), data_type: DataType::Int32 },
        ColumnDesc { name: "first_name".to_string(), data_type: DataType::Utf8 },
        ColumnDesc { name: "last_name".to_string(), data_type: DataType::Utf8 },
    ];
    let catalog = infer_catalog("employee".to_string(), "employee".to_string(), &fields);
    let batch = Batch {
        fields,
        columns: vec![
            Column::Int32(vec![Some(1), Some(2), Some(3)]),
            Column::Utf8(vec![
                Some("Anthony".to_string()),
                Some("Bill".to_string()),
                Some("Ada".to_string()),
            ]),
            Column::Utf8(vec![
                Some("Hopkins".to_string()),
                Some("Gates".to_string()),
                Some("Hopkins".to_string()),
            ]),
        ],
    };
    db.create_table(catalog, vec![batch]);

    // select first_name from employee where last_name = 'Hopkins'
    let stmt = select_stmt(
        vec![SelectItem::UnnamedExpr(ident("first_name"))],
        from_table("employee"),
        Some(Expr::BinaryOp {
            left: Box::new(ident("last_name")),
            op: BinaryOperator::Eq,
            right: Box::new(Expr::Value(Value::SingleQuotedString("Hopkins".to_string()))),
        }),
    );
    let output = db.run(&stmt).unwrap();
    assert_eq!(output.len(), 1);
    assert_eq!(output[0].num_columns(), 1);
    assert_eq!(
        output[0].columns[0],
        Column::Utf8(vec![Some("Anthony".to_string()), Some("Ada".to_string())])
    );
    assert_eq!(output[0].fields[0].name, "first_name");
}

#[test]
fn test_multiple_batches_stream_in_order() {
    let mut db = Database::new_in_memory();
    let catalog = int32_table("t1", &["c1"]);
    let b1 = Batch {
        fields: vec![ColumnDesc { name: "c1".to_string(), data_type: DataType::Int32 }],
        columns: vec![Column::Int32(vec![Some(1), Some(2)])],
    };
    let b2 = Batch {
        fields: vec![ColumnDesc { name: "c1".to_string(), data_type: DataType::Int32 }],
        columns: vec![Column::Int32(vec![Some(3)])],
    };
    db.create_table(catalog, vec![b1, b2]);

    let stmt = select_stmt(vec![SelectItem::UnnamedExpr(ident("c1"))], from_table("t1"), None);
    let output = db.run(&stmt).unwrap();
    assert_eq!(output.len(), 2);
    assert_eq!(output[0].columns[0], Column::Int32(vec![Some(1), Some(2)]));
    assert_eq!(output[1].columns[0], Column::Int32(vec![Some(3)]));
}

#[test]
fn test_select_without_source_has_no_plan() {
    let db = Database::new_in_memory();
    let stmt = select_stmt(
        vec![SelectItem::UnnamedExpr(Expr::Value(Value::Number("1".to_string())))],
        vec![],
        None,
    );
    assert!(matches!(db.run(&stmt), Err(DatabaseError::Plan(_))));
}

#[test]
fn test_run_unknown_table_fails() {
    let db = Database::new_in_memory();
    let stmt = select_stmt(vec![SelectItem::UnnamedExpr(ident("c1"))], from_table("t1"), None);
    assert!(matches!(db.run(&stmt), Err(DatabaseError::Bind(_))));
}

#[test]
fn test_non_boolean_predicate_fails_execution() {
    // where id + id is typed Int32, not Boolean: binding passes, the filter
    // operator rejects the mask at run time.
    let mut db = Database::new_in_memory();
    let catalog = int32_table("t1", &["id"]);
    let batch = Batch {
        fields: vec![ColumnDesc { name: "id".to_string(), data_type: DataType::Int32 }],
        columns: vec![Column::Int32(vec![Some(1)])],
    };
    db.create_table(catalog, vec![batch]);
    let stmt = select_stmt(
        vec![SelectItem::UnnamedExpr(ident("id"))],
        from_table("t1"),
        Some(Expr::BinaryOp {
            left: Box::new(ident("id")),
            op: BinaryOperator::Plus,
            right: Box::new(ident("id")),
        }),
    );
    assert!(matches!(
        db.run(&stmt),
        Err(DatabaseError::Execute(ExecutorError::PredicateNotBoolean))
    ));
}

#[test]
fn test_scan_of_missing_table_fails_storage() {
    // A physical scan over a table the storage does not hold fails with a
    // storage error at build time.
    let mut builder = ExecutorBuilder::new(StorageImpl::InMemoryStorage(InMemoryStorage::new()));
    let plan = PlanNode::PhysicalTableScan(PhysicalTableScan::new(LogicalTableScan::new(
        "ghostly".to_string(),
        vec![],
    )));
    match builder.build(&plan) {
        Err(ExecutorError::Storage(StorageError::TableNotFound(id))) => {
            assert_eq!(id, "ghostly")
        }
        Err(other) => panic!("expected a table-not-found error, got {other:?}"),
        Ok(_) => panic!("expected a table-not-found error, got a pipeline"),
    }
}
