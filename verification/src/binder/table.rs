//! Table references: binding a `FROM` entry against the catalog.

use vstd::prelude::*;

use crate::ast::{TableFactor, TableFactorV, TableWithJoins};
use crate::catalog::{TableCatalog, TableCatalogV};
use crate::ident::matches_lower;
use crate::binder::{BindError, BindErrorV, Binder, BinderV};

verus! {

/// A bound table reference: the catalog entry the name resolved to.
#[derive(Debug)]
pub struct BoundTableRef {
    pub table_catalog: TableCatalog,
}

impl View for BoundTableRef {
    type V = TableCatalogV;

    open spec fn view(&self) -> TableCatalogV {
        self.table_catalog@
    }
}

/// What binding a table reference yields: the resolved table, or why it
/// failed. Only plain 1- to 3-part table names are understood.
pub open spec fn spec_bind_table_ref(b: BinderV, table: TableFactorV) -> Result<
    TableCatalogV,
    BindErrorV,
> {
    match table {
        TableFactorV::Table(parts) => {
            if 1 <= parts.len() <= 3 {
                let name = parts[parts.len() - 1];
                match b.catalog.lookup_table(name) {
                    Some(t) => Ok(t),
                    None => Err(BindErrorV::InvalidTable(name)),
                }
            } else {
                Err(BindErrorV::InvalidTableName(parts))
            }
        },
        TableFactorV::Unsupported(s) => Err(BindErrorV::UnsupportedStmt(s)),
    }
}

impl Binder {
    /// Bind the relation of a `FROM` entry; join clauses never reach the
    /// binder.
    pub fn bind_table_with_joins(&mut self, table_with_joins: &TableWithJoins) -> (r: Result<
        BoundTableRef,
        BindError,
    >)
        ensures
            final(self)@.catalog == old(self)@.catalog,
            match r {
                Ok(bound) => spec_bind_table_ref(old(self)@, table_with_joins@) == Ok::<
                    TableCatalogV,
                    BindErrorV,
                >(bound@) && final(self)@.context == old(self)@.context.push(bound@),
                Err(e) => spec_bind_table_ref(old(self)@, table_with_joins@) == Err::<
                    TableCatalogV,
                    BindErrorV,
                >(e@) && final(self)@.context == old(self)@.context,
            },
    {
        self.bind_table_ref(&table_with_joins.relation)
    }

    /// Bind a table reference: resolve a 1- to 3-part name in the catalog and
    /// record the table in the statement's scope.
    pub fn bind_table_ref(&mut self, table: &TableFactor) -> (r: Result<BoundTableRef, BindError>)
        ensures
            final(self)@.catalog == old(self)@.catalog,
            match r {
                Ok(bound) => spec_bind_table_ref(old(self)@, table@) == Ok::<
                    TableCatalogV,
                    BindErrorV,
                >(bound@) && final(self)@.context == old(self)@.context.push(bound@),
                Err(e) => spec_bind_table_ref(old(self)@, table@) == Err::<
                    TableCatalogV,
                    BindErrorV,
                >(e@) && final(self)@.context == old(self)@.context,
            },
    {
        let ghost pre = self@;
        match table {
            TableFactor::Table(parts) => {
                if 1 <= parts.len() && parts.len() <= 3 {
                    let name = &parts[parts.len() - 1];
                    proof {
                        assert(table@->Table_0[table@->Table_0.len() - 1] == name@);
                    }
                    match self.catalog.get_table_by_name(name.as_str()) {
                        Some(t) => {
                            let bound = BoundTableRef { table_catalog: t.clone() };
                            self.context.tables.push(t);
                            proof {
                                assert(self@.context =~= pre.context.push(bound@));
                            }
                            Ok(bound)
                        },
                        None => Err(BindError::InvalidTable(name.clone())),
                    }
                } else {
                    Err(BindError::InvalidTableName(clone_strings(parts)))
                }
            },
            TableFactor::Unsupported(s) => Err(BindError::UnsupportedStmt(s.clone())),
        }
    }
}

/// Clone a list of strings, keeping its model.
pub fn clone_strings(parts: &Vec<String>) -> (r: Vec<String>)
    ensures
        r@.map_values(|p: String| p@) == parts@.map_values(|p: String| p@),
{
    let mut r: Vec<String> = Vec::new();
    let mut i: usize = 0;
    while i < parts.len()
        invariant
            i <= parts@.len(),
            r@.len() == i,
            forall|j: int| 0 <= j < i ==> r@[j]@ == parts@[j]@,
        decreases parts@.len() - i,
    {
        r.push(parts[i].clone());
        i += 1;
    }
    proof {
        assert(r@.map_values(|p: String| p@) =~= parts@.map_values(|p: String| p@));
    }
    r
}

} // verus!
