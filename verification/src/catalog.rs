//! Table and column metadata: the read-only catalog the binder resolves
//! names against.

use vstd::prelude::*;

use crate::ident::matches_lower;
use crate::types::DataType;

verus! {

/// Name and type of one column.
#[derive(Debug, PartialEq)]
pub struct ColumnDesc {
    pub name: String,
    pub data_type: DataType,
}

/// The model of a `ColumnDesc`.
#[verifier::ext_equal]
pub struct ColumnDescV {
    pub name: Seq<char>,
    pub data_type: DataType,
}

impl View for ColumnDesc {
    type V = ColumnDescV;

    open spec fn view(&self) -> ColumnDescV {
        ColumnDescV { name: self.name@, data_type: self.data_type }
    }
}

impl Clone for ColumnDesc {
    fn clone(&self) -> (r: Self)
        ensures
            r@ == self@,
    {
        ColumnDesc { name: self.name.clone(), data_type: self.data_type }
    }
}

impl ColumnDesc {
    /// Structural equality, usable from verified code.
    pub fn eq_desc(&self, other: &ColumnDesc) -> (r: bool)
        ensures
            r == (self@ == other@),
    {
        self.name.eq(&other.name) && self.data_type == other.data_type
    }
}

/// One column of a table: its id and its description.
#[derive(Debug, PartialEq)]
pub struct ColumnCatalog {
    pub id: String,
    pub desc: ColumnDesc,
}

/// The model of a `ColumnCatalog`.
#[verifier::ext_equal]
pub struct ColumnCatalogV {
    pub id: Seq<char>,
    pub desc: ColumnDescV,
}

impl View for ColumnCatalog {
    type V = ColumnCatalogV;

    open spec fn view(&self) -> ColumnCatalogV {
        ColumnCatalogV { id: self.id@, desc: self.desc@ }
    }
}

impl Clone for ColumnCatalog {
    fn clone(&self) -> (r: Self)
        ensures
            r@ == self@,
    {
        ColumnCatalog { id: self.id.clone(), desc: self.desc.clone() }
    }
}

impl ColumnCatalog {
    /// Structural equality, usable from verified code.
    pub fn eq_column(&self, other: &ColumnCatalog) -> (r: bool)
        ensures
            r == (self@ == other@),
    {
        self.id.eq(&other.id) && self.desc.eq_desc(&other.desc)
    }
}

/// Metadata of one table: its id, its name and its columns in declared order.
#[derive(Debug, PartialEq)]
pub struct TableCatalog {
    pub id: String,
    pub name: String,
    pub columns: Vec<ColumnCatalog>,
}

/// The model of a `TableCatalog`.
#[verifier::ext_equal]
pub struct TableCatalogV {
    pub id: Seq<char>,
    pub name: Seq<char>,
    pub columns: Seq<ColumnCatalogV>,
}

impl View for TableCatalog {
    type V = TableCatalogV;

    open spec fn view(&self) -> TableCatalogV {
        TableCatalogV {
            id: self.id@,
            name: self.name@,
            columns: self.columns@.map_values(|c: ColumnCatalog| c@),
        }
    }
}

impl Clone for TableCatalog {
    fn clone(&self) -> (r: Self)
        ensures
            r@ == self@,
    {
        let r = TableCatalog {
            id: self.id.clone(),
            name: self.name.clone(),
            columns: clone_columns(&self.columns),
        };
        proof {
            assert(r@ =~= self@);
        }
        r
    }
}

/// Clone a column list, keeping its model.
pub fn clone_columns(columns: &Vec<ColumnCatalog>) -> (r: Vec<ColumnCatalog>)
    ensures
        r@.map_values(|c: ColumnCatalog| c@) == columns@.map_values(|c: ColumnCatalog| c@),
{
    let mut r: Vec<ColumnCatalog> = Vec::new();
    let mut i: usize = 0;
    while i < columns.len()
        invariant
            i <= columns@.len(),
            r@.len() == i,
            forall|j: int| 0 <= j < i ==> r@[j]@ == columns@[j]@,
        decreases columns@.len() - i,
    {
        r.push(columns[i].clone());
        i += 1;
    }
    proof {
        assert(r@.map_values(|c: ColumnCatalog| c@) =~= columns@.map_values(
            |c: ColumnCatalog| c@,
        ));
    }
    r
}

impl TableCatalogV {
    /// The first column whose id is the lower-cased `name`, if any.
    pub open spec fn lookup_column(self, name: Seq<char>) -> Option<ColumnCatalogV> {
        self.first_column_from(name, 0)
    }

    /// Helper for `lookup_column`: the first match at or after `from`.
    pub open spec fn first_column_from(self, name: Seq<char>, from: int) -> Option<ColumnCatalogV>
        decreases self.columns.len() - from,
    {
        if from < 0 || from >= self.columns.len() {
            None
        } else if matches_lower(name, self.columns[from].id) {
            Some(self.columns[from])
        } else {
            self.first_column_from(name, from + 1)
        }
    }
}

impl TableCatalog {
    /// Resolve a (lower-cased) column name to the first column that carries it.
    pub fn get_column_by_name(&self, name: &str) -> (r: Option<ColumnCatalog>)
        ensures
            match r {
                Some(c) => self@.lookup_column(name@) == Some(c@),
                None => self@.lookup_column(name@) is None,
            },
    {
        let ghost cols = self@.columns;
        let mut i: usize = 0;
        while i < self.columns.len()
            invariant
                i <= self.columns@.len(),
                cols == self@.columns,
                cols.len() == self.columns@.len(),
                forall|j: int| 0 <= j < self.columns@.len() ==> cols[j] == self.columns@[j]@,
                self@.first_column_from(name@, 0) == self@.first_column_from(name@, i as int),
            decreases self.columns@.len() - i,
        {
            if crate::ident::eq_lower(name, self.columns[i].id.as_str()) {
                return Some(self.columns[i].clone());
            }
            i += 1;
        }
        None
    }

    /// All columns, in the catalog's declared order.
    pub fn get_all_columns(&self) -> (r: Vec<ColumnCatalog>)
        ensures
            r@.map_values(|c: ColumnCatalog| c@) == self@.columns,
    {
        let r = clone_columns(&self.columns);
        r
    }
}

/// The root of the catalog: every table the engine knows.
#[derive(Debug)]
pub struct RootCatalog {
    pub tables: Vec<TableCatalog>,
}

/// The model of a `RootCatalog`.
#[verifier::ext_equal]
pub struct RootCatalogV {
    pub tables: Seq<TableCatalogV>,
}

impl View for RootCatalog {
    type V = RootCatalogV;

    open spec fn view(&self) -> RootCatalogV {
        RootCatalogV { tables: self.tables@.map_values(|t: TableCatalog| t@) }
    }
}

impl RootCatalogV {
    /// The first table whose id equals `name`, if any.
    pub open spec fn lookup_table(self, name: Seq<char>) -> Option<TableCatalogV> {
        self.first_table_from(name, 0)
    }

    /// Helper for `lookup_table`: the first match at or after `from`.
    pub open spec fn first_table_from(self, name: Seq<char>, from: int) -> Option<TableCatalogV>
        decreases self.tables.len() - from,
    {
        if from < 0 || from >= self.tables.len() {
            None
        } else if self.tables[from].id == name {
            Some(self.tables[from])
        } else {
            self.first_table_from(name, from + 1)
        }
    }
}

impl RootCatalog {
    /// An empty catalog.
    pub fn new() -> (r: Self)
        ensures
            r@.tables.len() == 0,
    {
        let r = RootCatalog { tables: Vec::new() };
        proof {
            assert(r@.tables =~= Seq::<TableCatalogV>::empty());
        }
        r
    }

    /// Resolve a table name to the first table that carries it as its id.
    pub fn get_table_by_name(&self, name: &str) -> (r: Option<TableCatalog>)
        ensures
            match r {
                Some(t) => self@.lookup_table(name@) == Some(t@),
                None => self@.lookup_table(name@) is None,
            },
    {
        let ghost tabs = self@.tables;
        let mut i: usize = 0;
        while i < self.tables.len()
            invariant
                i <= self.tables@.len(),
                tabs == self@.tables,
                tabs.len() == self.tables@.len(),
                forall|j: int| 0 <= j < self.tables@.len() ==> tabs[j] == self.tables@[j]@,
                self@.first_table_from(name@, 0) == self@.first_table_from(name@, i as int),
            decreases self.tables@.len() - i,
        {
            if crate::ident::str_eq(self.tables[i].id.as_str(), name) {
                return Some(self.tables[i].clone());
            }
            i += 1;
        }
        None
    }
}

} // verus!
