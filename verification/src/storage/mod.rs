//! Storage: tables of columnar batches, read through transactions that hand
//! out one batch at a time. Batches are loaded into memory by whatever front
//! end feeds the engine (for instance a CSV loader).

use vstd::prelude::*;

use crate::catalog::{ColumnCatalog, ColumnDesc, RootCatalog, RootCatalogV, TableCatalog,
    TableCatalogV};
use crate::executor::batch::{Batch, BatchV};
use crate::ident::str_eq;

verus! {

/// Why a storage operation failed.
#[derive(Debug, PartialEq)]
pub enum StorageError {
    /// No table with the given id exists.
    TableNotFound(String),
}

/// The model of a `StorageError`.
#[verifier::ext_equal]
pub enum StorageErrorV {
    TableNotFound(Seq<char>),
}

impl View for StorageError {
    type V = StorageErrorV;

    open spec fn view(&self) -> StorageErrorV {
        match self {
            StorageError::TableNotFound(s) => StorageErrorV::TableNotFound(s@),
        }
    }
}

/// One stored table: its catalog entry and its loaded batches.
#[derive(Debug)]
pub struct InMemoryTable {
    pub catalog: TableCatalog,
    pub batches: Vec<Batch>,
}

/// The model of an `InMemoryTable`.
#[verifier::ext_equal]
pub struct InMemoryTableV {
    pub catalog: TableCatalogV,
    pub batches: Seq<BatchV>,
}

impl View for InMemoryTable {
    type V = InMemoryTableV;

    open spec fn view(&self) -> InMemoryTableV {
        InMemoryTableV {
            catalog: self.catalog@,
            batches: self.batches@.map_values(|b: Batch| b@),
        }
    }
}

/// Clone a batch list, keeping its model.
pub fn clone_batches(batches: &Vec<Batch>) -> (r: Vec<Batch>)
    ensures
        r@.map_values(|b: Batch| b@) == batches@.map_values(|b: Batch| b@),
{
    let mut r: Vec<Batch> = Vec::new();
    let mut i: usize = 0;
    while i < batches.len()
        invariant
            i <= batches@.len(),
            r@.len() == i,
            forall|j: int| 0 <= j < i ==> r@[j]@ == batches@[j]@,
        decreases batches@.len() - i,
    {
        r.push(batches[i].clone());
        i += 1;
    }
    proof {
        assert(r@.map_values(|b: Batch| b@) =~= batches@.map_values(|b: Batch| b@));
    }
    r
}

impl Clone for InMemoryTable {
    /// A deep copy with the same model.
    fn clone(&self) -> (r: Self)
        ensures
            r@ == self@,
    {
        let r = InMemoryTable {
            catalog: self.catalog.clone(),
            batches: clone_batches(&self.batches),
        };
        proof {
            assert(r@ =~= self@);
        }
        r
    }
}

/// An in-memory table store.
#[derive(Debug)]
pub struct InMemoryStorage {
    pub tables: Vec<InMemoryTable>,
}

/// The model of an `InMemoryStorage`.
#[verifier::ext_equal]
pub struct InMemoryStorageV {
    pub tables: Seq<InMemoryTableV>,
}

impl View for InMemoryStorage {
    type V = InMemoryStorageV;

    open spec fn view(&self) -> InMemoryStorageV {
        InMemoryStorageV { tables: self.tables@.map_values(|t: InMemoryTable| t@) }
    }
}

impl InMemoryStorageV {
    /// The first stored table whose catalog id equals `id`, if any.
    pub open spec fn lookup(self, id: Seq<char>) -> Option<InMemoryTableV> {
        self.lookup_from(id, 0)
    }

    /// Helper for `lookup`: the first match at or after `from`.
    pub open spec fn lookup_from(self, id: Seq<char>, from: int) -> Option<InMemoryTableV>
        decreases self.tables.len() - from,
    {
        if from < 0 || from >= self.tables.len() {
            None
        } else if self.tables[from].catalog.id == id {
            Some(self.tables[from])
        } else {
            self.lookup_from(id, from + 1)
        }
    }
}

impl InMemoryStorage {
    /// An empty store.
    pub fn new() -> (r: Self)
        ensures
            r@.tables.len() == 0,
    {
        let r = InMemoryStorage { tables: Vec::new() };
        proof {
            assert(r@.tables =~= Seq::<InMemoryTableV>::empty());
        }
        r
    }

    /// Add a table under its catalog id, after any table already stored.
    pub fn create_table(&mut self, catalog: TableCatalog, batches: Vec<Batch>)
        ensures
            final(self)@.tables == old(self)@.tables.push(
                InMemoryTableV {
                    catalog: catalog@,
                    batches: batches@.map_values(|b: Batch| b@),
                },
            ),
    {
        let ghost pre = self@.tables;
        self.tables.push(InMemoryTable { catalog, batches });
        proof {
            assert(self@.tables =~= pre.push(
                InMemoryTableV {
                    catalog: catalog@,
                    batches: batches@.map_values(|b: Batch| b@),
                },
            ));
        }
    }

    /// The catalog of everything stored, in storage order.
    pub fn get_catalog(&self) -> (r: RootCatalog)
        ensures
            r@.tables.len() == self@.tables.len(),
            forall|i: int| 0 <= i < r@.tables.len() ==> r@.tables[i] == self@.tables[i].catalog,
    {
        let mut tables: Vec<TableCatalog> = Vec::new();
        let mut i: usize = 0;
        while i < self.tables.len()
            invariant
                i <= self.tables@.len(),
                tables@.len() == i,
                forall|j: int| 0 <= j < i ==> tables@[j]@ == self.tables@[j]@.catalog,
            decreases self.tables@.len() - i,
        {
            tables.push(self.tables[i].catalog.clone());
            i += 1;
        }
        RootCatalog { tables }
    }

    /// A deep copy of the whole store, with the same model.
    pub fn clone_storage(&self) -> (r: Self)
        ensures
            r@ == self@,
    {
        let mut tables: Vec<InMemoryTable> = Vec::new();
        let mut i: usize = 0;
        while i < self.tables.len()
            invariant
                i <= self.tables@.len(),
                tables@.len() == i,
                forall|j: int| 0 <= j < i ==> tables@[j]@ == self.tables@[j]@,
            decreases self.tables@.len() - i,
        {
            tables.push(self.tables[i].clone());
            i += 1;
        }
        let r = InMemoryStorage { tables };
        proof {
            assert(r@ =~= self@);
        }
        r
    }

    /// Fetch the table stored under `id`; every other id is unknown.
    pub fn get_table(&self, id: &str) -> (r: Result<InMemoryTable, StorageError>)
        ensures
            match r {
                Ok(t) => self@.lookup(id@) == Some(t@),
                Err(e) => self@.lookup(id@) is None && e@ == StorageErrorV::TableNotFound(id@),
            },
    {
        let ghost stv = self@;
        let n = self.tables.len();
        let mut i: usize = 0;
        #[verifier::loop_isolation(false)]
        while i < n
            invariant
                i <= n,
                stv.lookup_from(id@, 0) == stv.lookup_from(id@, i as int),
            decreases n - i,
        {
            proof {
                assert(stv.tables[i as int] == self.tables@[i as int]@);
            }
            if str_eq(self.tables[i].catalog.id.as_str(), id) {
                return Ok(self.tables[i].clone());
            }
            i += 1;
        }
        Err(StorageError::TableNotFound(id.to_owned()))
    }
}

/// The storage back ends a table scan can run against, selected by tag.
pub enum StorageImpl {
    InMemoryStorage(InMemoryStorage),
}

/// How a delimited file is read into batches by a CSV front end.
#[derive(Debug, PartialEq)]
pub struct CsvConfig {
    pub has_header: bool,
    pub delimiter: u8,
    pub infer_schema_max_read_records: Option<usize>,
    pub batch_size: usize,
    pub projection: Option<Vec<usize>>,
    pub datetime_format: Option<String>,
}

impl Default for CsvConfig {
    /// Comma-separated, with a header row, schema inferred from the first
    /// ten records, read in batches of 1024 rows.
    fn default() -> (r: Self)
        ensures
            r.has_header == true,
            r.delimiter == 44u8,
            r.infer_schema_max_read_records == Some(10usize),
            r.batch_size == 1024usize,
            r.projection is None,
            r.datetime_format is None,
    {
        CsvConfig {
            has_header: true,
            delimiter: 44,
            infer_schema_max_read_records: Some(10),
            batch_size: 1024,
            projection: None,
            datetime_format: None,
        }
    }
}

/// A read pass over one table: hands out the table's batches one at a time,
/// then reports exhaustion exactly once.
#[derive(Debug)]
pub struct InMemoryTransaction {
    pub batches: Vec<Batch>,
    pub cursor: usize,
}

impl InMemoryTransaction {
    /// The batches this transaction has not handed out yet.
    pub open spec fn pending(self) -> Seq<BatchV>
        recommends
            self.cursor <= self.batches@.len(),
    {
        self.batches@.map_values(|b: Batch| b@).skip(self.cursor as int)
    }

    /// The cursor never passes the end.
    pub open spec fn wf(self) -> bool {
        self.cursor <= self.batches@.len()
    }

    /// Begin a read pass over a table.
    pub fn start(table: &InMemoryTable) -> (r: Self)
        ensures
            r.wf(),
            r.pending() == table@.batches,
    {
        let r = InMemoryTransaction { batches: clone_batches(&table.batches), cursor: 0 };
        proof {
            assert(r.pending() =~= table@.batches);
        }
        r
    }

    /// The next batch, or `None` at exhaustion.
    pub fn next_batch(&mut self) -> (r: Result<Option<Batch>, StorageError>)
        requires
            old(self).wf(),
        ensures
            final(self).wf(),
            match r {
                Ok(Some(b)) => old(self).pending().len() > 0 && b@ == old(self).pending()[0]
                    && final(self).pending() == old(self).pending().drop_first(),
                Ok(None) => old(self).pending().len() == 0 && final(self).pending() == old(
                    self,
                ).pending(),
                Err(_) => false,
            },
    {
        if self.cursor < self.batches.len() {
            let b = self.batches[self.cursor].clone();
            self.cursor = self.cursor + 1;
            proof {
                assert(self.pending() =~= old(self).pending().drop_first());
            }
            Ok(Some(b))
        } else {
            Ok(None)
        }
    }
}

impl InMemoryTable {
    /// Begin a read pass over this table.
    pub fn read(&self) -> (r: Result<InMemoryTransaction, StorageError>)
        ensures
            match r {
                Ok(tx) => tx.wf() && tx.pending() == self@.batches,
                Err(_) => false,
            },
    {
        Ok(InMemoryTransaction::start(self))
    }
}

/// The catalog entry a table with the given fields gets: one column per
/// field, in field order, each column's id being its field name.
pub fn infer_catalog(id: String, name: String, fields: &Vec<ColumnDesc>) -> (r: TableCatalog)
    ensures
        r@.id == id@,
        r@.name == name@,
        r@.columns.len() == fields@.len(),
        forall|i: int|
            0 <= i < fields@.len() ==> r@.columns[i] == (crate::catalog::ColumnCatalogV {
                id: fields@[i]@.name,
                desc: fields@[i]@,
            }),
{
    let mut columns: Vec<ColumnCatalog> = Vec::new();
    let mut i: usize = 0;
    while i < fields.len()
        invariant
            i <= fields@.len(),
            columns@.len() == i,
            forall|j: int|
                0 <= j < i ==> columns@[j]@ == (crate::catalog::ColumnCatalogV {
                    id: fields@[j]@.name,
                    desc: fields@[j]@,
                }),
        decreases fields@.len() - i,
    {
        let f = &fields[i];
        columns.push(ColumnCatalog { id: f.name.clone(), desc: f.clone() });
        i += 1;
    }
    TableCatalog { id, name, columns }
}

} // verus!
