//! The table-scan operator: the leaf of the pipeline, handing out the
//! stored batches of one table until they are exhausted.

use vstd::prelude::*;

use crate::storage::InMemoryTransaction;

verus! {

/// A scan over one table's stored batches, driven by a read transaction.
pub struct TableScanExecutor {
    pub tx: InMemoryTransaction,
}

} // verus!
