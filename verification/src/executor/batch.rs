//! Columnar batches: a fixed-schema block of rows, stored column by column,
//! processed as a unit through the pipeline.

use vstd::prelude::*;

use crate::catalog::{ColumnDesc, ColumnDescV};
use crate::types::{DataType, ScalarValue, ScalarValueV};

verus! {

/// One column of a batch: a typed vector of cells, `None` being NULL. A
/// `Null` column is a run of untyped NULLs, kept only by its length.
#[derive(Debug, PartialEq)]
pub enum Column {
    Boolean(Vec<Option<bool>>),
    Int32(Vec<Option<i32>>),
    Int64(Vec<Option<i64>>),
    Utf8(Vec<Option<String>>),
    Null(usize),
}

/// The model of a `Column`.
#[verifier::ext_equal]
pub enum ColumnV {
    Boolean(Seq<Option<bool>>),
    Int32(Seq<Option<i32>>),
    Int64(Seq<Option<i64>>),
    Utf8(Seq<Option<Seq<char>>>),
    Null(nat),
}

/// The models of a vector of string cells.
pub open spec fn strings_view(v: Seq<Option<String>>) -> Seq<Option<Seq<char>>> {
    v.map_values(
        |c: Option<String>|
            match c {
                Some(s) => Some(s@),
                None => None,
            },
    )
}

impl View for Column {
    type V = ColumnV;

    open spec fn view(&self) -> ColumnV {
        match self {
            Column::Boolean(v) => ColumnV::Boolean(v@),
            Column::Int32(v) => ColumnV::Int32(v@),
            Column::Int64(v) => ColumnV::Int64(v@),
            Column::Utf8(v) => ColumnV::Utf8(strings_view(v@)),
            Column::Null(n) => ColumnV::Null(*n as nat),
        }
    }
}

impl ColumnV {
    /// The number of cells in the column.
    pub open spec fn len(self) -> nat {
        match self {
            ColumnV::Boolean(v) => v.len(),
            ColumnV::Int32(v) => v.len(),
            ColumnV::Int64(v) => v.len(),
            ColumnV::Utf8(v) => v.len(),
            ColumnV::Null(n) => n,
        }
    }

    /// The element type of the column.
    pub open spec fn data_type(self) -> DataType {
        match self {
            ColumnV::Boolean(_) => DataType::Boolean,
            ColumnV::Int32(_) => DataType::Int32,
            ColumnV::Int64(_) => DataType::Int64,
            ColumnV::Utf8(_) => DataType::Utf8,
            ColumnV::Null(_) => DataType::Null,
        }
    }
}

impl Column {
    /// The number of cells in the column.
    pub fn len(&self) -> (r: usize)
        ensures
            r == self@.len(),
    {
        match self {
            Column::Boolean(v) => v.len(),
            Column::Int32(v) => v.len(),
            Column::Int64(v) => v.len(),
            Column::Utf8(v) => v.len(),
            Column::Null(n) => *n,
        }
    }

    /// The element type of the column.
    pub fn data_type(&self) -> (r: DataType)
        ensures
            r == self@.data_type(),
    {
        match self {
            Column::Boolean(_) => DataType::Boolean,
            Column::Int32(_) => DataType::Int32,
            Column::Int64(_) => DataType::Int64,
            Column::Utf8(_) => DataType::Utf8,
            Column::Null(_) => DataType::Null,
        }
    }
}

/// Clone a vector of string cells, keeping its model.
pub fn clone_string_cells(v: &Vec<Option<String>>) -> (r: Vec<Option<String>>)
    ensures
        strings_view(r@) == strings_view(v@),
        r@.len() == v@.len(),
{
    let mut r: Vec<Option<String>> = Vec::new();
    let mut i: usize = 0;
    while i < v.len()
        invariant
            i <= v@.len(),
            r@.len() == i,
            forall|j: int|
                0 <= j < i ==> match (#[trigger] r@[j], v@[j]) {
                    (Some(a), Some(b)) => a@ == b@,
                    (None, None) => true,
                    _ => false,
                },
        decreases v@.len() - i,
    {
        let cell = match &v[i] {
            Some(s) => Some(s.clone()),
            None => None,
        };
        r.push(cell);
        i += 1;
    }
    proof {
        assert(strings_view(r@) =~= strings_view(v@));
    }
    r
}

impl Clone for Column {
    /// A deep copy with the same model.
    fn clone(&self) -> (r: Self)
        ensures
            r@ == self@,
    {
        match self {
            Column::Boolean(v) => Column::Boolean(v.clone()),
            Column::Int32(v) => Column::Int32(v.clone()),
            Column::Int64(v) => Column::Int64(v.clone()),
            Column::Utf8(v) => Column::Utf8(clone_string_cells(v)),
            Column::Null(n) => Column::Null(*n),
        }
    }
}

/// A batch: named, typed fields and one equally long column per field.
#[derive(Debug, PartialEq)]
pub struct Batch {
    pub fields: Vec<ColumnDesc>,
    pub columns: Vec<Column>,
}

/// The model of a `Batch`.
#[verifier::ext_equal]
pub struct BatchV {
    pub fields: Seq<ColumnDescV>,
    pub columns: Seq<ColumnV>,
}

impl View for Batch {
    type V = BatchV;

    open spec fn view(&self) -> BatchV {
        BatchV {
            fields: self.fields@.map_values(|c: ColumnDesc| c@),
            columns: self.columns@.map_values(|c: Column| c@),
        }
    }
}

impl BatchV {
    /// The number of rows: the length of the first column, or zero for a
    /// batch with no columns.
    pub open spec fn num_rows(self) -> nat {
        if self.columns.len() == 0 {
            0
        } else {
            self.columns[0].len()
        }
    }

    /// Well-formed: one field per column, every column equally long.
    pub open spec fn wf(self) -> bool {
        &&& self.fields.len() == self.columns.len()
        &&& forall|i: int| 0 <= i < self.columns.len() ==> #[trigger] self.columns[i].len()
            == self.num_rows()
    }
}

impl Batch {
    /// The number of rows in the batch.
    pub fn num_rows(&self) -> (r: usize)
        ensures
            r == self@.num_rows(),
    {
        if self.columns.len() == 0 {
            0
        } else {
            self.columns[0].len()
        }
    }

    /// The number of columns in the batch.
    pub fn num_columns(&self) -> (r: usize)
        ensures
            r == self@.columns.len(),
    {
        self.columns.len()
    }
}

impl Clone for Batch {
    /// A deep copy with the same model.
    fn clone(&self) -> (r: Self)
        ensures
            r@ == self@,
    {
        let mut fields: Vec<ColumnDesc> = Vec::new();
        let mut i: usize = 0;
        while i < self.fields.len()
            invariant
                i <= self.fields@.len(),
                fields@.len() == i,
                forall|j: int| 0 <= j < i ==> fields@[j]@ == self.fields@[j]@,
            decreases self.fields@.len() - i,
        {
            fields.push(self.fields[i].clone());
            i += 1;
        }
        let mut columns: Vec<Column> = Vec::new();
        let mut k: usize = 0;
        while k < self.columns.len()
            invariant
                k <= self.columns@.len(),
                columns@.len() == k,
                forall|j: int| 0 <= j < k ==> columns@[j]@ == self.columns@[j]@,
            decreases self.columns@.len() - k,
        {
            columns.push(self.columns[k].clone());
            k += 1;
        }
        let r = Batch { fields, columns };
        proof {
            assert(r@ =~= self@);
        }
        r
    }
}

/// The column a scalar broadcast to `n` rows fills.
pub open spec fn spec_broadcast(v: ScalarValueV, n: nat) -> ColumnV {
    match v {
        ScalarValueV::Null => ColumnV::Null(n),
        ScalarValueV::Boolean(b) => ColumnV::Boolean(Seq::new(n, |i: int| b)),
        ScalarValueV::Int32(x) => ColumnV::Int32(Seq::new(n, |i: int| x)),
        ScalarValueV::Int64(x) => ColumnV::Int64(Seq::new(n, |i: int| x)),
        ScalarValueV::Utf8(s) => ColumnV::Utf8(Seq::new(n, |i: int| s)),
    }
}

/// Broadcast a scalar to a column of `capacity` identical cells.
pub fn build_scalar_value_array(scalar_value: &ScalarValue, capacity: usize) -> (r: Column)
    ensures
        r@ == spec_broadcast(scalar_value@, capacity as nat),
{
    match scalar_value {
        ScalarValue::Null => Column::Null(capacity),
        ScalarValue::Boolean(b) => {
            let mut v: Vec<Option<bool>> = Vec::new();
            let mut i: usize = 0;
            while i < capacity
                invariant
                    i <= capacity,
                    v@.len() == i,
                    forall|j: int| 0 <= j < i ==> v@[j] == *b,
                decreases capacity - i,
            {
                v.push(*b);
                i += 1;
            }
            proof {
                assert(v@ =~= Seq::new(capacity as nat, |i: int| *b));
            }
            Column::Boolean(v)
        },
        ScalarValue::Int32(x) => {
            let mut v: Vec<Option<i32>> = Vec::new();
            let mut i: usize = 0;
            while i < capacity
                invariant
                    i <= capacity,
                    v@.len() == i,
                    forall|j: int| 0 <= j < i ==> v@[j] == *x,
                decreases capacity - i,
            {
                v.push(*x);
                i += 1;
            }
            proof {
                assert(v@ =~= Seq::new(capacity as nat, |i: int| *x));
            }
            Column::Int32(v)
        },
        ScalarValue::Int64(x) => {
            let mut v: Vec<Option<i64>> = Vec::new();
            let mut i: usize = 0;
            while i < capacity
                invariant
                    i <= capacity,
                    v@.len() == i,
                    forall|j: int| 0 <= j < i ==> v@[j] == *x,
                decreases capacity - i,
            {
                v.push(*x);
                i += 1;
            }
            proof {
                assert(v@ =~= Seq::new(capacity as nat, |i: int| *x));
            }
            Column::Int64(v)
        },
        ScalarValue::Utf8(s) => {
            let ghost sv = scalar_value@->Utf8_0;
            let mut v: Vec<Option<String>> = Vec::new();
            let mut i: usize = 0;
            while i < capacity
                invariant
                    i <= capacity,
                    v@.len() == i,
                    sv == (match s {
                        Some(s) => Some(s@),
                        None => None,
                    }),
                    forall|j: int| 0 <= j < i ==> strings_view(v@)[j] == sv,
                decreases capacity - i,
            {
                let cell = match s {
                    Some(s) => Some(s.clone()),
                    None => None,
                };
                let ghost pre = v@;
                v.push(cell);
                proof {
                    assert(strings_view(v@) =~= strings_view(pre).push(
                        match cell {
                            Some(ref c) => Some(c@),
                            None => None,
                        },
                    ));
                }
                i += 1;
            }
            proof {
                assert(strings_view(v@) =~= Seq::new(capacity as nat, |i: int| sv));
            }
            Column::Utf8(v)
        },
    }
}

} // verus!
