//! The scalar value and data type model shared by the binder, the plan tree
//! and the executor.

use vstd::prelude::*;

verus! {

/// The closed set of column data types the engine understands.
#[derive(Debug, Clone, Copy, PartialEq, Eq, Structural)]
pub enum DataType {
    Null,
    Boolean,
    Int32,
    Int64,
    Utf8,
}

/// A typed scalar: the tagged union of the primitive values a column cell can
/// hold. `None` inside a variant is a NULL cell of that variant's type.
#[derive(Debug, PartialEq)]
pub enum ScalarValue {
    Null,
    Boolean(Option<bool>),
    Int32(Option<i32>),
    Int64(Option<i64>),
    Utf8(Option<String>),
}

/// The mathematical model of a `ScalarValue`: strings are modelled as
/// sequences of characters.
pub enum ScalarValueV {
    Null,
    Boolean(Option<bool>),
    Int32(Option<i32>),
    Int64(Option<i64>),
    Utf8(Option<Seq<char>>),
}

impl View for ScalarValue {
    type V = ScalarValueV;

    open spec fn view(&self) -> ScalarValueV {
        match self {
            ScalarValue::Null => ScalarValueV::Null,
            ScalarValue::Boolean(b) => ScalarValueV::Boolean(*b),
            ScalarValue::Int32(i) => ScalarValueV::Int32(*i),
            ScalarValue::Int64(i) => ScalarValueV::Int64(*i),
            ScalarValue::Utf8(s) => ScalarValueV::Utf8(match s {
                Some(s) => Some(s@),
                None => None,
            }),
        }
    }
}

impl ScalarValueV {
    /// The type tag of a scalar model value.
    pub open spec fn data_type(self) -> DataType {
        match self {
            ScalarValueV::Null => DataType::Null,
            ScalarValueV::Boolean(_) => DataType::Boolean,
            ScalarValueV::Int32(_) => DataType::Int32,
            ScalarValueV::Int64(_) => DataType::Int64,
            ScalarValueV::Utf8(_) => DataType::Utf8,
        }
    }
}

impl Clone for ScalarValue {
    /// A copy with the same model.
    fn clone(&self) -> (r: Self)
        ensures
            r@ == self@,
    {
        match self {
            ScalarValue::Null => ScalarValue::Null,
            ScalarValue::Boolean(b) => ScalarValue::Boolean(*b),
            ScalarValue::Int32(i) => ScalarValue::Int32(*i),
            ScalarValue::Int64(i) => ScalarValue::Int64(*i),
            ScalarValue::Utf8(s) => ScalarValue::Utf8(
                match s {
                    Some(s) => Some(s.clone()),
                    None => None,
                },
            ),
        }
    }
}

impl ScalarValue {
    /// The type tag of this scalar.
    pub fn data_type(&self) -> (r: DataType)
        ensures
            r == self@.data_type(),
    {
        match self {
            ScalarValue::Null => DataType::Null,
            ScalarValue::Boolean(_) => DataType::Boolean,
            ScalarValue::Int32(_) => DataType::Int32,
            ScalarValue::Int64(_) => DataType::Int64,
            ScalarValue::Utf8(_) => DataType::Utf8,
        }
    }

    /// Structural equality of two scalars, usable from verified code.
    pub fn eq_scalar(&self, other: &ScalarValue) -> (r: bool)
        ensures
            r == (self@ == other@),
    {
        match (self, other) {
            (ScalarValue::Null, ScalarValue::Null) => true,
            (ScalarValue::Boolean(a), ScalarValue::Boolean(b)) => match (a, b) {
                (Some(x), Some(y)) => x == y,
                (None, None) => true,
                _ => false,
            },
            (ScalarValue::Int32(a), ScalarValue::Int32(b)) => match (a, b) {
                (Some(x), Some(y)) => x == y,
                (None, None) => true,
                _ => false,
            },
            (ScalarValue::Int64(a), ScalarValue::Int64(b)) => match (a, b) {
                (Some(x), Some(y)) => x == y,
                (None, None) => true,
                _ => false,
            },
            (ScalarValue::Utf8(a), ScalarValue::Utf8(b)) => match (a, b) {
                (Some(x), Some(y)) => x.eq(y),
                (None, None) => true,
                _ => false,
            },
            _ => false,
        }
    }
}

} // verus!
