//! Rendering of batches as plain text, one row per line, cells separated by
//! single spaces.

use vstd::prelude::*;

use crate::executor::batch::{Batch, BatchV, Column, ColumnV};

verus! {

/// The decimal digit character for `d`.
pub open spec fn digit_char(d: nat) -> char {
    ((48 + d) as u32) as char
}

/// The decimal digits of `n`, most significant first.
pub open spec fn dec_digits(n: nat) -> Seq<char>
    decreases n,
{
    if n < 10 {
        seq![digit_char(n)]
    } else {
        dec_digits(n / 10).push(digit_char(n % 10))
    }
}

/// The decimal rendering of a signed value.
pub open spec fn dec_str(v: int) -> Seq<char> {
    if v < 0 {
        seq!['-'] + dec_digits((-v) as nat)
    } else {
        dec_digits(v as nat)
    }
}

/// The text of one cell: `NULL` for a NULL cell, `true`/`false` for
/// booleans, decimal digits for integers, the string itself for text.
pub open spec fn cell_str(col: ColumnV, row: int) -> Seq<char> {
    match col {
        ColumnV::Boolean(v) => match v[row] {
            Some(true) => "true"@,
            Some(false) => "false"@,
            None => "NULL"@,
        },
        ColumnV::Int32(v) => match v[row] {
            Some(x) => dec_str(x as int),
            None => "NULL"@,
        },
        ColumnV::Int64(v) => match v[row] {
            Some(x) => dec_str(x as int),
            None => "NULL"@,
        },
        ColumnV::Utf8(v) => match v[row] {
            Some(s) => s,
            None => "NULL"@,
        },
        ColumnV::Null(_) => "NULL"@,
    }
}

/// The text of one row's first `upto` cells, space-separated.
pub open spec fn row_str(batch: BatchV, row: int, upto: int) -> Seq<char>
    decreases upto,
{
    if upto <= 0 {
        Seq::empty()
    } else if upto == 1 {
        cell_str(batch.columns[0], row)
    } else {
        row_str(batch, row, upto - 1) + seq![' '] + cell_str(batch.columns[upto - 1], row)
    }
}

/// The text of the batch's first `upto` rows, each row ending in a newline.
pub open spec fn rows_str(batch: BatchV, upto: int) -> Seq<char>
    decreases upto,
{
    if upto <= 0 {
        Seq::empty()
    } else {
        rows_str(batch, upto - 1) + row_str(batch, upto - 1, batch.columns.len() as int) + seq![
            '\n',
        ]
    }
}

/// The text of a whole batch.
pub open spec fn batch_str(batch: BatchV) -> Seq<char> {
    rows_str(batch, batch.num_rows() as int)
}

/// The one-character string of a decimal digit.
fn digit_str(d: u64) -> (r: &'static str)
    requires
        d < 10,
    ensures
        r@ == seq![digit_char(d as nat)],
{
    let r: &'static str = match d {
        0 => "0",
        1 => "1",
        2 => "2",
        3 => "3",
        4 => "4",
        5 => "5",
        6 => "6",
        7 => "7",
        8 => "8",
        _ => "9",
    };
    proof {
        reveal_strlit("0");
        reveal_strlit("1");
        reveal_strlit("2");
        reveal_strlit("3");
        reveal_strlit("4");
        reveal_strlit("5");
        reveal_strlit("6");
        reveal_strlit("7");
        reveal_strlit("8");
        reveal_strlit("9");
        assert(r@ =~= seq![digit_char(d as nat)]);
    }
    r
}

/// Append the decimal digits of `n`.
fn append_u64(out: &mut String, n: u64)
    ensures
        final(out)@ == old(out)@ + dec_digits(n as nat),
    decreases n,
{
    if n < 10 {
        out.append(digit_str(n));
        proof {
            assert(out@ =~= old(out)@ + dec_digits(n as nat));
        }
    } else {
        append_u64(out, n / 10);
        out.append(digit_str(n % 10));
        proof {
            assert(out@ =~= old(out)@ + (dec_digits(n as nat / 10).push(
                digit_char(n as nat % 10),
            )));
        }
    }
}

/// Append the decimal rendering of a 64-bit value.
fn append_i64(out: &mut String, v: i64)
    ensures
        final(out)@ == old(out)@ + dec_str(v as int),
{
    if v >= 0 {
        append_u64(out, v as u64);
    } else {
        let minus: &'static str = "-";
        proof {
            reveal_strlit("-");
        }
        out.append(minus);
        let magnitude: u64 = if v == -9223372036854775807i64 - 1 {
            9223372036854775808u64
        } else {
            (-v) as u64
        };
        append_u64(out, magnitude);
        proof {
            assert(out@ =~= old(out)@ + (seq!['-'] + dec_digits((-(v as int)) as nat)));
        }
    }
}

/// Append the text of one cell.
fn append_cell(out: &mut String, col: &Column, row: usize)
    requires
        row < col@.len(),
    ensures
        final(out)@ == old(out)@ + cell_str(col@, row as int),
{
    let null_text: &'static str = "NULL";
    proof {
        reveal_strlit("NULL");
        reveal_strlit("true");
        reveal_strlit("false");
    }
    match col {
        Column::Boolean(v) => match v[row] {
            Some(true) => out.append("true"),
            Some(false) => out.append("false"),
            None => out.append(null_text),
        },
        Column::Int32(v) => match v[row] {
            Some(x) => append_i64(out, x as i64),
            None => out.append(null_text),
        },
        Column::Int64(v) => match v[row] {
            Some(x) => append_i64(out, x),
            None => out.append(null_text),
        },
        Column::Utf8(v) => match &v[row] {
            Some(s) => {
                proof {
                    assert(col@->Utf8_0[row as int] == Some(s@));
                }
                out.append(s.as_str())
            },
            None => out.append(null_text),
        },
        Column::Null(_) => out.append(null_text),
    }
}

/// Render a batch as text: one line per row, cells in column order
/// separated by single spaces, NULL cells written as `NULL`.
pub fn record_batch_to_string(batch: &Batch) -> (r: String)
    requires
        batch@.wf(),
    ensures
        r@ == batch_str(batch@),
{
    let rows = batch.num_rows();
    let cols = batch.num_columns();
    let mut out = String::new();
    proof {
        assert(out@ =~= rows_str(batch@, 0));
    }
    let mut row: usize = 0;
    #[verifier::loop_isolation(false)]
    while row < rows
        invariant
            row <= rows,
            out@ == rows_str(batch@, row as int),
        decreases rows - row,
    {
        let ghost row_start = out@;
        let mut col: usize = 0;
        #[verifier::loop_isolation(false)]
        while col < cols
            invariant
                col <= cols,
                out@ == row_start + row_str(batch@, row as int, col as int),
            decreases cols - col,
        {
            if col != 0 {
                let space: &'static str = " ";
                proof {
                    reveal_strlit(" ");
                }
                out.append(space);
            }
            proof {
                assert(batch@.columns[col as int] == batch.columns@[col as int]@);
                assert(batch@.columns[col as int].len() == batch@.num_rows());
            }
            append_cell(&mut out, &batch.columns[col], row);
            proof {
                if col == 0 {
                    assert(row_start + row_str(batch@, row as int, 0) =~= row_start);
                    assert(row_start + row_str(batch@, row as int, 1) =~= out@);
                } else {
                    assert(row_start + (row_str(batch@, row as int, col as int) + seq![' ']
                        + cell_str(batch@.columns[col as int], row as int)) =~= out@);
                }
            }
            col += 1;
        }
        let newline: &'static str = "\n";
        proof {
            reveal_strlit("\n");
        }
        out.append(newline);
        proof {
            assert(rows_str(batch@, row + 1) =~= (rows_str(batch@, row as int) + row_str(
                batch@,
                row as int,
                batch@.columns.len() as int,
            )) + newline@);
        }
        row += 1;
    }
    out
}

} // verus!
