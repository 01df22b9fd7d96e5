//! The type inferencer: given every observed value of one column, decide the
//! column's storage type. Non-blank cells are counted by class; the column is
//! INTEGER when more than four of every five non-blank cells are integer
//! literals, REAL when integer and float literals together pass the same
//! bar, TEXT otherwise (and always TEXT when no cell is non-blank).

use crate::cells::{blank_cell, classify, classify_spec, is_int_lit, CellClass};
use crate::types::{sql_type, sql_type_spec, ColumnType};
use vstd::prelude::*;
use vstd::string::StringExecFns;

verus! {

/// How many cells are not blank.
pub open spec fn count_nonblank(vals: Seq<Seq<char>>) -> int
    decreases vals.len(),
{
    if vals.len() == 0 {
        0
    } else {
        count_nonblank(vals.drop_last()) + if classify_spec(vals.last()) != CellClass::Blank {
            1int
        } else {
            0int
        }
    }
}

/// How many cells are integer literals (blank cells never are).
pub open spec fn count_int(vals: Seq<Seq<char>>) -> int
    decreases vals.len(),
{
    if vals.len() == 0 {
        0
    } else {
        count_int(vals.drop_last()) + if classify_spec(vals.last()) == CellClass::IntLit {
            1int
        } else {
            0int
        }
    }
}

/// How many cells are float literals without being integer literals.
pub open spec fn count_float(vals: Seq<Seq<char>>) -> int
    decreases vals.len(),
{
    if vals.len() == 0 {
        0
    } else {
        count_float(vals.drop_last()) + if classify_spec(vals.last()) == CellClass::FloatLit {
            1int
        } else {
            0int
        }
    }
}

/// The inferred storage type of a column with the given values. A count `c`
/// clears the bar exactly when `c / nonblank > 4/5`, written `5c > 4*nonblank`
/// so that exactly four in five falls short.
pub open spec fn infer_spec(vals: Seq<Seq<char>>) -> ColumnType {
    let ne = count_nonblank(vals);
    if ne == 0 {
        ColumnType::Text
    } else if 5 * count_int(vals) > 4 * ne {
        ColumnType::Integer
    } else if 5 * (count_int(vals) + count_float(vals)) > 4 * ne {
        ColumnType::Real
    } else {
        ColumnType::Text
    }
}

/// Decides one column's storage type from all of its observed values.
pub fn infer_type(values: &[String]) -> (r: ColumnType)
    ensures
        r == infer_spec(values.deep_view()),
{
    let ghost vals = values.deep_view();
    let n = values.len();
    let mut ints: usize = 0;
    let mut floats: usize = 0;
    let mut nonblank: usize = 0;
    for i in 0..n
        invariant
            n == values@.len(),
            vals == values.deep_view(),
            vals.len() == n,
            ints == count_int(vals.take(i as int)),
            floats == count_float(vals.take(i as int)),
            nonblank == count_nonblank(vals.take(i as int)),
            ints + floats <= nonblank <= i,
    {
        proof {
            assert(vals.take(i + 1).drop_last() =~= vals.take(i as int));
            assert(vals.take(i + 1).last() == vals[i as int]);
            assert(vals[i as int] == values@[i as int]@);
        }
        match classify(values[i].as_str()) {
            CellClass::Blank => {},
            CellClass::IntLit => {
                ints += 1;
                nonblank += 1;
            },
            CellClass::FloatLit => {
                floats += 1;
                nonblank += 1;
            },
            CellClass::Other => {
                nonblank += 1;
            },
        }
    }
    proof {
        assert(vals.take(n as int) =~= vals);
    }
    if nonblank == 0 {
        ColumnType::Text
    } else if (ints as u128) * 5 > (nonblank as u128) * 4 {
        ColumnType::Integer
    } else if ((ints as u128) + (floats as u128)) * 5 > (nonblank as u128) * 4 {
        ColumnType::Real
    } else {
        ColumnType::Text
    }
}

/// Decides one column's storage type and returns it as the SQL keyword.
pub fn infer_column_type(values: &[String]) -> (r: String)
    ensures
        r@ == sql_type_spec(infer_spec(values.deep_view())),
{
    String::from_str(sql_type(infer_type(values)))
}

/// The values observed for one column position: the cell at that position of
/// every row that has one (short rows contribute nothing).
pub open spec fn column_spec(rows: Seq<Seq<Seq<char>>>, i: int) -> Seq<Seq<char>>
    decreases rows.len(),
{
    if rows.len() == 0 {
        Seq::empty()
    } else {
        column_spec(rows.drop_last(), i) + if 0 <= i < rows.last().len() {
            seq![rows.last()[i]]
        } else {
            Seq::empty()
        }
    }
}

/// Gathers the values observed for one column position, in row order.
pub fn column_values(records: &Vec<Vec<String>>, i: usize) -> (r: Vec<String>)
    ensures
        r.deep_view() == column_spec(records.deep_view(), i as int),
{
    let ghost rows = records.deep_view();
    let mut out: Vec<String> = Vec::new();
    let n = records.len();
    for j in 0..n
        invariant
            n == records@.len(),
            rows == records.deep_view(),
            rows.len() == n,
            out.deep_view() == column_spec(rows.take(j as int), i as int),
    {
        proof {
            assert(rows.take(j + 1).drop_last() =~= rows.take(j as int));
            assert(rows.take(j + 1).last() == rows[j as int]);
            assert(rows[j as int] == records@[j as int].deep_view());
        }
        let row = &records[j];
        if i < row.len() {
            let ghost before = out.deep_view();
            out.push(row[i].clone());
            proof {
                assert(out.deep_view() =~= before + seq![rows[j as int][i as int]]);
                assert(out.deep_view() =~= column_spec(rows.take(j + 1), i as int));
            }
        } else {
            proof {
                assert(out.deep_view() =~= column_spec(rows.take(j + 1), i as int));
            }
        }
    }
    proof {
        assert(rows.take(n as int) =~= rows);
    }
    out
}

/// The type of every column position: inferred from the observed values when
/// inference is on, TEXT unconditionally when it is off.
pub open spec fn column_types_spec(
    n_columns: int,
    rows: Seq<Seq<Seq<char>>>,
    infer: bool,
) -> Seq<ColumnType> {
    Seq::new(
        n_columns as nat,
        |i: int|
            if infer {
                infer_spec(column_spec(rows, i))
            } else {
                ColumnType::Text
            },
    )
}

/// Decides the storage type of every column position. When inference is off
/// the inferencer is never consulted: every column is TEXT.
pub fn column_types(n_columns: usize, records: &Vec<Vec<String>>, infer: bool) -> (r: Vec<
    ColumnType,
>)
    ensures
        r@ == column_types_spec(n_columns as int, records.deep_view(), infer),
{
    let mut out: Vec<ColumnType> = Vec::new();
    for i in 0..n_columns
        invariant
            out@ =~= column_types_spec(i as int, records.deep_view(), infer).take(i as int),
            out@.len() == i,
    {
        if infer {
            let col = column_values(records, i);
            let sl = col.as_slice();
            proof {
                assert(sl.deep_view() =~= col.deep_view());
            }
            out.push(infer_type(sl));
        } else {
            out.push(ColumnType::Text);
        }
        proof {
            assert(out@ =~= column_types_spec((i + 1) as int, records.deep_view(), infer).take(
                i + 1,
            ));
        }
    }
    proof {
        let full = column_types_spec(n_columns as int, records.deep_view(), infer);
        assert(full.take(n_columns as int) =~= full);
    }
    out
}

/// Law: a column with at least one non-blank cell, all of whose non-blank
/// cells are integer literals, is inferred INTEGER.
pub proof fn lemma_all_int_gives_integer(vals: Seq<Seq<char>>)
    requires
        count_nonblank(vals) > 0,
        forall|i: int| 0 <= i < vals.len() && !blank_cell(vals[i]) ==> is_int_lit(vals[i]),
    ensures
        infer_spec(vals) == ColumnType::Integer,
{
    lemma_all_int_counts(vals);
}

/// Under the hypothesis of lemma_all_int_gives_integer, every non-blank cell
/// counts as an integer literal.
proof fn lemma_all_int_counts(vals: Seq<Seq<char>>)
    requires
        forall|i: int| 0 <= i < vals.len() && !blank_cell(vals[i]) ==> is_int_lit(vals[i]),
    ensures
        count_int(vals) == count_nonblank(vals),
    decreases vals.len(),
{
    if vals.len() > 0 {
        assert forall|i: int|
            0 <= i < vals.drop_last().len() && !blank_cell(vals.drop_last()[i]) implies is_int_lit(
            vals.drop_last()[i],
        ) by {
            assert(vals.drop_last()[i] == vals[i]);
        }
        lemma_all_int_counts(vals.drop_last());
        assert(vals.last() == vals[vals.len() - 1]);
    }
}

/// Law: when exactly four of every five non-blank cells are integer literals
/// and no cell is a float literal, the boundary is not passed and the column
/// is inferred TEXT.
pub proof fn lemma_exact_threshold_gives_text(vals: Seq<Seq<char>>)
    requires
        count_nonblank(vals) > 0,
        5 * count_int(vals) == 4 * count_nonblank(vals),
        count_float(vals) == 0,
    ensures
        infer_spec(vals) == ColumnType::Text,
{
}

/// Law: a column whose cells are all blank is inferred TEXT.
pub proof fn lemma_all_blank_gives_text(vals: Seq<Seq<char>>)
    requires
        forall|i: int| 0 <= i < vals.len() ==> blank_cell(vals[i]),
    ensures
        infer_spec(vals) == ColumnType::Text,
{
    lemma_all_blank_counts(vals);
}

/// Under the hypothesis of lemma_all_blank_gives_text, no cell counts as
/// non-blank.
proof fn lemma_all_blank_counts(vals: Seq<Seq<char>>)
    requires
        forall|i: int| 0 <= i < vals.len() ==> blank_cell(vals[i]),
    ensures
        count_nonblank(vals) == 0,
    decreases vals.len(),
{
    if vals.len() > 0 {
        assert forall|i: int| 0 <= i < vals.drop_last().len() implies blank_cell(
            vals.drop_last()[i],
        ) by {
            assert(vals.drop_last()[i] == vals[i]);
        }
        lemma_all_blank_counts(vals.drop_last());
        assert(vals.last() == vals[vals.len() - 1]);
    }
}

} // verus!
