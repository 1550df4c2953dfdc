//! Projecting the requested columns out of the rows of an answer.

use crate::codec::{Decode, DeepCopy};
use crate::error::{modelled, DecodeError, ProjectionError, ProjectionFault, QueryError};
use crate::json::{find, position, Json, JsonModel};
use crate::models::blocks::{Blocks, BlocksModel};
use crate::models::database::{Column, ColumnModel, DatabaseQueryResponse, Row, RowModel};
use vstd::prelude::*;

verus! {

/// The value of the cell named `name` in a row, or what is wrong with it.
/// Where a row names a column twice, the last cell counts.
pub open spec fn cell_value(row: RowModel, name: Seq<char>) -> Result<
    BlocksModel,
    ProjectionFault,
> {
    match row.properties {
        None => Err(ProjectionFault::MissingColumn),
        Some(cells) => match find(cells, name, cells.len()) {
            None => Err(ProjectionFault::MissingColumn),
            Some(i) => match cells[i].1.block {
                None => Err(ProjectionFault::AbsentValue),
                Some(block) => Ok(block),
            },
        },
    }
}

/// The first of the first `n` columns that the row has no value for.
pub open spec fn first_fault(row: RowModel, columns: Seq<ColumnModel>, n: nat) -> Option<int>
    decreases n,
{
    if n == 0 {
        None
    } else {
        match first_fault(row, columns, (n - 1) as nat) {
            Some(j) => Some(j),
            None => if cell_value(row, columns[n - 1].name) is Err {
                Some(n - 1)
            } else {
                None
            },
        }
    }
}

/// The values of a row for the columns, each under the name of its column,
/// in the order of the columns.
pub open spec fn row_values(row: RowModel, columns: Seq<ColumnModel>) -> Seq<
    (Seq<char>, BlocksModel),
> {
    Seq::new(columns.len(), |j: int| (columns[j].name, cell_value(row, columns[j].name)->Ok_0))
}

/// The first of the first `n` rows that lacks a value for one of the
/// columns.
pub open spec fn first_bad_row(rows: Seq<RowModel>, columns: Seq<ColumnModel>, n: nat) -> Option<
    int,
>
    decreases n,
{
    if n == 0 {
        None
    } else {
        match first_bad_row(rows, columns, (n - 1) as nat) {
            Some(i) => Some(i),
            None => if first_fault(rows[n - 1], columns, columns.len()) is Some {
                Some(n - 1)
            } else {
                None
            },
        }
    }
}

/// The projection of the rows on the columns: the values of every row, in
/// the order of the rows; or, where a value is missing, the place of the
/// first one that is, by rows and then by columns.
pub open spec fn projection(rows: Seq<RowModel>, columns: Seq<ColumnModel>) -> Result<
    Seq<Seq<(Seq<char>, BlocksModel)>>,
    ProjectionError,
> {
    match first_bad_row(rows, columns, rows.len()) {
        Some(i) => {
            let j = first_fault(rows[i], columns, columns.len())->Some_0;
            Err(
                ProjectionError {
                    row: i as usize,
                    column: j as usize,
                    fault: cell_value(rows[i], columns[j].name)->Err_0,
                },
            )
        },
        None => Ok(Seq::new(rows.len(), |i: int| row_values(rows[i], columns))),
    }
}

/// A fault that is the first among `n` columns is the first among more.
pub proof fn lemma_first_fault_stays(
    row: RowModel,
    columns: Seq<ColumnModel>,
    n: nat,
    m: nat,
)
    requires
        n <= m,
        first_fault(row, columns, n) is Some,
    ensures
        first_fault(row, columns, m) == first_fault(row, columns, n),
    decreases m,
{
    if n < m {
        lemma_first_fault_stays(row, columns, n, (m - 1) as nat);
    }
}

/// Where no fault is found among `n` columns, each of them has a value;
/// where one is found, it is among them, it is a fault, and the columns
/// before it have values.
pub proof fn lemma_first_fault(row: RowModel, columns: Seq<ColumnModel>, n: nat)
    ensures
        match first_fault(row, columns, n) {
            Some(j) => 0 <= j < n && cell_value(row, columns[j].name) is Err && forall|k: int|
                0 <= k < j ==> cell_value(row, #[trigger] columns[k].name) is Ok,
            None => forall|k: int| 0 <= k < n ==> cell_value(row, #[trigger] columns[k].name) is Ok,
        },
    decreases n,
{
    if n > 0 {
        lemma_first_fault(row, columns, (n - 1) as nat);
    }
}

/// A bad row that is the first among `n` rows is the first among more.
pub proof fn lemma_first_bad_row_stays(
    rows: Seq<RowModel>,
    columns: Seq<ColumnModel>,
    n: nat,
    m: nat,
)
    requires
        n <= m,
        first_bad_row(rows, columns, n) is Some,
    ensures
        first_bad_row(rows, columns, m) == first_bad_row(rows, columns, n),
    decreases m,
{
    if n < m {
        lemma_first_bad_row_stays(rows, columns, n, (m - 1) as nat);
    }
}

/// Where no bad row is found among `n` rows, none of them has a fault;
/// where one is found, it is among them and has a fault.
pub proof fn lemma_first_bad_row(rows: Seq<RowModel>, columns: Seq<ColumnModel>, n: nat)
    ensures
        match first_bad_row(rows, columns, n) {
            Some(i) => 0 <= i < n && first_fault(rows[i], columns, columns.len()) is Some,
            None => forall|k: int|
                0 <= k < n ==> first_fault(#[trigger] rows[k], columns, columns.len()) is None,
        },
    decreases n,
{
    if n > 0 {
        lemma_first_bad_row(rows, columns, (n - 1) as nat);
    }
}

/// A projection never leaves a requested column out: where one row lacks a
/// value for one requested column, the whole projection is an error; and
/// where it is not, every row of it holds one value for each column, under
/// the column's name and in the columns' order.
pub proof fn lemma_projection_is_whole(rows: Seq<RowModel>, columns: Seq<ColumnModel>)
    ensures
        (exists|i: int, j: int|
            0 <= i < rows.len() && 0 <= j < columns.len() && cell_value(
                #[trigger] rows[i],
                #[trigger] columns[j].name,
            ) is Err) <==> projection(rows, columns) is Err,
        projection(rows, columns) matches Ok(values) ==> values.len() == rows.len() && forall|
            i: int,
            j: int,
        |
            0 <= i < rows.len() && 0 <= j < columns.len() ==> (#[trigger] values[i]).len()
                == columns.len() && values[i][j] == (
                (#[trigger] columns[j]).name,
                cell_value(rows[i], columns[j].name)->Ok_0,
            ),
{
    lemma_first_bad_row(rows, columns, rows.len());
    if projection(rows, columns) is Err {
        let i = first_bad_row(rows, columns, rows.len())->Some_0;
        lemma_first_fault(rows[i], columns, columns.len());
        let j = first_fault(rows[i], columns, columns.len())->Some_0;
        assert(0 <= i < rows.len() && 0 <= j < columns.len() && cell_value(
            rows[i],
            columns[j].name,
        ) is Err);
    } else {
        assert forall|i: int, j: int|
            0 <= i < rows.len() && 0 <= j < columns.len() implies cell_value(
            #[trigger] rows[i],
            #[trigger] columns[j].name,
        ) is Ok by {
            assert(first_fault(rows[i], columns, columns.len()) is None);
            lemma_first_fault(rows[i], columns, columns.len());
        }
    }
}

/// The value of the cell named `name` in a row.
pub fn project_cell(row: &Row, name: &str) -> (r: Result<Blocks, ProjectionFault>)
    ensures
        modelled(r) == cell_value(row.deep_view(), name@),
{
    match &row.properties {
        None => Err(ProjectionFault::MissingColumn),
        Some(cells) => match position(cells, name) {
            None => Err(ProjectionFault::MissingColumn),
            Some(i) => {
                assert(cells.deep_view()[i as int] == cells@[i as int].deep_view());
                match &cells[i].1.block {
                    None => Err(ProjectionFault::AbsentValue),
                    Some(block) => Ok(block.deep_copy()),
                }
            },
        },
    }
}

/// The values of one row for the columns, or the first column that it has
/// no value for, with what is wrong.
pub fn project_row(row: &Row, columns: &Vec<Column>) -> (r: Result<
    Vec<(String, Blocks)>,
    (usize, ProjectionFault),
>)
    ensures
        match r {
            Ok(values) => {
                &&& first_fault(row.deep_view(), columns.deep_view(), columns@.len()) is None
                &&& values.deep_view() == row_values(row.deep_view(), columns.deep_view())
            },
            Err((j, fault)) => {
                &&& first_fault(row.deep_view(), columns.deep_view(), columns@.len()) == Some(
                    j as int,
                )
                &&& cell_value(row.deep_view(), columns.deep_view()[j as int].name) == Err::<
                    BlocksModel,
                    ProjectionFault,
                >(fault)
            },
        },
{
    let ghost wanted = columns.deep_view();
    let mut values: Vec<(String, Blocks)> = Vec::new();
    let mut j: usize = 0;
    while j < columns.len()
        invariant
            j <= columns@.len(),
            values@.len() == j,
            wanted == columns.deep_view(),
            first_fault(row.deep_view(), wanted, j as nat) is None,
            forall|k: int|
                0 <= k < j ==> (#[trigger] values@[k]).deep_view() == (
                    wanted[k].name,
                    cell_value(row.deep_view(), wanted[k].name)->Ok_0,
                ),
        decreases columns@.len() - j,
    {
        assert(wanted[j as int] == columns@[j as int].deep_view());
        match project_cell(row, columns[j].name.as_str()) {
            Ok(block) => {
                values.push((columns[j].name.clone(), block));
            },
            Err(fault) => {
                proof {
                    assert(first_fault(row.deep_view(), wanted, (j + 1) as nat) == Some(j as int));
                    lemma_first_fault_stays(
                        row.deep_view(),
                        wanted,
                        (j + 1) as nat,
                        columns@.len(),
                    );
                }
                return Err((j, fault));
            },
        }
        j += 1;
    }
    proof {
        let expected = row_values(row.deep_view(), wanted);
        assert forall|k: int| 0 <= k < expected.len() implies values.deep_view()[k]
            == expected[k] by {
            assert(values.deep_view()[k] == values@[k].deep_view());
        }
        assert(values.deep_view() =~= expected);
    }
    Ok(values)
}

/// Projects the rows on the columns.
pub fn project(rows: &Vec<Row>, columns: &Vec<Column>) -> (r: Result<
    Vec<Vec<(String, Blocks)>>,
    ProjectionError,
>)
    ensures
        modelled(r) == projection(rows.deep_view(), columns.deep_view()),
{
    let ghost all = rows.deep_view();
    let ghost wanted = columns.deep_view();
    let mut out: Vec<Vec<(String, Blocks)>> = Vec::new();
    let mut i: usize = 0;
    while i < rows.len()
        invariant
            i <= rows@.len(),
            out@.len() == i,
            all == rows.deep_view(),
            wanted == columns.deep_view(),
            first_bad_row(all, wanted, i as nat) is None,
            forall|k: int|
                0 <= k < i ==> (#[trigger] out@[k]).deep_view() == row_values(all[k], wanted),
        decreases rows@.len() - i,
    {
        assert(all[i as int] == rows@[i as int].deep_view());
        match project_row(&rows[i], columns) {
            Ok(values) => {
                out.push(values);
            },
            Err((j, fault)) => {
                proof {
                    assert(first_bad_row(all, wanted, (i + 1) as nat) == Some(i as int));
                    lemma_first_bad_row_stays(all, wanted, (i + 1) as nat, rows@.len());
                }
                return Err(ProjectionError { row: i, column: j, fault });
            },
        }
        i += 1;
    }
    proof {
        let expected = Seq::new(all.len(), |k: int| row_values(all[k], wanted));
        assert(out.deep_view() =~= expected);
    }
    Ok(out)
}

/// What an answer to a query gives for the columns: its rows projected on
/// them; a decode error where the document is not such an answer; a
/// projection error where a row lacks a value.
pub open spec fn column_values(doc: JsonModel, columns: Seq<ColumnModel>) -> Result<
    Seq<Seq<(Seq<char>, BlocksModel)>>,
    QueryError,
> {
    match DatabaseQueryResponse::decoded(doc) {
        None => Err(QueryError::Decode(DecodeError::Shape)),
        Some(answer) => match projection(answer.results, columns) {
            Ok(values) => Ok(values),
            Err(error) => Err(QueryError::Projection(error)),
        },
    }
}

/// Decodes the answer to a query and projects its rows on the columns.
pub fn column_values_of(doc: &Json, columns: &Vec<Column>) -> (r: Result<
    Vec<Vec<(String, Blocks)>>,
    QueryError,
>)
    ensures
        modelled(r) == column_values(doc.deep_view(), columns.deep_view()),
{
    match DatabaseQueryResponse::decode(doc) {
        Err(error) => Err(QueryError::Decode(error)),
        Ok(answer) => match project(&answer.results, columns) {
            Ok(values) => Ok(values),
            Err(error) => Err(QueryError::Projection(error)),
        },
    }
}

} // verus!
