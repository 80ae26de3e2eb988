use vstd::prelude::*;

use crate::error::DbError;
use crate::todo::{Todo, TodoView};

verus! {

/// A value of one column, as the store's storage classes give it.
pub ghost enum CellView {
    Null,
    Integer(int),
    Text(Seq<char>),
    Unsupported,
}

/// One column value of a row that the store returned.
#[derive(Debug, Clone)]
pub enum Cell {
    Null,
    Integer(i64),
    Text(String),
    /// A value of a storage class that the schema never uses.
    Unsupported,
}

impl View for Cell {
    type V = CellView;

    open spec fn view(&self) -> CellView {
        match self {
            Cell::Null => CellView::Null,
            Cell::Integer(n) => CellView::Integer(*n as int),
            Cell::Text(s) => CellView::Text(s@),
            Cell::Unsupported => CellView::Unsupported,
        }
    }
}

pub open spec fn row_view(row: Vec<Cell>) -> Seq<CellView> {
    row@.map_values(|c: Cell| c@)
}

pub open spec fn rows_view(rows: Seq<Vec<Cell>>) -> Seq<Seq<CellView>> {
    rows.map_values(|r: Vec<Cell>| row_view(r))
}

pub open spec fn fits_i32(n: int) -> bool {
    i32::MIN <= n <= i32::MAX
}

/// The todo that a row `(id, title, completed)` holds, if its columns have
/// the schema's types: an integer id that fits `i32`, a text title, and an
/// integer flag whose non-zero values mean completed.
pub open spec fn decode_row(cells: Seq<CellView>) -> Option<TodoView> {
    if cells.len() == 3 && cells[0] is Integer && fits_i32(cells[0]->Integer_0)
        && cells[1] is Text && cells[2] is Integer {
        Some(
            TodoView {
                id: cells[0]->Integer_0,
                title: cells[1]->Text_0,
                completed: cells[2]->Integer_0 != 0,
            },
        )
    } else {
        None
    }
}

/// The row in which the store holds a todo.
pub open spec fn encode_row(v: TodoView) -> Seq<CellView> {
    seq![
        CellView::Integer(v.id),
        CellView::Text(v.title),
        CellView::Integer(if v.completed { 1 } else { 0 }),
    ]
}

/// Every row decodes, in order, or the whole reply is refused.
pub open spec fn decode_rows(rows: Seq<Seq<CellView>>) -> Option<Seq<TodoView>> {
    if forall|i: int| 0 <= i < rows.len() ==> (#[trigger] decode_row(rows[i])) is Some {
        Some(rows.map_values(|r: Seq<CellView>| decode_row(r)->Some_0))
    } else {
        None
    }
}

pub open spec fn encode_rows(s: Seq<TodoView>) -> Seq<Seq<CellView>> {
    s.map_values(|v: TodoView| encode_row(v))
}

/// The typed decode of one row of the `todos` table.
pub fn decode_todo(row: &Vec<Cell>) -> (r: Result<Todo, DbError>)
    ensures
        match decode_row(row_view(*row)) {
            Some(v) => r is Ok && r->Ok_0@ == v,
            None => r is Err && r->Err_0 is Storage,
        },
{
    let ghost cells = row_view(*row);
    if row.len() != 3 {
        return Err(DbError::storage(String::from_str("a todo row must have three columns")));
    }
    assert(cells[0] == row@[0]@ && cells[1] == row@[1]@ && cells[2] == row@[2]@);
    let id: i32 = match &row[0] {
        Cell::Integer(n) => {
            if *n < i32::MIN as i64 || *n > i32::MAX as i64 {
                return Err(DbError::storage(String::from_str("todo id out of range")));
            }
            *n as i32
        },
        _ => {
            return Err(DbError::storage(String::from_str("todo id is not an integer")));
        },
    };
    let title: String = match &row[1] {
        Cell::Text(s) => s.clone(),
        _ => {
            return Err(DbError::storage(String::from_str("todo title is not text")));
        },
    };
    let completed: bool = match &row[2] {
        Cell::Integer(n) => *n != 0,
        _ => {
            return Err(DbError::storage(String::from_str("todo flag is not an integer")));
        },
    };
    Ok(Todo { id, title, completed })
}

/// The typed decode of every row of a reply, in the order received.
pub fn decode_todos(rows: &Vec<Vec<Cell>>) -> (r: Result<Vec<Todo>, DbError>)
    ensures
        match decode_rows(rows_view(rows@)) {
            Some(s) => r is Ok && r->Ok_0@.map_values(|t: Todo| t@) == s,
            None => r is Err && r->Err_0 is Storage,
        },
{
    let ghost rv = rows_view(rows@);
    let mut out: Vec<Todo> = Vec::new();
    let mut i: usize = 0;
    while i < rows.len()
        invariant
            i <= rows.len(),
            rv == rows_view(rows@),
            out.len() == i,
            forall|j: int| 0 <= j < i ==> decode_row(#[trigger] rv[j]) == Some(out@[j]@),
        decreases rows.len() - i,
    {
        match decode_todo(&rows[i]) {
            Ok(t) => {
                out.push(t);
            },
            Err(e) => {
                assert(decode_row(rv[i as int]) is None);
                return Err(e);
            },
        }
        i = i + 1;
    }
    assert(out@.map_values(|t: Todo| t@) =~= rv.map_values(|r: Seq<CellView>| decode_row(r)->Some_0));
    Ok(out)
}

/// A row that the store encoded decodes to the same todo, whenever its id
/// fits the entity's integer type.
pub proof fn lemma_decode_encode(v: TodoView)
    requires
        fits_i32(v.id),
    ensures
        decode_row(encode_row(v)) == Some(v),
{
}

/// Rows that the store encoded decode to the same todos, whenever every id
/// fits the entity's integer type.
pub proof fn lemma_decode_encode_rows(s: Seq<TodoView>)
    requires
        forall|i: int| 0 <= i < s.len() ==> fits_i32(#[trigger] s[i].id),
    ensures
        decode_rows(encode_rows(s)) == Some(s),
{
    let rows = encode_rows(s);
    assert forall|i: int| 0 <= i < rows.len() implies (#[trigger] decode_row(rows[i])) is Some by {
        lemma_decode_encode(s[i]);
    }
    assert forall|i: int| 0 <= i < rows.len() implies decode_row(rows[i])->Some_0 == s[i] by {
        lemma_decode_encode(s[i]);
    }
    assert(rows.map_values(|r: Seq<CellView>| decode_row(r)->Some_0) =~= s);
}

} // verus!
