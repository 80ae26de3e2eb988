use vstd::prelude::*;

use crate::connection::PoolSlot;
use crate::error::{DbError, ErrorKind};
use crate::row::{decode_row, decode_rows, decode_todo, decode_todos, row_view, rows_view, Cell, CellView};
use crate::statement::{Statement, StatementView};
use crate::todo::{Todo, TodoView};

verus! {

/// A statement ready to be sent, with the pool to send it through.
pub struct Request<'a, P> {
    pub pool: &'a P,
    pub statement: Statement,
}

/// The error class of a failed result, or the view of a successful one.
pub open spec fn outcome<T: View>(r: Result<T, DbError>) -> Result<T::V, ErrorKind> {
    match r {
        Ok(v) => Ok(v@),
        Err(e) => Err(e.kind()),
    }
}

pub open spec fn outcome_all(r: Result<Vec<Todo>, DbError>) -> Result<Seq<TodoView>, ErrorKind> {
    match r {
        Ok(v) => Ok(v@.map_values(|t: Todo| t@)),
        Err(e) => Err(e.kind()),
    }
}

/// What a listing means: every row decoded, or a storage error.
pub open spec fn fetch_all_outcome(rows: Seq<Seq<CellView>>) -> Result<Seq<TodoView>, ErrorKind> {
    match decode_rows(rows) {
        Some(s) => Ok(s),
        None => Err(ErrorKind::Storage),
    }
}

/// What a lookup by `id` means: no row is `NotFound`; one row that decodes
/// to a todo with that id is the todo; anything else is a storage error.
pub open spec fn get_by_id_outcome(id: int, rows: Seq<Seq<CellView>>) -> Result<TodoView, ErrorKind> {
    if rows.len() == 0 {
        Err(ErrorKind::NotFound)
    } else if rows.len() == 1 && decode_row(rows[0]) is Some && decode_row(rows[0])->Some_0.id == id {
        Ok(decode_row(rows[0])->Some_0)
    } else {
        Err(ErrorKind::Storage)
    }
}

/// What an insert means: the one row it returned, decoded.
pub open spec fn create_outcome(rows: Seq<Seq<CellView>>) -> Result<TodoView, ErrorKind> {
    if rows.len() == 1 && decode_row(rows[0]) is Some {
        Ok(decode_row(rows[0])->Some_0)
    } else {
        Err(ErrorKind::Storage)
    }
}

/// The pool of `slot` and `statement`, or `NotInitialized`.
fn request<'a, P>(slot: &'a PoolSlot<P>, statement: Statement) -> (r: Result<Request<'a, P>, DbError>)
    ensures
        slot.held() is None ==> r == Err::<Request<'a, P>, DbError>(DbError::NotInitialized),
        slot.held() is Some ==> r is Ok && *r->Ok_0.pool == slot.held()->Some_0
            && r->Ok_0.statement@ == statement@,
{
    match slot.get_pool() {
        Ok(pool) => Ok(Request { pool, statement }),
        Err(e) => Err(e),
    }
}

impl Todo {
    /// Asks for every row, through the pool of `slot`.
    pub fn fetch_all<'a, P>(slot: &'a PoolSlot<P>) -> (r: Result<Request<'a, P>, DbError>)
        ensures
            slot.held() is None ==> r == Err::<Request<'a, P>, DbError>(DbError::NotInitialized),
            slot.held() is Some ==> r is Ok && *r->Ok_0.pool == slot.held()->Some_0
                && r->Ok_0.statement@ == StatementView::SelectAll,
    {
        request(slot, Statement::SelectAll)
    }

    /// The todos of the rows that a listing returned.
    pub fn fetch_all_reply(rows: &Vec<Vec<Cell>>) -> (r: Result<Vec<Todo>, DbError>)
        ensures
            outcome_all(r) == fetch_all_outcome(rows_view(rows@)),
    {
        decode_todos(rows)
    }

    /// Asks for the row with id `id`.
    pub fn get_by_id<'a, P>(slot: &'a PoolSlot<P>, id: i32) -> (r: Result<Request<'a, P>, DbError>)
        ensures
            slot.held() is None ==> r == Err::<Request<'a, P>, DbError>(DbError::NotInitialized),
            slot.held() is Some ==> r is Ok && *r->Ok_0.pool == slot.held()->Some_0
                && r->Ok_0.statement@ == (StatementView::SelectById { id: id as int }),
    {
        request(slot, Statement::SelectById { id })
    }

    /// The todo that a lookup of `id` returned, or `NotFound` when it
    /// returned no row.
    pub fn get_by_id_reply(id: i32, rows: &Vec<Vec<Cell>>) -> (r: Result<Todo, DbError>)
        ensures
            outcome(r) == get_by_id_outcome(id as int, rows_view(rows@)),
    {
        if rows.len() == 0 {
            return Err(DbError::NotFound);
        }
        if rows.len() > 1 {
            return Err(DbError::storage(String::from_str("more than one row has the id")));
        }
        assert(rows_view(rows@)[0] == row_view(rows@[0]));
        match decode_todo(&rows[0]) {
            Ok(t) => {
                if t.id == id {
                    Ok(t)
                } else {
                    Err(DbError::storage(String::from_str("the row returned has another id")))
                }
            },
            Err(e) => Err(e),
        }
    }

    /// Asks for a new row with `title` and `completed`; the store assigns
    /// the id and returns the row as stored.
    pub fn create<'a, P>(slot: &'a PoolSlot<P>, title: &str, completed: bool) -> (r: Result<
        Request<'a, P>,
        DbError,
    >)
        ensures
            slot.held() is None ==> r == Err::<Request<'a, P>, DbError>(DbError::NotInitialized),
            slot.held() is Some ==> r is Ok && *r->Ok_0.pool == slot.held()->Some_0
                && r->Ok_0.statement@ == (StatementView::Insert { title: title@, completed }),
    {
        request(slot, Statement::Insert { title: String::from_str(title), completed })
    }

    /// The todo that an insert returned.
    pub fn create_reply(rows: &Vec<Vec<Cell>>) -> (r: Result<Todo, DbError>)
        ensures
            outcome(r) == create_outcome(rows_view(rows@)),
    {
        if rows.len() != 1 {
            return Err(DbError::storage(String::from_str("an insert must return exactly one row")));
        }
        assert(rows_view(rows@)[0] == row_view(rows@[0]));
        decode_todo(&rows[0])
    }

    /// Asks to overwrite title and flag of the row with this todo's id. The
    /// id is the key only; a row that no longer exists is left alone.
    pub fn update<'a, P>(&self, slot: &'a PoolSlot<P>) -> (r: Result<Request<'a, P>, DbError>)
        ensures
            slot.held() is None ==> r == Err::<Request<'a, P>, DbError>(DbError::NotInitialized),
            slot.held() is Some ==> r is Ok && *r->Ok_0.pool == slot.held()->Some_0
                && r->Ok_0.statement@ == (StatementView::Update {
                    id: self.id as int,
                    title: self.title@,
                    completed: self.completed,
                }),
    {
        request(
            slot,
            Statement::Update { id: self.id, title: self.title.clone(), completed: self.completed },
        )
    }

    /// Asks to remove the row with this todo's id; removing a row that does
    /// not exist is no error.
    pub fn delete<'a, P>(&self, slot: &'a PoolSlot<P>) -> (r: Result<Request<'a, P>, DbError>)
        ensures
            slot.held() is None ==> r == Err::<Request<'a, P>, DbError>(DbError::NotInitialized),
            slot.held() is Some ==> r is Ok && *r->Ok_0.pool == slot.held()->Some_0
                && r->Ok_0.statement@ == (StatementView::DeleteById { id: self.id as int }),
    {
        request(slot, Statement::DeleteById { id: self.id })
    }

    /// Asks to remove every completed row in one statement; the store's
    /// count of changed rows is the number removed.
    pub fn delete_completed<'a, P>(slot: &'a PoolSlot<P>) -> (r: Result<Request<'a, P>, DbError>)
        ensures
            slot.held() is None ==> r == Err::<Request<'a, P>, DbError>(DbError::NotInitialized),
            slot.held() is Some ==> r is Ok && *r->Ok_0.pool == slot.held()->Some_0
                && r->Ok_0.statement@ == StatementView::DeleteCompleted,
    {
        request(slot, Statement::DeleteCompleted)
    }
}

/// Asks for the `todos` table to be created if it does not exist.
pub fn run_migrations<'a, P>(slot: &'a PoolSlot<P>) -> (r: Result<Request<'a, P>, DbError>)
    ensures
        slot.held() is None ==> r == Err::<Request<'a, P>, DbError>(DbError::NotInitialized),
        slot.held() is Some ==> r is Ok && *r->Ok_0.pool == slot.held()->Some_0
            && r->Ok_0.statement@ == StatementView::CreateSchema,
{
    request(slot, Statement::CreateSchema)
}

} // verus!
