use vstd::prelude::*;

use crate::statement::StatementView;
use crate::todo::TodoView;

verus! {

/// The `todos` table: each row under its id.
pub type Table = Map<int, TodoView>;

/// A table is well formed when it is finite and each row sits under its own id.
pub open spec fn table_wf(t: Table) -> bool {
    &&& t.dom().finite()
    &&& forall|k: int| #[trigger] t.contains_key(k) ==> t[k].id == k
}

/// What the store answers to a statement.
pub ghost enum Reply {
    /// The rows that a query selected or returned.
    Rows(Seq<TodoView>),
    /// The number of rows that a statement changed.
    Affected(nat),
    /// An I/O, constraint or corruption failure; nothing was changed.
    Failed,
}

/// `s` lists every row of `t` once, in some order.
pub open spec fn lists(t: Table, s: Seq<TodoView>) -> bool {
    &&& forall|i: int| 0 <= i < s.len() ==> t.contains_key(#[trigger] s[i].id) && t[s[i].id] == s[i]
    &&& forall|k: int| #[trigger] t.contains_key(k) ==> exists|i: int| 0 <= i < s.len() && s[i] == t[k]
    &&& forall|i: int, j: int| 0 <= i < j < s.len() ==> s[i].id != s[j].id
}

/// The ids of the completed rows.
pub open spec fn completed_ids(t: Table) -> Set<int> {
    t.dom().filter(|k: int| t[k].completed)
}

/// The rows that are not completed.
pub open spec fn without_completed(t: Table) -> Table {
    t.restrict(t.dom().filter(|k: int| !t[k].completed))
}

/// The effect and the reply of a statement that the store carried out.
/// `db` is `None` while the `todos` table does not exist. An insert takes
/// any id that no row holds, and a listing comes in any order.
pub open spec fn succeeds(db: Option<Table>, st: StatementView, post: Option<Table>, reply: Reply) -> bool {
    match db {
        None => match st {
            StatementView::CreateSchema => post == Some(Map::<int, TodoView>::empty())
                && reply == Reply::Affected(0),
            _ => false,
        },
        Some(t) => match st {
            StatementView::CreateSchema => post == db && reply == Reply::Affected(0),
            StatementView::SelectAll => post == db && reply is Rows && lists(t, reply->Rows_0),
            StatementView::SelectById { id } => post == db && reply == Reply::Rows(
                if t.contains_key(id) { seq![t[id]] } else { Seq::empty() },
            ),
            StatementView::Insert { title, completed } => exists|id: int|
                !t.contains_key(id) && {
                    let v = TodoView { id, title, completed };
                    post == Some(t.insert(id, v)) && reply == Reply::Rows(seq![v])
                },
            StatementView::Update { id, title, completed } => if t.contains_key(id) {
                post == Some(t.insert(id, TodoView { id, title, completed }))
                    && reply == Reply::Affected(1)
            } else {
                post == db && reply == Reply::Affected(0)
            },
            StatementView::DeleteById { id } => post == Some(t.remove(id)) && reply
                == Reply::Affected(if t.contains_key(id) { 1 } else { 0 }),
            StatementView::DeleteCompleted => post == Some(without_completed(t)) && reply
                == Reply::Affected(completed_ids(t).len()),
        },
    }
}

/// One run of a statement: it either fails and changes nothing, or succeeds.
pub open spec fn step(db: Option<Table>, st: StatementView, post: Option<Table>, reply: Reply) -> bool {
    if reply is Failed {
        post == db
    } else {
        succeeds(db, st, post, reply)
    }
}

} // verus!
