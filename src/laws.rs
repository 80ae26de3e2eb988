use vstd::prelude::*;

use crate::error::ErrorKind;
use crate::repository::{create_outcome, fetch_all_outcome, get_by_id_outcome};
use crate::row::{encode_rows, fits_i32, lemma_decode_encode, lemma_decode_encode_rows};
use crate::statement::StatementView;
use crate::store::{completed_ids, step, table_wf, without_completed, Reply, Table};
use crate::todo::TodoView;

verus! {

/// The todo that a successful insert into `t` stores: the reply's one row.
proof fn lemma_insert_reply(t: Table, title: Seq<char>, completed: bool, post: Option<Table>, reply: Reply)
    requires
        table_wf(t),
        step(Some(t), StatementView::Insert { title, completed }, post, reply),
        !(reply is Failed),
    ensures
        reply is Rows && reply->Rows_0.len() == 1,
        ({
            let v = reply->Rows_0[0];
            &&& !t.contains_key(v.id)
            &&& v.title == title && v.completed == completed
            &&& post == Some(t.insert(v.id, v))
            &&& table_wf(t.insert(v.id, v))
        }),
{
    let id = choose|id: int|
        !t.contains_key(id) && {
            let v = TodoView { id, title, completed };
            post == Some(t.insert(id, v)) && reply == Reply::Rows(seq![v])
        };
    let v = TodoView { id, title, completed };
    assert(reply->Rows_0[0] == v);
}

/// Creating a todo and then looking up the id it was given yields the todo
/// that the creation returned, with the title and flag asked for.
pub proof fn lemma_create_then_get(
    t: Table,
    title: Seq<char>,
    completed: bool,
    t1: Option<Table>,
    r1: Reply,
    t2: Option<Table>,
    r2: Reply,
)
    requires
        table_wf(t),
        step(Some(t), StatementView::Insert { title, completed }, t1, r1),
        !(r1 is Failed),
        create_outcome(encode_rows(r1->Rows_0)) is Ok,
        step(t1, StatementView::SelectById { id: create_outcome(encode_rows(r1->Rows_0))->Ok_0.id }, t2, r2),
        !(r2 is Failed),
    ensures
        ({
            let v = create_outcome(encode_rows(r1->Rows_0))->Ok_0;
            &&& v.title == title && v.completed == completed
            &&& get_by_id_outcome(v.id, encode_rows(r2->Rows_0)) == Ok::<TodoView, ErrorKind>(v)
        }),
{
    lemma_insert_reply(t, title, completed, t1, r1);
    let stored = r1->Rows_0[0];
    let rows = encode_rows(r1->Rows_0);
    assert(rows[0] == crate::row::encode_row(stored));
    if !fits_i32(stored.id) {
        assert(crate::row::decode_row(rows[0]) is None);
    }
    lemma_decode_encode(stored);
    let t1v = t.insert(stored.id, stored);
    assert(t1v.contains_key(stored.id) && t1v[stored.id] == stored);
    assert(r2->Rows_0 == seq![stored]);
    assert(encode_rows(r2->Rows_0)[0] == crate::row::encode_row(stored));
}

/// The lookup of an id that no row holds is `NotFound`.
pub proof fn lemma_get_missing(t: Table, id: int, t1: Option<Table>, r1: Reply)
    requires
        table_wf(t),
        !t.contains_key(id),
        step(Some(t), StatementView::SelectById { id }, t1, r1),
        !(r1 is Failed),
    ensures
        get_by_id_outcome(id, encode_rows(r1->Rows_0)) == Err::<TodoView, ErrorKind>(ErrorKind::NotFound),
{
    assert(encode_rows(r1->Rows_0).len() == 0);
}

/// A listing that decodes is the table's rows, each once.
proof fn lemma_listing(t: Table, t1: Option<Table>, r1: Reply)
    requires
        table_wf(t),
        step(Some(t), StatementView::SelectAll, t1, r1),
        !(r1 is Failed),
        fetch_all_outcome(encode_rows(r1->Rows_0)) is Ok,
    ensures
        fetch_all_outcome(encode_rows(r1->Rows_0))->Ok_0 == r1->Rows_0,
        crate::store::lists(t, r1->Rows_0),
{
    let s = r1->Rows_0;
    assert forall|i: int| 0 <= i < s.len() implies fits_i32(#[trigger] s[i].id) by {
        let rows = encode_rows(s);
        assert(crate::row::decode_row(rows[i]) is Some);
        assert(rows[i] == crate::row::encode_row(s[i]));
    }
    lemma_decode_encode_rows(s);
}

/// After a todo is created, a listing that decodes holds it exactly once.
pub proof fn lemma_listed_once_after_create(
    t: Table,
    title: Seq<char>,
    completed: bool,
    t1: Option<Table>,
    r1: Reply,
    t2: Option<Table>,
    r2: Reply,
)
    requires
        table_wf(t),
        step(Some(t), StatementView::Insert { title, completed }, t1, r1),
        !(r1 is Failed),
        create_outcome(encode_rows(r1->Rows_0)) is Ok,
        step(t1, StatementView::SelectAll, t2, r2),
        !(r2 is Failed),
        fetch_all_outcome(encode_rows(r2->Rows_0)) is Ok,
    ensures
        ({
            let v = create_outcome(encode_rows(r1->Rows_0))->Ok_0;
            let s = fetch_all_outcome(encode_rows(r2->Rows_0))->Ok_0;
            exists|i: int|
                0 <= i < s.len() && s[i] == v && forall|j: int|
                    0 <= j < s.len() && j != i ==> (#[trigger] s[j]).id != v.id
        }),
{
    lemma_insert_reply(t, title, completed, t1, r1);
    let stored = r1->Rows_0[0];
    let rows = encode_rows(r1->Rows_0);
    assert(rows[0] == crate::row::encode_row(stored));
    if !fits_i32(stored.id) {
        assert(crate::row::decode_row(rows[0]) is None);
    }
    lemma_decode_encode(stored);
    let t1v = t.insert(stored.id, stored);
    lemma_listing(t1v, t2, r2);
    let s = r2->Rows_0;
    assert(t1v.contains_key(stored.id));
    let i = choose|i: int| 0 <= i < s.len() && s[i] == t1v[stored.id];
    assert forall|j: int| 0 <= j < s.len() && j != i implies (#[trigger] s[j]).id != stored.id by {
        if j < i {
            assert(s[j].id != s[i].id);
        } else {
            assert(s[i].id != s[j].id);
        }
    }
}

/// After the row with `id` is deleted, no listing holds that id.
pub proof fn lemma_absent_after_delete(t: Table, id: int, t1: Option<Table>, r1: Reply, t2: Option<Table>, r2: Reply)
    requires
        table_wf(t),
        step(Some(t), StatementView::DeleteById { id }, t1, r1),
        !(r1 is Failed),
        step(t1, StatementView::SelectAll, t2, r2),
        !(r2 is Failed),
    ensures
        forall|i: int| 0 <= i < r2->Rows_0.len() ==> (#[trigger] r2->Rows_0[i]).id != id,
        fetch_all_outcome(encode_rows(r2->Rows_0)) is Ok ==> ({
            let s = fetch_all_outcome(encode_rows(r2->Rows_0))->Ok_0;
            forall|i: int| 0 <= i < s.len() ==> (#[trigger] s[i]).id != id
        }),
{
    let t1v = t.remove(id);
    assert(table_wf(t1v));
    if fetch_all_outcome(encode_rows(r2->Rows_0)) is Ok {
        lemma_listing(t1v, t2, r2);
    }
}

/// An update rewrites title and flag of the row with the todo's id, keeps
/// its id, and leaves every other row as it was. A missing id changes nothing.
pub proof fn lemma_update_targets_one_row(t: Table, v: TodoView, t1: Option<Table>, r1: Reply)
    requires
        table_wf(t),
        step(Some(t), StatementView::Update { id: v.id, title: v.title, completed: v.completed }, t1, r1),
        !(r1 is Failed),
    ensures
        t1 is Some,
        table_wf(t1->Some_0),
        t1->Some_0.dom() == t.dom(),
        t.contains_key(v.id) ==> t1->Some_0[v.id] == v,
        forall|k: int| k != v.id && #[trigger] t.contains_key(k) ==> t1->Some_0[k] == t[k],
{
    if t.contains_key(v.id) {
        assert(t.insert(v.id, v).dom() =~= t.dom());
    }
}

/// Removing the completed rows reports as many rows as left the table,
/// leaves the others as they were and no completed row behind, so that a
/// second run right after reports none.
pub proof fn lemma_delete_completed(t: Table, t1: Option<Table>, r1: Reply, t2: Option<Table>, r2: Reply)
    requires
        table_wf(t),
        step(Some(t), StatementView::DeleteCompleted, t1, r1),
        !(r1 is Failed),
        step(t1, StatementView::DeleteCompleted, t2, r2),
        !(r2 is Failed),
    ensures
        t1 is Some,
        r1 == Reply::Affected((t.dom().len() - t1->Some_0.dom().len()) as nat),
        r1 == Reply::Affected(completed_ids(t).len()),
        forall|k: int| #[trigger] t1->Some_0.contains_key(k) <==> t.contains_key(k) && !t[k].completed,
        forall|k: int| #[trigger] t1->Some_0.contains_key(k) ==> t1->Some_0[k] == t[k],
        r2 == Reply::Affected(0),
{
    let kept = t.dom().filter(|k: int| !t[k].completed);
    let gone = completed_ids(t);
    let u = without_completed(t);
    assert(u.dom() =~= kept);
    assert(kept.disjoint(gone));
    assert(kept + gone =~= t.dom());
    vstd::set_lib::lemma_set_disjoint_lens(kept, gone);
    assert(table_wf(u));
    assert(completed_ids(u) =~= Set::<int>::empty());
}

/// Creating the schema twice in a row is no different from once: the
/// second run keeps every row, and on an existing table the first does too.
pub proof fn lemma_schema_idempotent(db: Option<Table>, d1: Option<Table>, r1: Reply, d2: Option<Table>, r2: Reply)
    requires
        step(db, StatementView::CreateSchema, d1, r1),
        !(r1 is Failed),
        step(d1, StatementView::CreateSchema, d2, r2),
        !(r2 is Failed),
    ensures
        d1 is Some,
        d2 == d1,
        db is Some ==> d1 == db,
        r1 == Reply::Affected(0) && r2 == Reply::Affected(0),
{
}

} // verus!
