use todo_store::connection::PoolSlot;
use todo_store::error::DbError;
use todo_store::repository::run_migrations;
use todo_store::row::{decode_todo, decode_todos, Cell};
use todo_store::statement::{Param, Statement};
use todo_store::todo::Todo;

fn row(id: i64, title: &str, flag: i64) -> Vec<Cell> {
    vec![Cell::Integer(id), Cell::Text(title.to_string()), Cell::Integer(flag)]
}

fn is_storage<T>(r: &Result<T, DbError>) -> bool {
    matches!(r, Err(DbError::Storage(_)))
}

#[test]
fn slot_starts_uninitialized() {
    let slot: PoolSlot<u32> = PoolSlot::new();
    assert!(!slot.is_initialized());
    assert_eq!(slot.get_pool(), Err(DbError::NotInitialized));
}

#[test]
fn slot_initializes_once() {
    let mut slot: PoolSlot<u32> = PoolSlot::new();
    assert_eq!(slot.init_pool(7), Ok(()));
    assert!(slot.is_initialized());
    assert_eq!(slot.init_pool(9), Err(DbError::AlreadyInitialized));
    assert_eq!(slot.get_pool(), Ok(&7));
}

#[test]
fn operations_before_initialization_are_refused() {
    let slot: PoolSlot<u32> = PoolSlot::new();
    let t = Todo::new(1, "a".to_string(), false);
    assert!(matches!(Todo::fetch_all(&slot), Err(DbError::NotInitialized)));
    assert!(matches!(Todo::get_by_id(&slot, 1), Err(DbError::NotInitialized)));
    assert!(matches!(Todo::create(&slot, "a", false), Err(DbError::NotInitialized)));
    assert!(matches!(t.update(&slot), Err(DbError::NotInitialized)));
    assert!(matches!(t.delete(&slot), Err(DbError::NotInitialized)));
    assert!(matches!(Todo::delete_completed(&slot), Err(DbError::NotInitialized)));
    assert!(matches!(run_migrations(&slot), Err(DbError::NotInitialized)));
}

#[test]
fn requests_carry_pool_and_statement() {
    let mut slot: PoolSlot<u32> = PoolSlot::new();
    slot.init_pool(3).unwrap();
    let req = Todo::create(&slot, "Buy milk", true).unwrap();
    assert_eq!(*req.pool, 3);
    assert!(matches!(&req.statement, Statement::Insert { title, completed: true } if title == "Buy milk"));
    let t = Todo::new(4, "x".to_string(), true);
    let req = t.update(&slot).unwrap();
    assert!(matches!(&req.statement, Statement::Update { id: 4, title, completed: true } if title == "x"));
    let req = t.delete(&slot).unwrap();
    assert!(matches!(req.statement, Statement::DeleteById { id: 4 }));
    assert!(matches!(Todo::get_by_id(&slot, 9).unwrap().statement, Statement::SelectById { id: 9 }));
    assert!(matches!(Todo::fetch_all(&slot).unwrap().statement, Statement::SelectAll));
    assert!(matches!(Todo::delete_completed(&slot).unwrap().statement, Statement::DeleteCompleted));
    assert!(matches!(run_migrations(&slot).unwrap().statement, Statement::CreateSchema));
}

#[test]
fn statement_text_and_parameters() {
    let s = Statement::Update { id: 5, title: "it's; DROP TABLE todos".to_string(), completed: true };
    assert_eq!(s.sql(), "UPDATE todos SET title = ?, completed = ? WHERE id = ?");
    let p = s.params();
    assert_eq!(p.len(), 3);
    assert!(matches!(&p[0], Param::Text(t) if t == "it's; DROP TABLE todos"));
    assert!(matches!(p[1], Param::Bool(true)));
    assert!(matches!(p[2], Param::Integer(5)));
    let s = Statement::Insert { title: "a".to_string(), completed: false };
    assert_eq!(
        s.sql(),
        "INSERT INTO todos (title, completed) VALUES (?, ?) RETURNING id, title, completed"
    );
    assert_eq!(s.params().len(), 2);
    assert_eq!(Statement::SelectById { id: 2 }.sql(), "SELECT id, title, completed FROM todos WHERE id = ?");
    assert!(matches!(Statement::DeleteById { id: -1 }.params()[0], Param::Integer(-1)));
    assert_eq!(Statement::DeleteCompleted.sql(), "DELETE FROM todos WHERE completed = 1");
    assert!(Statement::SelectAll.params().is_empty());
    assert!(Statement::CreateSchema.sql().starts_with("CREATE TABLE IF NOT EXISTS todos"));
}

#[test]
fn decode_accepts_schema_rows() {
    let t = decode_todo(&row(1, "Buy milk", 0)).unwrap();
    assert_eq!((t.id, t.title.as_str(), t.completed), (1, "Buy milk", false));
    let t = decode_todo(&row(2, "", 1)).unwrap();
    assert_eq!((t.id, t.title.as_str(), t.completed), (2, "", true));
    assert!(decode_todo(&row(3, "x", 5)).unwrap().completed);
    assert_eq!(decode_todo(&row(i32::MAX as i64, "x", 0)).unwrap().id, i32::MAX);
    assert_eq!(decode_todo(&row(i32::MIN as i64, "x", 0)).unwrap().id, i32::MIN);
}

#[test]
fn decode_rejects_malformed_rows() {
    assert!(is_storage(&decode_todo(&row(i32::MAX as i64 + 1, "x", 0))));
    assert!(is_storage(&decode_todo(&vec![Cell::Integer(1), Cell::Null, Cell::Integer(0)])));
    assert!(is_storage(&decode_todo(&vec![Cell::Text("1".to_string()), Cell::Text("x".to_string()), Cell::Integer(0)])));
    assert!(is_storage(&decode_todo(&vec![Cell::Integer(1), Cell::Text("x".to_string()), Cell::Unsupported])));
    assert!(is_storage(&decode_todo(&vec![Cell::Integer(1), Cell::Text("x".to_string())])));
    let mut long = row(1, "x", 0);
    long.push(Cell::Null);
    assert!(is_storage(&decode_todo(&long)));
}

#[test]
fn listing_decodes_in_order() {
    let rows = vec![row(2, "b", 1), row(1, "a", 0)];
    let all = decode_todos(&rows).unwrap();
    assert_eq!(all.len(), 2);
    assert_eq!((all[0].id, all[0].title.as_str(), all[0].completed), (2, "b", true));
    assert_eq!((all[1].id, all[1].title.as_str(), all[1].completed), (1, "a", false));
    assert!(Todo::fetch_all_reply(&Vec::new()).unwrap().is_empty());
    let bad = vec![row(1, "a", 0), vec![Cell::Null, Cell::Null, Cell::Null]];
    assert!(is_storage(&Todo::fetch_all_reply(&bad)));
}

#[test]
fn lookup_without_rows_is_not_found() {
    assert_eq!(Todo::get_by_id_reply(42, &Vec::new()).unwrap_err(), DbError::NotFound);
}

#[test]
fn lookup_classifies_replies() {
    let t = Todo::get_by_id_reply(1, &vec![row(1, "a", 1)]).unwrap();
    assert_eq!((t.id, t.title.as_str(), t.completed), (1, "a", true));
    assert!(is_storage(&Todo::get_by_id_reply(1, &vec![row(1, "a", 1), row(1, "b", 0)])));
    assert!(is_storage(&Todo::get_by_id_reply(1, &vec![row(2, "a", 1)])));
    assert!(is_storage(&Todo::get_by_id_reply(1, &vec![vec![Cell::Integer(1)]])));
}

#[test]
fn create_returns_the_stored_row() {
    let t = Todo::create_reply(&vec![row(7, "Buy milk", 0)]).unwrap();
    assert_eq!((t.id, t.title.as_str(), t.completed), (7, "Buy milk", false));
    assert!(is_storage(&Todo::create_reply(&Vec::new())));
    assert!(is_storage(&Todo::create_reply(&vec![row(1, "a", 0), row(2, "b", 0)])));
}

#[test]
fn error_messages() {
    assert_eq!(DbError::storage("disk full".to_string()).message(), "disk full");
    assert_eq!(DbError::NotFound.message(), "no row matches the given id");
    assert_eq!(DbError::NotInitialized.message(), "database pool not initialized");
    assert_eq!(DbError::AlreadyInitialized.message(), "database pool already initialized");
}
