use vstd::prelude::*;

verus! {

/// A value bound to a placeholder of a statement.
pub ghost enum ParamView {
    Integer(int),
    Text(Seq<char>),
    Bool(bool),
}

/// A value bound to a placeholder of a statement, never spliced into its text.
#[derive(Debug, Clone)]
pub enum Param {
    Integer(i64),
    Text(String),
    Bool(bool),
}

impl View for Param {
    type V = ParamView;

    open spec fn view(&self) -> ParamView {
        match self {
            Param::Integer(n) => ParamView::Integer(*n as int),
            Param::Text(s) => ParamView::Text(s@),
            Param::Bool(b) => ParamView::Bool(*b),
        }
    }
}

/// What a statement asks of the store.
pub ghost enum StatementView {
    CreateSchema,
    SelectAll,
    SelectById { id: int },
    Insert { title: Seq<char>, completed: bool },
    Update { id: int, title: Seq<char>, completed: bool },
    DeleteById { id: int },
    DeleteCompleted,
}

/// The kinds of statement, which alone decide a statement's text.
pub enum StatementKind {
    CreateSchema,
    SelectAll,
    SelectById,
    Insert,
    Update,
    DeleteById,
    DeleteCompleted,
}

/// Every statement that the data-access layer sends to the store.
#[derive(Debug, Clone)]
pub enum Statement {
    /// Creates the `todos` table if it does not exist.
    CreateSchema,
    /// Selects every row.
    SelectAll,
    /// Selects the row with the given id.
    SelectById { id: i32 },
    /// Inserts a row and returns it as stored.
    Insert { title: String, completed: bool },
    /// Overwrites title and flag of the row with the given id.
    Update { id: i32, title: String, completed: bool },
    /// Removes the row with the given id.
    DeleteById { id: i32 },
    /// Removes every completed row.
    DeleteCompleted,
}

impl View for Statement {
    type V = StatementView;

    open spec fn view(&self) -> StatementView {
        match self {
            Statement::CreateSchema => StatementView::CreateSchema,
            Statement::SelectAll => StatementView::SelectAll,
            Statement::SelectById { id } => StatementView::SelectById { id: *id as int },
            Statement::Insert { title, completed } => StatementView::Insert {
                title: title@,
                completed: *completed,
            },
            Statement::Update { id, title, completed } => StatementView::Update {
                id: *id as int,
                title: title@,
                completed: *completed,
            },
            Statement::DeleteById { id } => StatementView::DeleteById { id: *id as int },
            Statement::DeleteCompleted => StatementView::DeleteCompleted,
        }
    }
}

pub open spec fn kind_of(s: StatementView) -> StatementKind {
    match s {
        StatementView::CreateSchema => StatementKind::CreateSchema,
        StatementView::SelectAll => StatementKind::SelectAll,
        StatementView::SelectById { .. } => StatementKind::SelectById,
        StatementView::Insert { .. } => StatementKind::Insert,
        StatementView::Update { .. } => StatementKind::Update,
        StatementView::DeleteById { .. } => StatementKind::DeleteById,
        StatementView::DeleteCompleted => StatementKind::DeleteCompleted,
    }
}

/// The text of each kind of statement, with `?` for every bound value.
pub open spec fn sql_text(k: StatementKind) -> Seq<char> {
    match k {
        StatementKind::CreateSchema => "CREATE TABLE IF NOT EXISTS todos (id INTEGER PRIMARY KEY, title TEXT NOT NULL, completed BOOLEAN NOT NULL DEFAULT 0)"@,
        StatementKind::SelectAll => "SELECT id, title, completed FROM todos"@,
        StatementKind::SelectById => "SELECT id, title, completed FROM todos WHERE id = ?"@,
        StatementKind::Insert => "INSERT INTO todos (title, completed) VALUES (?, ?) RETURNING id, title, completed"@,
        StatementKind::Update => "UPDATE todos SET title = ?, completed = ? WHERE id = ?"@,
        StatementKind::DeleteById => "DELETE FROM todos WHERE id = ?"@,
        StatementKind::DeleteCompleted => "DELETE FROM todos WHERE completed = 1"@,
    }
}

/// The values bound to the placeholders, in the order they appear.
pub open spec fn params_of(s: StatementView) -> Seq<ParamView> {
    match s {
        StatementView::SelectById { id } => seq![ParamView::Integer(id)],
        StatementView::Insert { title, completed } => seq![
            ParamView::Text(title),
            ParamView::Bool(completed),
        ],
        StatementView::Update { id, title, completed } => seq![
            ParamView::Text(title),
            ParamView::Bool(completed),
            ParamView::Integer(id),
        ],
        StatementView::DeleteById { id } => seq![ParamView::Integer(id)],
        _ => seq![],
    }
}

impl Statement {
    /// The statement's text. It depends on the kind of statement alone:
    /// every value reaches the store as a bound parameter.
    pub fn sql(&self) -> (r: &'static str)
        ensures
            r@ == sql_text(kind_of(self@)),
    {
        match self {
            Statement::CreateSchema => "CREATE TABLE IF NOT EXISTS todos (id INTEGER PRIMARY KEY, title TEXT NOT NULL, completed BOOLEAN NOT NULL DEFAULT 0)",
            Statement::SelectAll => "SELECT id, title, completed FROM todos",
            Statement::SelectById { .. } => "SELECT id, title, completed FROM todos WHERE id = ?",
            Statement::Insert { .. } => "INSERT INTO todos (title, completed) VALUES (?, ?) RETURNING id, title, completed",
            Statement::Update { .. } => "UPDATE todos SET title = ?, completed = ? WHERE id = ?",
            Statement::DeleteById { .. } => "DELETE FROM todos WHERE id = ?",
            Statement::DeleteCompleted => "DELETE FROM todos WHERE completed = 1",
        }
    }

    /// The values to bind, in placeholder order.
    pub fn params(&self) -> (r: Vec<Param>)
        ensures
            r@.map_values(|p: Param| p@) == params_of(self@),
    {
        let r: Vec<Param> = match self {
            Statement::SelectById { id } => vec![Param::Integer(*id as i64)],
            Statement::Insert { title, completed } => vec![
                Param::Text(title.clone()),
                Param::Bool(*completed),
            ],
            Statement::Update { id, title, completed } => vec![
                Param::Text(title.clone()),
                Param::Bool(*completed),
                Param::Integer(*id as i64),
            ],
            Statement::DeleteById { id } => vec![Param::Integer(*id as i64)],
            _ => Vec::new(),
        };
        assert(r@.map_values(|p: Param| p@) =~= params_of(self@));
        r
    }
}

} // verus!
