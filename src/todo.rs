use vstd::prelude::*;

verus! {

/// What a todo is, mathematically.
pub struct TodoView {
    pub id: int,
    pub title: Seq<char>,
    pub completed: bool,
}

/// One row of the `todos` table.
#[derive(Debug, Clone)]
pub struct Todo {
    pub id: i32,
    pub title: String,
    pub completed: bool,
}

impl View for Todo {
    type V = TodoView;

    open spec fn view(&self) -> TodoView {
        TodoView { id: self.id as int, title: self.title@, completed: self.completed }
    }
}

impl Todo {
    /// A todo with the given fields.
    pub fn new(id: i32, title: String, completed: bool) -> (r: Todo)
        ensures
            r.id == id,
            r.title@ == title@,
            r.completed == completed,
    {
        Todo { id, title, completed }
    }
}

} // verus!
