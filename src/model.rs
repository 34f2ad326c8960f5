use vstd::prelude::*;
use vstd::string::StringExecFns;

verus! {

/// A to-do record as the service hands it out.
#[derive(Debug, Clone)]
pub struct Todo {
    pub id: String,
    pub title: String,
    pub description: Option<String>,
    pub completed: bool,
    pub created_at: String,
}

/// The body of a create request.
#[derive(Debug, Clone)]
pub struct CreateTodo {
    pub title: String,
    pub description: Option<String>,
}

/// The body of an update request: each field is optional, and an absent
/// field leaves the stored value as it is.
#[derive(Debug, Clone)]
pub struct UpdateTodo {
    pub title: Option<String>,
    pub description: Option<String>,
    pub completed: Option<bool>,
}

/// One row of the `todos` table, with each column as the table holds it.
#[derive(Debug, Clone)]
pub struct TodoRow {
    pub id: String,
    pub title: String,
    pub description: String,
    pub completed: i32,
    pub created_at: String,
}

pub struct TodoView {
    pub id: Seq<char>,
    pub title: Seq<char>,
    pub description: Option<Seq<char>>,
    pub completed: bool,
    pub created_at: Seq<char>,
}

pub struct CreateTodoView {
    pub title: Seq<char>,
    pub description: Option<Seq<char>>,
}

pub struct UpdateTodoView {
    pub title: Option<Seq<char>>,
    pub description: Option<Seq<char>>,
    pub completed: Option<bool>,
}

pub struct TodoRowView {
    pub id: Seq<char>,
    pub title: Seq<char>,
    pub description: Seq<char>,
    pub completed: i32,
    pub created_at: Seq<char>,
}

pub open spec fn opt_str_view(o: Option<String>) -> Option<Seq<char>> {
    match o {
        Some(s) => Some(s@),
        None => None,
    }
}

impl View for Todo {
    type V = TodoView;

    open spec fn view(&self) -> TodoView {
        TodoView {
            id: self.id@,
            title: self.title@,
            description: opt_str_view(self.description),
            completed: self.completed,
            created_at: self.created_at@,
        }
    }
}

impl View for CreateTodo {
    type V = CreateTodoView;

    open spec fn view(&self) -> CreateTodoView {
        CreateTodoView { title: self.title@, description: opt_str_view(self.description) }
    }
}

impl View for UpdateTodo {
    type V = UpdateTodoView;

    open spec fn view(&self) -> UpdateTodoView {
        UpdateTodoView {
            title: opt_str_view(self.title),
            description: opt_str_view(self.description),
            completed: self.completed,
        }
    }
}

impl View for TodoRow {
    type V = TodoRowView;

    open spec fn view(&self) -> TodoRowView {
        TodoRowView {
            id: self.id@,
            title: self.title@,
            description: self.description@,
            completed: self.completed,
            created_at: self.created_at@,
        }
    }
}

/// A stored description column read back: the empty text means "no description".
pub open spec fn description_of_column(s: Seq<char>) -> Option<Seq<char>> {
    if s.len() == 0 {
        None
    } else {
        Some(s)
    }
}

/// The text a description is stored as: an absent description is stored empty.
pub open spec fn column_of_description(d: Option<Seq<char>>) -> Seq<char> {
    match d {
        Some(s) => s,
        None => Seq::empty(),
    }
}

/// The text a flag is stored as.
pub open spec fn flag_text(b: bool) -> Seq<char> {
    if b {
        "1"@
    } else {
        "0"@
    }
}

/// The record that a stored row reads back as.
pub open spec fn todo_of_row(r: TodoRowView) -> TodoView {
    TodoView {
        id: r.id,
        title: r.title,
        description: description_of_column(r.description),
        completed: r.completed != 0,
        created_at: r.created_at,
    }
}

/// The row a record is stored as.
pub open spec fn row_of_todo(t: TodoView) -> TodoRowView {
    TodoRowView {
        id: t.id,
        title: t.title,
        description: column_of_description(t.description),
        completed: if t.completed {
            1
        } else {
            0
        },
        created_at: t.created_at,
    }
}

/// A record read from the table never has an empty description: the empty
/// text stands for "no description".
pub open spec fn is_normalized(t: TodoView) -> bool {
    t.description != Some(Seq::<char>::empty())
}

/// The record that a create request yields, given its generated id and timestamp.
pub open spec fn created_todo(id: Seq<char>, created_at: Seq<char>, c: CreateTodoView) -> TodoView {
    TodoView { id, title: c.title, description: c.description, completed: false, created_at }
}

/// The record after a partial update: each supplied field replaces the old
/// value, the others are kept.
pub open spec fn apply_update(t: TodoView, u: UpdateTodoView) -> TodoView {
    TodoView {
        id: t.id,
        title: match u.title {
            Some(s) => s,
            None => t.title,
        },
        description: match u.description {
            Some(s) => Some(s),
            None => t.description,
        },
        completed: match u.completed {
            Some(b) => b,
            None => t.completed,
        },
        created_at: t.created_at,
    }
}

/// An update that supplies no field.
pub open spec fn is_empty_update(u: UpdateTodoView) -> bool {
    u.title is None && u.description is None && u.completed is None
}

impl UpdateTodo {
    /// Whether the update supplies no field at all.
    pub fn is_empty(&self) -> (r: bool)
        ensures
            r == is_empty_update(self@),
    {
        self.title.is_none() && self.description.is_none() && self.completed.is_none()
    }
}

/// Reads a stored description column: empty text becomes `None`.
pub fn description_from_column(s: &String) -> (r: Option<String>)
    ensures
        opt_str_view(r) == description_of_column(s@),
{
    if s.as_str().is_empty() {
        None
    } else {
        Some(s.clone())
    }
}

/// The text a description is stored as.
pub fn description_to_column(d: &Option<String>) -> (r: String)
    ensures
        r@ == column_of_description(opt_str_view(*d)),
{
    match d {
        Some(s) => s.clone(),
        None => String::new(),
    }
}

/// The text a flag is stored as: `"1"` or `"0"`.
pub fn flag_to_text(b: bool) -> (r: String)
    ensures
        r@ == flag_text(b),
{
    if b {
        String::from_str("1")
    } else {
        String::from_str("0")
    }
}

/// Builds the record that a stored row stands for.
pub fn todo_from_row(row: &TodoRow) -> (t: Todo)
    ensures
        t@ == todo_of_row(row@),
        is_normalized(t@),
{
    Todo {
        id: row.id.clone(),
        title: row.title.clone(),
        description: description_from_column(&row.description),
        completed: row.completed != 0,
        created_at: row.created_at.clone(),
    }
}

/// Builds a fresh record from a create request, its id and its creation time.
pub fn new_todo(id: String, created_at: String, create: CreateTodo) -> (t: Todo)
    ensures
        t@ == created_todo(id@, created_at@, create@),
{
    Todo {
        id,
        title: create.title,
        description: create.description,
        completed: false,
        created_at,
    }
}

/// A record stored and read back is the same record, provided its description
/// is not the empty text (which reads back as "no description").
pub proof fn lemma_row_round_trip(t: TodoView)
    requires
        is_normalized(t),
    ensures
        todo_of_row(row_of_todo(t)) == t,
{
    if let Some(s) = t.description {
        if s.len() == 0 {
            assert(s =~= Seq::<char>::empty());
        }
    }
}

/// A created record, stored and fetched back by its id, equals the record the
/// create returned, unless the request's description was the empty text.
pub proof fn lemma_create_then_get(id: Seq<char>, created_at: Seq<char>, c: CreateTodoView)
    requires
        c.description != Some(Seq::<char>::empty()),
    ensures
        todo_of_row(row_of_todo(created_todo(id, created_at, c))) == created_todo(id, created_at, c),
{
    lemma_row_round_trip(created_todo(id, created_at, c));
}

} // verus!
