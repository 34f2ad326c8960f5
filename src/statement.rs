use crate::model::{
    column_of_description, description_to_column, flag_text, flag_to_text, Todo,
    TodoView, UpdateTodo, UpdateTodoView,
};
use vstd::prelude::*;
use vstd::string::StringExecFns;

verus! {

/// The columns that an update may set.
#[derive(Debug, Clone, Copy, PartialEq, Eq, Structural)]
pub enum Column {
    Title,
    Description,
    Completed,
}

/// One `column = ?` of an update, with the value bound to its placeholder.
#[derive(Debug, Clone)]
pub struct Assignment {
    pub column: Column,
    pub value: String,
}

impl View for Assignment {
    type V = (Column, Seq<char>);

    open spec fn view(&self) -> (Column, Seq<char>) {
        (self.column, self.value@)
    }
}

pub open spec fn assignments_view(a: Seq<Assignment>) -> Seq<(Column, Seq<char>)> {
    a.map_values(|x: Assignment| x@)
}

/// The pairs an update sets, in the order title, description, completed,
/// one for each supplied field.
pub open spec fn update_pairs(u: UpdateTodoView) -> Seq<(Column, Seq<char>)> {
    (match u.title {
        Some(s) => seq![(Column::Title, s)],
        None => Seq::empty(),
    }) + (match u.description {
        Some(s) => seq![(Column::Description, s)],
        None => Seq::empty(),
    }) + (match u.completed {
        Some(b) => seq![(Column::Completed, flag_text(b))],
        None => Seq::empty(),
    })
}

/// The text `column = ?` for one column.
pub open spec fn assignment_text(c: Column) -> Seq<char> {
    match c {
        Column::Title => "title = ?"@,
        Column::Description => "description = ?"@,
        Column::Completed => "completed = ?"@,
    }
}

/// The `SET` list of an update: the columns' assignments joined by `", "`.
pub open spec fn set_list(cols: Seq<Column>) -> Seq<char>
    decreases cols.len(),
{
    if cols.len() == 0 {
        Seq::empty()
    } else if cols.len() == 1 {
        assignment_text(cols[0])
    } else {
        set_list(cols.drop_last()) + ", "@ + assignment_text(cols.last())
    }
}

/// The full update statement for the given columns; the record's id is bound
/// to the last placeholder.
pub open spec fn update_sql(cols: Seq<Column>) -> Seq<char> {
    "UPDATE todos SET "@ + set_list(cols) + " WHERE id = ? COLLATE BINARY"@
}

/// The values bound to an update statement: the assignments' values, then the id.
pub open spec fn update_values(pairs: Seq<(Column, Seq<char>)>, id: Seq<char>) -> Seq<Seq<char>> {
    pairs.map_values(|p: (Column, Seq<char>)| p.1).push(id)
}

/// The values bound to the insert statement, in column order.
pub open spec fn insert_values(t: TodoView) -> Seq<Seq<char>> {
    seq![t.id, t.title, column_of_description(t.description), flag_text(t.completed), t.created_at]
}

pub open spec fn strings_view(v: Seq<String>) -> Seq<Seq<char>> {
    v.map_values(|s: String| s@)
}

/// Collects the (column, value) pairs of an update from its supplied fields.
pub fn update_assignments(update: &UpdateTodo) -> (r: Vec<Assignment>)
    ensures
        assignments_view(r@) == update_pairs(update@),
{
    let mut r: Vec<Assignment> = Vec::new();
    if let Some(title) = &update.title {
        r.push(Assignment { column: Column::Title, value: title.clone() });
    }
    let ghost after_title = r@;
    if let Some(description) = &update.description {
        r.push(Assignment { column: Column::Description, value: description.clone() });
    }
    let ghost after_description = r@;
    if let Some(completed) = update.completed {
        r.push(Assignment { column: Column::Completed, value: flag_to_text(completed) });
    }
    proof {
        let u = update@;
        let t_part: Seq<(Column, Seq<char>)> = match u.title {
            Some(s) => seq![(Column::Title, s)],
            None => Seq::empty(),
        };
        let d_part: Seq<(Column, Seq<char>)> = match u.description {
            Some(s) => seq![(Column::Description, s)],
            None => Seq::empty(),
        };
        let c_part: Seq<(Column, Seq<char>)> = match u.completed {
            Some(b) => seq![(Column::Completed, flag_text(b))],
            None => Seq::empty(),
        };
        assert(assignments_view(after_title) =~= t_part);
        assert(assignments_view(after_description) =~= t_part + d_part);
        assert(assignments_view(r@) =~= t_part + d_part + c_part);
    }
    r
}

/// The text `column = ?` for one column.
pub fn assignment_sql(c: Column) -> (r: &'static str)
    ensures
        r@ == assignment_text(c),
{
    match c {
        Column::Title => "title = ?",
        Column::Description => "description = ?",
        Column::Completed => "completed = ?",
    }
}

/// Builds the update statement that sets exactly the given assignments'
/// columns of the record with a given id. Values are never written into the
/// text: each one is a placeholder.
pub fn update_statement(assignments: &Vec<Assignment>) -> (r: String)
    ensures
        r@ == update_sql(assignments_view(assignments@).map_values(|p: (Column, Seq<char>)| p.0)),
{
    let ghost cols = assignments_view(assignments@).map_values(|p: (Column, Seq<char>)| p.0);
    let mut list = String::new();
    let mut i: usize = 0;
    while i < assignments.len()
        invariant
            i <= assignments@.len(),
            cols.len() == assignments@.len(),
            forall|k: int| 0 <= k < cols.len() ==> #[trigger] cols[k] == assignments@[k].column,
            list@ == set_list(cols.take(i as int)),
        decreases assignments@.len() - i,
    {
        if i > 0 {
            list.append(", ");
        }
        list.append(assignment_sql(assignments[i].column));
        proof {
            let next = cols.take(i + 1);
            assert(next.drop_last() =~= cols.take(i as int));
            assert(next.last() == cols[i as int]);
            if i == 0 {
                assert(cols.take(0) =~= Seq::<Column>::empty());
            }
        }
        i = i + 1;
    }
    assert(cols.take(i as int) =~= cols);
    let mut sql = String::from_str("UPDATE todos SET ");
    sql.append(list.as_str());
    sql.append(" WHERE id = ? COLLATE BINARY");
    sql
}

/// The values to bind to the update statement: each assignment's value in
/// order, then the id of the record.
pub fn update_params(assignments: &Vec<Assignment>, id: &str) -> (r: Vec<String>)
    ensures
        strings_view(r@) == update_values(assignments_view(assignments@), id@),
{
    let mut r: Vec<String> = Vec::new();
    let mut i: usize = 0;
    while i < assignments.len()
        invariant
            i <= assignments@.len(),
            r@.len() == i,
            forall|k: int| 0 <= k < i ==> #[trigger] r@[k]@ == assignments@[k].value@,
        decreases assignments@.len() - i,
    {
        r.push(assignments[i].value.clone());
        i = i + 1;
    }
    r.push(String::from_str(id));
    proof {
        assert(strings_view(r@) =~= update_values(assignments_view(assignments@), id@));
    }
    r
}

/// The values to bind to a statement that selects or deletes by id: the id alone.
pub fn id_params(id: &str) -> (r: Vec<String>)
    ensures
        strings_view(r@) == seq![id@],
{
    let mut r: Vec<String> = Vec::new();
    r.push(String::from_str(id));
    assert(strings_view(r@) =~= seq![id@]);
    r
}

/// The values to bind to the insert statement for a record, in column order;
/// an absent description is stored as the empty text.
pub fn insert_params(todo: &Todo) -> (r: Vec<String>)
    ensures
        strings_view(r@) == insert_values(todo@),
{
    let mut r: Vec<String> = Vec::new();
    r.push(todo.id.clone());
    r.push(todo.title.clone());
    r.push(description_to_column(&todo.description));
    r.push(flag_to_text(todo.completed));
    r.push(todo.created_at.clone());
    assert(strings_view(r@) =~= insert_values(todo@));
    r
}

} // verus!
