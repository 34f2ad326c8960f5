use crate::model::{
    apply_update, is_empty_update, is_normalized, row_of_todo, todo_of_row, Todo, TodoRowView,
    flag_text, TodoView, UpdateTodo, UpdateTodoView,
};
use crate::statement::{assignments_view, update_assignments, update_pairs, Assignment, Column};
use vstd::prelude::*;

verus! {

/// What an update request comes to, once the record has been looked up.
pub enum UpdatePlan {
    /// There is no record with that id: nothing is written.
    NotFound,
    /// No field was supplied: the record is returned as it is.
    Unchanged(Todo),
    /// One update statement sets these columns.
    Write(Vec<Assignment>),
}

pub enum UpdatePlanView {
    NotFound,
    Unchanged(TodoView),
    Write(Seq<(Column, Seq<char>)>),
}

impl View for UpdatePlan {
    type V = UpdatePlanView;

    open spec fn view(&self) -> UpdatePlanView {
        match self {
            UpdatePlan::NotFound => UpdatePlanView::NotFound,
            UpdatePlan::Unchanged(t) => UpdatePlanView::Unchanged(t@),
            UpdatePlan::Write(a) => UpdatePlanView::Write(assignments_view(a@)),
        }
    }
}

/// The plan for an update, given the record that the lookup found.
pub open spec fn planned(existing: Option<TodoView>, u: UpdateTodoView) -> UpdatePlanView {
    match existing {
        None => UpdatePlanView::NotFound,
        Some(t) => if is_empty_update(u) {
            UpdatePlanView::Unchanged(t)
        } else {
            UpdatePlanView::Write(update_pairs(u))
        },
    }
}

pub open spec fn opt_todo_view(o: Option<Todo>) -> Option<TodoView> {
    match o {
        Some(t) => Some(t@),
        None => None,
    }
}

/// Decides what an update does with the record that the lookup found.
pub fn plan_update(existing: Option<Todo>, update: &UpdateTodo) -> (r: UpdatePlan)
    ensures
        r@ == planned(opt_todo_view(existing), update@),
{
    match existing {
        None => UpdatePlan::NotFound,
        Some(t) => {
            if update.is_empty() {
                UpdatePlan::Unchanged(t)
            } else {
                UpdatePlan::Write(update_assignments(update))
            }
        },
    }
}

/// What an update answers without writing, or the assignments it must write:
/// `Ok(None)` when there is no record, `Ok(Some(record))` unchanged when no
/// field is supplied, otherwise `Err` with the supplied columns' assignments.
pub fn update_outcome(existing: Option<Todo>, update: &UpdateTodo) -> (r: Result<Option<Todo>, Vec<Assignment>>)
    ensures
        existing is None ==> r matches Ok(None),
        existing is Some && is_empty_update(update@) ==> (r matches Ok(Some(t2)) && t2@ == existing->0@),
        existing is Some && !is_empty_update(update@) ==> (r matches Err(a) && assignments_view(a@) == update_pairs(update@)),
{
    match plan_update(existing, update) {
        UpdatePlan::NotFound => Ok(None),
        UpdatePlan::Unchanged(t) => Ok(Some(t)),
        UpdatePlan::Write(assignments) => Err(assignments),
    }
}

/// A row after one `column = value` of an update. The flag column takes the
/// stored text `"1"` as 1 and any other as 0.
pub open spec fn assign_one(row: TodoRowView, p: (Column, Seq<char>)) -> TodoRowView {
    match p.0 {
        Column::Title => TodoRowView { title: p.1, ..row },
        Column::Description => TodoRowView { description: p.1, ..row },
        Column::Completed => TodoRowView {
            completed: if p.1 == "1"@ {
                1
            } else {
                0
            },
            ..row
        },
    }
}

/// A row after all the assignments of an update, in order.
pub open spec fn assign_row(row: TodoRowView, pairs: Seq<(Column, Seq<char>)>) -> TodoRowView
    decreases pairs.len(),
{
    if pairs.len() == 0 {
        row
    } else {
        assign_one(assign_row(row, pairs.drop_last()), pairs.last())
    }
}

/// Updating an id that has no record comes to "not found", and no statement
/// is written, whatever the update holds.
pub proof fn lemma_update_missing_is_not_found(u: UpdateTodoView)
    ensures
        planned(None, u) == UpdatePlanView::NotFound,
{
}

/// Updating a record with no field supplied returns the record unchanged.
pub proof fn lemma_empty_update_returns_record(t: TodoView, u: UpdateTodoView)
    requires
        is_empty_update(u),
    ensures
        planned(Some(t), u) == UpdatePlanView::Unchanged(t),
        apply_update(t, u) == t,
{
}

/// One more assignment at the end of an update acts on the row the others left.
proof fn lemma_assign_push(row: TodoRowView, a: Seq<(Column, Seq<char>)>, p: (Column, Seq<char>))
    ensures
        assign_row(row, a.push(p)) == assign_one(assign_row(row, a), p),
{
    assert(a.push(p).drop_last() =~= a);
}

/// The part of an update's pairs that an optional field adds, appended.
proof fn lemma_assign_part(row: TodoRowView, a: Seq<(Column, Seq<char>)>, part: Seq<(Column, Seq<char>)>)
    requires
        part.len() <= 1,
    ensures
        part.len() == 0 ==> assign_row(row, a + part) == assign_row(row, a),
        part.len() == 1 ==> assign_row(row, a + part) == assign_one(assign_row(row, a), part[0]),
{
    if part.len() == 0 {
        assert(a + part =~= a);
    } else {
        assert(a + part =~= a.push(part[0]));
        lemma_assign_push(row, a, part[0]);
    }
}

/// The statement that a write plan runs, applied to the stored row of the
/// record, leaves the row that the updated record is stored as; read back, it
/// is the updated record (unless the update sets the empty description, which
/// reads back as none).
pub proof fn lemma_write_reads_back_updated(t: TodoView, u: UpdateTodoView)
    requires
        !is_empty_update(u),
        is_normalized(apply_update(t, u)),
    ensures
        planned(Some(t), u) == UpdatePlanView::Write(update_pairs(u)),
        todo_of_row(assign_row(row_of_todo(t), update_pairs(u))) == apply_update(t, u),
{
    reveal_strlit("1");
    reveal_strlit("0");
    assert("0"@[0] != "1"@[0]);
    assert("0"@ != "1"@);
    let t_part: Seq<(Column, Seq<char>)> = match u.title {
        Some(s) => seq![(Column::Title, s)],
        None => Seq::empty(),
    };
    let d_part: Seq<(Column, Seq<char>)> = match u.description {
        Some(s) => seq![(Column::Description, s)],
        None => Seq::empty(),
    };
    let c_part: Seq<(Column, Seq<char>)> = match u.completed {
        Some(b) => seq![(Column::Completed, flag_text(b))],
        None => Seq::empty(),
    };
    let empty = Seq::<(Column, Seq<char>)>::empty();
    assert(update_pairs(u) == t_part + d_part + c_part);
    assert(empty + t_part =~= t_part);
    let row = row_of_todo(t);
    lemma_assign_part(row, empty, t_part);
    lemma_assign_part(row, t_part, d_part);
    lemma_assign_part(row, t_part + d_part, c_part);
    let want = apply_update(t, u);
    if let Some(s) = want.description {
        if s.len() == 0 {
            assert(s =~= Seq::<char>::empty());
        }
    }
    assert(todo_of_row(assign_row(row, update_pairs(u))) =~= want);
}

} // verus!
