use todo_backend::api::{
    create_todo_reply, delete_todo_reply, get_todo_reply, get_todos_reply, update_todo_reply,
};
use todo_backend::database::{
    delete_outcome, first_todo, insert_outcome, listing_outcome, lookup_outcome, removed_any, todos_from_rows,
    StorageError,
};
use todo_backend::model::{
    description_from_column, description_to_column, flag_to_text, new_todo, todo_from_row,
    CreateTodo, Todo, TodoRow, UpdateTodo,
};
use todo_backend::statement::{
    id_params, insert_params, update_assignments, update_params, update_statement, Column,
};
use todo_backend::update::{plan_update, update_outcome, UpdatePlan};

fn row(id: &str, description: &str, completed: i32, created_at: &str) -> TodoRow {
    TodoRow {
        id: id.to_string(),
        title: format!("title {}", id),
        description: description.to_string(),
        completed,
        created_at: created_at.to_string(),
    }
}

fn todo(id: &str) -> Todo {
    Todo {
        id: id.to_string(),
        title: "Buy milk".to_string(),
        description: None,
        completed: false,
        created_at: "2024-01-01T00:00:00+00:00".to_string(),
    }
}

fn sql_failure() -> StorageError {
    StorageError::Sql(rusqlite::Error::QueryReturnedNoRows)
}

#[test]
fn description_column_empty_is_none() {
    assert_eq!(description_from_column(&String::new()), None);
    assert_eq!(description_from_column(&"milk".to_string()), Some("milk".to_string()));
    assert_eq!(description_to_column(&None), "");
    assert_eq!(description_to_column(&Some("milk".to_string())), "milk");
}

#[test]
fn flags_are_stored_as_one_and_zero() {
    assert_eq!(flag_to_text(true), "1");
    assert_eq!(flag_to_text(false), "0");
}

#[test]
fn row_becomes_record() {
    let t = todo_from_row(&row("a", "", 0, "ts"));
    assert_eq!(t.id, "a");
    assert_eq!(t.title, "title a");
    assert_eq!(t.description, None);
    assert!(!t.completed);
    assert_eq!(t.created_at, "ts");
    let t = todo_from_row(&row("b", "note", 2, "ts"));
    assert_eq!(t.description, Some("note".to_string()));
    assert!(t.completed);
}

#[test]
fn rows_keep_their_order() {
    let rows = vec![row("z", "", 1, "3"), row("a", "x", 0, "2"), row("m", "", 0, "1")];
    let todos = todos_from_rows(&rows);
    let ids: Vec<&str> = todos.iter().map(|t| t.id.as_str()).collect();
    assert_eq!(ids, vec!["z", "a", "m"]);
    assert!(first_todo(&Vec::new()).is_none());
    assert_eq!(first_todo(&rows).unwrap().id, "z");
}

#[test]
fn new_record_is_not_completed() {
    let c = CreateTodo { title: "Buy milk".to_string(), description: Some("2".to_string()) };
    let t = new_todo("id-1".to_string(), "now".to_string(), c);
    assert_eq!(t.id, "id-1");
    assert_eq!(t.title, "Buy milk");
    assert_eq!(t.description, Some("2".to_string()));
    assert!(!t.completed);
    assert_eq!(t.created_at, "now");
}

#[test]
fn insert_values_in_column_order() {
    let mut t = todo("id-1");
    assert_eq!(
        insert_params(&t),
        vec!["id-1", "Buy milk", "", "0", "2024-01-01T00:00:00+00:00"]
    );
    t.description = Some("d".to_string());
    t.completed = true;
    assert_eq!(insert_params(&t)[2], "d");
    assert_eq!(insert_params(&t)[3], "1");
}

#[test]
fn update_builds_only_supplied_columns() {
    let u = UpdateTodo { title: Some("New".to_string()), description: None, completed: Some(true) };
    let a = update_assignments(&u);
    assert_eq!(a.len(), 2);
    assert_eq!(a[0].column, Column::Title);
    assert_eq!(a[0].value, "New");
    assert_eq!(a[1].column, Column::Completed);
    assert_eq!(a[1].value, "1");
    assert_eq!(update_statement(&a), "UPDATE todos SET title = ?, completed = ? WHERE id = ? COLLATE BINARY");
    assert_eq!(update_params(&a, "id-9"), vec!["New", "1", "id-9"]);
}

#[test]
fn update_with_every_field() {
    let u = UpdateTodo {
        title: Some("T".to_string()),
        description: Some("D".to_string()),
        completed: Some(false),
    };
    let a = update_assignments(&u);
    assert_eq!(
        update_statement(&a),
        "UPDATE todos SET title = ?, description = ?, completed = ? WHERE id = ? COLLATE BINARY"
    );
    assert_eq!(update_params(&a, "k"), vec!["T", "D", "0", "k"]);
}

#[test]
fn update_with_description_only() {
    let u = UpdateTodo { title: None, description: Some("D".to_string()), completed: None };
    let a = update_assignments(&u);
    assert_eq!(update_statement(&a), "UPDATE todos SET description = ? WHERE id = ? COLLATE BINARY");
}

#[test]
fn empty_update_has_no_assignments() {
    let u = UpdateTodo { title: None, description: None, completed: None };
    assert!(u.is_empty());
    assert!(update_assignments(&u).is_empty());
    assert_eq!(update_statement(&Vec::new()), "UPDATE todos SET  WHERE id = ? COLLATE BINARY");
}

#[test]
fn plan_for_each_case() {
    let empty = UpdateTodo { title: None, description: None, completed: None };
    let some = UpdateTodo { title: None, description: None, completed: Some(true) };
    assert!(matches!(plan_update(None, &some), UpdatePlan::NotFound));
    assert!(matches!(plan_update(None, &empty), UpdatePlan::NotFound));
    match plan_update(Some(todo("a")), &empty) {
        UpdatePlan::Unchanged(t) => assert_eq!(t.id, "a"),
        _ => panic!("expected the record unchanged"),
    }
    match plan_update(Some(todo("a")), &some) {
        UpdatePlan::Write(a) => {
            assert_eq!(a.len(), 1);
            assert_eq!(a[0].column, Column::Completed);
        }
        _ => panic!("expected a write"),
    }
}

#[test]
fn removed_only_when_a_row_changed() {
    assert!(!removed_any(0));
    assert!(removed_any(1));
}

#[test]
fn list_replies() {
    let (status, v) = get_todos_reply(Ok(vec![todo("a")])).unwrap();
    assert_eq!(status, 200);
    assert_eq!(v.len(), 1);
    let e = get_todos_reply(Err(sql_failure())).unwrap_err();
    assert_eq!((e.status, e.message.as_str()), (500, "Failed to get todos"));
}

#[test]
fn create_replies() {
    let (status, t) = create_todo_reply(Ok(todo("a"))).unwrap();
    assert_eq!((status, t.id.as_str()), (201, "a"));
    let e = create_todo_reply(Err(sql_failure())).unwrap_err();
    assert_eq!((e.status, e.message.as_str()), (500, "Failed to create todo"));
}

#[test]
fn get_replies() {
    let (status, t) = get_todo_reply(Ok(Some(todo("a")))).unwrap();
    assert_eq!((status, t.id.as_str()), (200, "a"));
    let e = get_todo_reply(Ok(None)).unwrap_err();
    assert_eq!((e.status, e.message.as_str()), (404, "Todo not found"));
    let e = get_todo_reply(Err(sql_failure())).unwrap_err();
    assert_eq!((e.status, e.message.as_str()), (500, "Failed to get todo"));
}

#[test]
fn update_replies() {
    let (status, t) = update_todo_reply(Ok(Some(todo("a")))).unwrap();
    assert_eq!((status, t.id.as_str()), (200, "a"));
    let e = update_todo_reply(Ok(None)).unwrap_err();
    assert_eq!((e.status, e.message.as_str()), (404, "Todo not found"));
    let e = update_todo_reply(Err(sql_failure())).unwrap_err();
    assert_eq!((e.status, e.message.as_str()), (500, "Failed to update todo"));
}

#[test]
fn delete_replies() {
    let (status, m) = delete_todo_reply(Ok(true)).unwrap();
    assert_eq!((status, m.as_str()), (200, "Todo deleted successfully"));
    let e = delete_todo_reply(Ok(false)).unwrap_err();
    assert_eq!((e.status, e.message.as_str()), (404, "Todo not found"));
    let e = delete_todo_reply(Err(sql_failure())).unwrap_err();
    assert_eq!((e.status, e.message.as_str()), (500, "Failed to delete todo"));
}


#[test]
fn id_is_the_only_bound_value() {
    assert_eq!(id_params("abc"), vec!["abc"]);
}

#[test]
fn lookup_takes_the_first_row() {
    let found = lookup_outcome(Ok(vec![row("a", "x", 1, "t")])).unwrap().unwrap();
    assert_eq!(found.id, "a");
    assert_eq!(found.description, Some("x".to_string()));
    assert!(found.completed);
    assert!(lookup_outcome(Ok(Vec::new())).unwrap().is_none());
    assert!(matches!(
        lookup_outcome(Err(rusqlite::Error::QueryReturnedNoRows)),
        Err(StorageError::Sql(rusqlite::Error::QueryReturnedNoRows))
    ));
}

#[test]
fn listing_keeps_rows() {
    let v = listing_outcome(Ok(vec![row("b", "", 0, "2"), row("a", "", 0, "1")])).unwrap();
    let ids: Vec<&str> = v.iter().map(|t| t.id.as_str()).collect();
    assert_eq!(ids, vec!["b", "a"]);
    assert!(matches!(listing_outcome(Err(rusqlite::Error::QueryReturnedNoRows)), Err(StorageError::Sql(_))));
}

#[test]
fn delete_outcome_from_count() {
    assert!(matches!(delete_outcome(Ok(1)), Ok(true)));
    assert!(matches!(delete_outcome(Ok(0)), Ok(false)));
    assert!(matches!(delete_outcome(Err(rusqlite::Error::QueryReturnedNoRows)), Err(StorageError::Sql(_))));
}

#[test]
fn update_outcome_for_each_case() {
    let empty = UpdateTodo { title: None, description: None, completed: None };
    let some = UpdateTodo { title: Some("New".to_string()), description: None, completed: None };
    assert!(matches!(update_outcome(None, &some), Ok(None)));
    let same = update_outcome(Some(todo("a")), &empty).unwrap().unwrap();
    assert_eq!(same.id, "a");
    assert_eq!(same.title, "Buy milk");
    match update_outcome(Some(todo("a")), &some) {
        Err(a) => {
            assert_eq!(a.len(), 1);
            assert_eq!(a[0].column, Column::Title);
            assert_eq!(a[0].value, "New");
        }
        Ok(_) => panic!("expected assignments to write"),
    }
}

#[test]
fn insert_outcome_keeps_record_or_error() {
    let t = insert_outcome(Ok(1), todo("a")).unwrap();
    assert_eq!(t.id, "a");
    assert_eq!(t.title, "Buy milk");
    assert!(matches!(
        insert_outcome(Err(rusqlite::Error::QueryReturnedNoRows), todo("a")),
        Err(StorageError::Sql(rusqlite::Error::QueryReturnedNoRows))
    ));
}
