use todo_app::handlers::{Body, Request, Response};
use todo_app::service::{run_migrations, serve};
use todo_app::store::Database;
use todo_app::task::Task;

fn task(id: i32, item: &str) -> Task {
    Task { id, item: item.to_string() }
}

fn ok(body: Body) -> Response {
    Response { status: 200, body }
}

fn failed() -> Response {
    Response { status: 500, body: Body::Empty }
}

fn launched() -> Database {
    let mut db = Database::new();
    run_migrations(&mut db);
    db
}

fn ids(response: &Response) -> Vec<i32> {
    match &response.body {
        Body::Tasks(tasks) => tasks.iter().map(|t| t.id).collect(),
        other => panic!("not a listing: {:?}", other),
    }
}

#[test]
fn index_answers_with_the_greeting() {
    let mut db = launched();
    assert_eq!(serve(&mut db, Request::Index), ok(Body::Text("Hello, world!".to_string())));
    let mut absent = Database::new();
    assert_eq!(serve(&mut absent, Request::Index), ok(Body::Text("Hello, world!".to_string())));
}

#[test]
fn end_to_end_scenario() {
    let mut db = launched();
    assert_eq!(serve(&mut db, Request::AddTask(task(0, "A"))), ok(Body::Task(task(1, "A"))));
    assert_eq!(serve(&mut db, Request::AddTask(task(0, "B"))), ok(Body::Task(task(2, "B"))));
    assert_eq!(
        serve(&mut db, Request::ReadTasks),
        ok(Body::Tasks(vec![task(1, "A"), task(2, "B")]))
    );
    assert_eq!(serve(&mut db, Request::EditTask(task(1, "A2"))), ok(Body::Task(task(1, "A2"))));
    assert_eq!(
        serve(&mut db, Request::DeleteTask(1)),
        ok(Body::Text("1 task(s) deleted".to_string()))
    );
    assert_eq!(serve(&mut db, Request::ReadTasks), ok(Body::Tasks(vec![task(2, "B")])));
}

#[test]
fn created_task_has_an_id_and_is_listed() {
    let mut db = launched();
    let response = serve(&mut db, Request::AddTask(task(0, "buy milk")));
    assert_eq!(response.status, 200);
    match response.body {
        Body::Task(created) => {
            assert!(created.id >= 1);
            assert_eq!(created.item, "buy milk");
            let listing = serve(&mut db, Request::ReadTasks);
            assert_eq!(listing, ok(Body::Tasks(vec![created])));
        }
        other => panic!("not a task: {:?}", other),
    }
}

#[test]
fn add_task_does_not_read_the_id_of_the_form() {
    let mut db = launched();
    assert_eq!(serve(&mut db, Request::AddTask(task(42, "A"))), ok(Body::Task(task(1, "A"))));
    assert_eq!(serve(&mut db, Request::AddTask(task(1, "B"))), ok(Body::Task(task(2, "B"))));
    assert_eq!(serve(&mut db, Request::AddTask(task(-5, ""))), ok(Body::Task(task(3, ""))));
}

#[test]
fn empty_table_lists_nothing() {
    let mut db = launched();
    assert_eq!(serve(&mut db, Request::ReadTasks), ok(Body::Tasks(vec![])));
}

#[test]
fn listing_ascends_whatever_the_order_of_requests() {
    let mut db = launched();
    for item in ["a", "b", "c", "d", "e", "f"] {
        serve(&mut db, Request::AddTask(task(0, item)));
    }
    serve(&mut db, Request::DeleteTask(4));
    serve(&mut db, Request::DeleteTask(1));
    serve(&mut db, Request::AddTask(task(0, "g")));
    serve(&mut db, Request::EditTask(task(5, "e2")));
    serve(&mut db, Request::DeleteTask(6));
    serve(&mut db, Request::AddTask(task(0, "h")));
    let listing = serve(&mut db, Request::ReadTasks);
    assert_eq!(ids(&listing), vec![2, 3, 5, 7, 8]);
    assert_eq!(
        listing,
        ok(Body::Tasks(vec![
            task(2, "b"),
            task(3, "c"),
            task(5, "e2"),
            task(7, "g"),
            task(8, "h"),
        ]))
    );
}

#[test]
fn edited_task_reads_back_under_the_same_id() {
    let mut db = launched();
    serve(&mut db, Request::AddTask(task(0, "one")));
    serve(&mut db, Request::AddTask(task(0, "two")));
    serve(&mut db, Request::AddTask(task(0, "three")));
    assert_eq!(serve(&mut db, Request::EditTask(task(2, "deux"))), ok(Body::Task(task(2, "deux"))));
    assert_eq!(
        serve(&mut db, Request::ReadTasks),
        ok(Body::Tasks(vec![task(1, "one"), task(2, "deux"), task(3, "three")]))
    );
    assert_eq!(db.find_by_id(2), Ok(Some(task(2, "deux"))));
}

#[test]
fn deleted_task_is_gone_and_second_delete_removes_nothing() {
    let mut db = launched();
    serve(&mut db, Request::AddTask(task(0, "one")));
    serve(&mut db, Request::AddTask(task(0, "two")));
    assert_eq!(
        serve(&mut db, Request::DeleteTask(1)),
        ok(Body::Text("1 task(s) deleted".to_string()))
    );
    assert_eq!(serve(&mut db, Request::ReadTasks), ok(Body::Tasks(vec![task(2, "two")])));
    assert_eq!(
        serve(&mut db, Request::DeleteTask(1)),
        ok(Body::Text("0 task(s) deleted".to_string()))
    );
    assert_eq!(serve(&mut db, Request::ReadTasks), ok(Body::Tasks(vec![task(2, "two")])));
}

#[test]
fn missing_id_fails_predictably_and_changes_nothing() {
    let mut db = launched();
    serve(&mut db, Request::AddTask(task(0, "one")));
    serve(&mut db, Request::AddTask(task(0, "two")));
    assert_eq!(serve(&mut db, Request::EditTask(task(9, "nine"))), failed());
    assert_eq!(serve(&mut db, Request::EditTask(task(0, "zero"))), failed());
    assert_eq!(serve(&mut db, Request::EditTask(task(-1, "minus"))), failed());
    assert_eq!(
        serve(&mut db, Request::DeleteTask(9)),
        ok(Body::Text("0 task(s) deleted".to_string()))
    );
    assert_eq!(
        serve(&mut db, Request::DeleteTask(i32::MIN)),
        ok(Body::Text("0 task(s) deleted".to_string()))
    );
    assert_eq!(
        serve(&mut db, Request::ReadTasks),
        ok(Body::Tasks(vec![task(1, "one"), task(2, "two")]))
    );
    assert_eq!(serve(&mut db, Request::AddTask(task(0, "three"))), ok(Body::Task(task(3, "three"))));
}

#[test]
fn id_of_a_deleted_task_is_not_assigned_again() {
    let mut db = launched();
    serve(&mut db, Request::AddTask(task(0, "one")));
    serve(&mut db, Request::AddTask(task(0, "two")));
    serve(&mut db, Request::DeleteTask(2));
    assert_eq!(serve(&mut db, Request::AddTask(task(0, "three"))), ok(Body::Task(task(3, "three"))));
    serve(&mut db, Request::DeleteTask(1));
    serve(&mut db, Request::DeleteTask(3));
    assert_eq!(serve(&mut db, Request::ReadTasks), ok(Body::Tasks(vec![])));
    assert_eq!(serve(&mut db, Request::AddTask(task(0, "four"))), ok(Body::Task(task(4, "four"))));
}

#[test]
fn every_request_but_index_fails_without_the_table() {
    let mut db = Database::new();
    assert_eq!(serve(&mut db, Request::AddTask(task(0, "A"))), failed());
    assert_eq!(serve(&mut db, Request::ReadTasks), failed());
    assert_eq!(serve(&mut db, Request::EditTask(task(1, "A"))), failed());
    assert_eq!(serve(&mut db, Request::DeleteTask(1)), failed());
    assert!(!db.has_table());
}

#[test]
fn migrations_create_the_table_once_and_keep_its_rows() {
    let mut db = Database::new();
    assert!(!db.has_table());
    run_migrations(&mut db);
    assert!(db.has_table());
    serve(&mut db, Request::AddTask(task(0, "kept")));
    run_migrations(&mut db);
    assert!(db.has_table());
    assert_eq!(serve(&mut db, Request::ReadTasks), ok(Body::Tasks(vec![task(1, "kept")])));
    assert_eq!(serve(&mut db, Request::AddTask(task(0, "next"))), ok(Body::Task(task(2, "next"))));
}
