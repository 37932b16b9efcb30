use todo_app::error::DatabaseError;
use todo_app::store::{Database, Query, Reply};
use todo_app::task::{clone_tasks, Task};

fn task(id: i32, item: &str) -> Task {
    Task { id, item: item.to_string() }
}

fn present() -> Database {
    let mut db = Database::new();
    assert_eq!(db.create_table(false), Ok(()));
    db
}

#[test]
fn new_database_has_no_table() {
    let db = Database::new();
    assert!(!db.has_table());
    assert_eq!(db.select_all(), Err(DatabaseError::Storage));
    assert_eq!(db.find_by_id(1), Err(DatabaseError::Storage));
}

#[test]
fn statements_fail_and_change_nothing_without_the_table() {
    let mut db = Database::new();
    assert_eq!(db.insert("A".to_string()), Err(DatabaseError::Storage));
    assert_eq!(db.update(1, "A".to_string()), Err(DatabaseError::Storage));
    assert_eq!(db.delete_by_id(1), Err(DatabaseError::Storage));
    assert!(!db.has_table());
}

#[test]
fn create_table_is_guarded_by_if_not_exists() {
    let mut db = Database::new();
    assert_eq!(db.create_table(true), Ok(()));
    assert!(db.has_table());
    assert_eq!(db.insert("kept".to_string()), Ok(task(1, "kept")));
    assert_eq!(db.create_table(true), Ok(()));
    assert_eq!(db.select_all(), Ok(vec![task(1, "kept")]));
    assert_eq!(db.create_table(false), Err(DatabaseError::Storage));
    assert_eq!(db.select_all(), Ok(vec![task(1, "kept")]));
}

#[test]
fn drop_table_removes_the_rows_and_fails_on_an_absent_table() {
    let mut db = present();
    assert_eq!(db.insert("A".to_string()), Ok(task(1, "A")));
    assert_eq!(db.drop_table(false), Ok(()));
    assert!(!db.has_table());
    assert_eq!(db.select_all(), Err(DatabaseError::Storage));
    assert_eq!(db.drop_table(false), Err(DatabaseError::Storage));
    assert_eq!(db.drop_table(true), Ok(()));
    assert!(!db.has_table());
}

#[test]
fn a_table_created_anew_is_empty_and_counts_from_one() {
    let mut db = present();
    assert_eq!(db.insert("A".to_string()), Ok(task(1, "A")));
    assert_eq!(db.insert("B".to_string()), Ok(task(2, "B")));
    assert_eq!(db.drop_table(false), Ok(()));
    assert_eq!(db.create_table(false), Ok(()));
    assert_eq!(db.select_all(), Ok(vec![]));
    assert_eq!(db.insert("C".to_string()), Ok(task(1, "C")));
}

#[test]
fn insert_assigns_consecutive_ids() {
    let mut db = present();
    assert_eq!(db.insert("A".to_string()), Ok(task(1, "A")));
    assert_eq!(db.insert("B".to_string()), Ok(task(2, "B")));
    assert_eq!(db.insert("A".to_string()), Ok(task(3, "A")));
    assert_eq!(db.select_all(), Ok(vec![task(1, "A"), task(2, "B"), task(3, "A")]));
}

#[test]
fn find_by_id_gives_the_row_or_none() {
    let mut db = present();
    assert_eq!(db.find_by_id(1), Ok(None));
    db.insert("A".to_string()).unwrap();
    db.insert("B".to_string()).unwrap();
    assert_eq!(db.find_by_id(1), Ok(Some(task(1, "A"))));
    assert_eq!(db.find_by_id(2), Ok(Some(task(2, "B"))));
    assert_eq!(db.find_by_id(3), Ok(None));
    assert_eq!(db.find_by_id(0), Ok(None));
    assert_eq!(db.find_by_id(-1), Ok(None));
}

#[test]
fn update_replaces_the_text_of_one_row() {
    let mut db = present();
    db.insert("A".to_string()).unwrap();
    db.insert("B".to_string()).unwrap();
    db.insert("C".to_string()).unwrap();
    assert_eq!(db.update(2, "B2".to_string()), Ok(task(2, "B2")));
    assert_eq!(db.select_all(), Ok(vec![task(1, "A"), task(2, "B2"), task(3, "C")]));
    assert_eq!(db.update(2, "B".to_string()), Ok(task(2, "B")));
    assert_eq!(db.update(3, "C3".to_string()), Ok(task(3, "C3")));
    assert_eq!(db.select_all(), Ok(vec![task(1, "A"), task(2, "B"), task(3, "C3")]));
}

#[test]
fn update_of_a_missing_row_is_not_found() {
    let mut db = present();
    assert_eq!(db.update(1, "A".to_string()), Err(DatabaseError::NotFound));
    db.insert("A".to_string()).unwrap();
    assert_eq!(db.update(2, "B".to_string()), Err(DatabaseError::NotFound));
    assert_eq!(db.update(0, "B".to_string()), Err(DatabaseError::NotFound));
    assert_eq!(db.select_all(), Ok(vec![task(1, "A")]));
}

#[test]
fn delete_by_id_counts_the_rows_removed() {
    let mut db = present();
    assert_eq!(db.delete_by_id(1), Ok(0));
    db.insert("A".to_string()).unwrap();
    db.insert("B".to_string()).unwrap();
    db.insert("C".to_string()).unwrap();
    assert_eq!(db.delete_by_id(2), Ok(1));
    assert_eq!(db.select_all(), Ok(vec![task(1, "A"), task(3, "C")]));
    assert_eq!(db.delete_by_id(2), Ok(0));
    assert_eq!(db.delete_by_id(3), Ok(1));
    assert_eq!(db.delete_by_id(1), Ok(1));
    assert_eq!(db.select_all(), Ok(vec![]));
    assert_eq!(db.insert("D".to_string()), Ok(task(4, "D")));
}

#[test]
fn execute_answers_each_statement() {
    let mut db = present();
    assert_eq!(
        db.execute(Query::Insert { item: "A".to_string() }),
        Ok(Reply::Row(task(1, "A")))
    );
    assert_eq!(db.execute(Query::SelectAll), Ok(Reply::Rows(vec![task(1, "A")])));
    assert_eq!(db.execute(Query::FindById { id: 1 }), Ok(Reply::Found(Some(task(1, "A")))));
    assert_eq!(db.execute(Query::FindById { id: 2 }), Ok(Reply::Found(None)));
    assert_eq!(
        db.execute(Query::Update { id: 1, item: "A2".to_string() }),
        Ok(Reply::Row(task(1, "A2")))
    );
    assert_eq!(
        db.execute(Query::Update { id: 2, item: "B".to_string() }),
        Err(DatabaseError::NotFound)
    );
    assert_eq!(db.execute(Query::DeleteById { id: 2 }), Ok(Reply::Deleted(0)));
    assert_eq!(db.execute(Query::DeleteById { id: 1 }), Ok(Reply::Deleted(1)));
    assert_eq!(db.execute(Query::SelectAll), Ok(Reply::Rows(vec![])));
}

#[test]
fn execute_fails_without_the_table() {
    let mut db = Database::new();
    assert_eq!(db.execute(Query::Insert { item: "A".to_string() }), Err(DatabaseError::Storage));
    assert_eq!(db.execute(Query::SelectAll), Err(DatabaseError::Storage));
    assert_eq!(db.execute(Query::FindById { id: 1 }), Err(DatabaseError::Storage));
    assert_eq!(
        db.execute(Query::Update { id: 1, item: "A".to_string() }),
        Err(DatabaseError::Storage)
    );
    assert_eq!(db.execute(Query::DeleteById { id: 1 }), Err(DatabaseError::Storage));
}

#[test]
fn tasks_are_copied_one_for_one() {
    let tasks = vec![task(1, "A"), task(2, "B")];
    assert_eq!(clone_tasks(&tasks), tasks);
    assert_eq!(clone_tasks(&Vec::new()), Vec::<Task>::new());
    assert_eq!(task(3, "C").clone(), task(3, "C"));
    assert_eq!(Task::new(4, "D".to_string()), task(4, "D"));
}
