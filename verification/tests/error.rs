use sea_orm::DbErr;
use todo_app::error::{DatabaseError, INTERNAL_SERVER_ERROR};

#[test]
fn every_failure_is_answered_with_500() {
    assert_eq!(INTERNAL_SERVER_ERROR, 500);
    assert_eq!(DatabaseError::Storage.respond_to(), 500);
    assert_eq!(DatabaseError::NotFound.respond_to(), 500);
}

#[test]
fn an_error_of_the_database_layer_is_a_storage_failure() {
    assert_eq!(DatabaseError::from(DbErr::Custom("connection lost".to_string())), DatabaseError::Storage);
    assert_eq!(DatabaseError::from(DbErr::RecordNotUpdated), DatabaseError::Storage);
    assert_eq!(
        DatabaseError::from(DbErr::RecordNotFound("tasks".to_string())),
        DatabaseError::Storage
    );
}
