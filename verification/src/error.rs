//! The failures of the service and how they are answered.

use vstd::prelude::*;

verus! {

/// The error that the database layer reports for a failed statement.
#[verifier::external_type_specification]
#[verifier::external_body]
pub struct ExDbErr(sea_orm::DbErr);

/// The HTTP status of every failed request.
pub const INTERNAL_SERVER_ERROR: u16 = 500;

/// Why a request could not be served.
#[derive(Debug, Clone, Copy, PartialEq, Eq, Structural)]
pub enum DatabaseError {
    /// The request named an identifier that no row has.
    NotFound,
    /// The store could not carry out the statement.
    Storage,
}

impl DatabaseError {
    /// The status that answers a failed request. The kind of failure is not
    /// told apart, and no detail of it reaches the client.
    pub fn respond_to(&self) -> (status: u16)
        ensures
            status == INTERNAL_SERVER_ERROR,
    {
        INTERNAL_SERVER_ERROR
    }
}

impl From<sea_orm::DbErr> for DatabaseError {
    /// Whatever the database layer reports is a storage failure.
    fn from(error: sea_orm::DbErr) -> (e: DatabaseError) {
        DatabaseError::Storage
    }
}

impl vstd::std_specs::convert::FromSpecImpl<sea_orm::DbErr> for DatabaseError {
    open spec fn obeys_from_spec() -> bool {
        true
    }

    open spec fn from_spec(error: sea_orm::DbErr) -> DatabaseError {
        DatabaseError::Storage
    }
}

} // verus!
