//! The ways in which reading from or writing to the store fails.

use vstd::prelude::*;

verus! {

/// Why the store did not do what it was asked.
#[derive(Clone, Copy, Debug, PartialEq, Eq, Structural)]
pub enum DbError {
    /// No row has the natural key or the identity key that was asked for.
    NotFound,
    /// The store cannot serve the request: here, because a table has handed
    /// out its last identity key.
    StorageUnavailable,
}

impl DbError {
    /// The text under which the failure is reported.
    pub open spec fn message_of(self) -> Seq<char> {
        match self {
            DbError::NotFound => "Record not found"@,
            DbError::StorageUnavailable => "Fail to access database."@,
        }
    }

    /// The text under which the failure is reported.
    pub fn message(&self) -> (r: String)
        ensures
            r@ == self.message_of(),
    {
        match self {
            DbError::NotFound => "Record not found".to_string(),
            DbError::StorageUnavailable => "Fail to access database.".to_string(),
        }
    }
}

/// Why a request was not carried out, as it is reported to the user.
#[derive(Clone, Copy, Debug, PartialEq, Eq, Structural)]
pub enum Failure {
    /// A lookup by natural key or identity key found no row.
    NotFound,
    /// An update or a delete was aimed at an identity key that no row has.
    ZeroRowsAffected,
    /// The store could not serve the request.
    StorageUnavailable,
    /// A partition was to be written for a person or a genre that is not
    /// in the store.
    ValidationGap,
}

impl Failure {
    /// The failure that a failed read or write of the store amounts to.
    pub open spec fn of(e: DbError) -> Failure {
        match e {
            DbError::NotFound => Failure::NotFound,
            DbError::StorageUnavailable => Failure::StorageUnavailable,
        }
    }

    /// The failure that a failed write of a partition amounts to: a row that
    /// was not found there is a person or a genre that the partition names.
    pub open spec fn of_partition_write(e: DbError) -> Failure {
        match e {
            DbError::NotFound => Failure::ValidationGap,
            DbError::StorageUnavailable => Failure::StorageUnavailable,
        }
    }

    /// The HTTP status under which the failure is answered.
    pub open spec fn status_of(self) -> u16 {
        match self {
            Failure::NotFound => 404,
            Failure::ZeroRowsAffected => 404,
            Failure::StorageUnavailable => 500,
            Failure::ValidationGap => 400,
        }
    }

    /// The text under which the failure is reported.
    pub open spec fn message_of(self) -> Seq<char> {
        match self {
            Failure::NotFound => "Record not found"@,
            Failure::ZeroRowsAffected => "No row affected"@,
            Failure::StorageUnavailable => "Fail to access database."@,
            Failure::ValidationGap => "Person or genre not found"@,
        }
    }

    /// The failure that a failed read or write of the store amounts to.
    pub fn from_db(e: DbError) -> (r: Failure)
        ensures
            r == Failure::of(e),
    {
        match e {
            DbError::NotFound => Failure::NotFound,
            DbError::StorageUnavailable => Failure::StorageUnavailable,
        }
    }

    /// The failure that a failed write of a partition amounts to.
    pub fn from_partition_write(e: DbError) -> (r: Failure)
        ensures
            r == Failure::of_partition_write(e),
    {
        match e {
            DbError::NotFound => Failure::ValidationGap,
            DbError::StorageUnavailable => Failure::StorageUnavailable,
        }
    }

    /// The HTTP status under which the failure is answered: 404 where a row
    /// is missing, 400 where the input names a missing person or genre, 500
    /// where the store fails.
    pub fn status(&self) -> (r: u16)
        ensures
            r == self.status_of(),
    {
        match self {
            Failure::NotFound => 404,
            Failure::ZeroRowsAffected => 404,
            Failure::StorageUnavailable => 500,
            Failure::ValidationGap => 400,
        }
    }

    /// The text under which the failure is reported.
    pub fn message(&self) -> (r: String)
        ensures
            r@ == self.message_of(),
    {
        match self {
            Failure::NotFound => "Record not found".to_string(),
            Failure::ZeroRowsAffected => "No row affected".to_string(),
            Failure::StorageUnavailable => "Fail to access database.".to_string(),
            Failure::ValidationGap => "Person or genre not found".to_string(),
        }
    }
}

} // verus!
