//! How a store operation can fail.

use vstd::prelude::*;

verus! {

/// The classes of failure of the credential store.
#[derive(Debug, Clone, Copy, PartialEq, Eq, Structural)]
pub enum DatabaseError {
    /// A value that must be unique is already taken.
    Conflict,
    /// No record answers the lookup.
    NotFound,
    /// The record was found but its time has passed.
    Expired,
    /// The store could not be reached in time.
    Unavailable,
    /// Anything else.
    Internal,
}

impl DatabaseError {
    /// The message that belongs to this error.
    pub open spec fn message_text(&self) -> Seq<char> {
        match self {
            DatabaseError::Conflict => "Record already exists"@,
            DatabaseError::NotFound => "Record not found"@,
            DatabaseError::Expired => "Record has expired"@,
            DatabaseError::Unavailable => "Store is unavailable"@,
            DatabaseError::Internal => "Internal store error"@,
        }
    }

    /// The message that belongs to this error.
    pub fn message(&self) -> (s: &'static str)
        ensures
            s@ == self.message_text(),
    {
        match self {
            DatabaseError::Conflict => "Record already exists",
            DatabaseError::NotFound => "Record not found",
            DatabaseError::Expired => "Record has expired",
            DatabaseError::Unavailable => "Store is unavailable",
            DatabaseError::Internal => "Internal store error",
        }
    }
}

} // verus!
