use vstd::prelude::*;

verus! {

/// The classes of failure that the data-access layer reports.
pub enum ErrorKind {
    AlreadyInitialized,
    NotInitialized,
    NotFound,
    Storage,
}

/// An error of the data-access layer. A storage error carries the store's
/// own message, or a description of a row that could not be decoded.
#[derive(Debug, Clone, PartialEq, Eq)]
pub enum DbError {
    /// The pool was initialized a second time.
    AlreadyInitialized,
    /// A pool was asked for before any was initialized.
    NotInitialized,
    /// A lookup by id matched no row.
    NotFound,
    /// The store failed, or returned what the schema does not allow.
    Storage(String),
}

impl DbError {
    pub open spec fn kind(&self) -> ErrorKind {
        match self {
            DbError::AlreadyInitialized => ErrorKind::AlreadyInitialized,
            DbError::NotInitialized => ErrorKind::NotInitialized,
            DbError::NotFound => ErrorKind::NotFound,
            DbError::Storage(_) => ErrorKind::Storage,
        }
    }

    /// The text that `message` gives for each error.
    pub open spec fn message_spec(&self) -> Seq<char> {
        match self {
            DbError::AlreadyInitialized => "database pool already initialized"@,
            DbError::NotInitialized => "database pool not initialized"@,
            DbError::NotFound => "no row matches the given id"@,
            DbError::Storage(m) => m@,
        }
    }

    /// A storage error with the store's message.
    pub fn storage(message: String) -> (r: DbError)
        ensures
            r == DbError::Storage(message),
    {
        DbError::Storage(message)
    }

    /// A short text for the caller to show or log.
    pub fn message(&self) -> (r: String)
        ensures
            r@ == self.message_spec(),
    {
        match self {
            DbError::AlreadyInitialized => String::from_str("database pool already initialized"),
            DbError::NotInitialized => String::from_str("database pool not initialized"),
            DbError::NotFound => String::from_str("no row matches the given id"),
            DbError::Storage(m) => m.clone(),
        }
    }
}

} // verus!
