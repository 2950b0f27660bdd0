use vstd::prelude::*;

verus! {

/// What kind of database failure a request ran into.
#[derive(Debug, Clone, Copy, PartialEq, Eq, Structural)]
pub enum DbFailureKind {
    /// A transaction was rolled back on purpose.
    RollbackTransaction,
    /// The database refused a row whose key already exists.
    UniqueViolation,
    /// The database refused a row that refers to a missing row.
    ForeignKeyViolation,
    /// The database refused the statement for another reason.
    OtherDatabaseError,
    /// The query found no row.
    NotFound,
    /// Any other failure (connection, (de)serialisation, ...).
    Other,
}

/// A failed database call: its kind and the text the database layer gives for it.
#[derive(Debug, Clone, PartialEq)]
pub struct DbFailure {
    pub kind: DbFailureKind,
    pub message: String,
}

} // verus!
