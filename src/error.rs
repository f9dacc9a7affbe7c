use vstd::prelude::*;

verus! {

/// The statement of an operation at which it failed.
#[derive(Debug, Clone, Copy, PartialEq, Eq, Structural)]
pub enum Step {
    Begin,
    Read,
    ReconcileSpecies,
    ReconcileCreature,
    InsertSpecies,
    InsertCreature,
    UpdateCreature,
    UpdateSpecies,
    DeleteTypeLinks,
    DeleteCreature,
    DetachEvolutions,
    DeleteSpecies,
    Commit,
}

/// Why an operation did not complete. Nothing of a failed operation stays.
#[derive(Debug, Clone, Copy, PartialEq, Eq, Structural)]
pub enum DbError {
    /// No creature has the given id.
    NotFound,
    /// A statement inside the unit of work failed; it was rolled back.
    TransactionFailure(Step),
    /// The unit of work could not be opened.
    ConnectionFailure,
}

/// The response status the transport gives an error: a missing resource for
/// `NotFound`, an internal failure for everything else.
pub open spec fn status_of(e: DbError) -> u16 {
    match e {
        DbError::NotFound => 404,
        _ => 500,
    }
}

impl DbError {
    pub fn status(&self) -> (r: u16)
        ensures
            r == status_of(*self),
    {
        match self {
            DbError::NotFound => 404,
            _ => 500,
        }
    }
}

} // verus!
