use vstd::prelude::*;
use crate::error::{DbError, Step};

verus! {

/// A write operation on the two tables, run as one unit of work.
#[derive(Debug, Clone, Copy, PartialEq, Eq, Structural)]
pub enum Operation {
    Create,
    Update(i32),
    Delete(i32),
}

/// How a finished operation answers its caller.
#[derive(Debug, Clone, Copy, PartialEq, Eq, Structural)]
pub enum Outcome {
    /// Commit succeeded; answer with the joined row the last statement gave.
    Entity,
    /// Commit succeeded; answer with no content.
    NoContent,
    /// The unit of work is abandoned and rolled back.
    Failed(DbError),
}

/// The next thing the driver must do against the database.
#[derive(Debug, Clone, Copy, PartialEq, Eq, Structural)]
pub enum Action {
    Begin,
    /// Move the species sequence past the largest species id.
    ReconcileSpecies,
    /// Move the creature sequence past the largest creature id.
    ReconcileCreature,
    /// Insert the request's species fields; yields the new species id.
    InsertSpecies,
    /// Insert the request's creature fields pointing at the given species;
    /// yields the joined row.
    InsertCreature(i32),
    /// Overwrite the creature row with this id and its species row; yields
    /// the joined row, or no row when the id is absent.
    UpdateEntity(i32),
    /// Remove the type association rows of this creature id.
    DeleteTypeLinks(i32),
    /// Remove the creature row with this id; yields its species id, or no
    /// row when the id is absent.
    DeleteCreature(i32),
    /// Clear every back-reference to this species.
    DetachEvolutions(i32),
    /// Remove the species row with this id.
    DeleteSpecies(i32),
    Commit,
    Finish(Outcome),
}

/// What the database answered to the last action.
#[derive(Debug, Clone, Copy, PartialEq, Eq, Structural)]
pub enum Event {
    /// The statement ran and returns nothing that the plan reads.
    Done,
    /// The statement returned one joined row.
    Row,
    /// The statement matched no row.
    NoRow,
    /// The statement returned this id.
    Id(i32),
    /// The statement failed.
    Failed,
}

/// The statement an action runs, for error reports.
pub open spec fn step_of(a: Action) -> Step {
    match a {
        Action::Begin => Step::Begin,
        Action::ReconcileSpecies => Step::ReconcileSpecies,
        Action::ReconcileCreature => Step::ReconcileCreature,
        Action::InsertSpecies => Step::InsertSpecies,
        Action::InsertCreature(_) => Step::InsertCreature,
        Action::UpdateEntity(_) => Step::UpdateCreature,
        Action::DeleteTypeLinks(_) => Step::DeleteTypeLinks,
        Action::DeleteCreature(_) => Step::DeleteCreature,
        Action::DetachEvolutions(_) => Step::DetachEvolutions,
        Action::DeleteSpecies(_) => Step::DeleteSpecies,
        Action::Commit | Action::Finish(_) => Step::Commit,
    }
}

/// The error that ends an operation whose action `a` got an answer that the
/// plan does not go on from.
pub open spec fn failure_of(a: Action, ev: Event) -> DbError {
    match (a, ev) {
        (Action::Begin, _) => DbError::ConnectionFailure,
        (Action::UpdateEntity(_), Event::NoRow) => DbError::NotFound,
        (Action::DeleteCreature(_), Event::NoRow) => DbError::NotFound,
        _ => DbError::TransactionFailure(step_of(a)),
    }
}

/// The action that follows `a` when the database answers as the plan of
/// `op` expects, if there is one.
pub open spec fn follow(op: Operation, a: Action, ev: Event) -> Option<Action> {
    match (op, a, ev) {
        (Operation::Create, Action::Begin, Event::Done) => Some(Action::ReconcileSpecies),
        (Operation::Create, Action::ReconcileSpecies, Event::Done) => Some(Action::ReconcileCreature),
        (Operation::Create, Action::ReconcileCreature, Event::Done) => Some(Action::InsertSpecies),
        (Operation::Create, Action::InsertSpecies, Event::Id(sid)) => Some(Action::InsertCreature(sid)),
        (Operation::Create, Action::InsertCreature(_), Event::Row) => Some(Action::Commit),
        (Operation::Create, Action::Commit, Event::Done) => Some(Action::Finish(Outcome::Entity)),
        (Operation::Update(id), Action::Begin, Event::Done) => Some(Action::UpdateEntity(id)),
        (Operation::Update(_), Action::UpdateEntity(_), Event::Row) => Some(Action::Commit),
        (Operation::Update(_), Action::Commit, Event::Done) => Some(Action::Finish(Outcome::Entity)),
        (Operation::Delete(id), Action::Begin, Event::Done) => Some(Action::DeleteTypeLinks(id)),
        (Operation::Delete(id), Action::DeleteTypeLinks(_), Event::Done) => Some(Action::DeleteCreature(id)),
        (Operation::Delete(_), Action::DeleteCreature(_), Event::Id(sid)) => Some(Action::DetachEvolutions(sid)),
        (Operation::Delete(_), Action::DetachEvolutions(sid), Event::Done) => Some(Action::DeleteSpecies(sid)),
        (Operation::Delete(_), Action::DeleteSpecies(_), Event::Done) => Some(Action::Commit),
        (Operation::Delete(_), Action::Commit, Event::Done) => Some(Action::Finish(Outcome::NoContent)),
        _ => None,
    }
}

/// The next action of `op` after action `a` got answer `ev`: the plan's
/// next action, else a finish that reports why the plan stopped.
pub open spec fn next_spec(op: Operation, a: Action, ev: Event) -> Action {
    match a {
        Action::Finish(o) => Action::Finish(o),
        _ => match follow(op, a, ev) {
            Some(n) => n,
            None => Action::Finish(Outcome::Failed(failure_of(a, ev))),
        },
    }
}

impl Operation {
    /// Every operation opens its unit of work first.
    pub fn first(&self) -> (r: Action)
        ensures
            r == Action::Begin,
    {
        Action::Begin
    }

    /// Decides what follows action `a` once the database has answered `ev`.
    pub fn next(&self, a: Action, ev: Event) -> (r: Action)
        ensures
            r == next_spec(*self, a, ev),
    {
        if let Action::Finish(o) = a {
            return Action::Finish(o);
        }
        let follow: Option<Action> = match (*self, a, ev) {
            (Operation::Create, Action::Begin, Event::Done) => Some(Action::ReconcileSpecies),
            (Operation::Create, Action::ReconcileSpecies, Event::Done) => Some(Action::ReconcileCreature),
            (Operation::Create, Action::ReconcileCreature, Event::Done) => Some(Action::InsertSpecies),
            (Operation::Create, Action::InsertSpecies, Event::Id(sid)) => Some(Action::InsertCreature(sid)),
            (Operation::Create, Action::InsertCreature(_), Event::Row) => Some(Action::Commit),
            (Operation::Create, Action::Commit, Event::Done) => Some(Action::Finish(Outcome::Entity)),
            (Operation::Update(id), Action::Begin, Event::Done) => Some(Action::UpdateEntity(id)),
            (Operation::Update(_), Action::UpdateEntity(_), Event::Row) => Some(Action::Commit),
            (Operation::Update(_), Action::Commit, Event::Done) => Some(Action::Finish(Outcome::Entity)),
            (Operation::Delete(id), Action::Begin, Event::Done) => Some(Action::DeleteTypeLinks(id)),
            (Operation::Delete(id), Action::DeleteTypeLinks(_), Event::Done) => Some(Action::DeleteCreature(id)),
            (Operation::Delete(_), Action::DeleteCreature(_), Event::Id(sid)) => Some(Action::DetachEvolutions(sid)),
            (Operation::Delete(_), Action::DetachEvolutions(sid), Event::Done) => Some(Action::DeleteSpecies(sid)),
            (Operation::Delete(_), Action::DeleteSpecies(_), Event::Done) => Some(Action::Commit),
            (Operation::Delete(_), Action::Commit, Event::Done) => Some(Action::Finish(Outcome::NoContent)),
            _ => None,
        };
        match follow {
            Some(n) => n,
            None => {
                let err = match (a, ev) {
                    (Action::Begin, _) => DbError::ConnectionFailure,
                    (Action::UpdateEntity(_), Event::NoRow) => DbError::NotFound,
                    (Action::DeleteCreature(_), Event::NoRow) => DbError::NotFound,
                    _ => DbError::TransactionFailure(step(a)),
                };
                Action::Finish(Outcome::Failed(err))
            },
        }
    }
}

/// The statement an action runs.
pub fn step(a: Action) -> (r: Step)
    ensures
        r == step_of(a),
{
    match a {
        Action::Begin => Step::Begin,
        Action::ReconcileSpecies => Step::ReconcileSpecies,
        Action::ReconcileCreature => Step::ReconcileCreature,
        Action::InsertSpecies => Step::InsertSpecies,
        Action::InsertCreature(_) => Step::InsertCreature,
        Action::UpdateEntity(_) => Step::UpdateCreature,
        Action::DeleteTypeLinks(_) => Step::DeleteTypeLinks,
        Action::DeleteCreature(_) => Step::DeleteCreature,
        Action::DetachEvolutions(_) => Step::DetachEvolutions,
        Action::DeleteSpecies(_) => Step::DeleteSpecies,
        Action::Commit | Action::Finish(_) => Step::Commit,
    }
}

/// A statement that fails ends the operation with a failure, before any
/// commit: a failed operation never commits.
pub proof fn lemma_failure_never_commits(op: Operation, a: Action)
    requires
        !(a is Finish),
    ensures
        next_spec(op, a, Event::Failed) == Action::Finish(Outcome::Failed(failure_of(a, Event::Failed))),
{
}

/// A create that meets no failure repairs both sequences, inserts the
/// species row, inserts the creature row pointing at the new species id,
/// commits, and answers with the joined row.
pub proof fn lemma_create_plan(sid: i32)
    ensures
        next_spec(Operation::Create, Action::Begin, Event::Done) == Action::ReconcileSpecies,
        next_spec(Operation::Create, Action::ReconcileSpecies, Event::Done) == Action::ReconcileCreature,
        next_spec(Operation::Create, Action::ReconcileCreature, Event::Done) == Action::InsertSpecies,
        next_spec(Operation::Create, Action::InsertSpecies, Event::Id(sid)) == Action::InsertCreature(sid),
        next_spec(Operation::Create, Action::InsertCreature(sid), Event::Row) == Action::Commit,
        next_spec(Operation::Create, Action::Commit, Event::Done) == Action::Finish(Outcome::Entity),
{
}

/// A delete that meets no failure removes the type links and the creature
/// row, clears the back-references to the creature's species before it
/// removes that species, commits, and answers with no content; a delete of
/// an absent id ends with `NotFound`.
pub proof fn lemma_delete_plan(id: i32, sid: i32)
    ensures
        next_spec(Operation::Delete(id), Action::Begin, Event::Done) == Action::DeleteTypeLinks(id),
        next_spec(Operation::Delete(id), Action::DeleteTypeLinks(id), Event::Done) == Action::DeleteCreature(id),
        next_spec(Operation::Delete(id), Action::DeleteCreature(id), Event::Id(sid)) == Action::DetachEvolutions(sid),
        next_spec(Operation::Delete(id), Action::DetachEvolutions(sid), Event::Done) == Action::DeleteSpecies(sid),
        next_spec(Operation::Delete(id), Action::DeleteSpecies(sid), Event::Done) == Action::Commit,
        next_spec(Operation::Delete(id), Action::Commit, Event::Done) == Action::Finish(Outcome::NoContent),
        next_spec(Operation::Delete(id), Action::DeleteCreature(id), Event::NoRow) == Action::Finish(
            Outcome::Failed(DbError::NotFound),
        ),
{
}

/// An update of an absent id ends with `NotFound` and never commits.
pub proof fn lemma_update_absent(id: i32)
    ensures
        next_spec(Operation::Update(id), Action::UpdateEntity(id), Event::NoRow) == Action::Finish(
            Outcome::Failed(DbError::NotFound),
        ),
{
}

} // verus!
