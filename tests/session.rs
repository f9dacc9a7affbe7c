use pokedex::error::{DbError, Step};
use pokedex::session::{step, Action, Event, Operation, Outcome};

#[test]
fn create_runs_reconcile_insert_insert_commit() {
    let op = Operation::Create;
    let mut a = op.first();
    assert_eq!(a, Action::Begin);
    let answers = [Event::Done, Event::Done, Event::Done, Event::Id(7), Event::Row, Event::Done];
    let mut seen = Vec::new();
    for ev in answers {
        a = op.next(a, ev);
        seen.push(a);
    }
    assert_eq!(
        seen,
        vec![
            Action::ReconcileSpecies,
            Action::ReconcileCreature,
            Action::InsertSpecies,
            Action::InsertCreature(7),
            Action::Commit,
            Action::Finish(Outcome::Entity),
        ]
    );
}

#[test]
fn delete_detaches_before_removing_species() {
    let op = Operation::Delete(3);
    let mut a = op.first();
    let answers = [Event::Done, Event::Done, Event::Id(9), Event::Done, Event::Done, Event::Done];
    let mut seen = Vec::new();
    for ev in answers {
        a = op.next(a, ev);
        seen.push(a);
    }
    assert_eq!(
        seen,
        vec![
            Action::DeleteTypeLinks(3),
            Action::DeleteCreature(3),
            Action::DetachEvolutions(9),
            Action::DeleteSpecies(9),
            Action::Commit,
            Action::Finish(Outcome::NoContent),
        ]
    );
}

#[test]
fn delete_of_absent_id_is_not_found() {
    let op = Operation::Delete(3);
    let a = op.next(Action::DeleteCreature(3), Event::NoRow);
    assert_eq!(a, Action::Finish(Outcome::Failed(DbError::NotFound)));
}

#[test]
fn update_paths() {
    let op = Operation::Update(4);
    let a = op.next(op.first(), Event::Done);
    assert_eq!(a, Action::UpdateEntity(4));
    assert_eq!(op.next(a, Event::Row), Action::Commit);
    assert_eq!(op.next(a, Event::NoRow), Action::Finish(Outcome::Failed(DbError::NotFound)));
    assert_eq!(
        op.next(a, Event::Failed),
        Action::Finish(Outcome::Failed(DbError::TransactionFailure(Step::UpdateCreature)))
    );
    assert_eq!(op.next(Action::Commit, Event::Done), Action::Finish(Outcome::Entity));
}

#[test]
fn failures_name_their_step() {
    let op = Operation::Create;
    assert_eq!(
        op.next(Action::Begin, Event::Failed),
        Action::Finish(Outcome::Failed(DbError::ConnectionFailure))
    );
    assert_eq!(
        op.next(Action::InsertCreature(1), Event::Failed),
        Action::Finish(Outcome::Failed(DbError::TransactionFailure(Step::InsertCreature)))
    );
    assert_eq!(
        op.next(Action::Commit, Event::Failed),
        Action::Finish(Outcome::Failed(DbError::TransactionFailure(Step::Commit)))
    );
    let done = Action::Finish(Outcome::Entity);
    assert_eq!(op.next(done, Event::Failed), done);
    assert_eq!(step(Action::DetachEvolutions(2)), Step::DetachEvolutions);
}
