use pokedex::entity::{Creature, Pokemon, Species, TypeLink};
use pokedex::error::{DbError, Step};
use pokedex::paging::window;
use pokedex::store::{Store, MAX_ID};

fn sample(name: &str) -> Pokemon {
    Pokemon {
        id: None,
        identifier: name.to_string(),
        generation_id: 1,
        evolves_from_species_id: None,
        evolution_chain_id: 1,
        color_id: Some(5),
        shape_id: Some(8),
        habitat_id: Some(3),
        gender_rate: 1,
        capture_rate: 45,
        base_happiness: 50,
        is_baby: false,
        hatch_counter: 20,
        has_gender_differences: false,
        growth_rate_id: Some(4),
        forms_switchable: false,
        order: 1,
        conquest_order: None,
        height: 7,
        weight: 69,
        base_experience: 64,
        is_default: true,
    }
}

fn seeded_species(id: i32, name: &str) -> Species {
    Species {
        id,
        identifier: name.to_string(),
        generation_id: 1,
        evolves_from_species_id: None,
        evolution_chain_id: 1,
        color_id: None,
        shape_id: None,
        habitat_id: None,
        gender_rate: 4,
        capture_rate: 45,
        base_happiness: 70,
        is_baby: false,
        hatch_counter: 20,
        has_gender_differences: false,
        growth_rate_id: None,
        forms_switchable: false,
        order: id,
        conquest_order: None,
    }
}

fn seeded_creature(id: i32, species_id: i32, name: &str) -> Creature {
    Creature {
        id,
        species_id,
        identifier: name.to_string(),
        height: 10,
        weight: 100,
        base_experience: 50,
        order: id,
        is_default: true,
    }
}

fn same_fields(a: &Pokemon, b: &Pokemon) -> bool {
    a.identifier == b.identifier
        && a.generation_id == b.generation_id
        && a.evolves_from_species_id == b.evolves_from_species_id
        && a.evolution_chain_id == b.evolution_chain_id
        && a.color_id == b.color_id
        && a.shape_id == b.shape_id
        && a.habitat_id == b.habitat_id
        && a.gender_rate == b.gender_rate
        && a.capture_rate == b.capture_rate
        && a.base_happiness == b.base_happiness
        && a.is_baby == b.is_baby
        && a.hatch_counter == b.hatch_counter
        && a.has_gender_differences == b.has_gender_differences
        && a.growth_rate_id == b.growth_rate_id
        && a.forms_switchable == b.forms_switchable
        && a.order == b.order
        && a.conquest_order == b.conquest_order
        && a.height == b.height
        && a.weight == b.weight
        && a.base_experience == b.base_experience
        && a.is_default == b.is_default
}

#[test]
fn create_then_get_round_trip() {
    let mut s = Store::new();
    let p = sample("bulbasaur");
    let created = s.create(&p).unwrap();
    let id = created.id.unwrap();
    let fetched = s.get(id).unwrap();
    assert!(same_fields(&fetched, &p));
    assert!(same_fields(&created, &p));
    assert_eq!(fetched.id, Some(id));
}

#[test]
fn failed_creature_insert_keeps_no_species() {
    let mut s = Store::new();
    s.seed_species(seeded_species(1, "mew")).unwrap();
    s.seed_creature(seeded_creature(MAX_ID, 1, "mew")).unwrap();
    let before = s.list(Some(1), Some(100)).unwrap();
    let r = s.create(&sample("bulbasaur"));
    assert!(matches!(r, Err(DbError::TransactionFailure(Step::InsertCreature))));
    assert_eq!(s.species_count(), 1);
    assert_eq!(s.creature_count(), 1);
    let after = s.list(Some(1), Some(100)).unwrap();
    assert_eq!(before.len(), after.len());
    assert!(same_fields(&before[0], &after[0]));
}

#[test]
fn delete_clears_evolution_back_references() {
    let mut s = Store::new();
    let a = s.create(&sample("bulbasaur")).unwrap();
    let mut pb = sample("ivysaur");
    pb.evolves_from_species_id = Some(1);
    let b = s.create(&pb).unwrap();
    assert_eq!(s.get(b.id.unwrap()).unwrap().evolves_from_species_id, Some(1));
    s.delete(a.id.unwrap()).unwrap();
    assert_eq!(s.get(b.id.unwrap()).unwrap().evolves_from_species_id, None);
    assert!(matches!(s.get(a.id.unwrap()), Err(DbError::NotFound)));
    assert_eq!(s.species_count(), 1);
    assert_eq!(s.creature_count(), 1);
}

#[test]
fn missing_id_is_not_found_and_changes_nothing() {
    let mut s = Store::new();
    s.create(&sample("bulbasaur")).unwrap();
    s.seed_type_link(TypeLink { id: 1, type_id: 12 });
    let r = s.update(99, &sample("ivysaur"));
    assert!(matches!(r, Err(DbError::NotFound)));
    let d = s.delete(99);
    assert!(matches!(d, Err(DbError::NotFound)));
    assert_eq!(s.species_count(), 1);
    assert_eq!(s.creature_count(), 1);
    assert_eq!(s.type_link_count(), 1);
    assert_eq!(s.get(1).unwrap().identifier, "bulbasaur");
}

#[test]
fn second_page_of_fifteen() {
    let mut s = Store::new();
    for k in 0..15 {
        s.create(&sample(&format!("mon{}", k))).unwrap();
    }
    let page = s.list(Some(2), Some(10)).unwrap();
    assert_eq!(page.len(), 5);
    for (k, e) in page.iter().enumerate() {
        assert_eq!(e.id, Some(11 + k as i32));
        assert_eq!(e.identifier, format!("mon{}", 10 + k));
    }
}

#[test]
fn default_page_is_first_ten() {
    let mut s = Store::new();
    for k in 0..12 {
        s.create(&sample(&format!("mon{}", k))).unwrap();
    }
    let page = s.list(None, None).unwrap();
    assert_eq!(page.len(), 10);
    assert_eq!(page[0].id, Some(1));
    assert_eq!(page[9].id, Some(10));
    assert_eq!(s.list(Some(5), Some(10)).unwrap().len(), 0);
}

#[test]
fn reconciling_twice_gives_the_same_ids() {
    let mut once = Store::new();
    let mut twice = Store::new();
    for s in [&mut once, &mut twice] {
        s.seed_species(seeded_species(3, "pidgey")).unwrap();
        s.seed_species(seeded_species(5, "rattata")).unwrap();
        s.seed_creature(seeded_creature(4, 3, "pidgey")).unwrap();
        s.seed_creature(seeded_creature(7, 5, "rattata")).unwrap();
    }
    once.reconcile_sequences();
    twice.reconcile_sequences();
    twice.reconcile_sequences();
    let a = once.create(&sample("spearow")).unwrap();
    let b = twice.create(&sample("spearow")).unwrap();
    assert_eq!(a.id, Some(8));
    assert_eq!(b.id, Some(8));
}

#[test]
fn create_after_seeding_skips_seeded_ids() {
    let mut s = Store::new();
    s.seed_species(seeded_species(151, "mew")).unwrap();
    s.seed_creature(seeded_creature(151, 151, "mew")).unwrap();
    let c = s.create(&sample("chikorita")).unwrap();
    assert_eq!(c.id, Some(152));
    assert_eq!(s.get(151).unwrap().identifier, "mew");
}

#[test]
fn end_to_end_lifecycle() {
    let mut s = Store::new();
    let created = s.create(&sample("bulbasaur")).unwrap();
    assert_eq!(created.id, Some(1));
    let got = s.get(1).unwrap();
    assert!(same_fields(&got, &created));
    assert_eq!(got.id, Some(1));
    let mut changed = sample("bulbasaur");
    changed.height = 70;
    let updated = s.update(1, &changed).unwrap();
    assert_eq!(updated.height, 70);
    assert_eq!(updated.id, Some(1));
    assert_eq!(s.get(1).unwrap().height, 70);
    assert!(s.delete(1).is_ok());
    assert!(matches!(s.get(1), Err(DbError::NotFound)));
    assert_eq!(DbError::NotFound.status(), 404);
}

#[test]
fn update_replaces_every_field() {
    let mut s = Store::new();
    s.create(&sample("bulbasaur")).unwrap();
    let mut q = sample("ivysaur");
    q.generation_id = 2;
    q.color_id = None;
    q.weight = 130;
    q.is_default = false;
    q.conquest_order = Some(9);
    let u = s.update(1, &q).unwrap();
    assert!(same_fields(&u, &q));
    assert!(same_fields(&s.get(1).unwrap(), &q));
}

#[test]
fn duplicate_species_name_is_refused() {
    let mut s = Store::new();
    s.create(&sample("bulbasaur")).unwrap();
    let r = s.create(&sample("bulbasaur"));
    assert!(matches!(r, Err(DbError::TransactionFailure(Step::InsertSpecies))));
    assert_eq!(s.species_count(), 1);
    s.create(&sample("ivysaur")).unwrap();
    let u = s.update(2, &sample("bulbasaur"));
    assert!(matches!(u, Err(DbError::TransactionFailure(Step::UpdateSpecies))));
    assert_eq!(s.get(2).unwrap().identifier, "ivysaur");
    assert!(s.update(2, &sample("ivysaur")).is_ok());
}

#[test]
fn dangling_evolution_reference_is_refused() {
    let mut s = Store::new();
    let mut p = sample("ivysaur");
    p.evolves_from_species_id = Some(42);
    let r = s.create(&p);
    assert!(matches!(r, Err(DbError::TransactionFailure(Step::InsertSpecies))));
    assert_eq!(s.species_count(), 0);
    assert_eq!(s.creature_count(), 0);
}

#[test]
fn species_shared_by_two_creatures_is_not_deleted() {
    let mut s = Store::new();
    s.seed_species(seeded_species(1, "pikachu")).unwrap();
    s.seed_creature(seeded_creature(1, 1, "pikachu")).unwrap();
    s.seed_creature(seeded_creature(2, 1, "pikachu-rock-star")).unwrap();
    let r = s.delete(1);
    assert!(matches!(r, Err(DbError::TransactionFailure(Step::DeleteSpecies))));
    assert_eq!(s.creature_count(), 2);
    assert_eq!(DbError::TransactionFailure(Step::DeleteSpecies).status(), 500);
}

#[test]
fn delete_removes_type_links_of_that_id() {
    let mut s = Store::new();
    s.create(&sample("bulbasaur")).unwrap();
    s.create(&sample("charmander")).unwrap();
    s.seed_type_link(TypeLink { id: 1, type_id: 12 });
    s.seed_type_link(TypeLink { id: 2, type_id: 10 });
    s.seed_type_link(TypeLink { id: 1, type_id: 4 });
    s.delete(1).unwrap();
    assert_eq!(s.type_link_count(), 1);
    assert_eq!(s.species_count(), 1);
    assert_eq!(s.get(2).unwrap().identifier, "charmander");
}

#[test]
fn negative_page_size_is_a_read_failure() {
    let s = Store::new();
    let r = s.list(Some(1), Some(-1));
    assert!(matches!(r, Err(DbError::TransactionFailure(Step::Read))));
    let r = s.list(Some(0), Some(10));
    assert!(matches!(r, Err(DbError::TransactionFailure(Step::Read))));
    let r = s.list(Some(i64::MAX), Some(i64::MAX));
    assert!(matches!(r, Err(DbError::TransactionFailure(Step::Read))));
}

#[test]
fn window_offsets() {
    assert_eq!(window(None, None), Some((10, 0)));
    assert_eq!(window(Some(3), Some(20)), Some((20, 40)));
    assert_eq!(window(Some(0), Some(10)), Some((10, -10)));
    assert_eq!(window(Some(i64::MAX), Some(2)), None);
    assert_eq!(window(Some(i64::MIN), Some(0)), Some((0, 0)));
}

#[test]
fn seeding_out_of_order_is_refused() {
    let mut s = Store::new();
    s.seed_species(seeded_species(5, "rattata")).unwrap();
    let r = s.seed_species(seeded_species(3, "pidgey"));
    assert!(matches!(r, Err(DbError::TransactionFailure(Step::InsertSpecies))));
    let r = s.seed_creature(seeded_creature(1, 9, "ghost"));
    assert!(matches!(r, Err(DbError::TransactionFailure(Step::InsertCreature))));
    assert_eq!(s.species_count(), 1);
    assert_eq!(s.creature_count(), 0);
}

#[test]
fn status_codes() {
    assert_eq!(DbError::NotFound.status(), 404);
    assert_eq!(DbError::ConnectionFailure.status(), 500);
    assert_eq!(DbError::TransactionFailure(Step::Commit).status(), 500);
}
