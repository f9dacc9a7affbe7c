use vstd::prelude::*;
use crate::entity::{Pokemon, with_id, lemma_split_join};
use crate::error::DbError;
use crate::store::{
    StoreView, has_creature, has_species, creature_index, species_index, detached,
    lemma_created_wf, lemma_same_ids,
};

verus! {

/// Creating an entity and then fetching it by the id it was given yields the
/// entity that was passed in, with that id.
pub proof fn lemma_create_then_get(v: StoreView, p: Pokemon)
    requires
        v.wf(),
        v.create_error(p) is None,
    ensures
        has_creature(v.created(p).creatures, v.reconciled().next_creature as i32),
        v.created(p).entity(v.reconciled().next_creature as i32) == with_id(
            p,
            Some(v.reconciled().next_creature as i32),
        ),
{
    lemma_created_wf(v, p);
    lemma_split_join(p, v.reconciled().next_creature as i32, v.reconciled().next_species as i32);
}

/// Deleting an entity removes its creature row and its species row, and no
/// species, and so no entity that is left, still names the deleted species
/// as the one it evolves from.
pub proof fn lemma_delete_cascades(v: StoreView, id: i32)
    requires
        v.wf(),
        v.delete_error(id) is None,
    ensures
        ({
            let w = v.deleted(id);
            let sid = v.creatures[creature_index(v.creatures, id)].species_id;
            &&& w.wf()
            &&& !has_creature(w.creatures, id)
            &&& !has_species(w.species, sid)
            &&& forall|i: int|
                0 <= i < w.species.len() ==> (#[trigger] w.species[i]).evolves_from_species_id
                    != Some(sid)
            &&& forall|other: i32|
                #[trigger] has_creature(w.creatures, other) ==> w.entity(other).evolves_from_species_id
                    != Some(sid)
        }),
{
    let w = v.deleted(id);
    let ci = creature_index(v.creatures, id);
    let sid = v.creatures[ci].species_id;
    assert(has_species(v.species, sid));
    let si = species_index(v.species, sid);
    let d = detached(v.species, sid);
    crate::store::lemma_deleted_wf(v, id);
    d.remove_ensures(si);
    v.creatures.remove_ensures(ci);
    lemma_same_ids(v.species, d);
    assert(!has_creature(w.creatures, id)) by {
        if has_creature(w.creatures, id) {
            let k = choose|k: int| 0 <= k < w.creatures.len() && w.creatures[k].id == id;
            if k < ci {
                assert(v.creatures[k].id < v.creatures[ci].id);
            } else {
                assert(v.creatures[ci].id < v.creatures[k + 1].id);
            }
        }
    }
    assert(!has_species(w.species, sid)) by {
        if has_species(w.species, sid) {
            let k = choose|k: int| 0 <= k < w.species.len() && w.species[k].id == sid;
            if k < si {
                assert(v.species[k].id < v.species[si].id);
            } else {
                assert(v.species[si].id < v.species[k + 1].id);
            }
        }
    }
    assert forall|i: int| 0 <= i < w.species.len() implies (#[trigger] w.species[i]).evolves_from_species_id
        != Some(sid) by {
        let oi = if i < si { i } else { i + 1 };
        assert(w.species[i] == d[oi]);
    }
    assert forall|other: i32| #[trigger] has_creature(w.creatures, other) implies w.entity(
        other,
    ).evolves_from_species_id != Some(sid) by {
        let k = creature_index(w.creatures, other);
        assert(has_species(w.species, w.creatures[k].species_id));
        let m = species_index(w.species, w.creatures[k].species_id);
        assert(w.species[m].evolves_from_species_id != Some(sid));
    }
}

/// Repairing the sequences a second time changes nothing, so the ids that a
/// create hands out are the same after one repair, after two, or after none.
pub proof fn lemma_reconcile_idempotent(v: StoreView, p: Pokemon)
    ensures
        v.reconciled().reconciled() == v.reconciled(),
        v.reconciled().reconciled().created(p) == v.created(p),
        v.reconciled().created(p) == v.created(p),
{
}

/// An update or a delete of an id that no creature has fails with
/// `NotFound`.
pub proof fn lemma_absent_id_not_found(v: StoreView, id: i32, p: Pokemon)
    requires
        !has_creature(v.creatures, id),
    ensures
        v.update_error(id, p) == Some(DbError::NotFound),
        v.delete_error(id) == Some(DbError::NotFound),
{
}

} // verus!
