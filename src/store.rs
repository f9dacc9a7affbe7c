use vstd::prelude::*;
use crate::entity::{Pokemon, Species, Creature, TypeLink, joined, species_part, creature_part, with_id};
use crate::error::{DbError, Step};
use crate::paging::{window, offset_of, per_page_or_default};

verus! {

/// The largest id a row can take.
pub const MAX_ID: i32 = 0x7fff_ffff;

/// What a store holds: the two tables, the type association table, and the
/// id each table's sequence hands out next.
pub ghost struct StoreView {
    pub species: Seq<Species>,
    pub creatures: Seq<Creature>,
    pub links: Seq<TypeLink>,
    pub next_species: int,
    pub next_creature: int,
}

/// Some species row has id `id`.
pub open spec fn has_species(sp: Seq<Species>, id: i32) -> bool {
    exists|i: int| 0 <= i < sp.len() && sp[i].id == id
}

/// Some creature row has id `id`.
pub open spec fn has_creature(cs: Seq<Creature>, id: i32) -> bool {
    exists|i: int| 0 <= i < cs.len() && cs[i].id == id
}

/// Some creature row points at species `sid`.
pub open spec fn species_in_use(cs: Seq<Creature>, sid: i32) -> bool {
    exists|i: int| 0 <= i < cs.len() && cs[i].species_id == sid
}

/// Some species row other than the one with id `except` is named `name`.
pub open spec fn name_taken(sp: Seq<Species>, name: Seq<char>, except: Option<i32>) -> bool {
    exists|i: int| 0 <= i < sp.len() && sp[i].identifier@ == name && except != Some(sp[i].id)
}

/// A species row's evolution back-reference, where it has one, points at
/// a row of `sp`.
pub open spec fn back_ref_ok(sp: Seq<Species>, s: Species) -> bool {
    match s.evolves_from_species_id {
        Some(e) => has_species(sp, e),
        None => true,
    }
}

/// The position of the species row with id `id`.
pub open spec fn species_index(sp: Seq<Species>, id: i32) -> int {
    choose|i: int| 0 <= i < sp.len() && sp[i].id == id
}

/// The position of the creature row with id `id`.
pub open spec fn creature_index(cs: Seq<Creature>, id: i32) -> int {
    choose|i: int| 0 <= i < cs.len() && cs[i].id == id
}

pub open spec fn species_sorted(sp: Seq<Species>) -> bool {
    forall|i: int, j: int| 0 <= i < j < sp.len() ==> sp[i].id < sp[j].id
}

pub open spec fn creatures_sorted(cs: Seq<Creature>) -> bool {
    forall|i: int, j: int| 0 <= i < j < cs.len() ==> cs[i].id < cs[j].id
}

/// The largest id of a table kept in id order, 0 when it is empty.
pub open spec fn top_species_id(sp: Seq<Species>) -> int {
    if sp.len() == 0 { 0 } else { sp.last().id as int }
}

/// The largest id of a table kept in id order, 0 when it is empty.
pub open spec fn top_creature_id(cs: Seq<Creature>) -> int {
    if cs.len() == 0 { 0 } else { cs.last().id as int }
}

/// A sequence's next id once repaired against the largest stored id: left
/// alone when already ahead of it, else one past it.
pub open spec fn next_after(next: int, top: int) -> int {
    if next > top { next } else { top + 1 }
}

/// The first row of a page, clipped to the table.
pub open spec fn page_start(len: int, page: Option<i64>, per_page: Option<i64>) -> int {
    let o = offset_of(page, per_page);
    if o < len { o } else { len }
}

/// One past the last row of a page, clipped to the table.
pub open spec fn page_end(len: int, page: Option<i64>, per_page: Option<i64>) -> int {
    let e = offset_of(page, per_page) + per_page_or_default(per_page);
    if e < len { e } else { len }
}

/// A page can be read: its offset fits an `i64` and neither the offset nor
/// the page size is negative.
pub open spec fn page_valid(page: Option<i64>, per_page: Option<i64>) -> bool {
    &&& 0 <= offset_of(page, per_page) <= i64::MAX
    &&& per_page_or_default(per_page) >= 0
}

/// The type association rows that do not belong to creature `id`.
pub open spec fn links_without(links: Seq<TypeLink>, id: i32) -> Seq<TypeLink> {
    links.filter(|l: TypeLink| l.id != id)
}

/// The species row `s` with its evolution back-reference cleared.
pub open spec fn without_back_ref(s: Species) -> Species {
    Species { evolves_from_species_id: None, ..s }
}

/// The species table with every back-reference to species `sid` cleared.
pub open spec fn detached(sp: Seq<Species>, sid: i32) -> Seq<Species> {
    Seq::new(
        sp.len(),
        |k: int|
            if sp[k].evolves_from_species_id == Some(sid) {
                without_back_ref(sp[k])
            } else {
                sp[k]
            },
    )
}

/// A creature row other than the one at position `ci` points at species
/// `sid`.
pub open spec fn shared_species(cs: Seq<Creature>, sid: i32, ci: int) -> bool {
    exists|i: int| 0 <= i < cs.len() && i != ci && cs[i].species_id == sid
}

/// Two species tables with the same ids, position by position, hold the
/// same ids.
pub(crate) proof fn lemma_same_ids(a: Seq<Species>, b: Seq<Species>)
    requires
        a.len() == b.len(),
        forall|i: int| 0 <= i < a.len() ==> a[i].id == b[i].id,
    ensures
        forall|x: i32| has_species(a, x) == has_species(b, x),
{
    assert forall|x: i32| has_species(a, x) implies has_species(b, x) by {
        let k = choose|k: int| 0 <= k < a.len() && a[k].id == x;
        assert(b[k].id == x);
    }
    assert forall|x: i32| has_species(b, x) implies has_species(a, x) by {
        let k = choose|k: int| 0 <= k < b.len() && b[k].id == x;
        assert(a[k].id == x);
    }
}

/// Creating an entity keeps a consistent store consistent, and its
/// creature row is the last one.
pub proof fn lemma_created_wf(v: StoreView, p: Pokemon)
    requires
        v.wf(),
        v.create_error(p) is None,
    ensures
        v.created(p).wf(),
        has_creature(v.created(p).creatures, v.reconciled().next_creature as i32),
        creature_index(v.created(p).creatures, v.reconciled().next_creature as i32)
            == v.created(p).creatures.len() - 1,
        species_index(v.created(p).species, v.reconciled().next_species as i32)
            == v.created(p).species.len() - 1,
{
    let w = v.created(p);
    let sid = v.reconciled().next_species as i32;
    let cid = v.reconciled().next_creature as i32;
    assert forall|i: int, j: int| 0 <= i < j < w.species.len() implies w.species[i].id
        < w.species[j].id by {
        if j == w.species.len() - 1 && i < v.species.len() - 1 {
            assert(v.species[i].id < v.species[v.species.len() - 1].id);
        }
    }
    assert forall|i: int, j: int| 0 <= i < j < w.creatures.len() implies w.creatures[i].id
        < w.creatures[j].id by {
        if j == w.creatures.len() - 1 && i < v.creatures.len() - 1 {
            assert(v.creatures[i].id < v.creatures[v.creatures.len() - 1].id);
        }
    }
    assert forall|sid2: i32| has_species(v.species, sid2) implies has_species(w.species, sid2) by {
        let k = choose|k: int| 0 <= k < v.species.len() && v.species[k].id == sid2;
        assert(w.species[k] == v.species[k]);
    }
    assert(has_species(w.species, sid)) by {
        assert(w.species[w.species.len() - 1].id == sid);
    }
    assert forall|i: int| 0 <= i < w.creatures.len() implies #[trigger] has_species(
        w.species,
        w.creatures[i].species_id,
    ) by {
        if i < v.creatures.len() {
            assert(w.creatures[i] == v.creatures[i]);
            assert(has_species(v.species, v.creatures[i].species_id));
        }
    }
    assert forall|i: int| 0 <= i < w.species.len() implies back_ref_ok(
        w.species,
        #[trigger] w.species[i],
    ) by {
        if i < v.species.len() {
            assert(w.species[i] == v.species[i]);
            assert(back_ref_ok(v.species, v.species[i]));
        }
    }
    assert forall|i: int, j: int| 0 <= i < j < w.species.len() implies #[trigger] w.species[i].identifier@
        != #[trigger] w.species[j].identifier@ by {
        if j == w.species.len() - 1 {
            assert(w.species[i] == v.species[i]);
            assert(!(v.species[i].identifier@ == p.identifier@ && None::<i32> != Some(v.species[i].id)));
        } else {
            assert(w.species[i] == v.species[i]);
            assert(w.species[j] == v.species[j]);
        }
    }
    assert(w.wf());
    assert(w.creatures[w.creatures.len() - 1].id == cid);
    assert(has_creature(w.creatures, cid));
    let ci = creature_index(w.creatures, cid);
    let last = w.creatures.len() - 1;
    assert(ci == last) by {
        if ci < last {
            assert(w.creatures[ci].id < w.creatures[last].id);
        }
    }
    assert(has_species(w.species, sid));
    let si = species_index(w.species, sid);
    let slast = w.species.len() - 1;
    assert(si == slast) by {
        if si < slast {
            assert(w.species[si].id < w.species[slast].id);
        }
    }
}

/// Deleting an entity keeps a consistent store consistent.
pub proof fn lemma_deleted_wf(v: StoreView, id: i32)
    requires
        v.wf(),
        v.delete_error(id) is None,
    ensures
        v.deleted(id).wf(),
{
    let w = v.deleted(id);
    let ci = creature_index(v.creatures, id);
    let sid = v.creatures[ci].species_id;
    assert(has_species(v.species, sid));
    let si = species_index(v.species, sid);
    let d = detached(v.species, sid);
    d.remove_ensures(si);
    v.creatures.remove_ensures(ci);
    lemma_same_ids(v.species, d);
    assert forall|i: int, j: int| 0 <= i < j < w.species.len() implies w.species[i].id
        < w.species[j].id by {
        if j < si {
            assert(v.species[i].id < v.species[j].id);
        } else if i < si {
            assert(v.species[i].id < v.species[j + 1].id);
        } else {
            assert(v.species[i + 1].id < v.species[j + 1].id);
        }
    }
    assert forall|i: int, j: int| 0 <= i < j < w.creatures.len() implies w.creatures[i].id
        < w.creatures[j].id by {
        if j < ci {
            assert(v.creatures[i].id < v.creatures[j].id);
        } else if i < ci {
            assert(v.creatures[i].id < v.creatures[j + 1].id);
        } else {
            assert(v.creatures[i + 1].id < v.creatures[j + 1].id);
        }
    }
    // A species other than the removed one is still present.
    assert forall|x: i32| x != sid && has_species(v.species, x) implies has_species(w.species, x) by {
        let m = choose|m: int| 0 <= m < v.species.len() && v.species[m].id == x;
        assert(m != si);
        if m < si {
            assert(w.species[m].id == x);
        } else {
            assert(w.species[m - 1].id == x);
        }
    }
    assert forall|i: int| 0 <= i < w.creatures.len() implies #[trigger] has_species(
        w.species,
        w.creatures[i].species_id,
    ) by {
        let oi = if i < ci { i } else { i + 1 };
        assert(w.creatures[i] == v.creatures[oi]);
        assert(has_species(v.species, v.creatures[oi].species_id));
        assert(oi != ci);
        assert(v.creatures[oi].species_id != sid);
    }
    assert forall|i: int| 0 <= i < w.species.len() implies back_ref_ok(
        w.species,
        #[trigger] w.species[i],
    ) by {
        let oi = if i < si { i } else { i + 1 };
        assert(w.species[i] == d[oi]);
        assert(back_ref_ok(v.species, v.species[oi]));
    }
    assert forall|i: int, j: int| 0 <= i < j < w.species.len() implies #[trigger] w.species[i].identifier@
        != #[trigger] w.species[j].identifier@ by {
        let oi = if i < si { i } else { i + 1 };
        let oj = if j < si { j } else { j + 1 };
        assert(w.species[i] == d[oi]);
        assert(w.species[j] == d[oj]);
        assert(v.species[oi].identifier@ != v.species[oj].identifier@);
    }
}

impl StoreView {
    /// The tables are consistent: ids are unique (rows are kept in id order),
    /// species names are unique, every creature's species exists, every
    /// evolution back-reference points at an existing species, and the
    /// sequences stay within the id range.
    pub open spec fn wf(self) -> bool {
        &&& species_sorted(self.species)
        &&& creatures_sorted(self.creatures)
        &&& forall|i: int|
            0 <= i < self.creatures.len() ==> #[trigger] has_species(
                self.species,
                self.creatures[i].species_id,
            )
        &&& forall|i: int|
            0 <= i < self.species.len() ==> back_ref_ok(self.species, #[trigger] self.species[i])
        &&& forall|i: int, j: int|
            0 <= i < j < self.species.len() ==> #[trigger] self.species[i].identifier@
                != #[trigger] self.species[j].identifier@
        &&& 1 <= self.next_species <= MAX_ID + 1
        &&& 1 <= self.next_creature <= MAX_ID + 1
    }


    /// Both sequences repaired against the largest stored ids.
    pub open spec fn reconciled(self) -> StoreView {
        StoreView {
            next_species: next_after(self.next_species, top_species_id(self.species)),
            next_creature: next_after(self.next_creature, top_creature_id(self.creatures)),
            ..self
        }
    }

    /// Why creating `p` fails, if it does: the species id range is used up,
    /// the back-reference points nowhere, the name is taken, or the creature
    /// id range is used up.
    pub open spec fn create_error(self, p: Pokemon) -> Option<DbError> {
        let r = self.reconciled();
        if r.next_species > MAX_ID || !back_ref_ok(self.species, species_part(p, 0))
            || name_taken(self.species, p.identifier@, None) {
            Some(DbError::TransactionFailure(Step::InsertSpecies))
        } else if r.next_creature > MAX_ID {
            Some(DbError::TransactionFailure(Step::InsertCreature))
        } else {
            None
        }
    }

    /// The store once `p` is created: a species row and a creature row
    /// under the repaired sequences' ids, and both sequences advanced.
    pub open spec fn created(self, p: Pokemon) -> StoreView {
        let r = self.reconciled();
        let sid = r.next_species as i32;
        let cid = r.next_creature as i32;
        StoreView {
            species: self.species.push(species_part(p, sid)),
            creatures: self.creatures.push(creature_part(p, cid, sid)),
            links: self.links,
            next_species: r.next_species + 1,
            next_creature: r.next_creature + 1,
        }
    }


    /// Why replacing entity `id` with `p` fails, if it does: no creature has
    /// that id, the back-reference points nowhere, or another species has
    /// the name.
    pub open spec fn update_error(self, id: i32, p: Pokemon) -> Option<DbError> {
        if !has_creature(self.creatures, id) {
            Some(DbError::NotFound)
        } else {
            let sid = self.creatures[creature_index(self.creatures, id)].species_id;
            if !back_ref_ok(self.species, species_part(p, 0)) || name_taken(
                self.species,
                p.identifier@,
                Some(sid),
            ) {
                Some(DbError::TransactionFailure(Step::UpdateSpecies))
            } else {
                None
            }
        }
    }

    /// The store once entity `id` is replaced with `p`: both of its rows
    /// overwritten, ids and links kept.
    pub open spec fn updated(self, id: i32, p: Pokemon) -> StoreView {
        let ci = creature_index(self.creatures, id);
        let sid = self.creatures[ci].species_id;
        let si = species_index(self.species, sid);
        StoreView {
            species: self.species.update(si, species_part(p, sid)),
            creatures: self.creatures.update(ci, creature_part(p, id, sid)),
            ..self
        }
    }

    /// Why deleting entity `id` fails, if it does: no creature has that id,
    /// or another creature still points at its species.
    pub open spec fn delete_error(self, id: i32) -> Option<DbError> {
        if !has_creature(self.creatures, id) {
            Some(DbError::NotFound)
        } else {
            let ci = creature_index(self.creatures, id);
            if shared_species(self.creatures, self.creatures[ci].species_id, ci) {
                Some(DbError::TransactionFailure(Step::DeleteSpecies))
            } else {
                None
            }
        }
    }

    /// The store once entity `id` is deleted: its type links and creature
    /// row gone, back-references to its species cleared, and the species row
    /// gone.
    pub open spec fn deleted(self, id: i32) -> StoreView {
        let ci = creature_index(self.creatures, id);
        let sid = self.creatures[ci].species_id;
        let si = species_index(self.species, sid);
        StoreView {
            species: detached(self.species, sid).remove(si),
            creatures: self.creatures.remove(ci),
            links: links_without(self.links, id),
            ..self
        }
    }

    /// The joined entity of the creature row at position `i`.
    pub open spec fn entity_at(self, i: int) -> Pokemon {
        let c = self.creatures[i];
        joined(c, self.species[species_index(self.species, c.species_id)])
    }

    /// The joined entity of the creature with id `id`.
    pub open spec fn entity(self, id: i32) -> Pokemon {
        self.entity_at(creature_index(self.creatures, id))
    }

    pub open spec fn species_count(self) -> int {
        self.species.len() as int
    }

    pub open spec fn creature_count(self) -> int {
        self.creatures.len() as int
    }
}

/// Two linked tables of species and creatures, with their id sequences.
pub struct Store {
    species: Vec<Species>,
    creatures: Vec<Creature>,
    links: Vec<TypeLink>,
    next_species: i64,
    next_creature: i64,
}

/// A copy of species row `s` with its evolution back-reference cleared.
fn clear_back_ref(s: &Species) -> (r: Species)
    ensures
        r == without_back_ref(*s),
{
    Species {
        id: s.id,
        identifier: s.identifier.clone(),
        generation_id: s.generation_id,
        evolves_from_species_id: None,
        evolution_chain_id: s.evolution_chain_id,
        color_id: s.color_id,
        shape_id: s.shape_id,
        habitat_id: s.habitat_id,
        gender_rate: s.gender_rate,
        capture_rate: s.capture_rate,
        base_happiness: s.base_happiness,
        is_baby: s.is_baby,
        hatch_counter: s.hatch_counter,
        has_gender_differences: s.has_gender_differences,
        growth_rate_id: s.growth_rate_id,
        forms_switchable: s.forms_switchable,
        order: s.order,
        conquest_order: s.conquest_order,
    }
}

impl View for Store {
    type V = StoreView;

    closed spec fn view(&self) -> StoreView {
        StoreView {
            species: self.species@,
            creatures: self.creatures@,
            links: self.links@,
            next_species: self.next_species as int,
            next_creature: self.next_creature as int,
        }
    }
}

impl Store {
    /// An empty store; both sequences start at 1.
    pub fn new() -> (r: Store)
        ensures
            r@.wf(),
            r@.species.len() == 0,
            r@.creatures.len() == 0,
            r@.links.len() == 0,
            r@.next_species == 1,
            r@.next_creature == 1,
    {
        Store { species: Vec::new(), creatures: Vec::new(), links: Vec::new(), next_species: 1, next_creature: 1 }
    }

    /// The number of species rows.
    pub fn species_count(&self) -> (r: usize)
        ensures
            r == self@.species_count(),
    {
        self.species.len()
    }

    /// The number of creature rows.
    pub fn creature_count(&self) -> (r: usize)
        ensures
            r == self@.creature_count(),
    {
        self.creatures.len()
    }

    /// The number of type association rows.
    pub fn type_link_count(&self) -> (r: usize)
        ensures
            r == self@.links.len(),
    {
        self.links.len()
    }

    fn find_species(&self, id: i32) -> (r: Option<usize>)
        requires
            species_sorted(self@.species),
        ensures
            r is Some <==> has_species(self@.species, id),
            r matches Some(i) ==> i < self@.species.len() && self@.species[i as int].id == id && i
                == species_index(self@.species, id),
    {
        let mut i: usize = 0;
        while i < self.species.len()
            invariant
                i <= self.species@.len(),
                species_sorted(self@.species),
                forall|k: int| 0 <= k < i ==> self.species@[k].id != id,
            decreases self.species@.len() - i,
        {
            if self.species[i].id == id {
                let ghost j = species_index(self@.species, id);
                assert(j == i as int) by {
                    assert(has_species(self@.species, id));
                    if j < i as int {
                        assert(self@.species[j].id < self@.species[i as int].id);
                    } else if j > i as int {
                        assert(self@.species[i as int].id < self@.species[j].id);
                    }
                };
                return Some(i);
            }
            i = i + 1;
        }
        None
    }

    fn find_creature(&self, id: i32) -> (r: Option<usize>)
        requires
            creatures_sorted(self@.creatures),
        ensures
            r is Some <==> has_creature(self@.creatures, id),
            r matches Some(i) ==> i < self@.creatures.len() && self@.creatures[i as int].id == id
                && i == creature_index(self@.creatures, id),
    {
        let mut i: usize = 0;
        while i < self.creatures.len()
            invariant
                i <= self.creatures@.len(),
                creatures_sorted(self@.creatures),
                forall|k: int| 0 <= k < i ==> self.creatures@[k].id != id,
            decreases self.creatures@.len() - i,
        {
            if self.creatures[i].id == id {
                let ghost j = creature_index(self@.creatures, id);
                assert(j == i as int) by {
                    assert(has_creature(self@.creatures, id));
                    if j < i as int {
                        assert(self@.creatures[j].id < self@.creatures[i as int].id);
                    } else if j > i as int {
                        assert(self@.creatures[i as int].id < self@.creatures[j].id);
                    }
                };
                return Some(i);
            }
            i = i + 1;
        }
        None
    }

    /// The joined entity of the creature row at position `i`.
    fn entity_at(&self, i: usize) -> (r: Pokemon)
        requires
            self@.wf(),
            i < self@.creatures.len(),
        ensures
            r == self@.entity_at(i as int),
    {
        let c = &self.creatures[i];
        assert(has_species(self@.species, c.species_id));
        let si = self.find_species(c.species_id).unwrap();
        Pokemon::join(c, &self.species[si])
    }

    /// One page of joined entities in ascending creature id order.
    pub fn list(&self, page: Option<i64>, per_page: Option<i64>) -> (r: Result<Vec<Pokemon>, DbError>)
        requires
            self@.wf(),
        ensures
            r is Ok <==> page_valid(page, per_page),
            r matches Ok(v) ==> {
                let len = self@.creatures.len() as int;
                let lo = page_start(len, page, per_page);
                &&& v@.len() == page_end(len, page, per_page) - lo
                &&& forall|k: int| 0 <= k < v@.len() ==> v@[k] == self@.entity_at(lo + k)
            },
            r matches Err(x) ==> x == DbError::TransactionFailure(Step::Read),
    {
        let (limit, offset) = match window(page, per_page) {
            Some(w) => w,
            None => return Err(DbError::TransactionFailure(Step::Read)),
        };
        if limit < 0 || offset < 0 {
            return Err(DbError::TransactionFailure(Step::Read));
        }
        let len = self.creatures.len();
        let lo: usize = if (offset as u64) < (len as u64) { offset as usize } else { len };
        let hi: usize = if (limit as u64) < ((len - lo) as u64) { lo + limit as usize } else { len };
        let ghost glen = len as int;
        assert(lo == page_start(glen, page, per_page));
        assert(hi == page_end(glen, page, per_page));
        let mut out: Vec<Pokemon> = Vec::new();
        let mut i: usize = lo;
        while i < hi
            invariant
                lo <= i <= hi <= self@.creatures.len(),
                self@.wf(),
                out@.len() == i - lo,
                forall|k: int| 0 <= k < out@.len() ==> out@[k] == self@.entity_at(lo + k),
            decreases hi - i,
        {
            let e = self.entity_at(i);
            out.push(e);
            i = i + 1;
        }
        Ok(out)
    }

    /// Repairs both sequences against the largest stored ids, so that the
    /// next insert into either table takes a fresh id.
    pub fn reconcile_sequences(&mut self)
        requires
            old(self)@.wf(),
        ensures
            final(self)@ == old(self)@.reconciled(),
            final(self)@.wf(),
    {
        let ts: i64 = if self.species.len() == 0 { 0 } else { self.species[self.species.len() - 1].id as i64 };
        let tc: i64 = if self.creatures.len() == 0 { 0 } else { self.creatures[self.creatures.len() - 1].id as i64 };
        if self.next_species <= ts {
            self.next_species = ts + 1;
        }
        if self.next_creature <= tc {
            self.next_creature = tc + 1;
        }
    }

    fn name_in_use(&self, name: &String, except: Option<i32>) -> (r: bool)
        ensures
            r == name_taken(self@.species, name@, except),
    {
        let mut i: usize = 0;
        while i < self.species.len()
            invariant
                i <= self.species@.len(),
                forall|k: int|
                    0 <= k < i ==> !(self@.species[k].identifier@ == name@ && except != Some(
                        self@.species[k].id,
                    )),
            decreases self.species@.len() - i,
        {
            let s = &self.species[i];
            if s.identifier == *name {
                match except {
                    Some(x) => {
                        if x != s.id {
                            return true;
                        }
                    },
                    None => {
                        return true;
                    },
                }
            }
            i = i + 1;
        }
        false
    }

    fn back_ref_exists(&self, evolves_from: Option<i32>) -> (r: bool)
        requires
            species_sorted(self@.species),
        ensures
            r == (evolves_from matches Some(e) ==> has_species(self@.species, e)),
    {
        match evolves_from {
            Some(e) => self.find_species(e).is_some(),
            None => true,
        }
    }

    /// Creates an entity in one unit of work: repairs both sequences, inserts
    /// the species row, inserts the creature row pointing at it, and reads
    /// the joined entity back. On failure nothing of it stays.
    pub fn create(&mut self, p: &Pokemon) -> (r: Result<Pokemon, DbError>)
        requires
            old(self)@.wf(),
        ensures
            final(self)@.wf(),
            r is Ok <==> old(self)@.create_error(*p) is None,
            r matches Ok(e) ==> final(self)@ == old(self)@.created(*p) && e == with_id(
                *p,
                Some(old(self)@.reconciled().next_creature as i32),
            ),
            r matches Err(x) ==> final(self)@ == old(self)@ && old(self)@.create_error(*p) == Some(x),
    {
        let ghost v = self@;
        let ts: i64 = if self.species.len() == 0 { 0 } else { self.species[self.species.len() - 1].id as i64 };
        let tc: i64 = if self.creatures.len() == 0 { 0 } else { self.creatures[self.creatures.len() - 1].id as i64 };
        let ns: i64 = if self.next_species > ts { self.next_species } else { ts + 1 };
        let nc: i64 = if self.next_creature > tc { self.next_creature } else { tc + 1 };
        assert(ns == v.reconciled().next_species);
        assert(nc == v.reconciled().next_creature);
        if ns > MAX_ID as i64 || !self.back_ref_exists(p.evolves_from_species_id)
            || self.name_in_use(&p.identifier, None) {
            return Err(DbError::TransactionFailure(Step::InsertSpecies));
        }
        if nc > MAX_ID as i64 {
            return Err(DbError::TransactionFailure(Step::InsertCreature));
        }
        let sid = ns as i32;
        let cid = nc as i32;
        let srow = p.to_species(sid);
        let crow = p.to_creature(cid, sid);
        self.species.push(srow);
        self.creatures.push(crow);
        self.next_species = ns + 1;
        self.next_creature = nc + 1;
        proof {
            lemma_created_wf(v, *p);
        }
        let r = self.get(cid);
        proof {
            assert(self@ == v.created(*p));
            crate::entity::lemma_split_join(*p, cid, sid);
        }
        r
    }

    /// Replaces entity `id` with `p` in one unit of work: overwrites the
    /// creature row, then the species row it points at. On failure nothing
    /// of it stays.
    pub fn update(&mut self, id: i32, p: &Pokemon) -> (r: Result<Pokemon, DbError>)
        requires
            old(self)@.wf(),
        ensures
            final(self)@.wf(),
            r is Ok <==> old(self)@.update_error(id, *p) is None,
            r matches Ok(e) ==> final(self)@ == old(self)@.updated(id, *p) && e == with_id(*p, Some(id)),
            r matches Err(x) ==> final(self)@ == old(self)@ && old(self)@.update_error(id, *p) == Some(x),
    {
        let ghost v = self@;
        let ci = match self.find_creature(id) {
            Some(ci) => ci,
            None => return Err(DbError::NotFound),
        };
        let sid = self.creatures[ci].species_id;
        if !self.back_ref_exists(p.evolves_from_species_id) || self.name_in_use(&p.identifier, Some(sid)) {
            return Err(DbError::TransactionFailure(Step::UpdateSpecies));
        }
        assert(has_species(v.species, sid));
        let si = self.find_species(sid).unwrap();
        let crow = p.to_creature(id, sid);
        let srow = p.to_species(sid);
        self.creatures.set(ci, crow);
        self.species.set(si, srow);
        proof {
            let w = self@;
            assert(w == v.updated(id, *p));
            lemma_same_ids(v.species, w.species);
            assert forall|i: int, j: int| 0 <= i < j < w.species.len() implies w.species[i].id
                < w.species[j].id by {
                assert(v.species[i].id < v.species[j].id);
            }
            assert forall|i: int, j: int| 0 <= i < j < w.creatures.len() implies w.creatures[i].id
                < w.creatures[j].id by {
                assert(v.creatures[i].id < v.creatures[j].id);
            }
            assert forall|i: int| 0 <= i < w.creatures.len() implies #[trigger] has_species(
                w.species,
                w.creatures[i].species_id,
            ) by {
                assert(has_species(v.species, v.creatures[i].species_id));
            }
            assert forall|i: int| 0 <= i < w.species.len() implies back_ref_ok(
                w.species,
                #[trigger] w.species[i],
            ) by {
                if i != si {
                    assert(back_ref_ok(v.species, v.species[i]));
                }
            }
            assert forall|i: int, j: int| 0 <= i < j < w.species.len() implies #[trigger] w.species[i].identifier@
                != #[trigger] w.species[j].identifier@ by {
                if i == si {
                    assert(!(v.species[j].identifier@ == p.identifier@ && Some(sid) != Some(v.species[j].id)));
                    assert(v.species[j].id != v.species[i].id);
                } else if j == si {
                    assert(!(v.species[i].identifier@ == p.identifier@ && Some(sid) != Some(v.species[i].id)));
                    assert(v.species[j].id != v.species[i].id);
                } else {
                    assert(v.species[i].identifier@ != v.species[j].identifier@);
                }
            }
            crate::entity::lemma_split_join(*p, id, sid);
        }
        Ok(Pokemon::join(&self.creatures[ci], &self.species[si]))
    }

    fn species_shared(&self, sid: i32, ci: usize) -> (r: bool)
        ensures
            r == shared_species(self@.creatures, sid, ci as int),
    {
        let mut i: usize = 0;
        while i < self.creatures.len()
            invariant
                i <= self.creatures@.len(),
                forall|k: int| 0 <= k < i && k != ci ==> self@.creatures[k].species_id != sid,
            decreases self.creatures@.len() - i,
        {
            if i != ci && self.creatures[i].species_id == sid {
                return true;
            }
            i = i + 1;
        }
        false
    }

    fn remove_links(&mut self, id: i32)
        ensures
            final(self)@ == (StoreView { links: links_without(old(self)@.links, id), ..old(self)@ }),
    {
        let ghost old_links = self.links@;
        let mut kept: Vec<TypeLink> = Vec::new();
        let mut i: usize = 0;
        while i < self.links.len()
            invariant
                i <= self.links@.len(),
                self.links@ == old_links,
                kept@ == links_without(old_links.subrange(0, i as int), id),
            decreases self.links@.len() - i,
        {
            let l = self.links[i];
            proof {
                let s = old_links.subrange(0, i as int + 1);
                assert(s.drop_last() =~= old_links.subrange(0, i as int));
                assert(s.last() == l);
                reveal(Seq::filter);
            }
            if l.id != id {
                kept.push(l);
            }
            i = i + 1;
        }
        assert(old_links.subrange(0, old_links.len() as int) =~= old_links);
        self.links = kept;
    }

    /// Deletes entity `id` in one unit of work: removes its type links and
    /// its creature row, clears every back-reference to its species, then
    /// removes the species row. On failure nothing of it stays.
    pub fn delete(&mut self, id: i32) -> (r: Result<(), DbError>)
        requires
            old(self)@.wf(),
        ensures
            final(self)@.wf(),
            r is Ok <==> old(self)@.delete_error(id) is None,
            r is Ok ==> final(self)@ == old(self)@.deleted(id),
            r matches Err(x) ==> final(self)@ == old(self)@ && old(self)@.delete_error(id) == Some(x),
    {
        let ghost v = self@;
        let ci = match self.find_creature(id) {
            Some(ci) => ci,
            None => return Err(DbError::NotFound),
        };
        let sid = self.creatures[ci].species_id;
        if self.species_shared(sid, ci) {
            return Err(DbError::TransactionFailure(Step::DeleteSpecies));
        }
        assert(has_species(v.species, sid));
        let si = self.find_species(sid).unwrap();
        self.remove_links(id);
        self.creatures.remove(ci);
        let ghost cs = self.creatures@;
        assert(cs =~= v.creatures.remove(ci as int));
        let mut k: usize = 0;
        while k < self.species.len()
            invariant
                k <= self.species@.len(),
                self.species@.len() == v.species.len(),
                self.creatures@ == cs,
                self.links@ == links_without(v.links, id),
                self.next_species == v.next_species,
                self.next_creature == v.next_creature,
                forall|j: int| 0 <= j < k ==> self.species@[j] == detached(v.species, sid)[j],
                forall|j: int| k <= j < self.species@.len() ==> self.species@[j] == v.species[j],
            decreases self.species@.len() - k,
        {
            if self.species[k].evolves_from_species_id == Some(sid) {
                let s = clear_back_ref(&self.species[k]);
                self.species.set(k, s);
            }
            k = k + 1;
        }
        assert(self.species@ =~= detached(v.species, sid));
        self.species.remove(si);
        proof {
            assert(self@.species =~= detached(v.species, sid).remove(si as int));
            assert(self@ == v.deleted(id));
            lemma_deleted_wf(v, id);
        }
        Ok(())
    }

    /// Bulk-loads a pre-numbered species row, as a seed script does: the
    /// row must come after every stored id, point back at an existing
    /// species if at all, and carry a free name. The sequence is not
    /// advanced.
    pub fn seed_species(&mut self, s: Species) -> (r: Result<(), DbError>)
        requires
            old(self)@.wf(),
        ensures
            final(self)@.wf(),
            r is Ok <==> (s.id > top_species_id(old(self)@.species) && back_ref_ok(old(self)@.species, s)
                && !name_taken(old(self)@.species, s.identifier@, None)),
            r is Ok ==> final(self)@ == (StoreView { species: old(self)@.species.push(s), ..old(self)@ }),
            r matches Err(x) ==> final(self)@ == old(self)@ && x == DbError::TransactionFailure(Step::InsertSpecies),
    {
        let ghost v = self@;
        let ts: i64 = if self.species.len() == 0 { 0 } else { self.species[self.species.len() - 1].id as i64 };
        if s.id as i64 <= ts || !self.back_ref_exists(s.evolves_from_species_id) || self.name_in_use(&s.identifier, None) {
            return Err(DbError::TransactionFailure(Step::InsertSpecies));
        }
        self.species.push(s);
        proof {
            let w = self@;
            assert forall|i: int, j: int| 0 <= i < j < w.species.len() implies w.species[i].id
                < w.species[j].id by {
                if j == w.species.len() - 1 && i < v.species.len() - 1 {
                    assert(v.species[i].id < v.species[v.species.len() - 1].id);
                }
            }
            assert forall|x: i32| has_species(v.species, x) implies has_species(w.species, x) by {
                let k = choose|k: int| 0 <= k < v.species.len() && v.species[k].id == x;
                assert(w.species[k] == v.species[k]);
            }
            assert forall|i: int| 0 <= i < w.creatures.len() implies #[trigger] has_species(
                w.species,
                w.creatures[i].species_id,
            ) by {
                assert(has_species(v.species, v.creatures[i].species_id));
            }
            assert forall|i: int| 0 <= i < w.species.len() implies back_ref_ok(
                w.species,
                #[trigger] w.species[i],
            ) by {
                if i < v.species.len() {
                    assert(back_ref_ok(v.species, v.species[i]));
                }
            }
            assert forall|i: int, j: int| 0 <= i < j < w.species.len() implies #[trigger] w.species[i].identifier@
                != #[trigger] w.species[j].identifier@ by {
                if j == w.species.len() - 1 {
                    assert(!(v.species[i].identifier@ == s.identifier@ && None::<i32> != Some(v.species[i].id)));
                }
            }
        }
        Ok(())
    }

    /// Bulk-loads a pre-numbered creature row, as a seed script does: the
    /// row must come after every stored id and point at an existing
    /// species. The sequence is not advanced.
    pub fn seed_creature(&mut self, c: Creature) -> (r: Result<(), DbError>)
        requires
            old(self)@.wf(),
        ensures
            final(self)@.wf(),
            r is Ok <==> (c.id > top_creature_id(old(self)@.creatures) && has_species(old(self)@.species, c.species_id)),
            r is Ok ==> final(self)@ == (StoreView { creatures: old(self)@.creatures.push(c), ..old(self)@ }),
            r matches Err(x) ==> final(self)@ == old(self)@ && x == DbError::TransactionFailure(Step::InsertCreature),
    {
        let ghost v = self@;
        let tc: i64 = if self.creatures.len() == 0 { 0 } else { self.creatures[self.creatures.len() - 1].id as i64 };
        if c.id as i64 <= tc || self.find_species(c.species_id).is_none() {
            return Err(DbError::TransactionFailure(Step::InsertCreature));
        }
        self.creatures.push(c);
        proof {
            let w = self@;
            assert forall|i: int, j: int| 0 <= i < j < w.creatures.len() implies w.creatures[i].id
                < w.creatures[j].id by {
                if j == w.creatures.len() - 1 && i < v.creatures.len() - 1 {
                    assert(v.creatures[i].id < v.creatures[v.creatures.len() - 1].id);
                }
            }
            assert forall|i: int| 0 <= i < w.creatures.len() implies #[trigger] has_species(
                w.species,
                w.creatures[i].species_id,
            ) by {
                if i < v.creatures.len() {
                    assert(has_species(v.species, v.creatures[i].species_id));
                }
            }
        }
        Ok(())
    }

    /// Bulk-loads a type association row for creature id `link.id`.
    pub fn seed_type_link(&mut self, link: TypeLink)
        requires
            old(self)@.wf(),
        ensures
            final(self)@.wf(),
            final(self)@ == (StoreView { links: old(self)@.links.push(link), ..old(self)@ }),
    {
        self.links.push(link);
    }

    /// The joined entity of creature `id`, or `NotFound`.
    pub fn get(&self, id: i32) -> (r: Result<Pokemon, DbError>)
        requires
            self@.wf(),
        ensures
            r is Ok <==> has_creature(self@.creatures, id),
            r matches Ok(e) ==> e == self@.entity(id),
            r matches Err(x) ==> x == DbError::NotFound,
    {
        match self.find_creature(id) {
            Some(i) => Ok(self.entity_at(i)),
            None => Err(DbError::NotFound),
        }
    }
}

} // verus!
