use vstd::prelude::*;

verus! {

/// The joined view of one creature and its species, as clients see it.
#[derive(Debug)]
pub struct Pokemon {
    pub id: Option<i32>,
    pub identifier: String,
    pub generation_id: i32,
    pub evolves_from_species_id: Option<i32>,
    pub evolution_chain_id: i32,
    pub color_id: Option<i32>,
    pub shape_id: Option<i32>,
    pub habitat_id: Option<i32>,
    pub gender_rate: i32,
    pub capture_rate: i32,
    pub base_happiness: i32,
    pub is_baby: bool,
    pub hatch_counter: i32,
    pub has_gender_differences: bool,
    pub growth_rate_id: Option<i32>,
    pub forms_switchable: bool,
    pub order: i32,
    pub conquest_order: Option<i32>,
    pub height: i32,
    pub weight: i32,
    pub base_experience: i32,
    pub is_default: bool,
}

/// A row of the species table: what all creatures of one taxon share.
#[derive(Debug)]
pub struct Species {
    pub id: i32,
    pub identifier: String,
    pub generation_id: i32,
    pub evolves_from_species_id: Option<i32>,
    pub evolution_chain_id: i32,
    pub color_id: Option<i32>,
    pub shape_id: Option<i32>,
    pub habitat_id: Option<i32>,
    pub gender_rate: i32,
    pub capture_rate: i32,
    pub base_happiness: i32,
    pub is_baby: bool,
    pub hatch_counter: i32,
    pub has_gender_differences: bool,
    pub growth_rate_id: Option<i32>,
    pub forms_switchable: bool,
    pub order: i32,
    pub conquest_order: Option<i32>,
}

/// A row of the creature table: one individual, pointing at its species.
#[derive(Debug)]
pub struct Creature {
    pub id: i32,
    pub species_id: i32,
    pub identifier: String,
    pub height: i32,
    pub weight: i32,
    pub base_experience: i32,
    pub order: i32,
    pub is_default: bool,
}

/// A row of the type association table, keyed by creature id.
#[derive(Debug, Clone, Copy, PartialEq, Eq, Structural)]
pub struct TypeLink {
    pub id: i32,
    pub type_id: i32,
}

/// The species-level half of an entity, stored under `id`.
pub open spec fn species_part(p: Pokemon, id: i32) -> Species {
    Species {
        id,
        identifier: p.identifier,
        generation_id: p.generation_id,
        evolves_from_species_id: p.evolves_from_species_id,
        evolution_chain_id: p.evolution_chain_id,
        color_id: p.color_id,
        shape_id: p.shape_id,
        habitat_id: p.habitat_id,
        gender_rate: p.gender_rate,
        capture_rate: p.capture_rate,
        base_happiness: p.base_happiness,
        is_baby: p.is_baby,
        hatch_counter: p.hatch_counter,
        has_gender_differences: p.has_gender_differences,
        growth_rate_id: p.growth_rate_id,
        forms_switchable: p.forms_switchable,
        order: p.order,
        conquest_order: p.conquest_order,
    }
}

/// The instance-level half of an entity, stored under `id` and pointing at
/// species `species_id`.
pub open spec fn creature_part(p: Pokemon, id: i32, species_id: i32) -> Creature {
    Creature {
        id,
        species_id,
        identifier: p.identifier,
        height: p.height,
        weight: p.weight,
        base_experience: p.base_experience,
        order: p.order,
        is_default: p.is_default,
    }
}

/// The join of a creature row with its species row: the creature's id and
/// physical fields, and everything else from the species.
pub open spec fn joined(c: Creature, s: Species) -> Pokemon {
    Pokemon {
        id: Some(c.id),
        identifier: s.identifier,
        generation_id: s.generation_id,
        evolves_from_species_id: s.evolves_from_species_id,
        evolution_chain_id: s.evolution_chain_id,
        color_id: s.color_id,
        shape_id: s.shape_id,
        habitat_id: s.habitat_id,
        gender_rate: s.gender_rate,
        capture_rate: s.capture_rate,
        base_happiness: s.base_happiness,
        is_baby: s.is_baby,
        hatch_counter: s.hatch_counter,
        has_gender_differences: s.has_gender_differences,
        growth_rate_id: s.growth_rate_id,
        forms_switchable: s.forms_switchable,
        order: s.order,
        conquest_order: s.conquest_order,
        height: c.height,
        weight: c.weight,
        base_experience: c.base_experience,
        is_default: c.is_default,
    }
}

/// The entity `p` carrying the id `id`, every other field kept.
pub open spec fn with_id(p: Pokemon, id: Option<i32>) -> Pokemon {
    Pokemon { id, ..p }
}

impl Pokemon {
    /// The species row that stores this entity's shared fields under `id`.
    pub fn to_species(&self, id: i32) -> (r: Species)
        ensures
            r == species_part(*self, id),
    {
        Species {
            id,
            identifier: self.identifier.clone(),
            generation_id: self.generation_id,
            evolves_from_species_id: self.evolves_from_species_id,
            evolution_chain_id: self.evolution_chain_id,
            color_id: self.color_id,
            shape_id: self.shape_id,
            habitat_id: self.habitat_id,
            gender_rate: self.gender_rate,
            capture_rate: self.capture_rate,
            base_happiness: self.base_happiness,
            is_baby: self.is_baby,
            hatch_counter: self.hatch_counter,
            has_gender_differences: self.has_gender_differences,
            growth_rate_id: self.growth_rate_id,
            forms_switchable: self.forms_switchable,
            order: self.order,
            conquest_order: self.conquest_order,
        }
    }

    /// The creature row that stores this entity's own fields under `id`.
    pub fn to_creature(&self, id: i32, species_id: i32) -> (r: Creature)
        ensures
            r == creature_part(*self, id, species_id),
    {
        Creature {
            id,
            species_id,
            identifier: self.identifier.clone(),
            height: self.height,
            weight: self.weight,
            base_experience: self.base_experience,
            order: self.order,
            is_default: self.is_default,
        }
    }

    /// Joins a creature row with its species row into one entity.
    pub fn join(c: &Creature, s: &Species) -> (r: Pokemon)
        ensures
            r == joined(*c, *s),
    {
        Pokemon {
            id: Some(c.id),
            identifier: s.identifier.clone(),
            generation_id: s.generation_id,
            evolves_from_species_id: s.evolves_from_species_id,
            evolution_chain_id: s.evolution_chain_id,
            color_id: s.color_id,
            shape_id: s.shape_id,
            habitat_id: s.habitat_id,
            gender_rate: s.gender_rate,
            capture_rate: s.capture_rate,
            base_happiness: s.base_happiness,
            is_baby: s.is_baby,
            hatch_counter: s.hatch_counter,
            has_gender_differences: s.has_gender_differences,
            growth_rate_id: s.growth_rate_id,
            forms_switchable: s.forms_switchable,
            order: s.order,
            conquest_order: s.conquest_order,
            height: c.height,
            weight: c.weight,
            base_experience: c.base_experience,
            is_default: c.is_default,
        }
    }
}

/// Splitting an entity into its two rows and joining them again gives the
/// entity back, with the creature row's id.
pub proof fn lemma_split_join(p: Pokemon, id: i32, species_id: i32)
    ensures
        joined(creature_part(p, id, species_id), species_part(p, species_id)) == with_id(p, Some(id)),
{
}

} // verus!
