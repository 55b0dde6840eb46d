use std::collections::HashMap;
use vstd::prelude::*;

use crate::model::body_hierarchy::BodyHierarchy;
use crate::model::body_part::BodyPart;

verus! {

broadcast use vstd::std_specs::hash::group_hash_axioms;

/// Body-part id to entity after the first `n` parts are entered in order
/// (a later part with the same id replaces an earlier one).
pub open spec fn entity_map_upto(parts: Seq<BodyPart>, entities: Seq<u64>, n: nat) -> Map<u32, u64>
    decreases n,
{
    if n == 0 {
        Map::empty()
    } else {
        entity_map_upto(parts, entities, (n - 1) as nat).insert(
            parts[n - 1].id,
            entities[n - 1],
        )
    }
}

/// The (parent entity, child entity) links for the first `n` parts, in
/// order: one for each part with a parent id, when both ids have an entity.
pub open spec fn parent_links_upto(parts: Seq<BodyPart>, entities: Map<u32, u64>, n: nat) -> Seq<
    (u64, u64),
>
    decreases n,
{
    if n == 0 {
        Seq::empty()
    } else {
        let before = parent_links_upto(parts, entities, (n - 1) as nat);
        let part = parts[n - 1];
        match part.parent_id {
            Some(pid) => if entities.contains_key(part.id) && entities.contains_key(pid) {
                before.push((entities[pid], entities[part.id]))
            } else {
                before
            },
            None => before,
        }
    }
}

pub struct Spawner;

impl Spawner {
    /// Given the entity spawned for each part (`entities[i]` for `parts[i]`),
    /// the id-to-entity table of the creature and the parent links to make
    /// between the entities.
    pub fn link_parts(parts: &Vec<BodyPart>, entities: &Vec<u64>) -> (result: (
        BodyHierarchy,
        Vec<(u64, u64)>,
    ))
        requires
            parts.len() == entities.len(),
        ensures
            result.0.entities@ == entity_map_upto(parts@, entities@, parts@.len()),
            result.1@ == parent_links_upto(parts@, result.0.entities@, parts@.len()),
    {
        let mut map: HashMap<u32, u64> = HashMap::new();
        let mut i: usize = 0;
        while i < parts.len()
            invariant
                parts.len() == entities.len(),
                i <= parts.len(),
                map@ == entity_map_upto(parts@, entities@, i as nat),
            decreases parts.len() - i,
        {
            map.insert(parts[i].id, entities[i]);
            i += 1;
        }
        let mut links: Vec<(u64, u64)> = Vec::new();
        let mut j: usize = 0;
        while j < parts.len()
            invariant
                j <= parts.len(),
                map@ == entity_map_upto(parts@, entities@, parts@.len()),
                links@ == parent_links_upto(parts@, map@, j as nat),
            decreases parts.len() - j,
        {
            let part = &parts[j];
            if let Some(parent_id) = part.parent_id {
                match map.get(&part.id) {
                    Some(child_entity) => match map.get(&parent_id) {
                        Some(parent_entity) => {
                            links.push((*parent_entity, *child_entity));
                        },
                        None => {},
                    },
                    None => {},
                }
            }
            j += 1;
        }
        (BodyHierarchy { entities: map }, links)
    }
}

} // verus!
