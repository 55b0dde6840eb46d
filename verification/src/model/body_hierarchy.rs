use std::collections::HashMap;
use vstd::prelude::*;

use crate::history::edit_history::{
    capped_push, lemma_record_then_undo, reparent_edit, Action, EditHistory, EditHistoryManager,
};

use super::naming::{
    contains_name, format_numbered, lemma_numbered_names_fit, name_seq, numbered_name,
};

verus! {

broadcast use vstd::std_specs::hash::group_hash_axioms;

/// The entity reached from `entity` after `steps` moves to the parent, if the
/// chain of parents is that long.
pub open spec fn ancestor(parents: Map<u64, u64>, entity: u64, steps: nat) -> Option<u64>
    decreases steps,
{
    if steps == 0 {
        Some(entity)
    } else if parents.contains_key(entity) {
        ancestor(parents, parents[entity], (steps - 1) as nat)
    } else {
        None
    }
}

/// `candidate` lies below `of`: walking up from `candidate` reaches `of`
/// after one or more steps.
pub open spec fn descends_from(parents: Map<u64, u64>, candidate: u64, of: u64) -> bool {
    exists|k: nat| k >= 1 && #[trigger] ancestor(parents, candidate, k) == Some(of)
}

/// Every parent link goes to an entity of strictly smaller rank.
pub open spec fn ranked_by(parents: Map<u64, u64>, rank: spec_fn(u64) -> nat) -> bool {
    forall|c: u64| #[trigger] parents.contains_key(c) ==> rank(parents[c]) < rank(c)
}

/// The parent relation has no cycle: some rank decreases along every link.
pub open spec fn well_founded(parents: Map<u64, u64>) -> bool {
    exists|rank: spec_fn(u64) -> nat| ranked_by(parents, rank)
}

/// The parent of `entity`, `None` for a root.
pub open spec fn parent_of(parents: Map<u64, u64>, entity: u64) -> Option<u64> {
    if parents.contains_key(entity) {
        Some(parents[entity])
    } else {
        None
    }
}

/// The body-part id of an optional entity.
pub open spec fn id_of(part_ids: Map<u64, u32>, entity: Option<u64>) -> Option<u32> {
    match entity {
        Some(e) => if part_ids.contains_key(e) {
            Some(part_ids[e])
        } else {
            None
        },
        None => None,
    }
}

/// The parent relation after `child` is put under `parent`, or made a root.
pub open spec fn with_parent(parents: Map<u64, u64>, child: u64, parent: Option<u64>) -> Map<
    u64,
    u64,
> {
    match parent {
        Some(p) => parents.insert(child, p),
        None => parents.remove(child),
    }
}

/// Putting `child` under `parent` keeps the relation free of cycles.
pub open spec fn may_attach(parents: Map<u64, u64>, child: u64, parent: u64) -> bool {
    child != parent && !descends_from(parents, parent, child)
}

/// The rank after the subtree under `child` is lifted by `shift`.
pub open spec fn lifted_rank(
    parents: Map<u64, u64>,
    rank: spec_fn(u64) -> nat,
    child: u64,
    shift: nat,
) -> spec_fn(u64) -> nat {
    |x: u64|
        if x == child || descends_from(parents, x, child) {
            rank(x) + shift
        } else {
            rank(x)
        }
}

proof fn lemma_step_descends(parents: Map<u64, u64>, x: u64, y: u64)
    requires
        parents.contains_key(x),
        parents[x] == y || descends_from(parents, parents[x], y),
    ensures
        descends_from(parents, x, y),
{
    if parents[x] == y {
        assert(ancestor(parents, parents[x], 0) == Some(y));
        assert(ancestor(parents, x, 1) == Some(y));
    } else {
        let k = choose|k: nat| k >= 1 && #[trigger] ancestor(parents, parents[x], k) == Some(y);
        assert(ancestor(parents, x, k + 1) == ancestor(parents, parents[x], k));
    }
}

proof fn lemma_descends_step(parents: Map<u64, u64>, x: u64, y: u64)
    requires
        descends_from(parents, x, y),
    ensures
        parents.contains_key(x),
        parents[x] == y || descends_from(parents, parents[x], y),
{
    let k = choose|k: nat| k >= 1 && #[trigger] ancestor(parents, x, k) == Some(y);
    assert(parents.contains_key(x));
    assert(ancestor(parents, x, k) == ancestor(parents, parents[x], (k - 1) as nat));
    if k - 1 == 0 {
        assert(parents[x] == y);
    } else {
        assert(ancestor(parents, parents[x], (k - 1) as nat) == Some(y));
    }
}

proof fn lemma_descends_rank(parents: Map<u64, u64>, rank: spec_fn(u64) -> nat, x: u64, y: u64, k: nat)
    requires
        ranked_by(parents, rank),
        ancestor(parents, x, k) == Some(y),
    ensures
        rank(y) <= rank(x),
        k >= 1 ==> rank(y) < rank(x),
    decreases k,
{
    if k > 0 {
        assert(parents.contains_key(x));
        lemma_descends_rank(parents, rank, parents[x], y, (k - 1) as nat);
    }
}

/// No entity lies below itself in a cycle-free parent relation.
pub proof fn lemma_no_self_descent(parents: Map<u64, u64>, entity: u64)
    requires
        well_founded(parents),
    ensures
        !descends_from(parents, entity, entity),
{
    let rank = choose|rank: spec_fn(u64) -> nat| ranked_by(parents, rank);
    if descends_from(parents, entity, entity) {
        let k = choose|k: nat| k >= 1 && #[trigger] ancestor(parents, entity, k) == Some(entity);
        lemma_descends_rank(parents, rank, entity, entity, k);
    }
}

proof fn lemma_attach_ranked(parents: Map<u64, u64>, rank: spec_fn(u64) -> nat, child: u64, parent: u64)
    requires
        ranked_by(parents, rank),
        may_attach(parents, child, parent),
    ensures
        ranked_by(
            parents.insert(child, parent),
            lifted_rank(parents, rank, child, (rank(parent) + 1) as nat),
        ),
{
    let m2 = parents.insert(child, parent);
    let nr = lifted_rank(parents, rank, child, (rank(parent) + 1) as nat);
    assert forall|x: u64| #[trigger] m2.contains_key(x) implies nr(m2[x]) < nr(x) by {
        if x == child {
            assert(nr(parent) == rank(parent));
        } else {
            assert(m2[x] == parents[x]);
            if descends_from(parents, x, child) {
                lemma_descends_step(parents, x, child);
            } else if parents[x] == child || descends_from(parents, parents[x], child) {
                lemma_step_descends(parents, x, child);
            }
        }
    }
}

proof fn lemma_detach_ranked(parents: Map<u64, u64>, rank: spec_fn(u64) -> nat, child: u64)
    requires
        ranked_by(parents, rank),
    ensures
        ranked_by(parents.remove(child), rank),
{
    let m2 = parents.remove(child);
    assert forall|x: u64| #[trigger] m2.contains_key(x) implies rank(m2[x]) < rank(x) by {
        assert(parents.contains_key(x));
    }
}

/// The parent relation between body-part entities (the `ChildOf` links), and
/// the body-part id carried by each entity. Entities are identified by their
/// 64-bit form.
pub struct HierarchyReference {
    parents: HashMap<u64, u64>,
    part_ids: HashMap<u64, u32>,
    rank: Ghost<spec_fn(u64) -> nat>,
}

impl HierarchyReference {
    /// The parent links never form a cycle.
    #[verifier::type_invariant]
    pub closed spec fn inv(self) -> bool {
        ranked_by(self.parents@, self.rank@)
    }

    /// Child entity to parent entity.
    pub closed spec fn parent_map(&self) -> Map<u64, u64> {
        self.parents@
    }

    /// Entity to the id of the body part it carries.
    pub closed spec fn part_id_map(&self) -> Map<u64, u32> {
        self.part_ids@
    }

    pub fn new() -> (h: Self)
        ensures
            h.parent_map() == Map::<u64, u64>::empty(),
            h.part_id_map() == Map::<u64, u32>::empty(),
    {
        HierarchyReference {
            parents: HashMap::new(),
            part_ids: HashMap::new(),
            rank: Ghost(|x: u64| 0nat),
        }
    }

    /// A hierarchy that keeps its invariant has a cycle-free parent relation.
    pub proof fn lemma_well_founded(&self)
        requires
            self.inv(),
        ensures
            well_founded(self.parent_map()),
    {
        assert(ranked_by(self.parents@, self.rank@));
    }

    /// The hierarchy of a scene: `parts` pairs each body-part entity with its
    /// part id, `child_of` pairs each child entity with its parent. Links are
    /// made in order; one that would close a cycle is left out.
    pub fn from_scene(parts: &Vec<(u64, u32)>, child_of: &Vec<(u64, u64)>) -> (h: Self)
        ensures
            h.part_id_map() == part_ids_upto(parts@, parts@.len()),
            h.parent_map() == links_upto(child_of@, child_of@.len()),
            well_founded(h.parent_map()),
    {
        let mut h = HierarchyReference::new();
        let mut i: usize = 0;
        while i < parts.len()
            invariant
                i <= parts.len(),
                h.part_id_map() == part_ids_upto(parts@, i as nat),
                h.parent_map() == Map::<u64, u64>::empty(),
            decreases parts.len() - i,
        {
            let (entity, id) = parts[i];
            h.insert_part(entity, id);
            i += 1;
        }
        let mut j: usize = 0;
        while j < child_of.len()
            invariant
                j <= child_of.len(),
                h.part_id_map() == part_ids_upto(parts@, parts@.len()),
                h.parent_map() == links_upto(child_of@, j as nat),
            decreases child_of.len() - j,
        {
            let (child, parent) = child_of[j];
            h.attach(child, parent);
            j += 1;
        }
        proof {
            use_type_invariant(&h);
            h.lemma_well_founded();
        }
        h
    }

    /// Records that `entity` carries the body part `id`.
    pub fn insert_part(&mut self, entity: u64, id: u32)
        ensures
            final(self).part_id_map() == old(self).part_id_map().insert(entity, id),
            final(self).parent_map() == old(self).parent_map(),
    {
        proof {
            use_type_invariant(&*self);
        }
        let mut part_ids: HashMap<u64, u32> = HashMap::new();
        std::mem::swap(&mut part_ids, &mut self.part_ids);
        part_ids.insert(entity, id);
        self.part_ids = part_ids;
    }

    /// The parent of `entity`.
    pub fn parent(&self, entity: u64) -> (p: Option<u64>)
        ensures
            p == parent_of(self.parent_map(), entity),
    {
        match self.parents.get(&entity) {
            Some(p) => Some(*p),
            None => None,
        }
    }

    /// The body-part id carried by `entity`.
    pub fn part_id(&self, entity: u64) -> (id: Option<u32>)
        ensures
            id == id_of(self.part_id_map(), Some(entity)),
    {
        match self.part_ids.get(&entity) {
            Some(id) => Some(*id),
            None => None,
        }
    }

    fn attach_unchecked(&mut self, child: u64, parent: u64)
        requires
            may_attach(old(self).parent_map(), child, parent),
        ensures
            final(self).parent_map() == old(self).parent_map().insert(child, parent),
            final(self).part_id_map() == old(self).part_id_map(),
    {
        proof {
            use_type_invariant(&*self);
        }
        let ghost m = self.parents@;
        let ghost r = self.rank@;
        let ghost nr = lifted_rank(m, r, child, (r(parent) + 1) as nat);
        proof {
            lemma_attach_ranked(m, r, child, parent);
        }
        let mut parents: HashMap<u64, u64> = HashMap::new();
        std::mem::swap(&mut parents, &mut self.parents);
        parents.insert(child, parent);
        self.rank = Ghost(nr);
        self.parents = parents;
    }

    /// Sorts the given body-part entities, keeping their order, into the
    /// roots and, for each entity that is a parent of one of them, its
    /// children.
    pub fn group_children(&self, entities: &Vec<u64>) -> (grouped: (Vec<u64>, HashMap<u64, Vec<u64>>))
        ensures
            grouped.0@ == roots_upto(self.parent_map(), entities@, entities@.len()),
            forall|p: u64| #[trigger]
                grouped.1@.contains_key(p) <==> children_upto(
                    self.parent_map(),
                    entities@,
                    entities@.len(),
                    p,
                ).len() > 0,
            forall|p: u64| #[trigger]
                grouped.1@.contains_key(p) ==> grouped.1@[p]@ == children_upto(
                    self.parent_map(),
                    entities@,
                    entities@.len(),
                    p,
                ),
    {
        let ghost m = self.parents@;
        let mut roots: Vec<u64> = Vec::new();
        let mut children: HashMap<u64, Vec<u64>> = HashMap::new();
        let mut i: usize = 0;
        while i < entities.len()
            invariant
                m == self.parents@,
                i <= entities.len(),
                roots@ == roots_upto(m, entities@, i as nat),
                forall|p: u64| #[trigger]
                    children@.contains_key(p) <==> children_upto(m, entities@, i as nat, p).len()
                        > 0,
                forall|p: u64| #[trigger]
                    children@.contains_key(p) ==> children@[p]@ == children_upto(
                        m,
                        entities@,
                        i as nat,
                        p,
                    ),
            decreases entities.len() - i,
        {
            let entity = entities[i];
            match self.parents.get(&entity) {
                Some(p) => {
                    let parent = *p;
                    let mut siblings = match children.remove(&parent) {
                        Some(v) => v,
                        None => Vec::new(),
                    };
                    siblings.push(entity);
                    children.insert(parent, siblings);
                    proof {
                        assert forall|q: u64| #[trigger]
                            children@.contains_key(q) <==> children_upto(
                                m,
                                entities@,
                                (i + 1) as nat,
                                q,
                            ).len() > 0 by {
                            if q != parent {
                                assert(children_upto(m, entities@, (i + 1) as nat, q)
                                    == children_upto(m, entities@, i as nat, q));
                            }
                        }
                    }
                },
                None => {
                    roots.push(entity);
                },
            }
            i += 1;
        }
        (roots, children)
    }

    /// Puts `child` under `parent`, unless that would make an entity its own
    /// ancestor; answers whether the link was made.
    pub fn attach(&mut self, child: u64, parent: u64) -> (attached: bool)
        ensures
            attached == may_attach(old(self).parent_map(), child, parent),
            final(self).parent_map() == (if attached {
                old(self).parent_map().insert(child, parent)
            } else {
                old(self).parent_map()
            }),
            final(self).part_id_map() == old(self).part_id_map(),
            well_founded(final(self).parent_map()),
    {
        if child == parent || BodyHierarchy::is_descendant(parent, child, self) {
            proof {
                use_type_invariant(&*self);
                self.lemma_well_founded();
            }
            false
        } else {
            self.attach_unchecked(child, parent);
            proof {
                use_type_invariant(&*self);
                self.lemma_well_founded();
            }
            true
        }
    }

    /// Makes `child` a root; answers its former parent.
    pub fn detach(&mut self, child: u64) -> (old_parent: Option<u64>)
        ensures
            old_parent == parent_of(old(self).parent_map(), child),
            final(self).parent_map() == old(self).parent_map().remove(child),
            final(self).part_id_map() == old(self).part_id_map(),
            well_founded(final(self).parent_map()),
    {
        proof {
            use_type_invariant(&*self);
            lemma_detach_ranked(self.parents@, self.rank@, child);
        }
        let mut parents: HashMap<u64, u64> = HashMap::new();
        std::mem::swap(&mut parents, &mut self.parents);
        let removed = parents.remove(&child);
        self.parents = parents;
        proof {
            use_type_invariant(&*self);
            self.lemma_well_founded();
        }
        removed
    }
}

proof fn lemma_reach_after_attach(parents: Map<u64, u64>, child: u64, parent: u64, x: u64, k: nat)
    requires
        ancestor(parents.insert(child, parent), x, k) == Some(child),
    ensures
        exists|j: nat| j <= k && #[trigger] ancestor(parents, x, j) == Some(child),
    decreases k,
{
    let m1 = parents.insert(child, parent);
    if x == child {
        assert(ancestor(parents, x, 0) == Some(child));
    } else {
        assert(m1.contains_key(x));
        assert(m1[x] == parents[x]);
        assert(ancestor(m1, x, k) == ancestor(m1, parents[x], (k - 1) as nat));
        lemma_reach_after_attach(parents, child, parent, parents[x], (k - 1) as nat);
        let j = choose|j: nat| j <= k - 1 && #[trigger] ancestor(parents, parents[x], j) == Some(child);
        assert(ancestor(parents, x, j + 1) == ancestor(parents, parents[x], j));
    }
}

proof fn lemma_reach_after_detach(parents: Map<u64, u64>, child: u64, x: u64, y: u64, k: nat)
    requires
        ancestor(parents.remove(child), x, k) == Some(y),
    ensures
        ancestor(parents, x, k) == Some(y),
    decreases k,
{
    if k > 0 {
        let m1 = parents.remove(child);
        assert(m1.contains_key(x));
        lemma_reach_after_detach(parents, child, m1[x], y, (k - 1) as nat);
    }
}

/// Undoing a reparent gives back the hierarchy as it was, and redoing it
/// gives back the hierarchy as it became: when `child` is put under `parent`,
/// putting it back under its former parent (or making it a root again, if it
/// was one) is allowed and restores the former relation; putting it under
/// `parent` again restores the later one.
pub proof fn lemma_reparent_undo_redo(parents: Map<u64, u64>, child: u64, parent: u64)
    requires
        well_founded(parents),
        may_attach(parents, child, parent),
    ensures
        ({
            let after = parents.insert(child, parent);
            let before_parent = parent_of(parents, child);
            &&& (before_parent matches Some(p) ==> may_attach(after, child, p))
            &&& with_parent(after, child, before_parent) == parents
            &&& may_attach(with_parent(after, child, before_parent), child, parent)
            &&& with_parent(with_parent(after, child, before_parent), child, Some(parent)) == after
        }),
{
    let after = parents.insert(child, parent);
    if parents.contains_key(child) {
        let p = parents[child];
        lemma_no_self_descent(parents, child);
        if p == child {
            lemma_step_descends(parents, child, child);
        }
        if descends_from(after, p, child) {
            let k = choose|k: nat| k >= 1 && #[trigger] ancestor(after, p, k) == Some(child);
            lemma_reach_after_attach(parents, child, parent, p, k);
            let j = choose|j: nat| j <= k && #[trigger] ancestor(parents, p, j) == Some(child);
            assert(ancestor(parents, child, j + 1) == ancestor(parents, p, j));
            assert(descends_from(parents, child, child));
        }
        assert(after.insert(child, p) =~= parents);
    } else {
        assert(after.remove(child) =~= parents);
    }
}

/// Undoing a detach gives back the hierarchy as it was, and redoing it gives
/// back the detached one: when `child` is made a root, putting it back under
/// its former parent is allowed and restores the former relation.
pub proof fn lemma_detach_undo_redo(parents: Map<u64, u64>, child: u64)
    requires
        well_founded(parents),
        parents.contains_key(child),
    ensures
        ({
            let after = parents.remove(child);
            let p = parents[child];
            &&& may_attach(after, child, p)
            &&& with_parent(after, child, Some(p)) == parents
            &&& with_parent(with_parent(after, child, Some(p)), child, None) == after
        }),
{
    let after = parents.remove(child);
    let p = parents[child];
    lemma_no_self_descent(parents, child);
    if p == child {
        lemma_step_descends(parents, child, child);
    }
    if descends_from(after, p, child) {
        let k = choose|k: nat| k >= 1 && #[trigger] ancestor(after, p, k) == Some(child);
        lemma_reach_after_detach(parents, child, p, child, k);
        lemma_step_descends(parents, child, child);
    }
    assert(after.insert(child, p) =~= parents);
    assert(parents.remove(child) =~= after);
}

/// The parent links a reparent changes, and the body-part ids on both ends;
/// the transforms that go with them are kept by the caller.
#[derive(Clone, Copy, Debug, PartialEq, Eq)]
pub struct ParentChange {
    pub entity: u64,
    pub entity_id: u32,
    pub old_parent: Option<u64>,
    pub old_parent_id: Option<u32>,
    pub new_parent: Option<u64>,
    pub new_parent_id: Option<u32>,
}

/// The entity selected in the editor, and the hierarchy entry a part is
/// dropped onto.
#[derive(Clone, Copy, Debug, PartialEq, Eq)]
pub struct EntityReference {
    pub selected_entity: u64,
    pub entity: u64,
}

/// The entities among the first `n` of `entities` that have no parent, in order.
pub open spec fn roots_upto(parents: Map<u64, u64>, entities: Seq<u64>, n: nat) -> Seq<u64>
    decreases n,
{
    if n == 0 {
        Seq::empty()
    } else {
        let before = roots_upto(parents, entities, (n - 1) as nat);
        if parents.contains_key(entities[n - 1]) {
            before
        } else {
            before.push(entities[n - 1])
        }
    }
}

/// The entities among the first `n` of `entities` whose parent is `parent`,
/// in order.
pub open spec fn children_upto(parents: Map<u64, u64>, entities: Seq<u64>, n: nat, parent: u64) -> Seq<
    u64,
>
    decreases n,
{
    if n == 0 {
        Seq::empty()
    } else {
        let before = children_upto(parents, entities, (n - 1) as nat, parent);
        if parent_of(parents, entities[n - 1]) == Some(parent) {
            before.push(entities[n - 1])
        } else {
            before
        }
    }
}

/// Entity to part id after the first `n` pairs of `parts` are entered in
/// order.
pub open spec fn part_ids_upto(parts: Seq<(u64, u32)>, n: nat) -> Map<u64, u32>
    decreases n,
{
    if n == 0 {
        Map::empty()
    } else {
        part_ids_upto(parts, (n - 1) as nat).insert(parts[n - 1].0, parts[n - 1].1)
    }
}

/// The parent relation after the first `n` (child, parent) links are made in
/// order, each one skipped when it would close a cycle.
pub open spec fn links_upto(links: Seq<(u64, u64)>, n: nat) -> Map<u64, u64>
    decreases n,
{
    if n == 0 {
        Map::empty()
    } else {
        let before = links_upto(links, (n - 1) as nat);
        let (child, parent) = links[n - 1];
        if may_attach(before, child, parent) {
            before.insert(child, parent)
        } else {
            before
        }
    }
}

/// `n` is the smallest number from 1 up whose numbered name is not taken.
pub open spec fn first_free_number(base: Seq<char>, taken: Seq<Seq<char>>, n: nat) -> bool {
    &&& n >= 1
    &&& !taken.contains(numbered_name(base, n))
    &&& forall|j: nat| 1 <= j < n ==> taken.contains(#[trigger] numbered_name(base, j))
}

/// `name` is the name `base` gets among the names `taken`: `base` itself
/// when it is free, else `base` numbered with the smallest free number.
pub open spec fn fresh_name(base: Seq<char>, taken: Seq<Seq<char>>, name: Seq<char>) -> bool {
    &&& !taken.contains(name)
    &&& !taken.contains(base) ==> name == base
    &&& taken.contains(base) ==> exists|n: nat|
        first_free_number(base, taken, n) && name == numbered_name(base, n)
}

/// Body-part id to the entity that displays it.
pub struct BodyHierarchy {
    pub entities: HashMap<u32, u64>,
}

impl Default for BodyHierarchy {
    fn default() -> (hierarchy: Self)
        ensures
            hierarchy.entities@ == Map::<u32, u64>::empty(),
    {
        BodyHierarchy { entities: HashMap::new() }
    }
}

impl BodyHierarchy {
    /// A name not in `existing_names`: `base` itself when it is free, else
    /// `base` followed by a dot and the smallest free number from 1 up, written
    /// with at least three digits (`Fin.001`, `Fin.002`, ...).
    pub fn unique_name(base: &str, existing_names: &Vec<String>) -> (name: String)
        requires
            existing_names.len() < u32::MAX,
        ensures
            fresh_name(base@, name_seq(existing_names@), name@),
    {
        let base_name = base.to_owned();
        if !contains_name(existing_names, &base_name) {
            return base_name;
        }
        let ghost taken = name_seq(existing_names@);
        let mut i: u32 = 1;
        loop
            invariant
                taken == name_seq(existing_names@),
                taken.contains(base@),
                existing_names.len() < u32::MAX,
                1 <= i <= existing_names.len() + 1,
                forall|j: nat| 1 <= j < i ==> taken.contains(#[trigger] numbered_name(base@, j)),
            decreases existing_names.len() + 1 - i,
        {
            let name = format_numbered(base, i);
            if !contains_name(existing_names, &name) {
                assert(first_free_number(base@, taken, i as nat));
                return name;
            }
            proof {
                assert forall|j: nat| 1 <= j <= i implies taken.contains(
                    #[trigger] numbered_name(base@, j),
                ) by {}
                lemma_numbered_names_fit(base@, taken, i as nat);
                assert(taken.len() == existing_names.len());
            }
            i = i + 1;
        }
    }

    /// Whether walking up the parent links from `candidate` reaches `of`.
    pub fn is_descendant(candidate: u64, of: u64, children_of: &HierarchyReference) -> (r: bool)
        ensures
            r == descends_from(children_of.parent_map(), candidate, of),
    {
        proof {
            use_type_invariant(children_of);
        }
        let ghost m = children_of.parents@;
        let ghost rank = children_of.rank@;
        let mut current = candidate;
        loop
            invariant
                m == children_of.parents@,
                ranked_by(m, rank),
                descends_from(m, candidate, of) == descends_from(m, current, of),
            decreases rank(current),
        {
            match children_of.parents.get(&current) {
                Some(p) => {
                    let parent = *p;
                    proof {
                        if descends_from(m, current, of) {
                            lemma_descends_step(m, current, of);
                        }
                        if parent == of || descends_from(m, parent, of) {
                            lemma_step_descends(m, current, of);
                        }
                    }
                    if parent == of {
                        return true;
                    }
                    current = parent;
                },
                None => {
                    proof {
                        if descends_from(m, current, of) {
                            lemma_descends_step(m, current, of);
                        }
                    }
                    return false;
                },
            }
        }
    }

    /// Makes a body part a root of the hierarchy: when the dragged entity
    /// carries a body part and has a parent, the link is removed, the change
    /// is recorded in `history` with the part's transforms before and after,
    /// and answered; otherwise nothing changes.
    pub fn assign_to_root<M, T, P, S>(
        dragged_entity: u64,
        hierarchy_reference: &mut HierarchyReference,
        history: &mut EditHistory<Action<M, T, P, S>>,
        old_transform: T,
        new_transform: T,
    ) -> (change: Option<ParentChange>)
        ensures
            ({
                let m = old(hierarchy_reference).parent_map();
                let ids = old(hierarchy_reference).part_id_map();
                &&& final(hierarchy_reference).part_id_map() == ids
                &&& well_founded(final(hierarchy_reference).parent_map())
                &&& final(history).restoring == old(history).restoring
                &&& (change is Some <==> ids.contains_key(dragged_entity) && m.contains_key(
                    dragged_entity,
                ))
                &&& change is Some ==> {
                    &&& final(hierarchy_reference).parent_map() == m.remove(dragged_entity)
                    &&& change->0 == ParentChange {
                        entity: dragged_entity,
                        entity_id: ids[dragged_entity],
                        old_parent: Some(m[dragged_entity]),
                        old_parent_id: id_of(ids, Some(m[dragged_entity])),
                        new_parent: None,
                        new_parent_id: None,
                    }
                    &&& final(history).undo_stacks@ == capped_push(
                        old(history).undo_stacks@,
                        reparent_edit(change->0, old_transform, new_transform),
                    )
                    &&& final(history).undo_stacks@.len() > 0
                    &&& final(history).undo_stacks@.last() == Action::<
                        M,
                        T,
                        P,
                        S,
                    >::AssignParentEntity {
                        entity: dragged_entity,
                        entity_id: ids[dragged_entity],
                        old_parent: Some(m[dragged_entity]),
                        old_parent_id: id_of(ids, Some(m[dragged_entity])),
                        old_transform,
                        new_parent: None,
                        new_parent_id: None,
                        new_transform,
                    }
                    &&& final(history).redo_stacks@ == Seq::<Action<M, T, P, S>>::empty()
                }
                &&& change is None ==> {
                    &&& final(hierarchy_reference).parent_map() == m
                    &&& final(history).undo_stacks@ == old(history).undo_stacks@
                    &&& final(history).redo_stacks@ == old(history).redo_stacks@
                }
            }),
    {
        proof {
            use_type_invariant(&*hierarchy_reference);
            hierarchy_reference.lemma_well_founded();
        }
        let ghost undo0 = history.undo_stacks@;
        let dragged = dragged_entity;
        let entity_id = match hierarchy_reference.part_id(dragged) {
            Some(id) => id,
            None => return None,
        };
        match hierarchy_reference.parent(dragged) {
            Some(old_parent) => {
                let old_parent_id = hierarchy_reference.part_id(old_parent);
                hierarchy_reference.detach(dragged);
                let change = ParentChange {
                    entity: dragged,
                    entity_id,
                    old_parent: Some(old_parent),
                    old_parent_id,
                    new_parent: None,
                    new_parent_id: None,
                };
                EditHistoryManager::record(
                    history,
                    Action::AssignParentEntity {
                        entity: dragged,
                        entity_id,
                        old_parent: Some(old_parent),
                        old_parent_id,
                        old_transform,
                        new_parent: None,
                        new_parent_id: None,
                        new_transform,
                    },
                );
                proof {
                    lemma_record_then_undo(undo0, reparent_edit(change, old_transform, new_transform));
                }
                Some(change)
            },
            None => None,
        }
    }

    /// Puts the dragged body part under the entry it was dropped on, unless
    /// it was dropped on itself or on one of its own descendants, or either
    /// entity carries no body part; the change made is recorded in `history`
    /// with the part's transforms before and after, and answered.
    pub fn assign_to_parent<M, T, P, S>(
        dragged_entity: u64,
        entity_reference: &EntityReference,
        hierarchy_reference: &mut HierarchyReference,
        history: &mut EditHistory<Action<M, T, P, S>>,
        old_transform: T,
        new_transform: T,
    ) -> (change: Option<ParentChange>)
        ensures
            ({
                let m = old(hierarchy_reference).parent_map();
                let ids = old(hierarchy_reference).part_id_map();
                let target = entity_reference.entity;
                &&& final(hierarchy_reference).part_id_map() == ids
                &&& well_founded(final(hierarchy_reference).parent_map())
                &&& final(history).restoring == old(history).restoring
                &&& (change is Some <==> may_attach(m, dragged_entity, target) && ids.contains_key(
                    dragged_entity,
                ) && ids.contains_key(target))
                &&& change is Some ==> {
                    &&& final(hierarchy_reference).parent_map() == m.insert(dragged_entity, target)
                    &&& change->0 == ParentChange {
                        entity: dragged_entity,
                        entity_id: ids[dragged_entity],
                        old_parent: parent_of(m, dragged_entity),
                        old_parent_id: id_of(ids, parent_of(m, dragged_entity)),
                        new_parent: Some(target),
                        new_parent_id: Some(ids[target]),
                    }
                    &&& final(history).undo_stacks@ == capped_push(
                        old(history).undo_stacks@,
                        reparent_edit(change->0, old_transform, new_transform),
                    )
                    &&& final(history).undo_stacks@.len() > 0
                    &&& final(history).undo_stacks@.last() == Action::<
                        M,
                        T,
                        P,
                        S,
                    >::AssignParentEntity {
                        entity: dragged_entity,
                        entity_id: ids[dragged_entity],
                        old_parent: parent_of(m, dragged_entity),
                        old_parent_id: id_of(ids, parent_of(m, dragged_entity)),
                        old_transform,
                        new_parent: Some(target),
                        new_parent_id: Some(ids[target]),
                        new_transform,
                    }
                    &&& final(history).redo_stacks@ == Seq::<Action<M, T, P, S>>::empty()
                }
                &&& change is None ==> {
                    &&& final(hierarchy_reference).parent_map() == m
                    &&& final(history).undo_stacks@ == old(history).undo_stacks@
                    &&& final(history).redo_stacks@ == old(history).redo_stacks@
                }
            }),
    {
        proof {
            use_type_invariant(&*hierarchy_reference);
            hierarchy_reference.lemma_well_founded();
        }
        let entity = entity_reference.entity;
        let dragged = dragged_entity;
        let should_change_hierarchy = dragged != entity && !Self::is_descendant(
            entity,
            dragged,
            hierarchy_reference,
        );
        let entity_id = match hierarchy_reference.part_id(dragged) {
            Some(id) => id,
            None => return None,
        };
        let target_id = match hierarchy_reference.part_id(entity) {
            Some(id) => id,
            None => return None,
        };
        let ghost undo0 = history.undo_stacks@;
        if should_change_hierarchy {
            let old_parent = hierarchy_reference.parent(dragged);
            let old_parent_id = match old_parent {
                Some(p) => hierarchy_reference.part_id(p),
                None => None,
            };
            hierarchy_reference.attach_unchecked(dragged, entity);
            proof {
                use_type_invariant(&*hierarchy_reference);
                hierarchy_reference.lemma_well_founded();
            }
            EditHistoryManager::record(
                history,
                Action::AssignParentEntity {
                    entity: dragged,
                    entity_id,
                    old_parent,
                    old_parent_id,
                    old_transform,
                    new_parent: Some(entity),
                    new_parent_id: Some(target_id),
                    new_transform,
                },
            );
            proof {
                lemma_record_then_undo(
                    undo0,
                    reparent_edit(
                        ParentChange {
                            entity: dragged,
                            entity_id,
                            old_parent,
                            old_parent_id,
                            new_parent: Some(entity),
                            new_parent_id: Some(target_id),
                        },
                        old_transform,
                        new_transform,
                    ),
                );
            }
            Some(
                ParentChange {
                    entity: dragged,
                    entity_id,
                    old_parent,
                    old_parent_id,
                    new_parent: Some(entity),
                    new_parent_id: Some(target_id),
                },
            )
        } else {
            None
        }
    }
}

} // verus!
