use std::collections::HashMap;
use vstd::prelude::*;

use crate::history::edit_history::{
    after_redo, Action, EditHistory, EditHistoryManager, HistoryKeys,
};
use crate::model::body_hierarchy::BodyHierarchy;
use crate::model::body_part::BodyPart;

verus! {

broadcast use vstd::std_specs::hash::group_hash_axioms;

/// A deleted body part and the parts under it, kept so the deletion can be
/// undone. `data` is what the caller needs to bring the part back (its
/// material, transform and shape); `parent` is the entity it hung under when
/// it was deleted and `parent_id` the id of the part that entity carried;
/// `restored_entity` is the entity it was last brought back as.
#[derive(Debug)]
pub struct BodyPartSnapshot<D> {
    pub part: BodyPart,
    pub data: D,
    pub parent: Option<u64>,
    pub parent_id: Option<u32>,
    pub children: Vec<BodyPartSnapshot<D>>,
    pub restored_entity: Option<u64>,
}

/// The part ids of a subtree in the order it is brought back: each part
/// before the parts under it, children in order.
pub open spec fn preorder_ids<D>(s: BodyPartSnapshot<D>) -> Seq<u32>
    decreases s,
{
    seq![s.part.id] + preorder_forest_ids(s.children@)
}

/// The part ids of a list of subtrees, one subtree after the other.
pub open spec fn preorder_forest_ids<D>(ss: Seq<BodyPartSnapshot<D>>) -> Seq<u32>
    decreases ss,
{
    if ss.len() == 0 {
        Seq::empty()
    } else {
        preorder_forest_ids(ss.drop_last()) + preorder_ids(ss.last())
    }
}

/// The (parent entity, child entity) links made when the subtree `s` is
/// brought back under `parent`, its parts taking the entities from
/// `entities[start]` on in the order of `preorder_ids`.
pub open spec fn restore_links<D>(
    s: BodyPartSnapshot<D>,
    parent: Option<u64>,
    entities: Seq<u64>,
    start: int,
) -> Seq<(u64, u64)>
    decreases s,
{
    let e = entities[start];
    let own = match parent {
        Some(p) => seq![(p, e)],
        None => Seq::empty(),
    };
    own + forest_restore_links(s.children@, e, entities, start + 1)
}

/// The links made bringing back a list of subtrees under `parent`.
pub open spec fn forest_restore_links<D>(
    ss: Seq<BodyPartSnapshot<D>>,
    parent: u64,
    entities: Seq<u64>,
    start: int,
) -> Seq<(u64, u64)>
    decreases ss,
{
    if ss.len() == 0 {
        Seq::empty()
    } else {
        let before = ss.drop_last();
        forest_restore_links(before, parent, entities, start) + restore_links(
            ss.last(),
            Some(parent),
            entities,
            start + preorder_forest_ids(before).len(),
        )
    }
}

/// The subtree `new` is `old` brought back: same parts, data and former
/// parents, each part marked with the entity it took from `entities[start]`
/// on in the order of `preorder_ids`.
pub open spec fn restored_as<D>(
    new: BodyPartSnapshot<D>,
    old: BodyPartSnapshot<D>,
    entities: Seq<u64>,
    start: int,
) -> bool
    decreases old,
{
    &&& new.part == old.part
    &&& new.data == old.data
    &&& new.parent == old.parent
    &&& new.parent_id == old.parent_id
    &&& new.restored_entity == Some(entities[start])
    &&& forest_restored_as(new.children@, old.children@, entities, start + 1)
}

/// Each subtree of `news` is the matching one of `olds` brought back.
pub open spec fn forest_restored_as<D>(
    news: Seq<BodyPartSnapshot<D>>,
    olds: Seq<BodyPartSnapshot<D>>,
    entities: Seq<u64>,
    start: int,
) -> bool
    decreases olds,
{
    &&& news.len() == olds.len()
    &&& olds.len() > 0 ==> {
        &&& forest_restored_as(news.drop_last(), olds.drop_last(), entities, start)
        &&& restored_as(
            news.last(),
            olds.last(),
            entities,
            start + preorder_forest_ids(olds.drop_last()).len(),
        )
    }
}

/// The entity a restored subtree is put under: the one the table gives for
/// the part it hung under, if it had one and that part is in the table.
pub open spec fn restored_parent<D>(table: Map<u32, u64>, s: BodyPartSnapshot<D>) -> Option<u64> {
    match s.parent_id {
        Some(pid) => if table.contains_key(pid) {
            Some(table[pid])
        } else {
            None
        },
        None => None,
    }
}

/// Whether an edit is the deletion of a part.
pub open spec fn is_deletion<M, T, P, D>(a: Action<M, T, P, BodyPartSnapshot<D>>) -> bool {
    a is DeletePart
}

/// The id table after the parts `ids` take the entities from
/// `entities[start]` on, in order (a later entry for an id replaces an
/// earlier one).
pub open spec fn with_entries(table: Map<u32, u64>, ids: Seq<u32>, entities: Seq<u64>, start: int) -> Map<
    u32,
    u64,
>
    decreases ids.len(),
{
    if ids.len() == 0 {
        table
    } else {
        with_entries(table, ids.drop_last(), entities, start).insert(
            ids.last(),
            entities[start + ids.len() - 1],
        )
    }
}

/// Undoing a deletion enters every part of the subtree in the id table, each
/// under the entity handed out last for its id.
pub proof fn lemma_restore_covers_subtree(
    table: Map<u32, u64>,
    ids: Seq<u32>,
    entities: Seq<u64>,
    start: int,
)
    ensures
        forall|k: int|
            0 <= k < ids.len() ==> #[trigger] with_entries(table, ids, entities, start).contains_key(
                ids[k],
            ),
        forall|id: u32|
            !ids.contains(id) ==> #[trigger] with_entries(table, ids, entities, start).contains_key(
                id,
            ) == table.contains_key(id) && (table.contains_key(id) ==> with_entries(
                table,
                ids,
                entities,
                start,
            )[id] == table[id]),
    decreases ids.len(),
{
    if ids.len() > 0 {
        lemma_restore_covers_subtree(table, ids.drop_last(), entities, start);
        assert forall|k: int| 0 <= k < ids.len() implies #[trigger] with_entries(
            table,
            ids,
            entities,
            start,
        ).contains_key(ids[k]) by {
            let prev = with_entries(table, ids.drop_last(), entities, start);
            assert(with_entries(table, ids, entities, start) == prev.insert(
                ids.last(),
                entities[start + ids.len() - 1],
            ));
            if k < ids.len() - 1 {
                assert(ids.drop_last()[k] == ids[k]);
                assert(prev.contains_key(ids.drop_last()[k]));
            }
        }
        assert forall|id: u32| !ids.contains(id) implies #[trigger] with_entries(
            table,
            ids,
            entities,
            start,
        ).contains_key(id) == table.contains_key(id) && (table.contains_key(id) ==> with_entries(
            table,
            ids,
            entities,
            start,
        )[id] == table[id]) by {
            let prev = with_entries(table, ids.drop_last(), entities, start);
            assert(with_entries(table, ids, entities, start) == prev.insert(
                ids.last(),
                entities[start + ids.len() - 1],
            ));
            assert(id != ids.last());
            if ids.drop_last().contains(id) {
                let k = choose|k: int| 0 <= k < ids.drop_last().len() && ids.drop_last()[k] == id;
                assert(ids[k] == id);
            }
            assert(prev.contains_key(id) == table.contains_key(id));
        }
    }
}

/// Undoing a deletion maps every part of the subtree to the entity it was
/// brought back as: when the part ids are distinct, the `k`th id (in the
/// order of `preorder_ids`) maps to the `k`th entity handed out, and ids
/// outside the subtree keep their entries.
pub proof fn lemma_restore_maps_each_part(
    table: Map<u32, u64>,
    ids: Seq<u32>,
    entities: Seq<u64>,
    start: int,
)
    requires
        ids.no_duplicates(),
    ensures
        forall|k: int|
            0 <= k < ids.len() ==> #[trigger] with_entries(table, ids, entities, start).contains_key(
                ids[k],
            ) && with_entries(table, ids, entities, start)[ids[k]] == entities[start + k],
        forall|id: u32|
            !ids.contains(id) ==> #[trigger] with_entries(table, ids, entities, start).contains_key(
                id,
            ) == table.contains_key(id) && (table.contains_key(id) ==> with_entries(
                table,
                ids,
                entities,
                start,
            )[id] == table[id]),
    decreases ids.len(),
{
    lemma_restore_covers_subtree(table, ids, entities, start);
    if ids.len() > 0 {
        let prev_ids = ids.drop_last();
        assert(prev_ids.no_duplicates());
        lemma_restore_maps_each_part(table, prev_ids, entities, start);
        let prev = with_entries(table, prev_ids, entities, start);
        assert(with_entries(table, ids, entities, start) == prev.insert(
            ids.last(),
            entities[start + ids.len() - 1],
        ));
        assert forall|k: int| 0 <= k < ids.len() implies #[trigger] with_entries(
            table,
            ids,
            entities,
            start,
        ).contains_key(ids[k]) && with_entries(table, ids, entities, start)[ids[k]] == entities[
            start + k] by {
            if k < ids.len() - 1 {
                assert(prev_ids[k] == ids[k]);
                assert(ids[k] != ids[ids.len() - 1]);
                assert(with_entries(table, prev_ids, entities, start).contains_key(prev_ids[k]));
            }
        }
    }
}

proof fn lemma_with_entries_append(
    table: Map<u32, u64>,
    a: Seq<u32>,
    b: Seq<u32>,
    entities: Seq<u64>,
    start: int,
)
    ensures
        with_entries(table, a + b, entities, start) == with_entries(
            with_entries(table, a, entities, start),
            b,
            entities,
            start + a.len(),
        ),
    decreases b.len(),
{
    if b.len() == 0 {
        assert(a + b =~= a);
    } else {
        assert((a + b).drop_last() =~= a + b.drop_last());
        lemma_with_entries_append(table, a, b.drop_last(), entities, start);
    }
}

proof fn lemma_forest_step<D>(ss: Seq<BodyPartSnapshot<D>>, i: int)
    requires
        0 <= i < ss.len(),
    ensures
        ss.take(i + 1).drop_last() == ss.take(i),
        ss.take(i + 1).last() == ss[i],
{
    assert(ss.take(i + 1).drop_last() =~= ss.take(i));
}

impl<D> BodyPartSnapshot<D> {
    /// The number of parts in the subtree.
    pub fn node_count(&self) -> (count: usize)
        requires
            preorder_ids(*self).len() <= usize::MAX,
        ensures
            count == preorder_ids(*self).len(),
        decreases *self,
    {
        let ghost kids = self.children@;
        let mut count: usize = 1;
        let mut i: usize = 0;
        while i < self.children.len()
            invariant
                kids == self.children@,
                i <= kids.len(),
                preorder_ids(*self) == seq![self.part.id] + preorder_forest_ids(kids),
                preorder_ids(*self).len() <= usize::MAX,
                count == 1 + preorder_forest_ids(kids.take(i as int)).len(),
            decreases kids.len() - i,
        {
            proof {
                lemma_forest_step(kids, i as int);
                lemma_forest_prefix_len(kids, (i + 1) as int);
            }
            let c = self.children[i].node_count();
            count = count + c;
            i += 1;
        }
        proof {
            assert(kids.take(kids.len() as int) =~= kids);
        }
        count
    }
}

proof fn lemma_forest_prefix_len<D>(ss: Seq<BodyPartSnapshot<D>>, n: int)
    requires
        0 <= n <= ss.len(),
    ensures
        preorder_forest_ids(ss.take(n)).len() <= preorder_forest_ids(ss).len(),
    decreases ss.len(),
{
    if n < ss.len() {
        assert(ss.drop_last().take(n) =~= ss.take(n));
        lemma_forest_prefix_len(ss.drop_last(), n);
    } else {
        assert(ss.take(n) =~= ss);
    }
}

fn restore_into<D>(
    node: &mut BodyPartSnapshot<D>,
    parent: Option<u64>,
    entities: &Vec<u64>,
    next: &mut usize,
    table: &mut HashMap<u32, u64>,
    links: &mut Vec<(u64, u64)>,
)
    requires
        *old(next) + preorder_ids(*old(node)).len() <= entities.len(),
    ensures
        *final(next) == *old(next) + preorder_ids(*old(node)).len(),
        restored_as(*final(node), *old(node), entities@, *old(next) as int),
        final(table)@ == with_entries(
            old(table)@,
            preorder_ids(*old(node)),
            entities@,
            *old(next) as int,
        ),
        final(links)@ == old(links)@ + restore_links(
            *old(node),
            parent,
            entities@,
            *old(next) as int,
        ),
    decreases *old(node),
{
    let ghost start = *next as int;
    let ghost old_node = *node;
    let ghost kids = node.children@;
    let ghost table0 = table@;
    let ghost links0 = links@;
    let e = entities[*next];
    *next = *next + 1;
    node.restored_entity = Some(e);
    table.insert(node.part.id, e);
    if let Some(p) = parent {
        links.push((p, e));
    }
    let ghost own: Seq<(u64, u64)> = match parent {
        Some(p) => seq![(p, e)],
        None => Seq::empty(),
    };
    proof {
        assert(links@ == links0 + own);
        assert(e == entities@[start]);
        assert(with_entries(table0, seq![old_node.part.id], entities@, start) == table0.insert(
            old_node.part.id,
            e,
        )) by {
            assert(seq![old_node.part.id].drop_last() =~= Seq::<u32>::empty());
            assert(with_entries(table0, Seq::<u32>::empty(), entities@, start) == table0);
        }
        assert(kids.take(0) =~= Seq::<BodyPartSnapshot<D>>::empty());
        assert(node.children@.take(0) =~= Seq::<BodyPartSnapshot<D>>::empty());
        assert(seq![old_node.part.id] + preorder_forest_ids(kids.take(0)) =~= seq![
            old_node.part.id,
        ]);
        assert(own + forest_restore_links(kids.take(0), e, entities@, start + 1) =~= own);
    }
    let n = node.children.len();
    let mut i: usize = 0;
    while i < n
        invariant
            n == kids.len(),
            node.children@.len() == n,
            node.part == old_node.part,
            node.data == old_node.data,
            node.parent == old_node.parent,
            node.parent_id == old_node.parent_id,
            node.restored_entity == Some(e),
            e == entities@[start],
            kids == old_node.children@,
            old_node == *old(node),
            i <= n,
            start + preorder_ids(old_node).len() <= entities@.len(),
            preorder_ids(old_node) == seq![old_node.part.id] + preorder_forest_ids(kids),
            forall|j: int| i <= j < n ==> node.children@[j] == kids[j],
            forest_restored_as(
                node.children@.take(i as int),
                kids.take(i as int),
                entities@,
                start + 1,
            ),
            *next == start + 1 + preorder_forest_ids(kids.take(i as int)).len(),
            table@ == with_entries(
                table0,
                seq![old_node.part.id] + preorder_forest_ids(kids.take(i as int)),
                entities@,
                start,
            ),
            links@ == links0 + own + forest_restore_links(
                kids.take(i as int),
                e,
                entities@,
                start + 1,
            ),
        decreases n - i,
    {
        let ghost before_children = node.children@;
        let ghost table_i = table@;
        let ghost links_i = links@;
        let ghost next_i = *next as int;
        proof {
            lemma_forest_step(kids, i as int);
            lemma_forest_prefix_len(kids, (i + 1) as int);
            assert(preorder_forest_ids(kids.take(i + 1)) == preorder_forest_ids(kids.take(i as int))
                + preorder_ids(kids[i as int]));
            assert(decreases_to!(old_node => kids[i as int]));
        }
        restore_into(&mut node.children[i], Some(e), entities, next, table, links);
        proof {
            let ids_i = seq![old_node.part.id] + preorder_forest_ids(kids.take(i as int));
            lemma_with_entries_append(table0, ids_i, preorder_ids(kids[i as int]), entities@, start);
            assert(ids_i + preorder_ids(kids[i as int]) =~= seq![old_node.part.id]
                + preorder_forest_ids(kids.take(i + 1)));
            assert(forest_restore_links(kids.take(i + 1), e, entities@, start + 1)
                == forest_restore_links(kids.take(i as int), e, entities@, start + 1)
                + restore_links(kids[i as int], Some(e), entities@, next_i));
            assert(links@ =~= links0 + own + forest_restore_links(
                kids.take(i + 1),
                e,
                entities@,
                start + 1,
            ));
            assert(node.children@.take(i + 1).drop_last() =~= before_children.take(i as int));
            assert(node.children@.take(i + 1).last() == node.children@[i as int]);
            assert(forest_restored_as(
                node.children@.take(i + 1),
                kids.take(i + 1),
                entities@,
                start + 1,
            ));
        }
        i += 1;
    }
    proof {
        assert(kids.take(n as int) =~= kids);
        assert(node.children@.take(n as int) =~= node.children@);
        assert(links@ =~= links0 + restore_links(old_node, parent, entities@, start));
    }
}

impl BodyHierarchy {
    /// Brings back a deleted subtree under `parent` with freshly made
    /// entities, handed out in the order of `preorder_ids`: each part is
    /// marked with its entity and entered in the id table; answers the
    /// (parent entity, child entity) links to make.
    pub fn restore_snapshot<D>(
        &mut self,
        snapshot: &mut BodyPartSnapshot<D>,
        parent: Option<u64>,
        entities: &Vec<u64>,
    ) -> (links: Vec<(u64, u64)>)
        requires
            entities.len() == preorder_ids(*old(snapshot)).len(),
        ensures
            restored_as(*final(snapshot), *old(snapshot), entities@, 0),
            final(self).entities@ == with_entries(
                old(self).entities@,
                preorder_ids(*old(snapshot)),
                entities@,
                0,
            ),
            links@ == restore_links(*old(snapshot), parent, entities@, 0),
    {
        let mut next: usize = 0;
        let mut links: Vec<(u64, u64)> = Vec::new();
        restore_into(snapshot, parent, entities, &mut next, &mut self.entities, &mut links);
        proof {
            assert(links@ =~= restore_links(*old(snapshot), parent, entities@, 0));
        }
        links
    }

    /// The entity a restored subtree hangs under: the entity that now
    /// carries the part it hung under when it was deleted, if it had one and
    /// that part is in the table.
    pub fn resolve_parent<D>(&self, snapshot: &BodyPartSnapshot<D>) -> (parent: Option<u64>)
        ensures
            parent == restored_parent(self.entities@, *snapshot),
    {
        match snapshot.parent_id {
            Some(parent_id) => match self.entities.get(&parent_id) {
                Some(e) => Some(*e),
                None => None,
            },
            None => None,
        }
    }

    /// Enters a newly added part in the table under the entity that shows it.
    pub fn register_part(&mut self, id: u32, entity: u64)
        ensures
            final(self).entities@ == old(self).entities@.insert(id, entity),
    {
        self.entities.insert(id, entity);
    }

    /// Deletes a brought-back subtree again: when its top part was restored,
    /// that part's id leaves the table and its entity is answered, to be
    /// despawned with everything under it.
    pub fn redo_delete<D>(&mut self, snapshot: &BodyPartSnapshot<D>) -> (despawn: Option<u64>)
        ensures
            despawn == snapshot.restored_entity,
            snapshot.restored_entity is Some ==> final(self).entities@ == old(
                self,
            ).entities@.remove(snapshot.part.id),
            snapshot.restored_entity is None ==> final(self).entities@ == old(self).entities@,
    {
        match snapshot.restored_entity {
            Some(entity) => {
                self.entities.remove(&snapshot.part.id);
                Some(entity)
            },
            None => None,
        }
    }
}

impl EditHistoryManager {
    /// On the undo keys, when the most recent edit is a deletion, brings the
    /// deleted subtree back: it hangs under the entity now carrying its former
    /// parent part, its parts take `entities` in the order of `preorder_ids`
    /// and enter the id table, and the edit, marked with those entities, moves
    /// to the redo stack. Answers the (parent entity, child entity) links to
    /// make; `None`, with nothing changed, when the keys are not pressed or
    /// the most recent edit is not a deletion.
    pub fn undo_delete_part<M, T, P, D>(
        history: &mut EditHistory<Action<M, T, P, BodyPartSnapshot<D>>>,
        keys: &HistoryKeys,
        hierarchy: &mut BodyHierarchy,
        entities: &Vec<u64>,
    ) -> (links: Option<Vec<(u64, u64)>>)
        requires
            keys.is_undo() && old(history).undo_stacks@.len() > 0 && is_deletion(
                old(history).undo_stacks@.last(),
            ) ==> entities.len() == preorder_ids(old(history).undo_stacks@.last()->snapshot).len(),
        ensures
            ({
                let undo = old(history).undo_stacks@;
                let redo = old(history).redo_stacks@;
                let fires = keys.is_undo() && undo.len() > 0 && is_deletion(undo.last());
                let s = undo.last()->snapshot;
                &&& final(history).restoring == old(history).restoring
                &&& links is Some <==> fires
                &&& fires ==> {
                    &&& final(history).undo_stacks@ == undo.drop_last()
                    &&& final(history).redo_stacks@.len() == redo.len() + 1
                    &&& final(history).redo_stacks@.drop_last() == redo
                    &&& is_deletion(final(history).redo_stacks@.last())
                    &&& restored_as(
                        final(history).redo_stacks@.last()->snapshot,
                        s,
                        entities@,
                        0,
                    )
                    &&& final(hierarchy).entities@ == with_entries(
                        old(hierarchy).entities@,
                        preorder_ids(s),
                        entities@,
                        0,
                    )
                    &&& preorder_ids(s).no_duplicates() ==> forall|k: int|
                        0 <= k < entities@.len() ==> #[trigger] final(hierarchy).entities@[preorder_ids(
                            s,
                        )[k]] == entities@[k]
                    &&& links->0@ == restore_links(
                        s,
                        restored_parent(old(hierarchy).entities@, s),
                        entities@,
                        0,
                    )
                }
                &&& !fires ==> {
                    &&& final(history).undo_stacks@ == undo
                    &&& final(history).redo_stacks@ == redo
                    &&& final(hierarchy).entities@ == old(hierarchy).entities@
                }
            }),
    {
        if !keys.is_undo() || history.undo_stacks.len() == 0 {
            return None;
        }
        let last = history.undo_stacks.len() - 1;
        let deleting = match &history.undo_stacks[last] {
            Action::DeletePart { .. } => true,
            _ => false,
        };
        if !deleting {
            return None;
        }
        let ghost redo0 = history.redo_stacks@;
        match history.undo_stacks.pop() {
            Some(Action::DeletePart { mut snapshot }) => {
                let ghost table0 = hierarchy.entities@;
                let ghost ids = preorder_ids(snapshot);
                let parent = hierarchy.resolve_parent(&snapshot);
                let links = hierarchy.restore_snapshot(&mut snapshot, parent, entities);
                proof {
                    if ids.no_duplicates() {
                        lemma_restore_maps_each_part(table0, ids, entities@, 0);
                        assert forall|k: int| 0 <= k < entities@.len() implies #[trigger] hierarchy.entities@[ids[k]]
                            == entities@[k] by {
                            assert(with_entries(table0, ids, entities@, 0).contains_key(ids[k]));
                        }
                    }
                }
                history.redo_stacks.push(Action::DeletePart { snapshot });
                proof {
                    assert(history.redo_stacks@.drop_last() =~= redo0);
                }
                Some(links)
            },
            _ => None,
        }
    }

    /// On the redo keys, when the most recently undone edit is a deletion,
    /// deletes the brought-back subtree again: its top part leaves the id
    /// table, its entity is answered for despawning, and the edit goes back on
    /// the undo stack. A deletion that was never brought back is dropped.
    /// `None`, with nothing changed, when the keys are not pressed or the
    /// most recently undone edit is not a deletion.
    pub fn redo_delete_part<M, T, P, D>(
        history: &mut EditHistory<Action<M, T, P, BodyPartSnapshot<D>>>,
        keys: &HistoryKeys,
        hierarchy: &mut BodyHierarchy,
    ) -> (despawn: Option<u64>)
        ensures
            ({
                let undo = old(history).undo_stacks@;
                let redo = old(history).redo_stacks@;
                let fires = keys.is_redo() && redo.len() > 0 && is_deletion(redo.last());
                let s = redo.last()->snapshot;
                &&& final(history).restoring == old(history).restoring
                &&& fires ==> {
                    &&& despawn == s.restored_entity
                    &&& (final(history).undo_stacks@, final(history).redo_stacks@) == after_redo(
                        undo,
                        redo,
                        s.restored_entity is Some,
                    )
                    &&& s.restored_entity is Some ==> final(hierarchy).entities@ == old(
                        hierarchy,
                    ).entities@.remove(s.part.id)
                    &&& s.restored_entity is None ==> final(hierarchy).entities@ == old(
                        hierarchy,
                    ).entities@
                }
                &&& !fires ==> {
                    &&& despawn is None
                    &&& final(history).undo_stacks@ == undo
                    &&& final(history).redo_stacks@ == redo
                    &&& final(hierarchy).entities@ == old(hierarchy).entities@
                }
            }),
    {
        if !keys.is_redo() || history.redo_stacks.len() == 0 {
            return None;
        }
        let last = history.redo_stacks.len() - 1;
        let deleting = match &history.redo_stacks[last] {
            Action::DeletePart { .. } => true,
            _ => false,
        };
        if !deleting {
            return None;
        }
        match history.redo_stacks.pop() {
            Some(Action::DeletePart { snapshot }) => {
                let despawn = hierarchy.redo_delete(&snapshot);
                if despawn.is_some() {
                    history.undo_stacks.push(Action::DeletePart { snapshot });
                }
                despawn
            },
            _ => None,
        }
    }
}

/// Redoing an undone deletion puts the deletion, marked with the entities it
/// was brought back as, back on top of the undo stack and leaves the redo
/// stack as it was before the undo: the undo stack differs from the one
/// before the undo only in those marks.
pub proof fn lemma_delete_undo_redo<M, T, P, D>(
    undo: Seq<Action<M, T, P, BodyPartSnapshot<D>>>,
    redo: Seq<Action<M, T, P, BodyPartSnapshot<D>>>,
    marked: BodyPartSnapshot<D>,
    entities: Seq<u64>,
)
    requires
        undo.len() > 0,
        is_deletion(undo.last()),
        restored_as(marked, undo.last()->snapshot, entities, 0),
    ensures
        ({
            let redone: Action<M, T, P, BodyPartSnapshot<D>> = Action::DeletePart {
                snapshot: marked,
            };
            let redo1 = redo.push(redone);
            &&& redo1.len() > 0
            &&& is_deletion(redo1.last())
            &&& redo1.last()->snapshot.restored_entity is Some
            &&& after_redo(undo.drop_last(), redo1, true) == (undo.drop_last().push(redone), redo)
            &&& marked.part == undo.last()->snapshot.part
            &&& marked.data == undo.last()->snapshot.data
        }),
{
    let redone: Action<M, T, P, BodyPartSnapshot<D>> = Action::DeletePart { snapshot: marked };
    assert(redo.push(redone).drop_last() =~= redo);
}

} // verus!
