use vstd::prelude::*;

use crate::model::body_hierarchy::{
    id_of, lemma_detach_undo_redo, lemma_reparent_undo_redo, may_attach, parent_of, well_founded,
    with_parent, BodyHierarchy, HierarchyReference, ParentChange,
};

verus! {

broadcast use vstd::std_specs::hash::group_hash_axioms;

/// The most edits the undo history keeps; recording one more drops the oldest.
pub const MAX_HISTORY_COUNT: usize = 100;

/// One undoable edit. The payloads (material, transform, part shape, deleted
/// subtree) are kept as the caller's own values; entities are identified by
/// their 64-bit form and body parts by their ids.
#[derive(Clone, Debug, PartialEq)]
#[allow(inconsistent_fields)]
pub enum Action<M, T, P, S> {
    MaterialEdit { entity: u64, old: M, new: M },
    TransformEdit { entity: u64, old: T, new: T },
    ResizePartType { entity: u64, old: P, new: P },
    DeletePart { snapshot: S },
    AssignParentEntity {
        entity: u64,
        entity_id: u32,
        old_parent: Option<u64>,
        old_parent_id: Option<u32>,
        old_transform: T,
        new_parent: Option<u64>,
        new_parent_id: Option<u32>,
        new_transform: T,
    },
}

/// What the scene is to write to revert or reapply an edit: the recorded
/// value of one side of it, on the entity it was made on; for a reparent,
/// the part, the parent part it is to hang under and its transform there;
/// a deletion is handled on its own.
#[derive(Debug)]
pub enum EditWrite<'a, M, T, P> {
    Material { entity: u64, value: &'a M },
    Transform { entity: u64, value: &'a T },
    Shape { entity: u64, value: &'a P },
    Parent { entity_id: u32, parent_id: Option<u32>, transform: &'a T },
    Deletion,
}

/// The undo and redo stacks (most recent last), and whether an undo or redo
/// is being applied, during which edits are not recorded.
#[derive(Clone, Debug, PartialEq)]
pub struct EditHistory<A> {
    pub undo_stacks: Vec<A>,
    pub redo_stacks: Vec<A>,
    pub restoring: bool,
}

/// A material seen on an entity this frame, with the one recorded before it.
#[derive(Clone, Debug, PartialEq)]
pub struct MaterialChange<M> {
    pub entity: u64,
    pub previous: M,
    pub current: M,
    /// Whether `current` differs from `previous`.
    pub is_changed: bool,
}

/// The keys that undo and redo read.
#[derive(Clone, Copy, Debug, PartialEq, Eq)]
pub struct HistoryKeys {
    pub control_left: bool,
    pub control_right: bool,
    pub super_left: bool,
    pub super_right: bool,
    pub shift_left: bool,
    pub shift_right: bool,
    /// `Z` went down this frame.
    pub z_just_pressed: bool,
}

impl HistoryKeys {
    pub open spec fn command_held(&self) -> bool {
        self.control_left || self.control_right || self.super_left || self.super_right
    }

    pub open spec fn shift_held(&self) -> bool {
        self.shift_left || self.shift_right
    }

    /// Ctrl or Cmd, with `Z` and without Shift.
    pub open spec fn spec_is_undo(&self) -> bool {
        self.command_held() && !self.shift_held() && self.z_just_pressed
    }

    /// Ctrl or Cmd, with Shift and `Z`.
    pub open spec fn spec_is_redo(&self) -> bool {
        self.command_held() && self.shift_held() && self.z_just_pressed
    }

    #[verifier::when_used_as_spec(spec_is_undo)]
    pub fn is_undo(&self) -> (r: bool)
        ensures
            r == self.spec_is_undo(),
            r == ((self.control_left || self.control_right || self.super_left || self.super_right)
                && !self.shift_left && !self.shift_right && self.z_just_pressed),
    {
        (self.control_left || self.control_right || self.super_left || self.super_right)
            && !(self.shift_left || self.shift_right) && self.z_just_pressed
    }

    #[verifier::when_used_as_spec(spec_is_redo)]
    pub fn is_redo(&self) -> (r: bool)
        ensures
            r == self.spec_is_redo(),
            r == ((self.control_left || self.control_right || self.super_left || self.super_right)
                && (self.shift_left || self.shift_right) && self.z_just_pressed),
    {
        (self.control_left || self.control_right || self.super_left || self.super_right) && (
        self.shift_left || self.shift_right) && self.z_just_pressed
    }
}

/// The undo stack after `action` is recorded: pushed, and the oldest entry
/// dropped when that goes over the limit.
pub open spec fn capped_push<A>(stack: Seq<A>, action: A) -> Seq<A> {
    let pushed = stack.push(action);
    if pushed.len() > MAX_HISTORY_COUNT {
        pushed.drop_first()
    } else {
        pushed
    }
}

/// The edit recorded for a changed material.
pub open spec fn material_edit<M, T, P, S>(change: MaterialChange<M>) -> Action<M, T, P, S> {
    Action::MaterialEdit { entity: change.entity, old: change.previous, new: change.current }
}

/// The undo stack after the changed materials among `changes` are recorded,
/// in order.
pub open spec fn record_materials<M, T, P, S>(
    undo: Seq<Action<M, T, P, S>>,
    changes: Seq<MaterialChange<M>>,
) -> Seq<Action<M, T, P, S>>
    decreases changes.len(),
{
    if changes.len() == 0 {
        undo
    } else {
        let before = record_materials(undo, changes.drop_last());
        if changes.last().is_changed {
            capped_push(before, material_edit(changes.last()))
        } else {
            before
        }
    }
}

/// The entities among `changes` whose material changed, in order.
pub open spec fn changed_entities<M>(changes: Seq<MaterialChange<M>>) -> Seq<u64>
    decreases changes.len(),
{
    if changes.len() == 0 {
        Seq::empty()
    } else {
        let before = changed_entities(changes.drop_last());
        if changes.last().is_changed {
            before.push(changes.last().entity)
        } else {
            before
        }
    }
}

/// The edit recorded for a reparent, with the transforms before and after.
pub open spec fn reparent_edit<M, T, P, S>(
    change: ParentChange,
    old_transform: T,
    new_transform: T,
) -> Action<M, T, P, S> {
    Action::AssignParentEntity {
        entity: change.entity,
        entity_id: change.entity_id,
        old_parent: change.old_parent,
        old_parent_id: change.old_parent_id,
        old_transform,
        new_parent: change.new_parent,
        new_parent_id: change.new_parent_id,
        new_transform,
    }
}

/// The (undo, redo) stacks after an undo: the most recent edit leaves the
/// undo stack and, when it was reverted, goes on top of the redo stack.
pub open spec fn after_undo<A>(undo: Seq<A>, redo: Seq<A>, applied: bool) -> (Seq<A>, Seq<A>) {
    (undo.drop_last(), if applied {
        redo.push(undo.last())
    } else {
        redo
    })
}

/// The (undo, redo) stacks after a redo: the most recently undone edit
/// leaves the redo stack and, when it was applied again, goes back on top of
/// the undo stack.
pub open spec fn after_redo<A>(undo: Seq<A>, redo: Seq<A>, applied: bool) -> (Seq<A>, Seq<A>) {
    (if applied {
        undo.push(redo.last())
    } else {
        undo
    }, redo.drop_last())
}

/// What applying a recorded parent change asks of the scene.
#[derive(Clone, Copy, Debug, PartialEq, Eq)]
pub enum ParentRestore {
    /// The entity of the part is gone; nothing is to be done.
    Missing,
    /// The entity is to be put under `parent`.
    Attached { entity: u64, parent: u64 },
    /// The entity is to be made a root.
    Detached { entity: u64 },
    /// The recorded parent part is gone; the entity keeps its place.
    Kept { entity: u64 },
}

/// What applying a recorded parent change (the part `entity_id`, under the
/// part `parent_id` or at the root) asks of the scene, given the table from
/// part ids to entities.
pub open spec fn parent_restore(table: Map<u32, u64>, entity_id: u32, parent_id: Option<u32>) -> ParentRestore {
    if !table.contains_key(entity_id) {
        ParentRestore::Missing
    } else {
        match parent_id {
            None => ParentRestore::Detached { entity: table[entity_id] },
            Some(pid) => if table.contains_key(pid) {
                ParentRestore::Attached { entity: table[entity_id], parent: table[pid] }
            } else {
                ParentRestore::Kept { entity: table[entity_id] }
            },
        }
    }
}

/// The parent relation after a recorded parent change is applied: the link
/// is made or removed as `parent_restore` asks, except that a link that would
/// close a cycle leaves the relation as it was.
pub open spec fn restored_parent_map(
    table: Map<u32, u64>,
    parents: Map<u64, u64>,
    entity_id: u32,
    parent_id: Option<u32>,
) -> Map<u64, u64> {
    match parent_restore(table, entity_id, parent_id) {
        ParentRestore::Attached { entity, parent } => if may_attach(parents, entity, parent) {
            parents.insert(entity, parent)
        } else {
            parents
        },
        ParentRestore::Detached { entity } => parents.remove(entity),
        _ => parents,
    }
}

impl<A> EditHistory<A> {
    /// Empty stacks, not restoring.
    pub fn new() -> (history: Self)
        ensures
            history.undo_stacks@ == Seq::<A>::empty(),
            history.redo_stacks@ == Seq::<A>::empty(),
            !history.restoring,
    {
        EditHistory { undo_stacks: Vec::new(), redo_stacks: Vec::new(), restoring: false }
    }
}

pub struct EditHistoryManager;

impl EditHistoryManager {
    /// Records a new edit: pushes it on the undo stack, dropping the oldest
    /// entry when the stack goes over the limit, and clears the redo stack.
    pub fn record<A>(history: &mut EditHistory<A>, action: A)
        ensures
            final(history).undo_stacks@ == capped_push(old(history).undo_stacks@, action),
            final(history).redo_stacks@ == Seq::<A>::empty(),
            final(history).restoring == old(history).restoring,
    {
        history.undo_stacks.push(action);
        if history.undo_stacks.len() > MAX_HISTORY_COUNT {
            history.undo_stacks.remove(0);
        }
        history.redo_stacks.clear();
    }

    /// Records the material edits seen this frame, unless an undo or redo is
    /// being applied: each changed material, in order, becomes an edit from
    /// its previous to its current value; answers the entities whose material
    /// was recorded, which take their current material as the new previous.
    pub fn handle_record<M, T, P, S>(
        history: &mut EditHistory<Action<M, T, P, S>>,
        changes: Vec<MaterialChange<M>>,
    ) -> (recorded: Vec<u64>)
        ensures
            final(history).restoring == old(history).restoring,
            old(history).restoring ==> {
                &&& final(history).undo_stacks@ == old(history).undo_stacks@
                &&& final(history).redo_stacks@ == old(history).redo_stacks@
                &&& recorded@ == Seq::<u64>::empty()
            },
            !old(history).restoring ==> {
                &&& final(history).undo_stacks@ == record_materials(
                    old(history).undo_stacks@,
                    changes@,
                )
                &&& recorded@ == changed_entities(changes@)
                &&& final(history).redo_stacks@ == (if recorded@.len() == 0 {
                    old(history).redo_stacks@
                } else {
                    Seq::<Action<M, T, P, S>>::empty()
                })
            },
    {
        let mut recorded: Vec<u64> = Vec::new();
        if history.restoring {
            return recorded;
        }
        let ghost all = changes@;
        let ghost undo0 = history.undo_stacks@;
        let ghost redo0 = history.redo_stacks@;
        let mut done: usize = 0;
        for change in it: changes
            invariant
                all == it.seq(),
                !history.restoring,
                history.undo_stacks@ == record_materials(undo0, all.take(it.index() as int)),
                recorded@ == changed_entities(all.take(it.index() as int)),
                history.redo_stacks@ == (if recorded@.len() == 0 {
                    redo0
                } else {
                    Seq::<Action<M, T, P, S>>::empty()
                }),
        {
            let ghost k = it.index();
            proof {
                assert(all.take(k + 1).drop_last() =~= all.take(k as int));
                assert(all.take(k + 1).last() == change);
            }
            if change.is_changed {
                let entity = change.entity;
                Self::record(
                    history,
                    Action::MaterialEdit { entity, old: change.previous, new: change.current },
                );
                recorded.push(entity);
            }
        }
        proof {
            assert(all.take(all.len() as int) =~= all);
        }
        recorded
    }

    /// The edit the undo keys would revert: the most recent one on the undo
    /// stack, when the keys are pressed and there is one.
    pub fn undo_target<'a, A>(history: &'a EditHistory<A>, keys: &HistoryKeys) -> (target: Option<
        &'a A,
    >)
        ensures
            target is Some <==> keys.is_undo() && history.undo_stacks@.len() > 0,
            target is Some ==> *target->0 == history.undo_stacks@.last(),
    {
        if !keys.is_undo() || history.undo_stacks.len() == 0 {
            return None;
        }
        let last = history.undo_stacks.len() - 1;
        Some(&history.undo_stacks[last])
    }

    /// The edit the redo keys would apply again: the most recently undone
    /// one, when the keys are pressed and there is one.
    pub fn redo_target<'a, A>(history: &'a EditHistory<A>, keys: &HistoryKeys) -> (target: Option<
        &'a A,
    >)
        ensures
            target is Some <==> keys.is_redo() && history.redo_stacks@.len() > 0,
            target is Some ==> *target->0 == history.redo_stacks@.last(),
    {
        if !keys.is_redo() || history.redo_stacks.len() == 0 {
            return None;
        }
        let last = history.redo_stacks.len() - 1;
        Some(&history.redo_stacks[last])
    }

    /// What an undo of `action` writes: the old material, transform or shape
    /// of its entity, or the part back under its old parent part with its old
    /// transform.
    pub fn undo_write<'a, M, T, P, S>(action: &'a Action<M, T, P, S>) -> (write: EditWrite<
        'a,
        M,
        T,
        P,
    >)
        ensures
            match *action {
                Action::MaterialEdit { entity, old, .. } => write matches EditWrite::Material {
                    entity: e,
                    value,
                } && e == entity && *value == old,
                Action::TransformEdit { entity, old, .. } => write matches EditWrite::Transform {
                    entity: e,
                    value,
                } && e == entity && *value == old,
                Action::ResizePartType { entity, old, .. } => write matches EditWrite::Shape {
                    entity: e,
                    value,
                } && e == entity && *value == old,
                Action::DeletePart { .. } => write is Deletion,
                Action::AssignParentEntity { entity_id, old_parent_id, old_transform, .. } => write matches EditWrite::Parent {
                    entity_id: i,
                    parent_id: p,
                    transform: t,
                } && i == entity_id && p == old_parent_id && *t == old_transform,
            },
    {
        match action {
            Action::MaterialEdit { entity, old, .. } => EditWrite::Material { entity: *entity, value: old },
            Action::TransformEdit { entity, old, .. } => EditWrite::Transform { entity: *entity, value: old },
            Action::ResizePartType { entity, old, .. } => EditWrite::Shape { entity: *entity, value: old },
            Action::DeletePart { .. } => EditWrite::Deletion,
            Action::AssignParentEntity { entity_id, old_parent_id, old_transform, .. } => EditWrite::Parent {
                entity_id: *entity_id,
                parent_id: *old_parent_id,
                transform: old_transform,
            },
        }
    }

    /// What a redo of `action` writes: the new material, transform or shape
    /// of its entity, or the part under its new parent part (or at the root)
    /// with its new transform.
    pub fn redo_write<'a, M, T, P, S>(action: &'a Action<M, T, P, S>) -> (write: EditWrite<
        'a,
        M,
        T,
        P,
    >)
        ensures
            match *action {
                Action::MaterialEdit { entity, new, .. } => write matches EditWrite::Material {
                    entity: e,
                    value,
                } && e == entity && *value == new,
                Action::TransformEdit { entity, new, .. } => write matches EditWrite::Transform {
                    entity: e,
                    value,
                } && e == entity && *value == new,
                Action::ResizePartType { entity, new, .. } => write matches EditWrite::Shape {
                    entity: e,
                    value,
                } && e == entity && *value == new,
                Action::DeletePart { .. } => write is Deletion,
                Action::AssignParentEntity { entity_id, new_parent_id, new_transform, .. } => write matches EditWrite::Parent {
                    entity_id: i,
                    parent_id: p,
                    transform: t,
                } && i == entity_id && p == new_parent_id && *t == new_transform,
            },
    {
        match action {
            Action::MaterialEdit { entity, new, .. } => EditWrite::Material { entity: *entity, value: new },
            Action::TransformEdit { entity, new, .. } => EditWrite::Transform { entity: *entity, value: new },
            Action::ResizePartType { entity, new, .. } => EditWrite::Shape { entity: *entity, value: new },
            Action::DeletePart { .. } => EditWrite::Deletion,
            Action::AssignParentEntity { entity_id, new_parent_id, new_transform, .. } => EditWrite::Parent {
                entity_id: *entity_id,
                parent_id: *new_parent_id,
                transform: new_transform,
            },
        }
    }

    /// On the undo keys, takes the most recent edit off the undo stack and,
    /// when the caller could revert it (`applied`: its entity still exists),
    /// puts it on the redo stack so the undo can be reversed; an edit whose
    /// entity is gone is dropped. Answers whether the keys fired on an edit.
    pub fn handle_undo<A>(history: &mut EditHistory<A>, keys: &HistoryKeys, applied: bool) -> (fired:
        bool)
        ensures
            fired == (keys.is_undo() && old(history).undo_stacks@.len() > 0),
            final(history).restoring == old(history).restoring,
            fired ==> (final(history).undo_stacks@, final(history).redo_stacks@) == after_undo(
                old(history).undo_stacks@,
                old(history).redo_stacks@,
                applied,
            ),
            !fired ==> final(history).undo_stacks@ == old(history).undo_stacks@
                && final(history).redo_stacks@ == old(history).redo_stacks@,
    {
        if !keys.is_undo() {
            return false;
        }
        match history.undo_stacks.pop() {
            Some(action) => {
                if applied {
                    history.redo_stacks.push(action);
                }
                true
            },
            None => false,
        }
    }

    /// On the redo keys, takes the most recently undone edit off the redo
    /// stack and, when the caller could apply it again (`applied`), puts it
    /// back on the undo stack so the redo can be reversed; an edit whose
    /// entity is gone is dropped. Answers whether the keys fired on an edit.
    pub fn handle_redo<A>(history: &mut EditHistory<A>, keys: &HistoryKeys, applied: bool) -> (fired:
        bool)
        ensures
            fired == (keys.is_redo() && old(history).redo_stacks@.len() > 0),
            final(history).restoring == old(history).restoring,
            fired ==> (final(history).undo_stacks@, final(history).redo_stacks@) == after_redo(
                old(history).undo_stacks@,
                old(history).redo_stacks@,
                applied,
            ),
            !fired ==> final(history).undo_stacks@ == old(history).undo_stacks@
                && final(history).redo_stacks@ == old(history).redo_stacks@,
    {
        if !keys.is_redo() {
            return false;
        }
        match history.redo_stacks.pop() {
            Some(action) => {
                if applied {
                    history.undo_stacks.push(action);
                }
                true
            },
            None => false,
        }
    }

    /// Applies the parent side of a recorded reparent, for undo (with the old
    /// parent) or redo (with the new one): the part's entity is looked up by
    /// id; with a parent id whose part is there, it is put under that part's
    /// entity; without one, it becomes a root. The answer says what the scene
    /// is to do, which is what `parent_restore` gives. The relation in
    /// `hierarchy_reference` follows it, but it is kept free of cycles: a link
    /// that would close one is answered as `Attached` all the same (the scene
    /// makes it, as an unconditional `add_child` does) and is left out of the
    /// relation.
    pub fn restore_parent(
        hierarchy: &BodyHierarchy,
        hierarchy_reference: &mut HierarchyReference,
        entity_id: u32,
        parent_id: Option<u32>,
    ) -> (restore: ParentRestore)
        ensures
            restore == parent_restore(hierarchy.entities@, entity_id, parent_id),
            final(hierarchy_reference).parent_map() == restored_parent_map(
                hierarchy.entities@,
                old(hierarchy_reference).parent_map(),
                entity_id,
                parent_id,
            ),
            final(hierarchy_reference).part_id_map() == old(hierarchy_reference).part_id_map(),
            well_founded(final(hierarchy_reference).parent_map()),
    {
        proof {
            use_type_invariant(&*hierarchy_reference);
            hierarchy_reference.lemma_well_founded();
        }
        let entity = match hierarchy.entities.get(&entity_id) {
            Some(e) => *e,
            None => {
                return ParentRestore::Missing;
            },
        };
        match parent_id {
            Some(pid) => match hierarchy.entities.get(&pid) {
                Some(parent) => {
                    let parent = *parent;
                    hierarchy_reference.attach(entity, parent);
                    ParentRestore::Attached { entity, parent }
                },
                None => ParentRestore::Kept { entity },
            },
            None => {
                hierarchy_reference.detach(entity);
                ParentRestore::Detached { entity }
            },
        }
    }
}

/// Undoing a reparent through the id table gives back the parent relation as
/// it was, and redoing it gives back the relation it became. The reparent puts
/// `child` under `parent` (or, with `None`, makes it a root, which needs it to
/// have had a parent) and records the part ids of its old and new parents;
/// the table maps the part id of every body-part entity back to that entity.
pub proof fn lemma_reparent_undo_redo_through_table(
    parents: Map<u64, u64>,
    ids: Map<u64, u32>,
    table: Map<u32, u64>,
    child: u64,
    parent: Option<u64>,
)
    requires
        well_founded(parents),
        forall|e: u64| #[trigger]
            ids.contains_key(e) ==> table.contains_key(ids[e]) && table[ids[e]] == e,
        ids.contains_key(child),
        parents.contains_key(child) ==> ids.contains_key(parents[child]),
        match parent {
            Some(p) => may_attach(parents, child, p) && ids.contains_key(p),
            None => parents.contains_key(child),
        },
    ensures
        ({
            let after = with_parent(parents, child, parent);
            let id = ids[child];
            &&& restored_parent_map(table, after, id, id_of(ids, parent_of(parents, child)))
                == parents
            &&& restored_parent_map(table, parents, id, id_of(ids, parent)) == after
        }),
{
    let after = with_parent(parents, child, parent);
    let id = ids[child];
    assert(table[id] == child);
    match parent {
        Some(p) => {
            lemma_reparent_undo_redo(parents, child, p);
            assert(table[ids[p]] == p);
            if parents.contains_key(child) {
                assert(table[ids[parents[child]]] == parents[child]);
            }
        },
        None => {
            lemma_detach_undo_redo(parents, child);
            assert(table[ids[parents[child]]] == parents[child]);
        },
    }
}

/// Undo fires exactly when Ctrl or Cmd, on either side, is held, Shift is not,
/// and Z went down; redo exactly when Ctrl or Cmd and Shift are held and Z
/// went down. So each of the four command keys works alone, Shift on either
/// side turns an undo into a redo, the two never fire together, and neither
/// fires without Z.
pub proof fn lemma_history_keys(keys: HistoryKeys)
    ensures
        keys.is_undo() <==> (keys.control_left || keys.control_right || keys.super_left
            || keys.super_right) && !keys.shift_left && !keys.shift_right && keys.z_just_pressed,
        keys.is_redo() <==> (keys.control_left || keys.control_right || keys.super_left
            || keys.super_right) && (keys.shift_left || keys.shift_right) && keys.z_just_pressed,
        !(keys.is_undo() && keys.is_redo()),
        !keys.z_just_pressed ==> !keys.is_undo() && !keys.is_redo(),
        (keys.z_just_pressed && (keys.control_left || keys.control_right || keys.super_left
            || keys.super_right)) ==> (keys.is_undo() || keys.is_redo()),
        ({
            let plain = HistoryKeys {
                control_left: false,
                control_right: false,
                super_left: false,
                super_right: false,
                shift_left: false,
                shift_right: false,
                z_just_pressed: true,
            };
            &&& HistoryKeys { control_left: true, ..plain }.is_undo()
            &&& HistoryKeys { control_right: true, ..plain }.is_undo()
            &&& HistoryKeys { super_left: true, ..plain }.is_undo()
            &&& HistoryKeys { super_right: true, ..plain }.is_undo()
            &&& HistoryKeys { control_left: true, shift_left: true, ..plain }.is_redo()
            &&& HistoryKeys { control_right: true, shift_right: true, ..plain }.is_redo()
            &&& HistoryKeys { super_left: true, shift_left: true, ..plain }.is_redo()
            &&& HistoryKeys { super_right: true, shift_right: true, ..plain }.is_redo()
            &&& !plain.is_undo() && !plain.is_redo()
        }),
{
}

/// The edit recorded for a reparent carries the change exactly: the moved
/// part, its former parent and that parent's part id, its new parent and
/// that parent's part id, and the transforms before and after.
pub proof fn lemma_reparent_edit_fields<M, T, P, S>(change: ParentChange, old_transform: T, new_transform: T)
    ensures
        reparent_edit::<M, T, P, S>(change, old_transform, new_transform) matches Action::AssignParentEntity {
            entity,
            entity_id,
            old_parent,
            old_parent_id,
            old_transform: ot,
            new_parent,
            new_parent_id,
            new_transform: nt,
        } && entity == change.entity && entity_id == change.entity_id && old_parent
            == change.old_parent && old_parent_id == change.old_parent_id && ot == old_transform
            && new_parent == change.new_parent && new_parent_id == change.new_parent_id && nt
            == new_transform,
{
}

/// Recording an edit and then undoing it gives back that edit, and the undo
/// stack as it was unless the record dropped the oldest entry.
pub proof fn lemma_record_then_undo<A>(undo: Seq<A>, action: A)
    ensures
        capped_push(undo, action).len() > 0,
        capped_push(undo, action).last() == action,
        undo.len() < MAX_HISTORY_COUNT ==> capped_push(undo, action).drop_last() == undo,
        capped_push(undo, action).len() <= if undo.len() < MAX_HISTORY_COUNT {
            MAX_HISTORY_COUNT as int
        } else {
            undo.len() as int
        },
{
    let pushed = undo.push(action);
    if undo.len() < MAX_HISTORY_COUNT {
        assert(pushed.drop_last() =~= undo);
    }
}

/// An undo followed by a redo, both carried out, leaves both stacks as they
/// were; so does a redo followed by an undo.
pub proof fn lemma_undo_redo_round_trip<A>(undo: Seq<A>, redo: Seq<A>)
    ensures
        undo.len() > 0 ==> {
            let (u1, r1) = after_undo(undo, redo, true);
            &&& r1.len() > 0
            &&& after_redo(u1, r1, true) == (undo, redo)
        },
        redo.len() > 0 ==> {
            let (u1, r1) = after_redo(undo, redo, true);
            &&& u1.len() > 0
            &&& after_undo(u1, r1, true) == (undo, redo)
        },
{
    if undo.len() > 0 {
        assert(undo.drop_last().push(undo.last()) =~= undo);
        assert(redo.push(undo.last()).drop_last() =~= redo);
    }
    if redo.len() > 0 {
        assert(redo.drop_last().push(redo.last()) =~= redo);
        assert(undo.push(redo.last()).drop_last() =~= undo);
    }
}

} // verus!
