use vstd::prelude::*;

use super::resource::{BodyPartId, IdGenerator, SculptBodyPartType, SculptMode};
use super::selector::Selection;
use crate::history::edit_history::{capped_push, Action, EditHistory, EditHistoryManager};
use crate::model::body_hierarchy::{fresh_name, BodyHierarchy};
use crate::model::body_part::{BodyPart, BodyPartBuilder, DEFAULT_SUBDIVISION};
use crate::model::naming::name_seq;

verus! {

pub struct SculptTool;

impl SculptTool {
    /// `A` switches to adding body parts, `V` to sculpting and Escape back
    /// to selecting; when several go down together Escape wins over `V` and
    /// `V` over `A`, and with none the mode stays.
    pub fn handle_button_input(
        a_pressed: bool,
        v_pressed: bool,
        escape_pressed: bool,
        mode: &mut SculptMode,
    )
        ensures
            *final(mode) == (if escape_pressed {
                SculptMode::Select
            } else if v_pressed {
                SculptMode::Sculpt
            } else if a_pressed {
                SculptMode::AddBodyPart
            } else {
                *old(mode)
            }),
    {
        if a_pressed {
            *mode = SculptMode::AddBodyPart;
        }
        if v_pressed {
            *mode = SculptMode::Sculpt;
        }
        if escape_pressed {
            *mode = SculptMode::Select;
        }
    }

    /// A part is added where the user clicked only in add mode, on a fresh
    /// left click that is not on the editor panels.
    pub fn should_add_body_part(mode: &SculptMode, left_just_pressed: bool, pointer_over_panel: bool) -> (add:
        bool)
        ensures
            add == (*mode == SculptMode::AddBodyPart && left_just_pressed && !pointer_over_panel),
    {
        *mode == SculptMode::AddBodyPart && left_just_pressed && !pointer_over_panel
    }

    /// The structure of a newly added part: the next fresh id, named after
    /// its shape and made unique among `existing_names` (`Sphere`,
    /// `Sphere.001`, ...), a root with no children, the first material, the
    /// default subdivision level, unsculpted.
    pub fn new_body_part(
        body_part_id: &mut BodyPartId,
        shape: &SculptBodyPartType,
        existing_names: &Vec<String>,
    ) -> (part: BodyPart)
        requires
            old(body_part_id).0 < u32::MAX,
            existing_names.len() < u32::MAX,
        ensures
            part.id == old(body_part_id).0,
            final(body_part_id).0 == old(body_part_id).0 + 1,
            fresh_name(shape.to_string_spec(), name_seq(existing_names@), part.name@),
            part.parent_id is None,
            part.children@ == Seq::<u32>::empty(),
            part.material_id == 0,
            part.subdivisions == DEFAULT_SUBDIVISION,
            !part.is_sculpted,
    {
        let id = body_part_id.next();
        let base = shape.to_string();
        let name = BodyHierarchy::unique_name(base.as_str(), existing_names);
        BodyPartBuilder::new(id).name(name).build()
    }

    /// The part a delete key press removes: the selected one, as long as
    /// some part is left once it and the `subtree_count` parts of its subtree
    /// (itself included) are gone.
    pub fn deletion_target(
        delete_pressed: bool,
        selection: &Selection,
        body_part_count: usize,
        subtree_count: usize,
    ) -> (target: Option<u64>)
        ensures
            target == (if delete_pressed && selection.entity is Some && body_part_count
                - subtree_count >= 1 {
                selection.entity
            } else {
                None
            }),
    {
        if !delete_pressed {
            return None;
        }
        let entity = match selection.entity {
            Some(e) => e,
            None => return None,
        };
        if subtree_count >= body_part_count {
            return None;
        }
        Some(entity)
    }

    /// Records the deletion of the selected part, with the snapshot of its
    /// subtree, and selects `nearest`, the remaining part nearest to it.
    pub fn record_deletion<M, T, P, S>(
        history: &mut EditHistory<Action<M, T, P, S>>,
        selection: &mut Selection,
        snapshot: S,
        nearest: Option<u64>,
    )
        ensures
            final(history).undo_stacks@ == capped_push(
                old(history).undo_stacks@,
                Action::DeletePart { snapshot },
            ),
            final(history).redo_stacks@ == Seq::<Action<M, T, P, S>>::empty(),
            final(history).restoring == old(history).restoring,
            final(selection).entity == nearest,
    {
        EditHistoryManager::record(history, Action::DeletePart { snapshot });
        selection.entity = nearest;
    }

    /// Records a resize when the part's shape changed: the edit is pushed
    /// onto the undo stack (without dropping the oldest entry) and the redo
    /// stack is cleared; an unchanged shape records nothing.
    pub fn record_resize<M, T, P, S>(
        history: &mut EditHistory<Action<M, T, P, S>>,
        entity: u64,
        old_part_type: P,
        new_part_type: P,
        part_type_changed: bool,
    )
        ensures
            final(history).restoring == old(history).restoring,
            part_type_changed ==> {
                &&& final(history).undo_stacks@ == old(history).undo_stacks@.push(
                    Action::ResizePartType { entity, old: old_part_type, new: new_part_type },
                )
                &&& final(history).redo_stacks@ == Seq::<Action<M, T, P, S>>::empty()
            },
            !part_type_changed ==> {
                &&& final(history).undo_stacks@ == old(history).undo_stacks@
                &&& final(history).redo_stacks@ == old(history).redo_stacks@
            },
    {
        if !part_type_changed {
            return;
        }
        history.undo_stacks.push(
            Action::ResizePartType { entity, old: old_part_type, new: new_part_type },
        );
        history.redo_stacks.clear();
    }
}

} // verus!
