use leviathan_lab::history::edit_history::{Action, EditHistory, EditHistoryManager, ParentRestore};
use leviathan_lab::model::body_hierarchy::{
    BodyHierarchy, EntityReference, HierarchyReference, ParentChange,
};
use std::collections::HashMap;

/// Entities 10 (part 0) with children 11 (part 1) and 12 (part 2); 13 (part 3) under 11.
fn sample() -> HierarchyReference {
    let mut h = HierarchyReference::new();
    h.insert_part(10, 0);
    h.insert_part(11, 1);
    h.insert_part(12, 2);
    h.insert_part(13, 3);
    assert!(h.attach(11, 10));
    assert!(h.attach(12, 10));
    assert!(h.attach(13, 11));
    h
}

#[test]
fn is_descendant_walks_up_the_parents() {
    let h = sample();
    assert!(BodyHierarchy::is_descendant(13, 10, &h));
    assert!(BodyHierarchy::is_descendant(13, 11, &h));
    assert!(BodyHierarchy::is_descendant(11, 10, &h));
    assert!(!BodyHierarchy::is_descendant(10, 13, &h));
    assert!(!BodyHierarchy::is_descendant(12, 11, &h));
    assert!(!BodyHierarchy::is_descendant(10, 10, &h));
    assert!(!BodyHierarchy::is_descendant(99, 10, &h));
}

#[test]
fn attach_refuses_cycles() {
    let mut h = sample();
    assert!(!h.attach(10, 13));
    assert!(!h.attach(11, 11));
    assert_eq!(h.parent(10), None);
    assert_eq!(h.parent(11), Some(10));
    assert!(h.attach(12, 13));
    assert_eq!(h.parent(12), Some(13));
}

#[test]
fn detach_answers_the_former_parent() {
    let mut h = sample();
    assert_eq!(h.detach(13), Some(11));
    assert_eq!(h.parent(13), None);
    assert_eq!(h.detach(13), None);
}

#[test]
fn assign_to_parent_moves_a_part() {
    let mut h = sample();
    let target = EntityReference { selected_entity: 10, entity: 12 };
    let mut history = hist();
    let change = BodyHierarchy::assign_to_parent(13, &target, &mut h, &mut history, 7, 8);
    assert_eq!(
        history.undo_stacks,
        vec![Action::AssignParentEntity {
            entity: 13,
            entity_id: 3,
            old_parent: Some(11),
            old_parent_id: Some(1),
            old_transform: 7,
            new_parent: Some(12),
            new_parent_id: Some(2),
            new_transform: 8,
        }]
    );
    assert_eq!(
        change,
        Some(ParentChange {
            entity: 13,
            entity_id: 3,
            old_parent: Some(11),
            old_parent_id: Some(1),
            new_parent: Some(12),
            new_parent_id: Some(2),
        })
    );
    assert_eq!(h.parent(13), Some(12));
}

#[test]
fn assign_to_parent_refuses_own_descendant_and_self() {
    let mut h = sample();
    let onto_grandchild = EntityReference { selected_entity: 10, entity: 13 };
    let mut history = hist();
    assert_eq!(BodyHierarchy::assign_to_parent(10, &onto_grandchild, &mut h, &mut history, 0, 1), None);
    assert!(history.undo_stacks.is_empty());
    assert_eq!(h.parent(10), None);
    let onto_self = EntityReference { selected_entity: 11, entity: 11 };
    assert_eq!(BodyHierarchy::assign_to_parent(11, &onto_self, &mut h, &mut hist(), 0, 1), None);
    assert_eq!(h.parent(11), Some(10));
}

#[test]
fn assign_to_parent_needs_body_parts_on_both_ends() {
    let mut h = sample();
    assert!(h.attach(50, 10));
    let target = EntityReference { selected_entity: 10, entity: 12 };
    assert_eq!(BodyHierarchy::assign_to_parent(50, &target, &mut h, &mut hist(), 0, 1), None);
    assert_eq!(h.parent(50), Some(10));
    let onto_plain = EntityReference { selected_entity: 10, entity: 60 };
    assert_eq!(BodyHierarchy::assign_to_parent(12, &onto_plain, &mut h, &mut hist(), 0, 1), None);
}

#[test]
fn assign_to_root_detaches_a_child() {
    let mut h = sample();
    let mut history = hist();
    history.redo_stacks.push(Action::TransformEdit { entity: 1, old: 0, new: 1 });
    let change = BodyHierarchy::assign_to_root(13, &mut h, &mut history, 7, 8);
    assert_eq!(history.undo_stacks.len(), 1);
    assert!(history.redo_stacks.is_empty());
    assert_eq!(
        change,
        Some(ParentChange {
            entity: 13,
            entity_id: 3,
            old_parent: Some(11),
            old_parent_id: Some(1),
            new_parent: None,
            new_parent_id: None,
        })
    );
    assert_eq!(h.parent(13), None);
    assert_eq!(BodyHierarchy::assign_to_root(13, &mut h, &mut hist(), 0, 1), None);
    assert_eq!(BodyHierarchy::assign_to_root(10, &mut h, &mut hist(), 0, 1), None);
}

fn hist() -> EditHistory<Action<u32, i32, u8, String>> {
    EditHistory::new()
}

fn table() -> BodyHierarchy {
    let mut entities = HashMap::new();
    entities.insert(0, 10);
    entities.insert(1, 11);
    entities.insert(2, 12);
    entities.insert(3, 13);
    BodyHierarchy { entities }
}

#[test]
fn undo_and_redo_of_a_reparent_restore_each_side() {
    let mut h = sample();
    let target = EntityReference { selected_entity: 10, entity: 12 };
    let change = BodyHierarchy::assign_to_parent(13, &target, &mut h, &mut hist(), 0, 1).unwrap();
    let parts = table();
    let undo = EditHistoryManager::restore_parent(&parts, &mut h, change.entity_id, change.old_parent_id);
    assert_eq!(undo, ParentRestore::Attached { entity: 13, parent: 11 });
    assert_eq!(h.parent(13), Some(11));
    let redo = EditHistoryManager::restore_parent(&parts, &mut h, change.entity_id, change.new_parent_id);
    assert_eq!(redo, ParentRestore::Attached { entity: 13, parent: 12 });
    assert_eq!(h.parent(13), Some(12));
}

#[test]
fn undo_of_a_detach_puts_the_part_back() {
    let mut h = sample();
    let change = BodyHierarchy::assign_to_root(11, &mut h, &mut hist(), 0, 1).unwrap();
    let parts = table();
    let undo = EditHistoryManager::restore_parent(&parts, &mut h, change.entity_id, change.old_parent_id);
    assert_eq!(undo, ParentRestore::Attached { entity: 11, parent: 10 });
    assert_eq!(h.parent(11), Some(10));
    let redo = EditHistoryManager::restore_parent(&parts, &mut h, change.entity_id, change.new_parent_id);
    assert_eq!(redo, ParentRestore::Detached { entity: 11 });
    assert_eq!(h.parent(11), None);
}

#[test]
fn restore_parent_reports_missing_parts_and_cycle_links() {
    let mut h = sample();
    let parts = table();
    assert_eq!(EditHistoryManager::restore_parent(&parts, &mut h, 7, Some(0)), ParentRestore::Missing);
    assert_eq!(EditHistoryManager::restore_parent(&parts, &mut h, 3, Some(9)), ParentRestore::Kept { entity: 13 });
    // The scene is asked to make a link that closes a cycle, as an
    // unconditional `add_child` would; the relation leaves it out.
    assert_eq!(
        EditHistoryManager::restore_parent(&parts, &mut h, 0, Some(3)),
        ParentRestore::Attached { entity: 10, parent: 13 }
    );
    assert_eq!(h.parent(10), None);
    assert_eq!(h.parent(13), Some(11));
}

#[test]
fn group_children_keeps_the_given_order() {
    let h = sample();
    let (roots, children) = h.group_children(&vec![13, 12, 10, 11, 40]);
    assert_eq!(roots, vec![10, 40]);
    assert_eq!(children.len(), 2);
    assert_eq!(children.get(&10), Some(&vec![12, 11]));
    assert_eq!(children.get(&11), Some(&vec![13]));
}

#[test]
fn part_ids_are_looked_up_by_entity() {
    let h = sample();
    assert_eq!(h.part_id(12), Some(2));
    assert_eq!(h.part_id(77), None);
}

#[test]
fn from_scene_builds_the_relation_and_skips_cycles() {
    let h = HierarchyReference::from_scene(
        &vec![(10, 0), (11, 1), (12, 2)],
        &vec![(11, 10), (12, 11), (10, 12), (12, 12)],
    );
    assert_eq!(h.parent(11), Some(10));
    assert_eq!(h.parent(12), Some(11));
    assert_eq!(h.parent(10), None);
    assert_eq!(h.part_id(12), Some(2));
    assert!(BodyHierarchy::is_descendant(12, 10, &h));
}
