use leviathan_lab::history::edit_history::{
    Action, EditHistory, EditHistoryManager, EditWrite, HistoryKeys, MaterialChange, MAX_HISTORY_COUNT,
};

type TestAction = Action<u32, i32, u8, String>;

fn transform_edit(entity: u64, old: i32, new: i32) -> TestAction {
    Action::TransformEdit { entity, old, new }
}

fn keys(control: bool, shift: bool, z: bool) -> HistoryKeys {
    HistoryKeys {
        control_left: control,
        control_right: false,
        super_left: false,
        super_right: false,
        shift_left: shift,
        shift_right: false,
        z_just_pressed: z,
    }
}

#[test]
fn new_history_is_empty() {
    let h: EditHistory<TestAction> = EditHistory::new();
    assert!(h.undo_stacks.is_empty());
    assert!(h.redo_stacks.is_empty());
    assert!(!h.restoring);
}

#[test]
fn record_pushes_and_clears_redo() {
    let mut h: EditHistory<TestAction> = EditHistory::new();
    h.redo_stacks.push(transform_edit(1, 0, 1));
    EditHistoryManager::record(&mut h, transform_edit(2, 3, 4));
    assert_eq!(h.undo_stacks, vec![transform_edit(2, 3, 4)]);
    assert!(h.redo_stacks.is_empty());
}

#[test]
fn record_keeps_at_most_the_limit_dropping_the_oldest() {
    let mut h: EditHistory<TestAction> = EditHistory::new();
    for i in 0..(MAX_HISTORY_COUNT as i32 + 5) {
        EditHistoryManager::record(&mut h, transform_edit(1, i, i + 1));
    }
    assert_eq!(h.undo_stacks.len(), MAX_HISTORY_COUNT);
    assert_eq!(h.undo_stacks[0], transform_edit(1, 5, 6));
    assert_eq!(h.undo_stacks[MAX_HISTORY_COUNT - 1], transform_edit(1, 104, 105));
}

#[test]
fn undo_keys_need_command_and_z_without_shift() {
    assert!(keys(true, false, true).is_undo());
    assert!(!keys(true, true, true).is_undo());
    assert!(!keys(false, false, true).is_undo());
    assert!(!keys(true, false, false).is_undo());
    let cmd = HistoryKeys {
        control_left: false,
        control_right: false,
        super_left: false,
        super_right: true,
        shift_left: false,
        shift_right: false,
        z_just_pressed: true,
    };
    assert!(cmd.is_undo());
}

#[test]
fn redo_keys_need_command_shift_and_z() {
    assert!(keys(true, true, true).is_redo());
    assert!(!keys(true, false, true).is_redo());
    assert!(!keys(false, true, true).is_redo());
    let right_shift = HistoryKeys {
        control_left: false,
        control_right: true,
        super_left: false,
        super_right: false,
        shift_left: false,
        shift_right: true,
        z_just_pressed: true,
    };
    assert!(right_shift.is_redo());
}

#[test]
fn undo_then_redo_moves_the_edit_back_and_forth() {
    let mut h: EditHistory<TestAction> = EditHistory::new();
    EditHistoryManager::record(&mut h, transform_edit(1, 0, 1));
    EditHistoryManager::record(&mut h, transform_edit(2, 5, 6));
    let before = h.clone();

    let undo_keys = keys(true, false, true);
    assert_eq!(EditHistoryManager::undo_target(&h, &undo_keys), Some(&transform_edit(2, 5, 6)));
    assert!(EditHistoryManager::handle_undo(&mut h, &undo_keys, true));
    assert_eq!(h.undo_stacks, vec![transform_edit(1, 0, 1)]);
    assert_eq!(h.redo_stacks, vec![transform_edit(2, 5, 6)]);

    let redo_keys = keys(true, true, true);
    assert_eq!(EditHistoryManager::redo_target(&h, &redo_keys), Some(&transform_edit(2, 5, 6)));
    assert!(EditHistoryManager::handle_redo(&mut h, &redo_keys, true));
    assert_eq!(h, before);
}

#[test]
fn an_edit_whose_entity_is_gone_is_dropped() {
    let mut h: EditHistory<TestAction> = EditHistory::new();
    EditHistoryManager::record(&mut h, transform_edit(1, 0, 1));
    EditHistoryManager::record(&mut h, transform_edit(2, 5, 6));
    assert!(EditHistoryManager::handle_undo(&mut h, &keys(true, false, true), false));
    assert_eq!(h.undo_stacks, vec![transform_edit(1, 0, 1)]);
    assert!(h.redo_stacks.is_empty());

    assert!(EditHistoryManager::handle_undo(&mut h, &keys(true, false, true), true));
    assert!(EditHistoryManager::handle_redo(&mut h, &keys(true, true, true), false));
    assert!(h.undo_stacks.is_empty());
    assert!(h.redo_stacks.is_empty());
}

#[test]
fn undo_without_keys_or_edits_does_nothing() {
    let mut h: EditHistory<TestAction> = EditHistory::new();
    assert!(!EditHistoryManager::handle_undo(&mut h, &keys(true, false, true), true));
    assert_eq!(EditHistoryManager::undo_target(&h, &keys(true, false, true)), None);
    EditHistoryManager::record(&mut h, transform_edit(1, 0, 1));
    assert_eq!(EditHistoryManager::undo_target(&h, &keys(false, false, true)), None);
    assert!(!EditHistoryManager::handle_undo(&mut h, &keys(false, false, true), true));
    assert!(!EditHistoryManager::handle_redo(&mut h, &keys(true, true, true), true));
    assert_eq!(EditHistoryManager::redo_target(&h, &keys(true, true, true)), None);
    assert_eq!(h.undo_stacks.len(), 1);
    assert!(h.redo_stacks.is_empty());
}

fn change(entity: u64, previous: u32, current: u32) -> MaterialChange<u32> {
    MaterialChange { entity, previous, current, is_changed: previous != current }
}

#[test]
fn handle_record_records_changed_materials_in_order() {
    let mut h: EditHistory<TestAction> = EditHistory::new();
    h.redo_stacks.push(transform_edit(9, 0, 0));
    let recorded = EditHistoryManager::handle_record(
        &mut h,
        vec![change(1, 10, 11), change(2, 7, 7), change(3, 4, 5)],
    );
    assert_eq!(recorded, vec![1, 3]);
    assert_eq!(
        h.undo_stacks,
        vec![
            Action::MaterialEdit { entity: 1, old: 10, new: 11 },
            Action::MaterialEdit { entity: 3, old: 4, new: 5 },
        ]
    );
    assert!(h.redo_stacks.is_empty());
}

#[test]
fn handle_record_with_nothing_changed_keeps_redo() {
    let mut h: EditHistory<TestAction> = EditHistory::new();
    h.redo_stacks.push(transform_edit(9, 0, 0));
    let recorded = EditHistoryManager::handle_record(&mut h, vec![change(2, 7, 7)]);
    assert!(recorded.is_empty());
    assert!(h.undo_stacks.is_empty());
    assert_eq!(h.redo_stacks.len(), 1);
}

#[test]
fn handle_record_ignores_changes_while_restoring() {
    let mut h: EditHistory<TestAction> = EditHistory::new();
    h.restoring = true;
    let recorded = EditHistoryManager::handle_record(&mut h, vec![change(1, 1, 2)]);
    assert!(recorded.is_empty());
    assert!(h.undo_stacks.is_empty());
    assert!(h.restoring);
}

#[test]
fn paint_red_then_blue_undo_and_redo() {
    // Materials as colour names; the scene reverts and reapplies what comes off the stacks.
    let mut h: EditHistory<Action<&str, i32, u8, String>> = EditHistory::new();
    let mut paint = "grey";
    let mut previous = "grey";
    for colour in ["red", "blue"] {
        paint = colour;
        let recorded = EditHistoryManager::handle_record(
            &mut h,
            vec![MaterialChange { entity: 1, previous, current: paint, is_changed: paint != previous }],
        );
        assert_eq!(recorded, vec![1]);
        previous = paint;
    }
    let undo_keys = keys(true, false, true);
    let redo_keys = keys(true, true, true);

    let undone = EditHistoryManager::undo_target(&h, &undo_keys).unwrap().clone();
    if let Action::MaterialEdit { old, .. } = &undone {
        paint = old;
    }
    assert!(EditHistoryManager::handle_undo(&mut h, &undo_keys, true));
    assert_eq!(paint, "red");
    assert_eq!(h.redo_stacks, vec![undone]);

    let redone = EditHistoryManager::redo_target(&h, &redo_keys).unwrap().clone();
    if let Action::MaterialEdit { new, .. } = &redone {
        paint = new;
    }
    assert!(EditHistoryManager::handle_redo(&mut h, &redo_keys, true));
    assert_eq!(paint, "blue");
    assert_eq!(h.undo_stacks.len(), 2);
    assert!(h.redo_stacks.is_empty());
}

#[test]
fn undo_writes_old_values_and_redo_new_ones() {
    let material: TestAction = Action::MaterialEdit { entity: 4, old: 1, new: 2 };
    assert!(matches!(EditHistoryManager::undo_write(&material), EditWrite::Material { entity: 4, value: &1 }));
    assert!(matches!(EditHistoryManager::redo_write(&material), EditWrite::Material { entity: 4, value: &2 }));
    let transform = transform_edit(5, 10, 20);
    assert!(matches!(EditHistoryManager::undo_write(&transform), EditWrite::Transform { entity: 5, value: &10 }));
    assert!(matches!(EditHistoryManager::redo_write(&transform), EditWrite::Transform { entity: 5, value: &20 }));
    let shape: TestAction = Action::ResizePartType { entity: 6, old: 3, new: 7 };
    assert!(matches!(EditHistoryManager::undo_write(&shape), EditWrite::Shape { entity: 6, value: &3 }));
    assert!(matches!(EditHistoryManager::redo_write(&shape), EditWrite::Shape { entity: 6, value: &7 }));
    let reparent: TestAction = Action::AssignParentEntity {
        entity: 13,
        entity_id: 3,
        old_parent: Some(11),
        old_parent_id: Some(1),
        old_transform: -1,
        new_parent: None,
        new_parent_id: None,
        new_transform: -2,
    };
    assert!(matches!(
        EditHistoryManager::undo_write(&reparent),
        EditWrite::Parent { entity_id: 3, parent_id: Some(1), transform: &-1 }
    ));
    assert!(matches!(
        EditHistoryManager::redo_write(&reparent),
        EditWrite::Parent { entity_id: 3, parent_id: None, transform: &-2 }
    ));
    let deletion: TestAction = Action::DeletePart { snapshot: "gone".to_string() };
    assert!(matches!(EditHistoryManager::undo_write(&deletion), EditWrite::Deletion));
    assert!(matches!(EditHistoryManager::redo_write(&deletion), EditWrite::Deletion));
}
