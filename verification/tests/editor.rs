use leviathan_lab::editor::bvh::BvhManager;
use leviathan_lab::editor::gizmos::{GizmosManager, GizmosMode};
use leviathan_lab::editor::resource::{
    BodyPartId, BrushMode, IdGenerator, SculptBodyPartType, SculptMode,
};
use leviathan_lab::editor::sculpt_tool::SculptTool;
use leviathan_lab::editor::selector::{Selection, Selector};
use leviathan_lab::editor::symmetry::SymmetryMode;
use leviathan_lab::history::edit_history::{Action, EditHistory};
use leviathan_lab::plugin::{GizmosPlugin, ModelPlugin, SculptToolPlugin, SelectorPlugin};

#[test]
fn labels_match_the_display_names() {
    assert_eq!(GizmosMode::Translate.to_string(), "Translate");
    assert_eq!(GizmosMode::Rotate.to_string(), "Rotate");
    assert_eq!(GizmosMode::Scale.to_string(), "Scale");
    assert_eq!(SculptMode::AddBodyPart.to_string(), "Add Body Part");
    assert_eq!(SculptMode::Select.to_string(), "Select");
    assert_eq!(SculptMode::Sculpt.to_string(), "Sculpt");
    assert_eq!(BrushMode::Flatten.to_string(), "Flatten");
    assert_eq!(BrushMode::Smooth.to_string(), "Smooth");
    assert_eq!(SculptBodyPartType::Cylinder.to_string(), "Cylinder");
    assert_eq!(SculptBodyPartType::Torus.to_string(), "Torus");
}

#[test]
fn defaults() {
    assert_eq!(GizmosMode::default(), GizmosMode::Translate);
    assert_eq!(SculptMode::default(), SculptMode::Select);
    assert_eq!(BrushMode::default(), BrushMode::Pull);
    assert_eq!(SculptBodyPartType::default(), SculptBodyPartType::Sphere);
    assert_eq!(BodyPartId::default(), BodyPartId(100));
    assert!(!SymmetryMode::default().enabled);
    assert_eq!(Selection::default().entity, None);
}

#[test]
fn ids_count_up_from_one_hundred() {
    let mut ids = BodyPartId::default();
    assert_eq!(ids.next(), 100);
    assert_eq!(ids.next(), 101);
    assert_eq!(ids.0, 102);
}

#[test]
fn gizmo_keys_pick_the_mode() {
    let mut mode = GizmosMode::Translate;
    GizmosManager::mode_keys(false, false, true, &mut mode);
    assert_eq!(mode, GizmosMode::Rotate);
    GizmosManager::mode_keys(false, true, false, &mut mode);
    assert_eq!(mode, GizmosMode::Scale);
    GizmosManager::mode_keys(false, false, false, &mut mode);
    assert_eq!(mode, GizmosMode::Scale);
    GizmosManager::mode_keys(true, false, false, &mut mode);
    assert_eq!(mode, GizmosMode::Translate);
    GizmosManager::mode_keys(true, true, true, &mut mode);
    assert_eq!(mode, GizmosMode::Rotate);
}

#[test]
fn sculpt_keys_pick_the_mode() {
    let mut mode = SculptMode::Select;
    SculptTool::handle_button_input(true, false, false, &mut mode);
    assert_eq!(mode, SculptMode::AddBodyPart);
    SculptTool::handle_button_input(false, true, false, &mut mode);
    assert_eq!(mode, SculptMode::Sculpt);
    SculptTool::handle_button_input(true, true, false, &mut mode);
    assert_eq!(mode, SculptMode::Sculpt);
    SculptTool::handle_button_input(true, true, true, &mut mode);
    assert_eq!(mode, SculptMode::Select);
    let mut sculpting = SculptMode::Sculpt;
    SculptTool::handle_button_input(false, false, false, &mut sculpting);
    assert_eq!(sculpting, SculptMode::Sculpt);
}

#[test]
fn selection_follows_presses_and_clicks() {
    let mut s = Selection::default();
    Selector::on_press(42, &mut s);
    assert_eq!(s.entity, Some(42));
    Selector::handle_deselect(&SculptMode::Select, true, false, true, &mut s);
    assert_eq!(s.entity, Some(42));
    Selector::handle_deselect(&SculptMode::Select, true, true, false, &mut s);
    assert_eq!(s.entity, Some(42));
    Selector::handle_deselect(&SculptMode::Sculpt, true, false, false, &mut s);
    assert_eq!(s.entity, Some(42));
    Selector::handle_deselect(&SculptMode::Select, false, false, false, &mut s);
    assert_eq!(s.entity, Some(42));
    Selector::handle_deselect(&SculptMode::Select, true, false, false, &mut s);
    assert_eq!(s.entity, None);
    Selector::on_press(7, &mut s);
    Selector::handle_button_input(false, &mut s);
    assert_eq!(s.entity, Some(7));
    Selector::handle_button_input(true, &mut s);
    assert_eq!(s.entity, None);
}

#[test]
fn new_parts_get_fresh_ids_and_unique_shape_names() {
    let mut ids = BodyPartId::default();
    let mut names: Vec<String> = vec!["Body".to_string()];
    let a = SculptTool::new_body_part(&mut ids, &SculptBodyPartType::Capsule, &names);
    names.push(a.name.clone());
    let b = SculptTool::new_body_part(&mut ids, &SculptBodyPartType::Cone, &names);
    names.push(b.name.clone());
    let c = SculptTool::new_body_part(&mut ids, &SculptBodyPartType::Capsule, &names);
    names.push(c.name.clone());
    let d = SculptTool::new_body_part(&mut ids, &SculptBodyPartType::Capsule, &names);
    assert_eq!((a.id, a.name.as_str()), (100, "Capsule"));
    assert_eq!((b.id, b.name.as_str()), (101, "Cone"));
    assert_eq!((c.id, c.name.as_str()), (102, "Capsule.001"));
    assert_eq!((d.id, d.name.as_str()), (103, "Capsule.002"));
    assert!(a.is_root());
}

#[test]
fn adding_needs_add_mode_and_a_click_off_the_panels() {
    assert!(SculptTool::should_add_body_part(&SculptMode::AddBodyPart, true, false));
    assert!(!SculptTool::should_add_body_part(&SculptMode::AddBodyPart, true, true));
    assert!(!SculptTool::should_add_body_part(&SculptMode::AddBodyPart, false, false));
    assert!(!SculptTool::should_add_body_part(&SculptMode::Select, true, false));
}

#[test]
fn deleting_keeps_the_last_part() {
    let selected = Selection { entity: Some(3) };
    assert_eq!(SculptTool::deletion_target(true, &selected, 2, 1), Some(3));
    assert_eq!(SculptTool::deletion_target(true, &selected, 1, 1), None);
    // A root with every other part below it cannot go.
    assert_eq!(SculptTool::deletion_target(true, &selected, 7, 7), None);
    assert_eq!(SculptTool::deletion_target(true, &selected, 7, 6), Some(3));
    assert_eq!(SculptTool::deletion_target(false, &selected, 5, 1), None);
    assert_eq!(SculptTool::deletion_target(true, &Selection::default(), 5, 1), None);
}

#[test]
fn recording_a_deletion_selects_the_nearest_part() {
    let mut h: EditHistory<Action<u8, u8, u8, &str>> = EditHistory::new();
    h.redo_stacks.push(Action::DeletePart { snapshot: "old" });
    let mut s = Selection { entity: Some(3) };
    SculptTool::record_deletion(&mut h, &mut s, "subtree", Some(8));
    assert_eq!(s.entity, Some(8));
    assert_eq!(h.undo_stacks, vec![Action::DeletePart { snapshot: "subtree" }]);
    assert!(h.redo_stacks.is_empty());
}

#[test]
fn resizes_are_recorded_only_when_the_shape_changed() {
    let mut h: EditHistory<Action<u8, u8, u8, u8>> = EditHistory::new();
    h.redo_stacks.push(Action::DeletePart { snapshot: 1 });
    SculptTool::record_resize(&mut h, 9, 1, 1, false);
    assert!(h.undo_stacks.is_empty());
    assert_eq!(h.redo_stacks.len(), 1);
    SculptTool::record_resize(&mut h, 9, 1, 2, true);
    assert_eq!(h.undo_stacks, vec![Action::ResizePartType { entity: 9, old: 1, new: 2 }]);
    assert!(h.redo_stacks.is_empty());
}

#[test]
fn triangles_from_indices() {
    assert_eq!(
        BvhManager::triangles_from_u32(&vec![0, 1, 2, 2, 3, 0, 9]),
        vec![[0, 1, 2], [2, 3, 0]]
    );
    assert_eq!(BvhManager::triangles_from_u16(&vec![5, 6, 65535]), vec![[5, 6, 65535]]);
    assert!(BvhManager::triangles_from_u16(&vec![1, 2]).is_empty());
}

#[test]
fn plugins_start_from_their_defaults() {
    assert!(ModelPlugin::initial_hierarchy().entities.is_empty());
    assert_eq!(SelectorPlugin::initial_selection().entity, None);
    assert_eq!(GizmosPlugin::initial_mode(), GizmosMode::Translate);
    let (mode, shape, ids) = SculptToolPlugin::initial_state();
    assert_eq!(mode, SculptMode::Select);
    assert_eq!(shape, SculptBodyPartType::Sphere);
    assert_eq!(ids.0, 100);
}

#[test]
fn clicking_away_clears_the_selection() {
    let mut s = Selection { entity: Some(4) };
    Selector::deselect_on_click_away(true, true, &mut s);
    assert_eq!(s.entity, Some(4));
    Selector::deselect_on_click_away(false, false, &mut s);
    assert_eq!(s.entity, Some(4));
    Selector::deselect_on_click_away(true, false, &mut s);
    assert_eq!(s.entity, None);
}
