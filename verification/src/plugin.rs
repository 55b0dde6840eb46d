use vstd::prelude::*;

use crate::editor::gizmos::GizmosMode;
use crate::editor::resource::{BodyPartId, SculptBodyPartType, SculptMode};
use crate::editor::selector::Selection;
use crate::model::body_hierarchy::BodyHierarchy;

verus! {

/// Installs the body-part table.
pub struct ModelPlugin;

impl ModelPlugin {
    /// The table the plugin starts with: no parts yet.
    pub fn initial_hierarchy() -> (hierarchy: BodyHierarchy)
        ensures
            hierarchy.entities@ == Map::<u32, u64>::empty(),
    {
        BodyHierarchy::default()
    }
}

/// Installs the selection.
pub struct SelectorPlugin;

impl SelectorPlugin {
    /// Nothing is selected at start.
    pub fn initial_selection() -> (selection: Selection)
        ensures
            selection.entity is None,
    {
        Selection::default()
    }
}

/// Installs the gizmo mode.
pub struct GizmosPlugin;

impl GizmosPlugin {
    /// The gizmos start in translate mode.
    pub fn initial_mode() -> (mode: GizmosMode)
        ensures
            mode == GizmosMode::Translate,
    {
        GizmosMode::default()
    }
}

/// Installs the tool mode, the shape of added parts and the id counter.
pub struct SculptToolPlugin;

impl SculptToolPlugin {
    /// Select mode, spheres, and ids from 100 up.
    pub fn initial_state() -> (state: (SculptMode, SculptBodyPartType, BodyPartId))
        ensures
            state.0 == SculptMode::Select,
            state.1 == SculptBodyPartType::Sphere,
            state.2.0 == 100,
    {
        (SculptMode::default(), SculptBodyPartType::default(), BodyPartId::default())
    }
}

} // verus!
