use vstd::prelude::*;

use super::resource::SculptMode;

verus! {

/// The body-part entity being edited, if any.
#[derive(Clone, Copy, Debug, PartialEq, Eq, Structural)]
pub struct Selection {
    pub entity: Option<u64>,
}

impl Default for Selection {
    fn default() -> (selection: Self)
        ensures
            selection.entity is None,
    {
        Selection { entity: None }
    }
}

pub struct Selector;

impl Selector {
    /// A press on a body part selects it.
    pub fn on_press(entity: u64, selection: &mut Selection)
        ensures
            final(selection).entity == Some(entity),
    {
        selection.entity = Some(entity);
    }

    /// A left click in select mode that lands on neither a body part nor a
    /// gizmo handle, and not on the editor panels, clears the selection.
    pub fn handle_deselect(
        mode: &SculptMode,
        left_just_pressed: bool,
        pointer_over_panel: bool,
        hit_part_or_handle: bool,
        selection: &mut Selection,
    )
        ensures
            final(selection).entity == (if *mode == SculptMode::Select && left_just_pressed
                && !pointer_over_panel && !hit_part_or_handle {
                None
            } else {
                old(selection).entity
            }),
    {
        if *mode != SculptMode::Select {
            return;
        }
        if !left_just_pressed {
            return;
        }
        if pointer_over_panel {
            return;
        }
        if !hit_part_or_handle {
            selection.entity = None;
        }
    }

    /// A left click that lands on no body part clears the selection.
    pub fn deselect_on_click_away(left_just_pressed: bool, hit_any_body_part: bool, selection: &mut Selection)
        ensures
            final(selection).entity == (if left_just_pressed && !hit_any_body_part {
                None
            } else {
                old(selection).entity
            }),
    {
        if !left_just_pressed {
            return;
        }
        if !hit_any_body_part {
            selection.entity = None;
        }
    }

    /// Escape clears the selection.
    pub fn handle_button_input(escape_just_pressed: bool, selection: &mut Selection)
        ensures
            final(selection).entity == (if escape_just_pressed {
                None
            } else {
                old(selection).entity
            }),
    {
        if escape_just_pressed {
            selection.entity = None;
        }
    }
}

} // verus!
