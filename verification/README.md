# Leviathan Lab

A 3D sea-monster designer. The structural core of the editor is a library
whose behaviour is stated in contracts and proved with Verus; a Bevy
application drives it.

## Layout

- `src/` — the verified library (`leviathan_lab`)
  - `model/body_hierarchy.rs` — the parent relation between body-part
    entities, kept free of cycles; reparenting and detaching, with the laws
    that undoing and redoing them restore each side; unique part names
  - `model/naming.rs` — zero-padded numbered names (`Fin.001`)
  - `model/body_part.rs`, `model/monster.rs` — body-part structure and the
    starting creature, whose parent links and child lists agree
  - `history/edit_history.rs` — undo and redo stacks with a size limit, the
    undo/redo key combinations, and reapplying recorded parent changes
  - `history/snapshot.rs` — bringing a deleted subtree back and deleting it
    again
  - `editor/` — tool and gizmo modes, selection, id generation, deletion and
    resize recording, triangle index grouping
  - `scene/spawner.rs` — the id table and parent links of a spawned creature
  - `ui/properties.rs` — hierarchy entry labels
  - `plugin.rs` — the initial state each plugin installs
- `tests/` — tests of the library on concrete values
- `app/` — the Bevy application: rendering, input, egui panels, and the
  floating-point geometry (transforms, sculpt brushes, camera, mirroring)

Entities are handed to the library by their 64-bit form.
