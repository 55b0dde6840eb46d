//! Structural core of a sea-monster body editor: the body-part hierarchy,
//! edit history, part naming and identifiers, editor modes and the starting
//! creature, each with its contract proved by Verus.
pub mod editor;
pub mod history;
pub mod model;
pub mod plugin;
pub mod scene;
pub mod ui;
