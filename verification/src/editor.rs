pub mod bvh;
pub mod gizmos;
pub mod resource;
pub mod sculpt_tool;
pub mod selector;
pub mod symmetry;
