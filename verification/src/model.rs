pub mod body_hierarchy;
pub mod body_part;
pub mod monster;
pub mod naming;
