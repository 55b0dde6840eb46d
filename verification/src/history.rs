pub mod edit_history;
pub mod snapshot;
