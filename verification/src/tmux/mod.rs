pub mod actions;
pub mod ids;
pub mod snapshot;
