//! Tracking the progress that a model reports beside its actions.

pub mod channel;
pub mod laws;
pub mod room;
pub mod snapshot_laws;
pub mod state;
pub mod todo;
pub mod todo_laws;
