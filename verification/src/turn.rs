//! What becomes of the items that a model puts out during a turn.

pub mod envelope;
pub mod image;
pub mod items;
pub mod laws;
pub mod plan;
