pub mod batch;
pub mod delivery;
pub mod effects;
pub mod entries;
pub mod event;
pub mod laws;
pub mod reorder;
