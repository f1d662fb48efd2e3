pub mod drag_locomotion;
pub mod geometry;
pub mod laws;
