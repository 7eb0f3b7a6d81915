//! Debug printing of arena-allocated expression trees, with every node
//! annotated by its arena index.

pub mod display;
pub mod ir;
pub mod laws;
pub mod text;
