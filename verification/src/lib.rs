//! An interactive grid editor for comma-delimited text: the jagged grid, the
//! navigate/edit state machine, the frame description and the record codec.

pub mod editor;
pub mod grid;
pub mod input;
pub mod laws;
pub mod model;
pub mod persist;
pub mod render;
pub mod text;
