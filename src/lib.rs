//! Building factory layouts: placing machines on a grid, wiring their ports,
//! composing layouts into larger ones, and exporting the result as text.
pub mod blueprint;
pub mod catalogue;
pub mod export;
pub mod geometry;
pub mod item;
pub mod prelude;
pub mod structure;
pub mod text;
pub mod world;
