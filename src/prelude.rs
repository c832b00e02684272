//! The names most layouts need, in one import.
pub use crate::blueprint::{Blueprint, Entity, PastedBlueprint, PastedWorld};
pub use crate::catalogue::StructureKind;
pub use crate::geometry::{HasSize, Offset, Position, Size};
pub use crate::item::Item;
pub use crate::structure::StructureData;
pub use crate::world::{
    LayoutError, Placeable, PortIn, PortOut, Structure, World, WorldId, WorldRegistry,
};
