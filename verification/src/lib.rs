//! A schematic and component-library editor core: a document graph of
//! libraries and schematics, a taxonomy of reversible editing actions, and a
//! linear undo/redo record with coalescing and a saved watermark.

pub mod general;
pub mod name_map;
pub mod record;
pub mod symbol;
pub mod component;
pub mod schematic;
pub mod library;
