//! Protocol Buffers (proto3) backend of a schema code generator: naming of
//! generated identifiers, lowering of type expressions, rendering of doc
//! comments, and emission of items into a single `.proto` file.

pub mod text;
pub mod naming;
pub mod expr;
pub mod doc;
pub mod item;
pub mod target;
pub mod type_collisions;
pub mod custom_overrides;
