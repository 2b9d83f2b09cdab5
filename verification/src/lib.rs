//! Incremental construction of boundary-representation objects.
//!
//! Objects are assembled as partial objects, which may lack attributes and
//! refer to each other through handles, and are then built into the full
//! objects of an object store.

pub mod builder;
pub mod geometry;
pub mod interop;
pub mod math;
pub mod objects;
pub mod partial;
pub mod shape;
pub mod trapezoidation;
pub mod vertices;
