//! Operations that build up partial objects.

pub mod cycle;
pub mod half_edge;
pub mod sketch;
pub mod surface;
