//! Geometry for a small polygon viewer: a catalog of 2D figures, the
//! vertex/index layout of each figure's mesh, and the selector that cycles
//! through the catalog.
//!
//! Vertex coordinates and colours are floating point and are computed by the
//! renderer from the vertex layout this crate describes; this crate decides
//! which vertices a mesh has, in which order, and how they are triangulated.

pub mod vertex;
pub mod selector;
pub mod buffer;
pub mod frame;
