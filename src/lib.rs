//! Decoder for POL scene containers: meshes, vertices, materials and
//! transform nodes read from a little-endian byte buffer.

pub mod format;
pub mod reader;
pub mod model;
pub mod decode;
pub mod container;
pub mod laws;
pub mod spans;
