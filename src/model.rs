use vstd::prelude::*;
use crate::format::VertexComponent;

verus! {

// Every 32-bit float of the format is held as its IEEE-754 bit pattern
// (`f32::to_bits`), so decoding is exact and comparable.

/// Position of a vertex, three `f32` bit patterns.
#[derive(Debug, Clone, Copy, PartialEq, Eq, Structural)]
pub struct PolVertexPosition {
    pub x: u32,
    pub y: u32,
    pub z: u32,
}

/// Texture coordinate of a vertex, two `f32` bit patterns.
#[derive(Debug, Clone, Copy, PartialEq, Eq, Structural)]
pub struct PolVertexTexCoord {
    pub u: u32,
    pub v: u32,
}

/// One vertex; each optional block is `None` exactly when its mask bit is clear.
#[derive(Debug, Clone, Copy)]
pub struct PolVertex {
    pub position: PolVertexPosition,
    pub unknown2: Option<[u32; 3]>,
    pub unknown4: Option<[u32; 1]>,
    pub unknown8: Option<[u32; 1]>,
    pub tex_coord: PolVertexTexCoord,
    pub unknown20: Option<[u32; 2]>,
    pub unknown40: Option<[u32; 2]>,
    pub unknown80: Option<[u32; 2]>,
    pub unknown100: Option<[u32; 4]>,
}

/// Material record; `unknown_float` is already clamped into [0, 128].
#[derive(Debug, Clone)]
pub struct PolMaterialInfo {
    pub unknown_dw0: u32,
    pub unknown_68: Vec<u8>,
    pub unknown_float: u32,
    pub light_map_count: u32,
    pub light_map_names: Vec<String>,
}

/// Three vertex indices, not checked against the vertex count.
#[derive(Debug, Clone, Copy)]
pub struct PolTriangle {
    pub indices: [u16; 3],
}

/// One mesh of the container.
#[derive(Debug, Clone)]
pub struct PolMesh {
    pub aabb_min: [u32; 3],
    pub aabb_max: [u32; 3],
    pub vertex_type: VertexComponent,
    pub vertex_count: u32,
    pub vertices: Vec<PolVertex>,
    pub material_info_count: u32,
    pub material_info: Vec<PolMaterialInfo>,
    pub unknown2: u32,
    pub unknown3: u32,
    pub unknown4: u32,
    pub triangle_count: u32,
    pub triangles: Vec<PolTriangle>,
}

/// A transform node: a 32-byte blob, a 4x4 matrix as stored, an auxiliary
/// value and a length-prefixed byte string.
#[derive(Debug, Clone)]
pub struct UnknownData {
    pub unknown: Vec<u8>,
    pub matrix: [u32; 16],
    pub unknown2: u32,
    pub str_len: u32,
    pub ddd_str: Vec<u8>,
}

/// An opaque 52-byte node descriptor, one per mesh.
#[derive(Debug, Clone)]
pub struct GeomNodeDesc {
    pub unknown: Vec<u8>,
}

/// A whole decoded container.
#[derive(Debug, Clone)]
pub struct PolFile {
    pub magic: [u8; 4],
    pub some_flag: u32,
    pub mesh_count: u32,
    pub geom_node_descs: Vec<GeomNodeDesc>,
    pub unknown_count: u32,
    pub unknown_data: Vec<UnknownData>,
    pub meshes: Vec<PolMesh>,
}

} // verus!
