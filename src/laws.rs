use vstd::prelude::*;
use crate::container::{
    descs_end, mesh_pos, meshes_start, pol_at, transform_at, transform_pos,
};
use crate::decode::{
    material_at, material_pos, mesh_at, mesh_mat_count_pos, mesh_tail_pos, opt_view,
    triangle_at, vertex_at,
};
use crate::format::{clamp_bits, has_bit, mask_is_valid, vertex_len, vertex_size_of, F32_128_BITS};
use crate::model::{PolFile, PolMaterialInfo, PolMesh, PolVertex, UnknownData};
use crate::reader::{le32, name_at};

verus! {

/// The clamped parameter is the bit pattern of a float in [0, 128]: not a NaN,
/// sign bit clear, at most the pattern of 128.0 (non-negative floats order as
/// their patterns do). A value already in that range is kept as it is.
pub proof fn lemma_clamp_in_range(b: u32)
    ensures
        clamp_bits(b) <= F32_128_BITS,
        b <= F32_128_BITS ==> clamp_bits(b) == b,
{
}

/// A decoded container has exactly one node descriptor and one mesh for each
/// unit of its mesh count.
pub proof fn lemma_mesh_counts(d: Seq<u8>, f: PolFile)
    requires
        pol_at(d, f),
    ensures
        f.meshes@.len() == f.geom_node_descs@.len(),
        f.geom_node_descs@.len() == f.mesh_count,
{
}

/// Every material of every decoded mesh has its parameter inside [0, 128],
/// whatever float was stored.
pub proof fn lemma_materials_clamped(d: Seq<u8>, f: PolFile)
    requires
        pol_at(d, f),
    ensures
        forall|i: int, j: int|
            0 <= i < f.meshes@.len() && 0 <= j < f.meshes@[i].material_info@.len()
                ==> #[trigger] f.meshes@[i].material_info@[j].unknown_float <= F32_128_BITS,
{
    assert forall|i: int, j: int|
        0 <= i < f.meshes@.len() && 0 <= j < f.meshes@[i].material_info@.len()
            implies #[trigger] f.meshes@[i].material_info@[j].unknown_float <= F32_128_BITS by {
        let p = mesh_pos(d, meshes_start(d), i);
        assert(mesh_at(d, p, f.meshes@[i]));
        let q = mesh_mat_count_pos(d, p);
        assert(material_at(d, material_pos(d, q + 4, j), f.meshes@[i].material_info@[j]));
        lemma_clamp_in_range(le32(d, material_pos(d, q + 4, j) + 68) as u32);
    }
}

/// In a decoded mesh each optional vertex block is present exactly when its
/// bit is set in the mesh's mask, and absent (`None`) otherwise.
pub proof fn lemma_vertex_blocks_follow_mask(d: Seq<u8>, f: PolFile, i: int, k: int)
    requires
        pol_at(d, f),
        0 <= i < f.meshes@.len(),
        0 <= k < f.meshes@[i].vertices@.len(),
    ensures
        ({
            let mask = f.meshes@[i].vertex_type.0;
            let v = f.meshes@[i].vertices@[k];
            &&& v.unknown2 is Some == has_bit(mask, 0x2)
            &&& v.unknown4 is Some == has_bit(mask, 0x4)
            &&& v.unknown8 is Some == has_bit(mask, 0x8)
            &&& v.unknown20 is Some == has_bit(mask, 0x20)
            &&& v.unknown40 is Some == has_bit(mask, 0x40)
            &&& v.unknown80 is Some == has_bit(mask, 0x80)
            &&& v.unknown100 is Some == has_bit(mask, 0x100)
        }),
{
    let p = mesh_pos(d, meshes_start(d), i);
    let m = f.meshes@[i];
    assert(mesh_at(d, p, m));
    assert(vertex_at(d, p + 32 + k * vertex_len(m.vertex_type.0), m.vertex_type.0, m.vertices@[k]));
}

/// A decoded container holds transform nodes exactly when its format flag
/// exceeds 100 and the stored node count is positive; a flag of 100 or less
/// gives none.
pub proof fn lemma_transform_presence(d: Seq<u8>, f: PolFile)
    requires
        pol_at(d, f),
    ensures
        f.unknown_data@.len() > 0 <==> (f.some_flag > 100 && le32(d, descs_end(d)) > 0),
        f.some_flag <= 100 ==> f.unknown_data@.len() == 0,
{
}

} // verus!

verus! {

/// Two vertices agree in every field.
pub open spec fn vertex_agree(a: PolVertex, b: PolVertex) -> bool {
    &&& a.position == b.position
    &&& opt_view(a.unknown2) == opt_view(b.unknown2)
    &&& opt_view(a.unknown4) == opt_view(b.unknown4)
    &&& opt_view(a.unknown8) == opt_view(b.unknown8)
    &&& a.tex_coord == b.tex_coord
    &&& opt_view(a.unknown20) == opt_view(b.unknown20)
    &&& opt_view(a.unknown40) == opt_view(b.unknown40)
    &&& opt_view(a.unknown80) == opt_view(b.unknown80)
    &&& opt_view(a.unknown100) == opt_view(b.unknown100)
}

/// Two material records agree in every field.
pub open spec fn material_agree(a: PolMaterialInfo, b: PolMaterialInfo) -> bool {
    &&& a.unknown_dw0 == b.unknown_dw0
    &&& a.unknown_68@ == b.unknown_68@
    &&& a.unknown_float == b.unknown_float
    &&& a.light_map_count == b.light_map_count
    &&& a.light_map_names@.len() == b.light_map_names@.len()
    &&& forall|j: int|
        0 <= j < a.light_map_names@.len() ==> (#[trigger] a.light_map_names@[j])@
            == b.light_map_names@[j]@
}

/// Two meshes agree in every field, down to each vertex, material and triangle.
pub open spec fn mesh_agree(a: PolMesh, b: PolMesh) -> bool {
    &&& a.aabb_min@ == b.aabb_min@
    &&& a.aabb_max@ == b.aabb_max@
    &&& a.vertex_type == b.vertex_type
    &&& a.vertex_count == b.vertex_count
    &&& a.vertices@.len() == b.vertices@.len()
    &&& forall|i: int|
        0 <= i < a.vertices@.len() ==> vertex_agree(#[trigger] a.vertices@[i], b.vertices@[i])
    &&& a.material_info_count == b.material_info_count
    &&& a.material_info@.len() == b.material_info@.len()
    &&& forall|i: int|
        0 <= i < a.material_info@.len() ==> material_agree(
            #[trigger] a.material_info@[i],
            b.material_info@[i],
        )
    &&& a.unknown2 == b.unknown2
    &&& a.unknown3 == b.unknown3
    &&& a.unknown4 == b.unknown4
    &&& a.triangle_count == b.triangle_count
    &&& a.triangles@.len() == b.triangles@.len()
    &&& forall|i: int|
        0 <= i < a.triangles@.len() ==> (#[trigger] a.triangles@[i]).indices@
            == b.triangles@[i].indices@
}

/// Two transform nodes agree in every field.
pub open spec fn transform_agree(a: UnknownData, b: UnknownData) -> bool {
    &&& a.unknown@ == b.unknown@
    &&& a.matrix@ == b.matrix@
    &&& a.unknown2 == b.unknown2
    &&& a.str_len == b.str_len
    &&& a.ddd_str@ == b.ddd_str@
}

/// Two containers agree in every field, at every depth.
pub open spec fn file_agree(a: PolFile, b: PolFile) -> bool {
    &&& a.magic@ == b.magic@
    &&& a.some_flag == b.some_flag
    &&& a.mesh_count == b.mesh_count
    &&& a.geom_node_descs@.len() == b.geom_node_descs@.len()
    &&& forall|i: int|
        0 <= i < a.geom_node_descs@.len() ==> (#[trigger] a.geom_node_descs@[i]).unknown@
            == b.geom_node_descs@[i].unknown@
    &&& a.unknown_count == b.unknown_count
    &&& a.unknown_data@.len() == b.unknown_data@.len()
    &&& forall|i: int|
        0 <= i < a.unknown_data@.len() ==> transform_agree(
            #[trigger] a.unknown_data@[i],
            b.unknown_data@[i],
        )
    &&& a.meshes@.len() == b.meshes@.len()
    &&& forall|i: int|
        0 <= i < a.meshes@.len() ==> mesh_agree(#[trigger] a.meshes@[i], b.meshes@[i])
}

proof fn lemma_mesh_determined(d: Seq<u8>, p: int, a: PolMesh, b: PolMesh)
    requires
        mesh_at(d, p, a),
        mesh_at(d, p, b),
    ensures
        mesh_agree(a, b),
{
    let mask = a.vertex_type.0;
    assert forall|i: int| 0 <= i < a.vertices@.len() implies vertex_agree(
        #[trigger] a.vertices@[i],
        b.vertices@[i],
    ) by {
        assert(vertex_at(d, p + 32 + i * vertex_len(mask), mask, a.vertices@[i]));
        assert(vertex_at(d, p + 32 + i * vertex_len(mask), mask, b.vertices@[i]));
    }
    let q = mesh_mat_count_pos(d, p);
    assert forall|i: int| 0 <= i < a.material_info@.len() implies material_agree(
        #[trigger] a.material_info@[i],
        b.material_info@[i],
    ) by {
        let r = material_pos(d, q + 4, i);
        let ma = a.material_info@[i];
        let mb = b.material_info@[i];
        assert(material_at(d, r, ma));
        assert(material_at(d, r, mb));
        assert forall|j: int| 0 <= j < ma.light_map_names@.len() implies (
        #[trigger] ma.light_map_names@[j])@ == mb.light_map_names@[j]@ by {
            assert(name_at(d, r + 76 + 64 * j) == Some(ma.light_map_names@[j]@));
            assert(name_at(d, r + 76 + 64 * j) == Some(mb.light_map_names@[j]@));
        }
    }
    let t = mesh_tail_pos(d, p);
    assert forall|i: int| 0 <= i < a.triangles@.len() implies (
    #[trigger] a.triangles@[i]).indices@ == b.triangles@[i].indices@ by {
        assert(triangle_at(d, t + 16 + 6 * i, a.triangles@[i]));
        assert(triangle_at(d, t + 16 + 6 * i, b.triangles@[i]));
    }
}

/// Decoding is deterministic: two containers that both hold the fields of the
/// same bytes agree field for field.
pub proof fn lemma_decode_deterministic(d: Seq<u8>, a: PolFile, b: PolFile)
    requires
        pol_at(d, a),
        pol_at(d, b),
    ensures
        file_agree(a, b),
{
    assert forall|i: int| 0 <= i < a.meshes@.len() implies mesh_agree(
        #[trigger] a.meshes@[i],
        b.meshes@[i],
    ) by {
        let p = mesh_pos(d, meshes_start(d), i);
        lemma_mesh_determined(d, p, a.meshes@[i], b.meshes@[i]);
    }
    assert forall|i: int| 0 <= i < a.unknown_data@.len() implies transform_agree(
        #[trigger] a.unknown_data@[i],
        b.unknown_data@[i],
    ) by {
        assert(transform_at(d, transform_pos(d, descs_end(d) + 4, i), a.unknown_data@[i]));
        assert(transform_at(d, transform_pos(d, descs_end(d) + 4, i), b.unknown_data@[i]));
    }
}

} // verus!

verus! {

/// The auxiliary size agrees with the bytes a vertex takes when the mask is
/// valid and its sign bit is clear; a negative mask gives its low 31 bits.
pub proof fn lemma_vertex_size_matches_valid_mask(mask: u32)
    requires
        mask_is_valid(mask),
        mask < 0x8000_0000,
    ensures
        vertex_size_of(mask as i32) == vertex_len(mask),
{
    let t = mask as i32;
    assert(t >= 0) by (bit_vector)
        requires
            mask < 0x8000_0000u32,
            t == mask as i32,
    ;
    assert((t & 1 != 0) == (mask & 1 != 0) && (t & 2 != 0) == (mask & 2 != 0) && (t & 4 != 0) == (
    mask & 4 != 0) && (t & 8 != 0) == (mask & 8 != 0) && (t & 0x10 != 0) == (mask & 0x10 != 0)
        && (t & 0x20 != 0) == (mask & 0x20 != 0) && (t & 0x40 != 0) == (mask & 0x40 != 0) && (t
        & 0x80 != 0) == (mask & 0x80 != 0) && (t & 0x100 != 0) == (mask & 0x100 != 0))
        by (bit_vector)
        requires
            t == mask as i32,
    ;
}

} // verus!
