use vstd::prelude::*;
use crate::container::{
    descs_end, format_flag, has_transform_section, mesh_count, meshes_res, pol_res, signature,
    transform_count, transform_res, transforms_res,
};
use crate::decode::{
    material_res, materials_res, mesh_mask, mesh_mat_count_pos, mesh_res, names_res,
};
use crate::format::{vertex_len, PolError};
use crate::reader::{le32, name_at};

verus! {

/// `d2` holds the same bytes as `d` below `k`, as far as `d2` reaches.
pub open spec fn same_prefix(d: Seq<u8>, d2: Seq<u8>, k: int) -> bool {
    forall|i: int| 0 <= i < k && i < d2.len() ==> #[trigger] d2[i] == d[i]
}

/// What a step that ends at `e` on `d` gives on `d2`: the same end when `d2`
/// reaches it, else `Truncated`.
pub open spec fn expected_on(e: int, d2: Seq<u8>) -> Result<int, PolError> {
    if e <= d2.len() {
        Ok(e)
    } else {
        Err(PolError::Truncated)
    }
}

proof fn lemma_name_same(d: Seq<u8>, d2: Seq<u8>, p: int, k: int)
    requires
        same_prefix(d, d2, k),
        0 <= p,
        p + 64 <= k,
        p + 64 <= d.len(),
        p + 64 <= d2.len(),
    ensures
        name_at(d2, p) == name_at(d, p),
{
    assert(d2.subrange(p, p + 64) =~= d.subrange(p, p + 64));
}

proof fn lemma_names_bounds(d: Seq<u8>, p: int, n: int)
    requires
        names_res(d, p, n) is Ok,
    ensures
        p <= names_res(d, p, n)->Ok_0,
        n > 0 ==> p + 64 <= names_res(d, p, n)->Ok_0 <= d.len(),
    decreases n,
{
    if n > 0 {
        lemma_names_bounds(d, p + 64, n - 1);
    }
}

proof fn lemma_names_transfer(d: Seq<u8>, d2: Seq<u8>, p: int, n: int)
    requires
        names_res(d, p, n) is Ok,
        0 <= p <= d2.len(),
        same_prefix(d, d2, names_res(d, p, n)->Ok_0),
    ensures
        names_res(d2, p, n) == expected_on(names_res(d, p, n)->Ok_0, d2),
    decreases n,
{
    let e = names_res(d, p, n)->Ok_0;
    lemma_names_bounds(d, p, n);
    if n > 0 {
        if p + 64 <= d2.len() {
            lemma_name_same(d, d2, p, e);
            lemma_names_bounds(d, p + 64, n - 1);
            lemma_names_transfer(d, d2, p + 64, n - 1);
        }
    }
}

proof fn lemma_material_bounds(d: Seq<u8>, q: int)
    requires
        material_res(d, q) is Ok,
    ensures
        q + 76 <= material_res(d, q)->Ok_0 <= d.len(),
{
    lemma_names_bounds(d, q + 76, le32(d, q + 72));
}

proof fn lemma_material_transfer(d: Seq<u8>, d2: Seq<u8>, q: int)
    requires
        material_res(d, q) is Ok,
        0 <= q <= d2.len(),
        same_prefix(d, d2, material_res(d, q)->Ok_0),
    ensures
        material_res(d2, q) == expected_on(material_res(d, q)->Ok_0, d2),
{
    lemma_material_bounds(d, q);
    if q + 76 <= d2.len() {
        assert(le32(d2, q + 72) == le32(d, q + 72));
        lemma_names_transfer(d, d2, q + 76, le32(d, q + 72));
    }
}

proof fn lemma_materials_bounds(d: Seq<u8>, q: int, n: int)
    requires
        materials_res(d, q, n) is Ok,
    ensures
        q <= materials_res(d, q, n)->Ok_0,
        n > 0 ==> materials_res(d, q, n)->Ok_0 <= d.len(),
    decreases n,
{
    if n > 0 {
        lemma_material_bounds(d, q);
        let e = material_res(d, q)->Ok_0;
        lemma_materials_bounds(d, e, n - 1);
    }
}

proof fn lemma_materials_transfer(d: Seq<u8>, d2: Seq<u8>, q: int, n: int)
    requires
        materials_res(d, q, n) is Ok,
        0 <= q <= d2.len(),
        same_prefix(d, d2, materials_res(d, q, n)->Ok_0),
    ensures
        materials_res(d2, q, n) == expected_on(materials_res(d, q, n)->Ok_0, d2),
    decreases n,
{
    if n > 0 {
        lemma_material_bounds(d, q);
        let e = material_res(d, q)->Ok_0;
        lemma_materials_bounds(d, e, n - 1);
        lemma_material_transfer(d, d2, q);
        if e <= d2.len() {
            lemma_materials_transfer(d, d2, e, n - 1);
        }
    }
}

proof fn lemma_vertices_span(n: int, k: int)
    requires
        0 <= n,
        0 <= k,
    ensures
        0 <= n * k,
{
    assert(0 <= n * k) by (nonlinear_arith)
        requires
            0 <= n,
            0 <= k,
    ;
}

proof fn lemma_mesh_bounds(d: Seq<u8>, p: int)
    requires
        mesh_res(d, p) is Ok,
    ensures
        p + 32 <= mesh_mat_count_pos(d, p),
        mesh_mat_count_pos(d, p) + 4 <= mesh_res(d, p)->Ok_0 <= d.len(),
{
    lemma_vertices_span(le32(d, p + 28), vertex_len(mesh_mask(d, p)));
    let q = mesh_mat_count_pos(d, p);
    lemma_materials_bounds(d, q + 4, le32(d, q));
}

proof fn lemma_mesh_transfer(d: Seq<u8>, d2: Seq<u8>, p: int)
    requires
        mesh_res(d, p) is Ok,
        0 <= p <= d2.len(),
        same_prefix(d, d2, mesh_res(d, p)->Ok_0),
    ensures
        mesh_res(d2, p) == expected_on(mesh_res(d, p)->Ok_0, d2),
{
    lemma_mesh_bounds(d, p);
    let e = mesh_res(d, p)->Ok_0;
    if p + 32 <= d2.len() {
        assert(le32(d2, p + 24) == le32(d, p + 24));
        assert(le32(d2, p + 28) == le32(d, p + 28));
        assert(mesh_mat_count_pos(d2, p) == mesh_mat_count_pos(d, p));
        let q = mesh_mat_count_pos(d, p);
        if q + 4 <= d2.len() {
            assert(le32(d2, q) == le32(d, q));
            lemma_materials_bounds(d, q + 4, le32(d, q));
            lemma_materials_transfer(d, d2, q + 4, le32(d, q));
            let t = materials_res(d, q + 4, le32(d, q))->Ok_0;
            if t + 16 <= d2.len() {
                assert(le32(d2, t + 12) == le32(d, t + 12));
            }
        }
    }
}

proof fn lemma_meshes_bounds(d: Seq<u8>, p: int, n: int)
    requires
        meshes_res(d, p, n) is Ok,
    ensures
        p <= meshes_res(d, p, n)->Ok_0,
    decreases n,
{
    if n > 0 {
        lemma_mesh_bounds(d, p);
        lemma_meshes_bounds(d, mesh_res(d, p)->Ok_0, n - 1);
    }
}

proof fn lemma_meshes_transfer(d: Seq<u8>, d2: Seq<u8>, p: int, n: int)
    requires
        meshes_res(d, p, n) is Ok,
        0 <= p <= d2.len(),
        same_prefix(d, d2, meshes_res(d, p, n)->Ok_0),
    ensures
        meshes_res(d2, p, n) == expected_on(meshes_res(d, p, n)->Ok_0, d2),
    decreases n,
{
    if n > 0 {
        lemma_mesh_bounds(d, p);
        let e = mesh_res(d, p)->Ok_0;
        lemma_meshes_bounds(d, e, n - 1);
        lemma_mesh_transfer(d, d2, p);
        if e <= d2.len() {
            lemma_meshes_transfer(d, d2, e, n - 1);
        }
    }
}

proof fn lemma_transforms_bounds(d: Seq<u8>, p: int, n: int)
    requires
        transforms_res(d, p, n) is Ok,
    ensures
        p <= transforms_res(d, p, n)->Ok_0,
    decreases n,
{
    if n > 0 {
        lemma_transforms_bounds(d, transform_res(d, p)->Ok_0, n - 1);
    }
}

proof fn lemma_transforms_transfer(d: Seq<u8>, d2: Seq<u8>, p: int, n: int)
    requires
        transforms_res(d, p, n) is Ok,
        0 <= p <= d2.len(),
        same_prefix(d, d2, transforms_res(d, p, n)->Ok_0),
    ensures
        transforms_res(d2, p, n) == expected_on(transforms_res(d, p, n)->Ok_0, d2),
    decreases n,
{
    if n > 0 {
        let e = transform_res(d, p)->Ok_0;
        lemma_transforms_bounds(d, e, n - 1);
        if p + 104 <= d2.len() {
            assert(le32(d2, p + 100) == le32(d, p + 100));
            if e <= d2.len() {
                lemma_transforms_transfer(d, d2, e, n - 1);
            }
        }
    }
}

/// Decoding succeeds exactly when the source covers every span the counts
/// declare. Take a container `d` that decodes, whose last mesh ends at `e`.
/// Any bytes `d2` that hold the same values as `d` below `e`, as far as they
/// reach, decode to the same end when they are at least `e` long (trailing
/// bytes are ignored), and fail with `Truncated` when they are shorter.
pub proof fn lemma_success_iff_spans_fit(d: Seq<u8>, d2: Seq<u8>)
    requires
        pol_res(d) is Ok,
        same_prefix(d, d2, pol_res(d)->Ok_0),
    ensures
        d2.len() >= 4 ==> pol_res(d2) == expected_on(pol_res(d)->Ok_0, d2),
        d2.len() < 4 ==> pol_res(d2) == Err::<int, PolError>(PolError::Truncated),
{
    let e = pol_res(d)->Ok_0;
    let de = descs_end(d);
    lemma_vertices_span(mesh_count(d), 52);
    let m = if has_transform_section(d) {
        transforms_res(d, de + 4, transform_count(d))->Ok_0
    } else {
        de
    };
    if has_transform_section(d) {
        lemma_transforms_bounds(d, de + 4, transform_count(d));
    }
    lemma_meshes_bounds(d, m, mesh_count(d));
    if d2.len() >= 4 {
        assert(d2.take(4) =~= d.take(4));
        if d2.len() >= 12 {
            assert(format_flag(d2) == format_flag(d));
            assert(mesh_count(d2) == mesh_count(d));
            if de <= d2.len() {
                if has_transform_section(d) {
                    if de + 4 <= d2.len() {
                        assert(transform_count(d2) == transform_count(d));
                        lemma_transforms_transfer(d, d2, de + 4, transform_count(d));
                        if m <= d2.len() {
                            lemma_meshes_transfer(d, d2, m, mesh_count(d));
                        }
                    }
                } else {
                    lemma_meshes_transfer(d, d2, m, mesh_count(d));
                }
            }
        }
    }
}

} // verus!
