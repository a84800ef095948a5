use vstd::prelude::*;
use crate::format::{
    block_len, clamp_bits, clamp_param, has_bit, mask_is_valid, vertex_len, PolError,
    VertexComponent, POSITION, TEX_COORD, UNKNOWN100, UNKNOWN2, UNKNOWN20, UNKNOWN4, UNKNOWN40,
    UNKNOWN8, UNKNOWN80,
};
use crate::model::{
    PolMaterialInfo, PolMesh, PolTriangle, PolVertex, PolVertexPosition, PolVertexTexCoord,
};
use crate::reader::{le16, le32, name_at, read_bytes, read_name, read_u16, read_u32};

verus! {

/// The `n` little-endian 32-bit words stored from `p` on.
pub open spec fn words(d: Seq<u8>, p: int, n: int) -> Seq<u32> {
    Seq::new(n as nat, |i: int| le32(d, p + 4 * i) as u32)
}

/// An optional block: `Some` of the `n` words at `p` when `present`, else `None`.
pub open spec fn block_at(d: Seq<u8>, p: int, present: bool, n: int, b: Option<Seq<u32>>) -> bool {
    if present {
        b == Some(words(d, p, n))
    } else {
        b is None
    }
}

/// The words of an optional block, if present.
pub open spec fn opt_view<const N: usize>(b: Option<[u32; N]>) -> Option<Seq<u32>> {
    match b {
        Some(a) => Some(a@),
        None => None,
    }
}

/// `v` is the vertex stored at `p` under `mask`, its blocks packed in bit order.
pub open spec fn vertex_at(d: Seq<u8>, p: int, mask: u32, v: PolVertex) -> bool {
    let o2 = p + 12;
    let o4 = o2 + block_len(mask, 0x2, 12);
    let o8 = o4 + block_len(mask, 0x4, 4);
    let ot = o8 + block_len(mask, 0x8, 4);
    let o20 = ot + 8;
    let o40 = o20 + block_len(mask, 0x20, 8);
    let o80 = o40 + block_len(mask, 0x40, 8);
    let o100 = o80 + block_len(mask, 0x80, 8);
    &&& v.position.x as int == le32(d, p)
    &&& v.position.y as int == le32(d, p + 4)
    &&& v.position.z as int == le32(d, p + 8)
    &&& block_at(d, o2, has_bit(mask, 0x2), 3, opt_view(v.unknown2))
    &&& block_at(d, o4, has_bit(mask, 0x4), 1, opt_view(v.unknown4))
    &&& block_at(d, o8, has_bit(mask, 0x8), 1, opt_view(v.unknown8))
    &&& v.tex_coord.u as int == le32(d, ot)
    &&& v.tex_coord.v as int == le32(d, ot + 4)
    &&& block_at(d, o20, has_bit(mask, 0x20), 2, opt_view(v.unknown20))
    &&& block_at(d, o40, has_bit(mask, 0x40), 2, opt_view(v.unknown40))
    &&& block_at(d, o80, has_bit(mask, 0x80), 2, opt_view(v.unknown80))
    &&& block_at(d, o100, has_bit(mask, 0x100), 4, opt_view(v.unknown100))
}

/// The word at `p`; the caller has checked that four bytes remain.
pub(crate) fn word_at(d: &[u8], p: usize) -> (r: u32)
    requires
        p + 4 <= d@.len(),
    ensures
        r as int == le32(d@, p as int),
{
    let mut q = p;
    match read_u32(d, &mut q) {
        Ok(v) => v,
        Err(_) => 0,
    }
}

/// The word at `p`, as a one-word block.
fn block1(d: &[u8], p: usize) -> (r: [u32; 1])
    requires
        p + 4 <= d@.len(),
    ensures
        r@ == words(d@, p as int, 1),
{
    // Reading the length bounds `d@.len()` by `usize::MAX` for the offsets below.
    let _len = d.len();
    let a = [word_at(d, p)];
    assert(a@ =~= words(d@, p as int, 1));
    a
}

/// The two words at `p`.
fn block2(d: &[u8], p: usize) -> (r: [u32; 2])
    requires
        p + 8 <= d@.len(),
    ensures
        r@ == words(d@, p as int, 2),
{
    // Reading the length bounds `d@.len()` by `usize::MAX` for the offsets below.
    let _len = d.len();
    let a = [word_at(d, p), word_at(d, p + 4)];
    assert(a@ =~= words(d@, p as int, 2));
    a
}

/// The three words at `p`.
pub(crate) fn block3(d: &[u8], p: usize) -> (r: [u32; 3])
    requires
        p + 12 <= d@.len(),
    ensures
        r@ == words(d@, p as int, 3),
{
    // Reading the length bounds `d@.len()` by `usize::MAX` for the offsets below.
    let _len = d.len();
    let a = [word_at(d, p), word_at(d, p + 4), word_at(d, p + 8)];
    assert(a@ =~= words(d@, p as int, 3));
    a
}

/// The four words at `p`.
fn block4(d: &[u8], p: usize) -> (r: [u32; 4])
    requires
        p + 16 <= d@.len(),
    ensures
        r@ == words(d@, p as int, 4),
{
    // Reading the length bounds `d@.len()` by `usize::MAX` for the offsets below.
    let _len = d.len();
    let a = [word_at(d, p), word_at(d, p + 4), word_at(d, p + 8), word_at(d, p + 12)];
    assert(a@ =~= words(d@, p as int, 4));
    a
}

/// Bytes of one vertex under `mask`.
fn vertex_len_of(mask: u32) -> (r: usize)
    ensures
        r as int == vertex_len(mask),
{
    let mut n: usize = 20;
    if mask & 0x2 != 0 {
        n += 12;
    }
    if mask & 0x4 != 0 {
        n += 4;
    }
    if mask & 0x8 != 0 {
        n += 4;
    }
    if mask & 0x20 != 0 {
        n += 8;
    }
    if mask & 0x40 != 0 {
        n += 8;
    }
    if mask & 0x80 != 0 {
        n += 8;
    }
    if mask & 0x100 != 0 {
        n += 16;
    }
    n
}

/// Decodes one vertex at `*pos` under `mask`: the position, then each
/// block whose bit is set, in bit order, with the texture coordinate after
/// the 0x8 block. Fails with `MissingMandatoryAttribute` when the mask lacks
/// Position or TexCoord, else with `Truncated` when fewer bytes remain than
/// the vertex takes.
#[verifier::rlimit(50)]
pub fn read_vertex(d: &[u8], pos: &mut usize, mask: u32) -> (r: Result<PolVertex, PolError>)
    requires
        *old(pos) <= d@.len(),
    ensures
        match r {
            Ok(v) => mask_is_valid(mask) && *old(pos) + vertex_len(mask) <= d@.len() && vertex_at(
                d@,
                *old(pos) as int,
                mask,
                v,
            ) && *final(pos) == *old(pos) + vertex_len(mask),
            Err(e) => *final(pos) == *old(pos) && if !mask_is_valid(mask) {
                e == PolError::MissingMandatoryAttribute
            } else {
                e == PolError::Truncated && *old(pos) + vertex_len(mask) > d@.len()
            },
        },
{
    let vc = VertexComponent(mask);
    if !vc.has(VertexComponent(POSITION)) || !vc.has(VertexComponent(TEX_COORD)) {
        return Err(PolError::MissingMandatoryAttribute);
    }
    let len = vertex_len_of(mask);
    if d.len() - *pos < len {
        return Err(PolError::Truncated);
    }
    let mut p = *pos;
    let position = PolVertexPosition { x: word_at(d, p), y: word_at(d, p + 4), z: word_at(d, p + 8) };
    p = p + 12;
    let unknown2 = if vc.has(VertexComponent(UNKNOWN2)) {
        let a = block3(d, p);
        p = p + 12;
        Some(a)
    } else {
        None
    };
    let unknown4 = if vc.has(VertexComponent(UNKNOWN4)) {
        let a = block1(d, p);
        p = p + 4;
        Some(a)
    } else {
        None
    };
    let unknown8 = if vc.has(VertexComponent(UNKNOWN8)) {
        let a = block1(d, p);
        p = p + 4;
        Some(a)
    } else {
        None
    };
    let tex_coord = PolVertexTexCoord { u: word_at(d, p), v: word_at(d, p + 4) };
    p = p + 8;
    let unknown20 = if vc.has(VertexComponent(UNKNOWN20)) {
        let a = block2(d, p);
        p = p + 8;
        Some(a)
    } else {
        None
    };
    let unknown40 = if vc.has(VertexComponent(UNKNOWN40)) {
        let a = block2(d, p);
        p = p + 8;
        Some(a)
    } else {
        None
    };
    let unknown80 = if vc.has(VertexComponent(UNKNOWN80)) {
        let a = block2(d, p);
        p = p + 8;
        Some(a)
    } else {
        None
    };
    let unknown100 = if vc.has(VertexComponent(UNKNOWN100)) {
        let a = block4(d, p);
        p = p + 16;
        Some(a)
    } else {
        None
    };
    let v = PolVertex {
        position,
        unknown2,
        unknown4,
        unknown8,
        tex_coord,
        unknown20,
        unknown40,
        unknown80,
        unknown100,
    };
    *pos = p;
    Ok(v)
}

} // verus!

verus! {

/// End of the `n` names stored from `p`, or the first error met reading them.
pub open spec fn names_res(d: Seq<u8>, p: int, n: int) -> Result<int, PolError>
    decreases n,
{
    if n <= 0 {
        Ok(p)
    } else if p + 64 > d.len() {
        Err(PolError::Truncated)
    } else if name_at(d, p) is None {
        Err(PolError::InvalidText)
    } else {
        names_res(d, p + 64, n - 1)
    }
}

/// End of the material record at `q`, or the first error met reading it.
pub open spec fn material_res(d: Seq<u8>, q: int) -> Result<int, PolError> {
    if q + 76 > d.len() {
        Err(PolError::Truncated)
    } else {
        names_res(d, q + 76, le32(d, q + 72))
    }
}

/// `m` holds the fields of the material record at `q`, its parameter clamped.
pub open spec fn material_at(d: Seq<u8>, q: int, m: PolMaterialInfo) -> bool {
    &&& m.unknown_dw0 as int == le32(d, q)
    &&& m.unknown_68@ == d.subrange(q + 4, q + 68)
    &&& m.unknown_float == clamp_bits(le32(d, q + 68) as u32)
    &&& m.light_map_count as int == le32(d, q + 72)
    &&& m.light_map_names@.len() == le32(d, q + 72)
    &&& forall|j: int|
        0 <= j < m.light_map_names@.len() ==> name_at(d, q + 76 + 64 * j) == Some(
            #[trigger] m.light_map_names@[j]@,
        )
}

/// Decodes one material record at `*pos`: identifier, 64-byte blob, clamped
/// parameter, light-map count and that many 64-byte names.
pub fn read_material(d: &[u8], pos: &mut usize) -> (r: Result<PolMaterialInfo, PolError>)
    requires
        *old(pos) <= d@.len(),
    ensures
        *final(pos) <= d@.len(),
        match r {
            Ok(m) => material_res(d@, *old(pos) as int) == Ok::<int, PolError>(*final(pos) as int)
                && material_at(d@, *old(pos) as int, m),
            Err(e) => material_res(d@, *old(pos) as int) == Err::<int, PolError>(e),
        },
{
    let q = *pos;
    let unknown_dw0 = match read_u32(d, pos) {
        Ok(v) => v,
        Err(e) => return Err(e),
    };
    let unknown_68 = match read_bytes(d, pos, 64) {
        Ok(v) => v,
        Err(e) => return Err(e),
    };
    let raw = match read_u32(d, pos) {
        Ok(v) => v,
        Err(e) => return Err(e),
    };
    let unknown_float = clamp_param(raw);
    let light_map_count = match read_u32(d, pos) {
        Ok(v) => v,
        Err(e) => return Err(e),
    };
    let mut light_map_names: Vec<String> = Vec::new();
    let mut j: u32 = 0;
    while j < light_map_count
        invariant
            q == *old(pos),
            q + 76 <= d@.len(),
            *pos <= d@.len(),
            *pos == q + 76 + 64 * j,
            j <= light_map_count,
            light_map_count as int == le32(d@, q + 72),
            light_map_names@.len() == j,
            material_res(d@, q as int) == names_res(d@, *pos as int, light_map_count - j),
            forall|k: int|
                0 <= k < j ==> name_at(d@, q + 76 + 64 * k) == Some(
                    #[trigger] light_map_names@[k]@,
                ),
        decreases light_map_count - j,
    {
        let name = match read_name(d, pos) {
            Ok(v) => v,
            Err(e) => return Err(e),
        };
        light_map_names.push(name);
        j = j + 1;
    }
    Ok(PolMaterialInfo { unknown_dw0, unknown_68, unknown_float, light_map_count, light_map_names })
}

} // verus!

verus! {

/// Slot `i + 1` of `n` slots of `k` bytes starts `k` after slot `i` and ends
/// within the `n` slots.
proof fn lemma_next_slot(i: int, n: int, k: int)
    requires
        0 <= i < n,
        0 <= k,
    ensures
        i * k + k == (i + 1) * k,
        (i + 1) * k <= n * k,
{
    assert(i * k + k == (i + 1) * k) by (nonlinear_arith);
    assert((i + 1) * k <= n * k) by (nonlinear_arith)
        requires
            i + 1 <= n,
            0 <= k,
    ;
}

/// Decodes `n` vertices of `vertex_len(mask)` bytes each from `*pos`. Fails
/// with `MissingMandatoryAttribute` when `n > 0` and the mask lacks Position or
/// TexCoord, else with `Truncated` when the vertices do not fit.
pub fn read_vertices(d: &[u8], pos: &mut usize, mask: u32, n: u32) -> (r: Result<
    Vec<PolVertex>,
    PolError,
>)
    requires
        *old(pos) <= d@.len(),
    ensures
        *final(pos) <= d@.len(),
        match r {
            Ok(vs) => (n > 0 ==> mask_is_valid(mask)) && *old(pos) + n * vertex_len(mask)
                <= d@.len() && *final(pos) == *old(pos) + n * vertex_len(mask) && vs@.len() == n
                && forall|i: int|
                0 <= i < n ==> vertex_at(
                    d@,
                    *old(pos) + i * vertex_len(mask),
                    mask,
                    #[trigger] vs@[i],
                ),
            Err(e) => n > 0 && if !mask_is_valid(mask) {
                e == PolError::MissingMandatoryAttribute
            } else {
                e == PolError::Truncated && *old(pos) + n * vertex_len(mask) > d@.len()
            },
        },
{
    let p = *pos;
    let mut vs: Vec<PolVertex> = Vec::new();
    let mut i: u32 = 0;
    while i < n
        invariant
            p == *old(pos),
            *pos <= d@.len(),
            i <= n,
            i > 0 ==> mask_is_valid(mask),
            *pos == p + i * vertex_len(mask),
            vs@.len() == i,
            forall|k: int|
                0 <= k < i ==> vertex_at(d@, p + k * vertex_len(mask), mask, #[trigger] vs@[k]),
        decreases n - i,
    {
        proof {
            lemma_next_slot(i as int, n as int, vertex_len(mask));
        }
        let v = match read_vertex(d, pos, mask) {
            Ok(v) => v,
            Err(e) => return Err(e),
        };
        vs.push(v);
        i = i + 1;
    }
    Ok(vs)
}

/// End of the `n` material records stored from `q`, or the first error.
pub open spec fn materials_res(d: Seq<u8>, q: int, n: int) -> Result<int, PolError>
    decreases n,
{
    if n <= 0 {
        Ok(q)
    } else {
        match material_res(d, q) {
            Ok(e) => materials_res(d, e, n - 1),
            Err(x) => Err(x),
        }
    }
}

/// The end position of a successful step.
pub open spec fn res_end(r: Result<int, PolError>) -> int {
    match r {
        Ok(e) => e,
        Err(_) => 0,
    }
}

/// Start of the `i`-th material record of a sequence starting at `q`.
pub open spec fn material_pos(d: Seq<u8>, q: int, i: int) -> int
    decreases i,
{
    if i <= 0 {
        q
    } else {
        res_end(material_res(d, material_pos(d, q, i - 1)))
    }
}

/// Decodes `n` consecutive material records from `*pos`.
pub fn read_materials(d: &[u8], pos: &mut usize, n: u32) -> (r: Result<
    Vec<PolMaterialInfo>,
    PolError,
>)
    requires
        *old(pos) <= d@.len(),
    ensures
        *final(pos) <= d@.len(),
        match r {
            Ok(ms) => materials_res(d@, *old(pos) as int, n as int) == Ok::<int, PolError>(
                *final(pos) as int,
            ) && *final(pos) == material_pos(d@, *old(pos) as int, n as int) && ms@.len() == n
                && forall|i: int|
                0 <= i < n ==> material_at(
                    d@,
                    material_pos(d@, *old(pos) as int, i),
                    #[trigger] ms@[i],
                ),
            Err(e) => materials_res(d@, *old(pos) as int, n as int) == Err::<int, PolError>(e),
        },
{
    let p = *pos;
    let mut ms: Vec<PolMaterialInfo> = Vec::new();
    let mut i: u32 = 0;
    while i < n
        invariant
            p == *old(pos),
            *pos <= d@.len(),
            i <= n,
            *pos == material_pos(d@, p as int, i as int),
            materials_res(d@, p as int, n as int) == materials_res(d@, *pos as int, n - i),
            ms@.len() == i,
            forall|k: int|
                0 <= k < i ==> material_at(d@, material_pos(d@, p as int, k), #[trigger] ms@[k]),
        decreases n - i,
    {
        let m = match read_material(d, pos) {
            Ok(m) => m,
            Err(e) => return Err(e),
        };
        ms.push(m);
        i = i + 1;
    }
    Ok(ms)
}

/// `t` holds the three little-endian indices stored at `p`.
pub open spec fn triangle_at(d: Seq<u8>, p: int, t: PolTriangle) -> bool {
    t.indices@ == seq![le16(d, p) as u16, le16(d, p + 2) as u16, le16(d, p + 4) as u16]
}

/// Decodes `n` triangles of three `u16` indices each from `*pos`; fails with
/// `Truncated` exactly when they do not fit.
pub fn read_triangles(d: &[u8], pos: &mut usize, n: u32) -> (r: Result<
    Vec<PolTriangle>,
    PolError,
>)
    requires
        *old(pos) <= d@.len(),
    ensures
        *final(pos) <= d@.len(),
        match r {
            Ok(ts) => *old(pos) + 6 * n <= d@.len() && *final(pos) == *old(pos) + 6 * n
                && ts@.len() == n && forall|i: int|
                0 <= i < n ==> triangle_at(d@, *old(pos) + 6 * i, #[trigger] ts@[i]),
            Err(e) => e == PolError::Truncated && *old(pos) + 6 * n > d@.len(),
        },
{
    let p = *pos;
    let mut ts: Vec<PolTriangle> = Vec::new();
    let mut i: u32 = 0;
    while i < n
        invariant
            p == *old(pos),
            *pos <= d@.len(),
            i <= n,
            *pos == p + 6 * i,
            ts@.len() == i,
            forall|k: int| 0 <= k < i ==> triangle_at(d@, p + 6 * k, #[trigger] ts@[k]),
        decreases n - i,
    {
        let a = match read_u16(d, pos) {
            Ok(v) => v,
            Err(e) => return Err(e),
        };
        let b = match read_u16(d, pos) {
            Ok(v) => v,
            Err(e) => return Err(e),
        };
        let c = match read_u16(d, pos) {
            Ok(v) => v,
            Err(e) => return Err(e),
        };
        let t = PolTriangle { indices: [a, b, c] };
        assert(t.indices@ =~= seq![a, b, c]);
        ts.push(t);
        i = i + 1;
    }
    Ok(ts)
}

} // verus!

verus! {

/// Vertex format mask of the mesh stored at `p`.
pub open spec fn mesh_mask(d: Seq<u8>, p: int) -> u32 {
    le32(d, p + 24) as u32
}

/// Where the material count of the mesh at `p` is stored: after the box, the
/// mask, the vertex count and the vertices.
pub open spec fn mesh_mat_count_pos(d: Seq<u8>, p: int) -> int {
    p + 32 + le32(d, p + 28) * vertex_len(mesh_mask(d, p))
}

/// Where the three counters of the mesh at `p` are stored, after its materials.
pub open spec fn mesh_tail_pos(d: Seq<u8>, p: int) -> int {
    let q = mesh_mat_count_pos(d, p);
    material_pos(d, q + 4, le32(d, q))
}

/// End of the mesh stored at `p`, or the first error met reading it.
pub open spec fn mesh_res(d: Seq<u8>, p: int) -> Result<int, PolError> {
    let q = mesh_mat_count_pos(d, p);
    if p + 32 > d.len() {
        Err(PolError::Truncated)
    } else if le32(d, p + 28) > 0 && !mask_is_valid(mesh_mask(d, p)) {
        Err(PolError::MissingMandatoryAttribute)
    } else if q + 4 > d.len() {
        Err(PolError::Truncated)
    } else {
        match materials_res(d, q + 4, le32(d, q)) {
            Err(e) => Err(e),
            Ok(t) => if t + 16 > d.len() || t + 16 + 6 * le32(d, t + 12) > d.len() {
                Err(PolError::Truncated)
            } else {
                Ok(t + 16 + 6 * le32(d, t + 12))
            },
        }
    }
}

/// `m` holds the fields of the mesh stored at `p`.
pub open spec fn mesh_at(d: Seq<u8>, p: int, m: PolMesh) -> bool {
    let mask = mesh_mask(d, p);
    let q = mesh_mat_count_pos(d, p);
    let t = mesh_tail_pos(d, p);
    &&& m.aabb_min@ == words(d, p, 3)
    &&& m.aabb_max@ == words(d, p + 12, 3)
    &&& m.vertex_type.0 == mask
    &&& m.vertex_count as int == le32(d, p + 28)
    &&& m.vertices@.len() == m.vertex_count
    &&& forall|i: int|
        0 <= i < m.vertices@.len() ==> vertex_at(
            d,
            p + 32 + i * vertex_len(mask),
            mask,
            #[trigger] m.vertices@[i],
        )
    &&& m.material_info_count as int == le32(d, q)
    &&& m.material_info@.len() == m.material_info_count
    &&& forall|i: int|
        0 <= i < m.material_info@.len() ==> material_at(
            d,
            material_pos(d, q + 4, i),
            #[trigger] m.material_info@[i],
        )
    &&& m.unknown2 as int == le32(d, t)
    &&& m.unknown3 as int == le32(d, t + 4)
    &&& m.unknown4 as int == le32(d, t + 8)
    &&& m.triangle_count as int == le32(d, t + 12)
    &&& m.triangles@.len() == m.triangle_count
    &&& forall|i: int|
        0 <= i < m.triangles@.len() ==> triangle_at(d, t + 16 + 6 * i, #[trigger] m.triangles@[i])
}

/// Reads the three `f32` bit patterns of a bounding-box corner.
fn read_vec3(d: &[u8], pos: &mut usize) -> (r: Result<[u32; 3], PolError>)
    requires
        *old(pos) <= d@.len(),
    ensures
        match r {
            Ok(a) => *old(pos) + 12 <= d@.len() && a@ == words(d@, *old(pos) as int, 3)
                && *final(pos) == *old(pos) + 12,
            Err(e) => e == PolError::Truncated && *old(pos) + 12 > d@.len() && *final(pos)
                == *old(pos),
        },
{
    if d.len() - *pos < 12 {
        return Err(PolError::Truncated);
    }
    let a = block3(d, *pos);
    *pos = *pos + 12;
    Ok(a)
}

/// Decodes one mesh at `*pos`: bounding box, mask, vertices, materials, three
/// counters and triangles.
pub fn read_pol_mesh(d: &[u8], pos: &mut usize) -> (r: Result<PolMesh, PolError>)
    requires
        *old(pos) <= d@.len(),
    ensures
        *final(pos) <= d@.len(),
        match r {
            Ok(m) => mesh_res(d@, *old(pos) as int) == Ok::<int, PolError>(*final(pos) as int)
                && mesh_at(d@, *old(pos) as int, m),
            Err(e) => mesh_res(d@, *old(pos) as int) == Err::<int, PolError>(e),
        },
{
    let p = *pos;
    if d.len() - *pos < 32 {
        return Err(PolError::Truncated);
    }
    let aabb_min = match read_vec3(d, pos) {
        Ok(v) => v,
        Err(e) => return Err(e),
    };
    let aabb_max = match read_vec3(d, pos) {
        Ok(v) => v,
        Err(e) => return Err(e),
    };
    let mask = match read_u32(d, pos) {
        Ok(v) => v,
        Err(e) => return Err(e),
    };
    let vertex_count = match read_u32(d, pos) {
        Ok(v) => v,
        Err(e) => return Err(e),
    };
    let vertices = match read_vertices(d, pos, mask, vertex_count) {
        Ok(v) => v,
        Err(e) => return Err(e),
    };
    let material_info_count = match read_u32(d, pos) {
        Ok(v) => v,
        Err(e) => return Err(e),
    };
    let material_info = match read_materials(d, pos, material_info_count) {
        Ok(v) => v,
        Err(e) => return Err(e),
    };
    let t = *pos;
    let unknown2 = match read_u32(d, pos) {
        Ok(v) => v,
        Err(e) => return Err(e),
    };
    let unknown3 = match read_u32(d, pos) {
        Ok(v) => v,
        Err(e) => return Err(e),
    };
    let unknown4 = match read_u32(d, pos) {
        Ok(v) => v,
        Err(e) => return Err(e),
    };
    let triangle_count = match read_u32(d, pos) {
        Ok(v) => v,
        Err(e) => return Err(e),
    };
    let triangles = match read_triangles(d, pos, triangle_count) {
        Ok(v) => v,
        Err(e) => return Err(e),
    };
    Ok(
        PolMesh {
            aabb_min,
            aabb_max,
            vertex_type: VertexComponent(mask),
            vertex_count,
            vertices,
            material_info_count,
            material_info,
            unknown2,
            unknown3,
            unknown4,
            triangle_count,
            triangles,
        },
    )
}

} // verus!
