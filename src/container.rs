use vstd::prelude::*;
use crate::decode::{mesh_at, mesh_res, read_pol_mesh, res_end, word_at, words};
use crate::format::PolError;
use crate::model::{GeomNodeDesc, PolFile, PolMesh, UnknownData};
use crate::reader::{le32, read_bytes, read_u32};

verus! {

/// Format flags above this value announce the transform-node section.
pub const TRANSFORM_FLAG_THRESHOLD: u32 = 100;

/// The signature `POLY` that opens every container.
pub open spec fn signature() -> Seq<u8> {
    seq![0x50u8, 0x4Fu8, 0x4Cu8, 0x59u8]
}

/// End of the transform node stored at `p`, or `Truncated`.
pub open spec fn transform_res(d: Seq<u8>, p: int) -> Result<int, PolError> {
    if p + 104 > d.len() || p + 104 + le32(d, p + 100) > d.len() {
        Err(PolError::Truncated)
    } else {
        Ok(p + 104 + le32(d, p + 100))
    }
}

/// `u` holds the fields of the transform node stored at `p`.
pub open spec fn transform_at(d: Seq<u8>, p: int, u: UnknownData) -> bool {
    &&& u.unknown@ == d.subrange(p, p + 32)
    &&& u.matrix@ == words(d, p + 32, 16)
    &&& u.unknown2 as int == le32(d, p + 96)
    &&& u.str_len as int == le32(d, p + 100)
    &&& u.ddd_str@ == d.subrange(p + 104, p + 104 + le32(d, p + 100))
}

/// End of the `n` transform nodes stored from `p`, or the first error.
pub open spec fn transforms_res(d: Seq<u8>, p: int, n: int) -> Result<int, PolError>
    decreases n,
{
    if n <= 0 {
        Ok(p)
    } else {
        match transform_res(d, p) {
            Ok(e) => transforms_res(d, e, n - 1),
            Err(x) => Err(x),
        }
    }
}

/// Start of the `i`-th transform node of a sequence starting at `p`.
pub open spec fn transform_pos(d: Seq<u8>, p: int, i: int) -> int
    decreases i,
{
    if i <= 0 {
        p
    } else {
        res_end(transform_res(d, transform_pos(d, p, i - 1)))
    }
}

/// End of the `n` meshes stored from `p`, or the first error.
pub open spec fn meshes_res(d: Seq<u8>, p: int, n: int) -> Result<int, PolError>
    decreases n,
{
    if n <= 0 {
        Ok(p)
    } else {
        match mesh_res(d, p) {
            Ok(e) => meshes_res(d, e, n - 1),
            Err(x) => Err(x),
        }
    }
}

/// Start of the `i`-th mesh of a sequence starting at `p`.
pub open spec fn mesh_pos(d: Seq<u8>, p: int, i: int) -> int
    decreases i,
{
    if i <= 0 {
        p
    } else {
        res_end(mesh_res(d, mesh_pos(d, p, i - 1)))
    }
}

/// Reads the 16 `f32` bit patterns of a matrix, in stored order.
fn read_matrix(d: &[u8], pos: &mut usize) -> (r: Result<[u32; 16], PolError>)
    requires
        *old(pos) <= d@.len(),
    ensures
        match r {
            Ok(a) => *old(pos) + 64 <= d@.len() && a@ == words(d@, *old(pos) as int, 16)
                && *final(pos) == *old(pos) + 64,
            Err(e) => e == PolError::Truncated && *old(pos) + 64 > d@.len() && *final(pos)
                == *old(pos),
        },
{
    if d.len() - *pos < 64 {
        return Err(PolError::Truncated);
    }
    let p = *pos;
    let a = [
        word_at(d, p),
        word_at(d, p + 4),
        word_at(d, p + 8),
        word_at(d, p + 12),
        word_at(d, p + 16),
        word_at(d, p + 20),
        word_at(d, p + 24),
        word_at(d, p + 28),
        word_at(d, p + 32),
        word_at(d, p + 36),
        word_at(d, p + 40),
        word_at(d, p + 44),
        word_at(d, p + 48),
        word_at(d, p + 52),
        word_at(d, p + 56),
        word_at(d, p + 60),
    ];
    assert(a@ =~= words(d@, p as int, 16));
    *pos = p + 64;
    Ok(a)
}

/// Decodes one transform node at `*pos`.
pub fn read_transform_node(d: &[u8], pos: &mut usize) -> (r: Result<UnknownData, PolError>)
    requires
        *old(pos) <= d@.len(),
    ensures
        *final(pos) <= d@.len(),
        match r {
            Ok(u) => transform_res(d@, *old(pos) as int) == Ok::<int, PolError>(
                *final(pos) as int,
            ) && transform_at(d@, *old(pos) as int, u),
            Err(e) => transform_res(d@, *old(pos) as int) == Err::<int, PolError>(e),
        },
{
    if d.len() - *pos < 104 {
        return Err(PolError::Truncated);
    }
    let unknown = match read_bytes(d, pos, 32) {
        Ok(v) => v,
        Err(e) => return Err(e),
    };
    let matrix = match read_matrix(d, pos) {
        Ok(v) => v,
        Err(e) => return Err(e),
    };
    let unknown2 = match read_u32(d, pos) {
        Ok(v) => v,
        Err(e) => return Err(e),
    };
    let str_len = match read_u32(d, pos) {
        Ok(v) => v,
        Err(e) => return Err(e),
    };
    let ddd_str = match read_bytes(d, pos, str_len as usize) {
        Ok(v) => v,
        Err(e) => return Err(e),
    };
    Ok(UnknownData { unknown, matrix, unknown2, str_len, ddd_str })
}

} // verus!

verus! {

/// Format flag of the container `d`.
pub open spec fn format_flag(d: Seq<u8>) -> int {
    le32(d, 4)
}

/// Mesh count of the container `d`.
pub open spec fn mesh_count(d: Seq<u8>) -> int {
    le32(d, 8)
}

/// True when the container `d` carries the transform-node section.
pub open spec fn has_transform_section(d: Seq<u8>) -> bool {
    format_flag(d) > TRANSFORM_FLAG_THRESHOLD
}

/// Where the node descriptors end.
pub open spec fn descs_end(d: Seq<u8>) -> int {
    12 + 52 * mesh_count(d)
}

/// The declared number of transform nodes: the stored count when the section
/// is present, else zero.
pub open spec fn transform_count(d: Seq<u8>) -> int {
    if has_transform_section(d) {
        le32(d, descs_end(d))
    } else {
        0
    }
}

/// Where the first mesh starts.
pub open spec fn meshes_start(d: Seq<u8>) -> int {
    if has_transform_section(d) {
        transform_pos(d, descs_end(d) + 4, transform_count(d))
    } else {
        descs_end(d)
    }
}

/// Outcome of decoding the container `d`: where its last mesh ends, or the
/// first error met, in reading order.
pub open spec fn pol_res(d: Seq<u8>) -> Result<int, PolError> {
    if d.len() < 4 {
        Err(PolError::Truncated)
    } else if d.take(4) != signature() {
        Err(PolError::InvalidSignature)
    } else if d.len() < 12 || descs_end(d) > d.len() {
        Err(PolError::Truncated)
    } else if has_transform_section(d) && descs_end(d) + 4 > d.len() {
        Err(PolError::Truncated)
    } else {
        let t = if has_transform_section(d) {
            transforms_res(d, descs_end(d) + 4, transform_count(d))
        } else {
            Ok(descs_end(d))
        };
        match t {
            Err(x) => Err(x),
            Ok(m) => meshes_res(d, m, mesh_count(d)),
        }
    }
}

/// `f` holds every field of the container `d`.
pub open spec fn pol_at(d: Seq<u8>, f: PolFile) -> bool {
    &&& f.magic@ == signature()
    &&& f.some_flag as int == format_flag(d)
    &&& f.mesh_count as int == mesh_count(d)
    &&& f.geom_node_descs@.len() == f.mesh_count
    &&& forall|i: int|
        0 <= i < f.geom_node_descs@.len() ==> (#[trigger] f.geom_node_descs@[i]).unknown@
            == d.subrange(12 + 52 * i, 12 + 52 * i + 52)
    &&& f.unknown_count as int == transform_count(d)
    &&& f.unknown_data@.len() == f.unknown_count
    &&& forall|i: int|
        0 <= i < f.unknown_data@.len() ==> transform_at(
            d,
            transform_pos(d, descs_end(d) + 4, i),
            #[trigger] f.unknown_data@[i],
        )
    &&& f.meshes@.len() == f.mesh_count
    &&& forall|i: int|
        0 <= i < f.meshes@.len() ==> mesh_at(
            d,
            mesh_pos(d, meshes_start(d), i),
            #[trigger] f.meshes@[i],
        )
}

/// Decodes the `n` transform nodes stored from `*pos`.
fn read_transform_nodes(d: &[u8], pos: &mut usize, n: u32) -> (r: Result<
    Vec<UnknownData>,
    PolError,
>)
    requires
        *old(pos) <= d@.len(),
    ensures
        *final(pos) <= d@.len(),
        match r {
            Ok(us) => transforms_res(d@, *old(pos) as int, n as int) == Ok::<int, PolError>(
                *final(pos) as int,
            ) && *final(pos) == transform_pos(d@, *old(pos) as int, n as int) && us@.len() == n
                && forall|i: int|
                0 <= i < n ==> transform_at(
                    d@,
                    transform_pos(d@, *old(pos) as int, i),
                    #[trigger] us@[i],
                ),
            Err(e) => transforms_res(d@, *old(pos) as int, n as int) == Err::<int, PolError>(e),
        },
{
    let p = *pos;
    let mut us: Vec<UnknownData> = Vec::new();
    let mut i: u32 = 0;
    while i < n
        invariant
            p == *old(pos),
            *pos <= d@.len(),
            i <= n,
            *pos == transform_pos(d@, p as int, i as int),
            transforms_res(d@, p as int, n as int) == transforms_res(d@, *pos as int, n - i),
            us@.len() == i,
            forall|k: int|
                0 <= k < i ==> transform_at(d@, transform_pos(d@, p as int, k), #[trigger] us@[k]),
        decreases n - i,
    {
        let u = match read_transform_node(d, pos) {
            Ok(u) => u,
            Err(e) => return Err(e),
        };
        us.push(u);
        i = i + 1;
    }
    Ok(us)
}

/// Decodes the `n` meshes stored from `*pos`.
fn read_meshes(d: &[u8], pos: &mut usize, n: u32) -> (r: Result<Vec<PolMesh>, PolError>)
    requires
        *old(pos) <= d@.len(),
    ensures
        *final(pos) <= d@.len(),
        match r {
            Ok(ms) => meshes_res(d@, *old(pos) as int, n as int) == Ok::<int, PolError>(
                *final(pos) as int,
            ) && ms@.len() == n && forall|i: int|
                0 <= i < n ==> mesh_at(d@, mesh_pos(d@, *old(pos) as int, i), #[trigger] ms@[i]),
            Err(e) => meshes_res(d@, *old(pos) as int, n as int) == Err::<int, PolError>(e),
        },
{
    let p = *pos;
    let mut ms: Vec<PolMesh> = Vec::new();
    let mut i: u32 = 0;
    while i < n
        invariant
            p == *old(pos),
            *pos <= d@.len(),
            i <= n,
            *pos == mesh_pos(d@, p as int, i as int),
            meshes_res(d@, p as int, n as int) == meshes_res(d@, *pos as int, n - i),
            ms@.len() == i,
            forall|k: int| 0 <= k < i ==> mesh_at(d@, mesh_pos(d@, p as int, k), #[trigger] ms@[k]),
        decreases n - i,
    {
        let m = match read_pol_mesh(d, pos) {
            Ok(m) => m,
            Err(e) => return Err(e),
        };
        ms.push(m);
        i = i + 1;
    }
    Ok(ms)
}

/// Decodes a whole POL container held in `d`. Succeeds exactly when
/// `pol_res(d@)` does, and the result then holds every field as stored;
/// otherwise the error is the first one met in reading order.
pub fn pol_load_from_bytes(d: &[u8]) -> (r: Result<PolFile, PolError>)
    ensures
        match r {
            Ok(f) => pol_res(d@) is Ok && pol_at(d@, f),
            Err(e) => pol_res(d@) == Err::<int, PolError>(e),
        },
{
    if d.len() < 4 {
        return Err(PolError::Truncated);
    }
    let magic: [u8; 4] = [d[0], d[1], d[2], d[3]];
    if !(magic[0] == 0x50 && magic[1] == 0x4F && magic[2] == 0x4C && magic[3] == 0x59) {
        return Err(PolError::InvalidSignature);
    }
    assert(magic@ =~= signature());
    assert(d@.take(4) =~= signature());
    let mut pos: usize = 4;
    let some_flag = match read_u32(d, &mut pos) {
        Ok(v) => v,
        Err(e) => return Err(e),
    };
    let mesh_count = match read_u32(d, &mut pos) {
        Ok(v) => v,
        Err(e) => return Err(e),
    };
    let mut geom_node_descs: Vec<GeomNodeDesc> = Vec::new();
    let mut i: u32 = 0;
    while i < mesh_count
        invariant
            d@.take(4) == signature(),
            some_flag as int == format_flag(d@),
            mesh_count as int == le32(d@, 8),
            12 <= pos <= d@.len(),
            i <= mesh_count,
            pos == 12 + 52 * i,
            geom_node_descs@.len() == i,
            forall|k: int|
                0 <= k < i ==> (#[trigger] geom_node_descs@[k]).unknown@ == d@.subrange(
                    12 + 52 * k,
                    12 + 52 * k + 52,
                ),
        decreases mesh_count - i,
    {
        let unknown = match read_bytes(d, &mut pos, 52) {
            Ok(v) => v,
            Err(e) => return Err(e),
        };
        geom_node_descs.push(GeomNodeDesc { unknown });
        i = i + 1;
    }
    let mut unknown_count: u32 = 0;
    let mut unknown_data: Vec<UnknownData> = Vec::new();
    if some_flag > TRANSFORM_FLAG_THRESHOLD {
        unknown_count = match read_u32(d, &mut pos) {
            Ok(v) => v,
            Err(e) => return Err(e),
        };
        if unknown_count > 0 {
            unknown_data = match read_transform_nodes(d, &mut pos, unknown_count) {
                Ok(v) => v,
                Err(e) => return Err(e),
            };
        }
    }
    let meshes = match read_meshes(d, &mut pos, mesh_count) {
        Ok(v) => v,
        Err(e) => return Err(e),
    };
    Ok(
        PolFile {
            magic,
            some_flag,
            mesh_count,
            geom_node_descs,
            unknown_count,
            unknown_data,
            meshes,
        },
    )
}

} // verus!
