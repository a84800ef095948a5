use vstd::prelude::*;

verus! {

/// Bit pattern of the `f32` value 128.0.
pub const F32_128_BITS: u32 = 0x4300_0000;

/// Errors reported by the decoder.
#[derive(Debug, Clone, Copy, PartialEq, Eq, Structural)]
pub enum PolError {
    /// The first four bytes are not `POLY`.
    InvalidSignature,
    /// The buffer ends before a field or an array is complete.
    Truncated,
    /// A mesh with vertices lacks the Position or the TexCoord bit.
    MissingMandatoryAttribute,
    /// A light-map name is not valid UTF-8.
    InvalidText,
}

/// A vertex format mask: one bit per attribute block of a vertex.
#[derive(Debug, Clone, Copy, PartialEq, Eq, Structural)]
pub struct VertexComponent(pub u32);

/// Mask bit of the position block (mandatory).
pub const POSITION: u32 = 0b1;

/// Mask bit of an optional block of three values.
pub const UNKNOWN2: u32 = 0b10;

/// Mask bit of an optional block of one value.
pub const UNKNOWN4: u32 = 0b100;

/// Mask bit of an optional block of one value.
pub const UNKNOWN8: u32 = 0b1000;

/// Mask bit of the texture coordinate (mandatory).
pub const TEX_COORD: u32 = 0b10000;

/// Mask bit of an optional block of two values.
pub const UNKNOWN20: u32 = 0b100000;

/// Mask bit of an optional block of two values.
pub const UNKNOWN40: u32 = 0b1000000;

/// Mask bit of an optional block of two values.
pub const UNKNOWN80: u32 = 0b10000000;

/// Mask bit of an optional block of four values.
pub const UNKNOWN100: u32 = 0b100000000;

impl VertexComponent {
    /// True when this mask shares a set bit with `c`.
    pub fn has(&self, c: VertexComponent) -> (r: bool)
        ensures
            r == (self.0 & c.0 != 0),
    {
        (self.0 & c.0) != 0
    }
}

/// True when `bit` is set in `mask`.
pub open spec fn has_bit(mask: u32, bit: u32) -> bool {
    mask & bit != 0
}

/// Both mandatory attributes (Position and TexCoord) are present.
pub open spec fn mask_is_valid(mask: u32) -> bool {
    has_bit(mask, 0x1) && has_bit(mask, 0x10)
}

/// `n` bytes when `bit` is set in `mask`, else none.
pub open spec fn block_len(mask: u32, bit: u32, n: int) -> int {
    if has_bit(mask, bit) {
        n
    } else {
        0
    }
}

/// Bytes of one stored vertex under `mask`: the position (12) and the texture
/// coordinate (8) always, and each optional block whose bit is set.
pub open spec fn vertex_len(mask: u32) -> int {
    12 + block_len(mask, 0x2, 12) + block_len(mask, 0x4, 4) + block_len(mask, 0x8, 4) + 8
        + block_len(mask, 0x20, 8) + block_len(mask, 0x40, 8) + block_len(mask, 0x80, 8)
        + block_len(mask, 0x100, 16)
}

/// `n` when `bit` is set in `t`, else 0.
pub open spec fn signed_block_len(t: i32, bit: i32, n: int) -> int {
    if t & bit != 0 {
        n
    } else {
        0
    }
}

/// The auxiliary vertex size of a mask read as a signed value: the low 31
/// bits when the sign bit is set, else the sum of the per-bit sizes.
pub open spec fn vertex_size_of(t: i32) -> int {
    if t < 0 {
        (t & 0x7FFF_FFFF) as int
    } else {
        signed_block_len(t, 0x1, 12) + signed_block_len(t, 0x2, 12) + signed_block_len(t, 0x4, 4)
            + signed_block_len(t, 0x8, 4) + signed_block_len(t, 0x10, 8) + signed_block_len(
            t,
            0x20,
            8,
        ) + signed_block_len(t, 0x40, 8) + signed_block_len(t, 0x80, 8) + signed_block_len(
            t,
            0x100,
            16,
        )
    }
}

/// Auxiliary size of one vertex under mask `t`. It is not used to drive
/// decoding, and for a negative mask it differs from the bytes a vertex takes.
pub fn calc_vertex_size(t: i32) -> (r: usize)
    ensures
        r as int == vertex_size_of(t),
{
    if t < 0 {
        let low: i32 = t & 0x7FFF_FFFF;
        assert(t & 0x7FFF_FFFF >= 0) by (bit_vector);
        return low as usize;
    }
    let mut size: usize = 0;
    if t & 1 != 0 {
        size += 12;
    }
    if t & 2 != 0 {
        size += 12;
    }
    if t & 4 != 0 {
        size += 4;
    }
    if t & 8 != 0 {
        size += 4;
    }
    if t & 0x10 != 0 {
        size += 8;
    }
    if t & 0x20 != 0 {
        size += 8;
    }
    if t & 0x40 != 0 {
        size += 8;
    }
    if t & 0x80 != 0 {
        size += 8;
    }
    if t & 0x100 != 0 {
        size += 16;
    }
    size
}

/// The `f32` with bit pattern `b` clamped into [0, 128], as a bit pattern.
/// A NaN becomes 128 (`min` returns its other operand on NaN) and every
/// negative value, negative zero included, becomes positive zero.
pub open spec fn clamp_bits(b: u32) -> u32 {
    if b % 0x8000_0000 > 0x7F80_0000 {
        F32_128_BITS
    } else if b >= 0x8000_0000 {
        0
    } else if b > F32_128_BITS {
        F32_128_BITS
    } else {
        b
    }
}

/// Clamps the `f32` with bit pattern `b` into [0, 128].
pub fn clamp_param(b: u32) -> (r: u32)
    ensures
        r == clamp_bits(b),
{
    if b % 0x8000_0000 > 0x7F80_0000 {
        F32_128_BITS
    } else if b >= 0x8000_0000 {
        0
    } else if b > F32_128_BITS {
        F32_128_BITS
    } else {
        b
    }
}

} // verus!
