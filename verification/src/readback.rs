//! Geometry of the per-frame texture readback: the row stride and total size
//! of the CPU-side buffer the rendered texture is copied into, and the region
//! of the texture that is copied.

use vstd::prelude::*;
use crate::config::{TextureDesc, BYTES_PER_PIXEL, TEX_HEIGHT, TEX_WIDTH};
use crate::config::spec_texture_desc;

verus! {

/// The number of bytes one row of the readback buffer takes: width times
/// bytes per pixel, with no padding.
pub open spec fn spec_bytes_per_row() -> int {
    TEX_WIDTH * BYTES_PER_PIXEL
}

/// The total size in bytes of the readback buffer: one row stride per texture
/// row.
pub open spec fn spec_readback_len() -> int {
    spec_bytes_per_row() * TEX_HEIGHT
}

/// Computes the row stride of the readback buffer.
pub fn bytes_per_row() -> (r: usize)
    ensures
        r == spec_bytes_per_row(),
{
    TEX_WIDTH * BYTES_PER_PIXEL
}

/// Computes the total readback buffer size, width times bytes per pixel
/// times height.
pub fn readback_len() -> (r: usize)
    ensures
        r == spec_readback_len(),
{
    let row: usize = bytes_per_row();
    row * TEX_HEIGHT
}

/// Allocates the CPU-side buffer the texture is read back into: one zeroed
/// byte per channel of every pixel of the fixed texture, whatever the pan
/// offset is.
pub fn alloc_readback_buffer() -> (buf: Vec<u8>)
    ensures
        buf@.len() == spec_readback_len(),
        forall|i: int| 0 <= i < buf@.len() ==> buf@[i] == 0u8,
{
    let n: usize = readback_len();
    let mut buf: Vec<u8> = Vec::new();
    let mut i: usize = 0;
    while i < n
        invariant
            i <= n,
            n == spec_readback_len(),
            buf@.len() == i,
            forall|j: int| 0 <= j < i ==> buf@[j] == 0u8,
        decreases n - i,
    {
        buf.push(0u8);
        i = i + 1;
    }
    buf
}

/// The rectangular region of the texture the readback copies, together with
/// the mipmap level it reads.
#[derive(Clone, Copy, PartialEq, Eq, Structural, Debug)]
pub struct ReadRegion {
    pub origin_x: usize,
    pub origin_y: usize,
    pub origin_z: usize,
    pub width: usize,
    pub height: usize,
    pub depth: usize,
    pub mipmap_level: usize,
}

/// Builds the region the per-frame readback copies: the whole texture, from
/// the origin, one layer deep, at mipmap level zero.
pub fn full_texture_region() -> (r: ReadRegion)
    ensures
        r.origin_x == 0,
        r.origin_y == 0,
        r.origin_z == 0,
        r.width == TEX_WIDTH,
        r.height == TEX_HEIGHT,
        r.depth == 1,
        r.mipmap_level == 0,
{
    ReadRegion {
        origin_x: 0,
        origin_y: 0,
        origin_z: 0,
        width: TEX_WIDTH,
        height: TEX_HEIGHT,
        depth: 1,
        mipmap_level: 0,
    }
}

/// A buffer of the given length holds exactly the texture described by the
/// descriptor: its length is the descriptor's width times bytes per pixel
/// times its height.
pub open spec fn buffer_matches_texture(len: int, d: TextureDesc) -> bool {
    len == d.width * BYTES_PER_PIXEL * d.height
}

/// The readback buffer the application allocates matches the texture it
/// allocates: its size is exactly the texture's width times bytes per pixel
/// times its height.
pub proof fn lemma_readback_matches_texture()
    ensures
        buffer_matches_texture(spec_readback_len(), spec_texture_desc()),
{
}

} // verus!
