//! What is checked and planned before mesh and texture data goes to the GPU.

use crate::extent::Extent;
use crate::mipmap::{halve, halved, mip_chain, mip_level_extent, mip_levels};
use vstd::prelude::*;

verus! {

/// Vertex and index count of an uploaded mesh.
#[derive(Clone, Copy, Debug, PartialEq, Eq, Structural)]
pub struct MeshCounts {
    pub vertex_count: u32,
    pub index_count: u32,
}

/// Why an upload was refused or failed.
#[derive(Clone, Copy, Debug, PartialEq, Eq, Structural)]
pub enum UploadError {
    /// The mesh has no vertex or no index.
    EmptyMesh,
    /// The mesh has more vertices or indices than a draw can address.
    MeshTooLarge,
    /// The texture has no width or no height.
    EmptyTexture,
    /// The pixel buffer does not hold four bytes for each texel.
    PixelCount,
    /// The device cannot blit the texture's format with linear filtering, so
    /// its mipmaps cannot be generated.
    UnsupportedBlit,
    /// The device refused an allocation or a transfer.
    Device,
    /// The data is not an image that can be decoded.
    Decode,
}

/// The counts of a mesh of the given sizes, or the reason it is refused.
pub open spec fn mesh_plan(vertices: int, indices: int) -> Result<MeshCounts, UploadError> {
    if vertices <= 0 || indices <= 0 {
        Err(UploadError::EmptyMesh)
    } else if vertices > u32::MAX || indices > u32::MAX {
        Err(UploadError::MeshTooLarge)
    } else {
        Ok(MeshCounts { vertex_count: vertices as u32, index_count: indices as u32 })
    }
}

/// Checks the sizes of a mesh before it is uploaded.
///
/// A mesh needs at least one vertex and one index, and no more of either
/// than fit in 32 bits.
pub fn plan_mesh(vertices: usize, indices: usize) -> (r: Result<MeshCounts, UploadError>)
    ensures
        r == mesh_plan(vertices as int, indices as int),
{
    if vertices == 0 || indices == 0 {
        Err(UploadError::EmptyMesh)
    } else if vertices > u32::MAX as usize || indices > u32::MAX as usize {
        Err(UploadError::MeshTooLarge)
    } else {
        Ok(MeshCounts { vertex_count: vertices as u32, index_count: indices as u32 })
    }
}

/// Number of bytes of an RGBA8 image: four for each texel.
pub open spec fn rgba8_bytes(extent: Extent) -> int {
    4 * extent.width * extent.height
}

/// One step of mipmap generation: level `dst_level` is produced from the
/// level above it by a blit of the whole of `src_extent` onto the whole of
/// `dst_extent`, with linear filtering.
#[derive(Clone, Copy, Debug, PartialEq, Eq, Structural)]
pub struct MipBlit {
    pub src_level: u32,
    pub src_extent: Extent,
    pub dst_level: u32,
    pub dst_extent: Extent,
}

/// How a texture is laid out on the device.
#[derive(Debug)]
pub struct TexturePlan {
    /// Extent of level zero.
    pub extent: Extent,
    /// Number of mipmap levels.
    pub mip_levels: u32,
    /// The blits that fill levels one and up, in order.
    pub blits: Vec<MipBlit>,
}

/// The blit that fills mipmap level `level` of a texture.
pub open spec fn mip_blit(extent: Extent, level: int) -> MipBlit {
    MipBlit {
        src_level: (level - 1) as u32,
        src_extent: Extent {
            width: mip_level_extent(extent, (level - 1) as nat).0 as u32,
            height: mip_level_extent(extent, (level - 1) as nat).1 as u32,
        },
        dst_level: level as u32,
        dst_extent: Extent {
            width: halved(mip_level_extent(extent, (level - 1) as nat).0) as u32,
            height: halved(mip_level_extent(extent, (level - 1) as nat).1) as u32,
        },
    }
}

impl TexturePlan {
    /// The plan is the one for a texture of extent `extent`: the full chain
    /// of levels, each filled from the one above it.
    pub open spec fn is_for(self, extent: Extent) -> bool {
        &&& self.extent == extent
        &&& self.mip_levels == mip_levels(extent)
        &&& self.blits.len() == self.mip_levels - 1
        &&& forall|i: int|
            0 <= i < self.blits.len() ==> #[trigger] self.blits@[i] == mip_blit(extent, i + 1)
    }
}

/// Whether a texture of this extent with this many bytes of pixels can be
/// uploaded, and with which error it is refused.
pub open spec fn texture_check(pixel_bytes: int, extent: Extent) -> Result<(), UploadError> {
    if extent.spec_is_empty() {
        Err(UploadError::EmptyTexture)
    } else if pixel_bytes != rgba8_bytes(extent) {
        Err(UploadError::PixelCount)
    } else {
        Ok(())
    }
}

/// Checks an RGBA8 pixel buffer against its extent and lays out the texture.
///
/// The texture gets `floor(log2(max(width, height))) + 1` levels. Each level
/// after the first is blitted from the one above it at half the resolution,
/// floored and never below one texel in either axis.
pub fn plan_texture(pixel_bytes: usize, extent: Extent) -> (r: Result<TexturePlan, UploadError>)
    ensures
        match r {
            Ok(plan) => texture_check(pixel_bytes as int, extent) is Ok && plan.is_for(extent),
            Err(e) => texture_check(pixel_bytes as int, extent) == Err::<(), UploadError>(e),
        },
{
    if extent.is_empty() {
        return Err(UploadError::EmptyTexture);
    }
    assert(extent.width * extent.height <= 0xffff_ffff * 0xffff_ffff) by (nonlinear_arith)
        requires
            0 <= extent.width <= 0xffff_ffff,
            0 <= extent.height <= 0xffff_ffff,
    ;
    let texels: u128 = (extent.width as u128) * (extent.height as u128);
    assert(4 * extent.width * extent.height == 4 * (extent.width * extent.height))
        by (nonlinear_arith);
    if pixel_bytes as u128 != 4 * texels {
        return Err(UploadError::PixelCount);
    }
    let chain = mip_chain(extent);
    proof {
        crate::mipmap::lemma_mip_chain_ends_at_one(extent);
    }
    let mut blits: Vec<MipBlit> = Vec::new();
    let mut level: usize = 1;
    while level < chain.len()
        invariant
            1 <= level <= chain.len(),
            chain.len() == mip_levels(extent),
            chain.len() <= 32,
            blits.len() == level - 1,
            forall|k: int|
                0 <= k < chain.len() ==> ((#[trigger] chain@[k]).width as int, chain@[k].height as int)
                    == mip_level_extent(extent, k as nat),
            forall|i: int| 0 <= i < blits.len() ==> #[trigger] blits@[i] == mip_blit(extent, i + 1),
        decreases chain.len() - level,
    {
        let src = chain[level - 1];
        let blit = MipBlit {
            src_level: (level - 1) as u32,
            src_extent: src,
            dst_level: level as u32,
            dst_extent: Extent { width: halve(src.width), height: halve(src.height) },
        };
        assert(blit == mip_blit(extent, level as int));
        blits.push(blit);
        level += 1;
    }
    Ok(TexturePlan { extent, mip_levels: chain.len() as u32, blits })
}

} // verus!
