//! Meshes, textures and uniform buffers on the device.
//!
//! Data reaches device memory through a staging buffer: the data is written
//! to a buffer the host can write, a buffer in device memory is allocated,
//! the one is copied to the other while the caller waits, and the staging
//! buffer is given back, whether the upload worked or not.

use crate::api::{ApiCall, BufferId, BufferUsage, DepthFormat, Gpu, GraphicsApi, ImageId, SamplerId};
use crate::decode::{guess_format, load_from_memory_with_format, to_rgba8};
use crate::extent::Extent;
use crate::sampler::Sampler;
use crate::upload::{
    mesh_plan, plan_mesh, plan_texture, texture_check, MeshCounts, MipBlit, TexturePlan, UploadError,
};
use crate::vertex::{pack_vertices, packed_words, ElmVertex};
use vstd::prelude::*;

verus! {

/// A mesh in device memory.
#[derive(Clone, Copy, Debug, PartialEq, Eq, Structural)]
pub struct RenderMesh {
    pub vertex_buffer: BufferId,
    pub index_buffer: BufferId,
    pub vertex_count: u32,
    pub index_count: u32,
}

impl RenderMesh {
    /// Vertex and index count of the mesh.
    pub open spec fn spec_counts(&self) -> MeshCounts {
        MeshCounts { vertex_count: self.vertex_count, index_count: self.index_count }
    }

    /// Vertex and index count of the mesh.
    #[verifier::when_used_as_spec(spec_counts)]
    pub fn counts(&self) -> (counts: MeshCounts)
        ensures
            counts == self.spec_counts(),
    {
        MeshCounts { vertex_count: self.vertex_count, index_count: self.index_count }
    }
}

/// How the steps of a staged upload ended.
pub struct StagedUpload {
    /// The staging buffer, where it could be created.
    pub staging: Option<BufferId>,
    /// The buffer in device memory, where it could be created.
    pub target: Option<BufferId>,
    /// The copy from the one to the other worked.
    pub copied: bool,
}

impl StagedUpload {
    /// Each step ran only where the one before it worked.
    pub open spec fn wf(self) -> bool {
        &&& self.target.is_some() ==> self.staging.is_some()
        &&& self.copied ==> self.target.is_some()
    }

    /// The buffer that holds the data, where the upload worked.
    pub open spec fn buffer(self) -> Option<BufferId> {
        if self.copied {
            self.target
        } else {
            None
        }
    }

    /// The calls of the upload, in order.
    ///
    /// A staging buffer is created and filled. Where that worked, the buffer
    /// in device memory is created; where that worked too, the staging buffer
    /// is copied to it. The staging buffer is released in any case, and the
    /// buffer in device memory is released where the copy failed.
    pub open spec fn calls(self, usage: BufferUsage, words: Seq<u32>) -> Seq<ApiCall> {
        let create = seq![ApiCall::CreateStagingBuffer { words, id: self.staging }];
        match self.staging {
            None => create,
            Some(staging) => {
                let made = create.push(
                    ApiCall::CreateDeviceBuffer {
                        usage,
                        words: words.len() as usize,
                        id: self.target,
                    },
                );
                let release = ApiCall::ReleaseBuffer { buffer: staging };
                match self.target {
                    None => made.push(release),
                    Some(target) => {
                        let copied = made.push(
                            ApiCall::CopyBuffer { src: staging, dst: target, ok: self.copied },
                        ).push(release);
                        if self.copied {
                            copied
                        } else {
                            copied.push(ApiCall::ReleaseBuffer { buffer: target })
                        }
                    },
                }
            },
        }
    }
}

/// A staging buffer does not outlive its upload: where one was created it
/// is released, whether the upload worked or not, and nothing is asked of
/// the device after that but the release of the buffer in device memory
/// where the copy failed.
pub proof fn lemma_staging_buffer_is_released(
    upload: StagedUpload,
    usage: BufferUsage,
    words: Seq<u32>,
)
    requires
        upload.wf(),
        upload.staging.is_some(),
    ensures
        ({
            let calls = upload.calls(usage, words);
            let release = ApiCall::ReleaseBuffer { buffer: upload.staging->Some_0 };
            if upload.target.is_some() && !upload.copied {
                calls[calls.len() - 2] == release && calls.last() == (ApiCall::ReleaseBuffer {
                    buffer: upload.target->Some_0,
                })
            } else {
                calls.last() == release
            }
        }),
{
}

/// Uploads words to a new buffer in device memory through a staging buffer.
///
/// The words are written to a staging buffer, all of them and in order, a buffer for `usage` is
/// allocated in device memory, and the staging buffer is copied to it while
/// the caller waits. The staging buffer is released whether the upload
/// worked or not.
pub fn upload_words<G: GraphicsApi>(api: &mut Gpu<G>, usage: BufferUsage, words: &Vec<u32>) -> (r: Option<
    BufferId,
>)
    requires
        words.len() > 0,
    ensures
        exists|upload: StagedUpload|
            {
                &&& upload.wf()
                &&& r == upload.buffer()
                &&& final(api).calls() == old(api).calls() + #[trigger] upload.calls(usage, words@)
            },
{
    let ghost before = api.calls();
    let staging = api.create_staging_buffer(words);
    let staging = match staging {
        Some(staging) => staging,
        None => {
            proof {
                let upload = StagedUpload { staging: None, target: None, copied: false };
                assert(api.calls() =~= before + upload.calls(usage, words@));
            }
            return None;
        },
    };
    let target = api.create_device_buffer(usage, words.len());
    match target {
        Some(target) => {
            let ok = api.copy_buffer(staging, target);
            api.release_buffer(staging);
            if !ok {
                api.release_buffer(target);
            }
            proof {
                let upload = StagedUpload {
                    staging: Some(staging),
                    target: Some(target),
                    copied: ok,
                };
                assert(api.calls() =~= before + upload.calls(usage, words@));
            }
            if ok {
                Some(target)
            } else {
                None
            }
        },
        None => {
            api.release_buffer(staging);
            proof {
                let upload = StagedUpload { staging: Some(staging), target: None, copied: false };
                assert(api.calls() =~= before + upload.calls(usage, words@));
            }
            None
        },
    }
}

/// How the two uploads of a mesh ended.
pub struct MeshUpload {
    /// The upload of the vertices.
    pub vertices: StagedUpload,
    /// The upload of the indices, which follows where the first worked.
    pub indices: StagedUpload,
}

impl MeshUpload {
    /// Both uploads are well-formed.
    pub open spec fn wf(self) -> bool {
        self.vertices.wf() && self.indices.wf()
    }

    /// The mesh that was uploaded, where both uploads worked.
    pub open spec fn mesh(self, counts: MeshCounts) -> Option<RenderMesh> {
        match (self.vertices.buffer(), self.indices.buffer()) {
            (Some(vertex_buffer), Some(index_buffer)) => Some(
                RenderMesh {
                    vertex_buffer,
                    index_buffer,
                    vertex_count: counts.vertex_count,
                    index_count: counts.index_count,
                },
            ),
            _ => None,
        }
    }

    /// The calls of the upload, in order: the words of the vertices are
    /// uploaded; where that worked the indices are; and where they could
    /// not be, the vertex buffer is released.
    pub open spec fn calls(self, vertices: Seq<u32>, indices: Seq<u32>) -> Seq<ApiCall> {
        let first = self.vertices.calls(BufferUsage::Vertex, vertices);
        match self.vertices.buffer() {
            None => first,
            Some(vertex_buffer) => {
                let both = first + self.indices.calls(BufferUsage::Index, indices);
                if self.indices.buffer().is_some() {
                    both
                } else {
                    both.push(ApiCall::ReleaseBuffer { buffer: vertex_buffer })
                }
            },
        }
    }
}

/// A texture in device memory, with its sampler.
#[derive(Clone, Copy, Debug, PartialEq, Eq, Structural)]
pub struct Texture {
    pub image: ImageId,
    pub sampler: SamplerId,
    /// Extent of level zero.
    pub extent: Extent,
    /// Number of mipmap levels.
    pub mip_levels: u32,
}

/// How the steps of a texture upload ended.
pub struct TextureUpload {
    /// What the query for linear blits said, where it was made.
    pub linear_blit: Option<bool>,
    /// The staging buffer, where it could be created.
    pub staging: Option<BufferId>,
    /// The image, where it could be created.
    pub image: Option<ImageId>,
    /// The copy of the pixels to level zero worked.
    pub copied: bool,
    /// Number of mipmap levels that were blitted.
    pub blits: nat,
    /// The blit after those failed.
    pub blit_failed: bool,
    /// The sampler, where it could be created.
    pub sampler: Option<SamplerId>,
}

impl TextureUpload {
    /// Each step ran only where the one before it worked; a texture with
    /// more than one level is uploaded only where linear blits are supported,
    /// and the sampler is created only after every level was filled.
    pub open spec fn wf(self, plan: TexturePlan) -> bool {
        &&& self.linear_blit.is_some() == (plan.mip_levels > 1)
        &&& self.staging.is_some() ==> self.linear_blit != Some(false)
        &&& self.image.is_some() ==> self.staging.is_some()
        &&& self.copied ==> self.image.is_some()
        &&& self.blits <= plan.blits.len()
        &&& self.blits > 0 || self.blit_failed ==> self.copied
        &&& self.blit_failed ==> self.blits < plan.blits.len()
        &&& self.sampler.is_some() ==> self.copied && self.blits == plan.blits.len()
    }

    /// The texture that was uploaded, where every step worked.
    pub open spec fn texture(self, plan: TexturePlan) -> Option<Texture> {
        match (self.image, self.sampler) {
            (Some(image), Some(sampler)) => Some(
                Texture { image, sampler, extent: plan.extent, mip_levels: plan.mip_levels },
            ),
            _ => None,
        }
    }

    /// Every step up to the sampler worked.
    pub open spec fn filled(self, plan: TexturePlan) -> bool {
        self.copied && self.blits == plan.blits.len() && !self.blit_failed
    }

    /// The blits that were asked for: the first `blits` succeeded, the one
    /// after them failed where `blit_failed`.
    pub open spec fn blit_calls(self, plan: TexturePlan, image: ImageId) -> Seq<ApiCall> {
        Seq::new(
            if self.blit_failed {
                self.blits + 1
            } else {
                self.blits
            },
            |i: int| ApiCall::BlitMipLevel { image, blit: plan.blits@[i], ok: i < self.blits },
        )
    }

    /// The calls of the upload, in order.
    ///
    /// Where the texture has more than one level, the device is asked
    /// whether it blits with linear filtering, and nothing more happens where
    /// it does not. The pixels are written to a staging buffer, the image is
    /// created with all its levels, and the staging buffer is copied to level
    /// zero and released. The levels after the first are blitted in order,
    /// each from the one above it. Last the sampler is created. The image is
    /// released where a step after its creation failed.
    pub open spec fn calls(self, plan: TexturePlan, pixels: Seq<u8>, sampler: Sampler) -> Seq<ApiCall> {
        let query = match self.linear_blit {
            Some(supported) => seq![ApiCall::QueryLinearBlit { supported }],
            None => seq![],
        };
        if self.linear_blit == Some(false) {
            query
        } else {
            let staged = query.push(
                ApiCall::CreatePixelStagingBuffer { bytes: pixels, id: self.staging },
            );
            match self.staging {
                None => staged,
                Some(staging) => {
                    let made = staged.push(
                        ApiCall::CreateTextureImage {
                            extent: plan.extent,
                            mip_levels: plan.mip_levels,
                            id: self.image,
                        },
                    );
                    let release = ApiCall::ReleaseBuffer { buffer: staging };
                    match self.image {
                        None => made.push(release),
                        Some(image) => {
                            let copied = made.push(
                                ApiCall::CopyBufferToImage {
                                    src: staging,
                                    dst: image,
                                    ok: self.copied,
                                },
                            ).push(release);
                            let blitted = copied + self.blit_calls(plan, image);
                            let give_back = ApiCall::ReleaseImage { image };
                            if !self.filled(plan) {
                                blitted.push(give_back)
                            } else {
                                let sampled = blitted.push(
                                    ApiCall::CreateSampler {
                                        settings: sampler.spec_settings(),
                                        id: self.sampler,
                                    },
                                );
                                if self.sampler.is_some() {
                                    sampled
                                } else {
                                    sampled.push(give_back)
                                }
                            }
                        },
                    }
                },
            }
        }
    }
}

/// What the upload of a texture of the given pixels and extent does
/// to the resources and asks of the device, and what it returns.
///
/// A texture that `texture_check` refuses is refused with the same error;
/// nothing changes and the device is not asked. Otherwise the calls are
/// those of a texture upload for the plan of the extent; where every step
/// worked the texture is registered under the next id, which is returned,
/// and else nothing is registered and the error is `UnsupportedBlit` where
/// the device cannot blit linearly and `Device` in any other case.
pub open spec fn texture_upload(
    before: ResourcesView,
    after: ResourcesView,
    calls_before: Seq<ApiCall>,
    calls_after: Seq<ApiCall>,
    pixels: Seq<u8>,
    extent: Extent,
    sampler: Sampler,
    r: Result<usize, UploadError>,
) -> bool {
    match texture_check(pixels.len() as int, extent) {
        Err(refusal) => {
            &&& r == Err::<usize, UploadError>(refusal)
            &&& after == before
            &&& calls_after == calls_before
        },
        Ok(_) => exists|plan: TexturePlan, upload: TextureUpload|
            {
                &&& plan.is_for(extent)
                &&& upload.wf(plan)
                &&& calls_after == calls_before + #[trigger] upload.calls(plan, pixels, sampler)
                &&& match upload.texture(plan) {
                    Some(texture) => {
                        &&& r matches Ok(id) && id == before.textures.len()
                        &&& after == (ResourcesView {
                            textures: before.textures.push(texture),
                            ..before
                        })
                    },
                    None => {
                        &&& r == Err::<usize, UploadError>(
                            if upload.linear_blit == Some(false) {
                                UploadError::UnsupportedBlit
                            } else {
                                UploadError::Device
                            },
                        )
                        &&& after == before
                    },
                }
            },
    }
}

/// What the upload of an encoded texture does, whatever the decoder makes
/// of the data: either the data was refused with `Decode`, nothing changed
/// and the device was not asked, or what was done is the upload of a
/// texture of some pixels and some extent, as `texture_upload` says.
pub open spec fn encoded_texture_upload(
    before: ResourcesView,
    after: ResourcesView,
    calls_before: Seq<ApiCall>,
    calls_after: Seq<ApiCall>,
    sampler: Sampler,
    r: Result<usize, UploadError>,
) -> bool {
    ||| {
        &&& r == Err::<usize, UploadError>(UploadError::Decode)
        &&& after == before
        &&& calls_after == calls_before
    }
    ||| exists|width: u32, height: u32, pixels: Seq<u8>| #[trigger]
        texture_upload(
            before,
            after,
            calls_before,
            calls_after,
            pixels,
            (Extent { width, height }),
            sampler,
            r,
        )
}

/// Why no depth target could be made.
#[derive(Clone, Copy, Debug, PartialEq, Eq, Structural)]
pub enum DepthError {
    /// The extent has no area.
    EmptyExtent,
    /// None of the candidate formats can be a depth attachment.
    NoSupportedFormat,
    /// The device failed to answer or to allocate.
    Device,
}

/// The formats tried for the depth target, most preferred first.
pub open spec fn depth_candidates() -> Seq<DepthFormat> {
    seq![DepthFormat::D32Sfloat, DepthFormat::D32SfloatS8Uint, DepthFormat::D24UnormS8Uint]
}

/// The queries for the formats `candidates[0..answers.len()]`, with their
/// answers.
pub open spec fn format_queries(candidates: Seq<DepthFormat>, answers: Seq<Option<bool>>) -> Seq<
    ApiCall,
> {
    Seq::new(
        answers.len(),
        |i: int| ApiCall::QueryDepthFormat { format: candidates[i], supported: answers[i] },
    )
}

/// What a search through `candidates` returns when the device gives
/// `answers`, and whether the answers are those of a search.
///
/// Candidates are asked about in order. The search stops at the first that
/// is supported, which is the result, and at the first query that fails,
/// with `Device`. Where every candidate was asked about and none is
/// supported, the result is `NoSupportedFormat`.
pub open spec fn format_search(
    candidates: Seq<DepthFormat>,
    answers: Seq<Option<bool>>,
    result: Result<DepthFormat, DepthError>,
) -> bool {
    &&& answers.len() <= candidates.len()
    &&& forall|i: int| 0 <= i < answers.len() - 1 ==> #[trigger] answers[i] == Some(false)
    &&& if answers.len() > 0 && answers.last() == Some(true) {
        result == Ok::<DepthFormat, DepthError>(candidates[answers.len() - 1])
    } else if answers.len() > 0 && answers.last().is_none() {
        result == Err::<DepthFormat, DepthError>(DepthError::Device)
    } else {
        answers.len() == candidates.len() && result == Err::<DepthFormat, DepthError>(
            DepthError::NoSupportedFormat,
        )
    }
}

/// How the steps that make a depth target ended.
pub struct DepthOutcome {
    /// What the device said of the candidate formats that it was asked
    /// about.
    pub answers: Seq<Option<bool>>,
    /// What the search for the format came to.
    pub found: Result<DepthFormat, DepthError>,
    /// The image, where it could be created.
    pub image: Option<ImageId>,
}

impl DepthOutcome {
    /// The answers are those of a search that came to `found`, and the image
    /// was created only where a format was found.
    pub open spec fn wf(self) -> bool {
        &&& format_search(depth_candidates(), self.answers, self.found)
        &&& self.image.is_some() ==> self.found is Ok
    }

    /// What making the depth target came to: its format where it was made.
    pub open spec fn result(self) -> Result<DepthFormat, DepthError> {
        match (self.found, self.image) {
            (Ok(format), Some(_)) => Ok(format),
            (Ok(_), None) => Err(DepthError::Device),
            (Err(e), _) => Err(e),
        }
    }

    /// The calls that make a depth target: the search for the format, then
    /// the creation of the image where a format was found, then the release
    /// of the depth target it replaces where the creation worked.
    pub open spec fn calls(self, extent: Extent, replaced: Option<ImageId>) -> Seq<ApiCall> {
        let search = format_queries(depth_candidates(), self.answers);
        match self.found {
            Err(_) => search,
            Ok(format) => {
                let made = search.push(
                    ApiCall::CreateDepthImage { format, extent, id: self.image },
                );
                match (self.image, replaced) {
                    (Some(_), Some(replaced)) => made.push(
                        ApiCall::ReleaseImage { image: replaced },
                    ),
                    _ => made,
                }
            },
        }
    }
}

/// Meshes, textures, uniform buffers and the depth target of a renderer.
#[derive(Debug)]
pub struct VulkanResources {
    meshes: Vec<RenderMesh>,
    depth_resource: Option<ImageId>,
    textures: Vec<Texture>,
    uniform_buffers: Vec<BufferId>,
}

/// What the resources of a renderer are, as mathematical values.
pub struct ResourcesView {
    /// The meshes, by mesh id.
    pub meshes: Seq<RenderMesh>,
    /// The depth target, where one was made.
    pub depth_resource: Option<ImageId>,
    /// The textures, by texture id.
    pub textures: Seq<Texture>,
    /// The uniform buffers, by frame slot.
    pub uniform_buffers: Seq<BufferId>,
}

impl View for VulkanResources {
    type V = ResourcesView;

    closed spec fn view(&self) -> ResourcesView {
        ResourcesView {
            meshes: self.meshes@,
            depth_resource: self.depth_resource,
            textures: self.textures@,
            uniform_buffers: self.uniform_buffers@,
        }
    }
}

/// One release for each buffer, in order.
pub open spec fn buffer_releases(buffers: Seq<BufferId>) -> Seq<ApiCall> {
    Seq::new(buffers.len(), |i: int| ApiCall::ReleaseBuffer { buffer: buffers[i] })
}

/// One creation for each uniform buffer, in order, and a failed one after
/// them where `failed`.
pub open spec fn uniform_creations(buffers: Seq<BufferId>, failed: bool) -> Seq<ApiCall> {
    Seq::new(
        if failed {
            buffers.len() + 1
        } else {
            buffers.len()
        },
        |i: int|
            ApiCall::CreateUniformBuffer {
                id: if i < buffers.len() {
                    Some(buffers[i])
                } else {
                    None
                },
            },
    )
}

impl VulkanResources {
    /// No mesh, no texture, no uniform buffer, no depth target.
    pub fn new() -> (resources: VulkanResources)
        ensures
            resources@ == (ResourcesView {
                meshes: Seq::empty(),
                depth_resource: None,
                textures: Seq::empty(),
                uniform_buffers: Seq::empty(),
            }),
    {
        VulkanResources {
            meshes: Vec::new(),
            depth_resource: None,
            textures: Vec::new(),
            uniform_buffers: Vec::new(),
        }
    }

    /// Uploads a mesh and registers it under the next mesh id, which is
    /// returned.
    ///
    /// A mesh without vertices or indices, or with more of either than fit
    /// in 32 bits, is refused before the device is asked. Vertices and
    /// indices each go through a staged upload. Where the device fails, the
    /// error is `Device`, no mesh is registered and no buffer is kept.
    pub fn create_mesh<G: GraphicsApi>(
        &mut self,
        api: &mut Gpu<G>,
        vertices: &Vec<ElmVertex>,
        indices: &Vec<u32>,
    ) -> (r: Result<usize, UploadError>)
        ensures
            match mesh_plan(vertices.len() as int, indices.len() as int) {
                Err(refusal) => {
                    &&& r == Err::<usize, UploadError>(refusal)
                    &&& final(self)@ == old(self)@
                    &&& final(api).calls() == old(api).calls()
                },
                Ok(counts) => exists|upload: MeshUpload|
                    {
                        &&& upload.wf()
                        &&& final(api).calls() == old(api).calls() + #[trigger] upload.calls(
                            packed_words(vertices@),
                            indices@,
                        )
                        &&& match upload.mesh(counts) {
                            Some(mesh) => {
                                &&& r matches Ok(id) && id == old(self)@.meshes.len()
                                &&& final(self)@ == (ResourcesView {
                                    meshes: old(self)@.meshes.push(mesh),
                                    ..old(self)@
                                })
                            },
                            None => {
                                &&& r == Err::<usize, UploadError>(UploadError::Device)
                                &&& final(self)@ == old(self)@
                            },
                        }
                    },
            },
            r matches Ok(id) ==> {
                &&& id == old(self)@.meshes.len()
                &&& final(self)@.meshes.len() == id + 1
                &&& final(self)@.meshes[id as int].vertex_count == vertices.len()
                &&& final(self)@.meshes[id as int].index_count == indices.len()
            },
    {
        let counts = plan_mesh(vertices.len(), indices.len())?;
        let ghost before = api.calls();
        let words = pack_vertices(vertices);
        let vertex_buffer = upload_words(api, BufferUsage::Vertex, &words);
        let ghost vertex_upload = choose|upload: StagedUpload|
            upload.wf() && vertex_buffer == upload.buffer() && api.calls() == before
                + #[trigger] upload.calls(BufferUsage::Vertex, words@);
        let vertex_buffer = match vertex_buffer {
            Some(vertex_buffer) => vertex_buffer,
            None => {
                proof {
                    let upload = MeshUpload { vertices: vertex_upload, indices: vertex_upload };
                    assert(upload.calls(words@, indices@) == vertex_upload.calls(
                        BufferUsage::Vertex,
                        words@,
                    ));
                }
                return Err(UploadError::Device);
            },
        };
        let ghost uploaded = api.calls();
        let index_buffer = upload_words(api, BufferUsage::Index, indices);
        let ghost index_upload = choose|upload: StagedUpload|
            upload.wf() && index_buffer == upload.buffer() && api.calls() == uploaded
                + #[trigger] upload.calls(BufferUsage::Index, indices@);
        let ghost upload = MeshUpload { vertices: vertex_upload, indices: index_upload };
        let index_buffer = match index_buffer {
            Some(index_buffer) => index_buffer,
            None => {
                api.release_buffer(vertex_buffer);
                proof {
                    assert(api.calls() =~= before + upload.calls(words@, indices@));
                }
                return Err(UploadError::Device);
            },
        };
        proof {
            assert(api.calls() =~= before + upload.calls(words@, indices@));
        }
        self.meshes.push(
            RenderMesh {
                vertex_buffer,
                index_buffer,
                vertex_count: counts.vertex_count,
                index_count: counts.index_count,
            },
        );
        Ok(self.meshes.len() - 1)
    }

    /// The mesh with this id, where it exists.
    pub fn get_mesh(&self, mesh_id: usize) -> (mesh: Option<&RenderMesh>)
        ensures
            match mesh {
                Some(mesh) => mesh_id < self@.meshes.len() && *mesh == self@.meshes[mesh_id as int],
                None => mesh_id >= self@.meshes.len(),
            },
    {
        if mesh_id < self.meshes.len() {
            Some(&self.meshes[mesh_id])
        } else {
            None
        }
    }

    /// Number of meshes.
    pub fn mesh_count(&self) -> (count: usize)
        ensures
            count == self@.meshes.len(),
    {
        self.meshes.len()
    }

    /// Makes the number of uniform buffers `count`, one for each frame slot.
    ///
    /// Nothing is done where there are `count` already. Otherwise the
    /// buffers there are are released and `count` new ones are created in
    /// order. The first creation that fails ends this with `Device`; the
    /// buffers created before it are kept.
    pub fn create_uniform_buffers<G: GraphicsApi>(&mut self, api: &mut Gpu<G>, count: usize) -> (r:
        Result<(), UploadError>)
        ensures
            final(self)@.meshes == old(self)@.meshes,
            final(self)@.textures == old(self)@.textures,
            final(self)@.depth_resource == old(self)@.depth_resource,
            old(self)@.uniform_buffers.len() == count ==> {
                &&& r is Ok
                &&& final(self)@ == old(self)@
                &&& final(api).calls() == old(api).calls()
            },
            old(self)@.uniform_buffers.len() != count ==> {
                &&& final(api).calls() == old(api).calls() + buffer_releases(
                    old(self)@.uniform_buffers,
                ) + uniform_creations(final(self)@.uniform_buffers, r is Err)
                &&& final(self)@.uniform_buffers.len() <= count
                &&& r is Ok <==> final(self)@.uniform_buffers.len() == count
            },
            r matches Err(e) ==> e == UploadError::Device,
    {
        if self.uniform_buffers.len() == count {
            return Ok(());
        }
        let ghost before = api.calls();
        let ghost old_buffers = self.uniform_buffers@;
        let mut released: usize = 0;
        while released < self.uniform_buffers.len()
            invariant
                released <= self.uniform_buffers.len(),
                self.uniform_buffers@ == old_buffers,
                api.calls() == before + buffer_releases(old_buffers.take(released as int)),
            decreases self.uniform_buffers.len() - released,
        {
            api.release_buffer(self.uniform_buffers[released]);
            released += 1;
            assert(buffer_releases(old_buffers.take(released as int)) =~= buffer_releases(
                old_buffers.take(released - 1),
            ).push(ApiCall::ReleaseBuffer { buffer: old_buffers[released - 1] }));
            assert(api.calls() =~= before + buffer_releases(old_buffers.take(released as int)));
        }
        assert(old_buffers.take(released as int) =~= old_buffers);
        self.uniform_buffers.clear();
        let ghost cleared = api.calls();
        assert(cleared =~= cleared + uniform_creations(self.uniform_buffers@, false));
        while self.uniform_buffers.len() < count
            invariant
                self.uniform_buffers.len() <= count,
                self.meshes == old(self).meshes,
                self.textures == old(self).textures,
                self.depth_resource == old(self).depth_resource,
                old_buffers == old(self)@.uniform_buffers,
                old_buffers.len() != count,
                cleared == before + buffer_releases(old_buffers),
                before == old(api).calls(),
                api.calls() == cleared + uniform_creations(self.uniform_buffers@, false),
            decreases count - self.uniform_buffers.len(),
        {
            let ghost created = self.uniform_buffers@;
            match api.create_uniform_buffer() {
                Some(buffer) => {
                    self.uniform_buffers.push(buffer);
                    assert(uniform_creations(self.uniform_buffers@, false) =~= uniform_creations(
                        created,
                        false,
                    ).push(ApiCall::CreateUniformBuffer { id: Some(buffer) }));
                    assert(api.calls() =~= cleared + uniform_creations(
                        self.uniform_buffers@,
                        false,
                    ));
                },
                None => {
                    assert(uniform_creations(created, true) =~= uniform_creations(
                        created,
                        false,
                    ).push(ApiCall::CreateUniformBuffer { id: None }));
                    assert(api.calls() =~= before + buffer_releases(old_buffers)
                        + uniform_creations(created, true));
                    return Err(UploadError::Device);
                },
            }
        }
        assert(api.calls() =~= before + buffer_releases(old_buffers) + uniform_creations(
            self.uniform_buffers@,
            false,
        ));
        Ok(())
    }

    /// Uploads an RGBA8 texture with its mipmap chain, creates its sampler
    /// and registers it under the next texture id, which is returned.
    ///
    /// A texture without area, or whose pixel buffer does not hold four bytes
    /// for each texel, is refused before the device is asked. A texture with
    /// more than one level is refused with `UnsupportedBlit` where the device
    /// cannot blit its format with linear filtering. Where the device fails,
    /// the error is `Device`, no texture is registered and nothing is kept.
    #[verifier::loop_isolation(false)]
    pub fn create_texture<G: GraphicsApi>(
        &mut self,
        api: &mut Gpu<G>,
        pixels: &Vec<u8>,
        extent: Extent,
        sampler: &Sampler,
    ) -> (r: Result<usize, UploadError>)
        ensures
            texture_upload(
                old(self)@,
                final(self)@,
                old(api).calls(),
                final(api).calls(),
                pixels@,
                extent,
                *sampler,
                r,
            ),
    {
        let plan = plan_texture(pixels.len(), extent)?;
        let ghost before = api.calls();
        let ghost mut upload = TextureUpload {
            linear_blit: None,
            staging: None,
            image: None,
            copied: false,
            blits: 0,
            blit_failed: false,
            sampler: None,
        };
        assert(plan.mip_levels >= 1) by {
            crate::mipmap::lemma_mip_chain_ends_at_one(extent);
        }
        if plan.mip_levels > 1 {
            let supported = api.supports_linear_blit();
            proof {
                upload.linear_blit = Some(supported);
            }
            if !supported {
                assert(api.calls() =~= before + upload.calls(plan, pixels@, *sampler));
                return Err(UploadError::UnsupportedBlit);
            }
        }
        assert(pixels.len() > 0) by (nonlinear_arith)
            requires
                pixels.len() == 4 * extent.width * extent.height,
                extent.width > 0,
                extent.height > 0,
        ;
        let staging = api.create_pixel_staging_buffer(pixels);
        proof {
            upload.staging = staging;
        }
        let staging = match staging {
            Some(staging) => staging,
            None => {
                assert(api.calls() =~= before + upload.calls(plan, pixels@, *sampler));
                return Err(UploadError::Device);
            },
        };
        let image = api.create_texture_image(plan.extent, plan.mip_levels);
        proof {
            upload.image = image;
        }
        let image = match image {
            Some(image) => image,
            None => {
                api.release_buffer(staging);
                assert(api.calls() =~= before + upload.calls(plan, pixels@, *sampler));
                return Err(UploadError::Device);
            },
        };
        let copied = api.copy_buffer_to_image(staging, image);
        api.release_buffer(staging);
        proof {
            upload.copied = copied;
        }
        let ghost after_copy = api.calls();
        assert(upload.blit_calls(plan, image) =~= Seq::<ApiCall>::empty());
        if !copied {
            api.release_image(image);
            assert(api.calls() =~= before + upload.calls(plan, pixels@, *sampler));
            return Err(UploadError::Device);
        }
        let mut level: usize = 0;
        while level < plan.blits.len()
            invariant
                level <= plan.blits.len(),
                upload.blits == level,
                !upload.blit_failed,
                upload.copied,
                upload.image == Some(image),
                upload.staging == Some(staging),
                upload.sampler.is_none(),
                upload.linear_blit != Some(false),
                upload.linear_blit.is_some() == (plan.mip_levels > 1),
                api.calls() == after_copy + upload.blit_calls(plan, image),
            decreases plan.blits.len() - level,
        {
            let ghost earlier = upload.blit_calls(plan, image);
            let ok = api.blit_mip_level(image, plan.blits[level]);
            if !ok {
                proof {
                    upload.blit_failed = true;
                }
                api.release_image(image);
                assert(upload.blit_calls(plan, image) =~= earlier.push(
                    ApiCall::BlitMipLevel { image, blit: plan.blits@[level as int], ok: false },
                ));
                assert(api.calls() =~= before + upload.calls(plan, pixels@, *sampler));
                return Err(UploadError::Device);
            }
            level += 1;
            proof {
                upload.blits = level as nat;
            }
            assert(upload.blit_calls(plan, image) =~= earlier.push(
                ApiCall::BlitMipLevel { image, blit: plan.blits@[level - 1], ok: true },
            ));
            assert(api.calls() =~= after_copy + upload.blit_calls(plan, image));
        }
        let made = api.create_sampler(sampler.settings());
        proof {
            upload.sampler = made;
        }
        let made = match made {
            Some(made) => made,
            None => {
                api.release_image(image);
                assert(api.calls() =~= before + upload.calls(plan, pixels@, *sampler));
                return Err(UploadError::Device);
            },
        };
        assert(api.calls() =~= before + upload.calls(plan, pixels@, *sampler));
        self.textures.push(
            Texture { image, sampler: made, extent: plan.extent, mip_levels: plan.mip_levels },
        );
        Ok(self.textures.len() - 1)
    }

    /// Decodes an encoded image and uploads it as `create_texture` does.
    ///
    /// The encoding is told from the first bytes of the data. Data of no
    /// known encoding, and data that cannot be decoded, is refused with
    /// `Decode`; nothing changes and the device is not asked. What the data
    /// decodes to is the decoder's affair: the upload is that of the pixels
    /// and the extent it hands back, whatever they are.
    pub fn create_texture_image<G: GraphicsApi>(
        &mut self,
        api: &mut Gpu<G>,
        encoded: &Vec<u8>,
        sampler: &Sampler,
    ) -> (r: Result<usize, UploadError>)
        ensures
            encoded_texture_upload(
                old(self)@,
                final(self)@,
                old(api).calls(),
                final(api).calls(),
                *sampler,
                r,
            ),
    {
        let format = match guess_format(encoded) {
            Ok(format) => format,
            Err(_) => {
                return Err(UploadError::Decode);
            },
        };
        let image = match load_from_memory_with_format(encoded, format) {
            Ok(image) => image,
            Err(_) => {
                return Err(UploadError::Decode);
            },
        };
        let (width, height, pixels) = to_rgba8(&image);
        let r = self.create_texture(api, &pixels, Extent { width, height }, sampler);
        assert(texture_upload(
            old(self)@,
            self@,
            old(api).calls(),
            api.calls(),
            pixels@,
            (Extent { width, height }),
            *sampler,
            r,
        ));
        r
    }

    /// The texture with this id, where it exists.
    pub fn get_texture(&self, texture_id: usize) -> (texture: Option<&Texture>)
        ensures
            match texture {
                Some(texture) => texture_id < self@.textures.len() && *texture
                    == self@.textures[texture_id as int],
                None => texture_id >= self@.textures.len(),
            },
    {
        if texture_id < self.textures.len() {
            Some(&self.textures[texture_id])
        } else {
            None
        }
    }

    /// The first of `candidates` that the device accepts as a depth
    /// attachment with optimal tiling.
    #[verifier::loop_isolation(false)]
    pub fn find_supported_format<G: GraphicsApi>(api: &mut Gpu<G>, candidates: &Vec<DepthFormat>) -> (r:
        Result<DepthFormat, DepthError>)
        ensures
            exists|answers: Seq<Option<bool>>|
                {
                    &&& format_search(candidates@, answers, r)
                    &&& final(api).calls() == old(api).calls() + #[trigger] format_queries(
                        candidates@,
                        answers,
                    )
                },
    {
        let ghost before = api.calls();
        let ghost mut answers: Seq<Option<bool>> = Seq::empty();
        assert(api.calls() =~= before + format_queries(candidates@, answers));
        let mut i: usize = 0;
        while i < candidates.len()
            invariant
                i <= candidates.len(),
                answers.len() == i,
                forall|k: int| 0 <= k < i ==> #[trigger] answers[k] == Some(false),
                api.calls() == before + format_queries(candidates@, answers),
            decreases candidates.len() - i,
        {
            let ghost earlier = answers;
            let supported = api.supports_depth_format(candidates[i]);
            proof {
                answers = answers.push(supported);
                assert(format_queries(candidates@, answers) =~= format_queries(
                    candidates@,
                    earlier,
                ).push(ApiCall::QueryDepthFormat { format: candidates@[i as int], supported }));
                assert(api.calls() =~= before + format_queries(candidates@, answers));
            }
            match supported {
                Some(true) => {
                    assert(format_search(candidates@, answers, Ok(candidates@[i as int])));
                    return Ok(candidates[i]);
                },
                Some(false) => {},
                None => {
                    assert(format_search(candidates@, answers, Err(DepthError::Device)));
                    return Err(DepthError::Device);
                },
            }
            i += 1;
        }
        assert(format_search(candidates@, answers, Err(DepthError::NoSupportedFormat)));
        Err(DepthError::NoSupportedFormat)
    }

    /// The format of the depth target: the first of 32-bit float, 32-bit
    /// float with stencil and 24-bit with stencil that the device accepts.
    pub fn find_depth_format<G: GraphicsApi>(api: &mut Gpu<G>) -> (r: Result<DepthFormat, DepthError>)
        ensures
            exists|answers: Seq<Option<bool>>|
                {
                    &&& format_search(depth_candidates(), answers, r)
                    &&& final(api).calls() == old(api).calls() + #[trigger] format_queries(
                        depth_candidates(),
                        answers,
                    )
                },
    {
        let mut candidates: Vec<DepthFormat> = Vec::new();
        candidates.push(DepthFormat::D32Sfloat);
        candidates.push(DepthFormat::D32SfloatS8Uint);
        candidates.push(DepthFormat::D24UnormS8Uint);
        assert(candidates@ =~= depth_candidates());
        VulkanResources::find_supported_format(api, &candidates)
    }

    /// Whether a depth format has a stencil aspect.
    pub fn has_stencil_component(format: DepthFormat) -> (r: bool)
        ensures
            r == (format == DepthFormat::D32SfloatS8Uint || format == DepthFormat::D24UnormS8Uint),
    {
        match format {
            DepthFormat::D32Sfloat => false,
            DepthFormat::D32SfloatS8Uint => true,
            DepthFormat::D24UnormS8Uint => true,
        }
    }

    /// Makes the depth target for images of the given extent, in place of
    /// the one there is.
    ///
    /// An extent without area is refused before the device is asked. The
    /// format is searched for first; then the image is created and the old
    /// depth target, where there was one, is released. Where the search or
    /// the creation fails the old depth target stays.
    pub fn create_depth_resources<G: GraphicsApi>(&mut self, api: &mut Gpu<G>, extent: Extent) -> (r:
        Result<DepthFormat, DepthError>)
        ensures
            final(self)@.meshes == old(self)@.meshes,
            final(self)@.textures == old(self)@.textures,
            final(self)@.uniform_buffers == old(self)@.uniform_buffers,
            extent.spec_is_empty() ==> {
                &&& r == Err::<DepthFormat, DepthError>(DepthError::EmptyExtent)
                &&& final(self)@ == old(self)@
                &&& final(api).calls() == old(api).calls()
            },
            !extent.spec_is_empty() ==> exists|outcome: DepthOutcome|
                {
                    &&& outcome.wf()
                    &&& final(api).calls() == old(api).calls() + #[trigger] outcome.calls(
                        extent,
                        old(self)@.depth_resource,
                    )
                    &&& r == outcome.result()
                    &&& final(self)@.depth_resource == if r is Ok {
                        outcome.image
                    } else {
                        old(self)@.depth_resource
                    }
                },
    {
        if extent.is_empty() {
            return Err(DepthError::EmptyExtent);
        }
        let ghost before = api.calls();
        let found = VulkanResources::find_depth_format(api);
        let ghost answers = choose|answers: Seq<Option<bool>>|
            format_search(depth_candidates(), answers, found) && api.calls() == before
                + #[trigger] format_queries(depth_candidates(), answers);
        let format = match found {
            Ok(format) => format,
            Err(e) => {
                proof {
                    let outcome = DepthOutcome { answers, found, image: None };
                    assert(api.calls() =~= before + outcome.calls(extent, self@.depth_resource));
                }
                return Err(e);
            },
        };
        let image = api.create_depth_image(format, extent);
        let ghost outcome = DepthOutcome { answers, found, image };
        match image {
            Some(made) => {
                match self.depth_resource {
                    Some(replaced) => {
                        api.release_image(replaced);
                    },
                    None => {},
                }
                assert(api.calls() =~= before + outcome.calls(extent, self@.depth_resource));
                self.depth_resource = Some(made);
                Ok(format)
            },
            None => {
                assert(api.calls() =~= before + outcome.calls(extent, self@.depth_resource));
                Err(DepthError::Device)
            },
        }
    }

    /// The depth target, where one was made.
    pub fn get_depth_resources(&self) -> (image: Option<ImageId>)
        ensures
            image == self@.depth_resource,
    {
        self.depth_resource
    }

    /// The uniform buffer of a frame slot, where it exists.
    pub fn get_uniform_buffer(&self, index: usize) -> (buffer: Option<BufferId>)
        ensures
            buffer == if index < self@.uniform_buffers.len() {
                Some(self@.uniform_buffers[index as int])
            } else {
                None
            },
    {
        if index < self.uniform_buffers.len() {
            Some(self.uniform_buffers[index])
        } else {
            None
        }
    }

    /// Number of uniform buffers.
    pub fn uniform_buffer_count(&self) -> (count: usize)
        ensures
            count == self@.uniform_buffers.len(),
    {
        self.uniform_buffers.len()
    }
}

/// A mesh that was uploaded is found under the id it got, with as many
/// vertices and indices as were uploaded.
pub proof fn lemma_mesh_round_trip(
    before: ResourcesView,
    after: ResourcesView,
    upload: MeshUpload,
    counts: MeshCounts,
    vertices: int,
    indices: int,
)
    requires
        mesh_plan(vertices, indices) == Ok::<MeshCounts, UploadError>(counts),
        upload.mesh(counts) matches Some(mesh) && after.meshes == before.meshes.push(mesh),
    ensures
        after.meshes[before.meshes.len() as int].vertex_count == vertices,
        after.meshes[before.meshes.len() as int].index_count == indices,
        forall|id: int| 0 <= id < before.meshes.len() ==> after.meshes[id] == before.meshes[id],
{
}

} // verus!
