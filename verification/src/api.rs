//! The graphics API as the renderer uses it: one method for each thing a
//! device is asked to do.
//!
//! Objects that live on the device are known to the renderer by the ids the
//! API hands out for them. Every call is appended to `calls` with its
//! outcome, so that the protocols the renderer follows can be stated.

use crate::extent::Extent;
use crate::frame::{AcquireOutcome, SubmitOutcome};
use crate::pipeline::{DescriptionView, PipelineDescription};
use crate::sampler::SamplerSettings;
use crate::surface::ChainPlan;
use crate::ubo::UNIFORM_BLOCK_WORDS;
use crate::upload::MipBlit;
use vstd::prelude::*;

verus! {

/// A buffer in host or device memory.
#[derive(Clone, Copy, Debug, PartialEq, Eq, Structural)]
pub struct BufferId(pub u32);

/// An image in device memory, with its view.
#[derive(Clone, Copy, Debug, PartialEq, Eq, Structural)]
pub struct ImageId(pub u32);

/// A texture sampler.
#[derive(Clone, Copy, Debug, PartialEq, Eq, Structural)]
pub struct SamplerId(pub u32);

/// A framebuffer over one image of the presentation chain.
#[derive(Clone, Copy, Debug, PartialEq, Eq, Structural)]
pub struct FramebufferId(pub u32);

/// A graphics pipeline with its render pass and layout.
#[derive(Clone, Copy, Debug, PartialEq, Eq, Structural)]
pub struct PipelineId(pub u32);

/// A descriptor set bound to the uniform buffer of one frame slot.
#[derive(Clone, Copy, Debug, PartialEq, Eq, Structural)]
pub struct DescriptorSetId(pub u32);

/// What a buffer in device memory is read as.
#[derive(Clone, Copy, Debug, PartialEq, Eq, Structural)]
pub enum BufferUsage {
    Vertex,
    Index,
}

/// A format with a depth aspect.
#[derive(Clone, Copy, Debug, PartialEq, Eq, Structural)]
pub enum DepthFormat {
    /// 32-bit floating-point depth.
    D32Sfloat,
    /// 32-bit floating-point depth and 8-bit stencil.
    D32SfloatS8Uint,
    /// 24-bit normalized depth and 8-bit stencil.
    D24UnormS8Uint,
}

/// What a pass clears its targets to, each value as the bit pattern of a
/// 32-bit floating-point number. There is a depth only where the pass has a
/// depth target.
#[derive(Clone, Copy, Debug, PartialEq, Eq, Structural)]
pub struct ClearValues {
    pub red: u32,
    pub green: u32,
    pub blue: u32,
    pub alpha: u32,
    pub depth: Option<u32>,
}

/// The bit pattern of one.
pub const ONE_BITS: u32 = 0x3f80_0000;

impl ClearValues {
    /// What the scene pass clears to: opaque black, and the farthest depth,
    /// which is one.
    pub open spec fn spec_scene(depth: bool) -> ClearValues {
        ClearValues {
            red: 0,
            green: 0,
            blue: 0,
            alpha: ONE_BITS,
            depth: if depth {
                Some(ONE_BITS)
            } else {
                None
            },
        }
    }

    /// What the scene pass clears to: opaque black, and the farthest depth,
    /// which is one, where the pass has a depth target.
    #[verifier::when_used_as_spec(spec_scene)]
    pub fn scene(depth: bool) -> (clear: ClearValues)
        ensures
            clear == ClearValues::spec_scene(depth),
    {
        ClearValues {
            red: 0,
            green: 0,
            blue: 0,
            alpha: ONE_BITS,
            depth: if depth {
                Some(ONE_BITS)
            } else {
                None
            },
        }
    }
}

/// One call of the graphics API, with the way it ended. `W` is the type of
/// the words, `B` the type of the bytes and `P` the type of the pipeline
/// description that a call hands over.
#[derive(Clone, Debug, PartialEq, Eq)]
#[allow(inconsistent_fields)]
pub enum Call<W, B, P> {
    /// Create the presentation chain; `images` is the number of images it
    /// got.
    CreateChain { plan: ChainPlan, images: Option<u32> },
    /// Rebuild the presentation chain from the one in use.
    RecreateChain { plan: ChainPlan, images: Option<u32> },
    /// Acquire the next presentable image.
    AcquireImage { outcome: AcquireOutcome },
    /// Create render pass, layout and pipeline as described.
    CreatePipeline { description: P, id: Option<PipelineId> },
    /// Create view and framebuffer for one image of the chain and the render
    /// pass of a pipeline, with the depth target as second attachment where
    /// there is one.
    CreateFramebuffer {
        pipeline: PipelineId,
        image: u32,
        depth: Option<ImageId>,
        id: Option<FramebufferId>,
    },
    /// Give a framebuffer and its view back.
    ReleaseFramebuffer { framebuffer: FramebufferId },
    /// Allocate a host-visible transfer source and fill it with 32-bit words.
    CreateStagingBuffer { words: W, id: Option<BufferId> },
    /// Allocate a host-visible transfer source and fill it with bytes.
    CreatePixelStagingBuffer { bytes: B, id: Option<BufferId> },
    /// Allocate a device-local transfer destination of 32-bit words.
    CreateDeviceBuffer { usage: BufferUsage, words: usize, id: Option<BufferId> },
    /// Copy a buffer to another in a one-time command buffer and block until
    /// the GPU is done.
    CopyBuffer { src: BufferId, dst: BufferId, ok: bool },
    /// Give a buffer back.
    ReleaseBuffer { buffer: BufferId },
    /// Allocate a host-visible uniform buffer of one uniform block.
    CreateUniformBuffer { id: Option<BufferId> },
    /// Create a descriptor set for the layout of a pipeline, with the uniform
    /// buffer at binding zero.
    CreateDescriptorSet { pipeline: PipelineId, uniforms: BufferId, id: Option<DescriptorSetId> },
    /// Write a uniform block from the host.
    WriteUniforms { buffer: BufferId, block: W, ok: bool },
    /// Whether the texture format can be blitted with linear filtering.
    QueryLinearBlit { supported: bool },
    /// Allocate a sampled device-local RGBA8 image with a mipmap chain.
    CreateTextureImage { extent: Extent, mip_levels: u32, id: Option<ImageId> },
    /// Copy a staging buffer to level zero of an image and block until the
    /// GPU is done.
    CopyBufferToImage { src: BufferId, dst: ImageId, ok: bool },
    /// Fill one mipmap level from the level above it and block until the GPU
    /// is done.
    BlitMipLevel { image: ImageId, blit: MipBlit, ok: bool },
    /// Give an image back.
    ReleaseImage { image: ImageId },
    /// Create a sampler.
    CreateSampler { settings: SamplerSettings, id: Option<SamplerId> },
    /// Whether a format can be a depth attachment with optimal tiling; `None`
    /// where the query failed.
    QueryDepthFormat { format: DepthFormat, supported: Option<bool> },
    /// Allocate a device-local depth image.
    CreateDepthImage { format: DepthFormat, extent: Extent, id: Option<ImageId> },
    /// Wait for the completion signal kept for a frame slot and drop it.
    WaitForFrame { slot: usize, ok: bool },
    /// Begin a command buffer: begin the pass over the framebuffer with its
    /// targets cleared to `clear`, set the viewport, bind pipeline and
    /// descriptor set.
    BeginFrame {
        pipeline: PipelineId,
        framebuffer: FramebufferId,
        clear: ClearValues,
        viewport: Extent,
        descriptor_set: DescriptorSetId,
        ok: bool,
    },
    /// Bind vertex and index buffer and draw `index_count` indices.
    DrawIndexed { vertex_buffer: BufferId, index_buffer: BufferId, index_count: u32, ok: bool },
    /// End the pass, submit the command buffer after the acquisition, present
    /// the image and keep the completion signal for the slot.
    SubmitFrame { slot: usize, image_index: u32, outcome: SubmitOutcome },
}

/// A call as contracts speak of it: with the words and bytes it handed over
/// as sequences.
pub type ApiCall = Call<Seq<u32>, Seq<u8>, DescriptionView>;

/// A call as a program records it: with the words and bytes it handed over
/// in vectors.
pub type RecordedCall = Call<Vec<u32>, Vec<u8>, PipelineDescription>;

impl View for Call<Vec<u32>, Vec<u8>, PipelineDescription> {
    type V = Call<Seq<u32>, Seq<u8>, DescriptionView>;

    /// The same call, with the contents of its vectors.
    open spec fn view(&self) -> Call<Seq<u32>, Seq<u8>, DescriptionView> {
        match *self {
            Call::CreateChain { plan, images } => Call::CreateChain { plan, images },
            Call::RecreateChain { plan, images } => Call::RecreateChain { plan, images },
            Call::AcquireImage { outcome } => Call::AcquireImage { outcome },
            Call::CreatePipeline { description, id } => Call::CreatePipeline { description: description@, id },
            Call::CreateFramebuffer { pipeline, image, depth, id } => Call::CreateFramebuffer { pipeline, image, depth, id },
            Call::ReleaseFramebuffer { framebuffer } => Call::ReleaseFramebuffer { framebuffer },
            Call::CreateStagingBuffer { words, id } => Call::CreateStagingBuffer { words: words@, id },
            Call::CreatePixelStagingBuffer { bytes, id } => Call::CreatePixelStagingBuffer { bytes: bytes@, id },
            Call::CreateDeviceBuffer { usage, words, id } => Call::CreateDeviceBuffer { usage, words, id },
            Call::CopyBuffer { src, dst, ok } => Call::CopyBuffer { src, dst, ok },
            Call::ReleaseBuffer { buffer } => Call::ReleaseBuffer { buffer },
            Call::CreateUniformBuffer { id } => Call::CreateUniformBuffer { id },
            Call::CreateDescriptorSet { pipeline, uniforms, id } => Call::CreateDescriptorSet { pipeline, uniforms, id },
            Call::WriteUniforms { buffer, block, ok } => Call::WriteUniforms { buffer, block: block@, ok },
            Call::QueryLinearBlit { supported } => Call::QueryLinearBlit { supported },
            Call::CreateTextureImage { extent, mip_levels, id } => Call::CreateTextureImage { extent, mip_levels, id },
            Call::CopyBufferToImage { src, dst, ok } => Call::CopyBufferToImage { src, dst, ok },
            Call::BlitMipLevel { image, blit, ok } => Call::BlitMipLevel { image, blit, ok },
            Call::ReleaseImage { image } => Call::ReleaseImage { image },
            Call::CreateSampler { settings, id } => Call::CreateSampler { settings, id },
            Call::QueryDepthFormat { format, supported } => Call::QueryDepthFormat { format, supported },
            Call::CreateDepthImage { format, extent, id } => Call::CreateDepthImage { format, extent, id },
            Call::WaitForFrame { slot, ok } => Call::WaitForFrame { slot, ok },
            Call::BeginFrame { pipeline, framebuffer, clear, viewport, descriptor_set, ok } => Call::BeginFrame { pipeline, framebuffer, clear, viewport, descriptor_set, ok },
            Call::DrawIndexed { vertex_buffer, index_buffer, index_count, ok } => Call::DrawIndexed { vertex_buffer, index_buffer, index_count, ok },
            Call::SubmitFrame { slot, image_index, outcome } => Call::SubmitFrame { slot, image_index, outcome },
        }
    }
}

/// The graphics API: what a device is asked to do.
///
/// Objects that live on the device are named by the ids that the API hands
/// out for them. A creating call returns `None` and an acting call `false`
/// where the device fails.
pub trait GraphicsApi: Sized {
    /// Creates the presentation chain and tells how many images it got.
    fn create_chain(&mut self, plan: ChainPlan) -> (images: Option<u32>);

    /// Rebuilds the presentation chain from the one in use and tells how many
    /// images it got.
    fn recreate_chain(&mut self, plan: ChainPlan) -> (images: Option<u32>);

    /// Acquires the next presentable image.
    fn acquire_image(&mut self) -> (outcome: AcquireOutcome);

    /// Creates render pass, layout and pipeline as described.
    fn create_pipeline(&mut self, description: &PipelineDescription) -> (id: Option<PipelineId>);

    /// Creates view and framebuffer for one image of the chain and the render
    /// pass of a pipeline, with the depth target as second attachment where
    /// there is one.
    fn create_framebuffer(&mut self, pipeline: PipelineId, image: u32, depth: Option<ImageId>) -> (id:
        Option<FramebufferId>);

    /// Gives a framebuffer and its view back.
    fn release_framebuffer(&mut self, framebuffer: FramebufferId);

    /// Allocates a transfer source that the host can write and fills it with
    /// `words`, which are not empty.
    fn create_staging_buffer(&mut self, words: &Vec<u32>) -> (id: Option<BufferId>)
        requires
            words.len() > 0,
    ;

    /// Allocates a transfer source that the host can write and fills it with
    /// `bytes`, which are not empty.
    fn create_pixel_staging_buffer(&mut self, bytes: &Vec<u8>) -> (id: Option<BufferId>)
        requires
            bytes.len() > 0,
    ;

    /// Allocates a transfer destination of `words` 32-bit words in device
    /// memory; `words` is not zero.
    fn create_device_buffer(&mut self, usage: BufferUsage, words: usize) -> (id: Option<BufferId>)
        requires
            words > 0,
    ;

    /// Copies a buffer to another in a one-time command buffer and blocks
    /// until the GPU is done.
    fn copy_buffer(&mut self, src: BufferId, dst: BufferId) -> (ok: bool);

    /// Gives a buffer back.
    fn release_buffer(&mut self, buffer: BufferId);

    /// Allocates a uniform buffer of one uniform block that the host can write.
    fn create_uniform_buffer(&mut self) -> (id: Option<BufferId>);

    /// Creates a descriptor set for the layout of a pipeline, with the uniform
    /// buffer at binding zero.
    fn create_descriptor_set(&mut self, pipeline: PipelineId, uniforms: BufferId) -> (id: Option<
        DescriptorSetId,
    >);

    /// Writes a uniform block from the host.
    fn write_uniforms(&mut self, buffer: BufferId, block: &[u32; UNIFORM_BLOCK_WORDS]) -> (ok: bool);

    /// Tells whether the texture format can be blitted with linear filtering.
    fn supports_linear_blit(&mut self) -> (supported: bool);

    /// Allocates a sampled RGBA8 image with `mip_levels` levels in device
    /// memory. The extent is not empty and there is at least one level.
    fn create_texture_image(&mut self, extent: Extent, mip_levels: u32) -> (id: Option<ImageId>)
        requires
            !extent.spec_is_empty(),
            mip_levels >= 1,
    ;

    /// Copies a staging buffer to level zero of an image and blocks until the
    /// GPU is done.
    fn copy_buffer_to_image(&mut self, src: BufferId, dst: ImageId) -> (ok: bool);

    /// Fills one mipmap level from the level above it with linear filtering
    /// and blocks until the GPU is done.
    fn blit_mip_level(&mut self, image: ImageId, blit: MipBlit) -> (ok: bool);

    /// Gives an image back.
    fn release_image(&mut self, image: ImageId);

    /// Creates a sampler.
    fn create_sampler(&mut self, settings: SamplerSettings) -> (id: Option<SamplerId>);

    /// Tells whether a format can be a depth attachment with optimal tiling;
    /// `None` where the query fails.
    fn supports_depth_format(&mut self, format: DepthFormat) -> (supported: Option<bool>);

    /// Allocates a depth image in device memory. The extent is not empty.
    fn create_depth_image(&mut self, format: DepthFormat, extent: Extent) -> (id: Option<ImageId>)
        requires
            !extent.spec_is_empty(),
    ;

    /// Waits for the completion signal kept for a frame slot and drops it.
    fn wait_for_frame(&mut self, slot: usize) -> (ok: bool);

    /// Begins the command buffer of a frame: begins the pass over the
    /// framebuffer with colour and depth cleared, sets the viewport, binds
    /// pipeline and descriptor set.
    fn begin_frame(
        &mut self,
        pipeline: PipelineId,
        framebuffer: FramebufferId,
        clear: ClearValues,
        viewport: Extent,
        descriptor_set: DescriptorSetId,
    ) -> (ok: bool);

    /// Binds vertex and index buffer and draws `index_count` indices.
    fn draw_indexed(&mut self, vertex_buffer: BufferId, index_buffer: BufferId, index_count: u32) -> (ok: bool);

    /// Ends the pass, submits the command buffer after the acquisition,
    /// presents the image and keeps the completion signal for the slot.
    fn submit_frame(&mut self, slot: usize, image_index: u32) -> (outcome: SubmitOutcome);
}

/// A graphics API together with the record of every call the renderer made
/// to it.
pub struct Gpu<G: GraphicsApi> {
    api: G,
    calls: Ghost<Seq<ApiCall>>,
}

impl<G: GraphicsApi> Gpu<G> {
    /// Every call made so far with its outcome, oldest first.
    pub closed spec fn calls(&self) -> Seq<ApiCall> {
        self.calls@
    }

    /// Takes a graphics API into use; no call has been made yet.
    pub fn new(api: G) -> (gpu: Gpu<G>)
        ensures
            gpu.calls() == Seq::<ApiCall>::empty(),
            gpu.device() == api,
    {
        Gpu { api, calls: Ghost(Seq::empty()) }
    }

    /// The graphics API that is called.
    pub closed spec fn device(&self) -> G {
        self.api
    }

    /// The graphics API that is called.
    pub fn api(&self) -> (api: &G)
        ensures
            *api == self.device(),
    {
        &self.api
    }

    /// The graphics API, for what the renderer does not do itself. What is
    /// done with it is not recorded.
    pub fn api_mut(&mut self) -> (api: &mut G)
        ensures
            *api == old(self).device(),
            final(self).device() == *final(api),
            final(self).calls() == old(self).calls(),
    {
        &mut self.api
    }

    /// Creates the presentation chain and tells how many images it got.
    pub fn create_chain(&mut self, plan: ChainPlan) -> (images: Option<u32>)
        ensures
            final(self).calls() == old(self).calls().push(
                ApiCall::CreateChain { plan, images },
            ),
    {
        let images = self.api.create_chain(plan);
        proof {
            self.calls@ = self.calls@.push(
                ApiCall::CreateChain { plan, images },
            );
        }
        images
    }

    /// Rebuilds the presentation chain from the one in use and tells how many
    /// images it got.
    pub fn recreate_chain(&mut self, plan: ChainPlan) -> (images: Option<u32>)
        ensures
            final(self).calls() == old(self).calls().push(
                ApiCall::RecreateChain { plan, images },
            ),
    {
        let images = self.api.recreate_chain(plan);
        proof {
            self.calls@ = self.calls@.push(
                ApiCall::RecreateChain { plan, images },
            );
        }
        images
    }

    /// Acquires the next presentable image.
    pub fn acquire_image(&mut self) -> (outcome: AcquireOutcome)
        ensures
            final(self).calls() == old(self).calls().push(
                ApiCall::AcquireImage { outcome },
            ),
    {
        let outcome = self.api.acquire_image();
        proof {
            self.calls@ = self.calls@.push(
                ApiCall::AcquireImage { outcome },
            );
        }
        outcome
    }

    /// Creates render pass, layout and pipeline as described.
    pub fn create_pipeline(&mut self, description: &PipelineDescription) -> (id: Option<PipelineId>)
        ensures
            final(self).calls() == old(self).calls().push(
                ApiCall::CreatePipeline { description: description@, id },
            ),
    {
        let id = self.api.create_pipeline(description);
        proof {
            self.calls@ = self.calls@.push(
                ApiCall::CreatePipeline { description: description@, id },
            );
        }
        id
    }

    /// Creates view and framebuffer for one image of the chain and the render
    /// pass of a pipeline, with the depth target as second attachment where
    /// there is one.
    pub fn create_framebuffer(&mut self, pipeline: PipelineId, image: u32, depth: Option<ImageId>) -> (id:
        Option<FramebufferId>)
        ensures
            final(self).calls() == old(self).calls().push(
                ApiCall::CreateFramebuffer { pipeline, image, depth, id },
            ),
    {
        let id = self.api.create_framebuffer(pipeline, image, depth);
        proof {
            self.calls@ = self.calls@.push(
                ApiCall::CreateFramebuffer { pipeline, image, depth, id },
            );
        }
        id
    }

    /// Gives a framebuffer and its view back.
    pub fn release_framebuffer(&mut self, framebuffer: FramebufferId)
        ensures
            final(self).calls() == old(self).calls().push(
                ApiCall::ReleaseFramebuffer { framebuffer },
            ),
    {
        self.api.release_framebuffer(framebuffer);
        proof {
            self.calls@ = self.calls@.push(
                ApiCall::ReleaseFramebuffer { framebuffer },
            );
        }
    }

    /// Allocates a transfer source that the host can write and fills it with
    /// `words`, which are not empty.
    pub fn create_staging_buffer(&mut self, words: &Vec<u32>) -> (id: Option<BufferId>)
        requires
            words.len() > 0,
        ensures
            final(self).calls() == old(self).calls().push(
                ApiCall::CreateStagingBuffer { words: words@, id },
            ),
    {
        let id = self.api.create_staging_buffer(words);
        proof {
            self.calls@ = self.calls@.push(
                ApiCall::CreateStagingBuffer { words: words@, id },
            );
        }
        id
    }

    /// Allocates a transfer source that the host can write and fills it with
    /// `bytes`, which are not empty.
    pub fn create_pixel_staging_buffer(&mut self, bytes: &Vec<u8>) -> (id: Option<BufferId>)
        requires
            bytes.len() > 0,
        ensures
            final(self).calls() == old(self).calls().push(
                ApiCall::CreatePixelStagingBuffer { bytes: bytes@, id },
            ),
    {
        let id = self.api.create_pixel_staging_buffer(bytes);
        proof {
            self.calls@ = self.calls@.push(
                ApiCall::CreatePixelStagingBuffer { bytes: bytes@, id },
            );
        }
        id
    }

    /// Allocates a transfer destination of `words` 32-bit words in device
    /// memory; `words` is not zero.
    pub fn create_device_buffer(&mut self, usage: BufferUsage, words: usize) -> (id: Option<BufferId>)
        requires
            words > 0,
        ensures
            final(self).calls() == old(self).calls().push(
                ApiCall::CreateDeviceBuffer { usage, words, id },
            ),
    {
        let id = self.api.create_device_buffer(usage, words);
        proof {
            self.calls@ = self.calls@.push(
                ApiCall::CreateDeviceBuffer { usage, words, id },
            );
        }
        id
    }

    /// Copies a buffer to another in a one-time command buffer and blocks
    /// until the GPU is done.
    pub fn copy_buffer(&mut self, src: BufferId, dst: BufferId) -> (ok: bool)
        ensures
            final(self).calls() == old(self).calls().push(
                ApiCall::CopyBuffer { src, dst, ok },
            ),
    {
        let ok = self.api.copy_buffer(src, dst);
        proof {
            self.calls@ = self.calls@.push(
                ApiCall::CopyBuffer { src, dst, ok },
            );
        }
        ok
    }

    /// Gives a buffer back.
    pub fn release_buffer(&mut self, buffer: BufferId)
        ensures
            final(self).calls() == old(self).calls().push(
                ApiCall::ReleaseBuffer { buffer },
            ),
    {
        self.api.release_buffer(buffer);
        proof {
            self.calls@ = self.calls@.push(
                ApiCall::ReleaseBuffer { buffer },
            );
        }
    }

    /// Allocates a uniform buffer of one uniform block that the host can write.
    pub fn create_uniform_buffer(&mut self) -> (id: Option<BufferId>)
        ensures
            final(self).calls() == old(self).calls().push(
                ApiCall::CreateUniformBuffer { id },
            ),
    {
        let id = self.api.create_uniform_buffer();
        proof {
            self.calls@ = self.calls@.push(
                ApiCall::CreateUniformBuffer { id },
            );
        }
        id
    }

    /// Creates a descriptor set for the layout of a pipeline, with the uniform
    /// buffer at binding zero.
    pub fn create_descriptor_set(&mut self, pipeline: PipelineId, uniforms: BufferId) -> (id: Option<
        DescriptorSetId,
    >)
        ensures
            final(self).calls() == old(self).calls().push(
                ApiCall::CreateDescriptorSet { pipeline, uniforms, id },
            ),
    {
        let id = self.api.create_descriptor_set(pipeline, uniforms);
        proof {
            self.calls@ = self.calls@.push(
                ApiCall::CreateDescriptorSet { pipeline, uniforms, id },
            );
        }
        id
    }

    /// Writes a uniform block from the host.
    pub fn write_uniforms(&mut self, buffer: BufferId, block: &[u32; UNIFORM_BLOCK_WORDS]) -> (ok: bool)
        ensures
            final(self).calls() == old(self).calls().push(
                ApiCall::WriteUniforms { buffer, block: block@, ok },
            ),
    {
        let ok = self.api.write_uniforms(buffer, block);
        proof {
            self.calls@ = self.calls@.push(
                ApiCall::WriteUniforms { buffer, block: block@, ok },
            );
        }
        ok
    }

    /// Tells whether the texture format can be blitted with linear filtering.
    pub fn supports_linear_blit(&mut self) -> (supported: bool)
        ensures
            final(self).calls() == old(self).calls().push(
                ApiCall::QueryLinearBlit { supported },
            ),
    {
        let supported = self.api.supports_linear_blit();
        proof {
            self.calls@ = self.calls@.push(
                ApiCall::QueryLinearBlit { supported },
            );
        }
        supported
    }

    /// Allocates a sampled RGBA8 image with `mip_levels` levels in device
    /// memory. The extent is not empty and there is at least one level.
    pub fn create_texture_image(&mut self, extent: Extent, mip_levels: u32) -> (id: Option<ImageId>)
        requires
            !extent.spec_is_empty(),
            mip_levels >= 1,
        ensures
            final(self).calls() == old(self).calls().push(
                ApiCall::CreateTextureImage { extent, mip_levels, id },
            ),
    {
        let id = self.api.create_texture_image(extent, mip_levels);
        proof {
            self.calls@ = self.calls@.push(
                ApiCall::CreateTextureImage { extent, mip_levels, id },
            );
        }
        id
    }

    /// Copies a staging buffer to level zero of an image and blocks until the
    /// GPU is done.
    pub fn copy_buffer_to_image(&mut self, src: BufferId, dst: ImageId) -> (ok: bool)
        ensures
            final(self).calls() == old(self).calls().push(
                ApiCall::CopyBufferToImage { src, dst, ok },
            ),
    {
        let ok = self.api.copy_buffer_to_image(src, dst);
        proof {
            self.calls@ = self.calls@.push(
                ApiCall::CopyBufferToImage { src, dst, ok },
            );
        }
        ok
    }

    /// Fills one mipmap level from the level above it with linear filtering
    /// and blocks until the GPU is done.
    pub fn blit_mip_level(&mut self, image: ImageId, blit: MipBlit) -> (ok: bool)
        ensures
            final(self).calls() == old(self).calls().push(
                ApiCall::BlitMipLevel { image, blit, ok },
            ),
    {
        let ok = self.api.blit_mip_level(image, blit);
        proof {
            self.calls@ = self.calls@.push(
                ApiCall::BlitMipLevel { image, blit, ok },
            );
        }
        ok
    }

    /// Gives an image back.
    pub fn release_image(&mut self, image: ImageId)
        ensures
            final(self).calls() == old(self).calls().push(
                ApiCall::ReleaseImage { image },
            ),
    {
        self.api.release_image(image);
        proof {
            self.calls@ = self.calls@.push(
                ApiCall::ReleaseImage { image },
            );
        }
    }

    /// Creates a sampler.
    pub fn create_sampler(&mut self, settings: SamplerSettings) -> (id: Option<SamplerId>)
        ensures
            final(self).calls() == old(self).calls().push(
                ApiCall::CreateSampler { settings, id },
            ),
    {
        let id = self.api.create_sampler(settings);
        proof {
            self.calls@ = self.calls@.push(
                ApiCall::CreateSampler { settings, id },
            );
        }
        id
    }

    /// Tells whether a format can be a depth attachment with optimal tiling;
    /// `None` where the query fails.
    pub fn supports_depth_format(&mut self, format: DepthFormat) -> (supported: Option<bool>)
        ensures
            final(self).calls() == old(self).calls().push(
                ApiCall::QueryDepthFormat { format, supported },
            ),
    {
        let supported = self.api.supports_depth_format(format);
        proof {
            self.calls@ = self.calls@.push(
                ApiCall::QueryDepthFormat { format, supported },
            );
        }
        supported
    }

    /// Allocates a depth image in device memory. The extent is not empty.
    pub fn create_depth_image(&mut self, format: DepthFormat, extent: Extent) -> (id: Option<ImageId>)
        requires
            !extent.spec_is_empty(),
        ensures
            final(self).calls() == old(self).calls().push(
                ApiCall::CreateDepthImage { format, extent, id },
            ),
    {
        let id = self.api.create_depth_image(format, extent);
        proof {
            self.calls@ = self.calls@.push(
                ApiCall::CreateDepthImage { format, extent, id },
            );
        }
        id
    }

    /// Waits for the completion signal kept for a frame slot and drops it.
    pub fn wait_for_frame(&mut self, slot: usize) -> (ok: bool)
        ensures
            final(self).calls() == old(self).calls().push(
                ApiCall::WaitForFrame { slot, ok },
            ),
    {
        let ok = self.api.wait_for_frame(slot);
        proof {
            self.calls@ = self.calls@.push(
                ApiCall::WaitForFrame { slot, ok },
            );
        }
        ok
    }

    /// Begins the command buffer of a frame: begins the pass over the
    /// framebuffer with colour and depth cleared, sets the viewport, binds
    /// pipeline and descriptor set.
    pub fn begin_frame(
        &mut self,
        pipeline: PipelineId,
        framebuffer: FramebufferId,
        clear: ClearValues,
        viewport: Extent,
        descriptor_set: DescriptorSetId,
    ) -> (ok: bool)
        ensures
            final(self).calls() == old(self).calls().push(
                ApiCall::BeginFrame { pipeline, framebuffer, clear, viewport, descriptor_set, ok },
            ),
    {
        let ok = self.api.begin_frame(pipeline, framebuffer, clear, viewport, descriptor_set);
        proof {
            self.calls@ = self.calls@.push(
                ApiCall::BeginFrame { pipeline, framebuffer, clear, viewport, descriptor_set, ok },
            );
        }
        ok
    }

    /// Binds vertex and index buffer and draws `index_count` indices.
    pub fn draw_indexed(&mut self, vertex_buffer: BufferId, index_buffer: BufferId, index_count: u32) -> (ok: bool)
        ensures
            final(self).calls() == old(self).calls().push(
                ApiCall::DrawIndexed { vertex_buffer, index_buffer, index_count, ok },
            ),
    {
        let ok = self.api.draw_indexed(vertex_buffer, index_buffer, index_count);
        proof {
            self.calls@ = self.calls@.push(
                ApiCall::DrawIndexed { vertex_buffer, index_buffer, index_count, ok },
            );
        }
        ok
    }

    /// Ends the pass, submits the command buffer after the acquisition,
    /// presents the image and keeps the completion signal for the slot.
    pub fn submit_frame(&mut self, slot: usize, image_index: u32) -> (outcome: SubmitOutcome)
        ensures
            final(self).calls() == old(self).calls().push(
                ApiCall::SubmitFrame { slot, image_index, outcome },
            ),
    {
        let outcome = self.api.submit_frame(slot, image_index);
        proof {
            self.calls@ = self.calls@.push(
                ApiCall::SubmitFrame { slot, image_index, outcome },
            );
        }
        outcome
    }
}

} // verus!
