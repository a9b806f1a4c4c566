//! A graphics API without a device: it records the calls made to it, hands
//! out consecutive ids and answers as it was told to.

use crate::api::{
    ApiCall, BufferId, BufferUsage, Call, ClearValues, DepthFormat, DescriptorSetId, FramebufferId,
    GraphicsApi, ImageId, PipelineId, RecordedCall, SamplerId,
};
use crate::pipeline::PipelineDescription;
use crate::extent::Extent;
use crate::frame::{AcquireOutcome, SubmitOutcome};
use crate::sampler::SamplerSettings;
use crate::surface::ChainPlan;
use crate::upload::MipBlit;
use crate::ubo::UNIFORM_BLOCK_WORDS;
use vstd::prelude::*;
use vstd::slice::slice_to_vec;

verus! {

/// The calls of the graphics API that can be made to fail.
#[derive(Clone, Copy, Debug, PartialEq, Eq, Structural)]
pub enum CallKind {
    CreateChain,
    RecreateChain,
    AcquireImage,
    CreatePipeline,
    CreateFramebuffer,
    CreateStagingBuffer,
    CreatePixelStagingBuffer,
    CreateDeviceBuffer,
    CopyBuffer,
    CreateUniformBuffer,
    CreateDescriptorSet,
    WriteUniforms,
    CreateTextureImage,
    CopyBufferToImage,
    BlitMipLevel,
    CreateSampler,
    QueryDepthFormat,
    CreateDepthImage,
    WaitForFrame,
    BeginFrame,
    DrawIndexed,
    SubmitFrame,
}

/// A graphics API for running the renderer without a device.
///
/// Every call succeeds unless its kind was set to fail. Objects get the ids
/// 0, 1, 2, .. in the order of their creation. Acquisitions hand out the
/// images of the chain in turn and submissions are signalled, unless other
/// outcomes were scripted; these are used up first.
#[derive(Debug)]
pub struct RecordingApi {
    calls: Vec<RecordedCall>,
    failing: Vec<CallKind>,
    next_id: u32,
    image_count: u32,
    next_image: u32,
    acquires: Vec<AcquireOutcome>,
    submits: Vec<SubmitOutcome>,
    linear_blit: bool,
    depth_formats: Vec<DepthFormat>,
}

/// What a recording API holds, as mathematical values.
pub struct RecordingApiState {
    /// The calls recorded so far, oldest first.
    pub calls: Seq<ApiCall>,
    /// The kinds of call that fail.
    pub failing: Seq<CallKind>,
    /// The id of the next object.
    pub next_id: u32,
    /// Number of images a chain gets.
    pub image_count: u32,
    /// The image that the next unscripted acquisition hands out.
    pub next_image: u32,
    /// Outcomes scripted for the next acquisitions.
    pub acquires: Seq<AcquireOutcome>,
    /// Outcomes scripted for the next submissions.
    pub submits: Seq<SubmitOutcome>,
    /// The texture format can be blitted with linear filtering.
    pub linear_blit: bool,
    /// The formats that can be a depth attachment.
    pub depth_formats: Seq<DepthFormat>,
}

impl RecordingApiState {
    /// Whether a call of this kind succeeds.
    pub open spec fn passes(self, kind: CallKind) -> bool {
        !self.failing.contains(kind)
    }

    /// The id that a creating call of this kind hands out.
    pub open spec fn created(self, kind: CallKind) -> Option<u32> {
        if self.passes(kind) {
            Some(self.next_id)
        } else {
            None
        }
    }

    /// The state after a creating call of this kind, but for its record.
    pub open spec fn after_create(self, kind: CallKind) -> RecordingApiState {
        if self.passes(kind) {
            RecordingApiState {
                next_id: if self.next_id == u32::MAX {
                    0
                } else {
                    (self.next_id + 1) as u32
                },
                ..self
            }
        } else {
            self
        }
    }

    /// The number of images that creating or rebuilding the chain reports.
    pub open spec fn chain_images(self, kind: CallKind) -> Option<u32> {
        if self.passes(kind) {
            Some(self.image_count)
        } else {
            None
        }
    }

    /// The outcome of the next acquisition: `Failed` where acquisitions are
    /// set to fail, else the first scripted outcome, else the next image of
    /// the chain, and `Failed` where the chain has none.
    pub open spec fn next_acquire(self) -> AcquireOutcome {
        if !self.passes(CallKind::AcquireImage) {
            AcquireOutcome::Failed
        } else if self.acquires.len() > 0 {
            self.acquires[0]
        } else if self.next_image < self.image_count {
            AcquireOutcome::Image { index: self.next_image, suboptimal: false }
        } else {
            AcquireOutcome::Failed
        }
    }

    /// The state after the next acquisition, but for its record.
    pub open spec fn after_acquire(self) -> RecordingApiState {
        if !self.passes(CallKind::AcquireImage) {
            self
        } else if self.acquires.len() > 0 {
            RecordingApiState { acquires: self.acquires.skip(1), ..self }
        } else if self.next_image < self.image_count {
            RecordingApiState {
                next_image: if self.next_image + 1 == self.image_count {
                    0
                } else {
                    (self.next_image + 1) as u32
                },
                ..self
            }
        } else {
            self
        }
    }

    /// The outcome of the next submission: `Failed` where submissions are
    /// set to fail, else the first scripted outcome, else `Signalled`.
    pub open spec fn next_submit(self) -> SubmitOutcome {
        if !self.passes(CallKind::SubmitFrame) {
            SubmitOutcome::Failed
        } else if self.submits.len() > 0 {
            self.submits[0]
        } else {
            SubmitOutcome::Signalled
        }
    }

    /// The state after the next submission, but for its record.
    pub open spec fn after_submit(self) -> RecordingApiState {
        if self.passes(CallKind::SubmitFrame) && self.submits.len() > 0 {
            RecordingApiState { submits: self.submits.skip(1), ..self }
        } else {
            self
        }
    }

    /// The answer to a query for a depth format: `None` where the query is
    /// set to fail.
    pub open spec fn depth_support(self, format: DepthFormat) -> Option<bool> {
        if self.passes(CallKind::QueryDepthFormat) {
            Some(self.depth_formats.contains(format))
        } else {
            None
        }
    }

    /// The state with one more call recorded.
    pub open spec fn called(self, call: ApiCall) -> RecordingApiState {
        RecordingApiState { calls: self.calls.push(call), ..self }
    }
}

impl View for RecordingApi {
    type V = RecordingApiState;

    closed spec fn view(&self) -> RecordingApiState {
        RecordingApiState {
            calls: Seq::new(self.calls@.len(), |i: int| self.calls@[i]@),
            failing: self.failing@,
            next_id: self.next_id,
            image_count: self.image_count,
            next_image: self.next_image,
            acquires: self.acquires@,
            submits: self.submits@,
            linear_blit: self.linear_blit,
            depth_formats: self.depth_formats@,
        }
    }
}

impl RecordingApi {
    /// An API whose chains get `image_count` images, with linear blits and
    /// every depth format supported, nothing recorded, nothing failing and
    /// nothing scripted.
    pub fn new(image_count: u32) -> (api: RecordingApi)
        ensures
            api@ == (RecordingApiState {
                calls: Seq::empty(),
                failing: Seq::empty(),
                next_id: 0,
                image_count,
                next_image: 0,
                acquires: Seq::empty(),
                submits: Seq::empty(),
                linear_blit: true,
                depth_formats: seq![
                    DepthFormat::D32Sfloat,
                    DepthFormat::D32SfloatS8Uint,
                    DepthFormat::D24UnormS8Uint,
                ],
            }),
    {
        let mut depth_formats: Vec<DepthFormat> = Vec::new();
        depth_formats.push(DepthFormat::D32Sfloat);
        depth_formats.push(DepthFormat::D32SfloatS8Uint);
        depth_formats.push(DepthFormat::D24UnormS8Uint);
        assert(depth_formats@ =~= seq![
            DepthFormat::D32Sfloat,
            DepthFormat::D32SfloatS8Uint,
            DepthFormat::D24UnormS8Uint,
        ]);
        let api = RecordingApi {
            calls: Vec::new(),
            failing: Vec::new(),
            next_id: 0,
            image_count,
            next_image: 0,
            acquires: Vec::new(),
            submits: Vec::new(),
            linear_blit: true,
            depth_formats,
        };
        assert(api@.calls =~= Seq::empty());
        api
    }

    /// The calls recorded so far, oldest first.
    pub fn recorded(&self) -> (calls: &Vec<RecordedCall>)
        ensures
            calls@.len() == self@.calls.len(),
            forall|i: int| 0 <= i < calls@.len() ==> (#[trigger] calls@[i])@ == self@.calls[i],
    {
        &self.calls
    }

    /// Records a call behind those recorded so far.
    fn record(&mut self, call: RecordedCall)
        ensures
            final(self)@ == old(self)@.called(call@),
    {
        self.calls.push(call);
        assert(self@.calls =~= old(self)@.calls.push(call@));
    }

    /// Makes every call of this kind fail from now on.
    pub fn fail(&mut self, kind: CallKind)
        ensures
            final(self)@ == (RecordingApiState {
                failing: old(self)@.failing.push(kind),
                ..old(self)@
            }),
    {
        self.failing.push(kind);
    }

    /// Lets every call succeed again.
    pub fn fail_nothing(&mut self)
        ensures
            final(self)@ == (RecordingApiState { failing: Seq::empty(), ..old(self)@ }),
    {
        self.failing.clear();
    }

    /// Scripts the outcome of an acquisition, after those scripted before.
    pub fn script_acquire(&mut self, outcome: AcquireOutcome)
        ensures
            final(self)@ == (RecordingApiState {
                acquires: old(self)@.acquires.push(outcome),
                ..old(self)@
            }),
    {
        self.acquires.push(outcome);
    }

    /// Scripts the outcome of a submission, after those scripted before.
    pub fn script_submit(&mut self, outcome: SubmitOutcome)
        ensures
            final(self)@ == (RecordingApiState {
                submits: old(self)@.submits.push(outcome),
                ..old(self)@
            }),
    {
        self.submits.push(outcome);
    }

    /// Sets whether the texture format can be blitted with linear filtering.
    pub fn set_linear_blit(&mut self, supported: bool)
        ensures
            final(self)@ == (RecordingApiState { linear_blit: supported, ..old(self)@ }),
    {
        self.linear_blit = supported;
    }

    /// Sets the formats that can be a depth attachment.
    pub fn set_depth_formats(&mut self, formats: Vec<DepthFormat>)
        ensures
            final(self)@ == (RecordingApiState { depth_formats: formats@, ..old(self)@ }),
    {
        self.depth_formats = formats;
    }

    /// Sets the number of images a chain gets from now on.
    pub fn set_image_count(&mut self, image_count: u32)
        ensures
            final(self)@ == (RecordingApiState { image_count, next_image: 0, ..old(self)@ }),
    {
        self.image_count = image_count;
        self.next_image = 0;
    }

    fn passes(&self, kind: CallKind) -> (r: bool)
        ensures
            r == self@.passes(kind),
    {
        let mut i: usize = 0;
        while i < self.failing.len()
            invariant
                i <= self.failing.len(),
                forall|k: int| 0 <= k < i ==> self.failing@[k] != kind,
            decreases self.failing.len() - i,
        {
            if self.failing[i] == kind {
                return false;
            }
            i += 1;
        }
        true
    }

    fn create(&mut self, kind: CallKind) -> (id: Option<u32>)
        ensures
            id == old(self)@.created(kind),
            final(self)@ == old(self)@.after_create(kind),
    {
        if self.passes(kind) {
            let id = self.next_id;
            self.next_id = if id == u32::MAX {
                0
            } else {
                id + 1
            };
            Some(id)
        } else {
            None
        }
    }

    fn chain_images(&self, kind: CallKind) -> (images: Option<u32>)
        ensures
            images == self@.chain_images(kind),
    {
        if self.passes(kind) {
            Some(self.image_count)
        } else {
            None
        }
    }
}

impl GraphicsApi for RecordingApi {
    fn create_chain(&mut self, plan: ChainPlan) -> (images: Option<u32>)
        ensures
            images == old(self)@.chain_images(CallKind::CreateChain),
            final(self)@ == old(self)@.called(ApiCall::CreateChain { plan, images }),
    {
        let images = self.chain_images(CallKind::CreateChain);
        self.record(Call::CreateChain { plan, images });
        images
    }

    fn recreate_chain(&mut self, plan: ChainPlan) -> (images: Option<u32>)
        ensures
            images == old(self)@.chain_images(CallKind::RecreateChain),
            final(self)@ == old(self)@.called(ApiCall::RecreateChain { plan, images }),
    {
        let images = self.chain_images(CallKind::RecreateChain);
        self.record(Call::RecreateChain { plan, images });
        images
    }

    fn acquire_image(&mut self) -> (outcome: AcquireOutcome)
        ensures
            outcome == old(self)@.next_acquire(),
            final(self)@ == old(self)@.after_acquire().called(ApiCall::AcquireImage { outcome }),
    {
        let outcome = if !self.passes(CallKind::AcquireImage) {
            AcquireOutcome::Failed
        } else if self.acquires.len() > 0 {
            self.acquires.remove(0)
        } else if self.next_image < self.image_count {
            let index = self.next_image;
            self.next_image = if index + 1 == self.image_count {
                0
            } else {
                index + 1
            };
            AcquireOutcome::Image { index, suboptimal: false }
        } else {
            AcquireOutcome::Failed
        };
        self.record(Call::AcquireImage { outcome });
        assert(self@.acquires =~= old(self)@.after_acquire().acquires);
        outcome
    }

    fn create_pipeline(&mut self, description: &PipelineDescription) -> (id: Option<PipelineId>)
        ensures
            id == as_pipeline(old(self)@.created(CallKind::CreatePipeline)),
            final(self)@ == old(self)@.after_create(CallKind::CreatePipeline).called(
                ApiCall::CreatePipeline { description: description@, id },
            ),
    {
        let id = match self.create(CallKind::CreatePipeline) {
            Some(id) => Some(PipelineId(id)),
            None => None,
        };
        self.record(Call::CreatePipeline { description: description.duplicate(), id });
        id
    }

    fn create_framebuffer(&mut self, pipeline: PipelineId, image: u32, depth: Option<ImageId>) -> (id:
        Option<FramebufferId>)
        ensures
            id == as_framebuffer(old(self)@.created(CallKind::CreateFramebuffer)),
            final(self)@ == old(self)@.after_create(CallKind::CreateFramebuffer).called(
                ApiCall::CreateFramebuffer { pipeline, image, depth, id },
            ),
    {
        let id = match self.create(CallKind::CreateFramebuffer) {
            Some(id) => Some(FramebufferId(id)),
            None => None,
        };
        self.record(Call::CreateFramebuffer { pipeline, image, depth, id });
        id
    }

    fn release_framebuffer(&mut self, framebuffer: FramebufferId)
        ensures
            final(self)@ == old(self)@.called(ApiCall::ReleaseFramebuffer { framebuffer }),
    {
        self.record(Call::ReleaseFramebuffer { framebuffer });
    }

    fn create_staging_buffer(&mut self, words: &Vec<u32>) -> (id: Option<BufferId>)
        ensures
            id == as_buffer(old(self)@.created(CallKind::CreateStagingBuffer)),
            final(self)@ == old(self)@.after_create(CallKind::CreateStagingBuffer).called(
                ApiCall::CreateStagingBuffer { words: words@, id },
            ),
    {
        let id = match self.create(CallKind::CreateStagingBuffer) {
            Some(id) => Some(BufferId(id)),
            None => None,
        };
        self.record(Call::CreateStagingBuffer { words: slice_to_vec(words.as_slice()), id });
        id
    }

    fn create_pixel_staging_buffer(&mut self, bytes: &Vec<u8>) -> (id: Option<BufferId>)
        ensures
            id == as_buffer(old(self)@.created(CallKind::CreatePixelStagingBuffer)),
            final(self)@ == old(self)@.after_create(CallKind::CreatePixelStagingBuffer).called(
                ApiCall::CreatePixelStagingBuffer { bytes: bytes@, id },
            ),
    {
        let id = match self.create(CallKind::CreatePixelStagingBuffer) {
            Some(id) => Some(BufferId(id)),
            None => None,
        };
        self.record(Call::CreatePixelStagingBuffer { bytes: slice_to_vec(bytes.as_slice()), id });
        id
    }

    fn create_device_buffer(&mut self, usage: BufferUsage, words: usize) -> (id: Option<BufferId>)
        ensures
            id == as_buffer(old(self)@.created(CallKind::CreateDeviceBuffer)),
            final(self)@ == old(self)@.after_create(CallKind::CreateDeviceBuffer).called(
                ApiCall::CreateDeviceBuffer { usage, words, id },
            ),
    {
        let id = match self.create(CallKind::CreateDeviceBuffer) {
            Some(id) => Some(BufferId(id)),
            None => None,
        };
        self.record(Call::CreateDeviceBuffer { usage, words, id });
        id
    }

    fn copy_buffer(&mut self, src: BufferId, dst: BufferId) -> (ok: bool)
        ensures
            ok == old(self)@.passes(CallKind::CopyBuffer),
            final(self)@ == old(self)@.called(ApiCall::CopyBuffer { src, dst, ok }),
    {
        let ok = self.passes(CallKind::CopyBuffer);
        self.record(Call::CopyBuffer { src, dst, ok });
        ok
    }

    fn release_buffer(&mut self, buffer: BufferId)
        ensures
            final(self)@ == old(self)@.called(ApiCall::ReleaseBuffer { buffer }),
    {
        self.record(Call::ReleaseBuffer { buffer });
    }

    fn create_uniform_buffer(&mut self) -> (id: Option<BufferId>)
        ensures
            id == as_buffer(old(self)@.created(CallKind::CreateUniformBuffer)),
            final(self)@ == old(self)@.after_create(CallKind::CreateUniformBuffer).called(
                ApiCall::CreateUniformBuffer { id },
            ),
    {
        let id = match self.create(CallKind::CreateUniformBuffer) {
            Some(id) => Some(BufferId(id)),
            None => None,
        };
        self.record(Call::CreateUniformBuffer { id });
        id
    }

    fn create_descriptor_set(&mut self, pipeline: PipelineId, uniforms: BufferId) -> (id: Option<
        DescriptorSetId,
    >)
        ensures
            id == as_descriptor_set(old(self)@.created(CallKind::CreateDescriptorSet)),
            final(self)@ == old(self)@.after_create(CallKind::CreateDescriptorSet).called(
                ApiCall::CreateDescriptorSet { pipeline, uniforms, id },
            ),
    {
        let id = match self.create(CallKind::CreateDescriptorSet) {
            Some(id) => Some(DescriptorSetId(id)),
            None => None,
        };
        self.record(Call::CreateDescriptorSet { pipeline, uniforms, id });
        id
    }

    fn write_uniforms(&mut self, buffer: BufferId, block: &[u32; UNIFORM_BLOCK_WORDS]) -> (ok: bool)
        ensures
            ok == old(self)@.passes(CallKind::WriteUniforms),
            final(self)@ == old(self)@.called(ApiCall::WriteUniforms { buffer, block: block@, ok }),
    {
        let ok = self.passes(CallKind::WriteUniforms);
        self.record(Call::WriteUniforms { buffer, block: slice_to_vec(block.as_slice()), ok });
        ok
    }

    fn supports_linear_blit(&mut self) -> (supported: bool)
        ensures
            supported == old(self)@.linear_blit,
            final(self)@ == old(self)@.called(ApiCall::QueryLinearBlit { supported }),
    {
        let supported = self.linear_blit;
        self.record(Call::QueryLinearBlit { supported });
        supported
    }

    fn create_texture_image(&mut self, extent: Extent, mip_levels: u32) -> (id: Option<ImageId>)
        ensures
            id == as_image(old(self)@.created(CallKind::CreateTextureImage)),
            final(self)@ == old(self)@.after_create(CallKind::CreateTextureImage).called(
                ApiCall::CreateTextureImage { extent, mip_levels, id },
            ),
    {
        let id = match self.create(CallKind::CreateTextureImage) {
            Some(id) => Some(ImageId(id)),
            None => None,
        };
        self.record(Call::CreateTextureImage { extent, mip_levels, id });
        id
    }

    fn copy_buffer_to_image(&mut self, src: BufferId, dst: ImageId) -> (ok: bool)
        ensures
            ok == old(self)@.passes(CallKind::CopyBufferToImage),
            final(self)@ == old(self)@.called(ApiCall::CopyBufferToImage { src, dst, ok }),
    {
        let ok = self.passes(CallKind::CopyBufferToImage);
        self.record(Call::CopyBufferToImage { src, dst, ok });
        ok
    }

    fn blit_mip_level(&mut self, image: ImageId, blit: MipBlit) -> (ok: bool)
        ensures
            ok == old(self)@.passes(CallKind::BlitMipLevel),
            final(self)@ == old(self)@.called(ApiCall::BlitMipLevel { image, blit, ok }),
    {
        let ok = self.passes(CallKind::BlitMipLevel);
        self.record(Call::BlitMipLevel { image, blit, ok });
        ok
    }

    fn release_image(&mut self, image: ImageId)
        ensures
            final(self)@ == old(self)@.called(ApiCall::ReleaseImage { image }),
    {
        self.record(Call::ReleaseImage { image });
    }

    fn create_sampler(&mut self, settings: SamplerSettings) -> (id: Option<SamplerId>)
        ensures
            id == as_sampler(old(self)@.created(CallKind::CreateSampler)),
            final(self)@ == old(self)@.after_create(CallKind::CreateSampler).called(
                ApiCall::CreateSampler { settings, id },
            ),
    {
        let id = match self.create(CallKind::CreateSampler) {
            Some(id) => Some(SamplerId(id)),
            None => None,
        };
        self.record(Call::CreateSampler { settings, id });
        id
    }

    fn supports_depth_format(&mut self, format: DepthFormat) -> (supported: Option<bool>)
        ensures
            supported == old(self)@.depth_support(format),
            final(self)@ == old(self)@.called(ApiCall::QueryDepthFormat { format, supported }),
    {
        let supported = if self.passes(CallKind::QueryDepthFormat) {
            let mut found = false;
            let mut i: usize = 0;
            while i < self.depth_formats.len()
                invariant
                    i <= self.depth_formats.len(),
                    found == self.depth_formats@.take(i as int).contains(format),
                decreases self.depth_formats.len() - i,
            {
                let ghost earlier = self.depth_formats@.take(i as int);
                if self.depth_formats[i] == format {
                    found = true;
                }
                i += 1;
                proof {
                    let now = self.depth_formats@.take(i as int);
                    assert(now =~= earlier.push(self.depth_formats@[i - 1]));
                    if earlier.contains(format) {
                        let k = choose|k: int| 0 <= k < earlier.len() && earlier[k] == format;
                        assert(now[k] == format);
                    }
                    if self.depth_formats@[i - 1] == format {
                        assert(now[i - 1] == format);
                    }
                }
            }
            assert(self.depth_formats@.take(i as int) =~= self.depth_formats@);
            Some(found)
        } else {
            None
        };
        self.record(Call::QueryDepthFormat { format, supported });
        supported
    }

    fn create_depth_image(&mut self, format: DepthFormat, extent: Extent) -> (id: Option<ImageId>)
        ensures
            id == as_image(old(self)@.created(CallKind::CreateDepthImage)),
            final(self)@ == old(self)@.after_create(CallKind::CreateDepthImage).called(
                ApiCall::CreateDepthImage { format, extent, id },
            ),
    {
        let id = match self.create(CallKind::CreateDepthImage) {
            Some(id) => Some(ImageId(id)),
            None => None,
        };
        self.record(Call::CreateDepthImage { format, extent, id });
        id
    }

    fn wait_for_frame(&mut self, slot: usize) -> (ok: bool)
        ensures
            ok == old(self)@.passes(CallKind::WaitForFrame),
            final(self)@ == old(self)@.called(ApiCall::WaitForFrame { slot, ok }),
    {
        let ok = self.passes(CallKind::WaitForFrame);
        self.record(Call::WaitForFrame { slot, ok });
        ok
    }

    fn begin_frame(
        &mut self,
        pipeline: PipelineId,
        framebuffer: FramebufferId,
        clear: ClearValues,
        viewport: Extent,
        descriptor_set: DescriptorSetId,
    ) -> (ok: bool)
        ensures
            ok == old(self)@.passes(CallKind::BeginFrame),
            final(self)@ == old(self)@.called(
                ApiCall::BeginFrame { pipeline, framebuffer, clear, viewport, descriptor_set, ok },
            ),
    {
        let ok = self.passes(CallKind::BeginFrame);
        self.record(
            Call::BeginFrame { pipeline, framebuffer, clear, viewport, descriptor_set, ok },
        );
        ok
    }

    fn draw_indexed(&mut self, vertex_buffer: BufferId, index_buffer: BufferId, index_count: u32) -> (ok:
        bool)
        ensures
            ok == old(self)@.passes(CallKind::DrawIndexed),
            final(self)@ == old(self)@.called(
                ApiCall::DrawIndexed { vertex_buffer, index_buffer, index_count, ok },
            ),
    {
        let ok = self.passes(CallKind::DrawIndexed);
        self.record(Call::DrawIndexed { vertex_buffer, index_buffer, index_count, ok });
        ok
    }

    fn submit_frame(&mut self, slot: usize, image_index: u32) -> (outcome: SubmitOutcome)
        ensures
            outcome == old(self)@.next_submit(),
            final(self)@ == old(self)@.after_submit().called(
                ApiCall::SubmitFrame { slot, image_index, outcome },
            ),
    {
        let outcome = if !self.passes(CallKind::SubmitFrame) {
            SubmitOutcome::Failed
        } else if self.submits.len() > 0 {
            self.submits.remove(0)
        } else {
            SubmitOutcome::Signalled
        };
        self.record(Call::SubmitFrame { slot, image_index, outcome });
        assert(self@.submits =~= old(self)@.after_submit().submits);
        outcome
    }
}

/// The buffer of this number, if any.
pub open spec fn as_buffer(id: Option<u32>) -> Option<BufferId> {
    match id {
        Some(id) => Some(BufferId(id)),
        None => None,
    }
}

/// The image of this number, if any.
pub open spec fn as_image(id: Option<u32>) -> Option<ImageId> {
    match id {
        Some(id) => Some(ImageId(id)),
        None => None,
    }
}

/// The sampler of this number, if any.
pub open spec fn as_sampler(id: Option<u32>) -> Option<SamplerId> {
    match id {
        Some(id) => Some(SamplerId(id)),
        None => None,
    }
}

/// The pipeline of this number, if any.
pub open spec fn as_pipeline(id: Option<u32>) -> Option<PipelineId> {
    match id {
        Some(id) => Some(PipelineId(id)),
        None => None,
    }
}

/// The framebuffer of this number, if any.
pub open spec fn as_framebuffer(id: Option<u32>) -> Option<FramebufferId> {
    match id {
        Some(id) => Some(FramebufferId(id)),
        None => None,
    }
}

/// The descriptor set of this number, if any.
pub open spec fn as_descriptor_set(id: Option<u32>) -> Option<DescriptorSetId> {
    match id {
        Some(id) => Some(DescriptorSetId(id)),
        None => None,
    }
}

} // verus!
