//! The renderer: resources, presentation chain and frame slots on one
//! graphics API, and the frame loop over them.

use crate::api::{
    ApiCall, BufferId, ClearValues, DepthFormat, DescriptorSetId, FramebufferId, Gpu,
    GraphicsApi, ImageId, PipelineId,
};
use crate::pipeline::{PipelineDescription, PipelineView, VulkanPipeline};
use crate::extent::Extent;
use crate::frame::{
    follows, lemma_performs_nothing, lemma_performs_one, lemma_performs_split, performs_all,
    AcquireOutcome, FrameReport, FrameScheduler, GpuOp, RenderBackend, ScheduleState,
    SubmitOutcome, WindowState, MAX_FRAMES_IN_FLIGHT,
};
use crate::render_targets::{
    framebuffer_releases, lemma_first_pass, rebuild_calls, RenderTargets, TargetsView,
};
use crate::resources::{
    buffer_releases, uniform_creations, DepthError, DepthOutcome, MeshUpload, ResourcesView,
    VulkanResources,
};
use crate::sampler::Sampler;
use crate::surface::{ChainError, ChainPlan, SurfaceSupport};
use crate::ubo::UniformBufferObject;
use crate::swapchain::{SwapchainView, VulkanSwapchain};
use crate::upload::{mesh_plan, MeshCounts, UploadError};
use crate::vertex::{packed_words, ElmVertex};
use vstd::prelude::*;

verus! {

/// What belongs to one frame slot.
#[derive(Clone, Copy, Debug, PartialEq, Eq, Structural)]
pub struct FrameState {
    /// A completion signal is pending: the GPU may still be working on the
    /// frame that last used the slot.
    pub in_flight: bool,
    /// The descriptor set bound to the slot's uniform buffer.
    pub descriptor_set: DescriptorSetId,
}

/// Everything that depends on the surface: chain, render targets, viewport
/// and the frame slots with their bookkeeping.
#[derive(Debug)]
pub struct RenderContext {
    swapchain: VulkanSwapchain,
    pipeline: VulkanPipeline,
    render_targets: RenderTargets,
    viewport: Extent,
    frames: Vec<FrameState>,
    schedule: FrameScheduler,
}

/// A render context as plain values.
pub struct ContextView {
    pub swapchain: SwapchainView,
    pub pipeline: PipelineView,
    pub render_targets: TargetsView,
    /// The extent that frames are drawn at.
    pub viewport: Extent,
    /// The frame slots.
    pub frames: Seq<FrameState>,
    /// The bookkeeping of the frame loop.
    pub schedule: ScheduleState,
}

impl ContextView {
    /// There is a frame slot for each slot of the schedule.
    pub open spec fn wf(self) -> bool {
        self.frames.len() == self.schedule.slots && self.schedule.wf()
    }
}

impl View for RenderContext {
    type V = ContextView;

    closed spec fn view(&self) -> ContextView {
        ContextView {
            swapchain: self.swapchain@,
            pipeline: self.pipeline@,
            render_targets: self.render_targets@,
            viewport: self.viewport,
            frames: self.frames@,
            schedule: self.schedule@,
        }
    }
}

/// The render pass that draws the scene.
pub const SCENE_PASS: usize = 0;

/// Why the renderer could not be set up or could not draw.
#[derive(Clone, Copy, Debug, PartialEq, Eq, Structural)]
pub enum RenderError {
    /// `initialize_render_context` has not succeeded yet.
    NotInitialized,
    /// The surface has no area.
    EmptySurface,
    /// The presentation chain could not be created.
    Chain(ChainError),
    /// The depth target could not be made.
    Depth(DepthError),
    /// The pipeline could not be built.
    Pipeline,
    /// A framebuffer could not be created.
    Targets,
    /// A uniform buffer could not be created.
    Uniforms,
    /// A descriptor set could not be created.
    DescriptorSet,
}

/// A renderer on a graphics API.
pub struct VulkanRenderer<G: GraphicsApi> {
    api: Gpu<G>,
    resources: VulkanResources,
    render_context: Option<RenderContext>,
    frame_ops: Ghost<Seq<GpuOp>>,
}

/// A renderer as plain values.
pub struct RendererView {
    /// Every call made to the graphics API.
    pub calls: Seq<ApiCall>,
    /// Every operation of the frame loop and every upload.
    pub ops: Seq<GpuOp>,
    pub resources: ResourcesView,
    /// The render context, once it is initialized.
    pub context: Option<ContextView>,
}

impl RendererView {
    /// The render context, where there is one, is well-formed.
    pub open spec fn wf(self) -> bool {
        self.context matches Some(context) ==> context.wf()
    }

    /// Vertex and index counts of the meshes, by mesh id.
    pub open spec fn mesh_counts(self) -> Seq<MeshCounts> {
        Seq::new(self.resources.meshes.len(), |i: int| self.resources.meshes[i].spec_counts())
    }

    /// Number of frame slots; zero before the context is initialized.
    pub open spec fn slots(self) -> nat {
        match self.context {
            Some(context) => context.frames.len(),
            None => 0,
        }
    }

    /// The framebuffer of the scene pass for an image of the chain, where
    /// there is one.
    pub open spec fn target(self, image_index: u32) -> Option<FramebufferId> {
        match self.context {
            Some(context) => context.target(image_index),
            None => None,
        }
    }

    /// Whether a completion signal is pending for a frame slot.
    pub open spec fn in_flight(self, slot: int) -> bool {
        self.context matches Some(context) && 0 <= slot < context.frames.len()
            && context.frames[slot].in_flight
    }

    /// The renderer after one more call to the graphics API.
    pub open spec fn called(self, call: ApiCall) -> RendererView {
        RendererView { calls: self.calls.push(call), ..self }
    }

    /// The renderer with the completion signal of a frame slot pending or
    /// not; unchanged where there is no such slot.
    pub open spec fn signalled(self, slot: int, in_flight: bool) -> RendererView {
        match self.context {
            Some(context) if 0 <= slot < context.frames.len() => RendererView {
                context: Some(
                    ContextView {
                        frames: context.frames.update(
                            slot,
                            FrameState { in_flight, ..context.frames[slot] },
                        ),
                        ..context
                    },
                ),
                ..self
            },
            _ => self,
        }
    }

    /// The renderer with the bookkeeping of the frame loop replaced.
    pub open spec fn scheduled(self, schedule: ScheduleState) -> RendererView {
        match self.context {
            Some(context) => RendererView {
                context: Some(ContextView { schedule, ..context }),
                ..self
            },
            None => self,
        }
    }

    /// The renderer after an operation of a frame that leaves chain and
    /// meshes as they are. The operation is recorded, and:
    ///
    /// - an acquisition asks the device once, where there is a context;
    /// - a wait asks the device only where the signal of the slot is
    ///   pending, and clears the signal where the wait worked;
    /// - the uniform block goes to the uniform buffer of the slot, matrix
    ///   after matrix, where the slot has one;
    /// - recording begins on the framebuffer of the image with pipeline,
    ///   viewport and the descriptor set of the slot, where the scene pass
    ///   has a framebuffer for the image;
    /// - a draw binds the buffers of the mesh and draws all of its indices;
    /// - a submission asks the device once, and the signal of the slot is
    ///   pending afterwards exactly where it was signalled.
    pub open spec fn after_op(self, op: GpuOp) -> RendererView {
        let recorded = RendererView { ops: self.ops.push(op), ..self };
        match op {
            GpuOp::AcquireImage { outcome } => if self.context.is_some() {
                recorded.called(ApiCall::AcquireImage { outcome })
            } else {
                recorded
            },
            GpuOp::WaitForSlot { slot, ok } => if self.in_flight(slot as int) {
                recorded.called(ApiCall::WaitForFrame { slot, ok }).signalled(slot as int, !ok)
            } else {
                recorded
            },
            GpuOp::WriteUniforms { slot, uniforms, ok } => if slot
                < self.resources.uniform_buffers.len() {
                recorded.called(
                    ApiCall::WriteUniforms {
                        buffer: self.resources.uniform_buffers[slot as int],
                        block: uniforms.spec_words(),
                        ok,
                    },
                )
            } else {
                recorded
            },
            GpuOp::BeginRecording { slot, image_index, ok } => match (
                self.context,
                self.target(image_index),
            ) {
                (Some(context), Some(framebuffer)) if slot < context.frames.len() => recorded.called(
                    ApiCall::BeginFrame {
                        pipeline: context.pipeline.pipeline,
                        framebuffer,
                        clear: ClearValues::spec_scene(context.pipeline.depth.is_some()),
                        viewport: context.viewport,
                        descriptor_set: context.frames[slot as int].descriptor_set,
                        ok,
                    },
                ),
                _ => recorded,
            },
            GpuOp::DrawMesh { mesh, index_count, ok } => if mesh < self.resources.meshes.len() {
                recorded.called(
                    ApiCall::DrawIndexed {
                        vertex_buffer: self.resources.meshes[mesh as int].vertex_buffer,
                        index_buffer: self.resources.meshes[mesh as int].index_buffer,
                        index_count: self.resources.meshes[mesh as int].index_count,
                        ok,
                    },
                )
            } else {
                recorded
            },
            GpuOp::Submit { slot, image_index, outcome } => recorded.called(
                ApiCall::SubmitFrame { slot, image_index, outcome },
            ).signalled(slot as int, outcome == SubmitOutcome::Signalled),
            _ => recorded,
        }
    }

    /// The renderer after chain and render targets were rebuilt at `extent`
    /// with the given outcome; unchanged but for the record of the
    /// operation where there is no context or the extent has no area.
    pub open spec fn rebuilt(self, extent: Extent, outcome: RebuildOutcome) -> RendererView {
        match self.context {
            Some(context) if !extent.spec_is_empty() => RendererView {
                calls: self.calls + outcome.calls(context, self.resources.depth_resource, extent),
                ops: self.ops.push(GpuOp::RecreateChain { extent, ok: outcome.ok() }),
                resources: outcome.resources(self.resources),
                context: Some(outcome.context(context, extent)),
            },
            _ => RendererView {
                ops: self.ops.push(GpuOp::RecreateChain { extent, ok: false }),
                ..self
            },
        }
    }

    /// The renderer after the upload of a mesh of the given words and
    /// indices, which are counted in `counts`, with the given outcome.
    pub open spec fn uploaded(
        self,
        counts: MeshCounts,
        vertices: Seq<u32>,
        indices: Seq<u32>,
        upload: MeshUpload,
    ) -> RendererView {
        RendererView {
            calls: self.calls + upload.calls(vertices, indices),
            ops: self.ops.push(GpuOp::UploadMesh { counts, ok: upload.mesh(counts).is_some() }),
            resources: match upload.mesh(counts) {
                Some(mesh) => ResourcesView {
                    meshes: self.resources.meshes.push(mesh),
                    ..self.resources
                },
                None => self.resources,
            },
            context: self.context,
        }
    }

    /// The renderer after the first `count` draws of a frame of which the
    /// first `draws` worked: the buffers of each mesh are bound and all of
    /// its indices drawn, mesh after mesh in the order of their ids.
    pub open spec fn drawn(self, count: nat, draws: nat) -> RendererView {
        RendererView {
            calls: self.calls + Seq::new(
                count,
                |i: int|
                    ApiCall::DrawIndexed {
                        vertex_buffer: self.resources.meshes[i].vertex_buffer,
                        index_buffer: self.resources.meshes[i].index_buffer,
                        index_count: self.resources.meshes[i].index_count,
                        ok: i < draws,
                    },
            ),
            ops: self.ops + Seq::new(
                count,
                |i: int|
                    GpuOp::DrawMesh {
                        mesh: i as usize,
                        index_count: self.resources.meshes[i].index_count,
                        ok: i < draws,
                    },
            ),
            ..self
        }
    }

    /// The renderer after a frame in slot `slot` whose stages reported
    /// `report`, but for the bookkeeping of the frame loop: the stages that
    /// ran, one after the other, each from what the one before it left. A
    /// rebuild comes first and ends as `rebuild` says; acquisition, wait,
    /// uniform block and the begin of the recording follow; then the draws;
    /// then the submission.
    pub open spec fn after_frame(
        self,
        slot: usize,
        window: WindowState,
        uniforms: UniformBufferObject,
        report: FrameReport,
        rebuild: RebuildOutcome,
    ) -> RendererView {
        let rebuilt = match report.recreate {
            Some(_) => self.rebuilt(window.extent, rebuild),
            None => self,
        };
        let acquired = match report.acquire {
            Some(outcome) => rebuilt.after_op(GpuOp::AcquireImage { outcome }),
            None => rebuilt,
        };
        let waited = match report.wait {
            Some(ok) => acquired.after_op(GpuOp::WaitForSlot { slot, ok }),
            None => acquired,
        };
        let written = match report.uniforms {
            Some(ok) => waited.after_op(GpuOp::WriteUniforms { slot, uniforms, ok }),
            None => waited,
        };
        let begun = match report.recording {
            Some(ok) => written.after_op(
                GpuOp::BeginRecording { slot, image_index: report.image_index(), ok },
            ),
            None => written,
        };
        let drawn = begun.drawn(
            if report.draw_failed {
                (report.draws + 1) as nat
            } else {
                report.draws as nat
            },
            report.draws as nat,
        );
        match report.submit {
            Some(outcome) => drawn.after_op(
                GpuOp::Submit { slot, image_index: report.image_index(), outcome },
            ),
            None => drawn,
        }
    }

    /// A renderer without resources and without render context that has
    /// asked nothing of the device.
    pub open spec fn fresh() -> RendererView {
        RendererView {
            calls: Seq::empty(),
            ops: Seq::empty(),
            resources: ResourcesView {
                meshes: Seq::empty(),
                depth_resource: None,
                textures: Seq::empty(),
                uniform_buffers: Seq::empty(),
            },
            context: None,
        }
    }

    /// The renderer after the steps that set the render context up ended as
    /// `setup` says: the calls were made; the depth target and the uniform
    /// buffers are the new ones where their steps were reached and worked;
    /// and the context is the new one where every step worked, and the one
    /// there was otherwise.
    pub open spec fn after_setup(self, support: SurfaceSupport, size: Extent, setup: Setup) -> RendererView {
        RendererView {
            calls: self.calls + setup.calls(support, size, self.resources),
            ops: self.ops,
            resources: ResourcesView {
                depth_resource: if setup.deepened() {
                    setup.depth.image
                } else {
                    self.resources.depth_resource
                },
                uniform_buffers: if setup.targeted() {
                    setup.uniforms
                } else {
                    self.resources.uniform_buffers
                },
                ..self.resources
            },
            context: if setup.result() is Ok {
                Some(setup.context(support, size))
            } else {
                self.context
            },
        }
    }

    /// Whether the renderer can be `after` once it was asked to set its
    /// render context up for a surface, with the result `r`: a surface that
    /// `surface_check` refuses is refused with the same error and nothing
    /// happens; otherwise the steps ended in one of the ways they can end.
    pub open spec fn set_up(
        self,
        support: SurfaceSupport,
        size: Extent,
        r: Result<(), RenderError>,
        after: RendererView,
    ) -> bool {
        match surface_check(support, size) {
            Err(refusal) => r == Err::<(), RenderError>(refusal) && after == self,
            Ok(_) => exists|setup: Setup|
                {
                    &&& setup.wf(support, size)
                    &&& r == setup.result()
                    &&& after == #[trigger] self.after_setup(support, size, setup)
                },
        }
    }

    /// Whether the renderer, with its context set up, can be `after` once it
    /// drew a frame for `window` whose stages reported `report`: the stages
    /// ran as `FrameReport::staged` says, the renderer is what `after_frame`
    /// says for one of the ways in which the rebuild can have ended, and the
    /// bookkeeping of the frame loop is what `ScheduleState::after` says.
    pub open spec fn frame(
        self,
        window: WindowState,
        uniforms: UniformBufferObject,
        report: FrameReport,
        after: RendererView,
    ) -> bool {
        &&& self.context matches Some(context)
        &&& report.staged(context.schedule, window, self.resources.meshes.len())
        &&& exists|rebuild: RebuildOutcome|
            {
                &&& rebuild.wf()
                &&& report.recreate matches Some(ok) ==> rebuild.ok() == ok
                &&& after == (#[trigger] self.after_frame(
                    self.context->Some_0.schedule.current_frame as usize,
                    window,
                    uniforms,
                    report,
                    rebuild,
                )).scheduled(self.context->Some_0.schedule.after(window, report))
            }
    }

    /// Whether the renderer can be `after` once it performed `op`: a rebuild
    /// or an upload ended in one of the ways it can end, and any other
    /// operation did what `after_op` says.
    pub open spec fn performs(self, op: GpuOp, after: RendererView) -> bool {
        match op {
            GpuOp::RecreateChain { extent, ok } => if self.context.is_none()
                || extent.spec_is_empty() {
                !ok && after == (RendererView { ops: self.ops.push(op), ..self })
            } else {
                exists|outcome: RebuildOutcome|
                    {
                        &&& outcome.wf()
                        &&& outcome.ok() == ok
                        &&& after == #[trigger] self.rebuilt(extent, outcome)
                    }
            },
            GpuOp::UploadMesh { counts, ok } => exists|
                vertices: Seq<u32>,
                indices: Seq<u32>,
                upload: MeshUpload,
            |
                {
                    &&& upload.wf()
                    &&& upload.mesh(counts).is_some() == ok
                    &&& vertices.len() == 8 * counts.vertex_count
                    &&& indices.len() == counts.index_count
                    &&& after == #[trigger] self.uploaded(counts, vertices, indices, upload)
                },
            _ => after == self.after_op(op),
        }
    }
}

impl<G: GraphicsApi> View for VulkanRenderer<G> {
    type V = RendererView;

    closed spec fn view(&self) -> RendererView {
        RendererView {
            calls: self.api.calls(),
            ops: self.frame_ops@,
            resources: self.resources@,
            context: match self.render_context {
                Some(context) => Some(context@),
                None => None,
            },
        }
    }
}

impl<G: GraphicsApi> VulkanRenderer<G> {
    /// A renderer on `api` without resources and without render context.
    pub fn new(api: G) -> (renderer: VulkanRenderer<G>)
        ensures
            renderer@ == RendererView::fresh(),
            renderer.device() == api,
    {
        VulkanRenderer {
            api: Gpu::new(api),
            resources: VulkanResources::new(),
            render_context: None,
            frame_ops: Ghost(Seq::empty()),
        }
    }

    /// The graphics API the renderer draws with.
    pub closed spec fn device(&self) -> G {
        self.api.device()
    }

    /// The graphics API the renderer draws with.
    pub fn api(&self) -> (api: &G)
        ensures
            *api == self.device(),
    {
        self.api.api()
    }

    /// The graphics API, for what the renderer does not do itself. What is
    /// done with it is not recorded.
    pub fn api_mut(&mut self) -> (api: &mut G)
        ensures
            *api == old(self).device(),
            final(self).device() == *final(api),
            final(self)@ == old(self)@,
    {
        self.api.api_mut()
    }

    /// Meshes, textures and buffers of the renderer.
    pub fn resources(&self) -> (resources: &VulkanResources)
        ensures
            resources@ == self@.resources,
    {
        &self.resources
    }

    /// Whether the render context is initialized.
    pub fn is_initialized(&self) -> (r: bool)
        ensures
            r == self@.context.is_some(),
    {
        self.render_context.is_some()
    }

    /// Whether the completion signal of a frame slot is pending.
    pub fn is_in_flight(&self, slot: usize) -> (r: bool)
        ensures
            r == self@.in_flight(slot as int),
    {
        match &self.render_context {
            Some(context) => slot < context.frames.len() && context.frames[slot].in_flight,
            None => false,
        }
    }

    /// The slot that the next recorded frame uses, once the context is
    /// initialized.
    pub fn current_frame(&self) -> (slot: Option<usize>)
        ensures
            match slot {
                Some(slot) => self@.context matches Some(context) && slot
                    == context.schedule.current_frame,
                None => self@.context.is_none(),
            },
    {
        match &self.render_context {
            Some(context) => Some(context.schedule.current_frame()),
            None => None,
        }
    }

    /// Whether the chain is rebuilt before the next acquisition.
    pub fn needs_recreate(&self) -> (r: bool)
        ensures
            r == (self@.context matches Some(context) && context.schedule.needs_recreate),
    {
        match &self.render_context {
            Some(context) => context.schedule.needs_recreate(),
            None => false,
        }
    }

    /// The extent that frames are drawn at, once the context is initialized.
    pub fn viewport(&self) -> (extent: Option<Extent>)
        ensures
            match extent {
                Some(extent) => self@.context matches Some(context) && extent == context.viewport,
                None => self@.context.is_none(),
            },
    {
        match &self.render_context {
            Some(context) => Some(context.viewport),
            None => None,
        }
    }

    /// The extent at which a frame for `window` will be rendered, once the
    /// context is initialized. The projection of that frame is set up for
    /// it.
    pub fn frame_extent(&self, window: WindowState) -> (extent: Option<Extent>)
        ensures
            match extent {
                Some(extent) => self@.context matches Some(context) && extent
                    == context.schedule.frame_extent(window),
                None => self@.context.is_none(),
            },
    {
        match &self.render_context {
            Some(context) => Some(context.schedule.frame_extent(window)),
            None => None,
        }
    }

    /// Sets up everything that depends on the surface: the presentation
    /// chain at the size of the window, the depth target, the pipeline for
    /// the format of the chain, the framebuffers of the scene pass, a
    /// uniform buffer and a descriptor set for each frame in flight, and the
    /// frame slots, none of them in flight. The frame loop starts at slot
    /// zero with nothing to rebuild.
    ///
    /// A surface without area, without a format or without an alpha
    /// treatment is refused before the device is asked. The first step that
    /// fails ends this with its error, and the renderer keeps the context it
    /// had.
    pub fn initialize_render_context(&mut self, support: &SurfaceSupport, window_size: Extent) -> (r:
        Result<(), RenderError>)
        ensures
            old(self)@.set_up(*support, window_size, r, final(self)@),
            final(self)@.ops == old(self)@.ops,
            final(self)@.resources.meshes == old(self)@.resources.meshes,
            final(self)@.resources.textures == old(self)@.resources.textures,
            r is Ok || old(self)@.wf() ==> final(self)@.wf(),
    {
        if window_size.is_empty() {
            return Err(RenderError::EmptySurface);
        }
        let ghost before = self.api.calls();
        let ghost resources = self@.resources;
        let ghost mut setup = Setup::nothing();
        proof {
            lemma_no_search();
        }
        let swapchain = match VulkanSwapchain::new(
            &mut self.api,
            support,
            window_size,
            MAX_FRAMES_IN_FLIGHT as u32,
        ) {
            Ok(swapchain) => swapchain,
            Err(ChainError::Device) => {
                proof {
                    setup.plan = choose|plan: ChainPlan|
                        #[trigger] plan.is_for(*support, window_size, MAX_FRAMES_IN_FLIGHT as u32)
                            && self.api.calls() == before.push(
                            ApiCall::CreateChain { plan, images: None },
                        );
                    lemma_pushed(
                        before,
                        Seq::empty(),
                        ApiCall::CreateChain { plan: setup.plan, images: None },
                    );
                    assert(setup.wf(*support, window_size));
                    assert(setup.calls(*support, window_size, resources) == seq![
                        ApiCall::CreateChain { plan: setup.plan, images: None },
                    ]);
                    assert(self@ == old(self)@.after_setup(*support, window_size, setup));
                }
                return Err(RenderError::Chain(ChainError::Device));
            },
            Err(e) => {
                return Err(RenderError::Chain(e));
            },
        };
        proof {
            setup.plan = swapchain@.plan;
            setup.images = Some(swapchain@.image_count);
        }
        let ghost chained = seq![ApiCall::CreateChain { plan: setup.plan, images: setup.images }];
        proof {
            lemma_pushed(
                before,
                Seq::empty(),
                ApiCall::CreateChain { plan: setup.plan, images: setup.images },
            );
        }
        let ghost at_chain = self.api.calls();
        let depth = self.resources.create_depth_resources(&mut self.api, window_size);
        proof {
            setup.depth = choose|outcome: DepthOutcome|
                {
                    &&& outcome.wf()
                    &&& self.api.calls() == at_chain + #[trigger] outcome.calls(
                        window_size,
                        resources.depth_resource,
                    )
                    &&& depth == outcome.result()
                    &&& self@.resources.depth_resource == if depth is Ok {
                        outcome.image
                    } else {
                        resources.depth_resource
                    }
                };
        }
        let ghost deepened = chained + setup.depth.calls(window_size, resources.depth_resource);
        proof {
            lemma_appended(
                before,
                chained,
                setup.depth.calls(window_size, resources.depth_resource),
            );
        }
        let depth_format = match depth {
            Ok(depth_format) => depth_format,
            Err(e) => {
                proof {
                    assert(setup.wf(*support, window_size));
                    assert(setup.calls(*support, window_size, resources) == deepened);
                    assert(self@ == old(self)@.after_setup(*support, window_size, setup));
                }
                return Err(RenderError::Depth(e));
            },
        };
        let pipeline = VulkanPipeline::new(
            &mut self.api,
            swapchain.format().format,
            Some(depth_format),
            false,
        );
        proof {
            setup.pipeline = if pipeline is Some {
                Some(pipeline->Some_0@.pipeline)
            } else {
                None
            };
        }
        let ghost piped = deepened.push(
            ApiCall::CreatePipeline {
                description: PipelineDescription::spec_forward(
                    swapchain@.format.format,
                    Some(depth_format),
                    false,
                ),
                id: setup.pipeline,
            },
        );
        proof {
            lemma_pushed(
                before,
                deepened,
                ApiCall::CreatePipeline {
                    description: PipelineDescription::spec_forward(
                        swapchain@.format.format,
                        Some(depth_format),
                        false,
                    ),
                    id: setup.pipeline,
                },
            );
        }
        let pipeline = match pipeline {
            Some(pipeline) => pipeline,
            None => {
                proof {
                    assert(setup.wf(*support, window_size));
                    assert(setup.calls(*support, window_size, resources) == piped);
                    assert(self@ == old(self)@.after_setup(*support, window_size, setup));
                }
                return Err(RenderError::Pipeline);
            },
        };
        let ghost at_pipeline = self.api.calls();
        let mut render_targets = RenderTargets::new(swapchain.image_count());
        let built = render_targets.rebuild_for_pass(
            &mut self.api,
            SCENE_PASS,
            pipeline.pipeline(),
            self.resources.get_depth_resources(),
        );
        proof {
            setup.created = choose|created: Seq<FramebufferId>|
                {
                    &&& created.len() <= swapchain@.image_count
                    &&& built == (created.len() == swapchain@.image_count)
                    &&& self.api.calls() == at_pipeline + #[trigger] rebuild_calls(
                        pipeline@.pipeline,
                        self@.resources.depth_resource,
                        created,
                        built,
                        None,
                    )
                    &&& built ==> render_targets@ == TargetsView::none(
                        swapchain@.image_count,
                    ).with_pass(SCENE_PASS, created)
                };
            lemma_first_pass(swapchain@.image_count, SCENE_PASS, setup.created);
        }
        let ghost targeted = piped + rebuild_calls(
            pipeline@.pipeline,
            setup.depth.image,
            setup.created,
            built,
            None,
        );
        proof {
            lemma_appended(
                before,
                piped,
                rebuild_calls(pipeline@.pipeline, setup.depth.image, setup.created, built, None),
            );
        }
        if !built {
            proof {
                assert(setup.wf(*support, window_size));
                assert(setup.calls(*support, window_size, resources) == targeted);
                assert(self@ == old(self)@.after_setup(*support, window_size, setup));
            }
            return Err(RenderError::Targets);
        }
        let uniforms = self.resources.create_uniform_buffers(&mut self.api, MAX_FRAMES_IN_FLIGHT);
        proof {
            setup.uniforms = self@.resources.uniform_buffers;
            setup.uniforms_failed = uniforms is Err;
            if resources.uniform_buffers.len() != MAX_FRAMES_IN_FLIGHT {
                lemma_appended(
                    before + targeted,
                    buffer_releases(resources.uniform_buffers),
                    uniform_creations(setup.uniforms, setup.uniforms_failed),
                );
            }
            lemma_appended(before, targeted, setup.uniform_calls(resources.uniform_buffers));
        }
        let ghost buffered = targeted + setup.uniform_calls(resources.uniform_buffers);
        if uniforms.is_err() {
            proof {
                assert(setup.wf(*support, window_size));
                assert(setup.calls(*support, window_size, resources) == buffered);
                assert(self@ == old(self)@.after_setup(*support, window_size, setup));
            }
            return Err(RenderError::Uniforms);
        }
        let ghost at_uniforms = self.api.calls();
        let frames = create_frame_slots(
            &mut self.api,
            pipeline.pipeline(),
            &self.resources,
            MAX_FRAMES_IN_FLIGHT,
        );
        proof {
            setup.sets = choose|sets: Seq<DescriptorSetId>|
                {
                    &&& sets.len() <= MAX_FRAMES_IN_FLIGHT
                    &&& (frames is Some) == (sets.len() == MAX_FRAMES_IN_FLIGHT)
                    &&& self.api.calls() == at_uniforms + #[trigger] descriptor_set_creations(
                        pipeline@.pipeline,
                        self@.resources.uniform_buffers,
                        sets,
                        frames is None,
                    )
                    &&& frames matches Some(frames) ==> frames@ == idle_frames(sets)
                };
            lemma_appended(
                before,
                buffered,
                descriptor_set_creations(
                    pipeline@.pipeline,
                    setup.uniforms,
                    setup.sets,
                    frames is None,
                ),
            );
            assert(setup.wf(*support, window_size));
            assert(setup.calls(*support, window_size, resources) == buffered
                + descriptor_set_creations(
                pipeline@.pipeline,
                setup.uniforms,
                setup.sets,
                frames is None,
            ));
            if frames is None {
                assert(self@ == old(self)@.after_setup(*support, window_size, setup));
            }
        }
        let frames = match frames {
            Some(frames) => frames,
            None => {
                return Err(RenderError::DescriptorSet);
            },
        };
        let schedule = match FrameScheduler::new(MAX_FRAMES_IN_FLIGHT, window_size) {
            Some(schedule) => schedule,
            None => {
                proof {
                    assert(false);
                }
                return Err(RenderError::DescriptorSet);
            },
        };
        self.render_context = Some(
            RenderContext {
                swapchain,
                pipeline,
                render_targets,
                viewport: window_size,
                frames,
                schedule,
            },
        );
        proof {
            let made = self@.context->Some_0;
            let told = setup.context(*support, window_size);
            assert(made == told);
            assert(self@ == old(self)@.after_setup(*support, window_size, setup));
        }
        Ok(())
    }

    /// Draws one frame as `FrameScheduler::draw_frame` does, with this
    /// renderer as the backend.
    ///
    /// Before the render context is initialized, nothing is done and the
    /// error is `NotInitialized`.
    pub fn draw_frame(&mut self, window: WindowState, uniforms: &UniformBufferObject) -> (r: Result<
        FrameReport,
        RenderError,
    >)
        requires
            old(self)@.wf(),
        ensures
            final(self)@.wf(),
            match old(self)@.context {
                None => r == Err::<FrameReport, RenderError>(RenderError::NotInitialized)
                    && final(self)@ == old(self)@,
                Some(before) => r matches Ok(report) && final(self)@.context matches Some(after)
                    && {
                    &&& report.staged(before.schedule, window, old(self)@.resources.meshes.len())
                    &&& after.schedule == before.schedule.after(window, report)
                    &&& final(self)@.ops == old(self)@.ops + report.ops(
                        before.schedule.current_frame as usize,
                        window.extent,
                        old(self)@.mesh_counts(),
                        *uniforms,
                    )
                    &&& final(self)@.mesh_counts() == old(self)@.mesh_counts()
                    &&& after.frames.len() == before.frames.len()
                    &&& !window.drawable() ==> final(self)@.calls == old(self)@.calls
                    &&& report.submit.is_some() ==> final(self)@.in_flight(
                        before.schedule.current_frame,
                    ) == (report.submit == Some(SubmitOutcome::Signalled))
                    &&& forall|other: int|
                        other != before.schedule.current_frame ==> final(self)@.in_flight(other)
                            == old(self)@.in_flight(other)
                    &&& old(self)@.frame(window, *uniforms, report, final(self)@)
                },
            },
    {
        let mut schedule = match &self.render_context {
            Some(context) => context.schedule,
            None => {
                return Err(RenderError::NotInitialized);
            },
        };
        let ghost before = schedule@;
        let report = schedule.draw_frame(self, window, uniforms);
        assert(self@.slots() == old(self)@.slots());
        assert(self@.context.is_some());
        let ghost drawn = *self;
        match &mut self.render_context {
            Some(context) => {
                context.schedule = schedule;
            },
            None => {},
        }
        assert(self@.mesh_counts().len() == self@.resources.meshes.len());
        proof {
            let slot = before.current_frame as usize;
            assert(self@ == drawn@.scheduled(before.after(window, report)));
            assert forall|other: int| other != before.current_frame implies self@.in_flight(other)
                == old(self)@.in_flight(other) by {
                assert(drawn.pending(other) == old(self).pending(other));
            }
            if window.drawable() {
                assert(old(self)@.mesh_counts().len() == old(self)@.resources.meshes.len());
                lemma_frame_performed(&*old(self), &drawn, slot, window, *uniforms, report);
            } else {
                let idle = RebuildOutcome {
                    images: None,
                    depth: DepthOutcome {
                        answers: no_search(),
                        found: Err(DepthError::NoSupportedFormat),
                        image: None,
                    },
                    created: Seq::empty(),
                };
                lemma_frame_skipped(old(self)@, slot, window, *uniforms, report);
                assert(drawn@ == old(self)@.after_frame(slot, window, *uniforms, report, idle));
            }
            assert(exists|rebuild: RebuildOutcome|
                {
                    &&& rebuild.wf()
                    &&& report.recreate matches Some(ok) ==> rebuild.ok() == ok
                    &&& drawn@ == #[trigger] old(self)@.after_frame(
                        slot,
                        window,
                        *uniforms,
                        report,
                        rebuild,
                    )
                });
        }
        Ok(report)
    }

    /// Uploads an RGBA8 texture with its mipmap chain and its sampler, as
    /// `VulkanResources::create_texture` does, and returns its texture id.
    pub fn upload_texture(&mut self, pixels: &Vec<u8>, extent: Extent, sampler: &Sampler) -> (r:
        Result<usize, UploadError>)
        ensures
            final(self)@.context == old(self)@.context,
            final(self)@.ops == old(self)@.ops,
            crate::resources::texture_upload(
                old(self)@.resources,
                final(self)@.resources,
                old(self)@.calls,
                final(self)@.calls,
                pixels@,
                extent,
                *sampler,
                r,
            ),
    {
        self.resources.create_texture(&mut self.api, pixels, extent, sampler)
    }

    /// Decodes an encoded image and uploads it as a texture, as
    /// `VulkanResources::create_texture_image` does.
    pub fn upload_texture_image(&mut self, encoded: &Vec<u8>, sampler: &Sampler) -> (r: Result<
        usize,
        UploadError,
    >)
        ensures
            final(self)@.context == old(self)@.context,
            final(self)@.ops == old(self)@.ops,
            crate::resources::encoded_texture_upload(
                old(self)@.resources,
                final(self)@.resources,
                old(self)@.calls,
                final(self)@.calls,
                *sampler,
                r,
            ),
    {
        self.resources.create_texture_image(&mut self.api, encoded, sampler)
    }

    /// Makes the depth target as `VulkanResources::create_depth_resources`
    /// does.
    pub fn create_depth_resources(&mut self, extent: Extent) -> (r: Result<
        DepthFormat,
        DepthError,
    >)
        ensures
            final(self)@.context == old(self)@.context,
            final(self)@.ops == old(self)@.ops,
            final(self)@.resources.meshes == old(self)@.resources.meshes,
            final(self)@.resources.textures == old(self)@.resources.textures,
            final(self)@.resources.uniform_buffers == old(self)@.resources.uniform_buffers,
            extent.spec_is_empty() ==> r == Err::<DepthFormat, DepthError>(DepthError::EmptyExtent)
                && final(self)@ == old(self)@,
            !extent.spec_is_empty() ==> exists|outcome: DepthOutcome|
                {
                    &&& outcome.wf()
                    &&& final(self)@.calls == old(self)@.calls + #[trigger] outcome.calls(
                        extent,
                        old(self)@.resources.depth_resource,
                    )
                    &&& r == outcome.result()
                    &&& final(self)@.resources.depth_resource == if r is Ok {
                        outcome.image
                    } else {
                        old(self)@.resources.depth_resource
                    }
                },
    {
        self.resources.create_depth_resources(&mut self.api, extent)
    }

    /// Asks for the chain to be rebuilt before the next acquisition, as
    /// after a change of the window's size. Nothing happens before the
    /// context is initialized.
    pub fn request_recreate(&mut self)
        requires
            old(self)@.wf(),
        ensures
            final(self)@.wf(),
            final(self)@.calls == old(self)@.calls,
            final(self)@.ops == old(self)@.ops,
            final(self)@.resources == old(self)@.resources,
            match old(self)@.context {
                Some(context) => final(self)@.context == Some(
                    ContextView {
                        schedule: ScheduleState { needs_recreate: true, ..context.schedule },
                        ..context
                    },
                ),
                None => final(self)@.context.is_none(),
            },
    {
        match &mut self.render_context {
            Some(context) => {
                context.schedule.request_recreate();
            },
            None => {},
        }
    }
}

/// Calls appended to calls that extend `before` extend `before` by both.
proof fn lemma_appended(before: Seq<ApiCall>, so_far: Seq<ApiCall>, more: Seq<ApiCall>)
    ensures
        (before + so_far) + more == before + (so_far + more),
{
    assert((before + so_far) + more =~= before + (so_far + more));
}

/// A call after calls that extend `before` extends `before` by them and it.
proof fn lemma_pushed(before: Seq<ApiCall>, so_far: Seq<ApiCall>, call: ApiCall)
    ensures
        (before + so_far).push(call) == before + so_far.push(call),
        before + Seq::<ApiCall>::empty() == before,
        Seq::<ApiCall>::empty().push(call) == seq![call],
{
    assert((before + so_far).push(call) =~= before + so_far.push(call));
    assert(before + Seq::<ApiCall>::empty() =~= before);
    assert(Seq::<ApiCall>::empty().push(call) =~= seq![call]);
}

/// Whether a surface can be rendered to, and the error it is refused with:
/// a surface without area, without a format or without an alpha treatment
/// cannot.
pub open spec fn surface_check(support: SurfaceSupport, size: Extent) -> Result<(), RenderError> {
    if size.spec_is_empty() {
        Err(RenderError::EmptySurface)
    } else if support.formats.len() == 0 {
        Err(RenderError::Chain(ChainError::NoFormat))
    } else if support.composite_alpha.len() == 0 {
        Err(RenderError::Chain(ChainError::NoCompositeAlpha))
    } else {
        Ok(())
    }
}

/// One creation of a descriptor set for each of the first uniform buffers,
/// in order, and a failed one after them where `failed`.
pub open spec fn descriptor_set_creations(
    pipeline: PipelineId,
    uniforms: Seq<BufferId>,
    sets: Seq<DescriptorSetId>,
    failed: bool,
) -> Seq<ApiCall> {
    Seq::new(
        if failed {
            sets.len() + 1
        } else {
            sets.len()
        },
        |i: int|
            ApiCall::CreateDescriptorSet {
                pipeline,
                uniforms: uniforms[i],
                id: if i < sets.len() {
                    Some(sets[i])
                } else {
                    None
                },
            },
    )
}

/// Frame slots with the given descriptor sets, none of them in flight.
pub open spec fn idle_frames(sets: Seq<DescriptorSetId>) -> Seq<FrameState> {
    Seq::new(sets.len(), |i: int| FrameState { in_flight: false, descriptor_set: sets[i] })
}

/// Creates `count` frame slots, each with a descriptor set for the uniform
/// buffer of its slot and none in flight. `None` where a descriptor set
/// could not be created.
#[verifier::loop_isolation(false)]
fn create_frame_slots<G: GraphicsApi>(
    api: &mut Gpu<G>,
    pipeline: PipelineId,
    resources: &VulkanResources,
    count: usize,
) -> (r: Option<Vec<FrameState>>)
    requires
        resources@.uniform_buffers.len() >= count,
    ensures
        exists|sets: Seq<DescriptorSetId>|
            {
                &&& sets.len() <= count
                &&& (r is Some) == (sets.len() == count)
                &&& final(api).calls() == old(api).calls() + #[trigger] descriptor_set_creations(
                    pipeline,
                    resources@.uniform_buffers,
                    sets,
                    r is None,
                )
                &&& r matches Some(frames) ==> frames@ == idle_frames(sets)
            },
{
    let ghost before = api.calls();
    let ghost buffers = resources@.uniform_buffers;
    let ghost mut sets: Seq<DescriptorSetId> = Seq::empty();
    let mut frames: Vec<FrameState> = Vec::new();
    assert(api.calls() =~= before + descriptor_set_creations(pipeline, buffers, sets, false));
    assert(frames@ =~= idle_frames(sets));
    while frames.len() < count
        invariant
            frames.len() <= count,
            sets.len() == frames.len(),
            frames@ == idle_frames(sets),
            buffers == resources@.uniform_buffers,
            buffers.len() >= count,
            api.calls() == before + descriptor_set_creations(pipeline, buffers, sets, false),
        decreases count - frames.len(),
    {
        let buffer = match resources.get_uniform_buffer(frames.len()) {
            Some(buffer) => buffer,
            None => {
                proof {
                    assert(false);
                }
                return None;
            },
        };
        let ghost earlier = sets;
        match api.create_descriptor_set(pipeline, buffer) {
            Some(descriptor_set) => {
                frames.push(FrameState { in_flight: false, descriptor_set });
                proof {
                    sets = sets.push(descriptor_set);
                    assert(descriptor_set_creations(pipeline, buffers, sets, false)
                        =~= descriptor_set_creations(pipeline, buffers, earlier, false).push(
                        ApiCall::CreateDescriptorSet {
                            pipeline,
                            uniforms: buffer,
                            id: Some(descriptor_set),
                        },
                    ));
                    assert(api.calls() =~= before + descriptor_set_creations(
                        pipeline,
                        buffers,
                        sets,
                        false,
                    ));
                    assert(frames@ =~= idle_frames(sets));
                }
            },
            None => {
                proof {
                    assert(descriptor_set_creations(pipeline, buffers, sets, true)
                        =~= descriptor_set_creations(pipeline, buffers, sets, false).push(
                        ApiCall::CreateDescriptorSet { pipeline, uniforms: buffer, id: None },
                    ));
                    assert(api.calls() =~= before + descriptor_set_creations(
                        pipeline,
                        buffers,
                        sets,
                        true,
                    ));
                    assert(sets.len() < count);
                }
                return None;
            },
        }
    }
    let slots = Some(frames);
    proof {
        assert(api.calls() == before + descriptor_set_creations(
            pipeline,
            buffers,
            sets,
            slots is None,
        ));
    }
    slots
}

/// How the steps that set the render context up ended.
pub struct Setup {
    /// The plan of the chain.
    pub plan: ChainPlan,
    /// The number of images of the chain, where it could be created.
    pub images: Option<u32>,
    /// How making the depth target ended.
    pub depth: DepthOutcome,
    /// The pipeline, where it could be built.
    pub pipeline: Option<PipelineId>,
    /// The framebuffers of the scene pass that were created.
    pub created: Seq<FramebufferId>,
    /// The uniform buffers after their step.
    pub uniforms: Seq<BufferId>,
    /// A uniform buffer could not be created.
    pub uniforms_failed: bool,
    /// The descriptor sets that were created.
    pub sets: Seq<DescriptorSetId>,
}

impl Setup {
    /// The setup in which no step ran.
    pub open spec fn nothing() -> Setup {
        Setup {
            plan: arbitrary(),
            images: None,
            depth: DepthOutcome {
                answers: no_search(),
                found: Err(DepthError::NoSupportedFormat),
                image: None,
            },
            pipeline: None,
            created: Seq::empty(),
            uniforms: Seq::empty(),
            uniforms_failed: false,
            sets: Seq::empty(),
        }
    }

    /// The chain was created.
    pub open spec fn chained(self) -> bool {
        self.images.is_some()
    }

    /// Chain and depth target were made.
    pub open spec fn deepened(self) -> bool {
        self.chained() && self.depth.result() is Ok
    }

    /// Chain, depth target and pipeline were made.
    pub open spec fn piped(self) -> bool {
        self.deepened() && self.pipeline.is_some()
    }

    /// Every framebuffer was made, too.
    pub open spec fn targeted(self) -> bool {
        self.piped() && self.created.len() == self.images->Some_0
    }

    /// There is a uniform buffer for every frame in flight, too.
    pub open spec fn buffered(self) -> bool {
        self.targeted() && !self.uniforms_failed
    }

    /// The plan is that of the surface, and the steps that ran are counted
    /// within their bounds.
    pub open spec fn wf(self, support: SurfaceSupport, size: Extent) -> bool {
        &&& self.plan.is_for(support, size, MAX_FRAMES_IN_FLIGHT as u32)
        &&& self.depth.wf()
        &&& self.images matches Some(images) ==> self.created.len() <= images
        &&& self.sets.len() <= MAX_FRAMES_IN_FLIGHT
        &&& self.buffered() ==> self.uniforms.len() == MAX_FRAMES_IN_FLIGHT
    }

    /// What the setup came to: the error of the first step that failed.
    pub open spec fn result(self) -> Result<(), RenderError> {
        if !self.chained() {
            Err(RenderError::Chain(ChainError::Device))
        } else if self.depth.result() is Err {
            Err(RenderError::Depth(self.depth.result()->Err_0))
        } else if self.pipeline.is_none() {
            Err(RenderError::Pipeline)
        } else if !self.targeted() {
            Err(RenderError::Targets)
        } else if self.uniforms_failed {
            Err(RenderError::Uniforms)
        } else if self.sets.len() != MAX_FRAMES_IN_FLIGHT {
            Err(RenderError::DescriptorSet)
        } else {
            Ok(())
        }
    }

    /// The calls that make the uniform buffers: none where there is one for
    /// each frame in flight already, else the release of those there are and
    /// the creation of new ones.
    pub open spec fn uniform_calls(self, replaced: Seq<BufferId>) -> Seq<ApiCall> {
        if replaced.len() == MAX_FRAMES_IN_FLIGHT {
            Seq::empty()
        } else {
            buffer_releases(replaced) + uniform_creations(self.uniforms, self.uniforms_failed)
        }
    }

    /// The calls of the setup, in order: the chain is created, then the
    /// depth target, the pipeline for the format of the chain with depth
    /// test and without texture, the framebuffers of the scene pass, the
    /// uniform buffers, and a descriptor set for each frame slot. Each step
    /// is taken only where the one before it worked.
    pub open spec fn calls(self, support: SurfaceSupport, size: Extent, before: ResourcesView) -> Seq<
        ApiCall,
    > {
        let chain = seq![ApiCall::CreateChain { plan: self.plan, images: self.images }];
        if !self.chained() {
            chain
        } else {
            let deepened = chain + self.depth.calls(size, before.depth_resource);
            if !self.deepened() {
                deepened
            } else {
                let piped = deepened.push(
                    ApiCall::CreatePipeline {
                        description: PipelineDescription::spec_forward(
                            support.formats@[self.plan.format as int].format,
                            Some(self.depth.result()->Ok_0),
                            false,
                        ),
                        id: self.pipeline,
                    },
                );
                match self.pipeline {
                    None => piped,
                    Some(pipeline) => {
                        let targeted = piped + rebuild_calls(
                            pipeline,
                            self.depth.image,
                            self.created,
                            self.targeted(),
                            None,
                        );
                        if !self.targeted() {
                            targeted
                        } else {
                            let buffered = targeted + self.uniform_calls(before.uniform_buffers);
                            if !self.buffered() {
                                buffered
                            } else {
                                buffered + descriptor_set_creations(
                                    pipeline,
                                    self.uniforms,
                                    self.sets,
                                    self.sets.len() != MAX_FRAMES_IN_FLIGHT,
                                )
                            }
                        }
                    },
                }
            }
        }
    }

    /// The render context that a setup without failure makes: the chain as
    /// planned, the pipeline, a framebuffer of the scene pass for each image,
    /// the viewport of the size of the window, idle frame slots, and the
    /// frame loop at slot zero with nothing to rebuild.
    pub open spec fn context(self, support: SurfaceSupport, size: Extent) -> ContextView {
        ContextView {
            swapchain: SwapchainView {
                plan: self.plan,
                format: support.formats@[self.plan.format as int],
                image_count: self.images->Some_0,
            },
            pipeline: PipelineView {
                pipeline: self.pipeline->Some_0,
                color_format: support.formats@[self.plan.format as int].format,
                depth: Some(self.depth.result()->Ok_0),
                textured: false,
            },
            render_targets: TargetsView::only(self.images->Some_0, SCENE_PASS, self.created),
            viewport: size,
            frames: idle_frames(self.sets),
            schedule: ScheduleState {
                slots: MAX_FRAMES_IN_FLIGHT as int,
                current_frame: 0,
                needs_recreate: false,
                extent: size,
            },
        }
    }
}

/// How the steps that rebuild chain, depth target and render targets ended.
pub struct RebuildOutcome {
    /// The number of images of the rebuilt chain, where it could be rebuilt.
    pub images: Option<u32>,
    /// How making the depth target ended, where the chain was rebuilt.
    pub depth: DepthOutcome,
    /// The framebuffers that were created, where the depth target was made.
    pub created: Seq<FramebufferId>,
}

impl RebuildOutcome {
    /// Each step ran only where the one before it worked.
    pub open spec fn wf(self) -> bool {
        &&& self.depth.wf()
        &&& self.created.len() > 0 ==> self.images.is_some() && self.depth.result() is Ok
        &&& self.images matches Some(images) ==> self.created.len() <= images
    }

    /// Chain, depth target and every framebuffer could be made.
    pub open spec fn ok(self) -> bool {
        self.images matches Some(images) && self.depth.result() is Ok && self.created.len()
            == images
    }

    /// The calls of the rebuild, in order: the chain is rebuilt at the new
    /// extent; where that worked, every framebuffer is released, the depth
    /// target is made anew, and the framebuffers of the scene pass are
    /// created for the new images.
    pub open spec fn calls(self, before: ContextView, depth: Option<ImageId>, extent: Extent) -> Seq<
        ApiCall,
    > {
        let chain = seq![
            ApiCall::RecreateChain { plan: before.swapchain.plan.spec_resized(extent), images: self.images },
        ];
        if self.images.is_some() {
            let cleared = chain + framebuffer_releases(before.render_targets.all_framebuffers())
                + self.depth.calls(extent, depth);
            if self.depth.result() is Ok {
                cleared + rebuild_calls(
                    before.pipeline.pipeline,
                    self.depth.image,
                    self.created,
                    self.ok(),
                    None,
                )
            } else {
                cleared
            }
        } else {
            chain
        }
    }
}

impl RebuildOutcome {
    /// The render context after the rebuild: where the chain was rebuilt, it
    /// has its new extent and images, the scene pass has the framebuffers
    /// that were created where all were, and no pass any otherwise; the
    /// viewport is the new extent where all of it worked.
    pub open spec fn context(self, before: ContextView, extent: Extent) -> ContextView {
        match self.images {
            None => before,
            Some(images) => ContextView {
                swapchain: before.swapchain.recreated(extent, images),
                render_targets: if self.ok() {
                    TargetsView::only(images, SCENE_PASS, self.created)
                } else {
                    TargetsView::none(images)
                },
                viewport: if self.ok() {
                    extent
                } else {
                    before.viewport
                },
                ..before
            },
        }
    }

    /// The resources after the rebuild: the depth target is the new one
    /// where one was made.
    pub open spec fn resources(self, before: ResourcesView) -> ResourcesView {
        ResourcesView {
            depth_resource: if self.images.is_some() && self.depth.result() is Ok {
                self.depth.image
            } else {
                before.depth_resource
            },
            ..before
        }
    }
}

impl ContextView {
    /// The framebuffer of the scene pass for an image of the chain, where
    /// there is one.
    pub open spec fn target(self, image_index: u32) -> Option<FramebufferId> {
        match self.render_targets.framebuffers(SCENE_PASS) {
            Some(framebuffers) => if image_index < framebuffers.len() {
                Some(framebuffers[image_index as int])
            } else {
                None
            },
            None => None,
        }
    }
}

impl RenderContext {
    /// Rewrites a uniform buffer with the block of the frame: the model
    /// matrix, then the view matrix, then the projection matrix.
    pub fn update_uniform_buffer<G: GraphicsApi>(
        api: &mut Gpu<G>,
        ubo_buffer: BufferId,
        uniforms: &UniformBufferObject,
    ) -> (ok: bool)
        ensures
            final(api).calls() == old(api).calls().push(
                ApiCall::WriteUniforms { buffer: ubo_buffer, block: uniforms.spec_words(), ok },
            ),
    {
        let block = uniforms.words();
        api.write_uniforms(ubo_buffer, &block)
    }

    /// Begins the command buffer of the frame that uses frame slot `slot`
    /// and renders into image `image_index`: the pass over the framebuffer of
    /// that image, the viewport of the context, its pipeline and the
    /// descriptor set of the slot.
    ///
    /// Where the scene pass has no framebuffer for the image, nothing is
    /// begun and the device is not asked.
    pub fn build_command_buffer<G: GraphicsApi>(
        &self,
        api: &mut Gpu<G>,
        slot: usize,
        image_index: u32,
    ) -> (ok: bool)
        requires
            slot < self@.frames.len(),
        ensures
            match self@.target(image_index) {
                Some(framebuffer) => final(api).calls() == old(api).calls().push(
                    ApiCall::BeginFrame {
                        pipeline: self@.pipeline.pipeline,
                        framebuffer,
                        clear: ClearValues::spec_scene(self@.pipeline.depth.is_some()),
                        viewport: self@.viewport,
                        descriptor_set: self@.frames[slot as int].descriptor_set,
                        ok,
                    },
                ),
                None => !ok && final(api).calls() == old(api).calls(),
            },
    {
        match self.render_targets.framebuffers(SCENE_PASS) {
            Some(framebuffers) => {
                if (image_index as usize) < framebuffers.len() {
                    api.begin_frame(
                        self.pipeline.pipeline(),
                        framebuffers[image_index as usize],
                        ClearValues::scene(self.pipeline.has_depth()),
                        self.viewport,
                        self.frames[slot].descriptor_set,
                    )
                } else {
                    false
                }
            },
            None => false,
        }
    }

    /// Rebuilds the chain at `extent` and, where that worked, the depth
    /// target and the render targets for its new images; the viewport
    /// becomes `extent` where all of it worked. Frame slots, pipeline and
    /// bookkeeping stay as they are.
    pub fn rebuild<G: GraphicsApi>(
        &mut self,
        api: &mut Gpu<G>,
        resources: &mut VulkanResources,
        extent: Extent,
    ) -> (ok: bool)
        requires
            !extent.spec_is_empty(),
        ensures
            final(self)@.frames == old(self)@.frames,
            final(self)@.schedule == old(self)@.schedule,
            final(self)@.pipeline == old(self)@.pipeline,
            final(resources)@.meshes == old(resources)@.meshes,
            final(resources)@.textures == old(resources)@.textures,
            final(resources)@.uniform_buffers == old(resources)@.uniform_buffers,
            exists|outcome: RebuildOutcome|
                {
                    &&& outcome.wf()
                    &&& ok == outcome.ok()
                    &&& final(api).calls() == old(api).calls() + #[trigger] outcome.calls(
                        old(self)@,
                        old(resources)@.depth_resource,
                        extent,
                    )
                    &&& final(self)@ == outcome.context(old(self)@, extent)
                    &&& final(resources)@ == outcome.resources(old(resources)@)
                },
    {
        let ghost before = api.calls();
        let ghost idle = DepthOutcome {
            answers: Seq::empty(),
            found: Err(DepthError::EmptyExtent),
            image: None,
        };
        match self.swapchain.recreate(api, extent) {
            Ok(_) => {},
            Err(_) => {
                proof {
                    let answers = no_search();
                    let outcome = RebuildOutcome {
                        images: None,
                        depth: DepthOutcome {
                            answers,
                            found: Err(DepthError::NoSupportedFormat),
                            image: None,
                        },
                        created: Seq::empty(),
                    };
                    lemma_no_search();
                    assert(api.calls() =~= before + outcome.calls(
                        old(self)@,
                        old(resources)@.depth_resource,
                        extent,
                    ));
                }
                return false;
            },
        }
        let images = self.swapchain.image_count();
        self.render_targets.replace_images(api, images);
        let ghost cleared = api.calls();
        let depth = resources.create_depth_resources(api, extent);
        let ghost depth_outcome = choose|outcome: DepthOutcome|
            {
                &&& outcome.wf()
                &&& api.calls() == cleared + #[trigger] outcome.calls(
                    extent,
                    old(resources)@.depth_resource,
                )
                &&& depth == outcome.result()
                &&& resources@.depth_resource == if depth is Ok {
                    outcome.image
                } else {
                    old(resources)@.depth_resource
                }
            };
        if depth.is_err() {
            proof {
                let outcome = RebuildOutcome {
                    images: Some(images),
                    depth: depth_outcome,
                    created: Seq::empty(),
                };
                assert(api.calls() =~= before + outcome.calls(
                    old(self)@,
                    old(resources)@.depth_resource,
                    extent,
                ));
            }
            return false;
        }
        let ghost deepened = api.calls();
        let ok = self.render_targets.rebuild_for_pass(
            api,
            SCENE_PASS,
            self.pipeline.pipeline(),
            resources.get_depth_resources(),
        );
        if ok {
            self.viewport = extent;
        }
        proof {
            let created = choose|created: Seq<FramebufferId>|
                {
                    &&& created.len() <= images
                    &&& ok == (created.len() == images)
                    &&& api.calls() == deepened + #[trigger] rebuild_calls(
                        self@.pipeline.pipeline,
                        resources@.depth_resource,
                        created,
                        ok,
                        None,
                    )
                    &&& ok ==> self@.render_targets == TargetsView::none(images).with_pass(
                        SCENE_PASS,
                        created,
                    )
                };
            lemma_first_pass(images, SCENE_PASS, created);
            let outcome = RebuildOutcome { images: Some(images), depth: depth_outcome, created };
            assert(api.calls() =~= before + outcome.calls(
                old(self)@,
                old(resources)@.depth_resource,
                extent,
            ));
        }
        ok
    }
}

/// The answers of a search that asked about every candidate and found none
/// supported.
pub open spec fn no_search() -> Seq<Option<bool>> {
    seq![Some(false), Some(false), Some(false)]
}

/// `no_search` is a search that fails with `NoSupportedFormat`.
pub proof fn lemma_no_search()
    ensures
        crate::resources::format_search(
            crate::resources::depth_candidates(),
            no_search(),
            Err(DepthError::NoSupportedFormat),
        ),
{
}

/// A frame in which no stage ran leaves the renderer as it was.
proof fn lemma_frame_skipped(
    before: RendererView,
    slot: usize,
    window: WindowState,
    uniforms: UniformBufferObject,
    report: FrameReport,
)
    requires
        report == FrameReport::spec_idle(),
    ensures
        forall|rebuild: RebuildOutcome|
            before == #[trigger] before.after_frame(slot, window, uniforms, report, rebuild),
        (RebuildOutcome {
            images: None,
            depth: DepthOutcome {
                answers: no_search(),
                found: Err(DepthError::NoSupportedFormat),
                image: None,
            },
            created: Seq::empty(),
        }).wf(),
{
    lemma_no_search();
    assert forall|rebuild: RebuildOutcome|
        before == #[trigger] before.after_frame(slot, window, uniforms, report, rebuild) by {
        let after = before.after_frame(slot, window, uniforms, report, rebuild);
        assert(after.calls =~= before.calls);
        assert(after.ops =~= before.ops);
    }
}

/// A frame for a window that cannot be drawn to changes nothing: no stage
/// ran, the device was not asked, and resources, context and bookkeeping
/// are what they were.
pub proof fn lemma_undrawable_frame_changes_nothing(
    before: RendererView,
    window: WindowState,
    uniforms: UniformBufferObject,
    report: FrameReport,
    after: RendererView,
)
    requires
        !window.drawable(),
        before.frame(window, uniforms, report, after),
    ensures
        report == FrameReport::spec_idle(),
        after == before,
{
    lemma_frame_skipped(
        before,
        before.context->Some_0.schedule.current_frame as usize,
        window,
        uniforms,
        report,
    );
}

/// Renderers that went from one state to the next by the draws of a frame
/// are, after `k` of them, what `drawn` says.
proof fn lemma_drawn_so_far<G: GraphicsApi>(
    states: Seq<VulkanRenderer<G>>,
    ops: Seq<GpuOp>,
    draws: nat,
    k: nat,
)
    requires
        follows(states, ops),
        k <= ops.len() <= states[0]@.resources.meshes.len(),
        ops.len() <= usize::MAX + 1,
        forall|i: int|
            0 <= i < ops.len() ==> ops[i] == (GpuOp::DrawMesh {
                mesh: i as usize,
                index_count: states[0]@.resources.meshes[i].index_count,
                ok: i < draws,
            }),
    ensures
        states[k as int]@ == states[0]@.drawn(k, draws),
    decreases k,
{
    let start = states[0]@;
    if k == 0 {
        assert(start.drawn(0, draws).calls =~= start.calls);
        assert(start.drawn(0, draws).ops =~= start.ops);
    } else {
        lemma_drawn_so_far(states, ops, draws, (k - 1) as nat);
        let earlier = states[k - 1]@;
        let op = ops[k - 1];
        assert(states[k - 1].performs(op, &states[k as int]));
        assert(earlier.resources == start.resources);
        assert(states[k as int]@ == earlier.after_op(op));
        assert(states[k as int]@.calls =~= start.drawn(k, draws).calls);
        assert(states[k as int]@.ops =~= start.drawn(k, draws).ops);
    }
}

/// A stage of a frame that ran did to the renderer what `after_op` says of
/// its operation, and one that did not run did nothing; the resources are
/// the same either way.
proof fn lemma_stage_performed<G: GraphicsApi>(
    before: &VulkanRenderer<G>,
    stage: Option<GpuOp>,
    ops: Seq<GpuOp>,
    after: &VulkanRenderer<G>,
)
    requires
        ops == match stage {
            Some(op) => seq![op],
            None => Seq::<GpuOp>::empty(),
        },
        stage matches Some(op) ==> !(op is RecreateChain) && !(op is UploadMesh),
        performs_all(before, ops, after),
    ensures
        after@ == match stage {
            Some(op) => before@.after_op(op),
            None => before@,
        },
        after@.resources == before@.resources,
{
    match stage {
        Some(op) => lemma_performs_one(before, op, after),
        None => lemma_performs_nothing(before, after),
    }
}

/// The rebuild of a frame, where it ran, ended in one of the ways it can
/// end; the meshes are the same either way.
proof fn lemma_rebuild_performed<G: GraphicsApi>(
    before: &VulkanRenderer<G>,
    stage: Option<bool>,
    extent: Extent,
    ops: Seq<GpuOp>,
    after: &VulkanRenderer<G>,
) -> (rebuild: RebuildOutcome)
    requires
        before@.context.is_some(),
        !extent.spec_is_empty(),
        ops == match stage {
            Some(ok) => seq![GpuOp::RecreateChain { extent, ok }],
            None => Seq::<GpuOp>::empty(),
        },
        performs_all(before, ops, after),
    ensures
        rebuild.wf(),
        stage matches Some(ok) ==> rebuild.ok() == ok,
        after@ == match stage {
            Some(_) => before@.rebuilt(extent, rebuild),
            None => before@,
        },
        after@.resources.meshes == before@.resources.meshes,
{
    lemma_no_search();
    match stage {
        Some(ok) => {
            lemma_performs_one(before, GpuOp::RecreateChain { extent, ok }, after);
            choose|outcome: RebuildOutcome|
                {
                    &&& outcome.wf()
                    &&& outcome.ok() == ok
                    &&& after@ == #[trigger] before@.rebuilt(extent, outcome)
                }
        },
        None => {
            lemma_performs_nothing(before, after);
            RebuildOutcome {
                images: None,
                depth: DepthOutcome {
                    answers: no_search(),
                    found: Err(DepthError::NoSupportedFormat),
                    image: None,
                },
                created: Seq::empty(),
            }
        },
    }
}

/// The draws of a frame did to the renderer what `drawn` says.
proof fn lemma_draws_performed<G: GraphicsApi>(
    before: &VulkanRenderer<G>,
    report: FrameReport,
    meshes: Seq<MeshCounts>,
    after: &VulkanRenderer<G>,
)
    requires
        meshes.len() == before@.resources.meshes.len(),
        forall|i: int|
            0 <= i < meshes.len() ==> (#[trigger] meshes[i]).index_count
                == before@.resources.meshes[i].index_count,
        report.draws <= meshes.len(),
        report.draw_failed ==> report.draws < meshes.len(),
        performs_all(before, report.draw_ops(meshes), after),
    ensures
        after@ == before@.drawn(
            if report.draw_failed {
                (report.draws + 1) as nat
            } else {
                report.draws as nat
            },
            report.draws as nat,
        ),
{
    let draw = report.draw_ops(meshes);
    let states = choose|states: Seq<VulkanRenderer<G>>| #[trigger]
        follows(states, draw) && states.first() == before && states.last() == after;
    lemma_drawn_so_far(states, draw, report.draws as nat, draw.len());
}

/// A renderer that performed the operations of a frame is what `after_frame`
/// says, for one of the ways in which the rebuild can have ended.
proof fn lemma_frame_performed<G: GraphicsApi>(
    before: &VulkanRenderer<G>,
    after: &VulkanRenderer<G>,
    slot: usize,
    window: WindowState,
    uniforms: UniformBufferObject,
    report: FrameReport,
)
    requires
        before@.context.is_some(),
        window.drawable(),
        report.draws <= before@.resources.meshes.len(),
        report.draw_failed ==> report.draws < before@.resources.meshes.len(),
        performs_all(
            before,
            report.ops(slot, window.extent, before@.mesh_counts(), uniforms),
            after,
        ),
    ensures
        exists|rebuild: RebuildOutcome|
            {
                &&& rebuild.wf()
                &&& report.recreate matches Some(ok) ==> rebuild.ok() == ok
                &&& after@ == #[trigger] before@.after_frame(slot, window, uniforms, report, rebuild)
            },
{
    reveal(FrameReport::ops);
    let meshes = before@.mesh_counts();
    let recreate = report.recreate_ops(window.extent);
    let acquire = report.acquire_ops();
    let wait = report.wait_ops(slot);
    let write = report.uniform_ops(slot, uniforms);
    let begin = report.recording_ops(slot);
    let draw = report.draw_ops(meshes);
    let submit = report.submit_ops(slot);

    lemma_performs_split(before, recreate + acquire + wait + write + begin + draw, submit, after);
    let drawn = choose|mid: VulkanRenderer<G>| #[trigger]
        performs_all(before, recreate + acquire + wait + write + begin + draw, &mid)
            && performs_all(&mid, submit, after);
    lemma_performs_split(before, recreate + acquire + wait + write + begin, draw, &drawn);
    let begun = choose|mid: VulkanRenderer<G>| #[trigger]
        performs_all(before, recreate + acquire + wait + write + begin, &mid) && performs_all(
            &mid,
            draw,
            &drawn,
        );
    lemma_performs_split(before, recreate + acquire + wait + write, begin, &begun);
    let written = choose|mid: VulkanRenderer<G>| #[trigger]
        performs_all(before, recreate + acquire + wait + write, &mid) && performs_all(
            &mid,
            begin,
            &begun,
        );
    lemma_performs_split(before, recreate + acquire + wait, write, &written);
    let waited = choose|mid: VulkanRenderer<G>| #[trigger]
        performs_all(before, recreate + acquire + wait, &mid) && performs_all(
            &mid,
            write,
            &written,
        );
    lemma_performs_split(before, recreate + acquire, wait, &waited);
    let acquired = choose|mid: VulkanRenderer<G>| #[trigger]
        performs_all(before, recreate + acquire, &mid) && performs_all(&mid, wait, &waited);
    lemma_performs_split(before, recreate, acquire, &acquired);
    let rebuilt = choose|mid: VulkanRenderer<G>| #[trigger]
        performs_all(before, recreate, &mid) && performs_all(&mid, acquire, &acquired);

    let rebuild = lemma_rebuild_performed(
        before,
        report.recreate,
        window.extent,
        recreate,
        &rebuilt,
    );
    lemma_stage_performed(
        &rebuilt,
        match report.acquire {
            Some(outcome) => Some(GpuOp::AcquireImage { outcome }),
            None => None,
        },
        acquire,
        &acquired,
    );
    lemma_stage_performed(
        &acquired,
        match report.wait {
            Some(ok) => Some(GpuOp::WaitForSlot { slot, ok }),
            None => None,
        },
        wait,
        &waited,
    );
    lemma_stage_performed(
        &waited,
        match report.uniforms {
            Some(ok) => Some(GpuOp::WriteUniforms { slot, uniforms, ok }),
            None => None,
        },
        write,
        &written,
    );
    lemma_stage_performed(
        &written,
        match report.recording {
            Some(ok) => Some(GpuOp::BeginRecording { slot, image_index: report.image_index(), ok }),
            None => None,
        },
        begin,
        &begun,
    );
    lemma_draws_performed(&begun, report, meshes, &drawn);
    lemma_stage_performed(
        &drawn,
        match report.submit {
            Some(outcome) => Some(
                GpuOp::Submit { slot, image_index: report.image_index(), outcome },
            ),
            None => None,
        },
        submit,
        after,
    );
    assert(after@ == before@.after_frame(slot, window, uniforms, report, rebuild));
}

impl<G: GraphicsApi> RenderBackend for VulkanRenderer<G> {
    open spec fn trace(&self) -> Seq<GpuOp> {
        self@.ops
    }

    open spec fn slot_count(&self) -> nat {
        self@.slots()
    }

    open spec fn meshes(&self) -> Seq<MeshCounts> {
        self@.mesh_counts()
    }

    open spec fn pending(&self, slot: int) -> bool {
        self@.in_flight(slot)
    }

    open spec fn performs(&self, op: GpuOp, after: &Self) -> bool {
        self@.performs(op, after@)
    }

    fn mesh_count(&self) -> (count: usize) {
        self.resources.mesh_count()
    }

    fn mesh(&self, id: usize) -> (counts: Option<MeshCounts>) {
        match self.resources.get_mesh(id) {
            Some(mesh) => Some(mesh.counts()),
            None => None,
        }
    }

    /// Uploads the mesh as `VulkanResources::create_mesh` does.
    fn upload_mesh(&mut self, vertices: &Vec<ElmVertex>, indices: &Vec<u32>) -> (r: Result<
        usize,
        UploadError,
    >)
        ensures
            final(self)@.context == old(self)@.context,
            final(self)@.resources.textures == old(self)@.resources.textures,
            final(self)@.resources.uniform_buffers == old(self)@.resources.uniform_buffers,
            final(self)@.resources.depth_resource == old(self)@.resources.depth_resource,
            old(self)@.wf() ==> final(self)@.wf(),
            match mesh_plan(vertices.len() as int, indices.len() as int) {
                Err(_) => final(self)@.calls == old(self)@.calls,
                Ok(counts) => exists|upload: MeshUpload|
                    {
                        &&& upload.wf()
                        &&& upload.mesh(counts).is_some() == r is Ok
                        &&& final(self)@ == #[trigger] old(self)@.uploaded(
                            counts,
                            packed_words(vertices@),
                            indices@,
                            upload,
                        )
                    },
            },
            r matches Ok(id) ==> ({
                &&& final(self)@.resources.meshes.len() == id + 1
                &&& final(self)@.resources.meshes[id as int].vertex_count == vertices.len()
                &&& final(self)@.resources.meshes[id as int].index_count == indices.len()
            }),
    {
        let ghost counts = mesh_plan(vertices.len() as int, indices.len() as int);
        let r = self.resources.create_mesh(&mut self.api, vertices, indices);
        proof {
            if counts is Ok {
                self.frame_ops@ = self.frame_ops@.push(
                    GpuOp::UploadMesh { counts: counts->Ok_0, ok: r is Ok },
                );
                let upload = choose|upload: MeshUpload|
                    {
                        &&& upload.wf()
                        &&& self@.calls == old(self)@.calls + #[trigger] upload.calls(
                            packed_words(vertices@),
                            indices@,
                        )
                        &&& match upload.mesh(counts->Ok_0) {
                            Some(mesh) => r is Ok && self@.resources == (ResourcesView {
                                meshes: old(self)@.resources.meshes.push(mesh),
                                ..old(self)@.resources
                            }),
                            None => r is Err && self@.resources == old(self)@.resources,
                        }
                    };
                assert(self@ == old(self)@.uploaded(
                    counts->Ok_0,
                    packed_words(vertices@),
                    indices@,
                    upload,
                ));
                if r is Ok {
                    assert(self@.mesh_counts() =~= old(self)@.mesh_counts().push(counts->Ok_0));
                } else {
                    assert(self@.mesh_counts() =~= old(self)@.mesh_counts());
                }
            } else {
                assert(self@.mesh_counts() =~= old(self)@.mesh_counts());
            }
        }
        r
    }

    /// Rebuilds chain and render targets as `RenderContext::rebuild` does;
    /// fails without asking the device before the context is initialized.
    fn recreate_chain(&mut self, extent: Extent) -> (ok: bool)
        ensures
            final(self)@.resources.meshes == old(self)@.resources.meshes,
            final(self)@.resources.textures == old(self)@.resources.textures,
            final(self)@.resources.uniform_buffers == old(self)@.resources.uniform_buffers,
            old(self)@.context.is_none() || extent.spec_is_empty() ==> !ok && final(self)@.calls
                == old(self)@.calls && final(self)@.context == old(self)@.context
                && final(self)@.resources == old(self)@.resources,
            old(self)@.wf() ==> final(self)@.wf(),
            ok ==> (final(self)@.context matches Some(context) && context.viewport == extent
                && context.swapchain.plan.extent == extent),
    {
        let ok = match &mut self.render_context {
            Some(context) => {
                if extent.is_empty() {
                    false
                } else {
                    context.rebuild(&mut self.api, &mut self.resources, extent)
                }
            },
            None => false,
        };
        proof {
            self.frame_ops@ = self.frame_ops@.push(GpuOp::RecreateChain { extent, ok });
            assert(self@.mesh_counts() =~= old(self)@.mesh_counts());
            if old(self)@.context.is_some() && !extent.spec_is_empty() {
                let context = old(self)@.context->Some_0;
                let outcome = choose|outcome: RebuildOutcome|
                    {
                        &&& outcome.wf()
                        &&& ok == outcome.ok()
                        &&& self@.calls == old(self)@.calls + #[trigger] outcome.calls(
                            context,
                            old(self)@.resources.depth_resource,
                            extent,
                        )
                        &&& self@.context == Some(outcome.context(context, extent))
                        &&& self@.resources == outcome.resources(old(self)@.resources)
                    };
                assert(self@ == old(self)@.rebuilt(extent, outcome));
            }
        }
        ok
    }

    fn acquire_image(&mut self) -> (outcome: AcquireOutcome) {
        let outcome = match &self.render_context {
            Some(context) => context.swapchain.acquire_next_image(&mut self.api),
            None => AcquireOutcome::Failed,
        };
        proof {
            self.frame_ops@ = self.frame_ops@.push(GpuOp::AcquireImage { outcome });
        }
        outcome
    }

    /// Waits for the slot's completion signal where one is pending; the
    /// device is not asked where none is.
    fn wait_for_slot(&mut self, slot: usize) -> (ok: bool)
        ensures
            final(self)@.resources == old(self)@.resources,
            final(self)@.calls == if old(self)@.in_flight(slot as int) {
                old(self)@.calls.push(ApiCall::WaitForFrame { slot, ok })
            } else {
                old(self)@.calls
            },
            !old(self)@.in_flight(slot as int) ==> ok,
            old(self)@.wf() ==> final(self)@.wf(),
    {
        let ok = match &mut self.render_context {
            Some(context) => {
                if slot < context.frames.len() && context.frames[slot].in_flight {
                    let ok = self.api.wait_for_frame(slot);
                    if ok {
                        let descriptor_set = context.frames[slot].descriptor_set;
                        context.frames.set(slot, FrameState { in_flight: false, descriptor_set });
                    }
                    ok
                } else {
                    true
                }
            },
            None => true,
        };
        proof {
            self.frame_ops@ = self.frame_ops@.push(GpuOp::WaitForSlot { slot, ok });
            let op = GpuOp::WaitForSlot { slot, ok };
            if old(self)@.in_flight(slot as int) {
                assert(self@.context->Some_0.frames =~= old(self)@.after_op(
                    op,
                ).context->Some_0.frames);
            }
            assert(self@ == old(self)@.after_op(op));
        }
        ok
    }

    /// Writes the block to the uniform buffer of the slot, as
    /// `RenderContext::update_uniform_buffer` does; fails without asking the
    /// device where the slot has none.
    fn write_uniforms(&mut self, slot: usize, uniforms: &UniformBufferObject) -> (ok: bool)
        ensures
            final(self)@.resources == old(self)@.resources,
            final(self)@.context == old(self)@.context,
            final(self)@.calls == if slot < old(self)@.resources.uniform_buffers.len() {
                old(self)@.calls.push(
                    ApiCall::WriteUniforms {
                        buffer: old(self)@.resources.uniform_buffers[slot as int],
                        block: uniforms.spec_words(),
                        ok,
                    },
                )
            } else {
                old(self)@.calls
            },
            slot >= old(self)@.resources.uniform_buffers.len() ==> !ok,
    {
        let ok = match self.resources.get_uniform_buffer(slot) {
            Some(buffer) => RenderContext::update_uniform_buffer(&mut self.api, buffer, uniforms),
            None => false,
        };
        proof {
            self.frame_ops@ = self.frame_ops@.push(
                GpuOp::WriteUniforms { slot, uniforms: *uniforms, ok },
            );
        }
        ok
    }

    /// Begins the frame as `RenderContext::build_command_buffer` does; fails
    /// without asking the device before the context is initialized.
    fn begin_recording(&mut self, slot: usize, image_index: u32) -> (ok: bool)
        ensures
            final(self)@.resources == old(self)@.resources,
            final(self)@.context == old(self)@.context,
            match old(self)@.target(image_index) {
                Some(framebuffer) => final(self)@.calls == old(self)@.calls.push(
                    ApiCall::BeginFrame {
                        pipeline: old(self)@.context->Some_0.pipeline.pipeline,
                        framebuffer,
                        clear: ClearValues::spec_scene(
                            old(self)@.context->Some_0.pipeline.depth.is_some(),
                        ),
                        viewport: old(self)@.context->Some_0.viewport,
                        descriptor_set: old(self)@.context->Some_0.frames[slot as int].descriptor_set,
                        ok,
                    },
                ),
                None => !ok && final(self)@.calls == old(self)@.calls,
            },
    {
        let ok = match &self.render_context {
            Some(context) => {
                if slot < context.frames.len() {
                    context.build_command_buffer(&mut self.api, slot, image_index)
                } else {
                    false
                }
            },
            None => false,
        };
        proof {
            self.frame_ops@ = self.frame_ops@.push(GpuOp::BeginRecording { slot, image_index, ok });
        }
        ok
    }

    /// Binds the buffers of the mesh and draws all of its indices. A mesh
    /// that was not uploaded is not drawn, and the device is not asked.
    fn draw_mesh(&mut self, mesh: usize) -> (ok: bool)
        ensures
            final(self)@.resources == old(self)@.resources,
            final(self)@.context == old(self)@.context,
            final(self)@.calls == if mesh < old(self)@.resources.meshes.len() {
                old(self)@.calls.push(
                    ApiCall::DrawIndexed {
                        vertex_buffer: old(self)@.resources.meshes[mesh as int].vertex_buffer,
                        index_buffer: old(self)@.resources.meshes[mesh as int].index_buffer,
                        index_count: old(self)@.resources.meshes[mesh as int].index_count,
                        ok,
                    },
                )
            } else {
                old(self)@.calls
            },
    {
        match self.resources.get_mesh(mesh) {
            Some(found) => {
                let ok = self.api.draw_indexed(
                    found.vertex_buffer,
                    found.index_buffer,
                    found.index_count,
                );
                proof {
                    self.frame_ops@ = self.frame_ops@.push(
                        GpuOp::DrawMesh {
                            mesh,
                            index_count: old(self)@.resources.meshes[mesh as int].index_count,
                            ok,
                        },
                    );
                }
                ok
            },
            None => false,
        }
    }

    /// Submits the frame; the slot's completion signal is pending from then
    /// on where the submission was signalled.
    fn submit(&mut self, slot: usize, image_index: u32) -> (outcome: SubmitOutcome)
        ensures
            final(self)@.resources == old(self)@.resources,
            final(self)@.calls == old(self)@.calls.push(
                ApiCall::SubmitFrame { slot, image_index, outcome },
            ),
            old(self)@.wf() ==> final(self)@.wf(),
    {
        let outcome = self.api.submit_frame(slot, image_index);
        match &mut self.render_context {
            Some(context) => {
                if slot < context.frames.len() {
                    let descriptor_set = context.frames[slot].descriptor_set;
                    let in_flight = match outcome {
                        SubmitOutcome::Signalled => true,
                        _ => false,
                    };
                    context.frames.set(slot, FrameState { in_flight, descriptor_set });
                }
            },
            None => {},
        }
        proof {
            self.frame_ops@ = self.frame_ops@.push(GpuOp::Submit { slot, image_index, outcome });
        }
        outcome
    }
}

} // verus!
