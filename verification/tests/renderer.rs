use elements::api::{
    BufferId, BufferUsage, ClearValues, DepthFormat, DescriptorSetId, FramebufferId, Gpu,
    GraphicsApi, ImageId, PipelineId, RecordedCall, SamplerId,
};
use elements::pipeline::{
    CullMode, DescriptorBinding, DescriptorKind, FrontFace, PipelineDescription, PolygonMode,
    Topology, VertexAttribute, VulkanPipeline,
};
use elements::extent::Extent;
use elements::frame::{
    AcquireOutcome, FrameError, FrameReport, FrameResult, RenderBackend, SubmitOutcome,
    WindowState, MAX_FRAMES_IN_FLIGHT,
};
use elements::recording_api::{CallKind, RecordingApi};
use elements::render_targets::RenderTargets;
use elements::renderer::{RenderError, VulkanRenderer};
use elements::resources::{DepthError, RenderMesh, Texture, VulkanResources};
use elements::sampler::{MagFilter, Sampler, WrappingMode};
use elements::surface::{
    ChainError, ChainPlan, ColorFormat, ColorSpace, CompositeAlpha, PresentMode, SurfaceFormat,
    SurfaceSupport,
};
use elements::swapchain::VulkanSwapchain;
use elements::ubo::UniformBufferObject;
use elements::upload::{MeshCounts, MipBlit, UploadError};
use elements::vertex::{ElmVec2, ElmVec3, ElmVertex};

const UNIFORMS: UniformBufferObject =
    UniformBufferObject { model: [1; 16], view: [2; 16], proj: [3; 16] };
const SIZE: Extent = Extent { width: 800, height: 600 };

fn block_of(model: u32, view: u32, proj: u32) -> [u32; 48] {
    let mut block = [0u32; 48];
    for i in 0..16 {
        block[i] = model;
        block[16 + i] = view;
        block[32 + i] = proj;
    }
    block
}

fn shown(width: u32, height: u32) -> WindowState {
    WindowState { minimized: Some(false), extent: Extent { width, height } }
}

fn support() -> SurfaceSupport {
    SurfaceSupport {
        min_image_count: 3,
        formats: vec![
            SurfaceFormat { format: ColorFormat::Bgra8Unorm, color_space: ColorSpace::SrgbNonLinear },
            SurfaceFormat { format: ColorFormat::Rgba8Srgb, color_space: ColorSpace::SrgbNonLinear },
        ],
        present_modes: vec![PresentMode::Fifo, PresentMode::Mailbox],
        composite_alpha: vec![CompositeAlpha::Opaque],
    }
}

fn plan(extent: Extent) -> ChainPlan {
    ChainPlan {
        min_image_count: 3,
        format: 1,
        extent,
        present_mode: PresentMode::Mailbox,
        composite_alpha: CompositeAlpha::Opaque,
    }
}

fn vertex(x: u32, y: u32) -> ElmVertex {
    ElmVertex {
        position: ElmVec3 { x, y, z: 0 },
        color: ElmVec3 { x: 1, y: 1, z: 1 },
        tex_coord: ElmVec2 { x: 0, y: 0 },
    }
}

fn triangle() -> (Vec<ElmVertex>, Vec<u32>) {
    (vec![vertex(0, 0), vertex(1, 0), vertex(0, 1)], vec![0, 1, 2])
}

fn triangle_words() -> Vec<u32> {
    vec![0, 0, 0, 1, 1, 1, 0, 0, 1, 0, 0, 1, 1, 1, 0, 0, 0, 1, 0, 1, 1, 1, 0, 0]
}

fn framebuffer(image: u32, depth: u32, id: u32) -> RecordedCall {
    RecordedCall::CreateFramebuffer {
        pipeline: PipelineId(1),
        image,
        depth: Some(ImageId(depth)),
        id: Some(FramebufferId(id)),
    }
}

fn running(images: u32) -> VulkanRenderer<RecordingApi> {
    let mut renderer = VulkanRenderer::new(RecordingApi::new(images));
    renderer.initialize_render_context(&support(), SIZE).unwrap();
    renderer
}

fn calls(renderer: &VulkanRenderer<RecordingApi>) -> Vec<RecordedCall> {
    renderer.api().recorded().clone()
}

#[test]
fn initialization_sets_up_chain_targets_and_slots() {
    let renderer = running(3);
    assert_eq!(
        calls(&renderer),
        vec![
            RecordedCall::CreateChain { plan: plan(SIZE), images: Some(3) },
            RecordedCall::QueryDepthFormat { format: DepthFormat::D32Sfloat, supported: Some(true) },
            RecordedCall::CreateDepthImage {
                format: DepthFormat::D32Sfloat,
                extent: SIZE,
                id: Some(ImageId(0))
            },
            RecordedCall::CreatePipeline {
                description: PipelineDescription::forward(
                    ColorFormat::Rgba8Srgb,
                    Some(DepthFormat::D32Sfloat),
                    false
                ),
                id: Some(PipelineId(1))
            },
            framebuffer(0, 0, 2),
            framebuffer(1, 0, 3),
            framebuffer(2, 0, 4),
            RecordedCall::CreateUniformBuffer { id: Some(BufferId(5)) },
            RecordedCall::CreateUniformBuffer { id: Some(BufferId(6)) },
            RecordedCall::CreateDescriptorSet {
                pipeline: PipelineId(1),
                uniforms: BufferId(5),
                id: Some(DescriptorSetId(7))
            },
            RecordedCall::CreateDescriptorSet {
                pipeline: PipelineId(1),
                uniforms: BufferId(6),
                id: Some(DescriptorSetId(8))
            },
        ]
    );
    assert_eq!(renderer.resources().get_depth_resources(), Some(ImageId(0)));
    assert!(renderer.is_initialized());
    assert_eq!(renderer.current_frame(), Some(0));
    assert!(!renderer.needs_recreate());
    assert_eq!(renderer.viewport(), Some(SIZE));
    assert_eq!(renderer.resources().uniform_buffer_count(), MAX_FRAMES_IN_FLIGHT);
    assert_eq!(renderer.resources().get_uniform_buffer(1), Some(BufferId(6)));
    assert_eq!(renderer.resources().get_uniform_buffer(2), None);
}

#[test]
fn five_updates_of_an_unchanged_window_submit_five_frames() {
    let mut renderer = running(3);
    let (vertices, indices) = triangle();
    assert_eq!(renderer.upload_mesh(&vertices, &indices), Ok(0));
    let before = calls(&renderer).len();
    let mut slots = Vec::new();
    for _ in 0..5 {
        slots.push(renderer.current_frame().unwrap());
        let report = renderer.draw_frame(shown(800, 600), &UNIFORMS).unwrap();
        assert_eq!(report.result(), FrameResult::Presented);
        assert_eq!(report.draws, 1);
    }
    assert_eq!(slots, vec![0, 1, 0, 1, 0]);
    assert!(!renderer.needs_recreate());
    let frames = calls(&renderer).split_off(before);
    let submitted: Vec<&RecordedCall> =
        frames.iter().filter(|call| matches!(call, RecordedCall::SubmitFrame { .. })).collect();
    assert_eq!(
        submitted,
        vec![
            &RecordedCall::SubmitFrame { slot: 0, image_index: 0, outcome: SubmitOutcome::Signalled },
            &RecordedCall::SubmitFrame { slot: 1, image_index: 1, outcome: SubmitOutcome::Signalled },
            &RecordedCall::SubmitFrame { slot: 0, image_index: 2, outcome: SubmitOutcome::Signalled },
            &RecordedCall::SubmitFrame { slot: 1, image_index: 0, outcome: SubmitOutcome::Signalled },
            &RecordedCall::SubmitFrame { slot: 0, image_index: 1, outcome: SubmitOutcome::Signalled },
        ]
    );
    assert!(!frames.iter().any(|call| matches!(call, RecordedCall::RecreateChain { .. })));
}

#[test]
fn first_frame_calls_the_device_in_order() {
    let mut renderer = running(3);
    let (vertices, indices) = triangle();
    renderer.upload_mesh(&vertices, &indices).unwrap();
    let mesh = *renderer.resources().get_mesh(0).unwrap();
    let before = calls(&renderer).len();
    renderer.draw_frame(shown(800, 600), &UNIFORMS).unwrap();
    assert_eq!(
        calls(&renderer).split_off(before),
        vec![
            RecordedCall::AcquireImage { outcome: AcquireOutcome::Image { index: 0, suboptimal: false } },
            RecordedCall::WriteUniforms { buffer: BufferId(5), block: block_of(1, 2, 3).to_vec(), ok: true },
            RecordedCall::BeginFrame {
                pipeline: PipelineId(1),
                framebuffer: FramebufferId(2),
                clear: ClearValues {
                    red: 0,
                    green: 0,
                    blue: 0,
                    alpha: 1.0f32.to_bits(),
                    depth: Some(1.0f32.to_bits()),
                },
                viewport: SIZE,
                descriptor_set: DescriptorSetId(7),
                ok: true
            },
            RecordedCall::DrawIndexed {
                vertex_buffer: mesh.vertex_buffer,
                index_buffer: mesh.index_buffer,
                index_count: 3,
                ok: true
            },
            RecordedCall::SubmitFrame { slot: 0, image_index: 0, outcome: SubmitOutcome::Signalled },
        ]
    );
    assert!(renderer.is_in_flight(0));
    assert!(!renderer.is_in_flight(1));
}

#[test]
fn slot_is_waited_for_before_it_is_used_again() {
    let mut renderer = running(3);
    renderer.draw_frame(shown(800, 600), &UNIFORMS).unwrap();
    renderer.draw_frame(shown(800, 600), &UNIFORMS).unwrap();
    let before = calls(&renderer).len();
    renderer.draw_frame(shown(800, 600), &UNIFORMS).unwrap();
    let third = calls(&renderer).split_off(before);
    assert_eq!(
        third[0],
        RecordedCall::AcquireImage { outcome: AcquireOutcome::Image { index: 2, suboptimal: false } }
    );
    assert_eq!(third[1], RecordedCall::WaitForFrame { slot: 0, ok: true });
    assert_eq!(third[2], RecordedCall::WriteUniforms { buffer: BufferId(5), block: UNIFORMS.words().to_vec(), ok: true });
    assert_eq!(third.len(), 5);
}

#[test]
fn failed_wait_keeps_the_signal_and_the_uniforms() {
    let mut renderer = running(3);
    renderer.draw_frame(shown(800, 600), &UNIFORMS).unwrap();
    renderer.draw_frame(shown(800, 600), &UNIFORMS).unwrap();
    renderer.api_mut().fail(CallKind::WaitForFrame);
    let before = calls(&renderer).len();
    let report = renderer.draw_frame(shown(800, 600), &UNIFORMS).unwrap();
    assert_eq!(report.result(), FrameResult::Failed(FrameError::Wait));
    assert!(renderer.is_in_flight(0));
    assert_eq!(renderer.current_frame(), Some(0));
    let third = calls(&renderer).split_off(before);
    assert_eq!(third.last(), Some(&RecordedCall::WaitForFrame { slot: 0, ok: false }));
    assert_eq!(third.len(), 2);
}

#[test]
fn window_without_area_leaves_the_device_alone() {
    let mut renderer = running(3);
    let before = calls(&renderer);
    let report = renderer.draw_frame(shown(0, 0), &UNIFORMS).unwrap();
    assert_eq!(report, FrameReport::idle());
    assert_eq!(report.result(), FrameResult::Skipped);
    assert_eq!(calls(&renderer), before);
    assert_eq!(renderer.current_frame(), Some(0));
    assert!(!renderer.needs_recreate());
    assert_eq!(renderer.viewport(), Some(SIZE));
}

#[test]
fn frame_before_initialization_is_refused() {
    let mut renderer = VulkanRenderer::new(RecordingApi::new(3));
    assert_eq!(
        renderer.draw_frame(shown(800, 600), &UNIFORMS),
        Err(RenderError::NotInitialized)
    );
    assert!(calls(&renderer).is_empty());
    assert!(!renderer.is_initialized());
    assert_eq!(renderer.current_frame(), None);
    assert_eq!(renderer.viewport(), None);
    assert_eq!(renderer.frame_extent(shown(800, 600)), None);
}

#[test]
fn suboptimal_image_is_drawn_and_the_chain_rebuilt_for_the_next_frame() {
    let mut api = RecordingApi::new(3);
    api.script_acquire(AcquireOutcome::Image { index: 1, suboptimal: true });
    let mut renderer = VulkanRenderer::new(api);
    renderer.initialize_render_context(&support(), SIZE).unwrap();
    let first = renderer.draw_frame(shown(800, 600), &UNIFORMS).unwrap();
    assert_eq!(first.result(), FrameResult::Presented);
    assert!(renderer.needs_recreate());
    let resized = Extent { width: 1024, height: 768 };
    assert_eq!(renderer.frame_extent(shown(1024, 768)), Some(resized));
    let before = calls(&renderer).len();
    let second = renderer.draw_frame(shown(1024, 768), &UNIFORMS).unwrap();
    assert_eq!(second.recreate, Some(true));
    assert_eq!(second.result(), FrameResult::Presented);
    assert!(!renderer.needs_recreate());
    assert_eq!(renderer.viewport(), Some(resized));
    let rebuilt = calls(&renderer).split_off(before);
    assert_eq!(
        rebuilt[..11].to_vec(),
        vec![
            RecordedCall::RecreateChain { plan: plan(resized), images: Some(3) },
            RecordedCall::ReleaseFramebuffer { framebuffer: FramebufferId(2) },
            RecordedCall::ReleaseFramebuffer { framebuffer: FramebufferId(3) },
            RecordedCall::ReleaseFramebuffer { framebuffer: FramebufferId(4) },
            RecordedCall::QueryDepthFormat { format: DepthFormat::D32Sfloat, supported: Some(true) },
            RecordedCall::CreateDepthImage {
                format: DepthFormat::D32Sfloat,
                extent: resized,
                id: Some(ImageId(9))
            },
            RecordedCall::ReleaseImage { image: ImageId(0) },
            framebuffer(0, 9, 10),
            framebuffer(1, 9, 11),
            framebuffer(2, 9, 12),
            RecordedCall::AcquireImage { outcome: AcquireOutcome::Image { index: 0, suboptimal: false } },
        ]
    );
    assert_eq!(
        rebuilt[12],
        RecordedCall::BeginFrame {
            pipeline: PipelineId(1),
            framebuffer: FramebufferId(10),
            clear: ClearValues::scene(true),
            viewport: resized,
            descriptor_set: DescriptorSetId(8),
            ok: true
        }
    );
    assert_eq!(renderer.resources().get_depth_resources(), Some(ImageId(9)));
}

#[test]
fn stale_chain_is_rebuilt_before_the_next_acquisition() {
    let mut api = RecordingApi::new(2);
    api.script_acquire(AcquireOutcome::OutOfDate);
    let mut renderer = VulkanRenderer::new(api);
    renderer.initialize_render_context(&support(), SIZE).unwrap();
    let first = renderer.draw_frame(shown(800, 600), &UNIFORMS).unwrap();
    assert_eq!(first.result(), FrameResult::ChainOutOfDate);
    assert!(renderer.needs_recreate());
    assert_eq!(renderer.current_frame(), Some(0));
    let second = renderer.draw_frame(shown(800, 600), &UNIFORMS).unwrap();
    assert_eq!(second.recreate, Some(true));
    assert_eq!(second.result(), FrameResult::Presented);
    assert_eq!(renderer.current_frame(), Some(1));
}

#[test]
fn chain_that_cannot_be_rebuilt_fails_the_frame_and_is_tried_again() {
    let mut renderer = running(3);
    renderer.request_recreate();
    renderer.api_mut().fail(CallKind::RecreateChain);
    let before = calls(&renderer).len();
    let report = renderer.draw_frame(shown(640, 480), &UNIFORMS).unwrap();
    assert_eq!(report.result(), FrameResult::Failed(FrameError::Recreate));
    assert!(renderer.needs_recreate());
    assert_eq!(renderer.viewport(), Some(SIZE));
    assert_eq!(
        calls(&renderer).split_off(before),
        vec![RecordedCall::RecreateChain {
            plan: plan(Extent { width: 640, height: 480 }),
            images: None
        }]
    );
}

#[test]
fn image_without_framebuffer_fails_the_recording() {
    let mut api = RecordingApi::new(3);
    api.script_acquire(AcquireOutcome::Image { index: 3, suboptimal: false });
    let mut renderer = VulkanRenderer::new(api);
    renderer.initialize_render_context(&support(), SIZE).unwrap();
    let report = renderer.draw_frame(shown(800, 600), &UNIFORMS).unwrap();
    assert_eq!(report.result(), FrameResult::Failed(FrameError::Recording));
    assert_eq!(renderer.current_frame(), Some(0));
    assert!(!calls(&renderer).iter().any(|call| matches!(call, RecordedCall::BeginFrame { .. })));
}

#[test]
fn initialization_fails_with_the_step_that_failed() {
    let cases = [
        (CallKind::CreateChain, RenderError::Chain(ChainError::Device)),
        (CallKind::QueryDepthFormat, RenderError::Depth(DepthError::Device)),
        (CallKind::CreateDepthImage, RenderError::Depth(DepthError::Device)),
        (CallKind::CreatePipeline, RenderError::Pipeline),
        (CallKind::CreateFramebuffer, RenderError::Targets),
        (CallKind::CreateUniformBuffer, RenderError::Uniforms),
        (CallKind::CreateDescriptorSet, RenderError::DescriptorSet),
    ];
    for (kind, error) in cases {
        let mut api = RecordingApi::new(3);
        api.fail(kind);
        let mut renderer = VulkanRenderer::new(api);
        assert_eq!(renderer.initialize_render_context(&support(), SIZE), Err(error));
        assert!(!renderer.is_initialized());
    }
}

#[test]
fn initialization_needs_a_supported_depth_format() {
    let mut api = RecordingApi::new(3);
    api.set_depth_formats(Vec::new());
    let mut renderer = VulkanRenderer::new(api);
    assert_eq!(
        renderer.initialize_render_context(&support(), SIZE),
        Err(RenderError::Depth(DepthError::NoSupportedFormat))
    );
    assert!(!renderer.is_initialized());
}

#[test]
fn surface_without_area_is_refused_before_the_device_is_asked() {
    let mut renderer = VulkanRenderer::new(RecordingApi::new(3));
    for extent in [(0, 0), (0, 600), (800, 0)] {
        assert_eq!(
            renderer.initialize_render_context(
                &support(),
                Extent { width: extent.0, height: extent.1 }
            ),
            Err(RenderError::EmptySurface)
        );
    }
    assert!(calls(&renderer).is_empty());
}

#[test]
fn rebuild_that_cannot_make_its_targets_is_tried_again() {
    let mut renderer = running(3);
    renderer.request_recreate();
    renderer.api_mut().fail(CallKind::CreateFramebuffer);
    let report = renderer.draw_frame(shown(640, 480), &UNIFORMS).unwrap();
    assert_eq!(report.result(), FrameResult::Failed(FrameError::Recreate));
    assert!(renderer.needs_recreate());
    assert_eq!(renderer.viewport(), Some(SIZE));
    assert_eq!(
        calls(&renderer).last(),
        Some(&RecordedCall::CreateFramebuffer {
            pipeline: PipelineId(1),
            image: 0,
            depth: Some(ImageId(9)),
            id: None
        })
    );
    renderer.api_mut().fail_nothing();
    let report = renderer.draw_frame(shown(640, 480), &UNIFORMS).unwrap();
    assert_eq!(report.recreate, Some(true));
    assert_eq!(report.result(), FrameResult::Presented);
    assert_eq!(renderer.viewport(), Some(Extent { width: 640, height: 480 }));
}

#[test]
fn rebuild_that_cannot_make_its_depth_target_fails_the_frame() {
    let mut renderer = running(3);
    renderer.request_recreate();
    renderer.api_mut().fail(CallKind::CreateDepthImage);
    let report = renderer.draw_frame(shown(640, 480), &UNIFORMS).unwrap();
    assert_eq!(report.result(), FrameResult::Failed(FrameError::Recreate));
    assert_eq!(renderer.resources().get_depth_resources(), Some(ImageId(0)));
    assert!(renderer.needs_recreate());
}

#[test]
fn pipeline_is_built_as_described() {
    let mut api = Gpu::new(RecordingApi::new(3));
    let pipeline = VulkanPipeline::new(&mut api, ColorFormat::Bgra8Srgb, None, true).unwrap();
    assert_eq!(pipeline.pipeline(), PipelineId(0));
    assert_eq!(
        pipeline.description(),
        &PipelineDescription::forward(ColorFormat::Bgra8Srgb, None, true)
    );
    assert_eq!(
        api.api().recorded(),
        &vec![RecordedCall::CreatePipeline {
            description: PipelineDescription {
                color_format: ColorFormat::Bgra8Srgb,
                vertex_stride: 32,
                attributes: vec![
                    VertexAttribute { location: 0, offset: 0, components: 3 },
                    VertexAttribute { location: 1, offset: 12, components: 3 },
                    VertexAttribute { location: 2, offset: 24, components: 2 },
                ],
                topology: Topology::TriangleList,
                polygon_mode: PolygonMode::Fill,
                cull_mode: CullMode::Back,
                front_face: FrontFace::CounterClockwise,
                blending: false,
                depth: None,
                bindings: vec![
                    DescriptorBinding {
                        binding: 0,
                        kind: DescriptorKind::UniformBuffer,
                        vertex_stage: true,
                        fragment_stage: true,
                    },
                    DescriptorBinding {
                        binding: 1,
                        kind: DescriptorKind::CombinedImageSampler,
                        vertex_stage: false,
                        fragment_stage: true,
                    },
                ],
                dynamic_viewport: true,
            },
            id: Some(PipelineId(0))
        }]
    );
    api.api_mut().fail(CallKind::CreatePipeline);
    assert!(VulkanPipeline::new(
        &mut api,
        ColorFormat::Bgra8Srgb,
        Some(DepthFormat::D24UnormS8Uint),
        false
    ).is_none());
}

#[test]
fn surface_without_format_or_alpha_is_refused_before_the_device_is_asked() {
    let mut none = support();
    none.composite_alpha.clear();
    let mut renderer = VulkanRenderer::new(RecordingApi::new(3));
    assert_eq!(
        renderer.initialize_render_context(&none, SIZE),
        Err(RenderError::Chain(ChainError::NoCompositeAlpha))
    );
    none.formats.clear();
    assert_eq!(
        renderer.initialize_render_context(&none, SIZE),
        Err(RenderError::Chain(ChainError::NoFormat))
    );
    assert!(calls(&renderer).is_empty());
}

#[test]
fn mesh_goes_through_a_staging_buffer_and_is_found_again() {
    let mut api = Gpu::new(RecordingApi::new(3));
    let mut resources = VulkanResources::new();
    let vertices: Vec<ElmVertex> = (0..4).map(|i| vertex(i, i)).collect();
    let indices = vec![0, 1, 2, 2, 3, 0];
    assert_eq!(resources.create_mesh(&mut api, &vertices, &indices), Ok(0));
    assert_eq!(
        api.api().recorded(),
        &vec![
            RecordedCall::CreateStagingBuffer {
                words: vec![
                    0, 0, 0, 1, 1, 1, 0, 0, 1, 1, 0, 1, 1, 1, 0, 0, 2, 2, 0, 1, 1, 1, 0, 0, 3, 3, 0, 1, 1,
                    1, 0, 0,
                ],
                id: Some(BufferId(0)),
            },
            RecordedCall::CreateDeviceBuffer {
                usage: BufferUsage::Vertex,
                words: 32,
                id: Some(BufferId(1))
            },
            RecordedCall::CopyBuffer { src: BufferId(0), dst: BufferId(1), ok: true },
            RecordedCall::ReleaseBuffer { buffer: BufferId(0) },
            RecordedCall::CreateStagingBuffer { words: vec![0, 1, 2, 2, 3, 0], id: Some(BufferId(2)) },
            RecordedCall::CreateDeviceBuffer { usage: BufferUsage::Index, words: 6, id: Some(BufferId(3)) },
            RecordedCall::CopyBuffer { src: BufferId(2), dst: BufferId(3), ok: true },
            RecordedCall::ReleaseBuffer { buffer: BufferId(2) },
        ]
    );
    assert_eq!(
        resources.get_mesh(0),
        Some(&RenderMesh {
            vertex_buffer: BufferId(1),
            index_buffer: BufferId(3),
            vertex_count: 4,
            index_count: 6
        })
    );
    assert_eq!(resources.get_mesh(0).unwrap().counts(), MeshCounts { vertex_count: 4, index_count: 6 });
    assert_eq!(resources.get_mesh(1), None);
    assert_eq!(resources.mesh_count(), 1);
}

#[test]
fn staging_buffer_is_released_when_the_upload_fails() {
    let (vertices, indices) = triangle();
    let mut api = Gpu::new(RecordingApi::new(3));
    api.api_mut().fail(CallKind::CreateDeviceBuffer);
    let mut resources = VulkanResources::new();
    assert_eq!(resources.create_mesh(&mut api, &vertices, &indices), Err(UploadError::Device));
    assert_eq!(
        api.api().recorded(),
        &vec![
            RecordedCall::CreateStagingBuffer { words: triangle_words(), id: Some(BufferId(0)) },
            RecordedCall::CreateDeviceBuffer { usage: BufferUsage::Vertex, words: 24, id: None },
            RecordedCall::ReleaseBuffer { buffer: BufferId(0) },
        ]
    );
    assert_eq!(resources.mesh_count(), 0);

    let mut api = Gpu::new(RecordingApi::new(3));
    api.api_mut().fail(CallKind::CopyBuffer);
    assert_eq!(resources.create_mesh(&mut api, &vertices, &indices), Err(UploadError::Device));
    assert_eq!(
        api.api().recorded(),
        &vec![
            RecordedCall::CreateStagingBuffer { words: triangle_words(), id: Some(BufferId(0)) },
            RecordedCall::CreateDeviceBuffer {
                usage: BufferUsage::Vertex,
                words: 24,
                id: Some(BufferId(1))
            },
            RecordedCall::CopyBuffer { src: BufferId(0), dst: BufferId(1), ok: false },
            RecordedCall::ReleaseBuffer { buffer: BufferId(0) },
            RecordedCall::ReleaseBuffer { buffer: BufferId(1) },
        ]
    );

    let mut api = Gpu::new(RecordingApi::new(3));
    api.api_mut().fail(CallKind::CreateStagingBuffer);
    assert_eq!(resources.create_mesh(&mut api, &vertices, &indices), Err(UploadError::Device));
    assert_eq!(api.api().recorded(), &vec![RecordedCall::CreateStagingBuffer { words: triangle_words(), id: None }]);
    assert_eq!(resources.mesh_count(), 0);
}

#[test]
fn refused_mesh_does_not_reach_the_device() {
    let (vertices, indices) = triangle();
    let mut api = Gpu::new(RecordingApi::new(3));
    let mut resources = VulkanResources::new();
    assert_eq!(resources.create_mesh(&mut api, &Vec::new(), &indices), Err(UploadError::EmptyMesh));
    assert_eq!(resources.create_mesh(&mut api, &vertices, &Vec::new()), Err(UploadError::EmptyMesh));
    assert!(api.api().recorded().is_empty());
    let mut renderer = VulkanRenderer::new(RecordingApi::new(3));
    assert_eq!(renderer.upload_mesh(&Vec::new(), &indices), Err(UploadError::EmptyMesh));
    assert_eq!(renderer.mesh_count(), 0);
    assert_eq!(renderer.upload_mesh(&vertices, &indices), Ok(0));
    assert_eq!(renderer.mesh(0), Some(MeshCounts { vertex_count: 3, index_count: 3 }));
    assert_eq!(renderer.mesh(1), None);
}

#[test]
fn texture_is_uploaded_with_its_mipmaps() {
    let mut api = Gpu::new(RecordingApi::new(3));
    let mut resources = VulkanResources::new();
    let extent = Extent { width: 4, height: 2 };
    let sampler = Sampler {
        mag_filter: Some(MagFilter::Nearest),
        min_filter: None,
        wrap_s: WrappingMode::ClampToEdge,
        wrap_t: WrappingMode::Repeat,
    };
    let pixels: Vec<u8> = (0..32).collect();
    assert_eq!(resources.create_texture(&mut api, &pixels, extent, &sampler), Ok(0));
    assert_eq!(
        api.api().recorded(),
        &vec![
            RecordedCall::QueryLinearBlit { supported: true },
            RecordedCall::CreatePixelStagingBuffer { bytes: pixels.clone(), id: Some(BufferId(0)) },
            RecordedCall::CreateTextureImage { extent, mip_levels: 3, id: Some(ImageId(1)) },
            RecordedCall::CopyBufferToImage { src: BufferId(0), dst: ImageId(1), ok: true },
            RecordedCall::ReleaseBuffer { buffer: BufferId(0) },
            RecordedCall::BlitMipLevel {
                image: ImageId(1),
                blit: MipBlit {
                    src_level: 0,
                    src_extent: extent,
                    dst_level: 1,
                    dst_extent: Extent { width: 2, height: 1 }
                },
                ok: true
            },
            RecordedCall::BlitMipLevel {
                image: ImageId(1),
                blit: MipBlit {
                    src_level: 1,
                    src_extent: Extent { width: 2, height: 1 },
                    dst_level: 2,
                    dst_extent: Extent { width: 1, height: 1 }
                },
                ok: true
            },
            RecordedCall::CreateSampler { settings: sampler.settings(), id: Some(SamplerId(2)) },
        ]
    );
    assert_eq!(
        resources.get_texture(0),
        Some(&Texture { image: ImageId(1), sampler: SamplerId(2), extent, mip_levels: 3 })
    );
    assert_eq!(resources.get_texture(1), None);
}

#[test]
fn single_texel_texture_needs_no_blit_support() {
    let mut api = Gpu::new(RecordingApi::new(3));
    api.api_mut().set_linear_blit(false);
    let mut resources = VulkanResources::new();
    let extent = Extent { width: 1, height: 1 };
    assert_eq!(
        resources.create_texture(&mut api, &vec![255u8; 4], extent, &Sampler::standard()),
        Ok(0)
    );
    assert_eq!(api.api().recorded().len(), 5);
    assert_eq!(resources.get_texture(0).unwrap().mip_levels, 1);
}

#[test]
fn texture_is_refused_where_the_device_cannot_blit_linearly() {
    let mut api = Gpu::new(RecordingApi::new(3));
    api.api_mut().set_linear_blit(false);
    let mut resources = VulkanResources::new();
    let extent = Extent { width: 2, height: 2 };
    assert_eq!(
        resources.create_texture(&mut api, &vec![0u8; 16], extent, &Sampler::standard()),
        Err(UploadError::UnsupportedBlit)
    );
    assert_eq!(api.api().recorded(), &vec![RecordedCall::QueryLinearBlit { supported: false }]);
    assert_eq!(resources.get_texture(0), None);
}

#[test]
fn texture_with_wrong_pixel_count_or_no_area_is_refused() {
    let mut renderer = VulkanRenderer::new(RecordingApi::new(3));
    let extent = Extent { width: 2, height: 2 };
    assert_eq!(
        renderer.upload_texture(&vec![0u8; 15], extent, &Sampler::standard()),
        Err(UploadError::PixelCount)
    );
    assert_eq!(
        renderer.upload_texture(&Vec::new(), Extent { width: 0, height: 2 }, &Sampler::standard()),
        Err(UploadError::EmptyTexture)
    );
    assert!(calls(&renderer).is_empty());
    assert_eq!(renderer.upload_texture(&vec![0u8; 16], extent, &Sampler::standard()), Ok(0));
    assert_eq!(renderer.resources().get_texture(0).unwrap().mip_levels, 2);
}

#[test]
fn image_is_released_when_a_blit_fails() {
    let mut api = Gpu::new(RecordingApi::new(3));
    api.api_mut().fail(CallKind::BlitMipLevel);
    let mut resources = VulkanResources::new();
    let extent = Extent { width: 2, height: 2 };
    assert_eq!(
        resources.create_texture(&mut api, &vec![0u8; 16], extent, &Sampler::standard()),
        Err(UploadError::Device)
    );
    let recorded = api.api().recorded();
    assert_eq!(recorded.len(), 7);
    assert!(matches!(recorded[5], RecordedCall::BlitMipLevel { ok: false, .. }));
    assert_eq!(recorded[6], RecordedCall::ReleaseImage { image: ImageId(1) });
    assert_eq!(resources.get_texture(0), None);
}

#[test]
fn texture_upload_gives_everything_back_when_a_step_fails() {
    let extent = Extent { width: 1, height: 1 };
    let pixels = vec![9u8, 8, 7, 6];
    let cases: [(CallKind, Vec<RecordedCall>); 4] = [
        (
            CallKind::CreatePixelStagingBuffer,
            vec![RecordedCall::CreatePixelStagingBuffer { bytes: pixels.clone(), id: None }],
        ),
        (
            CallKind::CreateTextureImage,
            vec![
                RecordedCall::CreatePixelStagingBuffer { bytes: pixels.clone(), id: Some(BufferId(0)) },
                RecordedCall::CreateTextureImage { extent, mip_levels: 1, id: None },
                RecordedCall::ReleaseBuffer { buffer: BufferId(0) },
            ],
        ),
        (
            CallKind::CopyBufferToImage,
            vec![
                RecordedCall::CreatePixelStagingBuffer { bytes: pixels.clone(), id: Some(BufferId(0)) },
                RecordedCall::CreateTextureImage { extent, mip_levels: 1, id: Some(ImageId(1)) },
                RecordedCall::CopyBufferToImage { src: BufferId(0), dst: ImageId(1), ok: false },
                RecordedCall::ReleaseBuffer { buffer: BufferId(0) },
                RecordedCall::ReleaseImage { image: ImageId(1) },
            ],
        ),
        (
            CallKind::CreateSampler,
            vec![
                RecordedCall::CreatePixelStagingBuffer { bytes: pixels.clone(), id: Some(BufferId(0)) },
                RecordedCall::CreateTextureImage { extent, mip_levels: 1, id: Some(ImageId(1)) },
                RecordedCall::CopyBufferToImage { src: BufferId(0), dst: ImageId(1), ok: true },
                RecordedCall::ReleaseBuffer { buffer: BufferId(0) },
                RecordedCall::CreateSampler { settings: Sampler::standard().settings(), id: None },
                RecordedCall::ReleaseImage { image: ImageId(1) },
            ],
        ),
    ];
    for (kind, expected) in cases {
        let mut api = Gpu::new(RecordingApi::new(3));
        api.api_mut().fail(kind);
        let mut resources = VulkanResources::new();
        assert_eq!(
            resources.create_texture(&mut api, &pixels, extent, &Sampler::standard()),
            Err(UploadError::Device)
        );
        assert_eq!(api.api().recorded(), &expected);
    }
}

#[test]
fn depth_format_is_the_first_that_the_device_supports() {
    let mut api = Gpu::new(RecordingApi::new(3));
    assert_eq!(VulkanResources::find_depth_format(&mut api), Ok(DepthFormat::D32Sfloat));
    api.api_mut().set_depth_formats(vec![DepthFormat::D24UnormS8Uint]);
    assert_eq!(VulkanResources::find_depth_format(&mut api), Ok(DepthFormat::D24UnormS8Uint));
    assert_eq!(
        api.api().recorded(),
        &vec![
            RecordedCall::QueryDepthFormat { format: DepthFormat::D32Sfloat, supported: Some(true) },
            RecordedCall::QueryDepthFormat { format: DepthFormat::D32Sfloat, supported: Some(false) },
            RecordedCall::QueryDepthFormat {
                format: DepthFormat::D32SfloatS8Uint,
                supported: Some(false)
            },
            RecordedCall::QueryDepthFormat { format: DepthFormat::D24UnormS8Uint, supported: Some(true) },
        ]
    );
}

#[test]
fn depth_format_search_fails_without_support_or_answer() {
    let mut api = Gpu::new(RecordingApi::new(3));
    api.api_mut().set_depth_formats(Vec::new());
    assert_eq!(VulkanResources::find_depth_format(&mut api), Err(DepthError::NoSupportedFormat));
    assert_eq!(api.api().recorded().len(), 3);
    api.api_mut().fail(CallKind::QueryDepthFormat);
    assert_eq!(VulkanResources::find_depth_format(&mut api), Err(DepthError::Device));
    assert_eq!(api.api().recorded().len(), 4);
    assert_eq!(
        VulkanResources::find_supported_format(&mut api, &Vec::new()),
        Err(DepthError::NoSupportedFormat)
    );
    assert_eq!(api.api().recorded().len(), 4);
}

#[test]
fn stencil_formats_are_told_apart() {
    assert!(!VulkanResources::has_stencil_component(DepthFormat::D32Sfloat));
    assert!(VulkanResources::has_stencil_component(DepthFormat::D32SfloatS8Uint));
    assert!(VulkanResources::has_stencil_component(DepthFormat::D24UnormS8Uint));
}

#[test]
fn depth_target_replaces_the_one_before() {
    let mut api = Gpu::new(RecordingApi::new(3));
    let mut resources = VulkanResources::new();
    assert_eq!(resources.get_depth_resources(), None);
    assert_eq!(resources.create_depth_resources(&mut api, SIZE), Ok(DepthFormat::D32Sfloat));
    assert_eq!(resources.get_depth_resources(), Some(ImageId(0)));
    assert_eq!(
        resources.create_depth_resources(&mut api, Extent { width: 1, height: 1 }),
        Ok(DepthFormat::D32Sfloat)
    );
    assert_eq!(resources.get_depth_resources(), Some(ImageId(1)));
    assert_eq!(
        api.api().recorded()[2..].to_vec(),
        vec![
            RecordedCall::QueryDepthFormat { format: DepthFormat::D32Sfloat, supported: Some(true) },
            RecordedCall::CreateDepthImage {
                format: DepthFormat::D32Sfloat,
                extent: Extent { width: 1, height: 1 },
                id: Some(ImageId(1))
            },
            RecordedCall::ReleaseImage { image: ImageId(0) },
        ]
    );
}

#[test]
fn depth_target_that_cannot_be_made_keeps_the_one_before() {
    let mut api = Gpu::new(RecordingApi::new(3));
    let mut resources = VulkanResources::new();
    assert_eq!(
        resources.create_depth_resources(&mut api, Extent { width: 0, height: 1 }),
        Err(DepthError::EmptyExtent)
    );
    assert!(api.api().recorded().is_empty());
    resources.create_depth_resources(&mut api, SIZE).unwrap();
    api.api_mut().fail(CallKind::CreateDepthImage);
    assert_eq!(resources.create_depth_resources(&mut api, SIZE), Err(DepthError::Device));
    assert_eq!(resources.get_depth_resources(), Some(ImageId(0)));
    api.api_mut().fail_nothing();
    api.api_mut().set_depth_formats(Vec::new());
    assert_eq!(
        resources.create_depth_resources(&mut api, SIZE),
        Err(DepthError::NoSupportedFormat)
    );
    assert_eq!(resources.get_depth_resources(), Some(ImageId(0)));
    let mut renderer = VulkanRenderer::new(RecordingApi::new(3));
    assert_eq!(renderer.create_depth_resources(SIZE), Ok(DepthFormat::D32Sfloat));
    assert_eq!(renderer.resources().get_depth_resources(), Some(ImageId(0)));
}

#[test]
fn uniform_buffers_are_remade_only_when_their_number_changes() {
    let mut api = Gpu::new(RecordingApi::new(3));
    let mut resources = VulkanResources::new();
    assert_eq!(resources.create_uniform_buffers(&mut api, 2), Ok(()));
    assert_eq!(resources.create_uniform_buffers(&mut api, 2), Ok(()));
    assert_eq!(api.api().recorded().len(), 2);
    assert_eq!(resources.create_uniform_buffers(&mut api, 3), Ok(()));
    assert_eq!(
        api.api().recorded()[2..].to_vec(),
        vec![
            RecordedCall::ReleaseBuffer { buffer: BufferId(0) },
            RecordedCall::ReleaseBuffer { buffer: BufferId(1) },
            RecordedCall::CreateUniformBuffer { id: Some(BufferId(2)) },
            RecordedCall::CreateUniformBuffer { id: Some(BufferId(3)) },
            RecordedCall::CreateUniformBuffer { id: Some(BufferId(4)) },
        ]
    );
    assert_eq!(resources.get_uniform_buffer(2), Some(BufferId(4)));
    assert_eq!(resources.get_uniform_buffer(3), None);
    assert_eq!(resources.create_uniform_buffers(&mut api, 0), Ok(()));
    assert_eq!(resources.uniform_buffer_count(), 0);
}

#[test]
fn uniform_buffers_made_before_a_failure_are_kept() {
    let mut api = Gpu::new(RecordingApi::new(3));
    let mut resources = VulkanResources::new();
    api.api_mut().fail(CallKind::CreateUniformBuffer);
    assert_eq!(resources.create_uniform_buffers(&mut api, 2), Err(UploadError::Device));
    assert_eq!(resources.uniform_buffer_count(), 0);
    assert_eq!(api.api().recorded(), &vec![RecordedCall::CreateUniformBuffer { id: None }]);
}

#[test]
fn chain_is_created_as_planned() {
    let mut api = Gpu::new(RecordingApi::new(4));
    let chain = VulkanSwapchain::new(&mut api, &support(), SIZE, 2).unwrap();
    assert_eq!(chain.plan(), plan(SIZE));
    assert_eq!(chain.extent(), SIZE);
    assert_eq!(chain.image_count(), 4);
    assert_eq!(
        chain.format(),
        SurfaceFormat { format: ColorFormat::Rgba8Srgb, color_space: ColorSpace::SrgbNonLinear }
    );
    assert_eq!(api.api().recorded(), &vec![RecordedCall::CreateChain { plan: plan(SIZE), images: Some(4) }]);
}

#[test]
fn chain_creation_reports_the_device_and_the_surface() {
    let mut api = Gpu::new(RecordingApi::new(3));
    api.api_mut().fail(CallKind::CreateChain);
    assert_eq!(VulkanSwapchain::new(&mut api, &support(), SIZE, 2), Err(ChainError::Device));
    let mut none = support();
    none.formats.clear();
    assert_eq!(VulkanSwapchain::new(&mut api, &none, SIZE, 2), Err(ChainError::NoFormat));
    assert_eq!(api.api().recorded().len(), 1);
}

#[test]
fn recreating_at_the_same_size_twice_gives_the_same_chain() {
    let mut api = Gpu::new(RecordingApi::new(3));
    let mut chain = VulkanSwapchain::new(&mut api, &support(), SIZE, 2).unwrap();
    let size = Extent { width: 1280, height: 720 };
    assert_eq!(chain.recreate(&mut api, size), Ok(()));
    let once = chain;
    assert_eq!(chain.recreate(&mut api, size), Ok(()));
    assert_eq!(chain, once);
    assert_eq!(chain.extent(), size);
    assert_eq!(chain.image_count(), 3);
    assert_eq!(api.api().recorded()[1], api.api().recorded()[2]);
    assert_eq!(api.api().recorded()[1], RecordedCall::RecreateChain { plan: plan(size), images: Some(3) });
}

#[test]
fn chain_that_cannot_be_recreated_stays_as_it_is() {
    let mut api = Gpu::new(RecordingApi::new(3));
    let mut chain = VulkanSwapchain::new(&mut api, &support(), SIZE, 2).unwrap();
    api.api_mut().fail(CallKind::RecreateChain);
    assert_eq!(chain.recreate(&mut api, Extent { width: 1, height: 1 }), Err(ChainError::Device));
    assert_eq!(chain.extent(), SIZE);
    assert_eq!(
        chain.acquire_next_image(&mut api),
        AcquireOutcome::Image { index: 0, suboptimal: false }
    );
}

#[test]
fn render_targets_keep_a_framebuffer_for_each_image_and_pass() {
    let mut api = Gpu::new(RecordingApi::new(2));
    let mut targets = RenderTargets::new(2);
    assert_eq!(targets.image_count(), 2);
    assert_eq!(targets.framebuffers(0), None);
    assert!(targets.rebuild_for_pass(&mut api, 0, PipelineId(7), None));
    assert!(targets.rebuild_for_pass(&mut api, 5, PipelineId(8), Some(ImageId(9))));
    assert_eq!(targets.framebuffers(0), Some(&vec![FramebufferId(0), FramebufferId(1)]));
    assert_eq!(targets.framebuffers(5), Some(&vec![FramebufferId(2), FramebufferId(3)]));
    assert_eq!(targets.framebuffers(1), None);
    assert!(targets.rebuild_for_pass(&mut api, 0, PipelineId(7), None));
    assert_eq!(targets.framebuffers(0), Some(&vec![FramebufferId(4), FramebufferId(5)]));
    assert_eq!(targets.framebuffers(5), Some(&vec![FramebufferId(2), FramebufferId(3)]));
    assert_eq!(
        api.api().recorded()[4..].to_vec(),
        vec![
            RecordedCall::CreateFramebuffer {
                pipeline: PipelineId(7),
                image: 0,
                depth: None,
                id: Some(FramebufferId(4))
            },
            RecordedCall::CreateFramebuffer {
                pipeline: PipelineId(7),
                image: 1,
                depth: None,
                id: Some(FramebufferId(5))
            },
            RecordedCall::ReleaseFramebuffer { framebuffer: FramebufferId(0) },
            RecordedCall::ReleaseFramebuffer { framebuffer: FramebufferId(1) },
        ]
    );
}

#[test]
fn new_images_release_every_framebuffer() {
    let mut api = Gpu::new(RecordingApi::new(2));
    let mut targets = RenderTargets::new(2);
    targets.rebuild_for_pass(&mut api, 0, PipelineId(7), None);
    targets.rebuild_for_pass(&mut api, 1, PipelineId(7), None);
    targets.replace_images(&mut api, 3);
    assert_eq!(targets.image_count(), 3);
    assert_eq!(targets.framebuffers(0), None);
    assert_eq!(targets.framebuffers(1), None);
    assert_eq!(
        api.api().recorded()[4..].to_vec(),
        (0..4).map(|id| RecordedCall::ReleaseFramebuffer { framebuffer: FramebufferId(id) }).collect::<Vec<_>>()
    );
    assert!(targets.rebuild_for_pass(&mut api, 0, PipelineId(7), None));
    assert_eq!(targets.framebuffers(0).unwrap().len(), 3);
}

#[test]
fn framebuffers_made_before_a_failure_are_released() {
    let mut api = Gpu::new(RecordingApi::new(2));
    let mut targets = RenderTargets::new(2);
    assert!(targets.rebuild_for_pass(&mut api, 0, PipelineId(7), None));
    api.api_mut().fail(CallKind::CreateFramebuffer);
    assert!(!targets.rebuild_for_pass(&mut api, 0, PipelineId(7), None));
    assert_eq!(targets.framebuffers(0), Some(&vec![FramebufferId(0), FramebufferId(1)]));
    assert_eq!(
        api.api().recorded()[2..].to_vec(),
        vec![RecordedCall::CreateFramebuffer {
            pipeline: PipelineId(7),
            image: 0,
            depth: None,
            id: None
        }]
    );
}

#[test]
fn recording_api_hands_out_consecutive_ids() {
    let mut api = RecordingApi::new(1);
    assert_eq!(api.create_uniform_buffer(), Some(BufferId(0)));
    assert_eq!(api.create_sampler(Sampler::standard().settings()), Some(SamplerId(1)));
    api.fail(CallKind::CreateUniformBuffer);
    assert_eq!(api.create_uniform_buffer(), None);
    assert_eq!(api.create_framebuffer(PipelineId(0), 0, None), Some(FramebufferId(2)));
    api.set_image_count(0);
    assert_eq!(api.acquire_image(), AcquireOutcome::Failed);
    api.script_submit(SubmitOutcome::OutOfDate);
    assert_eq!(api.submit_frame(0, 0), SubmitOutcome::OutOfDate);
    assert_eq!(api.submit_frame(0, 0), SubmitOutcome::Signalled);
    assert_eq!(api.supports_depth_format(DepthFormat::D32Sfloat), Some(true));
    assert!(api.draw_indexed(BufferId(0), BufferId(0), 0));
}

const PNG_2X2: [u8; 76] = [
    137, 80, 78, 71, 13, 10, 26, 10, 0, 0, 0, 13, 73, 72, 68, 82, 0, 0, 0, 2, 0, 0, 0, 2, 8, 6, 0,
    0, 0, 114, 182, 13, 36, 0, 0, 0, 19, 73, 68, 65, 84, 120, 218, 99, 248, 207, 192, 240, 31, 12,
    129, 52, 8, 52, 0, 0, 73, 73, 9, 120, 156, 81, 23, 146, 0, 0, 0, 0, 73, 69, 78, 68, 174, 66,
    96, 130,
];

#[test]
fn encoded_image_is_decoded_and_uploaded() {
    let mut api = Gpu::new(RecordingApi::new(3));
    let mut resources = VulkanResources::new();
    assert_eq!(
        resources.create_texture_image(&mut api, &PNG_2X2.to_vec(), &Sampler::standard()),
        Ok(0)
    );
    let texture = resources.get_texture(0).unwrap();
    assert_eq!(texture.extent, Extent { width: 2, height: 2 });
    assert_eq!(texture.mip_levels, 2);
    assert_eq!(
        api.api().recorded()[1],
        RecordedCall::CreatePixelStagingBuffer {
            bytes: vec![255, 0, 0, 255, 0, 255, 0, 255, 0, 0, 255, 255, 255, 255, 255, 128],
            id: Some(BufferId(0)),
        }
    );
    assert_eq!(api.api().recorded().len(), 7);
}

#[test]
fn data_that_is_no_image_is_refused() {
    let mut api = Gpu::new(RecordingApi::new(3));
    let mut resources = VulkanResources::new();
    for data in [Vec::new(), vec![1u8, 2, 3, 4], PNG_2X2[..40].to_vec()] {
        assert_eq!(
            resources.create_texture_image(&mut api, &data, &Sampler::standard()),
            Err(UploadError::Decode)
        );
    }
    assert!(api.api().recorded().is_empty());
    assert_eq!(resources.get_texture(0), None);
}

#[test]
fn encoded_image_is_uploaded_through_the_renderer() {
    let mut renderer = VulkanRenderer::new(RecordingApi::new(3));
    assert_eq!(renderer.upload_texture_image(&PNG_2X2.to_vec(), &Sampler::standard()), Ok(0));
    assert_eq!(
        renderer.upload_texture_image(&vec![0u8; 8], &Sampler::standard()),
        Err(UploadError::Decode)
    );
    assert_eq!(renderer.resources().get_texture(0).unwrap().extent, Extent { width: 2, height: 2 });
}

#[test]
fn frame_writes_the_matrices_in_order() {
    let block = UniformBufferObject { model: [1; 16], view: [2; 16], proj: [3; 16] };
    let words = block.words();
    assert_eq!(words[..16], [1; 16]);
    assert_eq!(words[16..32], [2; 16]);
    assert_eq!(words[32..], [3; 16]);
    let mut counted = UniformBufferObject { model: [0; 16], view: [0; 16], proj: [0; 16] };
    for i in 0..16 {
        counted.model[i] = i as u32;
        counted.view[i] = 16 + i as u32;
        counted.proj[i] = 32 + i as u32;
    }
    assert_eq!(counted.words().to_vec(), (0..48).collect::<Vec<u32>>());
}

#[test]
fn draw_of_a_mesh_that_was_not_uploaded_asks_nothing_of_the_device() {
    let mut renderer = running(3);
    let (vertices, indices) = triangle();
    assert_eq!(renderer.upload_mesh(&vertices, &indices), Ok(0));
    let before = calls(&renderer);
    assert!(!renderer.draw_mesh(1));
    assert!(!renderer.draw_mesh(7));
    assert_eq!(calls(&renderer), before);
    assert!(renderer.draw_mesh(0));
    let mesh = *renderer.resources().get_mesh(0).unwrap();
    assert_eq!(
        calls(&renderer).last(),
        Some(&RecordedCall::DrawIndexed {
            vertex_buffer: mesh.vertex_buffer,
            index_buffer: mesh.index_buffer,
            index_count: 3,
            ok: true
        })
    );
}

#[test]
fn pipeline_is_built_for_the_format_of_the_depth_target() {
    let mut api = RecordingApi::new(3);
    api.set_depth_formats(vec![DepthFormat::D24UnormS8Uint]);
    let mut renderer = VulkanRenderer::new(api);
    assert_eq!(renderer.initialize_render_context(&support(), SIZE), Ok(()));
    let recorded = calls(&renderer);
    assert!(recorded.contains(&RecordedCall::CreateDepthImage {
        format: DepthFormat::D24UnormS8Uint,
        extent: SIZE,
        id: Some(ImageId(0))
    }));
    let description = recorded
        .iter()
        .find_map(|call| match call {
            RecordedCall::CreatePipeline { description, .. } => Some(description.clone()),
            _ => None,
        })
        .unwrap();
    assert_eq!(
        description,
        PipelineDescription::forward(
            ColorFormat::Rgba8Srgb,
            Some(DepthFormat::D24UnormS8Uint),
            false
        )
    );
    assert_eq!(description.depth.unwrap().format, DepthFormat::D24UnormS8Uint);
}
