use elements::extent::Extent;
use elements::frame::{
    AcquireOutcome, FrameError, FrameReport, FrameResult, FrameScheduler, GpuOp, RenderBackend,
    SubmitOutcome, WindowState,
};
use elements::recording::RecordingBackend;
use elements::ubo::UniformBufferObject;
use elements::upload::{MeshCounts, UploadError};
use elements::vertex::{ElmVec2, ElmVec3, ElmVertex};

const UNIFORMS: UniformBufferObject =
    UniformBufferObject { model: [0; 16], view: [0; 16], proj: [0; 16] };

fn shown(width: u32, height: u32) -> WindowState {
    WindowState { minimized: Some(false), extent: Extent { width, height } }
}

fn vertex(x: u32, y: u32) -> ElmVertex {
    ElmVertex {
        position: ElmVec3 { x, y, z: 0 },
        color: ElmVec3 { x: 0x3f80_0000, y: 0x3f80_0000, z: 0x3f80_0000 },
        tex_coord: ElmVec2 { x: 0, y: 0 },
    }
}

fn triangle() -> (Vec<ElmVertex>, Vec<u32>) {
    (vec![vertex(0, 0), vertex(1, 0), vertex(0, 1)], vec![0, 1, 2])
}

fn renderer(slots: usize, images: u32) -> (FrameScheduler, RecordingBackend) {
    let scheduler = FrameScheduler::new(slots, Extent { width: 800, height: 600 }).unwrap();
    (scheduler, RecordingBackend::new(slots, images))
}

fn submissions(backend: &RecordingBackend) -> Vec<(usize, u32, SubmitOutcome)> {
    let mut found = Vec::new();
    for op in backend.ops() {
        if let GpuOp::Submit { slot, image_index, outcome } = op {
            found.push((*slot, *image_index, *outcome));
        }
    }
    found
}

#[test]
fn five_updates_submit_five_frames_and_cycle_the_slots() {
    let (mut scheduler, mut backend) = renderer(2, 3);
    let (vertices, indices) = triangle();
    assert_eq!(backend.upload_mesh(&vertices, &indices), Ok(0));
    let window = shown(800, 600);
    let mut slots_used = Vec::new();
    for _ in 0..5 {
        slots_used.push(scheduler.current_frame());
        let report = scheduler.draw_frame(&mut backend, window, &UNIFORMS);
        assert_eq!(report.result(), FrameResult::Presented);
        assert_eq!(report.recreate, None);
        assert_eq!(report.draws, 1);
    }
    assert_eq!(slots_used, vec![0, 1, 0, 1, 0]);
    assert_eq!(scheduler.current_frame(), 1);
    assert!(!scheduler.needs_recreate());
    assert_eq!(
        submissions(&backend),
        vec![
            (0, 0, SubmitOutcome::Signalled),
            (1, 1, SubmitOutcome::Signalled),
            (0, 2, SubmitOutcome::Signalled),
            (1, 0, SubmitOutcome::Signalled),
            (0, 1, SubmitOutcome::Signalled),
        ]
    );
    assert!(!backend.ops().iter().any(|op| matches!(op, GpuOp::RecreateChain { .. })));
}

#[test]
fn one_frame_asks_the_backend_in_order() {
    let (mut scheduler, mut backend) = renderer(2, 3);
    let (vertices, indices) = triangle();
    backend.upload_mesh(&vertices, &indices).unwrap();
    backend.upload_mesh(&vertices, &vec![0, 1, 2, 2, 1, 0]).unwrap();
    scheduler.draw_frame(&mut backend, shown(800, 600), &UNIFORMS);
    let counts = MeshCounts { vertex_count: 3, index_count: 3 };
    let quad = MeshCounts { vertex_count: 3, index_count: 6 };
    assert_eq!(
        backend.ops(),
        &vec![
            GpuOp::UploadMesh { counts, ok: true },
            GpuOp::UploadMesh { counts: quad, ok: true },
            GpuOp::AcquireImage { outcome: AcquireOutcome::Image { index: 0, suboptimal: false } },
            GpuOp::WaitForSlot { slot: 0, ok: true },
            GpuOp::WriteUniforms { slot: 0, uniforms: UNIFORMS, ok: true },
            GpuOp::BeginRecording { slot: 0, image_index: 0, ok: true },
            GpuOp::DrawMesh { mesh: 0, index_count: 3, ok: true },
            GpuOp::DrawMesh { mesh: 1, index_count: 6, ok: true },
            GpuOp::Submit { slot: 0, image_index: 0, outcome: SubmitOutcome::Signalled },
        ]
    );
}

#[test]
fn window_without_area_skips_the_frame() {
    let (mut scheduler, mut backend) = renderer(2, 3);
    let report = scheduler.draw_frame(&mut backend, shown(0, 0), &UNIFORMS);
    assert_eq!(report, FrameReport::idle());
    assert_eq!(report.result(), FrameResult::Skipped);
    assert!(backend.ops().is_empty());
    assert_eq!(scheduler.current_frame(), 0);
    assert!(!scheduler.needs_recreate());
    assert_eq!(scheduler.extent(), Extent { width: 800, height: 600 });
}

#[test]
fn window_with_one_empty_side_skips_the_frame() {
    let (mut scheduler, mut backend) = renderer(2, 3);
    assert_eq!(
        scheduler.draw_frame(&mut backend, shown(800, 0), &UNIFORMS).result(),
        FrameResult::Skipped
    );
    assert_eq!(
        scheduler.draw_frame(&mut backend, shown(0, 600), &UNIFORMS).result(),
        FrameResult::Skipped
    );
    assert!(backend.ops().is_empty());
}

#[test]
fn minimized_window_skips_the_frame() {
    let (mut scheduler, mut backend) = renderer(2, 3);
    let minimized =
        WindowState { minimized: Some(true), extent: Extent { width: 800, height: 600 } };
    let report = scheduler.draw_frame(&mut backend, minimized, &UNIFORMS);
    assert_eq!(report.result(), FrameResult::Skipped);
    assert!(backend.ops().is_empty());
    assert!(!minimized.is_drawable());
}

#[test]
fn window_of_unknown_state_skips_the_frame() {
    let (mut scheduler, mut backend) = renderer(2, 3);
    let unknown = WindowState { minimized: None, extent: Extent { width: 800, height: 600 } };
    let report = scheduler.draw_frame(&mut backend, unknown, &UNIFORMS);
    assert_eq!(report.result(), FrameResult::Skipped);
    assert!(backend.ops().is_empty());
}

#[test]
fn skipped_frame_keeps_a_pending_rebuild() {
    let (mut scheduler, mut backend) = renderer(2, 3);
    scheduler.request_recreate();
    scheduler.draw_frame(&mut backend, shown(0, 0), &UNIFORMS);
    assert!(scheduler.needs_recreate());
    assert!(backend.ops().is_empty());
}

#[test]
fn suboptimal_acquisition_keeps_the_frame_and_rebuilds_before_the_next() {
    let (mut scheduler, mut backend) = renderer(2, 3);
    backend.script_acquire(AcquireOutcome::Image { index: 2, suboptimal: true });
    let first = scheduler.draw_frame(&mut backend, shown(800, 600), &UNIFORMS);
    assert_eq!(first.result(), FrameResult::Presented);
    assert_eq!(first.recreate, None);
    assert_eq!(first.submit, Some(SubmitOutcome::Signalled));
    assert!(scheduler.needs_recreate());
    assert_eq!(scheduler.current_frame(), 1);

    let second = scheduler.draw_frame(&mut backend, shown(1024, 768), &UNIFORMS);
    assert_eq!(second.recreate, Some(true));
    assert_eq!(second.result(), FrameResult::Presented);
    assert!(!scheduler.needs_recreate());
    assert_eq!(scheduler.extent(), Extent { width: 1024, height: 768 });
    assert_eq!(
        backend.ops()[5],
        GpuOp::RecreateChain { extent: Extent { width: 1024, height: 768 }, ok: true }
    );
    assert_eq!(
        backend.ops()[4],
        GpuOp::Submit { slot: 0, image_index: 2, outcome: SubmitOutcome::Signalled }
    );
}

#[test]
fn stale_acquisition_skips_the_frame_and_rebuilds_before_the_next() {
    let (mut scheduler, mut backend) = renderer(2, 3);
    backend.script_acquire(AcquireOutcome::OutOfDate);
    let first = scheduler.draw_frame(&mut backend, shown(800, 600), &UNIFORMS);
    assert_eq!(first.result(), FrameResult::ChainOutOfDate);
    assert_eq!(first.wait, None);
    assert_eq!(first.submit, None);
    assert!(scheduler.needs_recreate());
    assert_eq!(scheduler.current_frame(), 0);
    assert_eq!(backend.ops().len(), 1);

    let second = scheduler.draw_frame(&mut backend, shown(640, 480), &UNIFORMS);
    assert_eq!(second.recreate, Some(true));
    assert_eq!(second.result(), FrameResult::Presented);
    assert_eq!(scheduler.current_frame(), 1);
    assert_eq!(scheduler.extent(), Extent { width: 640, height: 480 });
}

#[test]
fn stale_submission_is_not_an_error_and_advances_the_slot() {
    let (mut scheduler, mut backend) = renderer(2, 3);
    backend.script_submit(SubmitOutcome::OutOfDate);
    let report = scheduler.draw_frame(&mut backend, shown(800, 600), &UNIFORMS);
    assert_eq!(report.result(), FrameResult::PresentedOutOfDate);
    assert!(scheduler.needs_recreate());
    assert_eq!(scheduler.current_frame(), 1);
}

#[test]
fn rebuilt_chain_that_is_suboptimal_is_rebuilt_again() {
    let (mut scheduler, mut backend) = renderer(2, 3);
    scheduler.request_recreate();
    backend.script_acquire(AcquireOutcome::Image { index: 0, suboptimal: true });
    let report = scheduler.draw_frame(&mut backend, shown(800, 600), &UNIFORMS);
    assert_eq!(report.recreate, Some(true));
    assert_eq!(report.result(), FrameResult::Presented);
    assert!(scheduler.needs_recreate());
}

#[test]
fn failed_rebuild_abandons_the_frame_and_stays_pending() {
    let (mut scheduler, mut backend) = renderer(2, 3);
    scheduler.request_recreate();
    backend.fail_at(Some(FrameError::Recreate));
    let report = scheduler.draw_frame(&mut backend, shown(1024, 768), &UNIFORMS);
    assert_eq!(report.result(), FrameResult::Failed(FrameError::Recreate));
    assert_eq!(report.acquire, None);
    assert!(scheduler.needs_recreate());
    assert_eq!(scheduler.extent(), Extent { width: 800, height: 600 });
    assert_eq!(scheduler.current_frame(), 0);
}

#[test]
fn failed_acquisition_abandons_the_frame() {
    let (mut scheduler, mut backend) = renderer(2, 3);
    backend.fail_at(Some(FrameError::Acquire));
    let report = scheduler.draw_frame(&mut backend, shown(800, 600), &UNIFORMS);
    assert_eq!(report.result(), FrameResult::Failed(FrameError::Acquire));
    assert!(!scheduler.needs_recreate());
    assert_eq!(scheduler.current_frame(), 0);
    assert_eq!(backend.ops(), &vec![GpuOp::AcquireImage { outcome: AcquireOutcome::Failed }]);
}

#[test]
fn empty_image_ring_fails_acquisition() {
    let (mut scheduler, mut backend) = renderer(2, 0);
    let report = scheduler.draw_frame(&mut backend, shown(800, 600), &UNIFORMS);
    assert_eq!(report.result(), FrameResult::Failed(FrameError::Acquire));
}

#[test]
fn failed_wait_abandons_the_frame_before_the_slot_is_written() {
    let (mut scheduler, mut backend) = renderer(2, 3);
    backend.fail_at(Some(FrameError::Wait));
    let report = scheduler.draw_frame(&mut backend, shown(800, 600), &UNIFORMS);
    assert_eq!(report.result(), FrameResult::Failed(FrameError::Wait));
    assert_eq!(report.uniforms, None);
    assert_eq!(scheduler.current_frame(), 0);
    assert_eq!(backend.ops().len(), 2);
}

#[test]
fn failed_uniform_write_abandons_the_frame() {
    let (mut scheduler, mut backend) = renderer(2, 3);
    backend.fail_at(Some(FrameError::Uniforms));
    let report = scheduler.draw_frame(&mut backend, shown(800, 600), &UNIFORMS);
    assert_eq!(report.result(), FrameResult::Failed(FrameError::Uniforms));
    assert_eq!(report.recording, None);
    assert_eq!(scheduler.current_frame(), 0);
}

#[test]
fn failed_recording_keeps_the_slot() {
    let (mut scheduler, mut backend) = renderer(2, 3);
    backend.fail_at(Some(FrameError::Recording));
    let report = scheduler.draw_frame(&mut backend, shown(800, 600), &UNIFORMS);
    assert_eq!(report.result(), FrameResult::Failed(FrameError::Recording));
    assert_eq!(report.recording, Some(false));
    assert_eq!(scheduler.current_frame(), 0);
}

#[test]
fn failed_draw_ends_the_frame_without_submission_and_advances_the_slot() {
    let (mut scheduler, mut backend) = renderer(2, 3);
    let (vertices, indices) = triangle();
    backend.upload_mesh(&vertices, &indices).unwrap();
    backend.upload_mesh(&vertices, &indices).unwrap();
    backend.fail_at(Some(FrameError::Draw));
    let report = scheduler.draw_frame(&mut backend, shown(800, 600), &UNIFORMS);
    assert_eq!(report.result(), FrameResult::Failed(FrameError::Draw));
    assert_eq!(report.draws, 0);
    assert!(report.draw_failed);
    assert_eq!(report.submit, None);
    assert_eq!(scheduler.current_frame(), 1);
    assert_eq!(
        backend.ops().last(),
        Some(&GpuOp::DrawMesh { mesh: 0, index_count: 3, ok: false })
    );
}

#[test]
fn failed_submission_advances_the_slot() {
    let (mut scheduler, mut backend) = renderer(2, 3);
    backend.fail_at(Some(FrameError::Submit));
    let report = scheduler.draw_frame(&mut backend, shown(800, 600), &UNIFORMS);
    assert_eq!(report.result(), FrameResult::Failed(FrameError::Submit));
    assert_eq!(scheduler.current_frame(), 1);
    assert!(!scheduler.needs_recreate());
}

#[test]
fn frame_without_meshes_is_submitted() {
    let (mut scheduler, mut backend) = renderer(2, 3);
    let report = scheduler.draw_frame(&mut backend, shown(800, 600), &UNIFORMS);
    assert_eq!(report.draws, 0);
    assert_eq!(report.result(), FrameResult::Presented);
}

#[test]
fn slots_cycle_without_gaps_when_frames_are_skipped() {
    let (mut scheduler, mut backend) = renderer(3, 4);
    let mut used = Vec::new();
    for frame in 0..12 {
        let window = if frame % 3 == 1 { shown(0, 0) } else { shown(800, 600) };
        let slot = scheduler.current_frame();
        let report = scheduler.draw_frame(&mut backend, window, &UNIFORMS);
        if report.recording == Some(true) {
            used.push(slot);
        }
    }
    assert_eq!(used, vec![0, 1, 2, 0, 1, 2, 0, 1]);
}

#[test]
fn single_slot_is_reused_every_frame() {
    let (mut scheduler, mut backend) = renderer(1, 2);
    for _ in 0..3 {
        assert_eq!(scheduler.current_frame(), 0);
        let report = scheduler.draw_frame(&mut backend, shown(800, 600), &UNIFORMS);
        assert_eq!(report.result(), FrameResult::Presented);
    }
    assert_eq!(scheduler.current_frame(), 0);
}

#[test]
fn scheduler_needs_a_slot() {
    assert!(FrameScheduler::new(0, Extent { width: 1, height: 1 }).is_none());
    let scheduler = FrameScheduler::new(2, Extent { width: 800, height: 600 }).unwrap();
    assert_eq!(scheduler.slots(), 2);
    assert_eq!(scheduler.current_frame(), 0);
    assert!(!scheduler.needs_recreate());
}

#[test]
fn frame_extent_follows_a_pending_rebuild() {
    let mut scheduler = FrameScheduler::new(2, Extent { width: 800, height: 600 }).unwrap();
    assert_eq!(scheduler.frame_extent(shown(1024, 768)), Extent { width: 800, height: 600 });
    scheduler.request_recreate();
    assert_eq!(scheduler.frame_extent(shown(1024, 768)), Extent { width: 1024, height: 768 });
    assert_eq!(scheduler.frame_extent(shown(0, 0)), Extent { width: 800, height: 600 });
}

#[test]
fn uploaded_mesh_is_found_with_its_counts() {
    let mut backend = RecordingBackend::new(2, 3);
    let vertices: Vec<ElmVertex> = (0..7).map(|i| vertex(i, i)).collect();
    let indices: Vec<u32> = vec![0, 1, 2, 2, 3, 4, 4, 5, 6];
    let id = backend.upload_mesh(&vertices, &indices).unwrap();
    assert_eq!(id, 0);
    assert_eq!(backend.mesh(id), Some(MeshCounts { vertex_count: 7, index_count: 9 }));
    assert_eq!(backend.mesh_count(), 1);
    assert_eq!(backend.mesh(1), None);
    let (vertices, indices) = triangle();
    assert_eq!(backend.upload_mesh(&vertices, &indices), Ok(1));
    assert_eq!(backend.mesh(1), Some(MeshCounts { vertex_count: 3, index_count: 3 }));
    assert_eq!(backend.mesh(0), Some(MeshCounts { vertex_count: 7, index_count: 9 }));
}

#[test]
fn empty_mesh_is_refused_without_asking_the_device() {
    let mut backend = RecordingBackend::new(2, 3);
    let (vertices, indices) = triangle();
    assert_eq!(backend.upload_mesh(&Vec::new(), &indices), Err(UploadError::EmptyMesh));
    assert_eq!(backend.upload_mesh(&vertices, &Vec::new()), Err(UploadError::EmptyMesh));
    assert!(backend.ops().is_empty());
    assert_eq!(backend.mesh_count(), 0);
}

#[test]
fn failed_upload_registers_nothing() {
    let mut backend = RecordingBackend::new(2, 3);
    let (vertices, indices) = triangle();
    backend.fail_uploads(true);
    assert_eq!(backend.upload_mesh(&vertices, &indices), Err(UploadError::Device));
    assert_eq!(backend.mesh_count(), 0);
    assert_eq!(
        backend.ops(),
        &vec![GpuOp::UploadMesh {
            counts: MeshCounts { vertex_count: 3, index_count: 3 },
            ok: false
        }]
    );
    backend.fail_uploads(false);
    assert_eq!(backend.upload_mesh(&vertices, &indices), Ok(0));
}

#[test]
fn scripted_outcomes_are_used_in_order_before_the_ring() {
    let mut backend = RecordingBackend::new(2, 2);
    backend.script_acquire(AcquireOutcome::OutOfDate);
    backend.script_acquire(AcquireOutcome::Image { index: 7, suboptimal: true });
    assert_eq!(backend.acquire_image(), AcquireOutcome::OutOfDate);
    assert_eq!(backend.acquire_image(), AcquireOutcome::Image { index: 7, suboptimal: true });
    assert_eq!(backend.acquire_image(), AcquireOutcome::Image { index: 0, suboptimal: false });
    assert_eq!(backend.acquire_image(), AcquireOutcome::Image { index: 1, suboptimal: false });
    assert_eq!(backend.acquire_image(), AcquireOutcome::Image { index: 0, suboptimal: false });
    backend.script_submit(SubmitOutcome::Failed);
    assert_eq!(backend.submit(0, 0), SubmitOutcome::Failed);
    assert_eq!(backend.submit(1, 1), SubmitOutcome::Signalled);
    assert!(!backend.is_pending(0));
    assert!(backend.is_pending(1));
    assert!(!backend.is_pending(2));
    assert_eq!(backend.slots(), 2);
}

#[test]
fn signalled_slot_is_pending_until_it_is_waited_for() {
    let (mut scheduler, mut backend) = renderer(2, 3);
    scheduler.draw_frame(&mut backend, shown(800, 600), &UNIFORMS);
    assert!(backend.is_pending(0));
    assert!(!backend.is_pending(1));
    scheduler.draw_frame(&mut backend, shown(800, 600), &UNIFORMS);
    assert!(backend.is_pending(1));
    backend.script_submit(SubmitOutcome::OutOfDate);
    scheduler.draw_frame(&mut backend, shown(800, 600), &UNIFORMS);
    assert!(!backend.is_pending(0));
    assert!(backend.is_pending(1));
}

#[test]
fn busy_acquisition_skips_the_frame_without_rebuild() {
    let (mut scheduler, mut backend) = renderer(2, 3);
    backend.script_acquire(AcquireOutcome::Busy);
    let report = scheduler.draw_frame(&mut backend, shown(800, 600), &UNIFORMS);
    assert_eq!(report.result(), FrameResult::Busy);
    assert_eq!(report.wait, None);
    assert!(!scheduler.needs_recreate());
    assert_eq!(scheduler.current_frame(), 0);
    assert_eq!(backend.ops(), &vec![GpuOp::AcquireImage { outcome: AcquireOutcome::Busy }]);
    let next = scheduler.draw_frame(&mut backend, shown(800, 600), &UNIFORMS);
    assert_eq!(next.result(), FrameResult::Presented);
    assert_eq!(next.recreate, None);
}

#[test]
fn mesh_that_was_not_uploaded_is_not_drawn() {
    let (_, mut backend) = renderer(2, 3);
    let (vertices, indices) = triangle();
    assert_eq!(backend.upload_mesh(&vertices, &indices), Ok(0));
    let before = backend.ops().clone();
    assert!(!backend.draw_mesh(1));
    assert!(!backend.draw_mesh(usize::MAX));
    assert_eq!(backend.ops(), &before);
    assert!(backend.draw_mesh(0));
    assert_eq!(
        backend.ops().last(),
        Some(&GpuOp::DrawMesh { mesh: 0, index_count: 3, ok: true })
    );
}
