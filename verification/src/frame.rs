//! The per-frame state machine of a renderer with several frames in flight.
//!
//! A frame goes through acquisition, recording and submission. The scheduler
//! decides which of these steps run, asks a [`RenderBackend`] to perform each
//! of them and keeps the bookkeeping that outlives a frame: which frame slot
//! is current, and whether the presentation chain has to be rebuilt.

use crate::extent::Extent;
use crate::ubo::UniformBufferObject;
use crate::upload::{mesh_plan, MeshCounts, UploadError};
use crate::vertex::ElmVertex;
use vstd::prelude::*;

verus! {

/// Number of frames that may be in flight at once.
pub const MAX_FRAMES_IN_FLIGHT: usize = 2;

/// What the windowing layer knows of the window when a frame starts.
#[derive(Clone, Copy, Debug, PartialEq, Eq, Structural)]
pub struct WindowState {
    /// Whether the window is minimized; `None` where the platform cannot tell.
    pub minimized: Option<bool>,
    /// Current drawable size.
    pub extent: Extent,
}

impl WindowState {
    /// A window can be drawn to when it is known not to be minimized and has
    /// an area.
    pub open spec fn drawable(self) -> bool {
        self.minimized == Some(false) && !self.extent.spec_is_empty()
    }

    /// Whether a frame can be drawn to this window.
    pub fn is_drawable(&self) -> (r: bool)
        ensures
            r == self.drawable(),
    {
        let shown = match self.minimized {
            Some(minimized) => !minimized,
            None => false,
        };
        shown && !self.extent.is_empty()
    }
}

/// How the acquisition of the next presentable image ended.
#[derive(Clone, Copy, Debug, PartialEq, Eq, Structural)]
pub enum AcquireOutcome {
    /// An image is ready to be rendered into. `suboptimal` tells that the
    /// chain still works but no longer matches the surface exactly.
    Image { index: u32, suboptimal: bool },
    /// No image became available in time; the next frame tries again.
    Busy,
    /// The chain no longer matches the surface and must be rebuilt.
    OutOfDate,
    /// Any other failure.
    Failed,
}

/// How the submission of a recorded frame ended.
#[derive(Clone, Copy, Debug, PartialEq, Eq, Structural)]
pub enum SubmitOutcome {
    /// Execution and presentation were queued and a completion signal is
    /// pending for the slot.
    Signalled,
    /// The chain was found out of date; no signal is pending.
    OutOfDate,
    /// Any other failure.
    Failed,
}

/// One operation asked of a backend, with the way it ended.
#[derive(Clone, Copy, Debug, PartialEq, Eq)]
#[allow(inconsistent_fields)]
pub enum GpuOp {
    /// Rebuild the presentation chain, its render targets and the viewport.
    RecreateChain { extent: Extent, ok: bool },
    /// Acquire the next presentable image.
    AcquireImage { outcome: AcquireOutcome },
    /// Wait for the completion signal of a frame slot, if one is pending, and
    /// clear it.
    WaitForSlot { slot: usize, ok: bool },
    /// Rewrite the uniform block of a frame slot.
    WriteUniforms { slot: usize, uniforms: UniformBufferObject, ok: bool },
    /// Begin the command buffer of a frame: clear the image, bind pipeline,
    /// viewport and the slot's descriptor set.
    BeginRecording { slot: usize, image_index: u32, ok: bool },
    /// Bind a mesh and draw `index_count` indices of it.
    DrawMesh { mesh: usize, index_count: u32, ok: bool },
    /// Submit the recorded commands, present the image and signal the slot.
    Submit { slot: usize, image_index: u32, outcome: SubmitOutcome },
    /// Copy a mesh to device memory and wait until the copy is done.
    UploadMesh { counts: MeshCounts, ok: bool },
}

/// What a renderer needs from a graphics backend.
///
/// Every operation is appended to `trace` together with its outcome, so that
/// the order in which a frame uses the backend can be stated and checked,
/// and `performs` says what an operation does to the backend, so that what
/// a frame does to it follows from the operations of the frame. The uniform
/// block of a frame slot is written, and commands that read it are
/// recorded, only while no completion signal is pending for the slot.
pub trait RenderBackend: Sized {
    /// Every operation performed so far, oldest first.
    spec fn trace(&self) -> Seq<GpuOp>;

    /// Number of frame slots the backend holds resources for.
    spec fn slot_count(&self) -> nat;

    /// The uploaded meshes, by mesh id.
    spec fn meshes(&self) -> Seq<MeshCounts>;

    /// Whether the GPU may still be working on the frame that last used
    /// `slot`: its completion signal is pending.
    spec fn pending(&self, slot: int) -> bool;

    /// Whether a backend in this state can be `after` once it has performed
    /// `op`: what the operation does to everything the backend holds.
    spec fn performs(&self, op: GpuOp, after: &Self) -> bool;

    /// Number of uploaded meshes.
    fn mesh_count(&self) -> (count: usize)
        ensures
            count == self.meshes().len(),
    ;

    /// Counts of mesh `id`, where it exists.
    fn mesh(&self, id: usize) -> (counts: Option<MeshCounts>)
        ensures
            counts == if id < self.meshes().len() {
                Some(self.meshes()[id as int])
            } else {
                None
            },
    ;

    /// Copies a mesh to device memory and registers it under the next id.
    ///
    /// A mesh that `mesh_plan` refuses is refused with the same error and the
    /// device is not asked. Otherwise the device is asked once; where it
    /// fails, the error is `Device` and no mesh is registered.
    fn upload_mesh(&mut self, vertices: &Vec<ElmVertex>, indices: &Vec<u32>) -> (r: Result<
        usize,
        UploadError,
    >)
        ensures
            final(self).slot_count() == old(self).slot_count(),
            forall|slot: int| final(self).pending(slot) == old(self).pending(slot),
            match mesh_plan(vertices.len() as int, indices.len() as int) {
                Err(refusal) => {
                    &&& r == Err::<usize, UploadError>(refusal)
                    &&& final(self).meshes() == old(self).meshes()
                    &&& final(self).trace() == old(self).trace()
                },
                Ok(counts) => {
                    &&& final(self).trace() == old(self).trace().push(
                        GpuOp::UploadMesh { counts, ok: r is Ok },
                    )
                    &&& old(self).performs(GpuOp::UploadMesh { counts, ok: r is Ok }, final(self))
                    &&& match r {
                        Ok(id) => {
                            &&& id == old(self).meshes().len()
                            &&& final(self).meshes() == old(self).meshes().push(counts)
                        },
                        Err(e) => {
                            &&& e == UploadError::Device
                            &&& final(self).meshes() == old(self).meshes()
                        },
                    }
                },
            },
    ;

    /// Rebuilds the presentation chain at `extent`, with the render targets
    /// and the viewport that depend on it.
    fn recreate_chain(&mut self, extent: Extent) -> (ok: bool)
        ensures
            final(self).trace() == old(self).trace().push(GpuOp::RecreateChain { extent, ok }),
            old(self).performs(GpuOp::RecreateChain { extent, ok }, final(self)),
            final(self).slot_count() == old(self).slot_count(),
            final(self).meshes() == old(self).meshes(),
            forall|slot: int| final(self).pending(slot) == old(self).pending(slot),
    ;

    /// Acquires the next presentable image.
    fn acquire_image(&mut self) -> (outcome: AcquireOutcome)
        ensures
            final(self).trace() == old(self).trace().push(GpuOp::AcquireImage { outcome }),
            old(self).performs(GpuOp::AcquireImage { outcome }, final(self)),
            final(self).slot_count() == old(self).slot_count(),
            final(self).meshes() == old(self).meshes(),
            forall|slot: int| final(self).pending(slot) == old(self).pending(slot),
    ;

    /// Waits until the GPU is done with the frame that last used `slot` and
    /// clears the slot's completion signal.
    fn wait_for_slot(&mut self, slot: usize) -> (ok: bool)
        requires
            slot < old(self).slot_count(),
        ensures
            final(self).trace() == old(self).trace().push(GpuOp::WaitForSlot { slot, ok }),
            old(self).performs(GpuOp::WaitForSlot { slot, ok }, final(self)),
            final(self).slot_count() == old(self).slot_count(),
            final(self).meshes() == old(self).meshes(),
            final(self).pending(slot as int) == (old(self).pending(slot as int) && !ok),
            forall|other: int| other != slot ==> final(self).pending(other) == old(self).pending(other),
    ;

    /// Rewrites the uniform block of `slot`.
    fn write_uniforms(&mut self, slot: usize, uniforms: &UniformBufferObject) -> (ok: bool)
        requires
            slot < old(self).slot_count(),
            !old(self).pending(slot as int),
        ensures
            final(self).trace() == old(self).trace().push(
                GpuOp::WriteUniforms { slot, uniforms: *uniforms, ok },
            ),
            old(self).performs(GpuOp::WriteUniforms { slot, uniforms: *uniforms, ok }, final(self)),
            final(self).slot_count() == old(self).slot_count(),
            final(self).meshes() == old(self).meshes(),
            forall|slot: int| final(self).pending(slot) == old(self).pending(slot),
    ;

    /// Begins recording the frame that renders into image `image_index`.
    fn begin_recording(&mut self, slot: usize, image_index: u32) -> (ok: bool)
        requires
            slot < old(self).slot_count(),
            !old(self).pending(slot as int),
        ensures
            final(self).trace() == old(self).trace().push(
                GpuOp::BeginRecording { slot, image_index, ok },
            ),
            old(self).performs(GpuOp::BeginRecording { slot, image_index, ok }, final(self)),
            final(self).slot_count() == old(self).slot_count(),
            final(self).meshes() == old(self).meshes(),
            forall|slot: int| final(self).pending(slot) == old(self).pending(slot),
    ;

    /// Records an indexed draw of the full index range of mesh `mesh`.
    ///
    /// A mesh that was not uploaded is not drawn: the draw fails, and
    /// nothing is recorded and nothing asked of the device.
    fn draw_mesh(&mut self, mesh: usize) -> (ok: bool)
        ensures
            if mesh < old(self).meshes().len() {
                &&& final(self).trace() == old(self).trace().push(
                    GpuOp::DrawMesh {
                        mesh,
                        index_count: old(self).meshes()[mesh as int].index_count,
                        ok,
                    },
                )
                &&& old(self).performs(
                    GpuOp::DrawMesh {
                        mesh,
                        index_count: old(self).meshes()[mesh as int].index_count,
                        ok,
                    },
                    final(self),
                )
            } else {
                !ok && *final(self) == *old(self)
            },
            final(self).slot_count() == old(self).slot_count(),
            final(self).meshes() == old(self).meshes(),
            forall|slot: int| final(self).pending(slot) == old(self).pending(slot),
    ;

    /// Ends the recording, submits it after the acquisition, presents the
    /// image and keeps the completion signal for `slot`, which is pending
    /// from then on where the submission was signalled.
    fn submit(&mut self, slot: usize, image_index: u32) -> (outcome: SubmitOutcome)
        requires
            slot < old(self).slot_count(),
            !old(self).pending(slot as int),
        ensures
            final(self).trace() == old(self).trace().push(
                GpuOp::Submit { slot, image_index, outcome },
            ),
            old(self).performs(GpuOp::Submit { slot, image_index, outcome }, final(self)),
            final(self).slot_count() == old(self).slot_count(),
            final(self).meshes() == old(self).meshes(),
            final(self).pending(slot as int) == (outcome == SubmitOutcome::Signalled),
            forall|other: int| other != slot ==> final(self).pending(other) == old(self).pending(other),
    ;
}

/// Two states of a backend have the same frame slots and meshes.
pub open spec fn same_resources<B: RenderBackend>(a: &B, b: &B) -> bool {
    a.slot_count() == b.slot_count() && a.meshes() == b.meshes()
}

/// Two states of a backend have the same completion signals pending.
pub open spec fn same_pending<B: RenderBackend>(a: &B, b: &B) -> bool {
    forall|slot: int| a.pending(slot) == b.pending(slot)
}

/// The states that a backend went through while it performed `ops`: one
/// more than there are operations, each operation leading from its state to
/// the next.
pub open spec fn follows<B: RenderBackend>(states: Seq<B>, ops: Seq<GpuOp>) -> bool {
    &&& states.len() == ops.len() + 1
    &&& forall|i: int|
        #![trigger ops[i]]
        0 <= i < ops.len() ==> states[i].performs(ops[i], &states[i + 1])
}

/// Whether a backend in state `before` can be `after` once it has performed
/// `ops`, one after the other.
pub open spec fn performs_all<B: RenderBackend>(before: &B, ops: Seq<GpuOp>, after: &B) -> bool {
    exists|states: Seq<B>| #[trigger]
        follows(states, ops) && states.first() == before && states.last() == after
}

/// A backend that performed nothing is as it was.
pub proof fn lemma_performs_nothing<B: RenderBackend>(before: &B, after: &B)
    ensures
        performs_all(before, Seq::empty(), after) <==> before == after,
{
    if before == after {
        let states = seq![*before];
        assert(follows(states, Seq::<GpuOp>::empty()) && states.first() == before && states.last()
            == after);
    }
}

/// A backend performed one operation exactly where that operation leads
/// from the one state to the other.
pub proof fn lemma_performs_one<B: RenderBackend>(before: &B, op: GpuOp, after: &B)
    ensures
        performs_all(before, seq![op], after) <==> before.performs(op, after),
{
    let ops = seq![op];
    if before.performs(op, after) {
        let states = seq![*before, *after];
        assert(follows(states, ops) && states.first() == before && states.last() == after);
    }
    if performs_all(before, ops, after) {
        let states = choose|states: Seq<B>| #[trigger]
            follows(states, ops) && states.first() == before && states.last() == after;
        assert(states[0].performs(ops[0], &states[1]));
    }
}

/// A backend that performed `ops` and then `op` performed `ops` with `op`
/// after them.
pub proof fn lemma_performs_next<B: RenderBackend>(
    before: &B,
    ops: Seq<GpuOp>,
    mid: &B,
    op: GpuOp,
    after: &B,
)
    requires
        performs_all(before, ops, mid),
        mid.performs(op, after),
    ensures
        performs_all(before, ops.push(op), after),
{
    let states = choose|states: Seq<B>| #[trigger]
        follows(states, ops) && states.first() == before && states.last() == mid;
    let all = states.push(*after);
    let done = ops.push(op);
    assert forall|i: int| #![trigger done[i]] 0 <= i < done.len() implies all[i].performs(
        done[i],
        &all[i + 1],
    ) by {
        if i < ops.len() {
            assert(states[i].performs(ops[i], &states[i + 1]));
        }
    }
    assert(follows(all, done) && all.first() == before && all.last() == after);
}

/// A backend that performed `ops` and then `more` performed `ops + more`.
pub proof fn lemma_performs_both<B: RenderBackend>(
    before: &B,
    ops: Seq<GpuOp>,
    mid: &B,
    more: Seq<GpuOp>,
    after: &B,
)
    requires
        performs_all(before, ops, mid),
        performs_all(mid, more, after),
    ensures
        performs_all(before, ops + more, after),
{
    let first = choose|states: Seq<B>| #[trigger]
        follows(states, ops) && states.first() == before && states.last() == mid;
    let second = choose|states: Seq<B>| #[trigger]
        follows(states, more) && states.first() == mid && states.last() == after;
    let all = first + second.skip(1);
    let done = ops + more;
    assert forall|i: int| #![trigger done[i]] 0 <= i < done.len() implies all[i].performs(
        done[i],
        &all[i + 1],
    ) by {
        if i < ops.len() {
            assert(first[i].performs(ops[i], &first[i + 1]));
        } else {
            let k = i - ops.len();
            assert(second[k].performs(more[k], &second[k + 1]));
        }
    }
    assert(follows(all, done) && all.first() == before && all.last() == after);
}

/// A backend that performed `ops + more` performed `ops`, and `more` from
/// the state it was in then.
pub proof fn lemma_performs_split<B: RenderBackend>(
    before: &B,
    ops: Seq<GpuOp>,
    more: Seq<GpuOp>,
    after: &B,
)
    requires
        performs_all(before, ops + more, after),
    ensures
        exists|mid: B| #[trigger]
            performs_all(before, ops, &mid) && performs_all(&mid, more, after),
{
    let done = ops + more;
    let all = choose|states: Seq<B>| #[trigger]
        follows(states, done) && states.first() == before && states.last() == after;
    let first = all.take(ops.len() as int + 1);
    let second = all.skip(ops.len() as int);
    let mid = all[ops.len() as int];
    assert forall|i: int| #![trigger ops[i]] 0 <= i < ops.len() implies first[i].performs(
        ops[i],
        &first[i + 1],
    ) by {
        assert(all[i].performs(done[i], &all[i + 1]));
    }
    assert forall|i: int| #![trigger more[i]] 0 <= i < more.len() implies second[i].performs(
        more[i],
        &second[i + 1],
    ) by {
        let k = ops.len() + i;
        assert(all[k].performs(done[k], &all[k + 1]));
    }
    assert(follows(first, ops) && first.first() == before && first.last() == mid);
    assert(follows(second, more) && second.first() == mid && second.last() == after);
    assert(performs_all(before, ops, &mid) && performs_all(&mid, more, after));
}

/// What the stages of one frame reported. A stage that did not run is `None`.
#[derive(Clone, Copy, Debug, PartialEq, Eq)]
pub struct FrameReport {
    /// The chain was rebuilt before acquisition, and whether that worked.
    pub recreate: Option<bool>,
    /// How the acquisition ended.
    pub acquire: Option<AcquireOutcome>,
    /// Whether the slot's pending completion signal was waited for.
    pub wait: Option<bool>,
    /// Whether the slot's uniform block was rewritten.
    pub uniforms: Option<bool>,
    /// Whether the command buffer of the frame was begun.
    pub recording: Option<bool>,
    /// Number of meshes whose draw was recorded.
    pub draws: usize,
    /// The draw of mesh `draws` was asked for and failed.
    pub draw_failed: bool,
    /// How the submission ended.
    pub submit: Option<SubmitOutcome>,
}

/// The outcome of a frame in one word.
#[derive(Clone, Copy, Debug, PartialEq, Eq, Structural)]
pub enum FrameResult {
    /// The window was minimized or had no area; nothing was done.
    Skipped,
    /// No image became available in time; nothing was recorded.
    Busy,
    /// The chain was out of date at acquisition; nothing was recorded and the
    /// chain is rebuilt before the next frame.
    ChainOutOfDate,
    /// The frame was recorded, submitted and queued for presentation.
    Presented,
    /// The frame was recorded, but submission found the chain out of date.
    PresentedOutOfDate,
    /// A stage failed and the frame was abandoned.
    Failed(FrameError),
}

/// The stage at which a frame was abandoned.
#[derive(Clone, Copy, Debug, PartialEq, Eq, Structural)]
pub enum FrameError {
    Recreate,
    Acquire,
    Wait,
    Uniforms,
    Recording,
    Draw,
    Submit,
}

/// The bookkeeping of a scheduler as plain mathematical values.
pub struct ScheduleState {
    /// Number of frame slots.
    pub slots: int,
    /// The slot the next recorded frame uses.
    pub current_frame: int,
    /// The chain must be rebuilt before the next acquisition.
    pub needs_recreate: bool,
    /// Output resolution: the extent of chain and viewport.
    pub extent: Extent,
}

impl ScheduleState {
    /// There is at least one slot, and the current one exists.
    pub open spec fn wf(self) -> bool {
        self.slots >= 1 && 0 <= self.current_frame < self.slots
    }

    /// The extent at which a frame for `window` is rendered: the window's
    /// where the chain is rebuilt first, else the chain's own.
    pub open spec fn frame_extent(self, window: WindowState) -> Extent {
        if window.drawable() && self.needs_recreate {
            window.extent
        } else {
            self.extent
        }
    }

    /// The bookkeeping after a frame for `window` whose stages reported
    /// `report`.
    ///
    /// A frame that cannot be drawn changes nothing. A rebuilt chain clears
    /// the recreate flag and takes the window's extent; a stale or suboptimal
    /// acquisition and a stale submission set the flag for the next frame.
    /// The slot advances exactly when recording began.
    pub open spec fn after(self, window: WindowState, report: FrameReport) -> ScheduleState {
        if !window.drawable() {
            self
        } else {
            ScheduleState {
                slots: self.slots,
                current_frame: if report.recorded() {
                    (self.current_frame + 1) % self.slots
                } else {
                    self.current_frame
                },
                needs_recreate: (self.needs_recreate && report.recreate != Some(true))
                    || report.marks_stale(),
                extent: if report.recreate == Some(true) {
                    window.extent
                } else {
                    self.extent
                },
            }
        }
    }
}

impl FrameReport {
    /// The report of a frame in which no stage ran.
    pub open spec fn spec_idle() -> FrameReport {
        FrameReport {
            recreate: None,
            acquire: None,
            wait: None,
            uniforms: None,
            recording: None,
            draws: 0,
            draw_failed: false,
            submit: None,
        }
    }

    /// The report of a frame in which no stage ran.
    #[verifier::when_used_as_spec(spec_idle)]
    pub fn idle() -> (report: FrameReport)
        ensures
            report == FrameReport::spec_idle(),
    {
        FrameReport {
            recreate: None,
            acquire: None,
            wait: None,
            uniforms: None,
            recording: None,
            draws: 0,
            draw_failed: false,
            submit: None,
        }
    }

    /// Recording began, so the frame used its slot.
    pub open spec fn recorded(self) -> bool {
        self.recording == Some(true)
    }

    /// Index of the acquired image; zero where none was acquired.
    pub open spec fn image_index(self) -> u32 {
        match self.acquire {
            Some(AcquireOutcome::Image { index, .. }) => index,
            _ => 0,
        }
    }

    /// The frame learned that the chain no longer matches the surface.
    pub open spec fn marks_stale(self) -> bool {
        ||| self.acquire == Some(AcquireOutcome::OutOfDate)
        ||| (self.acquire matches Some(AcquireOutcome::Image { suboptimal, .. }) && suboptimal)
        ||| self.submit == Some(SubmitOutcome::OutOfDate)
    }

    /// Which stages run, given the bookkeeping before the frame, the window
    /// and the number of uploaded meshes.
    ///
    /// Nothing runs for a window that cannot be drawn to. Otherwise the chain
    /// is rebuilt exactly when the flag is set; each later stage runs exactly
    /// when the stage before it succeeded; every mesh is drawn in order until
    /// one fails; and the frame is submitted when all were drawn.
    pub open spec fn staged(self, before: ScheduleState, window: WindowState, meshes: nat) -> bool {
        if !window.drawable() {
            self == FrameReport::spec_idle()
        } else {
            &&& self.recreate.is_some() == before.needs_recreate
            &&& self.acquire.is_some() == (self.recreate != Some(false))
            &&& self.wait.is_some() == (self.acquire matches Some(AcquireOutcome::Image { .. }))
            &&& self.uniforms.is_some() == (self.wait == Some(true))
            &&& self.recording.is_some() == (self.uniforms == Some(true))
            &&& if self.recorded() {
                &&& self.draws <= meshes
                &&& self.draw_failed ==> self.draws < meshes
                &&& !self.draw_failed ==> self.draws == meshes
            } else {
                self.draws == 0 && !self.draw_failed
            }
            &&& self.submit.is_some() == (self.recorded() && !self.draw_failed)
        }
    }

    /// The operations that the frame asked of the backend, in order.
    #[verifier::opaque]
    pub open spec fn ops(
        self,
        slot: usize,
        extent: Extent,
        meshes: Seq<MeshCounts>,
        uniforms: UniformBufferObject,
    ) -> Seq<GpuOp> {
        self.recreate_ops(extent) + self.acquire_ops() + self.wait_ops(slot) + self.uniform_ops(
            slot,
            uniforms,
        ) + self.recording_ops(slot) + self.draw_ops(meshes) + self.submit_ops(slot)
    }

    pub open spec fn recreate_ops(self, extent: Extent) -> Seq<GpuOp> {
        match self.recreate {
            Some(ok) => seq![GpuOp::RecreateChain { extent, ok }],
            None => seq![],
        }
    }

    pub open spec fn acquire_ops(self) -> Seq<GpuOp> {
        match self.acquire {
            Some(outcome) => seq![GpuOp::AcquireImage { outcome }],
            None => seq![],
        }
    }

    pub open spec fn wait_ops(self, slot: usize) -> Seq<GpuOp> {
        match self.wait {
            Some(ok) => seq![GpuOp::WaitForSlot { slot, ok }],
            None => seq![],
        }
    }

    pub open spec fn uniform_ops(self, slot: usize, uniforms: UniformBufferObject) -> Seq<GpuOp> {
        match self.uniforms {
            Some(ok) => seq![GpuOp::WriteUniforms { slot, uniforms, ok }],
            None => seq![],
        }
    }

    pub open spec fn recording_ops(self, slot: usize) -> Seq<GpuOp> {
        match self.recording {
            Some(ok) => seq![GpuOp::BeginRecording { slot, image_index: self.image_index(), ok }],
            None => seq![],
        }
    }

    /// One draw for each of the first `draws` meshes, then the failed one.
    pub open spec fn draw_ops(self, meshes: Seq<MeshCounts>) -> Seq<GpuOp> {
        Seq::new(
            if self.draw_failed {
                (self.draws + 1) as nat
            } else {
                self.draws as nat
            },
            |i: int|
                GpuOp::DrawMesh {
                    mesh: i as usize,
                    index_count: meshes[i].index_count,
                    ok: i < self.draws,
                },
        )
    }

    pub open spec fn submit_ops(self, slot: usize) -> Seq<GpuOp> {
        match self.submit {
            Some(outcome) => seq![
                GpuOp::Submit { slot, image_index: self.image_index(), outcome },
            ],
            None => seq![],
        }
    }

    /// The outcome of the frame in one word.
    pub open spec fn spec_result(&self) -> FrameResult {
        if self.recreate == Some(false) {
            FrameResult::Failed(FrameError::Recreate)
        } else {
            match self.acquire {
                None => FrameResult::Skipped,
                Some(AcquireOutcome::Busy) => FrameResult::Busy,
                Some(AcquireOutcome::OutOfDate) => FrameResult::ChainOutOfDate,
                Some(AcquireOutcome::Failed) => FrameResult::Failed(FrameError::Acquire),
                Some(AcquireOutcome::Image { .. }) => {
                    if self.wait != Some(true) {
                        FrameResult::Failed(FrameError::Wait)
                    } else if self.uniforms != Some(true) {
                        FrameResult::Failed(FrameError::Uniforms)
                    } else if self.recording != Some(true) {
                        FrameResult::Failed(FrameError::Recording)
                    } else {
                        match self.submit {
                            Some(SubmitOutcome::Signalled) => FrameResult::Presented,
                            Some(SubmitOutcome::OutOfDate) => FrameResult::PresentedOutOfDate,
                            Some(SubmitOutcome::Failed) => FrameResult::Failed(FrameError::Submit),
                            None => FrameResult::Failed(FrameError::Draw),
                        }
                    }
                },
            }
        }
    }

    /// The outcome of the frame in one word: skipped, stale, presented, or
    /// the stage that failed.
    #[verifier::when_used_as_spec(spec_result)]
    pub fn result(&self) -> (r: FrameResult)
        ensures
            r == self.spec_result(),
    {
        if let Some(false) = self.recreate {
            return FrameResult::Failed(FrameError::Recreate);
        }
        match self.acquire {
            None => FrameResult::Skipped,
            Some(AcquireOutcome::Busy) => FrameResult::Busy,
            Some(AcquireOutcome::OutOfDate) => FrameResult::ChainOutOfDate,
            Some(AcquireOutcome::Failed) => FrameResult::Failed(FrameError::Acquire),
            Some(AcquireOutcome::Image { .. }) => {
                if !is_done(self.wait) {
                    FrameResult::Failed(FrameError::Wait)
                } else if !is_done(self.uniforms) {
                    FrameResult::Failed(FrameError::Uniforms)
                } else if !is_done(self.recording) {
                    FrameResult::Failed(FrameError::Recording)
                } else {
                    match self.submit {
                        Some(SubmitOutcome::Signalled) => FrameResult::Presented,
                        Some(SubmitOutcome::OutOfDate) => FrameResult::PresentedOutOfDate,
                        Some(SubmitOutcome::Failed) => FrameResult::Failed(FrameError::Submit),
                        None => FrameResult::Failed(FrameError::Draw),
                    }
                }
            },
        }
    }
}

/// Whether a stage ran and succeeded.
fn is_done(stage: Option<bool>) -> (r: bool)
    ensures
        r == (stage == Some(true)),
{
    match stage {
        Some(ok) => ok,
        None => false,
    }
}

/// The bookkeeping that outlives a frame, and the frame loop itself.
#[derive(Clone, Copy, Debug)]
pub struct FrameScheduler {
    slots: usize,
    current_frame: usize,
    recreate_swapchain: bool,
    extent: Extent,
}

impl View for FrameScheduler {
    type V = ScheduleState;

    closed spec fn view(&self) -> ScheduleState {
        ScheduleState {
            slots: self.slots as int,
            current_frame: self.current_frame as int,
            needs_recreate: self.recreate_swapchain,
            extent: self.extent,
        }
    }
}

impl FrameScheduler {
    #[verifier::type_invariant]
    spec fn inv(self) -> bool {
        self.slots >= 1 && self.current_frame < self.slots
    }

    /// A scheduler for `slots` frames in flight and a chain of the given
    /// extent. It starts at slot zero with nothing to rebuild. `None` where
    /// `slots` is zero.
    pub fn new(slots: usize, extent: Extent) -> (r: Option<FrameScheduler>)
        ensures
            r.is_some() == (slots >= 1),
            r matches Some(scheduler) ==> scheduler@ == (ScheduleState {
                slots: slots as int,
                current_frame: 0,
                needs_recreate: false,
                extent,
            }),
    {
        if slots == 0 {
            None
        } else {
            Some(FrameScheduler { slots, current_frame: 0, recreate_swapchain: false, extent })
        }
    }

    /// Number of frame slots.
    pub fn slots(&self) -> (r: usize)
        ensures
            r == self@.slots,
            self@.wf(),
    {
        proof {
            use_type_invariant(self);
        }
        self.slots
    }

    /// The slot that the next recorded frame uses.
    pub fn current_frame(&self) -> (r: usize)
        ensures
            r == self@.current_frame,
            self@.wf(),
    {
        proof {
            use_type_invariant(self);
        }
        self.current_frame
    }

    /// Whether the chain is rebuilt before the next acquisition.
    pub fn needs_recreate(&self) -> (r: bool)
        ensures
            r == self@.needs_recreate,
    {
        self.recreate_swapchain
    }

    /// Extent of chain and viewport.
    pub fn extent(&self) -> (r: Extent)
        ensures
            r == self@.extent,
    {
        self.extent
    }

    /// Asks for the chain to be rebuilt before the next acquisition, as after
    /// a change of the window's size.
    pub fn request_recreate(&mut self)
        ensures
            final(self)@ == (ScheduleState { needs_recreate: true, ..old(self)@ }),
    {
        proof {
            use_type_invariant(&*self);
        }
        self.recreate_swapchain = true;
    }

    /// The extent at which a frame for `window` will be rendered. The
    /// projection of that frame is set up for it.
    pub fn frame_extent(&self, window: WindowState) -> (r: Extent)
        ensures
            r == self@.frame_extent(window),
    {
        if window.is_drawable() && self.recreate_swapchain {
            window.extent
        } else {
            self.extent
        }
    }

    /// Draws one frame.
    ///
    /// A window that is minimized, of unknown state or without area skips the
    /// frame: the backend is not touched and nothing changes. Otherwise the
    /// chain is rebuilt first where that is pending; the next image is
    /// acquired, and the frame ends there where none is available or the
    /// chain is out of date, which has it rebuilt before the next frame; the
    /// completion signal of the current slot is waited for; the slot's
    /// uniform block is rewritten; the frame is recorded with one draw per
    /// uploaded mesh and submitted. The first stage that fails ends the
    /// frame. The slot advances when recording began, whatever happened
    /// after.
    ///
    /// The backend performed the operations of the report, in their order
    /// and no others: its trace grew by them, and it went through them from
    /// the state it was in to the state it is in.
    pub fn draw_frame<B: RenderBackend>(
        &mut self,
        backend: &mut B,
        window: WindowState,
        uniforms: &UniformBufferObject,
    ) -> (report: FrameReport)
        requires
            old(backend).slot_count() == old(self)@.slots,
        ensures
            report.staged(old(self)@, window, old(backend).meshes().len()),
            final(self)@ == old(self)@.after(window, report),
            final(self)@.wf(),
            final(backend).trace() == old(backend).trace() + report.ops(
                old(self)@.current_frame as usize,
                window.extent,
                old(backend).meshes(),
                *uniforms,
            ),
            performs_all(
                old(backend),
                report.ops(
                    old(self)@.current_frame as usize,
                    window.extent,
                    old(backend).meshes(),
                    *uniforms,
                ),
                final(backend),
            ),
            same_resources(final(backend), old(backend)),
            forall|other: int|
                other != old(self)@.current_frame ==> final(backend).pending(other) == old(
                    backend,
                ).pending(other),
            report.submit.is_some() ==> final(backend).pending(old(self)@.current_frame) == (
            report.submit == Some(SubmitOutcome::Signalled)),
            report.wait == Some(true) && report.submit.is_none() ==> !final(backend).pending(
                old(self)@.current_frame,
            ),
            report.wait != Some(true) ==> same_pending(final(backend), old(backend)),
            !window.drawable() ==> *final(backend) == *old(backend),
    {
        proof {
            use_type_invariant(&*self);
        }
        let ghost before = backend.trace();
        let ghost start = *backend;
        let ghost meshes = backend.meshes();
        let ghost extent = window.extent;
        let slot = self.current_frame;
        let mut report = FrameReport::idle();
        proof {
            lemma_ops_idle(before, slot, extent, meshes, *uniforms);
            lemma_performs_nothing(&start, &start);
        }
        if !window.is_drawable() {
            return report;
        }
        if self.recreate_swapchain {
            let ghost earlier = *backend;
            let ok = backend.recreate_chain(window.extent);
            proof {
                lemma_ops_next(
                    before,
                    report,
                    (FrameReport { recreate: Some(ok), ..report }),
                    GpuOp::RecreateChain { extent, ok },
                    slot,
                    extent,
                    meshes,
                    *uniforms,
                );
                lemma_performs_next(
                    &start,
                    report.ops(slot, extent, meshes, *uniforms),
                    &earlier,
                    GpuOp::RecreateChain { extent, ok },
                    &*backend,
                );
            }
            report.recreate = Some(ok);
            if !ok {
                return report;
            }
            self.recreate_swapchain = false;
            self.extent = window.extent;
        }
        let ghost earlier = *backend;
        let outcome = backend.acquire_image();
        proof {
            lemma_ops_next(
                before,
                report,
                (FrameReport { acquire: Some(outcome), ..report }),
                GpuOp::AcquireImage { outcome },
                slot,
                extent,
                meshes,
                *uniforms,
            );
            lemma_performs_next(
                &start,
                report.ops(slot, extent, meshes, *uniforms),
                &earlier,
                GpuOp::AcquireImage { outcome },
                &*backend,
            );
        }
        report.acquire = Some(outcome);
        let image_index = match outcome {
            AcquireOutcome::Image { index, suboptimal } => {
                if suboptimal {
                    self.recreate_swapchain = true;
                }
                index
            },
            AcquireOutcome::OutOfDate => {
                self.recreate_swapchain = true;
                return report;
            },
            AcquireOutcome::Busy => {
                return report;
            },
            AcquireOutcome::Failed => {
                return report;
            },
        };
        let ghost earlier = *backend;
        let waited = backend.wait_for_slot(slot);
        proof {
            lemma_ops_next(
                before,
                report,
                (FrameReport { wait: Some(waited), ..report }),
                GpuOp::WaitForSlot { slot, ok: waited },
                slot,
                extent,
                meshes,
                *uniforms,
            );
            lemma_performs_next(
                &start,
                report.ops(slot, extent, meshes, *uniforms),
                &earlier,
                GpuOp::WaitForSlot { slot, ok: waited },
                &*backend,
            );
        }
        report.wait = Some(waited);
        if !waited {
            return report;
        }
        let ghost earlier = *backend;
        let written = backend.write_uniforms(slot, uniforms);
        proof {
            lemma_ops_next(
                before,
                report,
                (FrameReport { uniforms: Some(written), ..report }),
                GpuOp::WriteUniforms { slot, uniforms: *uniforms, ok: written },
                slot,
                extent,
                meshes,
                *uniforms,
            );
            lemma_performs_next(
                &start,
                report.ops(slot, extent, meshes, *uniforms),
                &earlier,
                GpuOp::WriteUniforms { slot, uniforms: *uniforms, ok: written },
                &*backend,
            );
        }
        report.uniforms = Some(written);
        if !written {
            return report;
        }
        let ghost earlier = *backend;
        let began = backend.begin_recording(slot, image_index);
        proof {
            lemma_ops_next(
                before,
                report,
                (FrameReport { recording: Some(began), ..report }),
                GpuOp::BeginRecording { slot, image_index, ok: began },
                slot,
                extent,
                meshes,
                *uniforms,
            );
            lemma_performs_next(
                &start,
                report.ops(slot, extent, meshes, *uniforms),
                &earlier,
                GpuOp::BeginRecording { slot, image_index, ok: began },
                &*backend,
            );
        }
        report.recording = Some(began);
        if !began {
            return report;
        }
        let ghost earlier = *backend;
        let (draws, draw_failed) = record_draws(backend);
        proof {
            lemma_ops_draws(before, report, draws, draw_failed, slot, extent, meshes, *uniforms);
            lemma_performs_both(
                &start,
                report.ops(slot, extent, meshes, *uniforms),
                &earlier,
                drawn_ops(draws, draw_failed, meshes),
                &*backend,
            );
        }
        report.draws = draws;
        report.draw_failed = draw_failed;
        if !draw_failed {
            let ghost earlier = *backend;
            let outcome = backend.submit(slot, image_index);
            proof {
                lemma_ops_next(
                    before,
                    report,
                    (FrameReport { submit: Some(outcome), ..report }),
                    GpuOp::Submit { slot, image_index, outcome },
                    slot,
                    extent,
                    meshes,
                    *uniforms,
                );
                lemma_performs_next(
                    &start,
                    report.ops(slot, extent, meshes, *uniforms),
                    &earlier,
                    GpuOp::Submit { slot, image_index, outcome },
                    &*backend,
                );
            }
            report.submit = Some(outcome);
            if let SubmitOutcome::OutOfDate = outcome {
                self.recreate_swapchain = true;
            }
        }
        self.current_frame = if slot + 1 == self.slots {
            0
        } else {
            slot + 1
        };
        proof {
            lemma_next_slot(slot as int, self.slots as int);
        }
        report
    }
}

proof fn lemma_ops_idle(
    before: Seq<GpuOp>,
    slot: usize,
    extent: Extent,
    meshes: Seq<MeshCounts>,
    uniforms: UniformBufferObject,
)
    ensures
        before + FrameReport::spec_idle().ops(slot, extent, meshes, uniforms) == before,
        FrameReport::spec_idle().ops(slot, extent, meshes, uniforms) == Seq::<GpuOp>::empty(),
{
    reveal(FrameReport::ops);
    assert(FrameReport::spec_idle().ops(slot, extent, meshes, uniforms) =~= Seq::<GpuOp>::empty());
    assert(before + FrameReport::spec_idle().ops(slot, extent, meshes, uniforms) =~= before);
}

/// Whether `later` is `report` with its next stage run, and `op` the
/// operation of that stage. The stages after it have not run yet.
spec fn next_stage(
    report: FrameReport,
    later: FrameReport,
    op: GpuOp,
    slot: usize,
    extent: Extent,
    uniforms: UniformBufferObject,
) -> bool {
    let idle = FrameReport::spec_idle();
    ||| {
        &&& report == idle
        &&& later.recreate matches Some(ok)
        &&& later == (FrameReport { recreate: Some(ok), ..report })
        &&& op == (GpuOp::RecreateChain { extent, ok })
    }
    ||| {
        &&& report == (FrameReport { recreate: report.recreate, ..idle })
        &&& later.acquire matches Some(outcome)
        &&& later == (FrameReport { acquire: Some(outcome), ..report })
        &&& op == (GpuOp::AcquireImage { outcome })
    }
    ||| {
        &&& report == (FrameReport { recreate: report.recreate, acquire: report.acquire, ..idle })
        &&& later.wait matches Some(ok)
        &&& later == (FrameReport { wait: Some(ok), ..report })
        &&& op == (GpuOp::WaitForSlot { slot, ok })
    }
    ||| {
        &&& report == (FrameReport {
            recreate: report.recreate,
            acquire: report.acquire,
            wait: report.wait,
            ..idle
        })
        &&& later.uniforms matches Some(ok)
        &&& later == (FrameReport { uniforms: Some(ok), ..report })
        &&& op == (GpuOp::WriteUniforms { slot, uniforms, ok })
    }
    ||| {
        &&& report.recording.is_none() && report.draws == 0 && !report.draw_failed
            && report.submit.is_none()
        &&& later.recording matches Some(ok)
        &&& later == (FrameReport { recording: Some(ok), ..report })
        &&& op == (GpuOp::BeginRecording { slot, image_index: report.image_index(), ok })
    }
    ||| {
        &&& report.submit.is_none()
        &&& later.submit matches Some(outcome)
        &&& later == (FrameReport { submit: Some(outcome), ..report })
        &&& op == (GpuOp::Submit { slot, image_index: report.image_index(), outcome })
    }
}

/// The operations of a report whose next stage has run are those it had,
/// and the operation of that stage behind them.
proof fn lemma_ops_next(
    before: Seq<GpuOp>,
    report: FrameReport,
    later: FrameReport,
    op: GpuOp,
    slot: usize,
    extent: Extent,
    meshes: Seq<MeshCounts>,
    uniforms: UniformBufferObject,
)
    requires
        next_stage(report, later, op, slot, extent, uniforms),
    ensures
        later.ops(slot, extent, meshes, uniforms) == report.ops(slot, extent, meshes, uniforms).push(
            op,
        ),
        before + later.ops(slot, extent, meshes, uniforms) == (before + report.ops(
            slot,
            extent,
            meshes,
            uniforms,
        )).push(op),
{
    reveal(FrameReport::ops);
    assert(later.ops(slot, extent, meshes, uniforms) =~= report.ops(
        slot,
        extent,
        meshes,
        uniforms,
    ).push(op));
    assert(before + later.ops(slot, extent, meshes, uniforms) =~= (before + report.ops(
        slot,
        extent,
        meshes,
        uniforms,
    )).push(op));
}

proof fn lemma_ops_draws(
    before: Seq<GpuOp>,
    report: FrameReport,
    draws: usize,
    draw_failed: bool,
    slot: usize,
    extent: Extent,
    meshes: Seq<MeshCounts>,
    uniforms: UniformBufferObject,
)
    requires
        report.draws == 0,
        !report.draw_failed,
        report.submit.is_none(),
    ensures
        before + (FrameReport { draws, draw_failed, ..report }).ops(slot, extent, meshes, uniforms) == (before
            + report.ops(slot, extent, meshes, uniforms)) + drawn_ops(draws, draw_failed, meshes),
        (FrameReport { draws, draw_failed, ..report }).ops(slot, extent, meshes, uniforms) == report.ops(
            slot,
            extent,
            meshes,
            uniforms,
        ) + drawn_ops(draws, draw_failed, meshes),
{
    reveal(FrameReport::ops);
    assert((FrameReport { draws, draw_failed, ..report }).ops(slot, extent, meshes, uniforms) =~= report.ops(
        slot,
        extent,
        meshes,
        uniforms,
    ) + drawn_ops(draws, draw_failed, meshes));
    assert(before + (FrameReport { draws, draw_failed, ..report }).ops(slot, extent, meshes, uniforms) =~= (
    before + report.ops(slot, extent, meshes, uniforms)) + drawn_ops(draws, draw_failed, meshes));
}

/// Records one draw for each uploaded mesh, in order of their ids, and stops
/// at the first that fails. Returns how many were recorded and whether one
/// failed.
fn record_draws<B: RenderBackend>(backend: &mut B) -> (r: (usize, bool))
    ensures
        r.0 <= old(backend).meshes().len(),
        r.1 ==> r.0 < old(backend).meshes().len(),
        !r.1 ==> r.0 == old(backend).meshes().len(),
        final(backend).trace() == old(backend).trace() + drawn_ops(r.0, r.1, old(backend).meshes()),
        performs_all(old(backend), drawn_ops(r.0, r.1, old(backend).meshes()), final(backend)),
        same_resources(final(backend), old(backend)),
        same_pending(final(backend), old(backend)),
{
    let ghost before = backend.trace();
    let ghost start = *backend;
    let ghost meshes = backend.meshes();
    let mesh_count = backend.mesh_count();
    let mut draws: usize = 0;
    let mut draw_failed = false;
    assert(drawn_ops(draws, draw_failed, meshes) =~= Seq::<GpuOp>::empty());
    proof {
        lemma_performs_nothing(&start, &start);
    }
    while draws < mesh_count && !draw_failed
        invariant
            draws <= mesh_count,
            draw_failed ==> draws < mesh_count,
            mesh_count == meshes.len(),
            backend.meshes() == meshes,
            backend.slot_count() == old(backend).slot_count(),
            same_pending(backend, old(backend)),
            backend.trace() == before + drawn_ops(draws, draw_failed, meshes),
            performs_all(&start, drawn_ops(draws, draw_failed, meshes), &*backend),
        decreases
            mesh_count - draws + if draw_failed {
                0int
            } else {
                1int
            },
    {
        let ghost earlier = drawn_ops(draws, draw_failed, meshes);
        let ghost mesh = draws;
        let ghost reached = *backend;
        let drawn = backend.draw_mesh(draws);
        if drawn {
            draws = draws + 1;
        } else {
            draw_failed = true;
        }
        assert(drawn_ops(draws, draw_failed, meshes) =~= earlier.push(
            GpuOp::DrawMesh { mesh, index_count: meshes[mesh as int].index_count, ok: drawn },
        ));
        assert(backend.trace() =~= before + drawn_ops(draws, draw_failed, meshes));
        proof {
            lemma_performs_next(
                &start,
                earlier,
                &reached,
                GpuOp::DrawMesh { mesh, index_count: meshes[mesh as int].index_count, ok: drawn },
                &*backend,
            );
        }
    }
    (draws, draw_failed)
}

/// The draws of a report with the given counts.
spec fn drawn_ops(draws: usize, draw_failed: bool, meshes: Seq<MeshCounts>) -> Seq<GpuOp> {
    (FrameReport { draws, draw_failed, ..FrameReport::spec_idle() }).draw_ops(meshes)
}

/// Stepping a slot index by one and wrapping at the number of slots is the
/// successor modulo that number.
pub proof fn lemma_next_slot(current: int, slots: int)
    requires
        0 <= current < slots,
    ensures
        (current + 1) % slots == if current + 1 == slots {
            0
        } else {
            current + 1
        },
{
    if current + 1 == slots {
        assert(slots % slots == 0) by (nonlinear_arith)
            requires
                slots > 0,
        ;
    } else {
        assert((current + 1) % slots == current + 1) by (nonlinear_arith)
            requires
                0 <= current + 1 < slots,
        ;
    }
}

/// The bookkeeping after a series of frames, each given by its window and
/// by what its stages reported.
pub open spec fn after_frames(
    start: ScheduleState,
    frames: Seq<(WindowState, FrameReport)>,
) -> ScheduleState
    decreases frames.len(),
{
    if frames.len() == 0 {
        start
    } else {
        after_frames(start, frames.drop_last()).after(frames.last().0, frames.last().1)
    }
}

/// Number of frames of a series that began recording.
pub open spec fn recorded_frames(frames: Seq<(WindowState, FrameReport)>) -> nat
    decreases frames.len(),
{
    if frames.len() == 0 {
        0
    } else {
        recorded_frames(frames.drop_last()) + if frames.last().0.drawable()
            && frames.last().1.recorded() {
            1nat
        } else {
            0nat
        }
    }
}

/// The frame index counts recorded frames modulo the number of slots.
///
/// Whatever the windows and the backend's answers were, the slot after a
/// series of frames is the starting slot plus the number of frames that were
/// recorded, modulo the number of slots: recorded frames use the slots
/// `0, 1, .., N-1, 0, 1, ..` in turn, and frames that were skipped or
/// abandoned before recording leave no gap.
pub proof fn lemma_frame_index_cycles(
    start: ScheduleState,
    frames: Seq<(WindowState, FrameReport)>,
)
    requires
        start.wf(),
    ensures
        after_frames(start, frames).wf(),
        after_frames(start, frames).slots == start.slots,
        after_frames(start, frames).current_frame == (start.current_frame + recorded_frames(
            frames,
        )) % start.slots,
    decreases frames.len(),
{
    if frames.len() == 0 {
        assert(start.current_frame % start.slots == start.current_frame) by (nonlinear_arith)
            requires
                0 <= start.current_frame < start.slots,
        ;
    } else {
        let earlier = frames.drop_last();
        lemma_frame_index_cycles(start, earlier);
        let reached = after_frames(start, earlier);
        let count = start.current_frame + recorded_frames(earlier);
        if frames.last().0.drawable() && frames.last().1.recorded() {
            lemma_next_slot(reached.current_frame, start.slots);
            assert((count % start.slots + 1) % start.slots == (count + 1) % start.slots)
                by (nonlinear_arith)
                requires
                    start.slots >= 1,
                    count >= 0,
            ;
        }
    }
}

/// A frame for a window that cannot be drawn to is skipped without a trace:
/// no stage runs, the backend is asked nothing, the bookkeeping stays as it
/// was and no error is reported.
pub proof fn lemma_undrawable_frame_is_skipped(
    before: ScheduleState,
    window: WindowState,
    report: FrameReport,
    meshes: Seq<MeshCounts>,
    uniforms: UniformBufferObject,
)
    requires
        !window.drawable(),
        report.staged(before, window, meshes.len()),
    ensures
        report.spec_result() == FrameResult::Skipped,
        report.acquire.is_none(),
        before.after(window, report) == before,
        report.ops(before.current_frame as usize, window.extent, meshes, uniforms) == Seq::<GpuOp>::empty(),
{
    reveal(FrameReport::ops);
    assert(report.ops(before.current_frame as usize, window.extent, meshes, uniforms) =~= Seq::<
        GpuOp,
    >::empty());
}

/// A suboptimal acquisition does not drop the frame.
///
/// The frame goes on to wait, record and submit as after any other
/// successful acquisition, and is submitted when every stage succeeds. The
/// chain is rebuilt by the next frame that can be drawn, before it acquires.
pub proof fn lemma_suboptimal_frame_is_kept(
    before: ScheduleState,
    window: WindowState,
    report: FrameReport,
    meshes: nat,
    next_window: WindowState,
    next_report: FrameReport,
    next_meshes: nat,
)
    requires
        window.drawable(),
        report.staged(before, window, meshes),
        report.acquire matches Some(AcquireOutcome::Image { suboptimal, .. }) && suboptimal,
        next_report.staged(before.after(window, report), next_window, next_meshes),
    ensures
        report.wait.is_some(),
        report.wait == Some(true) && report.uniforms == Some(true) && report.recorded()
            && !report.draw_failed ==> report.submit.is_some() && report.draws == meshes,
        report.submit == Some(SubmitOutcome::Signalled) ==> report.spec_result()
            == FrameResult::Presented,
        before.after(window, report).needs_recreate,
        next_window.drawable() ==> next_report.recreate.is_some(),
        !next_window.drawable() ==> before.after(window, report).after(
            next_window,
            next_report,
        ).needs_recreate,
{
}

/// A frame whose chain is out of date at acquisition records nothing, keeps
/// its slot and has the chain rebuilt by the next frame that can be drawn.
pub proof fn lemma_stale_acquisition_skips_frame(
    before: ScheduleState,
    window: WindowState,
    report: FrameReport,
    meshes: nat,
)
    requires
        window.drawable(),
        report.staged(before, window, meshes),
        report.acquire == Some(AcquireOutcome::OutOfDate),
    ensures
        report.spec_result() == FrameResult::ChainOutOfDate,
        report.wait.is_none() && report.recording.is_none() && report.submit.is_none(),
        before.after(window, report).needs_recreate,
        before.after(window, report).current_frame == before.current_frame,
{
}

/// A frame for which no image is available in time records nothing, keeps
/// its slot and asks for no rebuild that was not pending already.
pub proof fn lemma_busy_acquisition_skips_frame(
    before: ScheduleState,
    window: WindowState,
    report: FrameReport,
    meshes: nat,
)
    requires
        window.drawable(),
        report.staged(before, window, meshes),
        report.acquire == Some(AcquireOutcome::Busy),
    ensures
        report.spec_result() == FrameResult::Busy,
        report.wait.is_none() && report.recording.is_none() && report.submit.is_none(),
        !before.after(window, report).needs_recreate,
        before.after(window, report).current_frame == before.current_frame,
{
    if before.needs_recreate {
        assert(report.recreate.is_some());
        assert(report.recreate == Some(true));
    }
}

/// The extent of a frame: where the chain was rebuilt, chain and viewport
/// have the window's extent afterwards; where it was not, they keep theirs.
/// Either way it is the extent announced by `frame_extent`, unless the
/// rebuild failed.
pub proof fn lemma_frame_extent(
    before: ScheduleState,
    window: WindowState,
    report: FrameReport,
    meshes: nat,
)
    requires
        report.staged(before, window, meshes),
        report.recreate != Some(false),
    ensures
        before.after(window, report).extent == before.frame_extent(window),
{
    if window.drawable() && before.needs_recreate {
        assert(report.recreate.is_some());
        assert(report.recreate == Some(true));
    }
}

} // verus!
