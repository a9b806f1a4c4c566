//! A backend that performs no GPU work: it records what it is asked and
//! answers as it was told to.

use crate::extent::Extent;
use crate::frame::{AcquireOutcome, FrameError, GpuOp, RenderBackend, SubmitOutcome};
use crate::ubo::UniformBufferObject;
use crate::upload::{mesh_plan, plan_mesh, MeshCounts, UploadError};
use crate::vertex::ElmVertex;
use vstd::prelude::*;

verus! {

/// A backend for running the renderer without a device.
///
/// Acquisitions hand out the images of a ring in turn and submissions are
/// signalled, unless other outcomes were scripted; these are used up first,
/// in the order in which they were scripted. One stage can be made to fail
/// for as long as the setting stays.
#[derive(Debug)]
pub struct RecordingBackend {
    ops: Vec<GpuOp>,
    meshes: Vec<MeshCounts>,
    image_count: u32,
    next_image: u32,
    acquires: Vec<AcquireOutcome>,
    submits: Vec<SubmitOutcome>,
    failing: Option<FrameError>,
    failing_uploads: bool,
    pending: Vec<bool>,
}

/// What a recording backend holds, as mathematical values.
pub struct RecordingState {
    /// The operations recorded so far, oldest first.
    pub ops: Seq<GpuOp>,
    /// The meshes uploaded so far.
    pub meshes: Seq<MeshCounts>,
    /// Number of images in the ring.
    pub image_count: u32,
    /// The image that the next unscripted acquisition hands out.
    pub next_image: u32,
    /// Outcomes scripted for the next acquisitions.
    pub acquires: Seq<AcquireOutcome>,
    /// Outcomes scripted for the next submissions.
    pub submits: Seq<SubmitOutcome>,
    /// The stage that fails whenever it is asked for.
    pub failing: Option<FrameError>,
    /// Uploads fail at the device.
    pub failing_uploads: bool,
    /// For each frame slot, whether its completion signal is pending.
    pub pending: Seq<bool>,
}

impl RecordingState {
    /// Whether a stage succeeds when asked for.
    pub open spec fn passes(self, stage: FrameError) -> bool {
        self.failing != Some(stage)
    }

    /// The outcome of the next acquisition: `Failed` where acquisitions are
    /// set to fail, else the first scripted outcome, else the next image of
    /// the ring, and `Failed` where the ring is empty.
    pub open spec fn next_acquire(self) -> AcquireOutcome {
        if !self.passes(FrameError::Acquire) {
            AcquireOutcome::Failed
        } else if self.acquires.len() > 0 {
            self.acquires[0]
        } else if self.next_image < self.image_count {
            AcquireOutcome::Image { index: self.next_image, suboptimal: false }
        } else {
            AcquireOutcome::Failed
        }
    }

    /// The state after the next acquisition, but for the record of it.
    pub open spec fn after_acquire(self) -> RecordingState {
        if !self.passes(FrameError::Acquire) {
            self
        } else if self.acquires.len() > 0 {
            RecordingState { acquires: self.acquires.skip(1), ..self }
        } else if self.next_image < self.image_count {
            RecordingState {
                next_image: if self.next_image + 1 == self.image_count {
                    0
                } else {
                    (self.next_image + 1) as u32
                },
                ..self
            }
        } else {
            self
        }
    }

    /// The outcome of the next submission: `Failed` where submissions are
    /// set to fail, else the first scripted outcome, else `Signalled`.
    pub open spec fn next_submit(self) -> SubmitOutcome {
        if !self.passes(FrameError::Submit) {
            SubmitOutcome::Failed
        } else if self.submits.len() > 0 {
            self.submits[0]
        } else {
            SubmitOutcome::Signalled
        }
    }

    /// The state after the next submission, but for the record of it.
    pub open spec fn after_submit(self) -> RecordingState {
        if self.passes(FrameError::Submit) && self.submits.len() > 0 {
            RecordingState { submits: self.submits.skip(1), ..self }
        } else {
            self
        }
    }

    /// The state with the completion signal of `slot` pending or not.
    pub open spec fn signalled(self, slot: int, pending: bool) -> RecordingState {
        if 0 <= slot < self.pending.len() {
            RecordingState { pending: self.pending.update(slot, pending), ..self }
        } else {
            self
        }
    }

    /// The state with one more operation recorded.
    pub open spec fn recorded(self, op: GpuOp) -> RecordingState {
        RecordingState { ops: self.ops.push(op), ..self }
    }
}

impl View for RecordingBackend {
    type V = RecordingState;

    closed spec fn view(&self) -> RecordingState {
        RecordingState {
            ops: self.ops@,
            meshes: self.meshes@,
            image_count: self.image_count,
            next_image: self.next_image,
            acquires: self.acquires@,
            submits: self.submits@,
            failing: self.failing,
            failing_uploads: self.failing_uploads,
            pending: self.pending@,
        }
    }
}

impl RecordingBackend {
    /// Number of frame slots.
    pub fn slots(&self) -> (slots: usize)
        ensures
            slots == self@.pending.len(),
    {
        self.pending.len()
    }

    /// A backend with `slots` frame slots and a ring of `image_count`
    /// images, nothing recorded, nothing uploaded and nothing scripted.
    pub fn new(slots: usize, image_count: u32) -> (backend: RecordingBackend)
        ensures
            backend@ == (RecordingState {
                ops: Seq::empty(),
                meshes: Seq::empty(),
                image_count,
                next_image: 0,
                acquires: Seq::empty(),
                submits: Seq::empty(),
                failing: None,
                failing_uploads: false,
                pending: Seq::new(slots as nat, |slot: int| false),
            }),
    {
        let mut pending: Vec<bool> = Vec::new();
        while pending.len() < slots
            invariant
                pending.len() <= slots,
                forall|slot: int| 0 <= slot < pending.len() ==> !pending@[slot],
            decreases slots - pending.len(),
        {
            pending.push(false);
        }
        assert(pending@ =~= Seq::new(slots as nat, |slot: int| false));
        RecordingBackend {
            ops: Vec::new(),
            meshes: Vec::new(),
            image_count,
            next_image: 0,
            acquires: Vec::new(),
            submits: Vec::new(),
            failing: None,
            failing_uploads: false,
            pending,
        }
    }

    /// Whether a completion signal is pending for `slot`.
    pub fn is_pending(&self, slot: usize) -> (r: bool)
        ensures
            r == (slot < self@.pending.len() && self@.pending[slot as int]),
    {
        slot < self.pending.len() && self.pending[slot]
    }

    /// The operations recorded so far, oldest first.
    pub fn ops(&self) -> (ops: &Vec<GpuOp>)
        ensures
            ops@ == self@.ops,
    {
        &self.ops
    }

    /// Scripts the outcome of an acquisition, after those scripted before.
    pub fn script_acquire(&mut self, outcome: AcquireOutcome)
        ensures
            final(self)@ == (RecordingState {
                acquires: old(self)@.acquires.push(outcome),
                ..old(self)@
            }),
    {
        self.acquires.push(outcome);
    }

    /// Scripts the outcome of a submission, after those scripted before.
    pub fn script_submit(&mut self, outcome: SubmitOutcome)
        ensures
            final(self)@ == (RecordingState {
                submits: old(self)@.submits.push(outcome),
                ..old(self)@
            }),
    {
        self.submits.push(outcome);
    }

    /// Makes one stage fail whenever it is asked for, or none. Acquisition
    /// and submission then end as `Failed`.
    pub fn fail_at(&mut self, stage: Option<FrameError>)
        ensures
            final(self)@ == (RecordingState { failing: stage, ..old(self)@ }),
    {
        self.failing = stage;
    }

    /// Makes uploads fail at the device, or succeed again.
    pub fn fail_uploads(&mut self, failing: bool)
        ensures
            final(self)@ == (RecordingState { failing_uploads: failing, ..old(self)@ }),
    {
        self.failing_uploads = failing;
    }

    fn passes(&self, stage: FrameError) -> (r: bool)
        ensures
            r == self@.passes(stage),
    {
        match self.failing {
            Some(failing) => failing != stage,
            None => true,
        }
    }
}

impl RenderBackend for RecordingBackend {
    open spec fn trace(&self) -> Seq<GpuOp> {
        self@.ops
    }

    open spec fn slot_count(&self) -> nat {
        self@.pending.len()
    }

    open spec fn meshes(&self) -> Seq<MeshCounts> {
        self@.meshes
    }

    open spec fn pending(&self, slot: int) -> bool {
        0 <= slot < self@.pending.len() && self@.pending[slot]
    }

    /// The operation is recorded behind those there were.
    open spec fn performs(&self, op: GpuOp, after: &Self) -> bool {
        after@.ops == self@.ops.push(op)
    }

    fn mesh_count(&self) -> (count: usize) {
        self.meshes.len()
    }

    fn mesh(&self, id: usize) -> (counts: Option<MeshCounts>) {
        if id < self.meshes.len() {
            Some(self.meshes[id])
        } else {
            None
        }
    }

    /// Registers the mesh unless it is refused or uploads are set to fail.
    fn upload_mesh(&mut self, vertices: &Vec<ElmVertex>, indices: &Vec<u32>) -> (r: Result<
        usize,
        UploadError,
    >)
        ensures
            mesh_plan(vertices.len() as int, indices.len() as int) is Ok ==> (r is Ok) == !old(
                self,
            )@.failing_uploads,
            final(self)@ == (RecordingState {
                ops: final(self)@.ops,
                meshes: final(self)@.meshes,
                ..old(self)@
            }),
    {
        let counts = plan_mesh(vertices.len(), indices.len())?;
        if self.failing_uploads {
            self.ops.push(GpuOp::UploadMesh { counts, ok: false });
            return Err(UploadError::Device);
        }
        self.ops.push(GpuOp::UploadMesh { counts, ok: true });
        self.meshes.push(counts);
        Ok(self.meshes.len() - 1)
    }

    /// Succeeds unless rebuilding is set to fail.
    fn recreate_chain(&mut self, extent: Extent) -> (ok: bool)
        ensures
            ok == old(self)@.passes(FrameError::Recreate),
            final(self)@ == old(self)@.recorded(GpuOp::RecreateChain { extent, ok }),
    {
        let ok = self.passes(FrameError::Recreate);
        self.ops.push(GpuOp::RecreateChain { extent, ok });
        ok
    }

    /// Answers with `next_acquire`.
    fn acquire_image(&mut self) -> (outcome: AcquireOutcome)
        ensures
            outcome == old(self)@.next_acquire(),
            final(self)@ == old(self)@.after_acquire().recorded(GpuOp::AcquireImage { outcome }),
    {
        let outcome = if !self.passes(FrameError::Acquire) {
            AcquireOutcome::Failed
        } else if self.acquires.len() > 0 {
            self.acquires.remove(0)
        } else if self.next_image < self.image_count {
            let index = self.next_image;
            self.next_image = if index + 1 == self.image_count {
                0
            } else {
                index + 1
            };
            AcquireOutcome::Image { index, suboptimal: false }
        } else {
            AcquireOutcome::Failed
        };
        self.ops.push(GpuOp::AcquireImage { outcome });
        assert(self@.acquires =~= old(self)@.after_acquire().acquires);
        outcome
    }

    /// Succeeds unless waiting is set to fail; the slot's signal is cleared
    /// where it succeeds.
    fn wait_for_slot(&mut self, slot: usize) -> (ok: bool)
        ensures
            ok == old(self)@.passes(FrameError::Wait),
            final(self)@ == old(self)@.signalled(slot as int, old(self).pending(slot as int) && !ok).recorded(
                GpuOp::WaitForSlot { slot, ok },
            ),
    {
        let ok = self.passes(FrameError::Wait);
        if ok && slot < self.pending.len() {
            self.pending.set(slot, false);
        }
        self.ops.push(GpuOp::WaitForSlot { slot, ok });
        assert(self@.pending =~= old(self)@.signalled(
            slot as int,
            old(self).pending(slot as int) && !ok,
        ).pending);
        ok
    }

    /// Succeeds unless writing uniforms is set to fail.
    fn write_uniforms(&mut self, slot: usize, uniforms: &UniformBufferObject) -> (ok: bool)
        ensures
            ok == old(self)@.passes(FrameError::Uniforms),
            final(self)@ == old(self)@.recorded(GpuOp::WriteUniforms { slot, uniforms: *uniforms, ok }),
    {
        let ok = self.passes(FrameError::Uniforms);
        self.ops.push(GpuOp::WriteUniforms { slot, uniforms: *uniforms, ok });
        ok
    }

    /// Succeeds unless recording is set to fail.
    fn begin_recording(&mut self, slot: usize, image_index: u32) -> (ok: bool)
        ensures
            ok == old(self)@.passes(FrameError::Recording),
            final(self)@ == old(self)@.recorded(GpuOp::BeginRecording { slot, image_index, ok }),
    {
        let ok = self.passes(FrameError::Recording);
        self.ops.push(GpuOp::BeginRecording { slot, image_index, ok });
        ok
    }

    /// Succeeds for a mesh that was uploaded unless drawing is set to fail.
    fn draw_mesh(&mut self, mesh: usize) -> (ok: bool)
        ensures
            ok == (mesh < old(self)@.meshes.len() && old(self)@.passes(FrameError::Draw)),
            final(self)@ == if mesh < old(self)@.meshes.len() {
                old(self)@.recorded(
                    GpuOp::DrawMesh {
                        mesh,
                        index_count: old(self)@.meshes[mesh as int].index_count,
                        ok,
                    },
                )
            } else {
                old(self)@
            },
    {
        if mesh >= self.meshes.len() {
            return false;
        }
        let ok = self.passes(FrameError::Draw);
        let index_count: u32 = self.meshes[mesh].index_count;
        self.ops.push(GpuOp::DrawMesh { mesh, index_count, ok });
        ok
    }

    /// Answers with `next_submit`.
    fn submit(&mut self, slot: usize, image_index: u32) -> (outcome: SubmitOutcome)
        ensures
            outcome == old(self)@.next_submit(),
            final(self)@ == old(self)@.after_submit().signalled(
                slot as int,
                outcome == SubmitOutcome::Signalled,
            ).recorded(GpuOp::Submit { slot, image_index, outcome }),
    {
        let outcome = if !self.passes(FrameError::Submit) {
            SubmitOutcome::Failed
        } else if self.submits.len() > 0 {
            self.submits.remove(0)
        } else {
            SubmitOutcome::Signalled
        };
        if slot < self.pending.len() {
            self.pending.set(slot, outcome == SubmitOutcome::Signalled);
        }
        self.ops.push(GpuOp::Submit { slot, image_index, outcome });
        assert(self@.submits =~= old(self)@.after_submit().submits);
        assert(self@.pending =~= old(self)@.after_submit().signalled(
            slot as int,
            outcome == SubmitOutcome::Signalled,
        ).pending);
        outcome
    }
}

} // verus!
