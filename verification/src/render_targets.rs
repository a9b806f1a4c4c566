//! The framebuffers that render passes draw into: one for each image of the
//! presentation chain and each pass.

use crate::api::{ApiCall, FramebufferId, Gpu, GraphicsApi, ImageId, PipelineId};
use std::collections::HashMap;
use vstd::prelude::*;

verus! {

broadcast use vstd::std_specs::hash::group_hash_axioms;

/// The framebuffers of a presentation chain, kept by render pass.
#[derive(Debug)]
pub struct RenderTargets {
    image_count: u32,
    framebuffers: HashMap<usize, Vec<FramebufferId>>,
    held: Vec<FramebufferId>,
}

/// Render targets as plain values.
pub struct TargetsView {
    /// Number of images of the chain.
    pub image_count: u32,
    /// The framebuffers of each pass that has any, one for each image.
    pub passes: Map<usize, Seq<FramebufferId>>,
    /// Every framebuffer that is kept, in the order in which they were
    /// created: the order in which they are given back.
    pub held: Seq<FramebufferId>,
}

/// The framebuffers of `held` that are not among `released`, in their order.
pub open spec fn without(held: Seq<FramebufferId>, released: Seq<FramebufferId>) -> Seq<
    FramebufferId,
>
    decreases held.len(),
{
    if held.len() == 0 {
        Seq::empty()
    } else if released.contains(held.last()) {
        without(held.drop_last(), released)
    } else {
        without(held.drop_last(), released).push(held.last())
    }
}

impl TargetsView {
    /// The framebuffers of a pass, where it has any.
    pub open spec fn framebuffers(self, pass_key: usize) -> Option<Seq<FramebufferId>> {
        if self.passes.contains_key(pass_key) {
            Some(self.passes[pass_key])
        } else {
            None
        }
    }

    /// The targets after a pass got new framebuffers: they are those of the
    /// pass, and they are kept behind the others in place of those the pass
    /// had.
    pub open spec fn with_pass(self, pass_key: usize, framebuffers: Seq<FramebufferId>) -> TargetsView {
        TargetsView {
            image_count: self.image_count,
            passes: self.passes.insert(pass_key, framebuffers),
            held: match self.framebuffers(pass_key) {
                Some(replaced) => without(self.held, replaced),
                None => self.held,
            } + framebuffers,
        }
    }

    /// Every framebuffer that is kept, in the order of their creation.
    pub open spec fn all_framebuffers(self) -> Seq<FramebufferId> {
        self.held
    }

    /// Targets for `image_count` images without any framebuffer.
    pub open spec fn none(image_count: u32) -> TargetsView {
        TargetsView { image_count, passes: Map::empty(), held: Seq::empty() }
    }

    /// Targets for `image_count` images in which one pass has framebuffers
    /// and no other.
    pub open spec fn only(image_count: u32, pass_key: usize, framebuffers: Seq<FramebufferId>) -> TargetsView {
        TargetsView {
            image_count,
            passes: Map::empty().insert(pass_key, framebuffers),
            held: framebuffers,
        }
    }
}

/// The first pass that gets framebuffers is the only one that has any.
pub proof fn lemma_first_pass(image_count: u32, pass_key: usize, framebuffers: Seq<FramebufferId>)
    ensures
        TargetsView::none(image_count).with_pass(pass_key, framebuffers) == TargetsView::only(
            image_count,
            pass_key,
            framebuffers,
        ),
        TargetsView::only(image_count, pass_key, framebuffers).framebuffers(pass_key) == Some(
            framebuffers,
        ),
{
    let first = TargetsView::none(image_count).with_pass(pass_key, framebuffers);
    assert(first.held =~= framebuffers);
}

/// One release for each framebuffer, in order.
pub open spec fn framebuffer_releases(framebuffers: Seq<FramebufferId>) -> Seq<ApiCall> {
    Seq::new(
        framebuffers.len(),
        |i: int| ApiCall::ReleaseFramebuffer { framebuffer: framebuffers[i] },
    )
}

/// One creation for each framebuffer of a pass, image after image, and a
/// failed one after them where `failed`.
pub open spec fn framebuffer_creations(
    pipeline: PipelineId,
    depth: Option<ImageId>,
    framebuffers: Seq<FramebufferId>,
    failed: bool,
) -> Seq<ApiCall> {
    Seq::new(
        if failed {
            framebuffers.len() + 1
        } else {
            framebuffers.len()
        },
        |i: int|
            ApiCall::CreateFramebuffer {
                pipeline,
                image: i as u32,
                depth,
                id: if i < framebuffers.len() {
                    Some(framebuffers[i])
                } else {
                    None
                },
            },
    )
}

/// The calls that rebuild the framebuffers of a pass: the creations, then
/// the release of what the pass had where all were created, and of what was
/// created where one was not.
pub open spec fn rebuild_calls(
    pipeline: PipelineId,
    depth: Option<ImageId>,
    created: Seq<FramebufferId>,
    ok: bool,
    replaced: Option<Seq<FramebufferId>>,
) -> Seq<ApiCall> {
    framebuffer_creations(pipeline, depth, created, !ok) + framebuffer_releases(
        if ok {
            match replaced {
                Some(replaced) => replaced,
                None => Seq::empty(),
            }
        } else {
            created
        },
    )
}

impl View for RenderTargets {
    type V = TargetsView;

    closed spec fn view(&self) -> TargetsView {
        TargetsView {
            image_count: self.image_count,
            passes: Map::new(
                |pass_key: usize| self.framebuffers@.contains_key(pass_key),
                |pass_key: usize| self.framebuffers@[pass_key]@,
            ),
            held: self.held@,
        }
    }
}

impl RenderTargets {
    /// Targets for a chain of `image_count` images, without any framebuffer.
    pub fn new(image_count: u32) -> (targets: RenderTargets)
        ensures
            targets@ == TargetsView::none(image_count),
    {
        let targets = RenderTargets { image_count, framebuffers: HashMap::new(), held: Vec::new() };
        assert(targets@.passes =~= Map::empty());
        targets
    }

    /// Number of images of the chain.
    pub fn image_count(&self) -> (count: u32)
        ensures
            count == self@.image_count,
    {
        self.image_count
    }

    /// The framebuffers of a pass, one for each image, where the pass has
    /// any.
    pub fn framebuffers(&self, pass_key: usize) -> (r: Option<&Vec<FramebufferId>>)
        ensures
            match r {
                Some(framebuffers) => self@.framebuffers(pass_key) == Some(framebuffers@),
                None => self@.framebuffers(pass_key).is_none(),
            },
    {
        self.framebuffers.get(&pass_key)
    }

    /// Creates the framebuffers of a pass, one for each image in order, each
    /// for the render pass of the pipeline and with the depth target where
    /// there is one, in place of those the pass had.
    ///
    /// Where a creation fails, the framebuffers created before it are
    /// released and the pass keeps what it had. Where all are created, the
    /// framebuffers that the pass had are released.
    #[verifier::loop_isolation(false)]
    pub fn rebuild_for_pass<G: GraphicsApi>(
        &mut self,
        api: &mut Gpu<G>,
        pass_key: usize,
        pipeline: PipelineId,
        depth: Option<ImageId>,
    ) -> (ok: bool)
        ensures
            final(self)@.image_count == old(self)@.image_count,
            exists|created: Seq<FramebufferId>|
                {
                    &&& created.len() <= old(self)@.image_count
                    &&& ok == (created.len() == old(self)@.image_count)
                    &&& final(api).calls() == old(api).calls() + #[trigger] rebuild_calls(
                        pipeline,
                        depth,
                        created,
                        ok,
                        old(self)@.framebuffers(pass_key),
                    )
                    &&& ok ==> final(self)@ == old(self)@.with_pass(pass_key, created)
                },
            !ok ==> final(self)@ == old(self)@,
    {
        let ghost before = api.calls();
        let mut created: Vec<FramebufferId> = Vec::new();
        let mut image: u32 = 0;
        assert(api.calls() =~= before + framebuffer_creations(pipeline, depth, created@, false));
        while image < self.image_count
            invariant
                image <= self.image_count,
                created.len() == image,
                *self == *old(self),
                api.calls() == before + framebuffer_creations(pipeline, depth, created@, false),
            decreases self.image_count - image,
        {
            let ghost earlier = created@;
            match api.create_framebuffer(pipeline, image, depth) {
                Some(framebuffer) => {
                    created.push(framebuffer);
                    assert(framebuffer_creations(pipeline, depth, created@, false)
                        =~= framebuffer_creations(pipeline, depth, earlier, false).push(
                        ApiCall::CreateFramebuffer {
                            pipeline,
                            image,
                            depth,
                            id: Some(framebuffer),
                        },
                    ));
                    assert(api.calls() =~= before + framebuffer_creations(
                        pipeline,
                        depth,
                        created@,
                        false,
                    ));
                },
                None => {
                    assert(framebuffer_creations(pipeline, depth, earlier, true) =~= framebuffer_creations(
                        pipeline,
                        depth,
                        earlier,
                        false,
                    ).push(ApiCall::CreateFramebuffer { pipeline, image, depth, id: None }));
                    release_framebuffers(api, &created);
                    assert(api.calls() =~= before + rebuild_calls(
                        pipeline,
                        depth,
                        created@,
                        false,
                        old(self)@.framebuffers(pass_key),
                    ));
                    return false;
                },
            }
            image += 1;
        }
        let ghost kept = created@;
        let ghost made = api.calls();
        match self.framebuffers.remove(&pass_key) {
            Some(replaced) => {
                release_framebuffers(api, &replaced);
                self.held = kept_without(&self.held, &replaced);
                assert(old(self)@.framebuffers(pass_key) == Some(replaced@));
            },
            None => {
                assert(old(self)@.framebuffers(pass_key).is_none());
                assert(api.calls() =~= made + framebuffer_releases(Seq::empty()));
            },
        }
        assert(api.calls() =~= before + rebuild_calls(
            pipeline,
            depth,
            kept,
            true,
            old(self)@.framebuffers(pass_key),
        ));
        keep_all(&mut self.held, &created);
        self.framebuffers.insert(pass_key, created);
        proof {
            let told = old(self)@.with_pass(pass_key, kept);
            assert(self@.passes =~= told.passes);
            assert(self@.held =~= told.held);
        }
        true
    }

    /// Takes note that the chain has new images: every framebuffer is
    /// released, in the order of their creation, and no pass has any
    /// afterwards.
    pub fn replace_images<G: GraphicsApi>(&mut self, api: &mut Gpu<G>, image_count: u32)
        ensures
            final(self)@ == TargetsView::none(image_count),
            final(api).calls() == old(api).calls() + framebuffer_releases(
                old(self)@.all_framebuffers(),
            ),
    {
        release_framebuffers(api, &self.held);
        self.framebuffers.clear();
        self.held.clear();
        self.image_count = image_count;
        assert(self@.passes =~= Map::empty());
    }
}

/// The framebuffers of `held` that are not among `released`, in their order.
fn kept_without(held: &Vec<FramebufferId>, released: &Vec<FramebufferId>) -> (kept: Vec<
    FramebufferId,
>)
    ensures
        kept@ == without(held@, released@),
{
    let mut kept: Vec<FramebufferId> = Vec::new();
    let mut i: usize = 0;
    assert(held@.take(0) =~= Seq::empty());
    while i < held.len()
        invariant
            i <= held.len(),
            kept@ == without(held@.take(i as int), released@),
        decreases held.len() - i,
    {
        let framebuffer = held[i];
        let among = is_among(released, framebuffer);
        if !among {
            kept.push(framebuffer);
        }
        i += 1;
        assert(held@.take(i as int).drop_last() =~= held@.take(i - 1));
    }
    assert(held@.take(i as int) =~= held@);
    kept
}

/// Whether a framebuffer is among others.
fn is_among(framebuffers: &Vec<FramebufferId>, framebuffer: FramebufferId) -> (among: bool)
    ensures
        among == framebuffers@.contains(framebuffer),
{
    let mut i: usize = 0;
    while i < framebuffers.len()
        invariant
            i <= framebuffers.len(),
            forall|earlier: int| 0 <= earlier < i ==> framebuffers@[earlier] != framebuffer,
        decreases framebuffers.len() - i,
    {
        if framebuffers[i] == framebuffer {
            return true;
        }
        i += 1;
    }
    false
}

/// Keeps framebuffers behind those that are kept.
fn keep_all(held: &mut Vec<FramebufferId>, framebuffers: &Vec<FramebufferId>)
    ensures
        final(held)@ == old(held)@ + framebuffers@,
{
    let mut i: usize = 0;
    assert(held@ =~= old(held)@ + framebuffers@.take(0));
    while i < framebuffers.len()
        invariant
            i <= framebuffers.len(),
            held@ == old(held)@ + framebuffers@.take(i as int),
        decreases framebuffers.len() - i,
    {
        held.push(framebuffers[i]);
        i += 1;
        assert(held@ =~= old(held)@ + framebuffers@.take(i as int));
    }
    assert(framebuffers@.take(i as int) =~= framebuffers@);
}

/// Releases framebuffers in order.
fn release_framebuffers<G: GraphicsApi>(api: &mut Gpu<G>, framebuffers: &Vec<FramebufferId>)
    ensures
        final(api).calls() == old(api).calls() + framebuffer_releases(framebuffers@),
{
    let ghost before = api.calls();
    let mut i: usize = 0;
    assert(api.calls() =~= before + framebuffer_releases(framebuffers@.take(0)));
    while i < framebuffers.len()
        invariant
            i <= framebuffers.len(),
            api.calls() == before + framebuffer_releases(framebuffers@.take(i as int)),
        decreases framebuffers.len() - i,
    {
        api.release_framebuffer(framebuffers[i]);
        i += 1;
        assert(framebuffer_releases(framebuffers@.take(i as int)) =~= framebuffer_releases(
            framebuffers@.take(i - 1),
        ).push(ApiCall::ReleaseFramebuffer { framebuffer: framebuffers@[i - 1] }));
        assert(api.calls() =~= before + framebuffer_releases(framebuffers@.take(i as int)));
    }
    assert(framebuffers@.take(i as int) =~= framebuffers@);
}

} // verus!
