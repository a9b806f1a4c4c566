//! The presentation chain: the ring of images that the surface cycles
//! through.

use crate::api::{ApiCall, Gpu, GraphicsApi};
use crate::extent::Extent;
use crate::frame::AcquireOutcome;
use crate::surface::{plan_chain, ChainError, ChainPlan, SurfaceFormat, SurfaceSupport};
use vstd::prelude::*;

verus! {

/// A presentation chain and what it was made with.
#[derive(Clone, Copy, Debug, PartialEq, Eq, Structural)]
pub struct VulkanSwapchain {
    plan: ChainPlan,
    format: SurfaceFormat,
    image_count: u32,
}

/// A presentation chain as plain values.
pub struct SwapchainView {
    /// The configuration the chain was last built with.
    pub plan: ChainPlan,
    /// Format and colour space of its images.
    pub format: SurfaceFormat,
    /// Number of its images.
    pub image_count: u32,
}

impl View for VulkanSwapchain {
    type V = SwapchainView;

    closed spec fn view(&self) -> SwapchainView {
        SwapchainView { plan: self.plan, format: self.format, image_count: self.image_count }
    }
}

impl VulkanSwapchain {
    /// Creates the presentation chain for a surface of the given support, at
    /// the size of the window and for `frames_in_flight` frames in flight.
    ///
    /// The chain is planned as `plan_chain` says; a surface that it refuses
    /// is refused here with the same error, before the device is asked.
    /// Where the device fails to create the chain the error is `Device`.
    pub fn new<G: GraphicsApi>(
        api: &mut Gpu<G>,
        support: &SurfaceSupport,
        window_size: Extent,
        frames_in_flight: u32,
    ) -> (r: Result<VulkanSwapchain, ChainError>)
        ensures
            match r {
                Ok(chain) => {
                    &&& chain@.plan.is_for(*support, window_size, frames_in_flight)
                    &&& chain@.format == support.formats@[chain@.plan.format as int]
                    &&& final(api).calls() == old(api).calls().push(
                        ApiCall::CreateChain { plan: chain@.plan, images: Some(chain@.image_count) },
                    )
                },
                Err(ChainError::NoFormat) => {
                    &&& support.formats.len() == 0
                    &&& final(api).calls() == old(api).calls()
                },
                Err(ChainError::NoCompositeAlpha) => {
                    &&& support.formats.len() > 0
                    &&& support.composite_alpha.len() == 0
                    &&& final(api).calls() == old(api).calls()
                },
                Err(ChainError::Device) => exists|plan: ChainPlan|
                    {
                        &&& #[trigger] plan.is_for(*support, window_size, frames_in_flight)
                        &&& final(api).calls() == old(api).calls().push(
                            ApiCall::CreateChain { plan, images: None },
                        )
                    },
            },
    {
        let plan = match plan_chain(support, window_size, frames_in_flight) {
            Ok(plan) => plan,
            Err(e) => {
                return Err(e);
            },
        };
        match api.create_chain(plan) {
            Some(image_count) => Ok(
                VulkanSwapchain { plan, format: support.formats[plan.format], image_count },
            ),
            None => Err(ChainError::Device),
        }
    }

    /// Rebuilds the chain at a new size. Everything but the extent is kept
    /// as the chain was planned. Where the device fails the chain stays as
    /// it is.
    pub fn recreate<G: GraphicsApi>(&mut self, api: &mut Gpu<G>, window_size: Extent) -> (r: Result<
        (),
        ChainError,
    >)
        ensures
            final(api).calls() == old(api).calls().push(
                ApiCall::RecreateChain {
                    plan: old(self)@.plan.spec_resized(window_size),
                    images: if r is Ok {
                        Some(final(self)@.image_count)
                    } else {
                        None
                    },
                },
            ),
            match r {
                Ok(_) => final(self)@ == old(self)@.recreated(window_size, final(self)@.image_count),
                Err(e) => e == ChainError::Device && final(self)@ == old(self)@,
            },
    {
        let plan = self.plan.resized(window_size);
        match api.recreate_chain(plan) {
            Some(image_count) => {
                self.plan = plan;
                self.image_count = image_count;
                Ok(())
            },
            None => Err(ChainError::Device),
        }
    }

    /// Acquires the next image to render into.
    pub fn acquire_next_image<G: GraphicsApi>(&self, api: &mut Gpu<G>) -> (outcome: AcquireOutcome)
        ensures
            final(api).calls() == old(api).calls().push(ApiCall::AcquireImage { outcome }),
    {
        api.acquire_image()
    }

    /// Extent of the images: the output resolution.
    pub fn extent(&self) -> (extent: Extent)
        ensures
            extent == self@.plan.extent,
    {
        self.plan.extent
    }

    /// Format and colour space of the images.
    pub fn format(&self) -> (format: SurfaceFormat)
        ensures
            format == self@.format,
    {
        self.format
    }

    /// Number of images.
    pub fn image_count(&self) -> (count: u32)
        ensures
            count == self@.image_count,
    {
        self.image_count
    }

    /// The configuration the chain was last built with.
    pub fn plan(&self) -> (plan: ChainPlan)
        ensures
            plan == self@.plan,
    {
        self.plan
    }
}

impl SwapchainView {
    /// The chain after it was rebuilt at `size` and got `images` images.
    pub open spec fn recreated(self, size: Extent, images: u32) -> SwapchainView {
        SwapchainView { plan: self.plan.spec_resized(size), image_count: images, ..self }
    }
}

/// Rebuilding at the same size twice yields the same chain both times: where
/// the device hands out as many images the second time as the first, the
/// chain after the second rebuild is the chain after the first, with the
/// extent asked for; and the second rebuild asks the device for exactly what
/// the first asked for.
pub proof fn lemma_recreate_is_idempotent(chain: SwapchainView, size: Extent, images: u32)
    ensures
        chain.recreated(size, images).recreated(size, images) == chain.recreated(size, images),
        chain.recreated(size, images).plan.extent == size,
        chain.recreated(size, images).image_count == images,
        chain.recreated(size, images).plan.spec_resized(size) == chain.plan.spec_resized(size),
{
}

} // verus!
