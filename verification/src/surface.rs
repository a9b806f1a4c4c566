//! How the presentation chain is configured for a surface.

use crate::extent::Extent;
use vstd::prelude::*;

verus! {

/// Pixel format of a presentable image, as far as the choice tells formats
/// apart.
#[derive(Clone, Copy, Debug, PartialEq, Eq, Structural)]
pub enum ColorFormat {
    /// Four 8-bit channels in the order red, green, blue, alpha, sRGB encoded.
    Rgba8Srgb,
    /// Four 8-bit channels in the order blue, green, red, alpha, sRGB encoded.
    Bgra8Srgb,
    /// Four 8-bit channels in the order red, green, blue, alpha, linear.
    Rgba8Unorm,
    /// Four 8-bit channels in the order blue, green, red, alpha, linear.
    Bgra8Unorm,
    /// Any other format.
    Other,
}

/// Colour space in which a surface reads its images.
#[derive(Clone, Copy, Debug, PartialEq, Eq, Structural)]
pub enum ColorSpace {
    SrgbNonLinear,
    /// Any other colour space.
    Other,
}

/// One pair of format and colour space that a surface accepts.
#[derive(Clone, Copy, Debug, PartialEq, Eq, Structural)]
pub struct SurfaceFormat {
    pub format: ColorFormat,
    pub color_space: ColorSpace,
}

impl SurfaceFormat {
    /// The preferred pair: 8-bit sRGB in the non-linear sRGB colour space.
    pub open spec fn preferred(self) -> bool {
        self.format == ColorFormat::Rgba8Srgb && self.color_space == ColorSpace::SrgbNonLinear
    }

    /// Whether this is the preferred pair.
    pub fn is_preferred(&self) -> (r: bool)
        ensures
            r == self.preferred(),
    {
        self.format == ColorFormat::Rgba8Srgb && self.color_space == ColorSpace::SrgbNonLinear
    }
}

/// How images are queued for presentation.
#[derive(Clone, Copy, Debug, PartialEq, Eq, Structural)]
pub enum PresentMode {
    Immediate,
    /// A single-entry queue whose entry is replaced: low latency, no tearing.
    Mailbox,
    /// A strict first-in first-out queue; always available.
    Fifo,
    FifoRelaxed,
    /// Any other mode.
    Other,
}

/// How the alpha channel of a presented image is treated.
#[derive(Clone, Copy, Debug, PartialEq, Eq, Structural)]
pub enum CompositeAlpha {
    Opaque,
    PreMultiplied,
    PostMultiplied,
    Inherit,
}

/// What a surface supports, as queried from the device.
#[derive(Debug)]
pub struct SurfaceSupport {
    /// The smallest number of images the driver accepts.
    pub min_image_count: u32,
    /// Accepted pairs of format and colour space, in the driver's order.
    pub formats: Vec<SurfaceFormat>,
    /// Available present modes, in the driver's order.
    pub present_modes: Vec<PresentMode>,
    /// Supported alpha treatments, in the driver's order.
    pub composite_alpha: Vec<CompositeAlpha>,
}

/// The configuration a presentation chain is created with.
#[derive(Clone, Copy, Debug, PartialEq, Eq, Structural)]
pub struct ChainPlan {
    /// The least number of images asked for.
    pub min_image_count: u32,
    /// Index of the chosen pair in `SurfaceSupport::formats`.
    pub format: usize,
    /// Extent of the images.
    pub extent: Extent,
    pub present_mode: PresentMode,
    pub composite_alpha: CompositeAlpha,
}

/// Why no chain can be planned or built.
#[derive(Clone, Copy, Debug, PartialEq, Eq, Structural)]
pub enum ChainError {
    /// The surface accepts no format.
    NoFormat,
    /// The surface supports no alpha treatment.
    NoCompositeAlpha,
    /// The device refused a query or the creation of the chain.
    Device,
}

/// `i` is the lowest index of a preferred pair.
pub open spec fn is_first_preferred(formats: Seq<SurfaceFormat>, i: int) -> bool {
    &&& 0 <= i < formats.len()
    &&& formats[i].preferred()
    &&& forall|j: int| 0 <= j < i ==> !(#[trigger] formats[j]).preferred()
}

/// No pair is the preferred one.
pub open spec fn none_preferred(formats: Seq<SurfaceFormat>) -> bool {
    forall|j: int| 0 <= j < formats.len() ==> !(#[trigger] formats[j]).preferred()
}

/// The index of the format to use: the first preferred pair, else the first
/// pair of all.
pub open spec fn is_chosen_format(formats: Seq<SurfaceFormat>, i: int) -> bool {
    is_first_preferred(formats, i) || (none_preferred(formats) && i == 0 && formats.len() > 0)
}

/// The present mode to use: `Mailbox` where it is available, else `Fifo`.
pub open spec fn chosen_present_mode(modes: Seq<PresentMode>) -> PresentMode {
    if modes.contains(PresentMode::Mailbox) {
        PresentMode::Mailbox
    } else {
        PresentMode::Fifo
    }
}

/// The number of images to ask for: the driver's minimum, but at least one
/// for each frame in flight.
pub open spec fn chosen_image_count(driver_minimum: u32, frames_in_flight: u32) -> u32 {
    if driver_minimum >= frames_in_flight {
        driver_minimum
    } else {
        frames_in_flight
    }
}

impl ChainPlan {
    /// The plan is the one for the given surface, size and frames in flight.
    pub open spec fn is_for(self, support: SurfaceSupport, size: Extent, frames_in_flight: u32) -> bool {
        &&& self.min_image_count == chosen_image_count(support.min_image_count, frames_in_flight)
        &&& is_chosen_format(support.formats@, self.format as int)
        &&& self.extent == size
        &&& self.present_mode == chosen_present_mode(support.present_modes@)
        &&& support.composite_alpha.len() > 0
        &&& self.composite_alpha == support.composite_alpha@[0]
    }

    /// The plan with another extent and nothing else changed.
    pub open spec fn spec_resized(self, size: Extent) -> ChainPlan {
        ChainPlan { extent: size, ..self }
    }

    /// The plan for rebuilding the chain at another size: the extent changes,
    /// everything else is kept.
    #[verifier::when_used_as_spec(spec_resized)]
    pub fn resized(self, size: Extent) -> (plan: ChainPlan)
        ensures
            plan == self.spec_resized(size),
    {
        ChainPlan { extent: size, ..self }
    }
}

/// The first preferred pair of format and colour space, else the first pair.
/// `None` where the surface accepts no pair at all.
pub fn choose_format(formats: &Vec<SurfaceFormat>) -> (r: Option<usize>)
    ensures
        match r {
            Some(i) => is_chosen_format(formats@, i as int),
            None => formats.len() == 0,
        },
{
    let mut i: usize = 0;
    while i < formats.len()
        invariant
            i <= formats.len(),
            forall|j: int| 0 <= j < i ==> !(#[trigger] formats@[j]).preferred(),
        decreases formats.len() - i,
    {
        if formats[i].is_preferred() {
            return Some(i);
        }
        i += 1;
    }
    if formats.len() > 0 {
        Some(0)
    } else {
        None
    }
}

/// `Mailbox` where the surface offers it, else `Fifo`.
pub fn choose_present_mode(modes: &Vec<PresentMode>) -> (mode: PresentMode)
    ensures
        mode == chosen_present_mode(modes@),
{
    let mut i: usize = 0;
    while i < modes.len()
        invariant
            i <= modes.len(),
            forall|j: int| 0 <= j < i ==> modes@[j] != PresentMode::Mailbox,
        decreases modes.len() - i,
    {
        if modes[i] == PresentMode::Mailbox {
            return PresentMode::Mailbox;
        }
        i += 1;
    }
    PresentMode::Fifo
}

/// Plans the presentation chain for a surface.
///
/// The chain gets the first preferred format, else the first the surface
/// accepts; at least as many images as the driver demands and as there are
/// frames in flight; `Mailbox` presentation where available, else `Fifo`;
/// and the first alpha treatment the surface supports. A surface without any
/// format is refused with `NoFormat`, one with formats but without an alpha
/// treatment with `NoCompositeAlpha`.
pub fn plan_chain(support: &SurfaceSupport, size: Extent, frames_in_flight: u32) -> (r: Result<
    ChainPlan,
    ChainError,
>)
    ensures
        match r {
            Ok(plan) => plan.is_for(*support, size, frames_in_flight),
            Err(e) => e == if support.formats.len() == 0 {
                ChainError::NoFormat
            } else {
                ChainError::NoCompositeAlpha
            } && (support.formats.len() == 0 || support.composite_alpha.len() == 0),
        },
{
    let format = match choose_format(&support.formats) {
        Some(format) => format,
        None => {
            return Err(ChainError::NoFormat);
        },
    };
    if support.composite_alpha.len() == 0 {
        return Err(ChainError::NoCompositeAlpha);
    }
    let min_image_count = if support.min_image_count >= frames_in_flight {
        support.min_image_count
    } else {
        frames_in_flight
    };
    Ok(
        ChainPlan {
            min_image_count,
            format,
            extent: size,
            present_mode: choose_present_mode(&support.present_modes),
            composite_alpha: support.composite_alpha[0],
        },
    )
}

/// Rebuilding at the same size twice gives the same chain both times: the
/// same extent, the same number of images asked for, and nothing else
/// changed either.
pub proof fn lemma_resize_is_idempotent(plan: ChainPlan, size: Extent)
    ensures
        plan.spec_resized(size).spec_resized(size) == plan.spec_resized(size),
        plan.spec_resized(size).extent == size,
        plan.spec_resized(size).min_image_count == plan.min_image_count,
        plan.spec_resized(size).format == plan.format,
        plan.spec_resized(size).present_mode == plan.present_mode,
        plan.spec_resized(size).composite_alpha == plan.composite_alpha,
{
}

/// The plan of a surface is unique: two plans for the same surface, size and
/// frames in flight are equal.
pub proof fn lemma_plan_is_unique(
    a: ChainPlan,
    b: ChainPlan,
    support: SurfaceSupport,
    size: Extent,
    frames_in_flight: u32,
)
    requires
        a.is_for(support, size, frames_in_flight),
        b.is_for(support, size, frames_in_flight),
    ensures
        a == b,
{
    if is_first_preferred(support.formats@, a.format as int) {
        if is_first_preferred(support.formats@, b.format as int) {
            if a.format < b.format {
                assert(!support.formats@[a.format as int].preferred());
            } else if b.format < a.format {
                assert(!support.formats@[b.format as int].preferred());
            }
        } else {
            assert(!support.formats@[a.format as int].preferred());
        }
    } else if is_first_preferred(support.formats@, b.format as int) {
        assert(!support.formats@[b.format as int].preferred());
    }
}

} // verus!
