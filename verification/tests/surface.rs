use elements::extent::Extent;
use elements::surface::{
    choose_format, choose_present_mode, plan_chain, ChainError, ChainPlan, ColorFormat,
    ColorSpace, CompositeAlpha, PresentMode, SurfaceFormat, SurfaceSupport,
};

fn format(format: ColorFormat, color_space: ColorSpace) -> SurfaceFormat {
    SurfaceFormat { format, color_space }
}

fn support() -> SurfaceSupport {
    SurfaceSupport {
        min_image_count: 3,
        formats: vec![
            format(ColorFormat::Bgra8Unorm, ColorSpace::SrgbNonLinear),
            format(ColorFormat::Rgba8Srgb, ColorSpace::Other),
            format(ColorFormat::Rgba8Srgb, ColorSpace::SrgbNonLinear),
            format(ColorFormat::Rgba8Srgb, ColorSpace::SrgbNonLinear),
        ],
        present_modes: vec![PresentMode::Fifo, PresentMode::Immediate, PresentMode::Mailbox],
        composite_alpha: vec![CompositeAlpha::PreMultiplied, CompositeAlpha::Opaque],
    }
}

const SIZE: Extent = Extent { width: 800, height: 600 };

#[test]
fn chain_prefers_srgb_and_mailbox() {
    assert_eq!(
        plan_chain(&support(), SIZE, 2),
        Ok(ChainPlan {
            min_image_count: 3,
            format: 2,
            extent: SIZE,
            present_mode: PresentMode::Mailbox,
            composite_alpha: CompositeAlpha::PreMultiplied,
        })
    );
}

#[test]
fn chain_has_an_image_for_each_frame_in_flight() {
    let mut few = support();
    few.min_image_count = 1;
    assert_eq!(plan_chain(&few, SIZE, 2).unwrap().min_image_count, 2);
    assert_eq!(plan_chain(&few, SIZE, 1).unwrap().min_image_count, 1);
    assert_eq!(plan_chain(&support(), SIZE, 3).unwrap().min_image_count, 3);
    assert_eq!(plan_chain(&support(), SIZE, 5).unwrap().min_image_count, 5);
}

#[test]
fn chain_falls_back_to_first_format_and_fifo() {
    let plain = SurfaceSupport {
        min_image_count: 2,
        formats: vec![
            format(ColorFormat::Bgra8Srgb, ColorSpace::SrgbNonLinear),
            format(ColorFormat::Other, ColorSpace::Other),
        ],
        present_modes: vec![PresentMode::Immediate, PresentMode::FifoRelaxed],
        composite_alpha: vec![CompositeAlpha::Opaque],
    };
    let plan = plan_chain(&plain, SIZE, 2).unwrap();
    assert_eq!(plan.format, 0);
    assert_eq!(plan.present_mode, PresentMode::Fifo);
    assert_eq!(plan.composite_alpha, CompositeAlpha::Opaque);
    assert_eq!(choose_present_mode(&Vec::new()), PresentMode::Fifo);
}

#[test]
fn surface_without_format_is_refused() {
    let mut none = support();
    none.formats.clear();
    assert_eq!(plan_chain(&none, SIZE, 2), Err(ChainError::NoFormat));
    none.composite_alpha.clear();
    assert_eq!(plan_chain(&none, SIZE, 2), Err(ChainError::NoFormat));
    assert_eq!(choose_format(&Vec::new()), None);
}

#[test]
fn surface_without_alpha_treatment_is_refused() {
    let mut none = support();
    none.composite_alpha.clear();
    assert_eq!(plan_chain(&none, SIZE, 2), Err(ChainError::NoCompositeAlpha));
}

#[test]
fn rebuilding_at_the_same_size_twice_changes_nothing_more() {
    let plan = plan_chain(&support(), SIZE, 2).unwrap();
    let size = Extent { width: 1024, height: 768 };
    let once = plan.resized(size);
    let twice = once.resized(size);
    assert_eq!(once, twice);
    assert_eq!(once.extent, size);
    assert_eq!(once.min_image_count, plan.min_image_count);
    assert_eq!(once.format, plan.format);
    assert_eq!(once.present_mode, plan.present_mode);
}

#[test]
fn preferred_pair_is_srgb_in_nonlinear_space() {
    assert!(format(ColorFormat::Rgba8Srgb, ColorSpace::SrgbNonLinear).is_preferred());
    assert!(!format(ColorFormat::Rgba8Srgb, ColorSpace::Other).is_preferred());
    assert!(!format(ColorFormat::Bgra8Srgb, ColorSpace::SrgbNonLinear).is_preferred());
    assert!(!format(ColorFormat::Rgba8Unorm, ColorSpace::SrgbNonLinear).is_preferred());
}
