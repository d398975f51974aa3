//! The parameters a swapchain is created with, from what the surface
//! reports and the size of the window.

use vstd::prelude::*;

verus! {

/// How the alpha values of the presented pixels are treated, in the order
/// in which a set of them is walked.
#[derive(Clone, Copy, PartialEq, Eq, Structural, Debug)]
pub enum CompositeAlpha {
    Opaque,
    PreMultiplied,
    PostMultiplied,
    Inherit,
}

/// The bit of a composite alpha mode in a raw set of modes.
pub open spec fn composite_alpha_bit(alpha: CompositeAlpha) -> u32 {
    match alpha {
        CompositeAlpha::Opaque => 1,
        CompositeAlpha::PreMultiplied => 2,
        CompositeAlpha::PostMultiplied => 4,
        CompositeAlpha::Inherit => 8,
    }
}

/// Whether the raw set `supported` holds `alpha`.
pub open spec fn alpha_supported(supported: u32, alpha: CompositeAlpha) -> bool {
    (supported & composite_alpha_bit(alpha)) != 0
}

/// The first mode of the raw set `supported`, walking Opaque,
/// PreMultiplied, PostMultiplied, Inherit; `None` when it holds none.
pub open spec fn first_supported_alpha(supported: u32) -> Option<CompositeAlpha> {
    if alpha_supported(supported, CompositeAlpha::Opaque) {
        Some(CompositeAlpha::Opaque)
    } else if alpha_supported(supported, CompositeAlpha::PreMultiplied) {
        Some(CompositeAlpha::PreMultiplied)
    } else if alpha_supported(supported, CompositeAlpha::PostMultiplied) {
        Some(CompositeAlpha::PostMultiplied)
    } else if alpha_supported(supported, CompositeAlpha::Inherit) {
        Some(CompositeAlpha::Inherit)
    } else {
        None
    }
}

/// The raw image usage bit for use as a colour attachment.
pub const IMAGE_USAGE_COLOR_ATTACHMENT: u32 = 0x10;

/// What the swapchain set-up reads of the surface's capabilities.
#[derive(Clone, Copy, PartialEq, Eq, Structural, Debug)]
pub struct SurfaceCapabilitiesInfo {
    /// The least number of images a swapchain on this surface may have.
    pub min_image_count: u32,
    /// The raw set of composite alpha modes the surface supports.
    pub supported_composite_alpha: u32,
}

/// The parameters of a new swapchain.
#[derive(Clone, Copy, Debug)]
pub struct SwapchainPlan<F> {
    pub min_image_count: u32,
    pub image_format: F,
    /// Width and height of the images.
    pub image_extent: [u32; 2],
    /// The raw usage of the images: colour attachments.
    pub image_usage: u32,
    pub composite_alpha: CompositeAlpha,
}

/// The least image count a swapchain is asked for: what the surface
/// requires, and never fewer than two images.
pub open spec fn planned_image_count(surface_min: u32) -> u32 {
    if surface_min < 2 {
        2
    } else {
        surface_min
    }
}

/// The first composite alpha mode of the raw set `supported`, as walking
/// the set yields them.
pub fn first_composite_alpha(supported: u32) -> (res: Option<CompositeAlpha>)
    ensures
        res == first_supported_alpha(supported),
{
    if (supported & 1) != 0 {
        Some(CompositeAlpha::Opaque)
    } else if (supported & 2) != 0 {
        Some(CompositeAlpha::PreMultiplied)
    } else if (supported & 4) != 0 {
        Some(CompositeAlpha::PostMultiplied)
    } else if (supported & 8) != 0 {
        Some(CompositeAlpha::Inherit)
    } else {
        None
    }
}

/// `plan` holds the parameters for a surface with `capabilities` whose
/// first offered format is `format`, and a window of the given size.
pub open spec fn is_swapchain_plan<F>(
    plan: SwapchainPlan<F>,
    capabilities: SurfaceCapabilitiesInfo,
    format: F,
    window_width: u32,
    window_height: u32,
) -> bool {
    &&& plan.min_image_count == planned_image_count(capabilities.min_image_count)
    &&& plan.image_format == format
    &&& plan.image_extent@ == seq![window_width, window_height]
    &&& plan.image_usage == IMAGE_USAGE_COLOR_ATTACHMENT
    &&& plan.composite_alpha == first_supported_alpha(
        capabilities.supported_composite_alpha,
    ).unwrap()
}

/// The parameters of the swapchain for a window of the given size: at
/// least two images (more if the surface needs them), the first format the
/// surface offers, the window's size as extent, images used as colour
/// attachments, and the first supported composite alpha mode.
pub fn plan_swapchain<F: Copy, C: Copy>(
    capabilities: &SurfaceCapabilitiesInfo,
    formats: &Vec<(F, C)>,
    window_width: u32,
    window_height: u32,
) -> (plan: SwapchainPlan<F>)
    requires
        formats@.len() > 0,
        first_supported_alpha(capabilities.supported_composite_alpha) is Some,
    ensures
        is_swapchain_plan(plan, *capabilities, formats@[0].0, window_width, window_height),
{
    let min_image_count = capabilities.min_image_count.max(2);
    let image_format = formats[0].0;
    let composite_alpha = first_composite_alpha(capabilities.supported_composite_alpha).unwrap();
    let image_extent = [window_width, window_height];
    assert(image_extent@ =~= seq![window_width, window_height]);
    SwapchainPlan {
        min_image_count,
        image_format,
        image_extent,
        image_usage: IMAGE_USAGE_COLOR_ATTACHMENT,
        composite_alpha,
    }
}

/// The plan is determined by the surface's capabilities, its first format
/// and the window's size: a swapchain set up twice for the same surface and
/// window size is set up the same way.
pub proof fn lemma_plan_determined<F>(
    p1: SwapchainPlan<F>,
    p2: SwapchainPlan<F>,
    capabilities: SurfaceCapabilitiesInfo,
    format: F,
    window_width: u32,
    window_height: u32,
)
    requires
        is_swapchain_plan(p1, capabilities, format, window_width, window_height),
        is_swapchain_plan(p2, capabilities, format, window_width, window_height),
    ensures
        p1 == p2,
{
    broadcast use vstd::array::axiom_array_ext_equal;

    assert(p1.image_extent =~= p2.image_extent);
}

/// A planned swapchain never has fewer than two images nor fewer than the
/// surface requires, and its composite alpha mode is one the surface
/// supports, with no earlier mode supported.
pub proof fn lemma_plan_respects_surface(surface_min: u32, supported: u32)
    requires
        first_supported_alpha(supported) is Some,
    ensures
        planned_image_count(surface_min) >= 2,
        planned_image_count(surface_min) >= surface_min,
        alpha_supported(supported, first_supported_alpha(supported).unwrap()),
        first_supported_alpha(supported) == Some(CompositeAlpha::PreMultiplied) ==> !alpha_supported(
            supported,
            CompositeAlpha::Opaque,
        ),
        first_supported_alpha(supported) == Some(CompositeAlpha::PostMultiplied) ==> !alpha_supported(
            supported,
            CompositeAlpha::Opaque,
        ) && !alpha_supported(supported, CompositeAlpha::PreMultiplied),
        first_supported_alpha(supported) == Some(CompositeAlpha::Inherit) ==> !alpha_supported(
            supported,
            CompositeAlpha::Opaque,
        ) && !alpha_supported(supported, CompositeAlpha::PreMultiplied) && !alpha_supported(
            supported,
            CompositeAlpha::PostMultiplied,
        ),
{
}

} // verus!
