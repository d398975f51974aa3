use vk_engine::swapchain::{
    first_composite_alpha, plan_swapchain, CompositeAlpha, SurfaceCapabilitiesInfo, IMAGE_USAGE_COLOR_ATTACHMENT,
};

#[test]
fn composite_alpha_walk_order() {
    assert_eq!(first_composite_alpha(0b1111), Some(CompositeAlpha::Opaque));
    assert_eq!(first_composite_alpha(0b1110), Some(CompositeAlpha::PreMultiplied));
    assert_eq!(first_composite_alpha(0b1100), Some(CompositeAlpha::PostMultiplied));
    assert_eq!(first_composite_alpha(0b1000), Some(CompositeAlpha::Inherit));
    assert_eq!(first_composite_alpha(0), None);
    assert_eq!(first_composite_alpha(0b1_0000), None);
}

#[test]
fn at_least_two_images() {
    let caps = SurfaceCapabilitiesInfo { min_image_count: 1, supported_composite_alpha: 0b1000 };
    let formats = vec![("B8G8R8A8_SRGB", 0u8), ("R8G8B8A8_UNORM", 1u8)];
    let plan = plan_swapchain(&caps, &formats, 800, 600);
    assert_eq!(plan.min_image_count, 2);
    assert_eq!(plan.image_format, "B8G8R8A8_SRGB");
    assert_eq!(plan.image_extent, [800, 600]);
    assert_eq!(plan.image_usage, 0x10);
    assert_eq!(IMAGE_USAGE_COLOR_ATTACHMENT, 0x10);
    assert_eq!(plan.composite_alpha, CompositeAlpha::Inherit);
}

#[test]
fn surface_minimum_above_two_is_kept() {
    let caps = SurfaceCapabilitiesInfo { min_image_count: 3, supported_composite_alpha: 0b0011 };
    let formats = vec![(7u32, 0u32)];
    let plan = plan_swapchain(&caps, &formats, 1, 2);
    assert_eq!(plan.min_image_count, 3);
    assert_eq!(plan.image_format, 7);
    assert_eq!(plan.image_extent, [1, 2]);
    assert_eq!(plan.composite_alpha, CompositeAlpha::Opaque);
}

#[test]
fn surface_minimum_of_two() {
    let caps = SurfaceCapabilitiesInfo { min_image_count: 2, supported_composite_alpha: 0b0100 };
    let plan = plan_swapchain(&caps, &vec![(1u8, 1u8)], 0, 0);
    assert_eq!(plan.min_image_count, 2);
    assert_eq!(plan.composite_alpha, CompositeAlpha::PostMultiplied);
}

#[test]
fn same_surface_same_plan() {
    let caps = SurfaceCapabilitiesInfo { min_image_count: 3, supported_composite_alpha: 0b0110 };
    let formats = vec![(5u32, 0u32), (6u32, 1u32)];
    let a = plan_swapchain(&caps, &formats, 640, 480);
    let b = plan_swapchain(&caps, &formats, 640, 480);
    assert_eq!(a.min_image_count, b.min_image_count);
    assert_eq!(a.image_format, b.image_format);
    assert_eq!(a.image_extent, b.image_extent);
    assert_eq!(a.image_usage, b.image_usage);
    assert_eq!(a.composite_alpha, b.composite_alpha);
    assert_eq!(a.composite_alpha, CompositeAlpha::PreMultiplied);
}
