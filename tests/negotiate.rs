use vk_swapchain::error::SwapchainError;
use vk_swapchain::negotiate::{
    choose_image_count, choose_sharing_mode, choose_swapchain_extent, choose_swapchain_format,
    choose_swapchain_present_mode, clamp_u32, negotiate, Extent2D, QueueFamilyIndices,
    SharingMode, SurfaceCapabilities, SurfaceFormat, SwapChainSupportDetail,
    COLOR_SPACE_SRGB_NONLINEAR, FORMAT_B8G8R8A8_SRGB, FORMAT_R8G8B8A8_UNORM,
    PRESENT_MODE_FIFO, PRESENT_MODE_IMMEDIATE, PRESENT_MODE_MAILBOX,
};

fn fmt(format: i32, color_space: i32) -> SurfaceFormat {
    SurfaceFormat { format, color_space }
}

fn caps(min: u32, max: u32, current: (u32, u32)) -> SurfaceCapabilities {
    SurfaceCapabilities {
        min_image_count: min,
        max_image_count: max,
        current_extent: Extent2D { width: current.0, height: current.1 },
        min_image_extent: Extent2D { width: 1, height: 1 },
        max_image_extent: Extent2D { width: 4096, height: 4096 },
        supported_transforms: 1,
        current_transform: 1,
    }
}

fn both(g: u32, p: u32) -> QueueFamilyIndices {
    QueueFamilyIndices { graphics_family: Some(g), present_family: Some(p) }
}

#[test]
fn format_prefers_bgra_srgb_wherever_it_stands() {
    let preferred = fmt(FORMAT_B8G8R8A8_SRGB, COLOR_SPACE_SRGB_NONLINEAR);
    let other = fmt(FORMAT_R8G8B8A8_UNORM, COLOR_SPACE_SRGB_NONLINEAR);
    assert_eq!(choose_swapchain_format(&vec![preferred, other]), Ok(preferred));
    assert_eq!(choose_swapchain_format(&vec![other, other, preferred]), Ok(preferred));
}

#[test]
fn format_needs_both_format_and_color_space() {
    let wrong_space = fmt(FORMAT_B8G8R8A8_SRGB, 1000104001);
    let other = fmt(FORMAT_R8G8B8A8_UNORM, COLOR_SPACE_SRGB_NONLINEAR);
    assert_eq!(choose_swapchain_format(&vec![wrong_space, other]), Ok(wrong_space));
}

#[test]
fn format_falls_back_to_first() {
    let a = fmt(FORMAT_R8G8B8A8_UNORM, COLOR_SPACE_SRGB_NONLINEAR);
    let b = fmt(44, COLOR_SPACE_SRGB_NONLINEAR);
    assert_eq!(choose_swapchain_format(&vec![a, b]), Ok(a));
    assert_eq!(choose_swapchain_format(&vec![b, a]), Ok(b));
}

#[test]
fn format_empty_list_is_negotiation_error() {
    assert_eq!(choose_swapchain_format(&vec![]), Err(SwapchainError::NegotiationError));
}

#[test]
fn present_mode_prefers_mailbox() {
    let modes = vec![PRESENT_MODE_FIFO, PRESENT_MODE_IMMEDIATE, PRESENT_MODE_MAILBOX];
    assert_eq!(choose_swapchain_present_mode(&modes), Ok(PRESENT_MODE_MAILBOX));
}

#[test]
fn present_mode_falls_back_to_first() {
    let modes = vec![PRESENT_MODE_IMMEDIATE, PRESENT_MODE_FIFO];
    assert_eq!(choose_swapchain_present_mode(&modes), Ok(PRESENT_MODE_IMMEDIATE));
}

#[test]
fn present_mode_empty_list_is_negotiation_error() {
    assert_eq!(choose_swapchain_present_mode(&vec![]), Err(SwapchainError::NegotiationError));
}

#[test]
fn clamp_keeps_brings_up_and_brings_down() {
    assert_eq!(clamp_u32(5, 1, 10), 5);
    assert_eq!(clamp_u32(0, 1, 10), 1);
    assert_eq!(clamp_u32(11, 1, 10), 10);
    assert_eq!(clamp_u32(1, 1, 1), 1);
}

#[test]
fn extent_follows_window_and_is_clamped() {
    let c = caps(2, 0, (u32::MAX, u32::MAX));
    assert_eq!(choose_swapchain_extent(&c, 800, 600), Extent2D { width: 800, height: 600 });
    assert_eq!(choose_swapchain_extent(&c, 5000, 0), Extent2D { width: 4096, height: 1 });
}

#[test]
fn extent_fixed_by_platform_ignores_request() {
    let c = caps(2, 0, (1280, 720));
    assert_eq!(choose_swapchain_extent(&c, 800, 600), Extent2D { width: 1280, height: 720 });
    let one_axis = caps(2, 0, (u32::MAX, 720));
    assert_eq!(
        choose_swapchain_extent(&one_axis, 800, 600),
        Extent2D { width: u32::MAX, height: 720 }
    );
}

#[test]
fn image_count_one_more_than_minimum_when_unbounded() {
    assert_eq!(choose_image_count(&caps(2, 0, (640, 480))), 3);
}

#[test]
fn image_count_within_maximum() {
    assert_eq!(choose_image_count(&caps(2, 8, (640, 480))), 3);
    assert_eq!(choose_image_count(&caps(3, 3, (640, 480))), 3);
}

#[test]
fn sharing_concurrent_for_distinct_families() {
    assert_eq!(choose_sharing_mode(&both(0, 1)), Ok((SharingMode::Concurrent, vec![0, 1])));
}

#[test]
fn sharing_exclusive_for_one_family() {
    assert_eq!(choose_sharing_mode(&both(2, 2)), Ok((SharingMode::Exclusive, vec![])));
}

#[test]
fn sharing_missing_family_is_precondition_error() {
    let qf = QueueFamilyIndices { graphics_family: Some(0), present_family: None };
    assert_eq!(choose_sharing_mode(&qf), Err(SwapchainError::PreconditionError));
    let none = QueueFamilyIndices { graphics_family: None, present_family: None };
    assert_eq!(choose_sharing_mode(&none), Err(SwapchainError::PreconditionError));
}

fn scenario_support() -> SwapChainSupportDetail {
    SwapChainSupportDetail {
        capabilities: caps(2, 0, (0xFFFFFFFF, 0xFFFFFFFF)),
        formats: vec![
            fmt(FORMAT_R8G8B8A8_UNORM, COLOR_SPACE_SRGB_NONLINEAR),
            fmt(FORMAT_B8G8R8A8_SRGB, COLOR_SPACE_SRGB_NONLINEAR),
        ],
        present_modes: vec![PRESENT_MODE_FIFO, PRESENT_MODE_MAILBOX],
    }
}

#[test]
fn end_to_end_negotiation() {
    let config = negotiate(&scenario_support(), &both(0, 1), 800, 600).unwrap();
    assert_eq!(config.format, fmt(FORMAT_B8G8R8A8_SRGB, COLOR_SPACE_SRGB_NONLINEAR));
    assert_eq!(config.present_mode, PRESENT_MODE_MAILBOX);
    assert_eq!(config.extent, Extent2D { width: 800, height: 600 });
    assert_eq!(config.image_count, 3);
    assert_eq!(config.sharing_mode, SharingMode::Concurrent);
    assert_eq!(config.queue_family_indices, vec![0, 1]);
    assert_eq!(config.pre_transform, 1);
}

#[test]
fn negotiation_is_deterministic() {
    let a = negotiate(&scenario_support(), &both(0, 1), 1024, 768).unwrap();
    let b = negotiate(&scenario_support(), &both(0, 1), 1024, 768).unwrap();
    assert_eq!(a.format, b.format);
    assert_eq!(a.present_mode, b.present_mode);
    assert_eq!(a.extent, b.extent);
    assert_eq!(a.image_count, b.image_count);
    assert_eq!(a.queue_family_indices, b.queue_family_indices);
}

#[test]
fn negotiation_errors() {
    let missing = QueueFamilyIndices { graphics_family: None, present_family: Some(0) };
    assert_eq!(
        negotiate(&scenario_support(), &missing, 800, 600).unwrap_err(),
        SwapchainError::PreconditionError
    );
    let mut no_formats = scenario_support();
    no_formats.formats = vec![];
    assert_eq!(
        negotiate(&no_formats, &both(0, 0), 800, 600).unwrap_err(),
        SwapchainError::NegotiationError
    );
    let mut no_modes = scenario_support();
    no_modes.present_modes = vec![];
    assert_eq!(
        negotiate(&no_modes, &both(0, 0), 800, 600).unwrap_err(),
        SwapchainError::NegotiationError
    );
    let mut full = scenario_support();
    full.capabilities.min_image_count = u32::MAX;
    assert_eq!(
        negotiate(&full, &both(0, 0), 800, 600).unwrap_err(),
        SwapchainError::NegotiationError
    );
}
