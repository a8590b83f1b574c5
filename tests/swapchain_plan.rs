use lvkrs::device_select::QueueFamilySelection;
use lvkrs::swapchain::{
    choose_image_count, choose_swap_extent, choose_swap_format, choose_swap_present_mode, Extent,
    SharingMode, SurfaceCaps, SurfaceFormat, SurfaceSupport, SwapchainContext, EXTENT_UNDEFINED,
    FORMAT_B8G8R8A8_SRGB, PRESENT_MODE_FIFO, PRESENT_MODE_MAILBOX,
};

fn ext(width: u32, height: u32) -> Extent {
    Extent { width, height }
}

fn caps(min: u32, max: u32) -> SurfaceCaps {
    SurfaceCaps {
        min_image_count: min,
        max_image_count: max,
        current_extent: ext(800, 600),
        min_image_extent: ext(1, 1),
        max_image_extent: ext(4096, 4096),
    }
}

#[test]
fn image_count_capped_by_max() {
    assert_eq!(choose_image_count(&caps(2, 3)), 3);
    assert_eq!(choose_image_count(&caps(3, 3)), 3);
    assert_eq!(choose_image_count(&caps(2, 2)), 2);
}

#[test]
fn image_count_unbounded_max() {
    assert_eq!(choose_image_count(&caps(2, 0)), 3);
    assert_eq!(choose_image_count(&caps(u32::MAX, u32::MAX)), u32::MAX);
}

#[test]
fn defined_extent_is_used() {
    assert_eq!(choose_swap_extent(&caps(2, 3), ext(10, 20)), ext(800, 600));
}

#[test]
fn undefined_extent_clamps_window_size() {
    let mut c = caps(2, 3);
    c.current_extent = ext(EXTENT_UNDEFINED, EXTENT_UNDEFINED);
    c.min_image_extent = ext(100, 200);
    c.max_image_extent = ext(1000, 2000);
    assert_eq!(choose_swap_extent(&c, ext(50, 5000)), ext(100, 2000));
    assert_eq!(choose_swap_extent(&c, ext(5000, 50)), ext(1000, 200));
    assert_eq!(choose_swap_extent(&c, ext(640, 480)), ext(640, 480));
}

#[test]
fn mailbox_chosen_when_offered() {
    assert_eq!(choose_swap_present_mode(&vec![0, PRESENT_MODE_FIFO, PRESENT_MODE_MAILBOX]), PRESENT_MODE_MAILBOX);
}

#[test]
fn fifo_when_mailbox_absent() {
    assert_eq!(choose_swap_present_mode(&vec![0, 3, PRESENT_MODE_FIFO]), PRESENT_MODE_FIFO);
    assert_eq!(choose_swap_present_mode(&vec![]), PRESENT_MODE_FIFO);
}

#[test]
fn preferred_format_or_first() {
    let a = SurfaceFormat { format: 44, color_space: 0 };
    let b = SurfaceFormat { format: FORMAT_B8G8R8A8_SRGB, color_space: 0 };
    let c = SurfaceFormat { format: FORMAT_B8G8R8A8_SRGB, color_space: 7 };
    assert_eq!(choose_swap_format(&vec![a, b, c]), b);
    assert_eq!(choose_swap_format(&vec![a]), a);
    assert_eq!(choose_swap_format(&vec![SurfaceFormat { format: 37, color_space: 1 }, a]).format, 37);
}

fn support() -> SurfaceSupport {
    let mut c = caps(2, 0);
    c.current_extent = ext(EXTENT_UNDEFINED, EXTENT_UNDEFINED);
    SurfaceSupport {
        caps: c,
        formats: vec![
            SurfaceFormat { format: 44, color_space: 0 },
            SurfaceFormat { format: FORMAT_B8G8R8A8_SRGB, color_space: 0 },
        ],
        present_modes: vec![PRESENT_MODE_FIFO, PRESENT_MODE_MAILBOX],
    }
}

#[test]
fn plan_gathers_every_choice() {
    let sel = QueueFamilySelection { graphics_index: 0, present_index: 1 };
    let cfg = SwapchainContext::plan(&support(), ext(1280, 720), &sel);
    assert_eq!(cfg.image_count, 3);
    assert_eq!(cfg.format.format, FORMAT_B8G8R8A8_SRGB);
    assert_eq!(cfg.present_mode, PRESENT_MODE_MAILBOX);
    assert_eq!(cfg.extent, ext(1280, 720));
    assert_eq!(cfg.sharing, SharingMode::Concurrent { graphics_index: 0, present_index: 1 });
}

#[test]
fn rebuild_against_same_surface_plans_same_chain() {
    let sel = QueueFamilySelection { graphics_index: 2, present_index: 2 };
    let first = SwapchainContext::plan(&support(), ext(300, 200), &sel);
    let second = SwapchainContext::plan(&support(), ext(300, 200), &sel);
    assert_eq!(first, second);
    assert_eq!(first.sharing, SharingMode::Exclusive);
}
