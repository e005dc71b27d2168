//! Tests for swapchain parameter selection.

use frameloop::swapchain::{
    choose_extent, choose_image_count, choose_present_mode, choose_surface_format,
    plan_swapchain, select_supported_format, SurfaceCaps, SurfaceFormat,
    COLOR_SPACE_SRGB_NONLINEAR, EXTENT_UNDEFINED, FORMAT_B8G8R8A8_SRGB, PRESENT_MODE_FIFO,
    PRESENT_MODE_MAILBOX,
};

fn caps() -> SurfaceCaps {
    SurfaceCaps {
        min_image_count: 2,
        max_image_count: 8,
        current_width: EXTENT_UNDEFINED,
        current_height: 0,
        min_width: 64,
        max_width: 4096,
        min_height: 32,
        max_height: 2048,
    }
}

#[test]
fn image_count_is_one_above_minimum() {
    assert_eq!(choose_image_count(&caps()), 3);
}

#[test]
fn image_count_is_capped_by_maximum() {
    let mut c = caps();
    c.min_image_count = 8;
    c.max_image_count = 8;
    assert_eq!(choose_image_count(&c), 8);
}

#[test]
fn zero_maximum_means_unbounded_image_count() {
    let mut c = caps();
    c.min_image_count = 15;
    c.max_image_count = 0;
    assert_eq!(choose_image_count(&c), 16);
}

#[test]
fn fixed_current_extent_is_used_as_is() {
    let mut c = caps();
    c.current_width = 1280;
    c.current_height = 720;
    assert_eq!(choose_extent(&c, 9999, 1), (1280, 720));
}

#[test]
fn undefined_current_extent_clamps_the_window_size() {
    let c = caps();
    assert_eq!(choose_extent(&c, 1024, 768), (1024, 768));
    assert_eq!(choose_extent(&c, 10_000, 8), (4096, 32));
    assert_eq!(choose_extent(&c, 1, 10_000), (64, 2048));
}

#[test]
fn preferred_surface_format_wins_when_offered() {
    let formats = vec![
        SurfaceFormat { format: 44, color_space: 0 },
        SurfaceFormat { format: FORMAT_B8G8R8A8_SRGB, color_space: COLOR_SPACE_SRGB_NONLINEAR },
    ];
    let f = choose_surface_format(&formats);
    assert_eq!(f.format, FORMAT_B8G8R8A8_SRGB);
    assert_eq!(f.color_space, COLOR_SPACE_SRGB_NONLINEAR);
}

#[test]
fn first_format_is_the_fallback() {
    let formats = vec![
        SurfaceFormat { format: 44, color_space: 0 },
        SurfaceFormat { format: 37, color_space: 0 },
    ];
    assert_eq!(choose_surface_format(&formats), formats[0]);
}

#[test]
fn mailbox_present_mode_wins_when_offered() {
    assert_eq!(
        choose_present_mode(&vec![PRESENT_MODE_FIFO, PRESENT_MODE_MAILBOX]),
        PRESENT_MODE_MAILBOX
    );
}

#[test]
fn fifo_is_the_present_mode_fallback() {
    assert_eq!(choose_present_mode(&vec![PRESENT_MODE_FIFO, 0]), PRESENT_MODE_FIFO);
    assert_eq!(choose_present_mode(&vec![]), PRESENT_MODE_FIFO);
}

#[test]
fn depth_format_selection_takes_the_first_supported_candidate() {
    // Three candidates; only the second and third support the required
    // feature bits under the tiling in use.
    let candidates = vec![126, 130, 129];
    let features = vec![0b001, 0b111, 0b111];
    assert_eq!(select_supported_format(&candidates, &features, 0b110), Some(1));
    assert_eq!(select_supported_format(&candidates, &features, 0b1000), None);
}

#[test]
fn a_plan_combines_every_choice() {
    let formats = vec![
        SurfaceFormat { format: 44, color_space: 0 },
        SurfaceFormat { format: FORMAT_B8G8R8A8_SRGB, color_space: COLOR_SPACE_SRGB_NONLINEAR },
    ];
    let modes = vec![PRESENT_MODE_FIFO, PRESENT_MODE_MAILBOX];
    let p = plan_swapchain(&caps(), &formats, &modes, 1024, 768);
    assert_eq!(p.image_count, 3);
    assert_eq!((p.width, p.height), (1024, 768));
    assert_eq!(p.format, FORMAT_B8G8R8A8_SRGB);
    assert_eq!(p.color_space, COLOR_SPACE_SRGB_NONLINEAR);
    assert_eq!(p.present_mode, PRESENT_MODE_MAILBOX);

    // Planning twice from the same surface data yields the same plan.
    assert_eq!(p, plan_swapchain(&caps(), &formats, &modes, 1024, 768));
}
