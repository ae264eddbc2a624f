use present_engine::config::{
    pick_extent, pick_image_count, pick_present_mode, pick_surface_format, Extent2D, SurfaceFormat,
    COLOR_SPACE_SRGB_NONLINEAR, EXTENT_UNDEFINED, FORMAT_B8G8R8A8_SRGB, PRESENT_MODE_FIFO,
    PRESENT_MODE_MAILBOX,
};

fn ext(width: u32, height: u32) -> Extent2D {
    Extent2D { width, height }
}

#[test]
fn present_mode_prefers_mailbox() {
    let modes = vec![PRESENT_MODE_FIFO, 0, PRESENT_MODE_MAILBOX, 3];
    assert_eq!(pick_present_mode(&modes), PRESENT_MODE_MAILBOX);
    let modes = vec![PRESENT_MODE_MAILBOX];
    assert_eq!(pick_present_mode(&modes), PRESENT_MODE_MAILBOX);
}

#[test]
fn present_mode_falls_back_to_fifo() {
    let modes = vec![0, 3, PRESENT_MODE_FIFO];
    assert_eq!(pick_present_mode(&modes), PRESENT_MODE_FIFO);
    let modes = vec![0, 3];
    assert_eq!(pick_present_mode(&modes), PRESENT_MODE_FIFO);
}

#[test]
fn surface_format_finds_preferred_pair_regardless_of_order() {
    let preferred = SurfaceFormat {
        format: FORMAT_B8G8R8A8_SRGB,
        color_space: COLOR_SPACE_SRGB_NONLINEAR,
    };
    let other_a = SurfaceFormat { format: 44, color_space: 0 };
    let other_b = SurfaceFormat { format: 50, color_space: 1000104014 };

    let first = vec![preferred, other_a, other_b];
    let middle = vec![other_a, preferred, other_b];
    let last = vec![other_a, other_b, preferred];
    assert_eq!(pick_surface_format(&first), preferred);
    assert_eq!(pick_surface_format(&middle), preferred);
    assert_eq!(pick_surface_format(&last), preferred);
}

#[test]
fn surface_format_falls_back_to_first_entry() {
    let other_a = SurfaceFormat { format: 44, color_space: 0 };
    let other_b = SurfaceFormat { format: 50, color_space: 1000104014 };
    let formats = vec![other_b, other_a];
    assert_eq!(pick_surface_format(&formats), other_b);
}

#[test]
fn undefined_extent_takes_clamped_window_size() {
    let chosen = pick_extent(
        ext(EXTENT_UNDEFINED, EXTENT_UNDEFINED),
        ext(1, 1),
        ext(4096, 4096),
        ext(1920, 1080),
    );
    assert_eq!(chosen, ext(1920, 1080));
}

#[test]
fn undefined_extent_clamps_to_surface_bounds() {
    let chosen = pick_extent(
        ext(EXTENT_UNDEFINED, EXTENT_UNDEFINED),
        ext(640, 480),
        ext(1280, 720),
        ext(1920, 200),
    );
    assert_eq!(chosen, ext(1280, 480));
}

#[test]
fn defined_extent_is_taken_verbatim() {
    let chosen = pick_extent(ext(800, 600), ext(1, 1), ext(4096, 4096), ext(1920, 1080));
    assert_eq!(chosen, ext(800, 600));
}

#[test]
fn image_count_is_min_plus_one_clamped_by_max() {
    assert_eq!(pick_image_count(2, 3), 3);
    assert_eq!(pick_image_count(2, 0), 3);
    assert_eq!(pick_image_count(3, 3), 3);
    assert_eq!(pick_image_count(1, 8), 2);
}
