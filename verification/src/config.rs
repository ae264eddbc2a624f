//! Selection of the surface configuration: pixel format, present mode,
//! extent and image count. All selectors are pure and total over the inputs
//! the surface reports; emptiness of the format list is a
//! device-suitability error that callers rule out before this point.

use vstd::prelude::*;

verus! {

/// Pixel format code for 8-bit BGRA with sRGB encoding.
pub const FORMAT_B8G8R8A8_SRGB: u32 = 50;

/// Color-space code for the sRGB non-linear color space.
pub const COLOR_SPACE_SRGB_NONLINEAR: u32 = 0;

/// Present-mode code for mailbox (low-latency triple buffering).
pub const PRESENT_MODE_MAILBOX: u32 = 1;

/// Present-mode code for FIFO (vsync-like; always supported).
pub const PRESENT_MODE_FIFO: u32 = 2;

/// The sentinel a surface reports as `current_extent` when the swapchain,
/// not the surface, decides the extent.
pub const EXTENT_UNDEFINED: u32 = 0xFFFF_FFFF;

/// A width/height pair in physical pixels.
#[derive(Clone, Copy, PartialEq, Eq, Structural, Debug)]
pub struct Extent2D {
    pub width: u32,
    pub height: u32,
}

/// A pixel format paired with a color space, as a surface advertises them.
#[derive(Clone, Copy, PartialEq, Eq, Structural, Debug)]
pub struct SurfaceFormat {
    pub format: u32,
    pub color_space: u32,
}

/// The preferred surface format: 8-bit BGRA in the sRGB non-linear color
/// space, which gives correct gamma without shader work.
pub open spec fn preferred_format() -> SurfaceFormat {
    SurfaceFormat { format: FORMAT_B8G8R8A8_SRGB, color_space: COLOR_SPACE_SRGB_NONLINEAR }
}

/// The format the engine selects: the preferred BGRA/sRGB pair when the
/// surface supports it, otherwise the first supported format unchanged.
pub open spec fn chosen_format(formats: Seq<SurfaceFormat>) -> SurfaceFormat {
    if formats.contains(preferred_format()) {
        preferred_format()
    } else {
        formats[0]
    }
}

/// Chooses the surface format.
pub fn pick_surface_format(formats: &Vec<SurfaceFormat>) -> (chosen: SurfaceFormat)
    requires
        formats@.len() > 0,
    ensures
        chosen == chosen_format(formats@),
{
    let mut i: usize = 0;
    while i < formats.len()
        invariant
            i <= formats@.len(),
            forall|j: int| 0 <= j < i ==> formats@[j] != preferred_format(),
        decreases formats@.len() - i,
    {
        if formats[i].format == FORMAT_B8G8R8A8_SRGB
            && formats[i].color_space == COLOR_SPACE_SRGB_NONLINEAR
        {
            assert(formats@[i as int] == preferred_format());
            return formats[i];
        }
        i += 1;
    }
    assert(!formats@.contains(preferred_format()));
    formats[0]
}

/// The present mode the engine selects: mailbox when the surface supports
/// it, otherwise FIFO, the mode every surface is required to support.
pub open spec fn chosen_present_mode(modes: Seq<u32>) -> u32 {
    if modes.contains(PRESENT_MODE_MAILBOX) {
        PRESENT_MODE_MAILBOX
    } else {
        PRESENT_MODE_FIFO
    }
}

/// Chooses the present mode.
pub fn pick_present_mode(modes: &Vec<u32>) -> (chosen: u32)
    ensures
        chosen == chosen_present_mode(modes@),
{
    let mut i: usize = 0;
    while i < modes.len()
        invariant
            i <= modes@.len(),
            forall|j: int| 0 <= j < i ==> modes@[j] != PRESENT_MODE_MAILBOX,
        decreases modes@.len() - i,
    {
        if modes[i] == PRESENT_MODE_MAILBOX {
            assert(modes@.contains(PRESENT_MODE_MAILBOX));
            return PRESENT_MODE_MAILBOX;
        }
        i += 1;
    }
    assert(!modes@.contains(PRESENT_MODE_MAILBOX));
    PRESENT_MODE_FIFO
}

/// A value forced into a closed interval; total even when the interval is
/// empty (the lower bound then wins; the surface never reports such
/// bounds).
pub open spec fn clamped(v: u32, lo: u32, hi: u32) -> u32 {
    if v < lo {
        lo
    } else if v > hi {
        hi
    } else {
        v
    }
}

fn clamp_u32(v: u32, lo: u32, hi: u32) -> (r: u32)
    ensures
        r == clamped(v, lo, hi),
{
    if v < lo {
        lo
    } else if v > hi {
        hi
    } else {
        v
    }
}

/// The extent the engine selects: the surface-reported current extent
/// verbatim, unless the surface reports the undefined sentinel, in which
/// case the window's physical size clamped into the surface's allowed
/// range.
pub open spec fn chosen_extent(
    current_extent: Extent2D,
    min_image_extent: Extent2D,
    max_image_extent: Extent2D,
    window_extent: Extent2D,
) -> Extent2D {
    if current_extent.width != EXTENT_UNDEFINED {
        current_extent
    } else {
        Extent2D {
            width: clamped(window_extent.width, min_image_extent.width, max_image_extent.width),
            height: clamped(
                window_extent.height,
                min_image_extent.height,
                max_image_extent.height,
            ),
        }
    }
}

/// Chooses the swapchain extent.
pub fn pick_extent(
    current_extent: Extent2D,
    min_image_extent: Extent2D,
    max_image_extent: Extent2D,
    window_extent: Extent2D,
) -> (chosen: Extent2D)
    ensures
        chosen == chosen_extent(current_extent, min_image_extent, max_image_extent, window_extent),
{
    if current_extent.width != EXTENT_UNDEFINED {
        current_extent
    } else {
        Extent2D {
            width: clamp_u32(window_extent.width, min_image_extent.width, max_image_extent.width),
            height: clamp_u32(
                window_extent.height,
                min_image_extent.height,
                max_image_extent.height,
            ),
        }
    }
}

/// The image count the engine requests: one more than the surface's
/// minimum, so the CPU need not stall on the driver finishing internal
/// work, clamped down to the surface's maximum when that maximum is bounded
/// (zero means unbounded).
pub open spec fn requested_image_count(min_image_count: u32, max_image_count: u32) -> int {
    if max_image_count != 0 && min_image_count + 1 > max_image_count {
        max_image_count as int
    } else {
        min_image_count + 1
    }
}

/// Chooses the number of images to request.
pub fn pick_image_count(min_image_count: u32, max_image_count: u32) -> (count: u32)
    requires
        min_image_count < u32::MAX,
    ensures
        count == requested_image_count(min_image_count, max_image_count),
{
    let requested = min_image_count + 1;
    if max_image_count != 0 && requested > max_image_count {
        max_image_count
    } else {
        requested
    }
}

} // verus!
