//! Swapchain planning: image count, extent, surface format, present mode
//! and depth-format selection, all decided from the surface's reported
//! capabilities before the swapchain object is (re)built.

use vstd::prelude::*;

verus! {

/// Raw code of the preferred surface pixel format (8-bit BGRA, sRGB).
pub const FORMAT_B8G8R8A8_SRGB: i32 = 50;

/// Raw code of the preferred surface color space (sRGB non-linear).
pub const COLOR_SPACE_SRGB_NONLINEAR: i32 = 0;

/// Raw code of the low-latency triple-buffered present mode.
pub const PRESENT_MODE_MAILBOX: i32 = 1;

/// Raw code of the always-available queued present mode.
pub const PRESENT_MODE_FIFO: i32 = 2;

/// The surface sets the current extent's width to this value when it leaves
/// the extent to the application.
pub const EXTENT_UNDEFINED: u32 = 0xffff_ffff;

/// What the surface reports about itself before a swapchain build.
#[derive(Clone, Copy, Debug, PartialEq, Eq, Structural)]
pub struct SurfaceCaps {
    /// Fewest images the surface allows.
    pub min_image_count: u32,
    /// Most images the surface allows; zero means no limit.
    pub max_image_count: u32,
    /// Extent the surface is currently fixed to, or `EXTENT_UNDEFINED`
    /// width when the application chooses.
    pub current_width: u32,
    pub current_height: u32,
    /// Bounds on the extent when the application chooses it.
    pub min_width: u32,
    pub max_width: u32,
    pub min_height: u32,
    pub max_height: u32,
}

impl SurfaceCaps {
    pub open spec fn wf(self) -> bool {
        &&& self.min_image_count >= 1
        &&& self.min_image_count < u32::MAX
        &&& self.min_width <= self.max_width
        &&& self.min_height <= self.max_height
    }
}

/// One surface format option: a pixel format paired with a color space.
#[derive(Clone, Copy, Debug, PartialEq, Eq, Structural)]
pub struct SurfaceFormat {
    pub format: i32,
    pub color_space: i32,
}

/// The preferred surface format: 8-bit sRGB BGRA in the sRGB color space.
pub open spec fn is_preferred_format(f: SurfaceFormat) -> bool {
    f.format == FORMAT_B8G8R8A8_SRGB && f.color_space == COLOR_SPACE_SRGB_NONLINEAR
}

/// The image count requested from the surface: one more than the minimum,
/// for one spare image, capped by the reported maximum when there is one.
pub open spec fn chosen_image_count(caps: SurfaceCaps) -> u32 {
    if caps.max_image_count != 0 && caps.min_image_count + 1 > caps.max_image_count {
        caps.max_image_count
    } else {
        (caps.min_image_count + 1) as u32
    }
}

pub fn choose_image_count(caps: &SurfaceCaps) -> (r: u32)
    requires
        caps.wf(),
    ensures
        r == chosen_image_count(*caps),
{
    let mut image_count = caps.min_image_count + 1;
    if caps.max_image_count != 0 && image_count > caps.max_image_count {
        image_count = caps.max_image_count;
    }
    image_count
}

/// A value clamped into an inclusive range.
pub open spec fn clamped(v: u32, lo: u32, hi: u32) -> u32 {
    if v < lo {
        lo
    } else if v > hi {
        hi
    } else {
        v
    }
}

/// The swapchain extent: the surface's current extent when it is fixed,
/// otherwise the window's framebuffer size clamped into the allowed range.
pub open spec fn chosen_extent(caps: SurfaceCaps, window_width: u32, window_height: u32) -> (
    u32,
    u32,
) {
    if caps.current_width != EXTENT_UNDEFINED {
        (caps.current_width, caps.current_height)
    } else {
        (
            clamped(window_width, caps.min_width, caps.max_width),
            clamped(window_height, caps.min_height, caps.max_height),
        )
    }
}

pub fn choose_extent(caps: &SurfaceCaps, window_width: u32, window_height: u32) -> (r: (u32, u32))
    requires
        caps.wf(),
    ensures
        r == chosen_extent(*caps, window_width, window_height),
{
    if caps.current_width != EXTENT_UNDEFINED {
        (caps.current_width, caps.current_height)
    } else {
        let w = if window_width < caps.min_width {
            caps.min_width
        } else if window_width > caps.max_width {
            caps.max_width
        } else {
            window_width
        };
        let h = if window_height < caps.min_height {
            caps.min_height
        } else if window_height > caps.max_height {
            caps.max_height
        } else {
            window_height
        };
        (w, h)
    }
}

/// Picks the surface format: the first offered format that is the preferred
/// one, and otherwise the first offered format of all.
pub fn choose_surface_format(formats: &Vec<SurfaceFormat>) -> (r: SurfaceFormat)
    requires
        formats@.len() > 0,
    ensures
        formats@.contains(r),
        (exists|i: int| 0 <= i < formats@.len() && is_preferred_format(formats@[i]))
            ==> is_preferred_format(r),
        (forall|i: int| 0 <= i < formats@.len() ==> !is_preferred_format(formats@[i]))
            ==> r == formats@[0],
{
    let mut i: usize = 0;
    while i < formats.len()
        invariant
            formats@.len() > 0,
            i <= formats@.len(),
            forall|j: int| 0 <= j < i ==> !is_preferred_format(formats@[j]),
        decreases formats@.len() - i,
    {
        let f = formats[i];
        if f.format == FORMAT_B8G8R8A8_SRGB && f.color_space == COLOR_SPACE_SRGB_NONLINEAR {
            assert(formats@.contains(formats@[i as int]));
            return f;
        }
        i += 1;
    }
    assert(formats@.contains(formats@[0]));
    formats[0]
}

/// Picks the present mode: mailbox when the surface offers it, otherwise
/// the always-available queued mode.
pub fn choose_present_mode(modes: &Vec<i32>) -> (r: i32)
    ensures
        r == if modes@.contains(PRESENT_MODE_MAILBOX) {
            PRESENT_MODE_MAILBOX
        } else {
            PRESENT_MODE_FIFO
        },
{
    let mut i: usize = 0;
    while i < modes.len()
        invariant
            i <= modes@.len(),
            forall|j: int| 0 <= j < i ==> modes@[j] != PRESENT_MODE_MAILBOX,
        decreases modes@.len() - i,
    {
        if modes[i] == PRESENT_MODE_MAILBOX {
            assert(modes@.contains(modes@[i as int]));
            return PRESENT_MODE_MAILBOX;
        }
        i += 1;
    }
    PRESENT_MODE_FIFO
}

/// Picks the first format candidate whose tiling feature mask contains
/// every required feature bit, as the depth-attachment format selection
/// does; `None` exactly when no candidate qualifies.
pub fn select_supported_format(
    candidates: &Vec<i32>,
    tiling_features: &Vec<u32>,
    required: u32,
) -> (r: Option<usize>)
    requires
        candidates@.len() == tiling_features@.len(),
    ensures
        match r {
            Some(i) => {
                &&& i < candidates@.len()
                &&& tiling_features@[i as int] & required == required
                &&& forall|j: int| 0 <= j < i ==> tiling_features@[j] & required != required
            },
            None => forall|j: int|
                0 <= j < candidates@.len() ==> tiling_features@[j] & required != required,
        },
{
    let mut i: usize = 0;
    while i < candidates.len()
        invariant
            candidates@.len() == tiling_features@.len(),
            i <= candidates@.len(),
            forall|j: int| 0 <= j < i ==> tiling_features@[j] & required != required,
        decreases candidates@.len() - i,
    {
        if (tiling_features[i] & required) == required {
            return Some(i);
        }
        i += 1;
    }
    None
}

/// Everything a swapchain build is parameterized by, decided in one place
/// so a rebuild at unchanged surface data reproduces the same swapchain.
#[derive(Clone, Copy, Debug, PartialEq, Eq, Structural)]
pub struct SwapchainPlan {
    pub image_count: u32,
    pub width: u32,
    pub height: u32,
    pub format: i32,
    pub color_space: i32,
    pub present_mode: i32,
}

/// Plans a swapchain build from the surface's data and the window extent:
/// image count, extent, surface format and present mode, each chosen as the
/// dedicated functions above choose them.
pub fn plan_swapchain(
    caps: &SurfaceCaps,
    formats: &Vec<SurfaceFormat>,
    modes: &Vec<i32>,
    window_width: u32,
    window_height: u32,
) -> (r: SwapchainPlan)
    requires
        caps.wf(),
        formats@.len() > 0,
    ensures
        r.image_count == chosen_image_count(*caps),
        (r.width, r.height) == chosen_extent(*caps, window_width, window_height),
        formats@.contains(SurfaceFormat { format: r.format, color_space: r.color_space }),
        (exists|i: int| 0 <= i < formats@.len() && is_preferred_format(formats@[i]))
            ==> is_preferred_format(SurfaceFormat { format: r.format, color_space: r.color_space }),
        r.present_mode == if modes@.contains(PRESENT_MODE_MAILBOX) {
            PRESENT_MODE_MAILBOX
        } else {
            PRESENT_MODE_FIFO
        },
{
    let image_count = choose_image_count(caps);
    let (width, height) = choose_extent(caps, window_width, window_height);
    let format = choose_surface_format(formats);
    let present_mode = choose_present_mode(modes);
    SwapchainPlan {
        image_count,
        width,
        height,
        format: format.format,
        color_space: format.color_space,
        present_mode,
    }
}

} // verus!
