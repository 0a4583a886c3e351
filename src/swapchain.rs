use vstd::prelude::*;

verus! {

/// `VK_FORMAT_R8G8B8A8_UNORM`: four 8-bit normalised channels.
pub const FORMAT_R8G8B8A8_UNORM: i32 = 37;

/// `VK_COLOR_SPACE_SRGB_NONLINEAR_KHR`.
pub const COLOR_SPACE_SRGB_NONLINEAR: i32 = 0;

/// `VK_PRESENT_MODE_MAILBOX_KHR`: the newest image replaces a queued one.
pub const PRESENT_MODE_MAILBOX: i32 = 1;

/// `VK_PRESENT_MODE_FIFO_KHR`: the one mode every surface supports.
pub const PRESENT_MODE_FIFO: i32 = 2;

/// `VK_SURFACE_TRANSFORM_IDENTITY_BIT_KHR`.
pub const TRANSFORM_IDENTITY: u32 = 1;

/// The width the presentation engine reports when the window decides the
/// size of the surface.
pub const EXTENT_DECIDED_BY_WINDOW: u32 = 0xffff_ffff;

/// A size in pixels.
#[derive(Clone, Copy, Debug, PartialEq, Eq, Structural)]
pub struct Extent2D {
    pub width: u32,
    pub height: u32,
}

/// A pixel format together with the colour space it is presented in, as raw
/// Vulkan enumeration values.
#[derive(Clone, Copy, Debug, PartialEq, Eq, Structural)]
pub struct SurfaceFormat {
    pub format: i32,
    pub color_space: i32,
}

/// What a surface reports of itself that the swapchain's configuration reads.
/// Transform sets are raw Vulkan bit masks.
#[derive(Clone, Copy, Debug, PartialEq, Eq, Structural)]
pub struct SurfaceCapabilities {
    pub min_image_count: u32,
    /// Zero when the surface sets no maximum.
    pub max_image_count: u32,
    /// `EXTENT_DECIDED_BY_WINDOW` as its width when the window decides.
    pub current_extent: Extent2D,
    pub supported_transforms: u32,
    pub current_transform: u32,
}

/// Everything the swapchain is created with that depends on the surface.
#[derive(Clone, Copy, Debug, PartialEq, Eq, Structural)]
pub struct SwapchainSettings {
    pub surface_format: SurfaceFormat,
    pub image_count: u32,
    pub pre_transform: u32,
    pub present_mode: i32,
    pub extent: Extent2D,
}

/// The one surface format the renderer draws in.
pub open spec fn spec_preferred_surface_format() -> SurfaceFormat {
    SurfaceFormat { format: FORMAT_R8G8B8A8_UNORM, color_space: COLOR_SPACE_SRGB_NONLINEAR }
}

/// The preferred format when the surface offers it; there is no fallback.
pub open spec fn spec_choose_surface_format(available: Seq<SurfaceFormat>) -> Option<SurfaceFormat> {
    if available.contains(spec_preferred_surface_format()) {
        Some(spec_preferred_surface_format())
    } else {
        None
    }
}

/// How many images to ask of the presentation engine: one more than its
/// minimum, so that the renderer need not wait on the driver for an image,
/// capped by the maximum when the surface has one.
pub open spec fn spec_image_count(min_image_count: u32, max_image_count: u32) -> int {
    let wanted = min_image_count + 1;
    if max_image_count > 0 && wanted > max_image_count {
        max_image_count as int
    } else {
        wanted
    }
}

/// Whether every bit of `other` is set in `flags`.
pub open spec fn spec_flags_contain(flags: u32, other: u32) -> bool {
    flags & other == other
}

/// No transform when the surface supports presenting without one; otherwise
/// whatever transform the surface currently applies.
pub open spec fn spec_pre_transform(supported: u32, current: u32) -> u32 {
    if spec_flags_contain(supported, TRANSFORM_IDENTITY) {
        TRANSFORM_IDENTITY
    } else {
        current
    }
}

/// Mailbox when the surface offers it, FIFO otherwise.
pub open spec fn spec_present_mode(available: Seq<i32>) -> i32 {
    if available.contains(PRESENT_MODE_MAILBOX) {
        PRESENT_MODE_MAILBOX
    } else {
        PRESENT_MODE_FIFO
    }
}

/// The surface's own size, or the window's when the surface leaves it to
/// the window.
pub open spec fn spec_extent(current: Extent2D, window: Extent2D) -> Extent2D {
    if current.width == EXTENT_DECIDED_BY_WINDOW {
        window
    } else {
        current
    }
}

/// The whole configuration, or nothing when the surface cannot present in
/// the preferred format.
pub open spec fn spec_swapchain_settings(
    formats: Seq<SurfaceFormat>,
    capabilities: SurfaceCapabilities,
    present_modes: Seq<i32>,
    window_extent: Extent2D,
) -> Option<SwapchainSettings> {
    match spec_choose_surface_format(formats) {
        None => None,
        Some(surface_format) => Some(
            SwapchainSettings {
                surface_format,
                image_count: spec_image_count(
                    capabilities.min_image_count,
                    capabilities.max_image_count,
                ) as u32,
                pre_transform: spec_pre_transform(
                    capabilities.supported_transforms,
                    capabilities.current_transform,
                ),
                present_mode: spec_present_mode(present_modes),
                extent: spec_extent(capabilities.current_extent, window_extent),
            },
        ),
    }
}

pub fn preferred_surface_format() -> (r: SurfaceFormat)
    ensures
        r == spec_preferred_surface_format(),
{
    SurfaceFormat { format: FORMAT_R8G8B8A8_UNORM, color_space: COLOR_SPACE_SRGB_NONLINEAR }
}

pub fn choose_surface_format(available: &Vec<SurfaceFormat>) -> (r: Option<SurfaceFormat>)
    ensures
        r == spec_choose_surface_format(available@),
{
    let wanted = preferred_surface_format();
    let mut i: usize = 0;
    while i < available.len()
        invariant
            0 <= i <= available@.len(),
            wanted == spec_preferred_surface_format(),
            forall|j: int| 0 <= j < i ==> available@[j] != wanted,
        decreases available@.len() - i,
    {
        let candidate = available[i];
        if candidate.format == wanted.format && candidate.color_space == wanted.color_space {
            assert(available@[i as int] == wanted);
            return Some(candidate);
        }
        i = i + 1;
    }
    None
}

pub fn desired_image_count(min_image_count: u32, max_image_count: u32) -> (r: u32)
    requires
        min_image_count < u32::MAX,
    ensures
        r == spec_image_count(min_image_count, max_image_count),
{
    let wanted: u32 = min_image_count + 1;
    if max_image_count > 0 && wanted > max_image_count {
        max_image_count
    } else {
        wanted
    }
}

/// Whether every bit of `other` is set in `flags`.
pub fn flags_contain(flags: u32, other: u32) -> (r: bool)
    ensures
        r == spec_flags_contain(flags, other),
{
    flags & other == other
}

pub fn choose_pre_transform(supported: u32, current: u32) -> (r: u32)
    ensures
        r == spec_pre_transform(supported, current),
{
    if flags_contain(supported, TRANSFORM_IDENTITY) {
        TRANSFORM_IDENTITY
    } else {
        current
    }
}

pub fn choose_present_mode(available: &Vec<i32>) -> (r: i32)
    ensures
        r == spec_present_mode(available@),
{
    let mut i: usize = 0;
    while i < available.len()
        invariant
            0 <= i <= available@.len(),
            forall|j: int| 0 <= j < i ==> available@[j] != PRESENT_MODE_MAILBOX,
        decreases available@.len() - i,
    {
        if available[i] == PRESENT_MODE_MAILBOX {
            assert(available@[i as int] == PRESENT_MODE_MAILBOX);
            return PRESENT_MODE_MAILBOX;
        }
        i = i + 1;
    }
    PRESENT_MODE_FIFO
}

pub fn choose_extent(current: Extent2D, window: Extent2D) -> (r: Extent2D)
    ensures
        r == spec_extent(current, window),
{
    if current.width == EXTENT_DECIDED_BY_WINDOW {
        window
    } else {
        current
    }
}

/// Decides how to configure a swapchain for a surface: `None` exactly when
/// the surface does not offer the preferred format.
pub fn swapchain_settings(
    formats: &Vec<SurfaceFormat>,
    capabilities: SurfaceCapabilities,
    present_modes: &Vec<i32>,
    window_extent: Extent2D,
) -> (r: Option<SwapchainSettings>)
    requires
        capabilities.min_image_count < u32::MAX,
    ensures
        r == spec_swapchain_settings(formats@, capabilities, present_modes@, window_extent),
{
    match choose_surface_format(formats) {
        None => None,
        Some(surface_format) => Some(
            SwapchainSettings {
                surface_format,
                image_count: desired_image_count(
                    capabilities.min_image_count,
                    capabilities.max_image_count,
                ),
                pre_transform: choose_pre_transform(
                    capabilities.supported_transforms,
                    capabilities.current_transform,
                ),
                present_mode: choose_present_mode(present_modes),
                extent: choose_extent(capabilities.current_extent, window_extent),
            },
        ),
    }
}

} // verus!
