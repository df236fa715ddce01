//! Swapchain planning: given the surface's reported capabilities, format
//! list and present-mode list, decide the parameters a new swapchain is
//! created with. The GPU calls that realise the plan live outside the
//! library; everything decided here is proved against the selection rules.

use vstd::prelude::*;

use crate::queue::QueueFamilyIndices;

verus! {

/// Identifier of a pixel format, as the graphics API numbers them.
pub const FORMAT_B8G8R8A8_SRGB: u32 = 50;

/// Identifier of the sRGB-nonlinear color space.
pub const COLOR_SPACE_SRGB_NONLINEAR: u32 = 0;

/// Identifier of the low-latency triple-buffered present mode.
pub const PRESENT_MODE_MAILBOX: u32 = 1;

/// Identifier of the always-supported vsync'd present mode.
pub const PRESENT_MODE_FIFO: u32 = 2;

/// Sentinel width meaning the surface leaves the extent to the window.
pub const UNDEFINED_EXTENT_WIDTH: u32 = u32::MAX;

/// Pixel dimensions of a surface, window or image.
#[derive(Clone, Copy, Debug, PartialEq, Eq, Structural)]
pub struct Extent2D {
    pub width: u32,
    pub height: u32,
}

/// A surface format: a pixel format paired with a color space.
#[derive(Clone, Copy, Debug, PartialEq, Eq, Structural)]
pub struct SurfaceFormat {
    pub format: u32,
    pub color_space: u32,
}

/// What the surface reports about image counts and extents.
#[derive(Clone, Copy, Debug, PartialEq, Eq, Structural)]
pub struct SurfaceCapabilities {
    pub min_image_count: u32,
    /// Zero means the surface imposes no upper bound.
    pub max_image_count: u32,
    /// `width == UNDEFINED_EXTENT_WIDTH` means the extent is undefined.
    pub current_extent: Extent2D,
    pub min_image_extent: Extent2D,
    pub max_image_extent: Extent2D,
}

/// Everything the surface reports that swapchain planning reads.
#[derive(Clone, Debug)]
pub struct SwapchainSupport {
    pub capabilities: SurfaceCapabilities,
    pub formats: Vec<SurfaceFormat>,
    pub present_modes: Vec<u32>,
}

/// How the swapchain images are shared between queue families.
#[derive(Clone, Copy, Debug, PartialEq, Eq, Structural)]
pub enum SharingMode {
    Exclusive,
    Concurrent,
}

/// The preferred 8-bit sRGB BGRA format with sRGB-nonlinear color space.
pub open spec fn preferred_surface_format() -> SurfaceFormat {
    SurfaceFormat { format: FORMAT_B8G8R8A8_SRGB, color_space: COLOR_SPACE_SRGB_NONLINEAR }
}

/// The format the planner picks from a non-empty format list.
pub open spec fn chosen_surface_format(formats: Seq<SurfaceFormat>) -> SurfaceFormat {
    if formats.contains(preferred_surface_format()) {
        preferred_surface_format()
    } else {
        formats[0]
    }
}

/// The present mode the planner picks: the triple-buffered mode when the
/// surface offers it, else the always-supported FIFO mode.
pub open spec fn chosen_present_mode(present_modes: Seq<u32>) -> u32 {
    if present_modes.contains(PRESENT_MODE_MAILBOX) {
        PRESENT_MODE_MAILBOX
    } else {
        PRESENT_MODE_FIFO
    }
}

/// `v` clamped into `[min, max]`, with `min` winning when the bounds cross.
pub open spec fn clamped(min: u32, max: u32, v: u32) -> u32 {
    if v > max {
        if min > max { min } else { max }
    } else {
        if min > v { min } else { v }
    }
}

/// The extent the planner picks: the surface's current extent when it is
/// defined, else the window's size clamped into the surface's bounds.
pub open spec fn chosen_extent(capabilities: SurfaceCapabilities, window_size: Extent2D) -> Extent2D {
    if capabilities.current_extent.width != UNDEFINED_EXTENT_WIDTH {
        capabilities.current_extent
    } else {
        Extent2D {
            width: clamped(
                capabilities.min_image_extent.width,
                capabilities.max_image_extent.width,
                window_size.width,
            ),
            height: clamped(
                capabilities.min_image_extent.height,
                capabilities.max_image_extent.height,
                window_size.height,
            ),
        }
    }
}

/// The image count the planner asks for: one more than the surface's
/// minimum, capped at the maximum whenever the maximum is a real bound.
pub open spec fn chosen_image_count(capabilities: SurfaceCapabilities) -> u32
    recommends capabilities.min_image_count < u32::MAX,
{
    let uncapped = (capabilities.min_image_count + 1) as u32;
    if capabilities.max_image_count != 0 && uncapped > capabilities.max_image_count {
        capabilities.max_image_count
    } else {
        uncapped
    }
}

/// Picks the surface format, preferring sRGB BGRA with the sRGB-nonlinear
/// color space and falling back to the first format the surface offers.
pub fn get_swapchain_surface_format(formats: &Vec<SurfaceFormat>) -> (r: SurfaceFormat)
    requires
        formats@.len() > 0,
    ensures
        r == chosen_surface_format(formats@),
{
    let n = formats.len();
    for i in 0..n
        invariant
            n == formats@.len(),
            n > 0,
            forall|j: int| 0 <= j < i ==> formats@[j] != preferred_surface_format(),
    {
        if formats[i].format == FORMAT_B8G8R8A8_SRGB
            && formats[i].color_space == COLOR_SPACE_SRGB_NONLINEAR
        {
            assert(formats@.contains(preferred_surface_format()));
            return formats[i];
        }
    }
    assert(!formats@.contains(preferred_surface_format()));
    formats[0]
}

/// Picks the present mode: the triple-buffered mode if offered, else FIFO.
pub fn get_swapchain_present_mode(present_modes: &Vec<u32>) -> (r: u32)
    ensures
        r == chosen_present_mode(present_modes@),
{
    let n = present_modes.len();
    for i in 0..n
        invariant
            n == present_modes@.len(),
            forall|j: int| 0 <= j < i ==> present_modes@[j] != PRESENT_MODE_MAILBOX,
    {
        if present_modes[i] == PRESENT_MODE_MAILBOX {
            assert(present_modes@.contains(PRESENT_MODE_MAILBOX));
            return PRESENT_MODE_MAILBOX;
        }
    }
    assert(!present_modes@.contains(PRESENT_MODE_MAILBOX));
    PRESENT_MODE_FIFO
}

/// Computes the swapchain extent from the capabilities and the window's
/// pixel size, clamping only when the surface leaves the extent undefined.
pub fn get_swapchain_extent(capabilities: &SurfaceCapabilities, window_size: Extent2D) -> (r: Extent2D)
    ensures
        r == chosen_extent(*capabilities, window_size),
{
    if capabilities.current_extent.width != UNDEFINED_EXTENT_WIDTH {
        capabilities.current_extent
    } else {
        let width = clamp_u32(
            capabilities.min_image_extent.width,
            capabilities.max_image_extent.width,
            window_size.width,
        );
        let height = clamp_u32(
            capabilities.min_image_extent.height,
            capabilities.max_image_extent.height,
            window_size.height,
        );
        Extent2D { width, height }
    }
}

/// `v` clamped into `[min, max]`; `min` wins when the bounds cross.
fn clamp_u32(min: u32, max: u32, v: u32) -> (r: u32)
    ensures
        r == clamped(min, max, v),
{
    let capped = if v > max { max } else { v };
    if min > capped { min } else { capped }
}

/// Computes the number of images to request for a new swapchain.
pub fn get_swapchain_image_count(capabilities: &SurfaceCapabilities) -> (r: u32)
    requires
        capabilities.min_image_count < u32::MAX,
    ensures
        r == chosen_image_count(*capabilities),
{
    let mut image_count = capabilities.min_image_count + 1;
    if capabilities.max_image_count != 0 && image_count > capabilities.max_image_count {
        image_count = capabilities.max_image_count;
    }
    image_count
}

/// The image count is never zero, and never exceeds the surface's maximum
/// whenever that maximum is a real bound.
pub proof fn lemma_image_count_in_bounds(capabilities: SurfaceCapabilities)
    requires
        capabilities.min_image_count < u32::MAX,
    ensures
        chosen_image_count(capabilities) >= 1,
        capabilities.max_image_count != 0
            ==> chosen_image_count(capabilities) <= capabilities.max_image_count,
        chosen_image_count(capabilities) >= capabilities.min_image_count + 1
            || chosen_image_count(capabilities) == capabilities.max_image_count,
{
}

/// When the surface reports a defined current extent, the plan copies it
/// exactly; otherwise each component of the window size is clamped into
/// the surface's `[min, max]` bounds, and lands inside them whenever the
/// bounds are ordered.
pub proof fn lemma_extent_clamped(capabilities: SurfaceCapabilities, window_size: Extent2D)
    requires
        capabilities.current_extent.width == UNDEFINED_EXTENT_WIDTH,
        capabilities.min_image_extent.width <= capabilities.max_image_extent.width,
        capabilities.min_image_extent.height <= capabilities.max_image_extent.height,
    ensures
        capabilities.min_image_extent.width <= chosen_extent(capabilities, window_size).width
            <= capabilities.max_image_extent.width,
        capabilities.min_image_extent.height <= chosen_extent(capabilities, window_size).height
            <= capabilities.max_image_extent.height,
        capabilities.min_image_extent.width <= window_size.width
                <= capabilities.max_image_extent.width
            ==> chosen_extent(capabilities, window_size).width == window_size.width,
        capabilities.min_image_extent.height <= window_size.height
                <= capabilities.max_image_extent.height
            ==> chosen_extent(capabilities, window_size).height == window_size.height,
{
}

/// All the parameters a new swapchain is created with.
#[derive(Clone, Debug)]
pub struct SwapchainPlan {
    pub surface_format: SurfaceFormat,
    pub present_mode: u32,
    pub extent: Extent2D,
    pub image_count: u32,
    pub sharing_mode: SharingMode,
    /// The queue families the images are shared between; empty under
    /// exclusive sharing.
    pub queue_family_indices: Vec<u32>,
}

/// Why swapchain planning can fail.
#[derive(Clone, Copy, Debug, PartialEq, Eq, Structural)]
pub enum SwapchainError {
    /// The surface offered no formats or no present modes.
    SurfaceCapabilityError,
}

impl SwapchainError {
    /// A short description of the error.
    pub fn message(&self) -> (r: &'static str)
        ensures
            r@ =~= "insufficient surface capabilities: no formats or no present modes"@,
    {
        "insufficient surface capabilities: no formats or no present modes"
    }
}

/// Decides every parameter of a new swapchain from what the surface
/// reports, the window's pixel size, and the chosen queue families.
pub fn plan_swapchain(
    support: &SwapchainSupport,
    window_size: Extent2D,
    indices: QueueFamilyIndices,
) -> (r: Result<SwapchainPlan, SwapchainError>)
    requires
        support.capabilities.min_image_count < u32::MAX,
    ensures
        match r {
            Ok(plan) => {
                &&& support.formats@.len() > 0
                &&& support.present_modes@.len() > 0
                &&& plan.surface_format == chosen_surface_format(support.formats@)
                &&& plan.present_mode == chosen_present_mode(support.present_modes@)
                &&& plan.extent == chosen_extent(support.capabilities, window_size)
                &&& plan.image_count == chosen_image_count(support.capabilities)
                &&& (indices.graphics != indices.present ==> {
                    &&& plan.sharing_mode == SharingMode::Concurrent
                    &&& plan.queue_family_indices@ == seq![indices.graphics, indices.present]
                })
                &&& (indices.graphics == indices.present ==> {
                    &&& plan.sharing_mode == SharingMode::Exclusive
                    &&& plan.queue_family_indices@ == Seq::<u32>::empty()
                })
            },
            Err(e) => {
                &&& e == SwapchainError::SurfaceCapabilityError
                &&& (support.formats@.len() == 0 || support.present_modes@.len() == 0)
            },
        },
{
    if support.formats.len() == 0 || support.present_modes.len() == 0 {
        return Err(SwapchainError::SurfaceCapabilityError);
    }
    let surface_format = get_swapchain_surface_format(&support.formats);
    let present_mode = get_swapchain_present_mode(&support.present_modes);
    let extent = get_swapchain_extent(&support.capabilities, window_size);
    let image_count = get_swapchain_image_count(&support.capabilities);

    let mut queue_family_indices: Vec<u32> = Vec::new();
    let sharing_mode = if indices.graphics != indices.present {
        queue_family_indices.push(indices.graphics);
        queue_family_indices.push(indices.present);
        SharingMode::Concurrent
    } else {
        SharingMode::Exclusive
    };
    assert(indices.graphics != indices.present
        ==> queue_family_indices@ =~= seq![indices.graphics, indices.present]);
    assert(indices.graphics == indices.present
        ==> queue_family_indices@ =~= Seq::<u32>::empty());

    Ok(SwapchainPlan {
        surface_format,
        present_mode,
        extent,
        image_count,
        sharing_mode,
        queue_family_indices,
    })
}

} // verus!
