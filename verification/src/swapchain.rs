//! Choosing the swapchain's format, present mode, extent, image count and
//! sharing mode from what the surface supports.

use vstd::prelude::*;

use crate::error::{SetupError, VulkanError};
use crate::queues::{image_sharing, QueueFamilyIndices, SharingMode};
use crate::model::{
    Extent2D, SurfaceCapabilities, SurfaceFormat, COLOR_SPACE_SRGB_NONLINEAR, FORMAT_B8G8R8A8_SRGB,
    PRESENT_MODE_FIFO, PRESENT_MODE_MAILBOX, COMPOSITE_ALPHA_OPAQUE, IMAGE_USAGE_COLOR_ATTACHMENT, NULL_HANDLE,
};

verus! {

/// What a physical device supports for presenting to the window's surface.
#[derive(Clone, Debug)]
pub struct SwapchainSupport {
    pub capabilites: SurfaceCapabilities,
    pub formats: Vec<SurfaceFormat>,
    pub present_modes: Vec<i32>,
}

impl SwapchainSupport {
    /// Gathers the three surface queries into one value. The queries are made
    /// in this order and the first one that failed decides the error.
    pub fn get(
        capabilities: Result<SurfaceCapabilities, VulkanError>,
        formats: Result<Vec<SurfaceFormat>, VulkanError>,
        present_modes: Result<Vec<i32>, VulkanError>,
    ) -> (r: Result<SwapchainSupport, SetupError>)
        ensures
            match (capabilities, formats, present_modes) {
                (Err(e), _, _) => r == Err::<SwapchainSupport, SetupError>(SetupError::Vulkan(e)),
                (Ok(_), Err(e), _) => r == Err::<SwapchainSupport, SetupError>(SetupError::Vulkan(e)),
                (Ok(_), Ok(_), Err(e)) => r == Err::<SwapchainSupport, SetupError>(SetupError::Vulkan(e)),
                (Ok(c), Ok(f), Ok(p)) => r matches Ok(s) && s.capabilites == c && s.formats@ == f@
                    && s.present_modes@ == p@,
            },
    {
        let capabilites = match capabilities {
            Ok(c) => c,
            Err(e) => return Err(SetupError::Vulkan(e)),
        };
        let formats = match formats {
            Ok(f) => f,
            Err(e) => return Err(SetupError::Vulkan(e)),
        };
        let present_modes = match present_modes {
            Ok(p) => p,
            Err(e) => return Err(SetupError::Vulkan(e)),
        };
        Ok(SwapchainSupport { capabilites, formats, present_modes })
    }
}

/// The surface format that is preferred: 8-bit BGRA in sRGB.
pub open spec fn preferred_surface_format() -> SurfaceFormat {
    SurfaceFormat { format: FORMAT_B8G8R8A8_SRGB, color_space: COLOR_SPACE_SRGB_NONLINEAR }
}

/// The chosen surface format: the preferred one where it is offered, else the
/// first offered.
pub open spec fn chosen_surface_format(formats: Seq<SurfaceFormat>) -> SurfaceFormat {
    if formats.contains(preferred_surface_format()) {
        preferred_surface_format()
    } else {
        formats[0]
    }
}

/// Picks the surface format for the swapchain.
pub fn get_swapchain_surface_format(formats: &[SurfaceFormat]) -> (r: SurfaceFormat)
    requires
        formats@.len() > 0,
    ensures
        r == chosen_surface_format(formats@),
        formats@.contains(r),
{
    let mut i: usize = 0;
    while i < formats.len()
        invariant
            0 <= i <= formats@.len(),
            forall|j: int| 0 <= j < i ==> formats@[j] != preferred_surface_format(),
        decreases formats@.len() - i,
    {
        let f = formats[i];
        if f.format == FORMAT_B8G8R8A8_SRGB && f.color_space == COLOR_SPACE_SRGB_NONLINEAR {
            proof {
                assert(formats@[i as int] == preferred_surface_format());
                assert(formats@.contains(preferred_surface_format()));
            }
            return f;
        }
        i = i + 1;
    }
    formats[0]
}

/// The chosen present mode: mailbox where it is offered, else FIFO.
pub open spec fn chosen_present_mode(modes: Seq<i32>) -> i32 {
    if modes.contains(PRESENT_MODE_MAILBOX) {
        PRESENT_MODE_MAILBOX
    } else {
        PRESENT_MODE_FIFO
    }
}

/// Picks the present mode for the swapchain.
pub fn get_swapchain_present_mode(present_modes: &[i32]) -> (r: i32)
    ensures
        r == chosen_present_mode(present_modes@),
{
    let mut i: usize = 0;
    while i < present_modes.len()
        invariant
            0 <= i <= present_modes@.len(),
            forall|j: int| 0 <= j < i ==> present_modes@[j] != PRESENT_MODE_MAILBOX,
        decreases present_modes@.len() - i,
    {
        if present_modes[i] == PRESENT_MODE_MAILBOX {
            return PRESENT_MODE_MAILBOX;
        }
        i = i + 1;
    }
    PRESENT_MODE_FIFO
}

/// `v` clamped into `lo..=hi`.
pub open spec fn clamp(v: u32, lo: u32, hi: u32) -> u32 {
    if v < lo {
        lo
    } else if v > hi {
        hi
    } else {
        v
    }
}

fn clamp_u32(v: u32, lo: u32, hi: u32) -> (r: u32)
    requires
        lo <= hi,
    ensures
        r == clamp(v, lo, hi),
{
    if v < lo {
        lo
    } else if v > hi {
        hi
    } else {
        v
    }
}

/// Whether the surface leaves the extent to the application, which it says
/// with a current width of `u32::MAX`.
pub open spec fn extent_is_free(capabilities: SurfaceCapabilities) -> bool {
    capabilities.current_extent.width == u32::MAX
}

/// The chosen extent: the surface's current extent where the surface fixes it,
/// else the window's size clamped into the surface's bounds.
pub open spec fn chosen_extent(window_size: Extent2D, capabilities: SurfaceCapabilities) -> Extent2D {
    if !extent_is_free(capabilities) {
        capabilities.current_extent
    } else {
        Extent2D {
            width: clamp(
                window_size.width,
                capabilities.min_image_extent.width,
                capabilities.max_image_extent.width,
            ),
            height: clamp(
                window_size.height,
                capabilities.min_image_extent.height,
                capabilities.max_image_extent.height,
            ),
        }
    }
}

/// Whether the surface's extent bounds are ordered, wherever they are used.
pub open spec fn extent_bounds_ordered(capabilities: SurfaceCapabilities) -> bool {
    extent_is_free(capabilities) ==> {
        &&& capabilities.min_image_extent.width <= capabilities.max_image_extent.width
        &&& capabilities.min_image_extent.height <= capabilities.max_image_extent.height
    }
}

/// Picks the swapchain's extent, given the window's inner size in pixels.
pub fn get_swapchain_extent(window_size: Extent2D, capabilities: SurfaceCapabilities) -> (r: Extent2D)
    requires
        extent_bounds_ordered(capabilities),
    ensures
        r == chosen_extent(window_size, capabilities),
        extent_is_free(capabilities) ==> {
            &&& capabilities.min_image_extent.width <= r.width <= capabilities.max_image_extent.width
            &&& capabilities.min_image_extent.height <= r.height <= capabilities.max_image_extent.height
        },
{
    if capabilities.current_extent.width != u32::MAX {
        capabilities.current_extent
    } else {
        Extent2D {
            width: clamp_u32(
                window_size.width,
                capabilities.min_image_extent.width,
                capabilities.max_image_extent.width,
            ),
            height: clamp_u32(
                window_size.height,
                capabilities.min_image_extent.height,
                capabilities.max_image_extent.height,
            ),
        }
    }
}

/// The chosen number of swapchain images: one more than the minimum, but no
/// more than the maximum where the surface has one (a maximum of 0 means none).
pub open spec fn chosen_image_count(capabilities: SurfaceCapabilities) -> u32 {
    let wanted = (capabilities.min_image_count + 1) as u32;
    if capabilities.max_image_count != 0 && wanted > capabilities.max_image_count {
        capabilities.max_image_count
    } else {
        wanted
    }
}

/// Picks the number of images in the swapchain.
pub fn swapchain_image_count(capabilities: &SurfaceCapabilities) -> (r: u32)
    requires
        capabilities.min_image_count < u32::MAX,
    ensures
        r == chosen_image_count(*capabilities),
        capabilities.max_image_count != 0 ==> r <= capabilities.max_image_count,
        capabilities.max_image_count == 0 || capabilities.min_image_count < capabilities.max_image_count
            ==> r == capabilities.min_image_count + 1,
        r >= 1,
{
    let mut image_count = capabilities.min_image_count + 1;
    if capabilities.max_image_count != 0 && image_count > capabilities.max_image_count {
        image_count = capabilities.max_image_count;
    }
    image_count
}

/// Everything the swapchain is created with that depends on the device.
pub struct SwapchainPlan {
    pub surface_format: SurfaceFormat,
    pub present_mode: i32,
    pub extent: Extent2D,
    pub image_count: u32,
    pub image_sharing_mode: SharingMode,
    /// The queue families the images are shared between (empty when exclusive).
    pub queue_family_indices: Vec<u32>,
    /// The transform applied to images before presentation: the surface's current one.
    pub pre_transform: u32,
    /// The number of layers in each image.
    pub image_array_layers: u32,
    /// The usage bits of the images.
    pub image_usage: u32,
    /// The composite-alpha bit used with other windows.
    pub composite_alpha: u32,
    /// Whether pixels hidden by other windows may be discarded.
    pub clipped: bool,
    /// The raw handle of the swapchain this one replaces.
    pub old_swapchain: u64,
}

/// Whether the surface support can be planned for without a failure: a format
/// to fall back on, an image count that leaves room for one more, and ordered
/// extent bounds where the extent is free.
pub open spec fn swapchain_support_plannable(support: SwapchainSupport) -> bool {
    &&& support.formats@.len() > 0
    &&& support.capabilites.min_image_count < u32::MAX
    &&& extent_bounds_ordered(support.capabilites)
}

/// Whether `plan` is the swapchain plan for these queue families, this
/// surface support and this window size.
pub open spec fn is_swapchain_plan(
    plan: SwapchainPlan,
    indices: QueueFamilyIndices,
    support: SwapchainSupport,
    window_size: Extent2D,
) -> bool {
    &&& plan.surface_format == chosen_surface_format(support.formats@)
    &&& plan.present_mode == chosen_present_mode(support.present_modes@)
    &&& plan.extent == chosen_extent(window_size, support.capabilites)
    &&& plan.image_count == chosen_image_count(support.capabilites)
    &&& plan.pre_transform == support.capabilites.current_transform
    &&& plan.image_array_layers == 1
    &&& plan.image_usage == IMAGE_USAGE_COLOR_ATTACHMENT
    &&& plan.composite_alpha == COMPOSITE_ALPHA_OPAQUE
    &&& plan.clipped
    &&& plan.old_swapchain == NULL_HANDLE
    &&& if indices.graphics != indices.present {
        &&& plan.image_sharing_mode == SharingMode::Concurrent
        &&& plan.queue_family_indices@ == seq![indices.graphics, indices.present]
    } else {
        &&& plan.image_sharing_mode == SharingMode::Exclusive
        &&& plan.queue_family_indices@.len() == 0
    }
}

/// Plans the swapchain from the outcome of choosing queue families, the
/// outcome of querying surface support and the window's inner size in pixels.
/// The queue family error comes first, then the surface query's.
pub fn create_swapchain(
    queue_families: Result<QueueFamilyIndices, SetupError>,
    swapchain_support: Result<SwapchainSupport, SetupError>,
    window_size: Extent2D,
) -> (r: Result<SwapchainPlan, SetupError>)
    requires
        queue_families is Ok ==> (swapchain_support matches Ok(s) ==> swapchain_support_plannable(s)),
    ensures
        match (queue_families, swapchain_support) {
            (Err(e), _) => r == Err::<SwapchainPlan, SetupError>(e),
            (Ok(_), Err(e)) => r == Err::<SwapchainPlan, SetupError>(e),
            (Ok(indices), Ok(support)) => r matches Ok(plan)
                && is_swapchain_plan(plan, indices, support, window_size),
        },
{
    let indices = match queue_families {
        Ok(q) => q,
        Err(e) => return Err(e),
    };
    let support = match swapchain_support {
        Ok(s) => s,
        Err(e) => return Err(e),
    };
    let surface_format = get_swapchain_surface_format(support.formats.as_slice());
    let present_mode = get_swapchain_present_mode(support.present_modes.as_slice());
    let extent = get_swapchain_extent(window_size, support.capabilites);
    let image_count = swapchain_image_count(&support.capabilites);
    let (image_sharing_mode, queue_family_indices) = image_sharing(&indices);
    Ok(SwapchainPlan {
        surface_format,
        present_mode,
        extent,
        image_count,
        image_sharing_mode,
        queue_family_indices,
        pre_transform: support.capabilites.current_transform,
        image_array_layers: 1,
        image_usage: IMAGE_USAGE_COLOR_ATTACHMENT,
        composite_alpha: COMPOSITE_ALPHA_OPAQUE,
        clipped: true,
        old_swapchain: NULL_HANDLE,
    })
}

} // verus!
