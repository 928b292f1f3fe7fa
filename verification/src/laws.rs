//! Properties that relate the setup functions to one another.

use vstd::prelude::*;

use crate::debug::{level_rank, message_level};
use crate::device::{device_needs_portability, device_verdict, swapchain_support_adequate};
use crate::error::{SetupError, VulkanError};
use crate::instance::{instance_extensions, instance_layers, instance_needs_portability, version_le, ApiVersion};
use crate::model::{Extent2D, SurfaceFormat, PRESENT_MODE_FIFO, PRESENT_MODE_MAILBOX};
use crate::names::contains_all;
use crate::queues::{unique_families, QueueFamilyIndices, SharingMode};
use crate::swapchain::{chosen_present_mode, chosen_surface_format, is_swapchain_plan, SwapchainPlan, SwapchainSupport};

verus! {

/// A device that passed its checks had its queue families chosen and its
/// surface queried, and offers at least one surface format and one present
/// mode: choosing the swapchain's format can fall back on the first one.
pub proof fn lemma_accepted_device_offers_formats(
    device_type: i32,
    geometry_shader: u32,
    queue_families: Result<QueueFamilyIndices, SetupError>,
    extensions: Result<(), SetupError>,
    swapchain_support: Result<SwapchainSupport, SetupError>,
)
    requires
        device_verdict(device_type, geometry_shader, queue_families, extensions, swapchain_support) is Ok,
    ensures
        queue_families is Ok,
        extensions is Ok,
        swapchain_support is Ok,
        swapchain_support_adequate(swapchain_support->Ok_0),
        swapchain_support->Ok_0.formats@.len() > 0,
        swapchain_support->Ok_0.present_modes@.len() > 0,
{
}

/// The chosen surface format is always one of those offered.
pub proof fn lemma_chosen_format_is_offered(formats: Seq<SurfaceFormat>)
    requires
        formats.len() > 0,
    ensures
        formats.contains(chosen_surface_format(formats)),
{
}

/// The chosen present mode is mailbox or FIFO, and it is one the surface
/// supports whenever the surface supports FIFO (which every Vulkan surface
/// does).
pub proof fn lemma_chosen_present_mode_is_supported(modes: Seq<i32>)
    ensures
        chosen_present_mode(modes) == PRESENT_MODE_MAILBOX || chosen_present_mode(modes) == PRESENT_MODE_FIFO,
        modes.contains(PRESENT_MODE_FIFO) ==> modes.contains(chosen_present_mode(modes)),
{
}

/// The swapchain's images are shared concurrently exactly when the logical
/// device creates queues from two families, and then between exactly those
/// families, in the same order.
pub proof fn lemma_sharing_follows_unique_families(
    plan: SwapchainPlan,
    indices: QueueFamilyIndices,
    support: SwapchainSupport,
    window_size: Extent2D,
)
    requires
        is_swapchain_plan(plan, indices, support, window_size),
    ensures
        (plan.image_sharing_mode == SharingMode::Concurrent) <==> unique_families(indices).len() == 2,
        plan.image_sharing_mode == SharingMode::Concurrent ==> plan.queue_family_indices@ == unique_families(indices),
        plan.image_sharing_mode == SharingMode::Exclusive ==> unique_families(indices).len() == 1,
{
}

/// Versions are totally ordered: the order is reflexive, antisymmetric,
/// transitive and total.
pub proof fn lemma_version_order_total(a: ApiVersion, b: ApiVersion, c: ApiVersion)
    ensures
        version_le(a, a),
        version_le(a, b) && version_le(b, a) ==> a == b,
        version_le(a, b) && version_le(b, c) ==> version_le(a, c),
        version_le(a, b) || version_le(b, a),
{
}

/// When the instance is created with portability enumeration, the logical
/// device is created with the portability extension too.
pub proof fn lemma_instance_portability_implies_device_portability(
    is_macos: bool,
    entry_version: Result<ApiVersion, VulkanError>,
)
    ensures
        instance_needs_portability(is_macos, entry_version) ==> device_needs_portability(is_macos, entry_version),
{
}

/// The instance enables no layer that the loader does not offer, whenever its
/// validation check passed.
pub proof fn lemma_enabled_layers_are_available(available: Seq<Seq<char>>, validation_enabled: bool)
    requires
        validation_enabled ==> available.contains("VK_LAYER_KHRONOS_validation"@),
    ensures
        contains_all(available, instance_layers(validation_enabled)),
{
}

/// The instance enables the debug utils extension, which the debug messenger
/// needs, whenever validation is on; and every extension the window needs
/// stays enabled.
pub proof fn lemma_instance_keeps_required_extensions(
    window_extensions: Seq<Seq<char>>,
    validation_enabled: bool,
    portability: bool,
)
    ensures
        validation_enabled ==> instance_extensions(window_extensions, validation_enabled, portability).contains(
            "VK_EXT_debug_utils"@,
        ),
        contains_all(instance_extensions(window_extensions, validation_enabled, portability), window_extensions),
{
    let with_debug = if validation_enabled {
        window_extensions.push("VK_EXT_debug_utils"@)
    } else {
        window_extensions
    };
    let all = instance_extensions(window_extensions, validation_enabled, portability);
    assert forall|k: int| 0 <= k < window_extensions.len() implies all.contains(#[trigger] window_extensions[k]) by {
        assert(with_debug[k] == window_extensions[k]);
        assert(all[k] == window_extensions[k]);
    }
    if validation_enabled {
        let i = window_extensions.len() as int;
        assert(with_debug[i] == "VK_EXT_debug_utils"@);
        assert(all[i] == "VK_EXT_debug_utils"@);
    }
}

/// A more severe message is never logged at a less serious level.
pub proof fn lemma_message_level_monotone(a: u32, b: u32)
    requires
        a <= b,
    ensures
        level_rank(message_level(a)) <= level_rank(message_level(b)),
{
}

/// A device that offers every required extension still does after it offers
/// more.
pub proof fn lemma_extension_check_monotone(
    available: Seq<Seq<char>>,
    more: Seq<Seq<char>>,
    required: Seq<Seq<char>>,
)
    requires
        contains_all(available, required),
        forall|k: int| 0 <= k < available.len() ==> more.contains(#[trigger] available[k]),
    ensures
        contains_all(more, required),
{
    assert forall|k: int| 0 <= k < required.len() implies more.contains(#[trigger] required[k]) by {
        assert(available.contains(required[k]));
        let j = choose|j: int| 0 <= j < available.len() && available[j] == required[k];
        assert(more.contains(available[j]));
    }
}

} // verus!
