//! What each decision does, stated directly over its inputs and results.

use vstd::prelude::*;

use crate::device::device_verdict;
use crate::error::{SetupError, SuitabilityError, Unsuitability, VulkanError};
use crate::instance::{instance_needs_portability, is_instance_plan, ApiVersion};
use crate::names::names_of;
use crate::queues::{
    lemma_first_graphics_unique_all, lemma_first_present_unique_all, queue_family_choice, is_first_graphics_family,
    is_first_present_answer, QueueFamilyIndices,
};
use crate::swapchain::{
    chosen_extent, chosen_image_count, chosen_present_mode, chosen_surface_format, is_swapchain_plan, SwapchainPlan,
    SwapchainSupport,
};
use crate::model::{Extent2D, SurfaceCapabilities, SurfaceFormat};
use crate::queues::{unique_families, SharingMode};
use crate::debug::{message_level, LogLevel};
use crate::device::{device_needs_portability, logical_device_extensions};
use crate::instance::{instance_extensions, instance_layers, version_le, packed_version};
use crate::names::{contains_all, required_device_extensions};
use crate::shader::words_hold_bytes;

verus! {

/// Queue families: the graphics family is the first whose flags have bit 0
/// (graphics) set, whatever other bits they have, and the present family is
/// the first whose surface-support answer is yes, when every earlier answer
/// was no.
pub proof fn lemma_queue_families_first_graphics_first_present(
    flags: Seq<u32>,
    answers: Seq<Result<bool, VulkanError>>,
    g: int,
    p: int,
)
    requires
        flags.len() <= u32::MAX,
        answers.len() <= u32::MAX,
        0 <= g < flags.len(),
        flags[g] & 1 == 1,
        forall|j: int| 0 <= j < g ==> #[trigger] flags[j] & 1 != 1,
        0 <= p < answers.len(),
        answers[p] == Ok::<bool, VulkanError>(true),
        forall|j: int| 0 <= j < p ==> #[trigger] answers[j] == Ok::<bool, VulkanError>(false),
    ensures
        queue_family_choice(flags, answers) == Ok::<QueueFamilyIndices, SetupError>(
            QueueFamilyIndices { graphics: g as u32, present: p as u32 },
        ),
{
    assert(is_first_graphics_family(flags, g));
    lemma_first_graphics_unique_all(flags, g);
    assert(is_first_present_answer(answers, p));
    lemma_first_present_unique_all(answers, p);
}

/// Queue families: a failed surface-support query, with every earlier answer
/// no, is reported, whatever the families' flags.
pub proof fn lemma_queue_families_failed_query(
    flags: Seq<u32>,
    answers: Seq<Result<bool, VulkanError>>,
    p: int,
    e: VulkanError,
)
    requires
        0 <= p < answers.len(),
        answers[p] == Err::<bool, VulkanError>(e),
        forall|j: int| 0 <= j < p ==> #[trigger] answers[j] == Ok::<bool, VulkanError>(false),
    ensures
        queue_family_choice(flags, answers) == Err::<QueueFamilyIndices, SetupError>(SetupError::Vulkan(e)),
{
    assert(is_first_present_answer(answers, p));
    lemma_first_present_unique_all(answers, p);
}

/// Queue families: when every surface-support answer is no, or when no family
/// has the graphics bit and no query failed before the first yes, the device
/// lacks its queue families.
pub proof fn lemma_queue_families_missing(flags: Seq<u32>, answers: Seq<Result<bool, VulkanError>>)
    requires
        (forall|j: int| 0 <= j < answers.len() ==> #[trigger] answers[j] == Ok::<bool, VulkanError>(false))
            || ((forall|j: int| 0 <= j < flags.len() ==> #[trigger] flags[j] & 1 != 1) && forall|j: int|
            0 <= j < answers.len() ==> #[trigger] answers[j] is Ok),
    ensures
        queue_family_choice(flags, answers) == Err::<QueueFamilyIndices, SetupError>(
            SetupError::Unsuitable(SuitabilityError(Unsuitability::MissingQueueFamilies)),
        ),
{
    if forall|j: int| 0 <= j < answers.len() ==> #[trigger] answers[j] == Ok::<bool, VulkanError>(false) {
        assert forall|i: int| !is_first_present_answer(answers, i) by {
            if is_first_present_answer(answers, i) {
                assert(answers[i] == Ok::<bool, VulkanError>(false));
            }
        }
    } else {
        assert forall|i: int| !is_first_graphics_family(flags, i) by {
            if is_first_graphics_family(flags, i) {
                assert(flags[i] & 1 != 1);
            }
        }
        if exists|i: int| is_first_present_answer(answers, i) {
            let i = choose|i: int| is_first_present_answer(answers, i);
            assert(answers[i] is Ok);
        }
    }
}

/// Swapchain: whatever the surface supports, the images are single-layer
/// colour attachments with opaque alpha, clipped, replacing no swapchain, and
/// presented with the surface's current transform.
pub proof fn lemma_swapchain_fixed_settings(
    plan: SwapchainPlan,
    indices: QueueFamilyIndices,
    support: SwapchainSupport,
    window_size: Extent2D,
)
    requires
        is_swapchain_plan(plan, indices, support, window_size),
    ensures
        plan.image_usage == 0x10,
        plan.image_array_layers == 1,
        plan.composite_alpha == 1,
        plan.clipped,
        plan.old_swapchain == 0,
        plan.pre_transform == support.capabilites.current_transform,
{
}

/// Instance: on macOS with a loader of exactly 1.3.216 the instance enumerates
/// portability devices and enables both portability extensions, whether or
/// not validation is on; otherwise it sets no flag.
pub proof fn lemma_instance_portability(
    plan: crate::instance::InstancePlan,
    window_extensions: Seq<String>,
    validation_enabled: bool,
    is_macos: bool,
    entry_version: Result<ApiVersion, VulkanError>,
)
    requires
        is_instance_plan(
            plan,
            window_extensions,
            validation_enabled,
            instance_needs_portability(is_macos, entry_version),
        ),
    ensures
        is_macos && entry_version == Ok::<ApiVersion, VulkanError>(ApiVersion { major: 1, minor: 3, patch: 216 })
            ==> {
            &&& plan.flags == 1
            &&& names_of(plan.extensions@).contains("VK_KHR_get_physical_device_properties2"@)
            &&& names_of(plan.extensions@).contains("VK_KHR_portability_enumeration"@)
        },
        !(is_macos && entry_version == Ok::<ApiVersion, VulkanError>(ApiVersion { major: 1, minor: 3, patch: 216 }))
            ==> plan.flags == 0,
{
    let names = names_of(plan.extensions@);
    if is_macos && entry_version == Ok::<ApiVersion, VulkanError>(ApiVersion { major: 1, minor: 3, patch: 216 }) {
        let n = names.len() as int;
        assert(names[n - 2] == "VK_KHR_get_physical_device_properties2"@);
        assert(names[n - 1] == "VK_KHR_portability_enumeration"@);
    }
}

/// Judging a device: it passes exactly when it is a discrete GPU, supports
/// geometry shaders, has its queue families and the device extensions, and
/// offers a format and a present mode. A device of another type is refused
/// for that reason first; the later reasons come in the order listed.
pub proof fn lemma_device_verdict_meaning(
    device_type: i32,
    geometry_shader: u32,
    queue_families: Result<QueueFamilyIndices, SetupError>,
    extensions: Result<(), SetupError>,
    swapchain_support: Result<SwapchainSupport, SetupError>,
)
    ensures
        device_verdict(device_type, geometry_shader, queue_families, extensions, swapchain_support) is Ok <==> {
            &&& device_type == 2
            &&& geometry_shader == 1
            &&& queue_families is Ok
            &&& extensions is Ok
            &&& swapchain_support is Ok
            &&& swapchain_support->Ok_0.formats@.len() > 0
            &&& swapchain_support->Ok_0.present_modes@.len() > 0
        },
        device_type != 2 ==> device_verdict(device_type, geometry_shader, queue_families, extensions, swapchain_support)
            == Err::<(), SetupError>(SetupError::Unsuitable(SuitabilityError(Unsuitability::NotDiscreteGpu))),
        device_type == 2 && geometry_shader != 1 ==> device_verdict(
            device_type,
            geometry_shader,
            queue_families,
            extensions,
            swapchain_support,
        ) == Err::<(), SetupError>(SetupError::Unsuitable(SuitabilityError(Unsuitability::NoGeometryShader))),
        device_type == 2 && geometry_shader == 1 && queue_families is Err ==> device_verdict(
            device_type,
            geometry_shader,
            queue_families,
            extensions,
            swapchain_support,
        ) == Err::<(), SetupError>(queue_families->Err_0),
        device_type == 2 && geometry_shader == 1 && queue_families is Ok && extensions is Err ==> device_verdict(
            device_type,
            geometry_shader,
            queue_families,
            extensions,
            swapchain_support,
        ) == Err::<(), SetupError>(extensions->Err_0),
        device_type == 2 && geometry_shader == 1 && queue_families is Ok && extensions is Ok && swapchain_support is Err
            ==> device_verdict(device_type, geometry_shader, queue_families, extensions, swapchain_support) == Err::<
            (),
            SetupError,
        >(swapchain_support->Err_0),
        device_type == 2 && geometry_shader == 1 && queue_families is Ok && extensions is Ok
            && swapchain_support is Ok && (swapchain_support->Ok_0.formats@.len() == 0
            || swapchain_support->Ok_0.present_modes@.len() == 0)
            ==> device_verdict(device_type, geometry_shader, queue_families, extensions, swapchain_support) == Err::<
            (),
            SetupError,
        >(SetupError::Unsuitable(SuitabilityError(Unsuitability::InsufficientSwapchainSupport))),
{
}

/// Present mode: mailbox is chosen whenever it is offered, wherever it stands
/// in the list; otherwise FIFO.
pub proof fn lemma_present_mode_choice(modes: Seq<i32>)
    ensures
        forall|i: int| 0 <= i < modes.len() && #[trigger] modes[i] == 1 ==> chosen_present_mode(modes) == 1,
        (forall|i: int| 0 <= i < modes.len() ==> #[trigger] modes[i] != 1) ==> chosen_present_mode(modes) == 2,
{
    assert forall|i: int| 0 <= i < modes.len() && #[trigger] modes[i] == 1 implies chosen_present_mode(modes) == 1 by {
        assert(modes.contains(modes[i]));
    }
}

/// Surface format: 8-bit BGRA in sRGB (format 50, colour space 0) is chosen
/// whenever it is offered, wherever it stands; otherwise the first offered.
pub proof fn lemma_surface_format_choice(formats: Seq<SurfaceFormat>)
    ensures
        forall|i: int|
            0 <= i < formats.len() && #[trigger] formats[i] == (SurfaceFormat { format: 50, color_space: 0 })
                ==> chosen_surface_format(formats) == (SurfaceFormat { format: 50, color_space: 0 }),
        (forall|i: int| 0 <= i < formats.len() ==> #[trigger] formats[i] != (SurfaceFormat { format: 50, color_space: 0 }))
            ==> chosen_surface_format(formats) == formats[0],
{
    assert forall|i: int|
        0 <= i < formats.len() && #[trigger] formats[i] == (SurfaceFormat { format: 50, color_space: 0 }) implies
        chosen_surface_format(formats) == (SurfaceFormat { format: 50, color_space: 0 }) by {
        assert(formats.contains(formats[i]));
    }
}

/// Extent: a surface with a current width other than `u32::MAX` fixes the
/// extent; otherwise each side is the window's, raised to the surface's
/// minimum or lowered to its maximum where it falls outside them.
pub proof fn lemma_extent_choice(window_size: Extent2D, c: SurfaceCapabilities)
    ensures
        c.current_extent.width != 0xffff_ffff ==> chosen_extent(window_size, c) == c.current_extent,
        c.current_extent.width == 0xffff_ffff ==> {
            let r = chosen_extent(window_size, c);
            &&& c.min_image_extent.width <= window_size.width <= c.max_image_extent.width ==> r.width == window_size.width
            &&& window_size.width < c.min_image_extent.width ==> r.width == c.min_image_extent.width
            &&& c.min_image_extent.width <= c.max_image_extent.width < window_size.width
                ==> r.width == c.max_image_extent.width
            &&& c.min_image_extent.height <= window_size.height <= c.max_image_extent.height
                ==> r.height == window_size.height
            &&& window_size.height < c.min_image_extent.height ==> r.height == c.min_image_extent.height
            &&& c.min_image_extent.height <= c.max_image_extent.height < window_size.height
                ==> r.height == c.max_image_extent.height
        },
{
}

/// Image count: one more than the surface's minimum, lowered to its maximum
/// where it has one (a nonzero maximum) and one more would exceed it.
pub proof fn lemma_image_count_choice(c: SurfaceCapabilities)
    requires
        c.min_image_count < 0xffff_ffff,
    ensures
        c.max_image_count == 0 ==> chosen_image_count(c) == c.min_image_count + 1,
        c.max_image_count > c.min_image_count ==> chosen_image_count(c) == c.min_image_count + 1,
        c.max_image_count != 0 && c.max_image_count <= c.min_image_count ==> chosen_image_count(c) == c.max_image_count,
{
}

/// Swapchain plan: every field follows from the queue families, the surface
/// support and the window size as follows.
pub proof fn lemma_swapchain_plan_fields(
    plan: SwapchainPlan,
    indices: QueueFamilyIndices,
    support: SwapchainSupport,
    window_size: Extent2D,
)
    requires
        is_swapchain_plan(plan, indices, support, window_size),
        support.formats@.len() > 0,
        support.capabilites.min_image_count < 0xffff_ffff,
    ensures
        support.formats@.contains(SurfaceFormat { format: 50, color_space: 0 })
            ==> plan.surface_format == (SurfaceFormat { format: 50, color_space: 0 }),
        !support.formats@.contains(SurfaceFormat { format: 50, color_space: 0 }) ==> plan.surface_format
            == support.formats@[0],
        support.present_modes@.contains(1) ==> plan.present_mode == 1,
        !support.present_modes@.contains(1) ==> plan.present_mode == 2,
        support.capabilites.current_extent.width != 0xffff_ffff ==> plan.extent == support.capabilites.current_extent,
        plan.extent == chosen_extent(window_size, support.capabilites),
        plan.image_count == chosen_image_count(support.capabilites),
        support.capabilites.max_image_count == 0 || support.capabilites.max_image_count
            > support.capabilites.min_image_count ==> plan.image_count == support.capabilites.min_image_count + 1,
        support.capabilites.max_image_count != 0 ==> plan.image_count <= support.capabilites.max_image_count,
        indices.graphics != indices.present ==> plan.image_sharing_mode == SharingMode::Concurrent
            && plan.queue_family_indices@ == seq![indices.graphics, indices.present],
        indices.graphics == indices.present ==> plan.image_sharing_mode == SharingMode::Exclusive
            && plan.queue_family_indices@.len() == 0,
{
    lemma_image_count_choice(support.capabilites);
}

/// Unique queue families: one entry when graphics and present share a
/// family, else the graphics family then the present family.
pub proof fn lemma_unique_families(indices: QueueFamilyIndices)
    ensures
        indices.graphics == indices.present ==> unique_families(indices) == seq![indices.graphics],
        indices.graphics != indices.present ==> unique_families(indices) == seq![indices.graphics, indices.present],
{
}

/// Message levels: error severity and above log as errors, warning and above
/// as warnings, info and above as debug, the rest as trace.
pub proof fn lemma_message_level_thresholds(severity: u32)
    ensures
        severity >= 0x1000 ==> message_level(severity) == LogLevel::Error,
        0x100 <= severity < 0x1000 ==> message_level(severity) == LogLevel::Warn,
        0x10 <= severity < 0x100 ==> message_level(severity) == LogLevel::Debug,
        severity < 0x10 ==> message_level(severity) == LogLevel::Trace,
{
}

/// Versions compare by major, then minor, then patch.
pub proof fn lemma_version_comparison(a: ApiVersion, b: ApiVersion)
    ensures
        a.major < b.major ==> version_le(a, b) && !version_le(b, a),
        a.major == b.major && a.minor < b.minor ==> version_le(a, b) && !version_le(b, a),
        a.major == b.major && a.minor == b.minor ==> (version_le(a, b) <==> a.patch <= b.patch),
{
}

/// Device extensions: a device has what it needs exactly when it offers
/// `VK_KHR_swapchain`.
pub proof fn lemma_required_device_extensions(available: Seq<String>)
    ensures
        contains_all(names_of(available), required_device_extensions()) <==> exists|j: int|
            0 <= j < available.len() && #[trigger] available[j]@ == "VK_KHR_swapchain"@,
{
    if exists|j: int| 0 <= j < available.len() && #[trigger] available[j]@ == "VK_KHR_swapchain"@ {
        let j = choose|j: int| 0 <= j < available.len() && #[trigger] available[j]@ == "VK_KHR_swapchain"@;
        assert(names_of(available)[j] == "VK_KHR_swapchain"@);
        assert(required_device_extensions()[0] == "VK_KHR_swapchain"@);
    }
    if contains_all(names_of(available), required_device_extensions()) {
        assert(required_device_extensions()[0] == "VK_KHR_swapchain"@);
        assert(names_of(available).contains("VK_KHR_swapchain"@));
        let j = choose|j: int| 0 <= j < names_of(available).len() && names_of(available)[j] == "VK_KHR_swapchain"@;
        assert(available[j]@ == "VK_KHR_swapchain"@);
    }
}

/// The names of a list of strings are the strings' contents, in order.
pub proof fn lemma_names_of(list: Seq<String>)
    ensures
        names_of(list).len() == list.len(),
        forall|i: int| 0 <= i < list.len() ==> #[trigger] names_of(list)[i] == list[i]@,
{
}

/// Logical device extensions: `VK_KHR_swapchain`, followed by
/// `VK_KHR_portability_enumeration` exactly on macOS with a loader of version
/// 1.3.216 or later.
pub proof fn lemma_logical_device_extensions(is_macos: bool, entry_version: Result<ApiVersion, VulkanError>)
    ensures
        ({
            let later = entry_version matches Ok(v) && (v.major > 1 || (v.major == 1 && v.minor > 3) || (v.major == 1
                && v.minor == 3 && v.patch >= 216));
            device_needs_portability(is_macos, entry_version) <==> is_macos && later
        }),
        logical_device_extensions(device_needs_portability(is_macos, entry_version))[0] == "VK_KHR_swapchain"@,
        device_needs_portability(is_macos, entry_version) ==> logical_device_extensions(true) == seq![
            "VK_KHR_swapchain"@,
            "VK_KHR_portability_enumeration"@,
        ],
        !device_needs_portability(is_macos, entry_version) ==> logical_device_extensions(false) == seq![
            "VK_KHR_swapchain"@,
        ],
{
    assert(logical_device_extensions(true) =~= seq!["VK_KHR_swapchain"@, "VK_KHR_portability_enumeration"@]);
    assert(logical_device_extensions(false) =~= seq!["VK_KHR_swapchain"@]);
}

/// Instance plan: the validation layer alone when validation is on, else no
/// layer; the window's extensions first, in order, then debug utils exactly
/// when validation is on; the messenger with validation; application and
/// engine 1.0.0 named "Vulkan Tutorial" and "No Engine".
pub proof fn lemma_instance_plan_fields(
    plan: crate::instance::InstancePlan,
    window_extensions: Seq<String>,
    validation_enabled: bool,
    portability: bool,
)
    requires
        is_instance_plan(plan, window_extensions, validation_enabled, portability),
    ensures
        validation_enabled ==> names_of(plan.layers@) == seq!["VK_LAYER_KHRONOS_validation"@],
        !validation_enabled ==> plan.layers@.len() == 0,
        names_of(plan.extensions@).len() == window_extensions.len() + (if validation_enabled { 1int } else { 0 }) + (
        if portability { 2int } else { 0 }),
        forall|i: int| 0 <= i < window_extensions.len() ==> #[trigger] names_of(plan.extensions@)[i]
            == window_extensions[i]@,
        validation_enabled ==> names_of(plan.extensions@)[window_extensions.len() as int] == "VK_EXT_debug_utils"@,
        plan.debug_messenger == validation_enabled,
        plan.flags == (if portability { 1u32 } else { 0u32 }),
        plan.application.application_name@ == "Vulkan Tutorial"@,
        plan.application.engine_name@ == "No Engine"@,
        plan.application.application_version == 0x40_0000,
        plan.application.engine_version == 0x40_0000,
        plan.application.api_version == 0x40_0000,
{
    assert(packed_version(1, 0, 0) == 0x40_0000u32) by (bit_vector);
    assert(instance_layers(true) =~= seq!["VK_LAYER_KHRONOS_validation"@]);
    let w = names_of(window_extensions);
    let all = instance_extensions(w, validation_enabled, portability);
    assert forall|i: int| 0 <= i < window_extensions.len() implies #[trigger] names_of(plan.extensions@)[i]
        == window_extensions[i]@ by {
        assert(w[i] == window_extensions[i]@);
        assert(all[i] == w[i]);
    }
}

/// Shader code: each word is the next four bytes, all assembled lowest byte
/// first or all highest byte first.
pub proof fn lemma_shader_words(words: Seq<u32>, bytes: Seq<u8>)
    requires
        words_hold_bytes(words, bytes),
    ensures
        words.len() * 4 == bytes.len(),
        (forall|i: int| 0 <= i < words.len() ==> #[trigger] words[i] == bytes[4 * i] + bytes[4 * i + 1] * 256
            + bytes[4 * i + 2] * 65536 + bytes[4 * i + 3] * 16777216) || (forall|i: int| 0 <= i < words.len()
            ==> #[trigger] words[i] == bytes[4 * i + 3] + bytes[4 * i + 2] * 256 + bytes[4 * i + 1] * 65536 + bytes[4
            * i] * 16777216),
{
}

} // verus!
