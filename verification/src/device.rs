//! Judging and picking a physical device, and planning the logical device.

use vstd::prelude::*;

use crate::error::{unsuitable, SetupError, SuitabilityError, Unsuitability, VulkanError};
use crate::instance::{portability_macos_version, spec_portability_macos_version, version_at_least, version_le, ApiVersion};
use crate::model::{no_features_enabled, DeviceFeatures, PHYSICAL_DEVICE_TYPE_DISCRETE_GPU, VK_TRUE};
use crate::names::{
    contains_all, contains_all_names, device_extension_names, names_of,
    portability_enumeration_extension_name, required_device_extensions,
};
use crate::queues::{unique_families, unique_queue_families, QueueFamilyIndices};
use crate::swapchain::SwapchainSupport;

verus! {

/// Checks that a device offers every required device extension, given the
/// result of asking it for its extensions.
pub fn check_physical_device_extentions(available: Result<Vec<String>, VulkanError>) -> (r: Result<(), SetupError>)
    ensures
        match available {
            Err(e) => r == Err::<(), SetupError>(SetupError::Vulkan(e)),
            Ok(names) => if contains_all(names_of(names@), required_device_extensions()) {
                r == Ok::<(), SetupError>(())
            } else {
                r == Err::<(), SetupError>(unsuitable(Unsuitability::MissingDeviceExtensions))
            },
        },
{
    let available = match available {
        Ok(names) => names,
        Err(e) => return Err(SetupError::Vulkan(e)),
    };
    let required = device_extension_names();
    if contains_all_names(&available, &required) {
        Ok(())
    } else {
        Err(SetupError::Unsuitable(SuitabilityError(Unsuitability::MissingDeviceExtensions)))
    }
}

/// Whether the surface support leaves something to choose from: at least one
/// format and at least one present mode.
pub open spec fn swapchain_support_adequate(support: SwapchainSupport) -> bool {
    support.formats@.len() > 0 && support.present_modes@.len() > 0
}

/// The verdict on a physical device. The checks run in this order and the
/// first that fails decides: the device must be a discrete GPU, support
/// geometry shaders, have the queue families, offer the device extensions,
/// answer the surface queries, and offer a format and a present mode.
pub open spec fn device_verdict(
    device_type: i32,
    geometry_shader: u32,
    queue_families: Result<QueueFamilyIndices, SetupError>,
    extensions: Result<(), SetupError>,
    swapchain_support: Result<SwapchainSupport, SetupError>,
) -> Result<(), SetupError> {
    if device_type != PHYSICAL_DEVICE_TYPE_DISCRETE_GPU {
        Err(unsuitable(Unsuitability::NotDiscreteGpu))
    } else if geometry_shader != VK_TRUE {
        Err(unsuitable(Unsuitability::NoGeometryShader))
    } else if queue_families is Err {
        Err(queue_families->Err_0)
    } else if extensions is Err {
        Err(extensions->Err_0)
    } else if swapchain_support is Err {
        Err(swapchain_support->Err_0)
    } else if !swapchain_support_adequate(swapchain_support->Ok_0) {
        Err(unsuitable(Unsuitability::InsufficientSwapchainSupport))
    } else {
        Ok(())
    }
}

/// Judges a physical device from its type, its geometry-shader feature (a
/// `VkBool32`), the outcome of choosing its queue families, the outcome of
/// checking its extensions and the outcome of querying its surface support.
pub fn check_physical_device(
    device_type: i32,
    geometry_shader: u32,
    queue_families: Result<QueueFamilyIndices, SetupError>,
    extensions: Result<(), SetupError>,
    swapchain_support: Result<SwapchainSupport, SetupError>,
) -> (r: Result<(), SetupError>)
    ensures
        r == device_verdict(device_type, geometry_shader, queue_families, extensions, swapchain_support),
{
    if device_type != PHYSICAL_DEVICE_TYPE_DISCRETE_GPU {
        return Err(SetupError::Unsuitable(SuitabilityError(Unsuitability::NotDiscreteGpu)));
    }
    if geometry_shader != VK_TRUE {
        return Err(SetupError::Unsuitable(SuitabilityError(Unsuitability::NoGeometryShader)));
    }
    if let Err(e) = queue_families {
        return Err(e);
    }
    if let Err(e) = extensions {
        return Err(e);
    }
    let support = match swapchain_support {
        Ok(s) => s,
        Err(e) => return Err(e),
    };
    if support.formats.len() == 0 || support.present_modes.len() == 0 {
        return Err(SetupError::Unsuitable(SuitabilityError(Unsuitability::InsufficientSwapchainSupport)));
    }
    Ok(())
}

/// Picks the first physical device that passed its checks, given the verdicts
/// on the devices in the order the driver lists them. The verdicts need only
/// go as far as the first that passed: later ones are never read.
pub fn pick_physical_device(verdicts: &Vec<Result<(), SetupError>>) -> (r: Result<usize, SetupError>)
    ensures
        r matches Ok(i) ==> i < verdicts@.len() && verdicts@[i as int] is Ok
            && forall|j: int| 0 <= j < i ==> #[trigger] verdicts@[j] is Err,
        r is Err ==> r == Err::<usize, SetupError>(SetupError::NoSuitableDevice)
            && forall|j: int| 0 <= j < verdicts@.len() ==> #[trigger] verdicts@[j] is Err,
        (exists|j: int| 0 <= j < verdicts@.len() && #[trigger] verdicts@[j] is Ok) <==> r is Ok,
{
    let mut i: usize = 0;
    while i < verdicts.len()
        invariant
            0 <= i <= verdicts@.len(),
            forall|j: int| 0 <= j < i ==> #[trigger] verdicts@[j] is Err,
        decreases verdicts@.len() - i,
    {
        if verdicts[i].is_ok() {
            return Ok(i);
        }
        i = i + 1;
    }
    Err(SetupError::NoSuitableDevice)
}

/// Whether the logical device needs the portability extension: on macOS with
/// a loader of version 1.3.216 or later.
pub open spec fn device_needs_portability(is_macos: bool, entry_version: Result<ApiVersion, VulkanError>) -> bool {
    is_macos && entry_version is Ok && version_le(spec_portability_macos_version(), entry_version->Ok_0)
}

/// The device extensions the logical device enables.
pub open spec fn logical_device_extensions(portability: bool) -> Seq<Seq<char>> {
    if portability {
        required_device_extensions().push("VK_KHR_portability_enumeration"@)
    } else {
        required_device_extensions()
    }
}

/// Everything the logical device is created with, besides queue priorities.
pub struct LogicalDevicePlan {
    /// The queue families to create one queue each from, each listed once.
    pub queue_families: Vec<u32>,
    pub extensions: Vec<String>,
    /// The device layers to enable.
    pub layers: Vec<String>,
    /// The core features to enable.
    pub features: DeviceFeatures,
    /// The family whose first queue is the graphics queue.
    pub graphics_family: u32,
    /// The family whose first queue is the present queue.
    pub present_family: u32,
}

/// Plans the logical device from the outcome of choosing queue families,
/// whether the platform is macOS and the loader's version (read only on
/// macOS). The queue family error comes first, then the version query's.
pub fn create_logical_device(
    queue_families: Result<QueueFamilyIndices, SetupError>,
    is_macos: bool,
    entry_version: Result<ApiVersion, VulkanError>,
) -> (r: Result<LogicalDevicePlan, SetupError>)
    ensures
        match queue_families {
            Err(e) => r == Err::<LogicalDevicePlan, SetupError>(e),
            Ok(indices) => if is_macos && entry_version is Err {
                r == Err::<LogicalDevicePlan, SetupError>(SetupError::Vulkan(entry_version->Err_0))
            } else {
                r matches Ok(plan) && {
                    &&& plan.queue_families@ == unique_families(indices)
                    &&& names_of(plan.extensions@) == logical_device_extensions(
                        device_needs_portability(is_macos, entry_version),
                    )
                    &&& plan.layers@.len() == 0
                    &&& no_features_enabled(plan.features)
                    &&& plan.graphics_family == indices.graphics
                    &&& plan.present_family == indices.present
                }
            },
        },
{
    let indices = match queue_families {
        Ok(q) => q,
        Err(e) => return Err(e),
    };
    let queue_families = unique_queue_families(&indices);
    let mut extensions = device_extension_names();
    let portability = if is_macos {
        match entry_version {
            Ok(version) => version_at_least(&version, &portability_macos_version()),
            Err(e) => return Err(SetupError::Vulkan(e)),
        }
    } else {
        false
    };
    if portability {
        extensions.push(portability_enumeration_extension_name());
    }
    let plan = LogicalDevicePlan {
        queue_families,
        extensions,
        layers: Vec::new(),
        features: DeviceFeatures::none(),
        graphics_family: indices.graphics,
        present_family: indices.present,
    };
    proof {
        assert(names_of(plan.extensions@) =~= logical_device_extensions(portability));
    }
    Ok(plan)
}

} // verus!
