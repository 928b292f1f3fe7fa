//! Planning the Vulkan instance: application info, layers, extensions and
//! creation flags.

use vstd::prelude::*;

use crate::error::{SetupError, VulkanError};
use crate::names::{
    contains_name, debug_utils_extension_name, names_of, physical_device_properties2_extension_name,
    portability_enumeration_extension_name, validation_layer_name,
};

verus! {

/// A Vulkan API version.
#[derive(Clone, Copy, Debug, PartialEq, Eq, Structural)]
pub struct ApiVersion {
    pub major: u32,
    pub minor: u32,
    pub patch: u32,
}

/// `a` comes no later than `b`: versions are ordered by major, then minor,
/// then patch.
pub open spec fn version_le(a: ApiVersion, b: ApiVersion) -> bool {
    ||| a.major < b.major
    ||| a.major == b.major && a.minor < b.minor
    ||| a.major == b.major && a.minor == b.minor && a.patch <= b.patch
}

/// Whether `version` is at least `minimum`.
pub fn version_at_least(version: &ApiVersion, minimum: &ApiVersion) -> (r: bool)
    ensures
        r == version_le(*minimum, *version),
{
    if version.major != minimum.major {
        version.major > minimum.major
    } else if version.minor != minimum.minor {
        version.minor > minimum.minor
    } else {
        version.patch >= minimum.patch
    }
}

/// The version of the Vulkan loader on macOS from which portability
/// enumeration is needed: 1.3.216.
pub open spec fn spec_portability_macos_version() -> ApiVersion {
    ApiVersion { major: 1, minor: 3, patch: 216 }
}

/// The version 1.3.216.
pub fn portability_macos_version() -> (r: ApiVersion)
    ensures
        r == spec_portability_macos_version(),
{
    ApiVersion { major: 1, minor: 3, patch: 216 }
}

/// The packed form of a version, as `vk::make_version` computes it.
pub open spec fn packed_version(major: u32, minor: u32, patch: u32) -> u32 {
    (major << 22u32) | (minor << 12u32) | patch
}

/// Packs a version into the 32-bit form that Vulkan structures carry.
///
/// Trusted: calls `vulkanalia::vk::make_version`, whose whole body is
/// `(major << 22) | (minor << 12) | patch` on `u32` (bits shifted out are lost).
#[verifier::external_body]
fn make_version(major: u32, minor: u32, patch: u32) -> (r: u32)
    ensures
        r == packed_version(major, minor, patch),
{
    vulkanalia::vk::make_version(major, minor, patch)
}

/// The `VkInstanceCreateFlags` bit that enumerates portability devices.
pub const INSTANCE_CREATE_ENUMERATE_PORTABILITY: u32 = 1;

/// The application info handed to the instance.
pub struct ApplicationInfo {
    pub application_name: String,
    pub application_version: u32,
    pub engine_name: String,
    pub engine_version: u32,
    pub api_version: u32,
}

/// Everything the instance is created with.
pub struct InstancePlan {
    pub application: ApplicationInfo,
    pub layers: Vec<String>,
    pub extensions: Vec<String>,
    pub flags: u32,
    /// Whether a debug messenger is chained to the instance and created with it.
    pub debug_messenger: bool,
}

/// The layers the instance enables.
pub open spec fn instance_layers(validation_enabled: bool) -> Seq<Seq<char>> {
    if validation_enabled {
        seq!["VK_LAYER_KHRONOS_validation"@]
    } else {
        seq![]
    }
}

/// The extensions the instance enables: those the window needs, then debug
/// utils under validation, then the two portability extensions when they are
/// needed.
pub open spec fn instance_extensions(
    window_extensions: Seq<Seq<char>>,
    validation_enabled: bool,
    portability: bool,
) -> Seq<Seq<char>> {
    let with_debug = if validation_enabled {
        window_extensions.push("VK_EXT_debug_utils"@)
    } else {
        window_extensions
    };
    if portability {
        with_debug.push("VK_KHR_get_physical_device_properties2"@).push(
            "VK_KHR_portability_enumeration"@,
        )
    } else {
        with_debug
    }
}

/// Whether the instance needs portability enumeration: on macOS with a
/// loader of exactly version 1.3.216.
pub open spec fn instance_needs_portability(
    is_macos: bool,
    entry_version: Result<ApiVersion, VulkanError>,
) -> bool {
    is_macos && entry_version == Ok::<ApiVersion, VulkanError>(spec_portability_macos_version())
}

/// Whether `plan` is the instance plan for these inputs.
pub open spec fn is_instance_plan(
    plan: InstancePlan,
    window_extensions: Seq<String>,
    validation_enabled: bool,
    portability: bool,
) -> bool {
    &&& plan.application.application_name@ == "Vulkan Tutorial"@
    &&& plan.application.engine_name@ == "No Engine"@
    &&& plan.application.application_version == packed_version(1, 0, 0)
    &&& plan.application.engine_version == packed_version(1, 0, 0)
    &&& plan.application.api_version == packed_version(1, 0, 0)
    &&& names_of(plan.layers@) == instance_layers(validation_enabled)
    &&& names_of(plan.extensions@) == instance_extensions(
        names_of(window_extensions),
        validation_enabled,
        portability,
    )
    &&& plan.flags == (if portability { INSTANCE_CREATE_ENUMERATE_PORTABILITY } else { 0 })
    &&& plan.debug_messenger == validation_enabled
}

/// Plans the instance from the layers the loader offers, the extensions the
/// window needs, whether validation is on, whether the platform is macOS and
/// the loader's version (read only on macOS). The layer query's error comes
/// first, then a missing validation layer, then the version query's error.
pub fn create_instance(
    available_layers: Result<Vec<String>, VulkanError>,
    window_extensions: &Vec<String>,
    validation_enabled: bool,
    is_macos: bool,
    entry_version: Result<ApiVersion, VulkanError>,
) -> (r: Result<InstancePlan, SetupError>)
    ensures
        match available_layers {
            Err(e) => r == Err::<InstancePlan, SetupError>(SetupError::Vulkan(e)),
            Ok(layers) => if validation_enabled && !names_of(layers@).contains(
                "VK_LAYER_KHRONOS_validation"@,
            ) {
                r == Err::<InstancePlan, SetupError>(SetupError::ValidationLayerMissing)
            } else if is_macos && entry_version is Err {
                r == Err::<InstancePlan, SetupError>(SetupError::Vulkan(entry_version->Err_0))
            } else {
                r matches Ok(plan) && is_instance_plan(
                    plan,
                    window_extensions@,
                    validation_enabled,
                    instance_needs_portability(is_macos, entry_version),
                )
            },
        },
{
    let available_layers = match available_layers {
        Ok(layers) => layers,
        Err(e) => return Err(SetupError::Vulkan(e)),
    };
    let validation_layer = validation_layer_name();
    if validation_enabled && !contains_name(&available_layers, &validation_layer) {
        return Err(SetupError::ValidationLayerMissing);
    }
    let mut layers: Vec<String> = Vec::new();
    if validation_enabled {
        layers.push(validation_layer);
    }
    let mut extensions: Vec<String> = window_extensions.clone();
    if validation_enabled {
        extensions.push(debug_utils_extension_name());
    }
    let portability = if is_macos {
        match entry_version {
            Ok(version) => version == portability_macos_version(),
            Err(e) => return Err(SetupError::Vulkan(e)),
        }
    } else {
        false
    };
    let flags = if portability {
        extensions.push(physical_device_properties2_extension_name());
        extensions.push(portability_enumeration_extension_name());
        INSTANCE_CREATE_ENUMERATE_PORTABILITY
    } else {
        0
    };
    let application = ApplicationInfo {
        application_name: "Vulkan Tutorial".to_owned(),
        application_version: make_version(1, 0, 0),
        engine_name: "No Engine".to_owned(),
        engine_version: make_version(1, 0, 0),
        api_version: make_version(1, 0, 0),
    };
    let plan = InstancePlan { application, layers, extensions, flags, debug_messenger: validation_enabled };
    proof {
        assert(names_of(plan.layers@) =~= instance_layers(validation_enabled));
        assert(names_of(plan.extensions@) =~= instance_extensions(
            names_of(window_extensions@),
            validation_enabled,
            portability,
        ));
    }
    Ok(plan)
}

} // verus!
