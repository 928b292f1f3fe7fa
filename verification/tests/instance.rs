use vulkan_app::error::{SetupError, VulkanError};
use vulkan_app::instance::{create_instance, portability_macos_version, version_at_least, ApiVersion, INSTANCE_CREATE_ENUMERATE_PORTABILITY};

fn names(list: &[&str]) -> Vec<String> {
    list.iter().map(|s| s.to_string()).collect()
}

fn v(major: u32, minor: u32, patch: u32) -> ApiVersion {
    ApiVersion { major, minor, patch }
}

const WINDOW: [&str; 2] = ["VK_KHR_surface", "VK_KHR_xlib_surface"];

#[test]
fn version_order_is_lexicographic() {
    assert!(version_at_least(&v(1, 3, 216), &v(1, 3, 216)));
    assert!(version_at_least(&v(1, 3, 217), &v(1, 3, 216)));
    assert!(version_at_least(&v(1, 4, 0), &v(1, 3, 216)));
    assert!(version_at_least(&v(2, 0, 0), &v(1, 3, 216)));
    assert!(!version_at_least(&v(1, 3, 215), &v(1, 3, 216)));
    assert!(!version_at_least(&v(1, 2, 999), &v(1, 3, 216)));
    assert!(!version_at_least(&v(0, 99, 999), &v(1, 3, 216)));
}

#[test]
fn version_order_matches_vulkanalia() {
    let versions = [v(1, 3, 216), v(1, 3, 215), v(1, 4, 0), v(0, 9, 9), v(2, 0, 0)];
    for a in versions {
        for b in versions {
            let va = vulkanalia::Version::new(a.major, a.minor, a.patch);
            let vb = vulkanalia::Version::new(b.major, b.minor, b.patch);
            assert_eq!(version_at_least(&a, &b), va >= vb);
        }
    }
}

#[test]
fn portability_version_is_1_3_216() {
    assert_eq!(portability_macos_version(), v(1, 3, 216));
}

#[test]
fn instance_plan_without_validation() {
    let plan = create_instance(Ok(vec![]), &names(&WINDOW), false, false, Err(VulkanError(-3))).ok().unwrap();
    assert!(plan.layers.is_empty());
    assert_eq!(plan.extensions, names(&WINDOW));
    assert_eq!(plan.flags, 0);
    assert!(!plan.debug_messenger);
    assert_eq!(plan.application.application_name, "Vulkan Tutorial");
    assert_eq!(plan.application.engine_name, "No Engine");
    assert_eq!(plan.application.application_version, 4194304);
    assert_eq!(plan.application.engine_version, 1 << 22);
    assert_eq!(plan.application.api_version, vulkanalia::vk::make_version(1, 0, 0));
}

#[test]
fn instance_plan_with_validation() {
    let layers = names(&["VK_LAYER_MESA_device_select", "VK_LAYER_KHRONOS_validation"]);
    let plan = create_instance(Ok(layers), &names(&WINDOW), true, false, Ok(v(1, 3, 216))).ok().unwrap();
    assert_eq!(plan.layers, names(&["VK_LAYER_KHRONOS_validation"]));
    assert_eq!(plan.extensions, names(&["VK_KHR_surface", "VK_KHR_xlib_surface", "VK_EXT_debug_utils"]));
    assert_eq!(plan.flags, 0);
    assert!(plan.debug_messenger);
}

#[test]
fn validation_without_the_layer_is_refused() {
    let layers = names(&["VK_LAYER_MESA_device_select"]);
    let r = create_instance(Ok(layers), &names(&WINDOW), true, true, Err(VulkanError(-3)));
    assert_eq!(r.err(), Some(SetupError::ValidationLayerMissing));
}

#[test]
fn failed_layer_query_comes_first() {
    let r = create_instance(Err(VulkanError(-1)), &names(&WINDOW), true, true, Err(VulkanError(-3)));
    assert_eq!(r.err(), Some(SetupError::Vulkan(VulkanError(-1))));
}

#[test]
fn failed_version_query_on_macos() {
    let r = create_instance(Ok(vec![]), &names(&WINDOW), false, true, Err(VulkanError(-3)));
    assert_eq!(r.err(), Some(SetupError::Vulkan(VulkanError(-3))));
}

#[test]
fn macos_portability_only_at_exactly_1_3_216() {
    let plan = create_instance(Ok(vec![]), &names(&WINDOW), false, true, Ok(v(1, 3, 216))).ok().unwrap();
    assert_eq!(
        plan.extensions,
        names(&[
            "VK_KHR_surface",
            "VK_KHR_xlib_surface",
            "VK_KHR_get_physical_device_properties2",
            "VK_KHR_portability_enumeration"
        ])
    );
    assert_eq!(plan.flags, INSTANCE_CREATE_ENUMERATE_PORTABILITY);
    let plan = create_instance(Ok(vec![]), &names(&WINDOW), false, true, Ok(v(1, 3, 217))).ok().unwrap();
    assert_eq!(plan.extensions, names(&WINDOW));
    assert_eq!(plan.flags, 0);
    let plan = create_instance(Ok(vec![]), &names(&WINDOW), false, false, Ok(v(1, 3, 216))).ok().unwrap();
    assert_eq!(plan.flags, 0);
}

#[test]
fn instance_portability_implies_device_portability() {
    let q = Ok(vulkan_app::queues::QueueFamilyIndices { graphics: 0, present: 0 });
    let inst = create_instance(Ok(vec![]), &names(&WINDOW), false, true, Ok(v(1, 3, 216))).ok().unwrap();
    let dev = vulkan_app::device::create_logical_device(q, true, Ok(v(1, 3, 216))).ok().unwrap();
    assert_eq!(inst.flags, INSTANCE_CREATE_ENUMERATE_PORTABILITY);
    assert!(dev.extensions.contains(&"VK_KHR_portability_enumeration".to_string()));
}

#[test]
fn enabled_layers_are_available() {
    let available = names(&["VK_LAYER_KHRONOS_validation"]);
    let plan = create_instance(Ok(available.clone()), &names(&WINDOW), true, false, Ok(v(1, 0, 0))).ok().unwrap();
    assert!(plan.layers.iter().all(|l| available.contains(l)));
}
