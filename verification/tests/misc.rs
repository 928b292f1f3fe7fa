use vulkan_app::debug::{debug_message_level, LogLevel, SEVERITY_ERROR, SEVERITY_INFO, SEVERITY_WARNING};
use vulkan_app::error::{SuitabilityError, Unsuitability};
use vulkan_app::model::{
    DeviceFeatures, COLOR_SPACE_SRGB_NONLINEAR, COMPOSITE_ALPHA_OPAQUE, FORMAT_B8G8R8A8_SRGB,
    IMAGE_USAGE_COLOR_ATTACHMENT, NULL_HANDLE, PHYSICAL_DEVICE_TYPE_DISCRETE_GPU, PRESENT_MODE_FIFO,
    PRESENT_MODE_MAILBOX, QUEUE_GRAPHICS_BIT, VK_TRUE,
};
use vulkan_app::names::{contains_all_names, contains_name};
use vulkan_app::shader::create_shader_module;
use vulkanalia::vk;

#[test]
fn constants_match_vulkan() {
    assert_eq!(FORMAT_B8G8R8A8_SRGB, vk::Format::B8G8R8A8_SRGB.as_raw());
    assert_eq!(COLOR_SPACE_SRGB_NONLINEAR, vk::ColorSpaceKHR::SRGB_NONLINEAR.as_raw());
    assert_eq!(PRESENT_MODE_MAILBOX, vk::PresentModeKHR::MAILBOX.as_raw());
    assert_eq!(PRESENT_MODE_FIFO, vk::PresentModeKHR::FIFO.as_raw());
    assert_eq!(QUEUE_GRAPHICS_BIT, vk::QueueFlags::GRAPHICS.bits());
    assert_eq!(PHYSICAL_DEVICE_TYPE_DISCRETE_GPU, vk::PhysicalDeviceType::DISCRETE_GPU.as_raw());
    assert_eq!(VK_TRUE, vk::TRUE);
    assert_eq!(SEVERITY_INFO, vk::DebugUtilsMessageSeverityFlagsEXT::INFO.bits());
    assert_eq!(SEVERITY_WARNING, vk::DebugUtilsMessageSeverityFlagsEXT::WARNING.bits());
    assert_eq!(SEVERITY_ERROR, vk::DebugUtilsMessageSeverityFlagsEXT::ERROR.bits());
    assert_eq!(IMAGE_USAGE_COLOR_ATTACHMENT, vk::ImageUsageFlags::COLOR_ATTACHMENT.bits());
    assert_eq!(COMPOSITE_ALPHA_OPAQUE, vk::CompositeAlphaFlagsKHR::OPAQUE.bits());
    assert_eq!(NULL_HANDLE, vk::Handle::as_raw(<vk::SwapchainKHR as vk::Handle>::null()));
    assert_eq!(vulkan_app::instance::INSTANCE_CREATE_ENUMERATE_PORTABILITY, vk::InstanceCreateFlags::ENUMERATE_PORTABILITY_KHR.bits());
}

#[test]
fn extension_names_match_vulkan() {
    let swapchain = vk::KHR_SWAPCHAIN_EXTENSION.name.to_string_lossy().to_string();
    assert_eq!(vulkan_app::names::swapchain_extension_name(), swapchain);
    let debug = vk::EXT_DEBUG_UTILS_EXTENSION.name.to_string_lossy().to_string();
    assert_eq!(vulkan_app::names::debug_utils_extension_name(), debug);
    let props2 = vk::KHR_GET_PHYSICAL_DEVICE_PROPERTIES2_EXTENSION.name.to_string_lossy().to_string();
    assert_eq!(vulkan_app::names::physical_device_properties2_extension_name(), props2);
    let portability = vk::KHR_PORTABILITY_ENUMERATION_EXTENSION.name.to_string_lossy().to_string();
    assert_eq!(vulkan_app::names::portability_enumeration_extension_name(), portability);
}

#[test]
fn message_levels() {
    assert_eq!(debug_message_level(SEVERITY_ERROR), LogLevel::Error);
    assert_eq!(debug_message_level(SEVERITY_ERROR | SEVERITY_INFO), LogLevel::Error);
    assert_eq!(debug_message_level(SEVERITY_WARNING), LogLevel::Warn);
    assert_eq!(debug_message_level(SEVERITY_INFO), LogLevel::Debug);
    assert_eq!(debug_message_level(1), LogLevel::Trace);
    assert_eq!(debug_message_level(0), LogLevel::Trace);
}

fn rank(l: LogLevel) -> u8 {
    match l {
        LogLevel::Error => 3,
        LogLevel::Warn => 2,
        LogLevel::Debug => 1,
        LogLevel::Trace => 0,
    }
}

#[test]
fn message_level_is_monotone() {
    let severities = [0u32, 1, 0x10, 0x11, 0x100, 0x1000, 0x1111, u32::MAX];
    for a in severities {
        for b in severities {
            if a <= b {
                assert!(rank(debug_message_level(a)) <= rank(debug_message_level(b)));
            }
        }
    }
}

#[test]
fn shader_code_of_valid_length() {
    let bytes: Vec<u8> = vec![0x03, 0x02, 0x23, 0x07, 0, 0, 1, 0];
    let code = create_shader_module(&bytes).ok().unwrap();
    assert_eq!(code.size, 8);
    assert_eq!(code.words.len(), 2);
    let expected = u32::from_ne_bytes([0x03, 0x02, 0x23, 0x07]);
    assert_eq!(code.words[0], expected);
}

#[test]
fn shader_words_hold_the_bytes_in_order() {
    let bytes: Vec<u8> = (0u8..64).map(|b| b.wrapping_mul(37)).collect();
    let code = create_shader_module(&bytes).ok().unwrap();
    assert_eq!(code.size, 64);
    assert_eq!(code.words.len(), 16);
    for (i, word) in code.words.iter().enumerate() {
        let chunk = [bytes[4 * i], bytes[4 * i + 1], bytes[4 * i + 2], bytes[4 * i + 3]];
        assert_eq!(*word, u32::from_ne_bytes(chunk));
    }
}

#[test]
fn name_membership() {
    let list = vec!["a".to_string(), "bc".to_string()];
    assert!(contains_name(&list, &"bc".to_string()));
    assert!(!contains_name(&list, &"b".to_string()));
    assert!(contains_all_names(&list, &vec!["bc".to_string(), "a".to_string()]));
    assert!(!contains_all_names(&list, &vec!["bc".to_string(), "d".to_string()]));
    assert!(contains_all_names(&list, &vec![]));
}

#[test]
fn suitability_messages() {
    assert_eq!(SuitabilityError(Unsuitability::NotDiscreteGpu).message(), "Only discrete GPUs are supported!");
    assert_eq!(SuitabilityError(Unsuitability::NoGeometryShader).message(), "Missing geometry shader support.");
    assert_eq!(SuitabilityError(Unsuitability::MissingQueueFamilies).message(), "Missing required queue families.");
    assert_eq!(SuitabilityError(Unsuitability::MissingDeviceExtensions).message(), "Mission required device extensions.");
    assert_eq!(SuitabilityError(Unsuitability::InsufficientSwapchainSupport).message(), "Insufficient swapchain support.");
}

#[test]
fn no_features_is_vulkan_default() {
    let f = DeviceFeatures::none();
    let d = vk::PhysicalDeviceFeatures::default();
    assert_eq!(f.geometry_shader, d.geometry_shader);
    assert_eq!(f.robust_buffer_access, d.robust_buffer_access);
    assert_eq!(f.inherited_queries, d.inherited_queries);
    assert_eq!(f.sampler_anisotropy, 0);
}
