use vulkan_app::error::{SetupError, SuitabilityError, Unsuitability, VulkanError};
use vulkan_app::queues::{image_sharing, unique_queue_families, QueueFamilyIndices, SharingMode};

const MISSING: SetupError = SetupError::Unsuitable(SuitabilityError(Unsuitability::MissingQueueFamilies));

#[test]
fn first_graphics_and_first_present_family_are_chosen() {
    // compute only, transfer only, graphics+compute, graphics
    let flags = vec![2, 4, 3, 1];
    let support = vec![Ok(false), Ok(true)];
    let q = QueueFamilyIndices::get(&flags, &support).unwrap();
    assert_eq!(q, QueueFamilyIndices { graphics: 2, present: 1 });
}

#[test]
fn same_family_for_graphics_and_present() {
    let q = QueueFamilyIndices::get(&vec![1, 1], &vec![Ok(true), Ok(true)]).unwrap();
    assert_eq!(q, QueueFamilyIndices { graphics: 0, present: 0 });
}

#[test]
fn missing_graphics_family() {
    let r = QueueFamilyIndices::get(&vec![2, 4], &vec![Ok(true)]);
    assert_eq!(r, Err(MISSING));
}

#[test]
fn missing_present_family() {
    let r = QueueFamilyIndices::get(&vec![1, 3], &vec![Ok(false), Ok(false)]);
    assert_eq!(r, Err(MISSING));
    let r = QueueFamilyIndices::get(&vec![1], &vec![]);
    assert_eq!(r, Err(MISSING));
}

#[test]
fn failed_support_query_before_a_present_family_is_reported() {
    let r = QueueFamilyIndices::get(&vec![2, 2], &vec![Ok(false), Err(VulkanError(-3)), Ok(true)]);
    assert_eq!(r, Err(SetupError::Vulkan(VulkanError(-3))));
}

#[test]
fn support_answers_after_the_present_family_are_not_read() {
    let r = QueueFamilyIndices::get(&vec![1, 1, 1], &vec![Ok(false), Ok(true), Err(VulkanError(-3))]);
    assert_eq!(r, Ok(QueueFamilyIndices { graphics: 0, present: 1 }));
}

#[test]
fn unique_families_lists_each_once() {
    assert_eq!(unique_queue_families(&QueueFamilyIndices { graphics: 3, present: 3 }), vec![3]);
    assert_eq!(unique_queue_families(&QueueFamilyIndices { graphics: 0, present: 2 }), vec![0, 2]);
}

#[test]
fn sharing_is_concurrent_only_between_distinct_families() {
    let (mode, list) = image_sharing(&QueueFamilyIndices { graphics: 0, present: 2 });
    assert_eq!(mode, SharingMode::Concurrent);
    assert_eq!(list, vec![0, 2]);
    let (mode, list) = image_sharing(&QueueFamilyIndices { graphics: 1, present: 1 });
    assert_eq!(mode, SharingMode::Exclusive);
    assert!(list.is_empty());
}

#[test]
fn sharing_follows_unique_families() {
    for (g, p) in [(0, 0), (0, 1), (5, 2)] {
        let q = QueueFamilyIndices { graphics: g, present: p };
        let (mode, list) = image_sharing(&q);
        let unique = unique_queue_families(&q);
        assert_eq!(mode == SharingMode::Concurrent, unique.len() == 2);
        if mode == SharingMode::Concurrent {
            assert_eq!(list, unique);
        }
    }
}
