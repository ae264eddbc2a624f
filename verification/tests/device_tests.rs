use present_engine::device::{
    check_device_suitability, check_extension_support, find_queue_families, name_in_list,
    plan_queues, QueueFamilyCaps, QueueFamilyIndices,
};

fn caps(supports_graphics: bool, supports_present: bool) -> QueueFamilyCaps {
    QueueFamilyCaps { supports_graphics, supports_present }
}

#[test]
fn queue_families_take_first_match_per_role() {
    let families = vec![caps(false, true), caps(true, false), caps(true, true)];
    let idx = find_queue_families(&families).unwrap();
    assert_eq!(idx.graphics, 1);
    assert_eq!(idx.present, 0);
}

#[test]
fn queue_families_may_coincide() {
    let families = vec![caps(false, false), caps(true, true)];
    let idx = find_queue_families(&families).unwrap();
    assert_eq!(idx.graphics, 1);
    assert_eq!(idx.present, 1);
}

#[test]
fn missing_queue_family_is_reported() {
    let families = vec![caps(true, false)];
    let err = find_queue_families(&families).unwrap_err();
    assert_eq!(err.0, "Missing required queue families.");
    let families = vec![caps(false, true), caps(false, false)];
    assert!(find_queue_families(&families).is_err());
    let families: Vec<QueueFamilyCaps> = Vec::new();
    assert!(find_queue_families(&families).is_err());
}

#[test]
fn name_lookup_compares_bytes() {
    let names = vec![b"VK_KHR_swapchain".to_vec(), b"VK_KHR_surface".to_vec()];
    assert!(name_in_list(&names, &b"VK_KHR_swapchain".to_vec()));
    assert!(!name_in_list(&names, &b"VK_KHR_swapchai".to_vec()));
    assert!(!name_in_list(&names, &b"VK_KHR_swapchain2".to_vec()));
    assert!(!name_in_list(&Vec::new(), &b"VK_KHR_swapchain".to_vec()));
}

#[test]
fn extension_support_requires_every_name() {
    let available = vec![b"VK_KHR_swapchain".to_vec(), b"VK_EXT_debug_utils".to_vec()];
    let required = vec![b"VK_KHR_swapchain".to_vec()];
    assert!(check_extension_support(&available, &required).is_ok());

    let required = vec![b"VK_KHR_swapchain".to_vec(), b"VK_KHR_portability_subset".to_vec()];
    let err = check_extension_support(&available, &required).unwrap_err();
    assert_eq!(err.0, "Missing required device extensions.");
}

#[test]
fn suitability_reports_first_failing_check() {
    let families = vec![caps(true, true)];
    let available = vec![b"VK_KHR_swapchain".to_vec()];
    let required = vec![b"VK_KHR_swapchain".to_vec()];

    let ok = check_device_suitability(&families, &available, &required, 4, 2).unwrap();
    assert_eq!(ok, QueueFamilyIndices { graphics: 0, present: 0 });

    let none: Vec<QueueFamilyCaps> = vec![caps(false, true)];
    let err = check_device_suitability(&none, &available, &required, 4, 2).unwrap_err();
    assert_eq!(err.0, "Missing required queue families.");

    let bare: Vec<Vec<u8>> = Vec::new();
    let err = check_device_suitability(&families, &bare, &required, 4, 2).unwrap_err();
    assert_eq!(err.0, "Missing required device extensions.");

    let err = check_device_suitability(&families, &available, &required, 0, 2).unwrap_err();
    assert_eq!(err.0, "Insufficient swapchain support.");
    let err = check_device_suitability(&families, &available, &required, 4, 0).unwrap_err();
    assert_eq!(err.0, "Insufficient swapchain support.");
}

#[test]
fn queue_plan_uses_present_capable_family_and_deduplicates() {
    let same = plan_queues(QueueFamilyIndices { graphics: 2, present: 2 });
    assert_eq!(same.graphics_family, 2);
    assert_eq!(same.present_family, 2);
    assert_eq!(same.unique_families, vec![2]);

    let split = plan_queues(QueueFamilyIndices { graphics: 0, present: 3 });
    assert_eq!(split.graphics_family, 0);
    assert_eq!(split.present_family, 3);
    assert_eq!(split.unique_families, vec![0, 3]);
}
