use sim2d::physical_device::{
    are_descriptor_indexing_features, are_physical_device_features_supported,
    are_physical_device_vulkan_13_features_supported, extension_names, find_suitable_device,
    first_unavailable_feature, is_requested_and_not_available, is_usable,
    required_descriptor_indexing_features, strip_zero_bytes, supports_extension,
    supports_graphics, supports_required_features, DeviceCandidate,
    PhysicalDeviceDescriptorIndexingFeatures, PhysicalDeviceFeatures, PhysicalDeviceMetadata,
    PhysicalDeviceProperties, PhysicalDeviceVulkan13Features, DEVICE_TYPE_DISCRETE_GPU,
    DEVICE_TYPE_INTEGRATED_GPU, RUNTIME_DESCRIPTOR_ARRAY,
    SHADER_SAMPLED_IMAGE_ARRAY_NON_UNIFORM_INDEXING,
};
use sim2d::queue_families::QueueFamilyProperties;

#[test]
fn verify_is_requested_and_not_supported() {
    assert!(is_requested_and_not_available(1, 0));
    assert!(is_requested_and_not_available(1, 1) == false);
    assert!(is_requested_and_not_available(0, 1) == false);
    assert!(is_requested_and_not_available(0, 0) == false);
}

fn metadata(device_type: i32, graphics: bool, extensions: &[&str]) -> PhysicalDeviceMetadata {
    let mut descriptor_indexing = [0u32; 20];
    descriptor_indexing[SHADER_SAMPLED_IMAGE_ARRAY_NON_UNIFORM_INDEXING] = 1;
    descriptor_indexing[RUNTIME_DESCRIPTOR_ARRAY] = 1;
    PhysicalDeviceMetadata {
        queue_family_properties: vec![QueueFamilyProperties {
            queue_flags: if graphics { 0b111 } else { 0b100 },
            queue_count: 1,
        }],
        supported_extensions: extensions.iter().map(|e| e.to_string()).collect(),
        physical_device_features: PhysicalDeviceFeatures { flags: [1; 55] },
        physical_device_vulkan_13_features: PhysicalDeviceVulkan13Features { flags: [1; 15] },
        descriptor_indexing_features: PhysicalDeviceDescriptorIndexingFeatures {
            flags: descriptor_indexing,
        },
        physical_device_properties: PhysicalDeviceProperties {
            device_type,
            device_name: b"Test GPU\0\0\0".to_vec(),
        },
    }
}

fn candidate(device_type: i32, graphics: bool, extensions: &[&str]) -> DeviceCandidate {
    DeviceCandidate {
        metadata: metadata(device_type, graphics, extensions),
        has_surface_formats: true,
        has_present_modes: true,
    }
}

#[test]
fn first_unavailable_feature_finds_the_first_missing_one() {
    let requested = [0, 1, 1, 1];
    let available = [0, 1, 0, 0];
    assert_eq!(first_unavailable_feature(&requested, &available), Some(2));
    assert_eq!(first_unavailable_feature(&[1, 0], &[1, 0]), None);
    assert_eq!(first_unavailable_feature::<0>(&[], &[]), None);
}

#[test]
fn feature_sets_are_supported_only_when_every_request_is_available() {
    let none = PhysicalDeviceFeatures { flags: [0; 55] };
    let mut one = none;
    one.flags[54] = 1;
    assert!(are_physical_device_features_supported(&none, &none));
    assert!(!are_physical_device_features_supported(&one, &none));
    assert!(are_physical_device_features_supported(&one, &one));
    assert!(are_physical_device_features_supported(&none, &one));

    let v13 = PhysicalDeviceVulkan13Features { flags: [0; 15] };
    let mut sync2 = v13;
    sync2.flags[9] = 1;
    assert!(!are_physical_device_vulkan_13_features_supported(&sync2, &v13));
    assert!(are_physical_device_vulkan_13_features_supported(&v13, &sync2));

    let required = required_descriptor_indexing_features();
    let nothing = PhysicalDeviceDescriptorIndexingFeatures { flags: [0; 20] };
    assert!(!are_descriptor_indexing_features(&required, &nothing));
    assert!(are_descriptor_indexing_features(&required, &required));
}

#[test]
fn required_descriptor_indexing_features_ask_for_two_flags() {
    let required = required_descriptor_indexing_features();
    for (i, flag) in required.flags.iter().enumerate() {
        let expected = i == SHADER_SAMPLED_IMAGE_ARRAY_NON_UNIFORM_INDEXING
            || i == RUNTIME_DESCRIPTOR_ARRAY;
        assert_eq!(*flag, if expected { 1 } else { 0 });
    }
}

#[test]
fn device_name_drops_zero_bytes() {
    let meta = metadata(DEVICE_TYPE_DISCRETE_GPU, true, &[]);
    assert_eq!(meta.device_name(), "Test GPU");
    assert_eq!(strip_zero_bytes(&vec![0, 65, 0, 66, 0]), vec![65, 66]);
}

#[test]
fn extension_names_skip_invalid_utf8() {
    let raw = vec![
        b"VK_KHR_swapchain\0\0".to_vec(),
        vec![0xff, 0xfe, 0],
        b"VK_EXT_debug_utils\0".to_vec(),
    ];
    assert_eq!(
        extension_names(&raw),
        vec!["VK_KHR_swapchain".to_string(), "VK_EXT_debug_utils".to_string()]
    );
}

#[test]
fn required_features_filter() {
    let good = metadata(DEVICE_TYPE_DISCRETE_GPU, true, &[]);
    assert!(supports_required_features(&good));
    let mut bad = good.clone();
    bad.descriptor_indexing_features.flags[RUNTIME_DESCRIPTOR_ARRAY] = 0;
    assert!(!supports_required_features(&bad));
    assert!(good.supports_features(PhysicalDeviceFeatures { flags: [1; 55] }));
    assert!(!bad.supports_descriptor_indexing_features(required_descriptor_indexing_features()));
    assert!(good.supports_vulkan_13_features(PhysicalDeviceVulkan13Features { flags: [1; 15] }));
}

#[test]
fn graphics_and_extension_checks() {
    let meta = metadata(DEVICE_TYPE_DISCRETE_GPU, true, &["VK_KHR_swapchain"]);
    assert!(supports_graphics(&meta));
    assert!(supports_extension(&meta, "VK_KHR_swapchain"));
    assert!(!supports_extension(&meta, "VK_KHR_swapchain2"));
    let compute_only = metadata(DEVICE_TYPE_DISCRETE_GPU, false, &["VK_KHR_swapchain"]);
    assert!(!supports_graphics(&compute_only));
    assert!(is_usable(&candidate(DEVICE_TYPE_DISCRETE_GPU, true, &["VK_KHR_swapchain"])));
    let mut no_formats = candidate(DEVICE_TYPE_DISCRETE_GPU, true, &["VK_KHR_swapchain"]);
    no_formats.has_surface_formats = false;
    assert!(!is_usable(&no_formats));
}

#[test]
fn find_suitable_device_prefers_discrete_then_integrated_then_first() {
    let swapchain = &["VK_KHR_swapchain"];
    let cpu = 4;
    let devices = vec![
        candidate(cpu, true, swapchain),
        candidate(DEVICE_TYPE_INTEGRATED_GPU, true, swapchain),
        candidate(DEVICE_TYPE_DISCRETE_GPU, false, swapchain),
        candidate(DEVICE_TYPE_DISCRETE_GPU, true, swapchain),
    ];
    assert_eq!(find_suitable_device(&devices), Some(3));
    assert_eq!(find_suitable_device(&devices[..3].to_vec()), Some(1));
    assert_eq!(find_suitable_device(&vec![devices[0].clone()]), Some(0));
    assert_eq!(find_suitable_device(&vec![devices[2].clone()]), None);
    assert_eq!(find_suitable_device(&vec![candidate(DEVICE_TYPE_DISCRETE_GPU, true, &[])]), None);
    assert_eq!(find_suitable_device(&vec![]), None);
}
