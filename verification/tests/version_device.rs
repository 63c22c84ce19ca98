use paracosm_gpu::device::{
    classify_queue_families, descriptor_counts, device_extensions, device_score, queue_create_plan,
    select_primary_device, validate_device_index, DescriptorLimits, DeviceCandidate, DeviceError,
    DeviceExtension, QueueFamily, QueueProperties, DEVICE_TYPE_CPU, DEVICE_TYPE_DISCRETE_GPU,
    DEVICE_TYPE_INTEGRATED_GPU, DEVICE_TYPE_VIRTUAL_GPU,
};
use paracosm_gpu::selection::last_max_index;
use ash::vk::QueueFlags as F;
use ash::vk::PhysicalDeviceType as T;
use paracosm_gpu::version::{api_version_1_3, application_versions, make_api_version, names_nul_free, nul_free, ContextInfo};

#[test]
fn api_version_matches_ash() {
    assert_eq!(make_api_version((0, 1, 3, 0)), ash::vk::API_VERSION_1_3);
    assert_eq!(api_version_1_3(), ash::vk::API_VERSION_1_3);
    assert_eq!(make_api_version((0, 1, 2, 0)), ash::vk::API_VERSION_1_2);
    assert_eq!(make_api_version((1, 2, 3, 4)), (1 << 29) | (2 << 22) | (3 << 12) | 4);
    assert_eq!(make_api_version((0, 0, 1, 0)), 4096);
}

#[test]
fn packed_versions_keep_their_order() {
    let older = make_api_version((0, 1, 2, 4095));
    let newer = make_api_version((0, 1, 3, 0));
    assert!(older < newer);
    assert!(make_api_version((0, 1, 3, 1)) > newer);
    assert!(make_api_version((0, 2, 0, 0)) > make_api_version((0, 1, 1023, 4095)));
}

#[test]
fn context_info_default() {
    let info = ContextInfo::default();
    assert_eq!(&*info.application_name, "Paracosm GPU App");
    assert_eq!(info.application_version, (0, 0, 1, 0));
    assert_eq!(&*info.engine_name, "Paracosm");
    assert_eq!(info.engine_version, (0, 0, 1, 0));
    let (app, engine, api) = application_versions(&info);
    assert_eq!(app, 4096);
    assert_eq!(engine, 4096);
    assert_eq!(api, ash::vk::API_VERSION_1_3);
}

#[test]
fn application_versions_of_custom_info() {
    let info = ContextInfo {
        application_name: "simplest".into(),
        application_version: (0, 2, 5, 7),
        ..Default::default()
    };
    let (app, _, _) = application_versions(&info);
    assert_eq!(app, ash::vk::make_api_version(0, 2, 5, 7));
}

#[test]
fn last_max_index_picks_last_of_ties() {
    assert_eq!(last_max_index(&vec![1, 5, 5, 2]), Some(2));
    assert_eq!(last_max_index(&vec![7]), Some(0));
    assert_eq!(last_max_index(&vec![0, 0, 0]), Some(2));
    assert_eq!(last_max_index(&vec![-3, -1, -2]), Some(1));
    assert_eq!(last_max_index(&vec![]), None);
}

fn family(flags: ash::vk::QueueFlags, queue_count: u32) -> QueueFamily {
    QueueFamily { flags: flags.as_raw(), queue_count }
}

#[test]
fn queue_families_are_classified() {
    let families = vec![
        family(F::GRAPHICS | F::COMPUTE | F::TRANSFER | F::SPARSE_BINDING, 16),
        family(F::TRANSFER | F::SPARSE_BINDING, 2),
        family(F::COMPUTE | F::TRANSFER, 8),
        family(F::COMPUTE | F::TRANSFER, 4),
        family(F::TRANSFER, 1),
    ];
    let q = classify_queue_families(&families);
    assert_eq!(
        q,
        QueueProperties { graphics_family: 0, compute_family: 2, compute_count: 8, transfer_family: 1, transfer_count: 2 }
    );
}

#[test]
fn last_graphics_family_wins_and_empty_counts_are_replaced() {
    let families = vec![
        family(F::GRAPHICS | F::COMPUTE | F::TRANSFER, 1),
        family(F::COMPUTE | F::TRANSFER, 0),
        family(F::GRAPHICS | F::COMPUTE | F::TRANSFER, 1),
        family(F::COMPUTE | F::TRANSFER, 3),
        family(F::GRAPHICS, 1),
        family(F::COMPUTE, 1),
    ];
    let q = classify_queue_families(&families);
    assert_eq!(q.graphics_family, 2);
    assert_eq!(q.compute_family, 3);
    assert_eq!(q.compute_count, 3);
    assert_eq!(q.transfer_family, 0);
    assert_eq!(q.transfer_count, 0);
    assert_eq!(classify_queue_families(&vec![]), QueueProperties::default());
}

fn candidate(api_version: u32, device_type: ash::vk::PhysicalDeviceType, supports_presentation: bool) -> DeviceCandidate {
    DeviceCandidate { api_version, device_type: device_type.as_raw(), supports_presentation }
}

#[test]
fn device_scores() {
    let v13 = ash::vk::API_VERSION_1_3;
    assert_eq!(device_score(&candidate(v13, T::DISCRETE_GPU, true), true), 1000);
    assert_eq!(device_score(&candidate(v13, T::INTEGRATED_GPU, true), true), 100);
    assert_eq!(device_score(&candidate(v13, T::VIRTUAL_GPU, true), true), 10);
    assert_eq!(device_score(&candidate(v13, T::CPU, true), true), 1);
    assert_eq!(device_score(&candidate(v13, T::DISCRETE_GPU, false), true), 0);
    assert_eq!(device_score(&candidate(v13, T::DISCRETE_GPU, false), false), 1000);
    assert_eq!(device_score(&candidate(ash::vk::API_VERSION_1_2, T::DISCRETE_GPU, true), true), 0);
    assert_eq!(DEVICE_TYPE_DISCRETE_GPU, T::DISCRETE_GPU.as_raw());
    assert_eq!(DEVICE_TYPE_INTEGRATED_GPU, T::INTEGRATED_GPU.as_raw());
    assert_eq!(DEVICE_TYPE_VIRTUAL_GPU, T::VIRTUAL_GPU.as_raw());
    assert_eq!(DEVICE_TYPE_CPU, T::CPU.as_raw());
}

#[test]
fn primary_device_selection() {
    let v13 = ash::vk::API_VERSION_1_3;
    let devices = vec![
        candidate(v13, T::INTEGRATED_GPU, true),
        candidate(v13, T::DISCRETE_GPU, true),
        candidate(v13, T::DISCRETE_GPU, false),
        candidate(v13, T::CPU, true),
    ];
    assert_eq!(select_primary_device(&devices, true), Ok(1));
    assert_eq!(select_primary_device(&devices, false), Ok(2));
    let unusable = vec![candidate(0, T::DISCRETE_GPU, true), candidate(0, T::OTHER, false)];
    assert_eq!(select_primary_device(&unusable, true), Ok(1));
    assert_eq!(select_primary_device(&vec![], true), Err(DeviceError::NoValidDevice));
    assert_eq!(DeviceError::NoValidDevice.message(), "No valid device found.");
}

#[test]
fn device_index_validation() {
    assert_eq!(validate_device_index(1, 2), Ok(1));
    assert_eq!(validate_device_index(2, 2), Err(DeviceError::InvalidDeviceIndex));
    assert_eq!(validate_device_index(0, 0), Err(DeviceError::InvalidDeviceIndex));
    assert_eq!(DeviceError::InvalidDeviceIndex.message(), "'index' should be a valid device index.");
}

#[test]
fn descriptor_counts_are_capped() {
    let limits = DescriptorLimits {
        storage_buffers: 500_000,
        storage_images: 64,
        sampled_images: 1000,
        samplers: 1001,
        acceleration_structures: 0,
    };
    assert_eq!(
        descriptor_counts(&limits),
        DescriptorLimits { storage_buffers: 1000, storage_images: 64, sampled_images: 1000, samplers: 1000, acceleration_structures: 0 }
    );
}

#[test]
fn queue_plan_and_extensions() {
    let q = QueueProperties { graphics_family: 0, compute_family: 2, transfer_family: 1, compute_count: 8, transfer_count: 2 };
    assert_eq!(queue_create_plan(&q), [(0, 1), (2, 8), (1, 2)]);
    let plain = device_extensions(false);
    assert_eq!(plain.len(), 9);
    assert!(!plain.contains(&DeviceExtension::Swapchain));
    let display = device_extensions(true);
    assert_eq!(display.len(), 10);
    assert_eq!(display[9], DeviceExtension::Swapchain);
    assert_eq!(display[0], DeviceExtension::DescriptorIndexing);
}

#[test]
fn names_with_nul_cannot_reach_vulkan() {
    assert!(nul_free("Paracosm"));
    assert!(nul_free(""));
    assert!(!nul_free("Para\0cosm"));
    assert!(!nul_free("\0"));
    assert!(names_nul_free(&ContextInfo::default()));
    let info = ContextInfo { application_name: "app\0".into(), ..ContextInfo::default() };
    assert!(!names_nul_free(&info));
}
