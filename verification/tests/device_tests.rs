use broth::device::{
    check_physical_device, check_physical_device_extensions, get_max_msaa_samples,
    pick_physical_device, required_device_extension, DeviceError, PhysicalDeviceInfo,
};
use broth::memory::{get_memory_type_index, MemoryError, MemoryTypeInfo};
use broth::queue::{
    unique_queue_family_indices, QueueError, QueueFamilyIndices, QueueFamilyInfo,
};
use broth::render_pass::{
    depth_candidate_formats, get_depth_format, get_supported_format, FormatFeatures,
    RenderPassError, Tiling, FEATURE_DEPTH_STENCIL_ATTACHMENT, FORMAT_D24_UNORM_S8_UINT,
    FORMAT_D32_SFLOAT, FORMAT_D32_SFLOAT_S8_UINT,
};

fn family(graphics: bool, present: bool) -> QueueFamilyInfo {
    QueueFamilyInfo { supports_graphics: graphics, supports_present: present }
}

fn good_device() -> PhysicalDeviceInfo {
    PhysicalDeviceInfo {
        queue_families: vec![family(true, true)],
        extension_names: vec![required_device_extension()],
        format_count: 2,
        present_mode_count: 2,
        supports_sampler_anisotropy: true,
        color_sample_counts: 0x7F,
        depth_sample_counts: 0x7F,
    }
}

#[test]
fn queue_selection_picks_first_matching_families() {
    let families = vec![family(false, true), family(true, false), family(true, true)];
    let got = QueueFamilyIndices::get(&families).unwrap();
    assert_eq!(got.graphics, 1);
    assert_eq!(got.present, 0);
}

#[test]
fn queue_selection_fails_without_required_family() {
    let families = vec![family(false, true), family(false, true)];
    assert!(matches!(QueueFamilyIndices::get(&families), Err(QueueError::SuitabilityError)));
    let none: Vec<QueueFamilyInfo> = Vec::new();
    assert!(matches!(QueueFamilyIndices::get(&none), Err(QueueError::SuitabilityError)));
}

#[test]
fn unique_queue_families_deduplicate() {
    let same = QueueFamilyIndices { graphics: 3, present: 3 };
    assert_eq!(unique_queue_family_indices(same), vec![3]);
    let different = QueueFamilyIndices { graphics: 1, present: 0 };
    assert_eq!(unique_queue_family_indices(different), vec![1, 0]);
}

#[test]
fn required_extension_is_the_swapchain_name() {
    assert_eq!(required_device_extension(), b"VK_KHR_swapchain".to_vec());
}

#[test]
fn extension_check_finds_the_required_name() {
    let available = vec![b"VK_KHR_maintenance1".to_vec(), b"VK_KHR_swapchain".to_vec()];
    assert!(check_physical_device_extensions(&available).is_ok());
    let missing = vec![b"VK_KHR_maintenance1".to_vec()];
    assert!(matches!(
        check_physical_device_extensions(&missing),
        Err(DeviceError::MissingExtensions)
    ));
}

#[test]
fn device_check_reports_first_failed_requirement() {
    let mut dev = good_device();
    assert!(check_physical_device(&dev).is_ok());

    dev.queue_families = vec![family(false, true)];
    assert!(matches!(check_physical_device(&dev), Err(DeviceError::MissingQueueFamilies)));

    let mut dev = good_device();
    dev.extension_names = Vec::new();
    assert!(matches!(check_physical_device(&dev), Err(DeviceError::MissingExtensions)));

    let mut dev = good_device();
    dev.format_count = 0;
    assert!(matches!(check_physical_device(&dev), Err(DeviceError::SwapchainSupportError)));

    let mut dev = good_device();
    dev.present_mode_count = 0;
    assert!(matches!(check_physical_device(&dev), Err(DeviceError::SwapchainSupportError)));

    let mut dev = good_device();
    dev.supports_sampler_anisotropy = false;
    assert!(matches!(check_physical_device(&dev), Err(DeviceError::FeatureError)));
}

#[test]
fn pick_selects_first_suitable_device() {
    let mut bad = good_device();
    bad.supports_sampler_anisotropy = false;
    let mut second = good_device();
    second.color_sample_counts = 0x0F;
    second.depth_sample_counts = 0x07;
    let devices = vec![bad, second, good_device()];
    let sel = pick_physical_device(&devices).unwrap();
    assert_eq!(sel.index, 1);
    assert_eq!(sel.msaa_samples, 4);
}

#[test]
fn pick_fails_when_no_device_qualifies() {
    let mut bad = good_device();
    bad.format_count = 0;
    let devices = vec![bad];
    assert!(matches!(pick_physical_device(&devices), Err(DeviceError::NoSuitableDevice)));
    let none: Vec<PhysicalDeviceInfo> = Vec::new();
    assert!(matches!(pick_physical_device(&none), Err(DeviceError::NoSuitableDevice)));
}

#[test]
fn msaa_picks_largest_shared_count() {
    assert_eq!(get_max_msaa_samples(0x7F, 0x7F), 64);
    assert_eq!(get_max_msaa_samples(0x7F, 0x23), 32);
    assert_eq!(get_max_msaa_samples(0x0F, 0x07), 4);
    assert_eq!(get_max_msaa_samples(0x01, 0x01), 1);
    assert_eq!(get_max_msaa_samples(0x40, 0x02), 1);
}

#[test]
fn memory_type_first_match_wins() {
    let types = vec![
        MemoryTypeInfo { property_flags: 0b001 },
        MemoryTypeInfo { property_flags: 0b111 },
        MemoryTypeInfo { property_flags: 0b111 },
    ];
    // Type 0 is masked out; types 1 and 2 qualify; the first wins.
    let got = get_memory_type_index(&types, 0b110, 0b011).unwrap();
    assert_eq!(got, 1);
}

#[test]
fn memory_type_requires_mask_and_properties() {
    let types = vec![
        MemoryTypeInfo { property_flags: 0b011 },
        MemoryTypeInfo { property_flags: 0b100 },
    ];
    // The masked-in type lacks the properties; the qualified one is masked out.
    assert!(matches!(
        get_memory_type_index(&types, 0b01, 0b100),
        Err(MemoryError::SuitabilityError)
    ));
    assert!(matches!(
        get_memory_type_index(&Vec::new(), 0xFFFF_FFFF, 0),
        Err(MemoryError::SuitabilityError)
    ));
}

#[test]
fn supported_format_respects_tiling() {
    let candidates = vec![
        FormatFeatures { format: 10, linear_tiling_features: 0x200, optimal_tiling_features: 0 },
        FormatFeatures { format: 20, linear_tiling_features: 0, optimal_tiling_features: 0x200 },
    ];
    assert_eq!(get_supported_format(&candidates, Tiling::Linear, 0x200).unwrap(), 10);
    assert_eq!(get_supported_format(&candidates, Tiling::Optimal, 0x200).unwrap(), 20);
    assert!(matches!(
        get_supported_format(&candidates, Tiling::Optimal, 0x400),
        Err(RenderPassError::SupportError)
    ));
}

#[test]
fn depth_format_prefers_first_supported_candidate() {
    let formats = depth_candidate_formats();
    assert_eq!(
        formats,
        vec![FORMAT_D32_SFLOAT, FORMAT_D32_SFLOAT_S8_UINT, FORMAT_D24_UNORM_S8_UINT]
    );
    let candidates = vec![
        FormatFeatures {
            format: FORMAT_D32_SFLOAT,
            linear_tiling_features: 0,
            optimal_tiling_features: 0,
        },
        FormatFeatures {
            format: FORMAT_D32_SFLOAT_S8_UINT,
            linear_tiling_features: 0,
            optimal_tiling_features: FEATURE_DEPTH_STENCIL_ATTACHMENT,
        },
        FormatFeatures {
            format: FORMAT_D24_UNORM_S8_UINT,
            linear_tiling_features: 0,
            optimal_tiling_features: FEATURE_DEPTH_STENCIL_ATTACHMENT,
        },
    ];
    assert_eq!(get_depth_format(&candidates).unwrap(), FORMAT_D32_SFLOAT_S8_UINT);
}
