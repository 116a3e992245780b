use supernova::propellant::vulkan::instance::use_validation_layer;
use supernova::propellant::vulkan::buffer::{copy_region, find_memory_type, write_view, BufferView, BufferWriteError};
use supernova::propellant::vulkan::physical_devices::{
    check_physical_device_capabilities, physical_device_extensions_check, physical_device_features_check,
    required_device_extensions, vulkan_api_version, DeviceClassification,
};
use supernova::propellant::vulkan::queue::{plan_queue_sharing, VkSharableQueue};
use supernova::propellant::vulkan::queue_family_indices::{
    find_compute_queue, find_graphics_queue, find_transfer_queue, QueueFamily, QueueFamilyIndices,
};
use supernova::propellant::vulkan::reference::VkRef;
use supernova::propellant::vulkan::swapchain::{
    get_swapchain_extent, get_swapchain_present_mode, get_swapchain_surface_format, swapchain_image_count, Extent2D,
    SurfaceCapabilities, SurfaceFormat,
};
use supernova::propellant::vulkan::synchronization::VkSynchronization;
use supernova::propellant::vulkan::utils::{format_api_version, vulkan_name_to_string};

const G: u32 = 1;
const C: u32 = 2;
const T: u32 = 4;
const S: u32 = 8;

fn fam(queue_flags: u32, queue_count: u32) -> QueueFamily {
    QueueFamily { queue_flags, queue_count }
}

#[test]
fn api_version_text() {
    assert_eq!(format_api_version(vulkan_api_version()), "1.3.0");
    assert_eq!(vulkan_api_version(), (1 << 22) | (3 << 12));
    assert_eq!(format_api_version((1 << 22) | (2 << 12) | 198), "1.2.198");
    assert_eq!(format_api_version((127 << 22) | (1023 << 12) | 4095), "127.1023.4095");
    assert_eq!(format_api_version(0), "0.0.0");
}

#[test]
fn names_read_up_to_nul() {
    let raw: Vec<i8> = b"NVIDIA GeForce\0garbage".iter().map(|b| *b as i8).collect();
    assert_eq!(vulkan_name_to_string(&raw), "NVIDIA GeForce");
    let raw: Vec<i8> = b"no terminator".iter().map(|b| *b as i8).collect();
    assert_eq!(vulkan_name_to_string(&raw), "no terminator");
    let raw: Vec<i8> = "h\u{e9}\0".bytes().map(|b| b as i8).collect();
    assert_eq!(vulkan_name_to_string(&raw), "h\u{e9}");
    assert_eq!(vulkan_name_to_string(&[]), "");
}

#[test]
fn invalid_names_are_reported() {
    let raw: Vec<i8> = vec![b'a' as i8, 0xffu8 as i8, 0];
    let expected_error = String::from_utf8(vec![b'a', 0xff]).unwrap_err();
    assert_eq!(vulkan_name_to_string(&raw), format!("Unknown device name: {expected_error}"));
}

#[test]
fn graphics_family_has_most_flags_last_on_tie() {
    let families = [fam(G | C | T, 1), fam(G | C, 4), fam(G | T | S, 2), fam(C | T, 8)];
    assert_eq!(find_graphics_queue(&families, &[true, true, true, true]), Some(2));
    assert_eq!(find_graphics_queue(&families, &[true, true, false, true]), Some(0));
    assert_eq!(find_graphics_queue(&families, &[false, true, false, true]), Some(1));
    assert_eq!(find_graphics_queue(&families, &[false, false, false, true]), None);
    assert_eq!(find_graphics_queue(&[], &[]), None);
}

#[test]
fn transfer_family_is_dedicated_and_most_specialised() {
    let families = [fam(G | C | T, 1), fam(C | T | S, 2), fam(T, 1), fam(T | S, 3), fam(T, 5)];
    assert_eq!(find_transfer_queue(&families, 0), Some(2));
    assert_eq!(find_transfer_queue(&families, 2), Some(4));
    assert_eq!(find_transfer_queue(&[fam(G | T, 1), fam(C, 1)], 0), None);
}

#[test]
fn compute_family_has_most_queues_last_on_tie() {
    let families = [fam(G | C | T, 1), fam(C, 4), fam(C | T, 8), fam(C | S, 8), fam(G | C, 16)];
    assert_eq!(find_compute_queue(&families, 0), Some(3));
    assert_eq!(find_compute_queue(&families, 3), Some(2));
    assert_eq!(find_compute_queue(&[fam(G | C, 4)], 0), None);
}

#[test]
fn queue_family_indices_fall_back_to_graphics() {
    let families = [fam(G | C | T, 16)];
    assert_eq!(
        QueueFamilyIndices::get(&families, &[true]),
        Some(QueueFamilyIndices { graphics: 0, transfer: 0, compute: 0 })
    );
    let families = [fam(G | C | T, 16), fam(T, 2), fam(C | T, 8)];
    assert_eq!(
        QueueFamilyIndices::get(&families, &[true, false, false]),
        Some(QueueFamilyIndices { graphics: 0, transfer: 1, compute: 2 })
    );
    assert_eq!(QueueFamilyIndices::get(&families, &[false, false, false]), None);
}

#[test]
fn unique_families_sorted() {
    let indices = QueueFamilyIndices { graphics: 2, transfer: 0, compute: 2 };
    assert_eq!(indices.unique_families(), vec![0, 2]);
    let indices = QueueFamilyIndices { graphics: 3, transfer: 1, compute: 2 };
    assert_eq!(indices.unique_families(), vec![1, 2, 3]);
    let indices = QueueFamilyIndices { graphics: 0, transfer: 0, compute: 0 };
    assert_eq!(indices.unique_families(), vec![0]);
}

#[test]
fn queue_sharing_plan() {
    let plan = plan_queue_sharing(QueueFamilyIndices { graphics: 0, transfer: 0, compute: 1 });
    assert!(plan.transfer_shared);
    assert!(!plan.compute_shared);
    let plan = plan_queue_sharing(QueueFamilyIndices { graphics: 0, transfer: 1, compute: 1 });
    assert!(!plan.transfer_shared);
    assert!(plan.compute_shared);
    let owned: VkSharableQueue<u64> = VkSharableQueue::Owned(7);
    let shared: VkSharableQueue<u64> = VkSharableQueue::Shared(VkRef::shared(&9));
    assert_eq!((owned.ownership(), *owned.as_ref()), ("Owned", 7));
    assert_eq!((shared.ownership(), *shared.as_ref()), ("Shared", 9));
}

#[test]
fn surface_format_prefers_srgb_bgra() {
    let formats = [
        SurfaceFormat { format: 44, color_space: 0 },
        SurfaceFormat { format: 50, color_space: 1000104001 },
        SurfaceFormat { format: 50, color_space: 0 },
    ];
    assert_eq!(get_swapchain_surface_format(&formats), SurfaceFormat { format: 50, color_space: 0 });
    assert_eq!(get_swapchain_surface_format(&formats[..2]), SurfaceFormat { format: 44, color_space: 0 });
}

#[test]
fn present_mode_preference() {
    assert_eq!(get_swapchain_present_mode(&[2, 3, 1]), 1);
    assert_eq!(get_swapchain_present_mode(&[0, 2, 3]), 3);
    assert_eq!(get_swapchain_present_mode(&[0]), 2);
    assert_eq!(get_swapchain_present_mode(&[]), 2);
}

fn caps(current: Extent2D, min_count: u32, max_count: u32) -> SurfaceCapabilities {
    SurfaceCapabilities {
        min_image_count: min_count,
        max_image_count: max_count,
        current_extent: current,
        min_image_extent: Extent2D { width: 100, height: 100 },
        max_image_extent: Extent2D { width: 1000, height: 800 },
    }
}

#[test]
fn extent_and_image_count() {
    let window = Extent2D { width: 1920, height: 50 };
    let fixed = caps(Extent2D { width: 640, height: 480 }, 2, 0);
    assert_eq!(get_swapchain_extent(window, fixed), Extent2D { width: 640, height: 480 });
    let free = caps(Extent2D { width: u32::MAX, height: u32::MAX }, 2, 3);
    assert_eq!(get_swapchain_extent(window, free), Extent2D { width: 1000, height: 100 });
    assert_eq!(swapchain_image_count(fixed), 3);
    assert_eq!(swapchain_image_count(caps(Extent2D { width: 1, height: 1 }, 3, 3)), 3);
    assert_eq!(swapchain_image_count(caps(Extent2D { width: 1, height: 1 }, 1, 5)), 2);
}

#[test]
fn extensions_check() {
    let names: Vec<String> = required_device_extensions();
    assert_eq!(names, vec!["VK_KHR_swapchain".to_string(), "VK_EXT_descriptor_indexing".to_string()]);
    let supported = vec!["VK_KHR_maintenance1".to_string(), "VK_EXT_descriptor_indexing".to_string(), "VK_KHR_swapchain".to_string()];
    assert!(physical_device_extensions_check(&supported));
    assert!(!physical_device_extensions_check(&supported[..2]));
    assert!(!physical_device_extensions_check(&[]));
}

#[test]
fn features_check() {
    assert!(physical_device_features_check(&[0, 0, 0], &[0, 1, 0]));
    assert!(physical_device_features_check(&[1, 0, 1], &[1, 0, 1]));
    assert!(!physical_device_features_check(&[1, 0, 1], &[1, 1, 0]));
    assert!(physical_device_features_check(&[], &[]));
}

fn good_families() -> Vec<QueueFamily> {
    vec![fam(G | C | T, 16), fam(T, 2)]
}

#[test]
fn device_classification_reasons() {
    let exts = vec!["VK_KHR_swapchain".to_string(), "VK_EXT_descriptor_indexing".to_string()];
    let v13 = (1 << 22) | (3 << 12);
    let v12 = (1 << 22) | (2 << 12) | 198;
    let fams = good_families();
    let support = [true, false];
    assert_eq!(
        check_physical_device_capabilities(v13, &fams, &support, &[0, 0], &[0, 0], &exts, 2, 1),
        DeviceClassification::Usable(QueueFamilyIndices { graphics: 0, transfer: 1, compute: 0 })
    );
    assert_eq!(
        check_physical_device_capabilities(v12, &fams, &support, &[0, 0], &[0, 0], &exts, 2, 1),
        DeviceClassification::Unusable("Invalid API version: required 1.3.0, found 1.2.198".to_string())
    );
    assert_eq!(
        check_physical_device_capabilities(v13, &fams, &[false, false], &[0, 0], &[0, 0], &exts, 2, 1),
        DeviceClassification::Unusable("No suitable graphics queue family".to_string())
    );
    assert_eq!(
        check_physical_device_capabilities(v13, &fams, &support, &[1, 0], &[0, 0], &exts, 2, 1),
        DeviceClassification::Unusable("Device does not have the required features".to_string())
    );
    assert_eq!(
        check_physical_device_capabilities(v13, &fams, &support, &[0, 0], &[0, 0], &exts[..1], 2, 1),
        DeviceClassification::Unusable("Device does not have the required extensions".to_string())
    );
    assert_eq!(
        check_physical_device_capabilities(v13, &fams, &support, &[0, 0], &[0, 0], &exts, 0, 1),
        DeviceClassification::Unusable("Device has insufficient surface support".to_string())
    );
    assert_eq!(
        check_physical_device_capabilities(v13, &fams, &support, &[0, 0], &[0, 0], &exts, 3, 0),
        DeviceClassification::Unusable("Device has insufficient surface support".to_string())
    );
}

#[test]
fn buffer_writes_fit_or_fail() {
    let view: BufferView<u64> = write_view(10, 4, 6).expect("fits");
    assert_eq!((view.offset(), view.length()), (4, 6));
    assert_eq!(write_view::<u64>(10, 5, 6).unwrap_err(), BufferWriteError::new(10, 5, 6));
    assert_eq!(write_view::<u64>(10, usize::MAX, 2).unwrap_err(), BufferWriteError::new(10, usize::MAX, 2));
    let empty: BufferView<u64> = BufferView::empty();
    assert_eq!((empty.offset(), empty.length()), (0, 0));
}

#[test]
fn copy_regions_in_bytes() {
    let source: BufferView<u32> = write_view(100, 3, 5).unwrap();
    let destination: BufferView<u32> = write_view(100, 10, 5).unwrap();
    let region = copy_region(source, destination, 64).expect("same length");
    assert_eq!((region.src_offset, region.dst_offset, region.size), (192, 640, 320));
    let shorter: BufferView<u32> = write_view(100, 0, 4).unwrap();
    assert!(copy_region(source, shorter, 64).is_none());
}

#[test]
fn memory_type_choice() {
    let device_local = 1;
    let host_visible_coherent = 2 | 4;
    let types = [device_local, host_visible_coherent, device_local | host_visible_coherent];
    assert_eq!(find_memory_type(&types, 0b111, host_visible_coherent), Some(1));
    assert_eq!(find_memory_type(&types, 0b101, host_visible_coherent), Some(2));
    assert_eq!(find_memory_type(&types, 0b001, host_visible_coherent), None);
    assert_eq!(find_memory_type(&types, 0b111, 8), None);
}

#[test]
fn frame_slots_cycle_and_images_remember_their_frame() {
    let mut sync = VkSynchronization::create(3);
    assert_eq!(sync.image_count(), 3);
    assert_eq!(sync.frame_index(), 0);
    assert_eq!(sync.claim_image(1), None);
    sync.advance();
    assert_eq!(sync.frame_index(), 1);
    assert_eq!(sync.claim_image(1), Some(0));
    assert_eq!(sync.claim_image(1), Some(1));
    sync.advance();
    assert_eq!(sync.frame_index(), 0);
    assert_eq!(sync.claim_image(2), None);
}

#[test]
fn image_owner_is_read_before_the_claim() {
    let mut sync = VkSynchronization::create(2);
    assert_eq!(sync.image_owner(0), None);
    assert_eq!(sync.claim_image(0), None);
    sync.advance();
    assert_eq!(sync.image_owner(0), Some(0));
    assert_eq!(sync.image_owner(0), Some(0));
    assert_eq!(sync.image_owner(1), None);
    assert_eq!(sync.claim_image(0), Some(0));
    assert_eq!(sync.image_owner(0), Some(1));
}

#[test]
fn one_queue_per_distinct_family() {
    for (g, t, c) in [(0u32, 0u32, 0u32), (0, 1, 1), (0, 1, 2), (0, 0, 2), (2, 1, 2)] {
        let indices = QueueFamilyIndices { graphics: g, transfer: t, compute: c };
        let plan = plan_queue_sharing(indices);
        let mut created = vec![g];
        if !plan.transfer_shared {
            created.push(t);
        }
        if !plan.compute_shared {
            created.push(c);
        }
        created.sort();
        assert_eq!(created, indices.unique_families());
    }
}

#[test]
fn no_device_feature_is_required() {
    let flags = supernova::propellant::vulkan::physical_devices::required_device_features();
    assert_eq!(flags.len(), supernova::propellant::vulkan::physical_devices::DEVICE_FEATURE_COUNT);
    assert!(flags.iter().all(|f| *f == 0));
    assert!(physical_device_features_check(&flags, &vec![0; flags.len()]));
}

#[test]
fn validation_layer_only_in_debug_builds_when_offered() {
    let offered = vec!["VK_LAYER_MESA_overlay".to_string(), "VK_LAYER_KHRONOS_validation".to_string()];
    let missing = vec!["VK_LAYER_MESA_overlay".to_string()];
    assert!(use_validation_layer(true, &offered));
    assert!(!use_validation_layer(false, &offered));
    assert!(!use_validation_layer(true, &missing));
    assert!(!use_validation_layer(true, &[]));
}
