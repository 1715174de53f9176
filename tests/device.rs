use gamekit::device::{
    find_memory_type, memory_property_flags, negotiate_features, queue_family_indices, required_device_extension_names,
    select_physical_device, AdapterInfo, AdapterType, DeviceMemory, QueueFamily, SurfaceFormat,
    COLOR_SPACE_SRGB_NONLINEAR, FORMAT_B8G8R8A8_SRGB,
};
use gamekit::error::ErrorKind;
use gamekit::swapchain::{PresentMode, SurfaceCapabilities, Extent2D, SwapChain};

fn good_adapter() -> AdapterInfo {
    AdapterInfo {
        device_type: AdapterType::DiscreteGpu,
        extensions: vec!["VK_KHR_swapchain".to_string(), "VK_EXT_extended_dynamic_state".to_string()],
        surface_formats: vec![
            SurfaceFormat { format: 44, color_space: 0 },
            SurfaceFormat { format: FORMAT_B8G8R8A8_SRGB, color_space: COLOR_SPACE_SRGB_NONLINEAR },
        ],
        present_modes: vec![PresentMode::Fifo, PresentMode::Mailbox],
        queue_families: vec![
            QueueFamily { graphics: false, present: false },
            QueueFamily { graphics: true, present: false },
            QueueFamily { graphics: true, present: true },
        ],
        min_uniform_buffer_offset_alignment: 256,
    }
}

#[test]
fn selects_first_suitable_adapter() {
    let mut cpu = good_adapter();
    cpu.device_type = AdapterType::Cpu;
    let mut no_ext = good_adapter();
    no_ext.extensions.pop();
    let mut no_format = good_adapter();
    no_format.surface_formats.remove(1);
    let mut no_present = good_adapter();
    no_present.queue_families[2].present = false;
    let good = good_adapter();
    let info = select_physical_device(&vec![cpu, no_ext, no_format, no_present, good, good_adapter()]).unwrap();
    assert_eq!(info.adapter_index, 4);
    assert_eq!(info.graphics_family_index, 1);
    assert_eq!(info.present_family_index, 2);
    assert!(info.mail_box_mode_support);
    assert_eq!(info.surface_format, SurfaceFormat { format: FORMAT_B8G8R8A8_SRGB, color_space: COLOR_SPACE_SRGB_NONLINEAR });
    assert_eq!(info.uniform_buffer_alignment, 256);
}

#[test]
fn no_suitable_adapter_is_selection_error() {
    let mut virt = good_adapter();
    virt.device_type = AdapterType::VirtualGpu;
    let err = select_physical_device(&vec![virt]).unwrap_err();
    assert_eq!(err.kind(), ErrorKind::DeviceSelection);
    assert!(select_physical_device(&vec![]).is_err());
}

#[test]
fn no_mailbox_selects_fifo() {
    let mut a = good_adapter();
    a.device_type = AdapterType::IntegratedGpu;
    a.present_modes = vec![PresentMode::Immediate, PresentMode::Fifo];
    let info = select_physical_device(&vec![a]).unwrap();
    assert!(!info.mail_box_mode_support);
    let caps = SurfaceCapabilities {
        current_extent: Extent2D { width: 800, height: 600 },
        min_image_extent: Extent2D { width: 1, height: 1 },
        max_image_extent: Extent2D { width: 4096, height: 4096 },
        min_image_count: 2,
        max_image_count: 8,
    };
    let sc = SwapChain::new(&caps, 640, 480, &info);
    assert_eq!(sc.present_mode, PresentMode::Fifo);
}

#[test]
fn required_extensions_list() {
    let names = required_device_extension_names();
    assert_eq!(names, vec!["VK_KHR_swapchain".to_string(), "VK_EXT_extended_dynamic_state".to_string()]);
}

#[test]
fn shared_queue_family_requested_once() {
    assert_eq!(queue_family_indices(0, 0), vec![0]);
    assert_eq!(queue_family_indices(0, 1), vec![0, 1]);
}

#[test]
fn mandatory_feature_missing_is_fatal() {
    let err = negotiate_features(false, true).unwrap_err();
    assert_eq!(err.kind(), ErrorKind::FeatureUnsupported);
    let f = negotiate_features(true, true).unwrap();
    assert!(f.has_dynamic_state());
    assert!(!f.has_dynamic_state_3());
    let g = negotiate_features(true, false).unwrap();
    assert!(!g.has_dynamic_state_3());
}

#[test]
fn memory_type_lookup() {
    let flags = vec![0x1, 0x6, 0x7];
    assert_eq!(find_memory_type(0b111, &flags, 0x6).unwrap(), 1);
    assert_eq!(find_memory_type(0b101, &flags, 0x6).unwrap(), 2);
    let err = find_memory_type(0b001, &flags, 0x6).unwrap_err();
    assert_eq!(err.kind(), ErrorKind::MemoryTypeNotFound);
}

#[test]
fn memory_bits_map_to_driver_properties() {
    assert_eq!(memory_property_flags(DeviceMemory::DEVICE_LOCAL), 0x1);
    assert_eq!(memory_property_flags(DeviceMemory::HOST_VISIBLE | DeviceMemory::HOST_COHERENT), 0x6);
    assert_eq!(memory_property_flags(DeviceMemory::HOST_VISIBLE), 0x2);
    assert_eq!(memory_property_flags(0), 0);
}
