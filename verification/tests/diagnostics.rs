use vkframe::device::QueueFamilyInfo;
use vkframe::info::{
    bool_str, dec_u64, device_extensions_line, device_header_line, device_type_str,
    display_report, instance_extensions_line, instance_extensions_report, layer_line,
    layers_report, memory_heap_line, memory_type_line, physical_device_report,
    queue_family_line, required_extensions, version_line, DeviceExtensionSet, DeviceType,
    DisplayInfo, DisplayModeInfo, InstanceExtensionSet, LayerInfo, LimitsInfo, MemoryHeapInfo,
    MemoryTypeInfo, PhysicalDeviceInfo,
};

#[test]
fn decimal_rendering_is_exact() {
    assert_eq!(dec_u64(0), "0");
    assert_eq!(dec_u64(7), "7");
    assert_eq!(dec_u64(10), "10");
    assert_eq!(dec_u64(1024), "1024");
    assert_eq!(dec_u64(u64::MAX), "18446744073709551615");
}

#[test]
fn bool_rendering_is_exact() {
    assert_eq!(bool_str(true), "true");
    assert_eq!(bool_str(false), "false");
}

#[test]
fn required_extensions_enable_display_only() {
    let e = required_extensions();
    assert!(e.khr_display);
    assert!(!e.khr_surface);
    assert!(!e.khr_xlib_surface);
    assert!(!e.ext_debug_report);
}

#[test]
fn layer_line_joins_name_and_description() {
    let l = LayerInfo {
        name: String::from("VK_LAYER_KHRONOS_validation"),
        description: String::from("Khronos Validation Layer"),
    };
    assert_eq!(layer_line(&l), "VK_LAYER_KHRONOS_validation : Khronos Validation Layer");
}

#[test]
fn queue_family_line_is_exact() {
    let q = QueueFamilyInfo {
        id: 0,
        queues_count: 16,
        graphics: true,
        compute: true,
        transfers: true,
        sparse_binding: false,
    };
    assert_eq!(
        queue_family_line(&q),
        "queue 0: count: 16 graphics:true compute:true transfers:true sparse_bind:false"
    );
}

#[test]
fn memory_type_line_is_exact() {
    let m = MemoryTypeInfo {
        id: 3,
        device_local: true,
        host_visible: false,
        host_coherent: false,
        host_cached: false,
        lazily_allocated: false,
    };
    assert_eq!(
        memory_type_line(&m),
        "memtype 3: local:true, host_visible: false, host_coherent: false, \
         host_cached: false, lazily_allocated: false"
    );
}

#[test]
fn memory_heap_line_is_exact() {
    let m = MemoryHeapInfo { id: 0, size: 8589934592, device_local: true };
    assert_eq!(memory_heap_line(&m), "memheap 0: size: 8589934592, local: true");
}

#[test]
fn version_line_is_exact() {
    assert_eq!(version_line(1, 3, 280, 42), "Api: 1.3.280 Driver: 42");
}

#[test]
fn device_header_line_is_exact() {
    let name = String::from("llvmpipe");
    assert_eq!(device_type_str(&DeviceType::Cpu), "Cpu");
    assert_eq!(device_header_line(&name, &DeviceType::Cpu), "Device Info: Name:llvmpipe Type:Cpu");
}

fn all_false_instance_extensions() -> InstanceExtensionSet {
    InstanceExtensionSet {
        khr_surface: false,
        khr_display: false,
        khr_xlib_surface: false,
        khr_xcb_surface: false,
        khr_wayland_surface: false,
        khr_mir_surface: false,
        khr_android_surface: false,
        khr_win32_surface: false,
        ext_debug_report: false,
        mvk_ios_surface: false,
        mvk_macos_surface: false,
        mvk_moltenvk: false,
        nn_vi_surface: false,
        ext_swapchain_colorspace: false,
        khr_get_physical_device_properties2: false,
    }
}

#[test]
fn instance_extensions_line_names_every_extension() {
    let mut e = all_false_instance_extensions();
    e.khr_surface = true;
    e.khr_xcb_surface = true;
    assert_eq!(
        instance_extensions_line(&e),
        "khr_surface: true khr_display: false khr_xlib_surface: false \
         khr_xcb_surface: true khr_wayland_surface: false khr_mir_surface: false \
         khr_android_surface: false khr_win32_surface: false ext_debug_report: false \
         mvk_ios_surface: false mvk_macos_surface: false mvk_moltenvk: false \
         nn_vi_surface: false ext_swapchain_colorspace: false \
         khr_get_physical_device_properties2: false"
    );
}

#[test]
fn instance_extensions_report_has_heading_then_line() {
    let e = all_false_instance_extensions();
    let r = instance_extensions_report(&e);
    assert_eq!(r.len(), 2);
    assert_eq!(r[0], "Instance extensions:");
    assert_eq!(r[1], instance_extensions_line(&e));
}

fn swapchain_only_device_extensions() -> DeviceExtensionSet {
    DeviceExtensionSet {
        khr_swapchain: true,
        khr_display_swapchain: false,
        khr_sampler_mirror_clamp_to_edge: false,
        khr_maintenance1: false,
        khr_get_memory_requirements2: false,
        khr_dedicated_allocation: false,
        khr_incremental_present: false,
        ext_debug_marker: false,
    }
}

#[test]
fn device_extensions_line_names_every_extension() {
    assert_eq!(
        device_extensions_line(&swapchain_only_device_extensions()),
        "khr_swapchain: true khr_display_swapchain: false \
         khr_sampler_mirror_clamp_to_edge: false khr_maintenance1: false \
         khr_get_memory_requirements2: false khr_dedicated_allocation: false \
         khr_incremental_present: false ext_debug_marker: false"
    );
}

#[test]
fn layers_report_lists_each_layer() {
    let layers = vec![
        LayerInfo { name: String::from("a"), description: String::from("first") },
        LayerInfo { name: String::from("b"), description: String::from("second") },
    ];
    let r = layers_report(&layers);
    assert_eq!(r, vec!["Available layers:", "a : first", "b : second"]);
}

#[test]
fn display_report_lists_each_mode() {
    let d = DisplayInfo {
        name: String::from("eDP-1"),
        dim_width: 344,
        dim_height: 194,
        res_width: 1920,
        res_height: 1080,
        modes: vec![
            DisplayModeInfo { region_width: 1920, region_height: 1080, refresh_rate: 60000 },
            DisplayModeInfo { region_width: 1280, region_height: 720, refresh_rate: 59940 },
        ],
    };
    let r = display_report(&d);
    assert_eq!(r.len(), 4);
    assert_eq!(r[0], "name: eDP-1 dimension(344 x 194) resolution(1920 x 1080)");
    assert_eq!(r[1], "modes:");
    assert_eq!(r[2], "region(1920 x 1080) refresh rate: 60000");
    assert_eq!(r[3], "region(1280 x 720) refresh rate: 59940");
}

#[test]
fn physical_device_report_is_line_by_line() {
    let d = PhysicalDeviceInfo {
        name: String::from("gpu0"),
        ty: DeviceType::DiscreteGpu,
        api_major: 1,
        api_minor: 2,
        api_patch: 131,
        driver_version: 9,
        features: String::from("Features { .. }"),
        queue_families: vec![QueueFamilyInfo {
            id: 0,
            queues_count: 2,
            graphics: true,
            compute: false,
            transfers: true,
            sparse_binding: false,
        }],
        memory_types: vec![MemoryTypeInfo {
            id: 0,
            device_local: true,
            host_visible: true,
            host_coherent: true,
            host_cached: false,
            lazily_allocated: false,
        }],
        memory_heaps: vec![MemoryHeapInfo { id: 0, size: 1024, device_local: true }],
        limits: LimitsInfo {
            max_image_dimension_1d: 16384,
            max_image_dimension_2d: 16384,
            max_image_dimension_3d: 2048,
            max_image_dimension_cube: 16384,
        },
        extensions: swapchain_only_device_extensions(),
    };
    let r = physical_device_report(&d);
    assert_eq!(r.len(), 15);
    assert_eq!(r[0], "Device Info: Name:gpu0 Type:DiscreteGpu");
    assert_eq!(r[1], "Api: 1.2.131 Driver: 9");
    assert_eq!(r[2], "Supported Features:");
    assert_eq!(r[3], "Features { .. }");
    assert_eq!(r[4], "Queue families:");
    assert_eq!(
        r[5],
        "queue 0: count: 2 graphics:true compute:false transfers:true sparse_bind:false"
    );
    assert_eq!(
        r[6],
        "memtype 0: local:true, host_visible: true, host_coherent: true, \
         host_cached: false, lazily_allocated: false"
    );
    assert_eq!(r[7], "memheap 0: size: 1024, local: true");
    assert_eq!(r[8], "Limits:");
    assert_eq!(r[9], "max_image_dimension_1d: 16384");
    assert_eq!(r[10], "max_image_dimension_2d: 16384");
    assert_eq!(r[11], "max_image_dimension_3d: 2048");
    assert_eq!(r[12], "max_image_dimension_cube: 16384");
    assert_eq!(r[13], "Device extensions:");
    assert_eq!(r[14], device_extensions_line(&swapchain_only_device_extensions()));
}

#[test]
fn decimal_boundary_values() {
    assert_eq!(dec_u64(9), "9");
    assert_eq!(dec_u64(11), "11");
    assert_eq!(dec_u64(100), "100");
}
