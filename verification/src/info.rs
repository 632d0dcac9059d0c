//! The diagnostics dump: every capability the program reports, modeled as
//! plain values, and the exact text of each reported line.
//!
//! The dump is purely observational — it queries and prints, and changes no
//! other component's behavior.  Querying the driver and writing to standard
//! output happen outside this crate; the queried facts arrive here as plain
//! values, and each line of the report is built and specified here, down to
//! its characters.

use vstd::prelude::*;
use crate::device::QueueFamilyInfo;

verus! {

/// The decimal digit character for `d`.
pub open spec fn spec_digit(d: int) -> char {
    if d == 0 {
        '0'
    } else if d == 1 {
        '1'
    } else if d == 2 {
        '2'
    } else if d == 3 {
        '3'
    } else if d == 4 {
        '4'
    } else if d == 5 {
        '5'
    } else if d == 6 {
        '6'
    } else if d == 7 {
        '7'
    } else if d == 8 {
        '8'
    } else {
        '9'
    }
}

/// The decimal rendering of `n`, without sign or padding.
pub open spec fn spec_dec(n: int) -> Seq<char>
    decreases n,
{
    if n < 10 {
        seq![spec_digit(n)]
    } else {
        spec_dec(n / 10) + seq![spec_digit(n % 10)]
    }
}

/// The text `true` or `false`.
pub open spec fn spec_bool_text(b: bool) -> Seq<char> {
    if b {
        "true"@
    } else {
        "false"@
    }
}

fn digit_str(d: u64) -> (s: &'static str)
    requires
        d < 10,
    ensures
        s@ == seq![spec_digit(d as int)],
{
    proof {
        reveal_strlit("0");
        reveal_strlit("1");
        reveal_strlit("2");
        reveal_strlit("3");
        reveal_strlit("4");
        reveal_strlit("5");
        reveal_strlit("6");
        reveal_strlit("7");
        reveal_strlit("8");
        reveal_strlit("9");
    }
    let s: &'static str = if d == 0 {
        "0"
    } else if d == 1 {
        "1"
    } else if d == 2 {
        "2"
    } else if d == 3 {
        "3"
    } else if d == 4 {
        "4"
    } else if d == 5 {
        "5"
    } else if d == 6 {
        "6"
    } else if d == 7 {
        "7"
    } else if d == 8 {
        "8"
    } else {
        "9"
    };
    proof {
        assert(s@ =~= seq![spec_digit(d as int)]);
    }
    s
}

/// Render `n` in decimal.
pub fn dec_u64(n: u64) -> (s: String)
    ensures
        s@ == spec_dec(n as int),
    decreases n,
{
    if n < 10 {
        String::from_str(digit_str(n))
    } else {
        let mut s = dec_u64(n / 10);
        s.append(digit_str(n % 10));
        proof {
            assert(s@ =~= spec_dec(n as int));
        }
        s
    }
}

/// Render `b` as `true` or `false`.
pub fn bool_str(b: bool) -> (s: &'static str)
    ensures
        s@ == spec_bool_text(b),
{
    if b {
        "true"
    } else {
        "false"
    }
}


/// The instance extensions the runtime can enable, by name.
#[derive(Clone, Copy, PartialEq, Eq, Structural, Debug)]
pub struct InstanceExtensionSet {
    pub khr_surface: bool,
    pub khr_display: bool,
    pub khr_xlib_surface: bool,
    pub khr_xcb_surface: bool,
    pub khr_wayland_surface: bool,
    pub khr_mir_surface: bool,
    pub khr_android_surface: bool,
    pub khr_win32_surface: bool,
    pub ext_debug_report: bool,
    pub mvk_ios_surface: bool,
    pub mvk_macos_surface: bool,
    pub mvk_moltenvk: bool,
    pub nn_vi_surface: bool,
    pub ext_swapchain_colorspace: bool,
    pub khr_get_physical_device_properties2: bool,
}

/// The device extensions a physical device can enable, by name.
#[derive(Clone, Copy, PartialEq, Eq, Structural, Debug)]
pub struct DeviceExtensionSet {
    pub khr_swapchain: bool,
    pub khr_display_swapchain: bool,
    pub khr_sampler_mirror_clamp_to_edge: bool,
    pub khr_maintenance1: bool,
    pub khr_get_memory_requirements2: bool,
    pub khr_dedicated_allocation: bool,
    pub khr_incremental_present: bool,
    pub ext_debug_marker: bool,
}

/// One validation layer: its name and its description.
pub struct LayerInfo {
    pub name: String,
    pub description: String,
}

/// One memory type's locality, visibility, coherency, caching and
/// lazy-allocation flags.
#[derive(Clone, Copy, PartialEq, Eq, Structural, Debug)]
pub struct MemoryTypeInfo {
    pub id: u32,
    pub device_local: bool,
    pub host_visible: bool,
    pub host_coherent: bool,
    pub host_cached: bool,
    pub lazily_allocated: bool,
}

/// One memory heap: its id, size and locality.
#[derive(Clone, Copy, PartialEq, Eq, Structural, Debug)]
pub struct MemoryHeapInfo {
    pub id: u32,
    pub size: u64,
    pub device_local: bool,
}

/// The device limits the dump reports: maximum image dimensions.
#[derive(Clone, Copy, PartialEq, Eq, Structural, Debug)]
pub struct LimitsInfo {
    pub max_image_dimension_1d: u32,
    pub max_image_dimension_2d: u32,
    pub max_image_dimension_3d: u32,
    pub max_image_dimension_cube: u32,
}

/// The kind of a physical device.
#[derive(Clone, Copy, PartialEq, Eq, Structural, Debug)]
pub enum DeviceType {
    Other,
    IntegratedGpu,
    DiscreteGpu,
    VirtualGpu,
    Cpu,
}

/// Everything the dump reports of one physical device.
pub struct PhysicalDeviceInfo {
    pub name: String,
    pub ty: DeviceType,
    pub api_major: u32,
    pub api_minor: u32,
    pub api_patch: u32,
    pub driver_version: u32,
    /// The supported feature flags, already rendered as text by the query.
    pub features: String,
    pub queue_families: Vec<QueueFamilyInfo>,
    pub memory_types: Vec<MemoryTypeInfo>,
    pub memory_heaps: Vec<MemoryHeapInfo>,
    pub limits: LimitsInfo,
    pub extensions: DeviceExtensionSet,
}

/// The instance extensions the direct-display path asks for: display
/// enumeration and nothing else.
pub open spec fn spec_required_extensions() -> InstanceExtensionSet {
    InstanceExtensionSet {
        khr_surface: false,
        khr_display: true,
        khr_xlib_surface: false,
        khr_xcb_surface: false,
        khr_wayland_surface: false,
        khr_mir_surface: false,
        khr_android_surface: false,
        khr_win32_surface: false,
        ext_debug_report: false,
        mvk_ios_surface: false,
        mvk_macos_surface: false,
        mvk_moltenvk: false,
        nn_vi_surface: false,
        ext_swapchain_colorspace: false,
        khr_get_physical_device_properties2: false,
    }
}

/// The instance extensions the direct-display path asks for.
pub fn required_extensions() -> (e: InstanceExtensionSet)
    ensures
        e == spec_required_extensions(),
        e.khr_display,
{
    InstanceExtensionSet {
        khr_surface: false,
        khr_display: true,
        khr_xlib_surface: false,
        khr_xcb_surface: false,
        khr_wayland_surface: false,
        khr_mir_surface: false,
        khr_android_surface: false,
        khr_win32_surface: false,
        ext_debug_report: false,
        mvk_ios_surface: false,
        mvk_macos_surface: false,
        mvk_moltenvk: false,
        nn_vi_surface: false,
        ext_swapchain_colorspace: false,
        khr_get_physical_device_properties2: false,
    }
}

/// The reported line for one validation layer.
pub open spec fn spec_layer_line(name: Seq<char>, description: Seq<char>) -> Seq<char> {
    name + " : "@ + description
}

/// Render one validation layer's line: its name and description.
pub fn layer_line(l: &LayerInfo) -> (s: String)
    ensures
        s@ == spec_layer_line(l.name@, l.description@),
{
    let mut s = l.name.clone();
    s.append(" : ");
    s.append(l.description.as_str());
    proof {
        assert(s@ =~= spec_layer_line(l.name@, l.description@));
    }
    s
}

/// The reported line for one queue family.
pub open spec fn spec_queue_family_line(q: QueueFamilyInfo) -> Seq<char> {
    "queue "@ + spec_dec(q.id as int) + ": count: "@ + spec_dec(q.queues_count as int)
        + " graphics:"@ + spec_bool_text(q.graphics) + " compute:"@ + spec_bool_text(q.compute)
        + " transfers:"@ + spec_bool_text(q.transfers) + " sparse_bind:"@ + spec_bool_text(
        q.sparse_binding,
    )
}

/// Render one queue family's line: id, queue count and capability flags.
pub fn queue_family_line(q: &QueueFamilyInfo) -> (s: String)
    ensures
        s@ == spec_queue_family_line(*q),
{
    let mut s = String::from_str("queue ");
    s.append(dec_u64(q.id as u64).as_str());
    s.append(": count: ");
    s.append(dec_u64(q.queues_count as u64).as_str());
    s.append(" graphics:");
    s.append(bool_str(q.graphics));
    s.append(" compute:");
    s.append(bool_str(q.compute));
    s.append(" transfers:");
    s.append(bool_str(q.transfers));
    s.append(" sparse_bind:");
    s.append(bool_str(q.sparse_binding));
    proof {
        assert(s@ =~= spec_queue_family_line(*q));
    }
    s
}

/// The reported line for one memory type.
pub open spec fn spec_memory_type_line(m: MemoryTypeInfo) -> Seq<char> {
    "memtype "@ + spec_dec(m.id as int) + ": local:"@ + spec_bool_text(m.device_local)
        + ", host_visible: "@ + spec_bool_text(m.host_visible) + ", host_coherent: "@
        + spec_bool_text(m.host_coherent) + ", host_cached: "@ + spec_bool_text(m.host_cached)
        + ", lazily_allocated: "@ + spec_bool_text(m.lazily_allocated)
}

/// Render one memory type's line: id and its flags.
pub fn memory_type_line(m: &MemoryTypeInfo) -> (s: String)
    ensures
        s@ == spec_memory_type_line(*m),
{
    let mut s = String::from_str("memtype ");
    s.append(dec_u64(m.id as u64).as_str());
    s.append(": local:");
    s.append(bool_str(m.device_local));
    s.append(", host_visible: ");
    s.append(bool_str(m.host_visible));
    s.append(", host_coherent: ");
    s.append(bool_str(m.host_coherent));
    s.append(", host_cached: ");
    s.append(bool_str(m.host_cached));
    s.append(", lazily_allocated: ");
    s.append(bool_str(m.lazily_allocated));
    proof {
        assert(s@ =~= spec_memory_type_line(*m));
    }
    s
}

/// The reported line for one memory heap.
pub open spec fn spec_memory_heap_line(m: MemoryHeapInfo) -> Seq<char> {
    "memheap "@ + spec_dec(m.id as int) + ": size: "@ + spec_dec(m.size as int) + ", local: "@
        + spec_bool_text(m.device_local)
}

/// Render one memory heap's line: id, size and locality.
pub fn memory_heap_line(m: &MemoryHeapInfo) -> (s: String)
    ensures
        s@ == spec_memory_heap_line(*m),
{
    let mut s = String::from_str("memheap ");
    s.append(dec_u64(m.id as u64).as_str());
    s.append(": size: ");
    s.append(dec_u64(m.size).as_str());
    s.append(", local: ");
    s.append(bool_str(m.device_local));
    proof {
        assert(s@ =~= spec_memory_heap_line(*m));
    }
    s
}

/// The reported line naming each instance extension and whether it is
/// supported.
pub open spec fn spec_instance_extensions_line(e: InstanceExtensionSet) -> Seq<char> {
    "khr_surface: "@ + spec_bool_text(e.khr_surface) + " khr_display: "@ + spec_bool_text(
        e.khr_display,
    ) + " khr_xlib_surface: "@ + spec_bool_text(e.khr_xlib_surface) + " khr_xcb_surface: "@
        + spec_bool_text(e.khr_xcb_surface) + " khr_wayland_surface: "@ + spec_bool_text(
        e.khr_wayland_surface,
    ) + " khr_mir_surface: "@ + spec_bool_text(e.khr_mir_surface) + " khr_android_surface: "@
        + spec_bool_text(e.khr_android_surface) + " khr_win32_surface: "@ + spec_bool_text(
        e.khr_win32_surface,
    ) + " ext_debug_report: "@ + spec_bool_text(e.ext_debug_report) + " mvk_ios_surface: "@
        + spec_bool_text(e.mvk_ios_surface) + " mvk_macos_surface: "@ + spec_bool_text(
        e.mvk_macos_surface,
    ) + " mvk_moltenvk: "@ + spec_bool_text(e.mvk_moltenvk) + " nn_vi_surface: "@
        + spec_bool_text(e.nn_vi_surface) + " ext_swapchain_colorspace: "@ + spec_bool_text(
        e.ext_swapchain_colorspace,
    ) + " khr_get_physical_device_properties2: "@ + spec_bool_text(
        e.khr_get_physical_device_properties2,
    )
}

/// Render the instance-extension support line.
pub fn instance_extensions_line(e: &InstanceExtensionSet) -> (s: String)
    ensures
        s@ == spec_instance_extensions_line(*e),
{
    let mut s = String::from_str("khr_surface: ");
    s.append(bool_str(e.khr_surface));
    s.append(" khr_display: ");
    s.append(bool_str(e.khr_display));
    s.append(" khr_xlib_surface: ");
    s.append(bool_str(e.khr_xlib_surface));
    s.append(" khr_xcb_surface: ");
    s.append(bool_str(e.khr_xcb_surface));
    s.append(" khr_wayland_surface: ");
    s.append(bool_str(e.khr_wayland_surface));
    s.append(" khr_mir_surface: ");
    s.append(bool_str(e.khr_mir_surface));
    s.append(" khr_android_surface: ");
    s.append(bool_str(e.khr_android_surface));
    s.append(" khr_win32_surface: ");
    s.append(bool_str(e.khr_win32_surface));
    s.append(" ext_debug_report: ");
    s.append(bool_str(e.ext_debug_report));
    s.append(" mvk_ios_surface: ");
    s.append(bool_str(e.mvk_ios_surface));
    s.append(" mvk_macos_surface: ");
    s.append(bool_str(e.mvk_macos_surface));
    s.append(" mvk_moltenvk: ");
    s.append(bool_str(e.mvk_moltenvk));
    s.append(" nn_vi_surface: ");
    s.append(bool_str(e.nn_vi_surface));
    s.append(" ext_swapchain_colorspace: ");
    s.append(bool_str(e.ext_swapchain_colorspace));
    s.append(" khr_get_physical_device_properties2: ");
    s.append(bool_str(e.khr_get_physical_device_properties2));
    proof {
        assert(s@ =~= spec_instance_extensions_line(*e));
    }
    s
}

/// The reported line naming each device extension and whether it is
/// supported.
pub open spec fn spec_device_extensions_line(e: DeviceExtensionSet) -> Seq<char> {
    "khr_swapchain: "@ + spec_bool_text(e.khr_swapchain) + " khr_display_swapchain: "@
        + spec_bool_text(e.khr_display_swapchain) + " khr_sampler_mirror_clamp_to_edge: "@
        + spec_bool_text(e.khr_sampler_mirror_clamp_to_edge) + " khr_maintenance1: "@
        + spec_bool_text(e.khr_maintenance1) + " khr_get_memory_requirements2: "@
        + spec_bool_text(e.khr_get_memory_requirements2) + " khr_dedicated_allocation: "@
        + spec_bool_text(e.khr_dedicated_allocation) + " khr_incremental_present: "@
        + spec_bool_text(e.khr_incremental_present) + " ext_debug_marker: "@ + spec_bool_text(
        e.ext_debug_marker,
    )
}

/// Render the device-extension support line.
pub fn device_extensions_line(e: &DeviceExtensionSet) -> (s: String)
    ensures
        s@ == spec_device_extensions_line(*e),
{
    let mut s = String::from_str("khr_swapchain: ");
    s.append(bool_str(e.khr_swapchain));
    s.append(" khr_display_swapchain: ");
    s.append(bool_str(e.khr_display_swapchain));
    s.append(" khr_sampler_mirror_clamp_to_edge: ");
    s.append(bool_str(e.khr_sampler_mirror_clamp_to_edge));
    s.append(" khr_maintenance1: ");
    s.append(bool_str(e.khr_maintenance1));
    s.append(" khr_get_memory_requirements2: ");
    s.append(bool_str(e.khr_get_memory_requirements2));
    s.append(" khr_dedicated_allocation: ");
    s.append(bool_str(e.khr_dedicated_allocation));
    s.append(" khr_incremental_present: ");
    s.append(bool_str(e.khr_incremental_present));
    s.append(" ext_debug_marker: ");
    s.append(bool_str(e.ext_debug_marker));
    proof {
        assert(s@ =~= spec_device_extensions_line(*e));
    }
    s
}

/// The text naming a device's kind.
pub open spec fn spec_device_type_text(t: DeviceType) -> Seq<char> {
    match t {
        DeviceType::Other => "Other"@,
        DeviceType::IntegratedGpu => "IntegratedGpu"@,
        DeviceType::DiscreteGpu => "DiscreteGpu"@,
        DeviceType::VirtualGpu => "VirtualGpu"@,
        DeviceType::Cpu => "Cpu"@,
    }
}

/// Render a device kind's name.
pub fn device_type_str(t: &DeviceType) -> (s: &'static str)
    ensures
        s@ == spec_device_type_text(*t),
{
    match t {
        DeviceType::Other => "Other",
        DeviceType::IntegratedGpu => "IntegratedGpu",
        DeviceType::DiscreteGpu => "DiscreteGpu",
        DeviceType::VirtualGpu => "VirtualGpu",
        DeviceType::Cpu => "Cpu",
    }
}

/// The report's first line for one device: its name and kind.
pub open spec fn spec_device_header_line(name: Seq<char>, t: DeviceType) -> Seq<char> {
    "Device Info: Name:"@ + name + " Type:"@ + spec_device_type_text(t)
}

/// Render the report's first line for one device.
pub fn device_header_line(name: &String, t: &DeviceType) -> (s: String)
    ensures
        s@ == spec_device_header_line(name@, *t),
{
    let mut s = String::from_str("Device Info: Name:");
    s.append(name.as_str());
    s.append(" Type:");
    s.append(device_type_str(t));
    proof {
        assert(s@ =~= spec_device_header_line(name@, *t));
    }
    s
}

/// The reported line for a device's API and driver versions.
pub open spec fn spec_version_line(maj: u32, min: u32, patch: u32, driver: u32) -> Seq<char> {
    "Api: "@ + spec_dec(maj as int) + "."@ + spec_dec(min as int) + "."@ + spec_dec(patch as int)
        + " Driver: "@ + spec_dec(driver as int)
}

/// Render a device's API and driver version line.
pub fn version_line(maj: u32, min: u32, patch: u32, driver: u32) -> (s: String)
    ensures
        s@ == spec_version_line(maj, min, patch, driver),
{
    let mut s = String::from_str("Api: ");
    s.append(dec_u64(maj as u64).as_str());
    s.append(".");
    s.append(dec_u64(min as u64).as_str());
    s.append(".");
    s.append(dec_u64(patch as u64).as_str());
    s.append(" Driver: ");
    s.append(dec_u64(driver as u64).as_str());
    proof {
        assert(s@ =~= spec_version_line(maj, min, patch, driver));
    }
    s
}

/// The reported line for one device limit.
pub open spec fn spec_limit_line(label: Seq<char>, v: u32) -> Seq<char> {
    label + ": "@ + spec_dec(v as int)
}

fn limit_line(label: &'static str, v: u32) -> (s: String)
    ensures
        s@ == spec_limit_line(label@, v),
{
    let mut s = String::from_str(label);
    s.append(": ");
    s.append(dec_u64(v as u64).as_str());
    proof {
        assert(s@ =~= spec_limit_line(label@, v));
    }
    s
}

/// One mode a display supports: its visible region and refresh rate.
#[derive(Clone, Copy, PartialEq, Eq, Structural, Debug)]
pub struct DisplayModeInfo {
    pub region_width: u32,
    pub region_height: u32,
    pub refresh_rate: u32,
}

/// One display attached to a physical device.
pub struct DisplayInfo {
    pub name: String,
    pub dim_width: u32,
    pub dim_height: u32,
    pub res_width: u32,
    pub res_height: u32,
    pub modes: Vec<DisplayModeInfo>,
}

/// The reported line for one display.
pub open spec fn spec_display_line(d: DisplayInfo) -> Seq<char> {
    "name: "@ + d.name@ + " dimension("@ + spec_dec(d.dim_width as int) + " x "@ + spec_dec(
        d.dim_height as int,
    ) + ") resolution("@ + spec_dec(d.res_width as int) + " x "@ + spec_dec(d.res_height as int)
        + ")"@
}

/// The reported line for one display mode.
pub open spec fn spec_display_mode_line(m: DisplayModeInfo) -> Seq<char> {
    "region("@ + spec_dec(m.region_width as int) + " x "@ + spec_dec(m.region_height as int)
        + ") refresh rate: "@ + spec_dec(m.refresh_rate as int)
}

/// Render one display's report: its own line, a `modes:` heading, and one
/// line per supported mode.
pub fn display_report(d: &DisplayInfo) -> (r: Vec<String>)
    ensures
        r@.len() == 2 + d.modes@.len(),
        r@[0]@ == spec_display_line(*d),
        r@[1]@ == "modes:"@,
        forall|i: int| 0 <= i < d.modes@.len() ==> r@[2 + i]@ == spec_display_mode_line(
            d.modes@[i],
        ),
{
    let mut out: Vec<String> = Vec::new();
    let mut line = String::from_str("name: ");
    line.append(d.name.as_str());
    line.append(" dimension(");
    line.append(dec_u64(d.dim_width as u64).as_str());
    line.append(" x ");
    line.append(dec_u64(d.dim_height as u64).as_str());
    line.append(") resolution(");
    line.append(dec_u64(d.res_width as u64).as_str());
    line.append(" x ");
    line.append(dec_u64(d.res_height as u64).as_str());
    line.append(")");
    proof {
        assert(line@ =~= spec_display_line(*d));
    }
    out.push(line);
    out.push(String::from_str("modes:"));
    let mut k: usize = 0;
    while k < d.modes.len()
        invariant
            k <= d.modes@.len(),
            out@.len() == 2 + k,
            out@[0]@ == spec_display_line(*d),
            out@[1]@ == "modes:"@,
            forall|i: int| 0 <= i < k ==> out@[2 + i]@ == spec_display_mode_line(d.modes@[i]),
        decreases d.modes@.len() - k,
    {
        let m = d.modes[k];
        let mut ml = String::from_str("region(");
        ml.append(dec_u64(m.region_width as u64).as_str());
        ml.append(" x ");
        ml.append(dec_u64(m.region_height as u64).as_str());
        ml.append(") refresh rate: ");
        ml.append(dec_u64(m.refresh_rate as u64).as_str());
        proof {
            assert(ml@ =~= spec_display_mode_line(d.modes@[k as int]));
        }
        out.push(ml);
        k = k + 1;
    }
    out
}

/// Render the validation-layer report: a heading and one line per layer.
pub fn layers_report(layers: &Vec<LayerInfo>) -> (r: Vec<String>)
    ensures
        r@.len() == 1 + layers@.len(),
        r@[0]@ == "Available layers:"@,
        forall|i: int| 0 <= i < layers@.len() ==> r@[1 + i]@ == spec_layer_line(
            layers@[i].name@,
            layers@[i].description@,
        ),
{
    let mut out: Vec<String> = Vec::new();
    out.push(String::from_str("Available layers:"));
    let mut k: usize = 0;
    while k < layers.len()
        invariant
            k <= layers@.len(),
            out@.len() == 1 + k,
            out@[0]@ == "Available layers:"@,
            forall|i: int| 0 <= i < k ==> out@[1 + i]@ == spec_layer_line(
                layers@[i].name@,
                layers@[i].description@,
            ),
        decreases layers@.len() - k,
    {
        out.push(layer_line(&layers[k]));
        k = k + 1;
    }
    out
}

/// Render the instance-extension report: a heading and the support line.
pub fn instance_extensions_report(e: &InstanceExtensionSet) -> (r: Vec<String>)
    ensures
        r@.len() == 2,
        r@[0]@ == "Instance extensions:"@,
        r@[1]@ == spec_instance_extensions_line(*e),
{
    let mut out: Vec<String> = Vec::new();
    out.push(String::from_str("Instance extensions:"));
    out.push(instance_extensions_line(e));
    out
}

/// Render one physical device's full report, line by line: name and kind,
/// versions, feature flags, each queue family, each memory type, each memory
/// heap, the image-dimension limits, and the device extensions.
pub fn physical_device_report(d: &PhysicalDeviceInfo) -> (r: Vec<String>)
    ensures
        r@.len() == 12 + d.queue_families@.len() + d.memory_types@.len()
            + d.memory_heaps@.len(),
        r@[0]@ == spec_device_header_line(d.name@, d.ty),
        r@[1]@ == spec_version_line(d.api_major, d.api_minor, d.api_patch, d.driver_version),
        r@[2]@ == "Supported Features:"@,
        r@[3]@ == d.features@,
        r@[4]@ == "Queue families:"@,
        forall|i: int| 0 <= i < d.queue_families@.len() ==> r@[5 + i]@ == spec_queue_family_line(
            d.queue_families@[i],
        ),
        forall|i: int| 0 <= i < d.memory_types@.len() ==> r@[5 + d.queue_families@.len() + i]@
            == spec_memory_type_line(d.memory_types@[i]),
        forall|i: int| 0 <= i < d.memory_heaps@.len() ==> r@[5 + d.queue_families@.len()
            + d.memory_types@.len() + i]@ == spec_memory_heap_line(d.memory_heaps@[i]),
        r@[5int + d.queue_families@.len() + d.memory_types@.len() + d.memory_heaps@.len()]@
            == "Limits:"@,
        r@[6int + d.queue_families@.len() + d.memory_types@.len() + d.memory_heaps@.len()]@
            == spec_limit_line("max_image_dimension_1d"@, d.limits.max_image_dimension_1d),
        r@[7int + d.queue_families@.len() + d.memory_types@.len() + d.memory_heaps@.len()]@
            == spec_limit_line("max_image_dimension_2d"@, d.limits.max_image_dimension_2d),
        r@[8int + d.queue_families@.len() + d.memory_types@.len() + d.memory_heaps@.len()]@
            == spec_limit_line("max_image_dimension_3d"@, d.limits.max_image_dimension_3d),
        r@[9int + d.queue_families@.len() + d.memory_types@.len() + d.memory_heaps@.len()]@
            == spec_limit_line("max_image_dimension_cube"@, d.limits.max_image_dimension_cube),
        r@[10int + d.queue_families@.len() + d.memory_types@.len() + d.memory_heaps@.len()]@
            == "Device extensions:"@,
        r@[11int + d.queue_families@.len() + d.memory_types@.len() + d.memory_heaps@.len()]@
            == spec_device_extensions_line(d.extensions),
{
    let mut out: Vec<String> = Vec::new();
    out.push(device_header_line(&d.name, &d.ty));
    out.push(version_line(d.api_major, d.api_minor, d.api_patch, d.driver_version));
    out.push(String::from_str("Supported Features:"));
    out.push(d.features.clone());
    out.push(String::from_str("Queue families:"));
    let mut k: usize = 0;
    while k < d.queue_families.len()
        invariant
            k <= d.queue_families@.len(),
            out@.len() == 5 + k,
            out@[0]@ == spec_device_header_line(d.name@, d.ty),
            out@[1]@ == spec_version_line(d.api_major, d.api_minor, d.api_patch,
                d.driver_version),
            out@[2]@ == "Supported Features:"@,
            out@[3]@ == d.features@,
            out@[4]@ == "Queue families:"@,
            forall|i: int| 0 <= i < k ==> out@[5 + i]@ == spec_queue_family_line(
                d.queue_families@[i],
            ),
        decreases d.queue_families@.len() - k,
    {
        out.push(queue_family_line(&d.queue_families[k]));
        k = k + 1;
    }
    let nq: usize = d.queue_families.len();
    let mut k: usize = 0;
    while k < d.memory_types.len()
        invariant
            nq == d.queue_families@.len(),
            k <= d.memory_types@.len(),
            out@.len() == 5 + nq + k,
            out@[0]@ == spec_device_header_line(d.name@, d.ty),
            out@[1]@ == spec_version_line(d.api_major, d.api_minor, d.api_patch,
                d.driver_version),
            out@[2]@ == "Supported Features:"@,
            out@[3]@ == d.features@,
            out@[4]@ == "Queue families:"@,
            forall|i: int| 0 <= i < nq ==> out@[5 + i]@ == spec_queue_family_line(
                d.queue_families@[i],
            ),
            forall|i: int| 0 <= i < k ==> out@[5 + nq + i]@ == spec_memory_type_line(
                d.memory_types@[i],
            ),
        decreases d.memory_types@.len() - k,
    {
        out.push(memory_type_line(&d.memory_types[k]));
        k = k + 1;
    }
    let nt: usize = d.memory_types.len();
    let mut k: usize = 0;
    while k < d.memory_heaps.len()
        invariant
            nq == d.queue_families@.len(),
            nt == d.memory_types@.len(),
            k <= d.memory_heaps@.len(),
            out@.len() == 5 + nq + nt + k,
            out@[0]@ == spec_device_header_line(d.name@, d.ty),
            out@[1]@ == spec_version_line(d.api_major, d.api_minor, d.api_patch,
                d.driver_version),
            out@[2]@ == "Supported Features:"@,
            out@[3]@ == d.features@,
            out@[4]@ == "Queue families:"@,
            forall|i: int| 0 <= i < nq ==> out@[5 + i]@ == spec_queue_family_line(
                d.queue_families@[i],
            ),
            forall|i: int| 0 <= i < nt ==> out@[5 + nq + i]@ == spec_memory_type_line(
                d.memory_types@[i],
            ),
            forall|i: int| 0 <= i < k ==> out@[5 + nq + nt + i]@ == spec_memory_heap_line(
                d.memory_heaps@[i],
            ),
        decreases d.memory_heaps@.len() - k,
    {
        out.push(memory_heap_line(&d.memory_heaps[k]));
        k = k + 1;
    }
    out.push(String::from_str("Limits:"));
    out.push(limit_line("max_image_dimension_1d", d.limits.max_image_dimension_1d));
    out.push(limit_line("max_image_dimension_2d", d.limits.max_image_dimension_2d));
    out.push(limit_line("max_image_dimension_3d", d.limits.max_image_dimension_3d));
    out.push(limit_line("max_image_dimension_cube", d.limits.max_image_dimension_cube));
    out.push(String::from_str("Device extensions:"));
    out.push(device_extensions_line(&d.extensions));
    out
}

} // verus!
