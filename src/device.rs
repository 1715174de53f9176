use vstd::prelude::*;
use crate::constants::Constants;
use crate::error::{Error, ErrorKind};
use crate::swapchain::PresentMode;

verus! {

/// Optional device capabilities, negotiated once when the logical device is made.
#[derive(Clone, Copy, Debug, PartialEq, Eq, Structural)]
pub struct DeviceFeatures {
    pub dynamic_state: bool,
    pub dynamic_state_3: bool,
}

impl Default for DeviceFeatures {
    fn default() -> (r: DeviceFeatures)
        ensures
            r == (DeviceFeatures { dynamic_state: false, dynamic_state_3: false }),
    {
        DeviceFeatures { dynamic_state: false, dynamic_state_3: false }
    }
}

impl DeviceFeatures {
    pub fn has_dynamic_state(&self) -> (r: bool)
        ensures
            r == self.dynamic_state,
    {
        self.dynamic_state
    }

    pub fn has_dynamic_state_3(&self) -> (r: bool)
        ensures
            r == self.dynamic_state_3,
    {
        self.dynamic_state_3
    }
}

/// Limits of the selected adapter that the library uses.
#[derive(Clone, Copy, Debug, PartialEq, Eq, Structural)]
pub struct Limits {
    pub uniform_buffer_alignment: u64,
}

/// Name of the swapchain device extension.
pub const SWAPCHAIN_EXTENSION: &'static str = "VK_KHR_swapchain";
/// Name of the extended dynamic state device extension.
pub const EXTENDED_DYNAMIC_STATE_EXTENSION: &'static str = "VK_EXT_extended_dynamic_state";
/// Name of the extended dynamic state 3 device extension.
pub const EXTENDED_DYNAMIC_STATE3_EXTENSION: &'static str = "VK_EXT_extended_dynamic_state3";

/// Raw value of the 8-bit sRGB BGRA colour format.
pub const FORMAT_B8G8R8A8_SRGB: i32 = 50;
/// Raw value of the non-linear sRGB colour space.
pub const COLOR_SPACE_SRGB_NONLINEAR: i32 = 0;

pub open spec fn spec_required_extensions() -> Seq<Seq<char>> {
    seq![SWAPCHAIN_EXTENSION@, EXTENDED_DYNAMIC_STATE_EXTENSION@]
        + if Constants::REQUIRE_EXTENDED_DYNAMIC_STATE3 {
            seq![EXTENDED_DYNAMIC_STATE3_EXTENSION@]
        } else {
            Seq::<Seq<char>>::empty()
        }
}

/// The device extensions an adapter must offer.
pub fn required_device_extension_names() -> (r: Vec<String>)
    ensures
        r@.map_values(|s: String| s@) == spec_required_extensions(),
{
    let mut r: Vec<String> = Vec::new();
    r.push(SWAPCHAIN_EXTENSION.to_owned());
    if Constants::REQUIRE_EXTENDED_DYNAMIC_STATE {
        r.push(EXTENDED_DYNAMIC_STATE_EXTENSION.to_owned());
    }
    if Constants::REQUIRE_EXTENDED_DYNAMIC_STATE3 {
        r.push(EXTENDED_DYNAMIC_STATE3_EXTENSION.to_owned());
    }
    assert(r@.map_values(|s: String| s@) =~= spec_required_extensions());
    r
}

/// Kinds of adapters.
#[derive(Clone, Copy, Debug, PartialEq, Eq, Structural)]
pub enum AdapterType {
    Other,
    IntegratedGpu,
    DiscreteGpu,
    VirtualGpu,
    Cpu,
}

/// A surface format and colour space, as raw driver values.
#[derive(Clone, Copy, Debug, PartialEq, Eq, Structural)]
pub struct SurfaceFormat {
    pub format: i32,
    pub color_space: i32,
}

/// What a queue family can do for the presentation surface.
#[derive(Clone, Copy, Debug, PartialEq, Eq, Structural)]
pub struct QueueFamily {
    pub graphics: bool,
    pub present: bool,
}

/// What an adapter reports, as plain values.
pub struct AdapterInfo {
    pub device_type: AdapterType,
    pub extensions: Vec<String>,
    pub surface_formats: Vec<SurfaceFormat>,
    pub present_modes: Vec<PresentMode>,
    pub queue_families: Vec<QueueFamily>,
    pub min_uniform_buffer_offset_alignment: u64,
}

/// The capabilities of the selected adapter, fixed at selection time.
#[derive(Clone, Copy, Debug, PartialEq, Eq, Structural)]
pub struct PhysicalDeviceInfo {
    /// Position of the adapter in the list it was selected from.
    pub adapter_index: usize,
    pub graphics_family_index: u32,
    pub present_family_index: u32,
    pub mail_box_mode_support: bool,
    pub surface_format: SurfaceFormat,
    pub uniform_buffer_alignment: u64,
}

pub open spec fn spec_preferred_surface_format() -> SurfaceFormat {
    SurfaceFormat { format: FORMAT_B8G8R8A8_SRGB, color_space: COLOR_SPACE_SRGB_NONLINEAR }
}

pub open spec fn spec_is_gpu(t: AdapterType) -> bool {
    t == AdapterType::DiscreteGpu || t == AdapterType::IntegratedGpu
}

pub open spec fn spec_has_extension(extensions: Seq<String>, name: Seq<char>) -> bool {
    exists|i: int| 0 <= i < extensions.len() && (#[trigger] extensions[i])@ == name
}

pub open spec fn spec_has_extensions(extensions: Seq<String>, required: Seq<Seq<char>>) -> bool {
    forall|j: int| 0 <= j < required.len() ==> spec_has_extension(extensions, #[trigger] required[j])
}

/// `i` is the first family that can draw.
pub open spec fn spec_first_graphics(families: Seq<QueueFamily>, i: int) -> bool {
    0 <= i < families.len() && families[i].graphics && forall|j: int| 0 <= j < i ==> !(#[trigger] families[j]).graphics
}

/// `i` is the first family that can present.
pub open spec fn spec_first_present(families: Seq<QueueFamily>, i: int) -> bool {
    0 <= i < families.len() && families[i].present && forall|j: int| 0 <= j < i ==> !(#[trigger] families[j]).present
}

pub open spec fn spec_has_graphics(families: Seq<QueueFamily>) -> bool {
    exists|i: int| 0 <= i < families.len() && (#[trigger] families[i]).graphics
}

pub open spec fn spec_has_present(families: Seq<QueueFamily>) -> bool {
    exists|i: int| 0 <= i < families.len() && (#[trigger] families[i]).present
}

/// An adapter qualifies when it is a GPU, offers every required extension,
/// offers the preferred surface format, and has a family that draws and one
/// that presents.
pub open spec fn spec_suitable(a: AdapterInfo) -> bool {
    &&& spec_is_gpu(a.device_type)
    &&& spec_has_extensions(a.extensions@, spec_required_extensions())
    &&& a.surface_formats@.contains(spec_preferred_surface_format())
    &&& spec_has_graphics(a.queue_families@)
    &&& spec_has_present(a.queue_families@)
}

/// What selection reports for an adapter that qualifies, found at `index`.
pub open spec fn spec_device_info(a: AdapterInfo, index: usize, info: PhysicalDeviceInfo) -> bool {
    &&& info.adapter_index == index
    &&& spec_first_graphics(a.queue_families@, info.graphics_family_index as int)
    &&& spec_first_present(a.queue_families@, info.present_family_index as int)
    &&& info.mail_box_mode_support == a.present_modes@.contains(PresentMode::Mailbox)
    &&& info.surface_format == spec_preferred_surface_format()
    &&& info.uniform_buffer_alignment == a.min_uniform_buffer_offset_alignment
}

/// Whether `name` is among `extensions`.
pub fn has_extension(extensions: &Vec<String>, name: &String) -> (r: bool)
    ensures
        r == spec_has_extension(extensions@, name@),
{
    let mut i: usize = 0;
    while i < extensions.len()
        invariant
            i <= extensions.len(),
            forall|k: int| 0 <= k < i ==> (#[trigger] extensions@[k])@ != name@,
        decreases extensions.len() - i,
    {
        if extensions[i] == *name {
            return true;
        }
        i = i + 1;
    }
    false
}

/// Whether every name of `required` is among `extensions`.
pub fn has_extensions(extensions: &Vec<String>, required: &Vec<String>) -> (r: bool)
    ensures
        r == spec_has_extensions(extensions@, required@.map_values(|s: String| s@)),
{
    let ghost req = required@.map_values(|s: String| s@);
    let mut j: usize = 0;
    while j < required.len()
        invariant
            j <= required.len(),
            req == required@.map_values(|s: String| s@),
            forall|k: int| 0 <= k < j ==> spec_has_extension(extensions@, #[trigger] req[k]),
        decreases required.len() - j,
    {
        if !has_extension(extensions, &required[j]) {
            assert(req[j as int] == required@[j as int]@);
            return false;
        }
        j = j + 1;
    }
    true
}

/// Whether `formats` holds the preferred sRGB BGRA format.
pub fn has_preferred_surface_format(formats: &Vec<SurfaceFormat>) -> (r: bool)
    ensures
        r == formats@.contains(spec_preferred_surface_format()),
{
    let mut i: usize = 0;
    while i < formats.len()
        invariant
            i <= formats.len(),
            forall|k: int| 0 <= k < i ==> formats@[k] != spec_preferred_surface_format(),
        decreases formats.len() - i,
    {
        let f = formats[i];
        if f.format == FORMAT_B8G8R8A8_SRGB && f.color_space == COLOR_SPACE_SRGB_NONLINEAR {
            assert(formats@[i as int] == spec_preferred_surface_format());
            return true;
        }
        i = i + 1;
    }
    false
}

/// Whether `modes` offers mailbox presentation.
pub fn has_mailbox_mode(modes: &Vec<PresentMode>) -> (r: bool)
    ensures
        r == modes@.contains(PresentMode::Mailbox),
{
    let mut i: usize = 0;
    while i < modes.len()
        invariant
            i <= modes.len(),
            forall|k: int| 0 <= k < i ==> modes@[k] != PresentMode::Mailbox,
        decreases modes.len() - i,
    {
        if modes[i] == PresentMode::Mailbox {
            assert(modes@[i as int] == PresentMode::Mailbox);
            return true;
        }
        i = i + 1;
    }
    false
}

/// The first family that draws and the first that presents, where both exist.
pub fn find_queue_families(families: &Vec<QueueFamily>) -> (r: Option<(u32, u32)>)
    requires
        families.len() <= u32::MAX,
    ensures
        r.is_some() == (spec_has_graphics(families@) && spec_has_present(families@)),
        r.is_some() ==> spec_first_graphics(families@, r.unwrap().0 as int)
            && spec_first_present(families@, r.unwrap().1 as int),
{
    let mut graphics: Option<u32> = None;
    let mut present: Option<u32> = None;
    let mut i: usize = 0;
    while i < families.len()
        invariant
            i <= families.len(),
            families.len() <= u32::MAX,
            graphics.is_none() ==> forall|k: int| 0 <= k < i ==> !(#[trigger] families@[k]).graphics,
            graphics.is_some() ==> spec_first_graphics(families@, graphics.unwrap() as int),
            present.is_none() ==> forall|k: int| 0 <= k < i ==> !(#[trigger] families@[k]).present,
            present.is_some() ==> spec_first_present(families@, present.unwrap() as int),
        decreases families.len() - i,
    {
        let f = families[i];
        if graphics.is_none() && f.graphics {
            graphics = Some(i as u32);
        }
        if present.is_none() && f.present {
            present = Some(i as u32);
        }
        i = i + 1;
    }
    match (graphics, present) {
        (Some(g), Some(p)) => Some((g, p)),
        _ => {
            proof {
                if graphics.is_none() {
                    assert(!spec_has_graphics(families@));
                } else {
                    assert(!spec_has_present(families@));
                }
            }
            None
        },
    }
}

/// The capabilities of `adapter`, found at `index`, where it qualifies.
pub fn check_physical_device(adapter: &AdapterInfo, index: usize, required: &Vec<String>) -> (r: Option<PhysicalDeviceInfo>)
    requires
        adapter.queue_families.len() <= u32::MAX,
        required@.map_values(|s: String| s@) == spec_required_extensions(),
    ensures
        r.is_some() == spec_suitable(*adapter),
        r.is_some() ==> spec_device_info(*adapter, index, r.unwrap()),
{
    if adapter.device_type != AdapterType::DiscreteGpu && adapter.device_type != AdapterType::IntegratedGpu {
        return None;
    }
    if !has_extensions(&adapter.extensions, required) {
        return None;
    }
    if !has_preferred_surface_format(&adapter.surface_formats) {
        return None;
    }
    let mail_box_mode_support = has_mailbox_mode(&adapter.present_modes);
    match find_queue_families(&adapter.queue_families) {
        Some((g, p)) => Some(PhysicalDeviceInfo {
            adapter_index: index,
            graphics_family_index: g,
            present_family_index: p,
            mail_box_mode_support,
            surface_format: SurfaceFormat { format: FORMAT_B8G8R8A8_SRGB, color_space: COLOR_SPACE_SRGB_NONLINEAR },
            uniform_buffer_alignment: adapter.min_uniform_buffer_offset_alignment,
        }),
        None => None,
    }
}

/// Selects the first adapter that qualifies; fails with a device selection
/// error when none does.
pub fn select_physical_device(adapters: &Vec<AdapterInfo>) -> (r: Result<PhysicalDeviceInfo, Error>)
    requires
        forall|i: int| 0 <= i < adapters.len() ==> (#[trigger] adapters@[i]).queue_families.len() <= u32::MAX,
    ensures
        r.is_ok() == exists|i: int| 0 <= i < adapters.len() && spec_suitable(#[trigger] adapters@[i]),
        r.is_ok() ==> {
            let info = r.unwrap();
            &&& info.adapter_index < adapters.len()
            &&& spec_suitable(adapters@[info.adapter_index as int])
            &&& spec_device_info(adapters@[info.adapter_index as int], info.adapter_index, info)
            &&& forall|k: int| 0 <= k < info.adapter_index ==> !spec_suitable(#[trigger] adapters@[k])
        },
        r.is_err() ==> r.unwrap_err().spec_kind() == ErrorKind::DeviceSelection,
{
    let required = required_device_extension_names();
    let mut i: usize = 0;
    while i < adapters.len()
        invariant
            i <= adapters.len(),
            required@.map_values(|s: String| s@) == spec_required_extensions(),
            forall|k: int| 0 <= k < adapters.len() ==> (#[trigger] adapters@[k]).queue_families.len() <= u32::MAX,
            forall|k: int| 0 <= k < i ==> !spec_suitable(#[trigger] adapters@[k]),
        decreases adapters.len() - i,
    {
        match check_physical_device(&adapters[i], i, &required) {
            Some(info) => {
                return Ok(info);
            },
            None => {},
        }
        i = i + 1;
    }
    Err(Error::new(ErrorKind::DeviceSelection, "failed to find compatible physical device"))
}

/// The queue families to request queues from: each distinct family once.
pub fn queue_family_indices(graphics_family_index: u32, present_family_index: u32) -> (r: Vec<u32>)
    ensures
        r@ == if graphics_family_index == present_family_index {
            seq![graphics_family_index]
        } else {
            seq![graphics_family_index, present_family_index]
        },
{
    let mut r: Vec<u32> = Vec::new();
    r.push(graphics_family_index);
    if present_family_index != graphics_family_index {
        r.push(present_family_index);
    }
    r
}

/// Request-then-verify negotiation of the dynamic state capabilities: the
/// mandatory one missing is fatal, the optional one missing is switched off.
pub fn negotiate_features(dynamic_state_reported: bool, dynamic_state_3_reported: bool) -> (r: Result<DeviceFeatures, Error>)
    ensures
        r.is_ok() == dynamic_state_reported,
        r.is_ok() ==> r.unwrap() == (DeviceFeatures {
            dynamic_state: true,
            dynamic_state_3: Constants::REQUIRE_EXTENDED_DYNAMIC_STATE3 && dynamic_state_3_reported,
        }),
        r.is_err() ==> r.unwrap_err().spec_kind() == ErrorKind::FeatureUnsupported,
{
    if !dynamic_state_reported {
        return Err(Error::new(ErrorKind::FeatureUnsupported, "feature 'dynamic state' not supported by device"));
    }
    let mut features = DeviceFeatures::default();
    features.dynamic_state = true;
    if Constants::REQUIRE_EXTENDED_DYNAMIC_STATE3 && dynamic_state_3_reported {
        features.dynamic_state_3 = true;
    }
    Ok(features)
}

/// Memory property bits of the library.
pub struct DeviceMemory {}

impl DeviceMemory {
    pub const DEVICE_LOCAL: u32 = 0x1;
    pub const HOST_COHERENT: u32 = 0x2;
    pub const HOST_VISIBLE: u32 = 0x4;
}

/// Raw driver memory property bits.
pub const MEMORY_PROPERTY_DEVICE_LOCAL: u32 = 0x1;
pub const MEMORY_PROPERTY_HOST_VISIBLE: u32 = 0x2;
pub const MEMORY_PROPERTY_HOST_COHERENT: u32 = 0x4;

pub open spec fn spec_memory_property_flags(usage: u32) -> u32 {
    (if usage & DeviceMemory::DEVICE_LOCAL != 0 { MEMORY_PROPERTY_DEVICE_LOCAL } else { 0u32 })
        | (if usage & DeviceMemory::HOST_COHERENT != 0 { MEMORY_PROPERTY_HOST_COHERENT } else { 0u32 })
        | (if usage & DeviceMemory::HOST_VISIBLE != 0 { MEMORY_PROPERTY_HOST_VISIBLE } else { 0u32 })
}

/// The driver memory properties that the library's memory bits ask for.
pub fn memory_property_flags(usage: u32) -> (r: u32)
    ensures
        r == spec_memory_property_flags(usage),
{
    let device_local = if usage & DeviceMemory::DEVICE_LOCAL != 0 { MEMORY_PROPERTY_DEVICE_LOCAL } else { 0u32 };
    let host_coherent = if usage & DeviceMemory::HOST_COHERENT != 0 { MEMORY_PROPERTY_HOST_COHERENT } else { 0u32 };
    let host_visible = if usage & DeviceMemory::HOST_VISIBLE != 0 { MEMORY_PROPERTY_HOST_VISIBLE } else { 0u32 };
    device_local | host_coherent | host_visible
}

/// Memory type `i` is allowed by `type_bits` and has every `required` property.
pub open spec fn spec_memory_type_fits(type_bits: u32, type_flags: Seq<u32>, required: u32, i: int) -> bool {
    0 <= i < type_flags.len() && i < 32 && (type_bits >> (i as u32)) & 1 == 1 && type_flags[i] & required == required
}

/// The first memory type that fits; a memory type error when none does.
pub fn find_memory_type(type_bits: u32, type_flags: &Vec<u32>, required: u32) -> (r: Result<u32, Error>)
    ensures
        r.is_ok() == exists|i: int| spec_memory_type_fits(type_bits, type_flags@, required, i),
        r.is_ok() ==> spec_memory_type_fits(type_bits, type_flags@, required, r.unwrap() as int)
            && forall|k: int| 0 <= k < r.unwrap() ==> !spec_memory_type_fits(type_bits, type_flags@, required, k),
        r.is_err() ==> r.unwrap_err().spec_kind() == ErrorKind::MemoryTypeNotFound,
{
    let mut i: u32 = 0;
    while (i as usize) < type_flags.len() && i < 32
        invariant
            i <= 32,
            i <= type_flags.len(),
            forall|k: int| 0 <= k < i ==> !spec_memory_type_fits(type_bits, type_flags@, required, k),
        decreases 32 - i,
    {
        if (type_bits >> i) & 1 == 1 && type_flags[i as usize] & required == required {
            assert(spec_memory_type_fits(type_bits, type_flags@, required, i as int));
            return Ok(i);
        }
        i = i + 1;
    }
    Err(Error::new(ErrorKind::MemoryTypeNotFound, "failed to find suitable memory type"))
}

} // verus!
