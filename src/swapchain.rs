use vstd::prelude::*;
use crate::device::{PhysicalDeviceInfo, SurfaceFormat};

verus! {

/// Presentation queuing disciplines.
#[derive(Clone, Copy, Debug, PartialEq, Eq, Structural)]
pub enum PresentMode {
    Immediate,
    Mailbox,
    Fifo,
    FifoRelaxed,
}

/// How swapchain images are shared between queue families.
#[derive(Clone, Copy, Debug, PartialEq, Eq, Structural)]
pub enum SharingMode {
    Exclusive,
    Concurrent,
}

/// A width and height in pixels.
#[derive(Clone, Copy, Debug, PartialEq, Eq, Structural)]
pub struct Extent2D {
    pub width: u32,
    pub height: u32,
}

/// What the presentation surface reports.
#[derive(Clone, Copy, Debug, PartialEq, Eq, Structural)]
pub struct SurfaceCapabilities {
    /// The surface's extent; a width of `u32::MAX` means it is not defined.
    pub current_extent: Extent2D,
    pub min_image_extent: Extent2D,
    pub max_image_extent: Extent2D,
    pub min_image_count: u32,
    /// Zero means no maximum.
    pub max_image_count: u32,
}

impl SurfaceCapabilities {
    /// The bounds can be used for clamping, and the image count fits.
    pub open spec fn valid(self) -> bool {
        &&& self.current_extent.width == u32::MAX ==> {
            &&& self.min_image_extent.width <= self.max_image_extent.width
            &&& self.min_image_extent.height <= self.max_image_extent.height
        }
        &&& self.max_image_count > 0 || self.min_image_count < u32::MAX
    }
}

pub open spec fn spec_clamp(v: u32, lo: u32, hi: u32) -> u32 {
    if v < lo { lo } else if v > hi { hi } else { v }
}

/// The surface's extent where it is defined, else the window size clamped to
/// the surface's bounds.
pub open spec fn spec_extent(caps: SurfaceCapabilities, window_width: u32, window_height: u32) -> Extent2D {
    if caps.current_extent.width != u32::MAX {
        caps.current_extent
    } else {
        Extent2D {
            width: spec_clamp(window_width, caps.min_image_extent.width, caps.max_image_extent.width),
            height: spec_clamp(window_height, caps.min_image_extent.height, caps.max_image_extent.height),
        }
    }
}

/// One image more than the minimum, but no more than a nonzero maximum.
pub open spec fn spec_image_count(caps: SurfaceCapabilities) -> int {
    if caps.max_image_count > 0 && caps.min_image_count + 1 > caps.max_image_count {
        caps.max_image_count as int
    } else {
        caps.min_image_count + 1
    }
}

pub open spec fn spec_present_mode(mailbox_supported: bool) -> PresentMode {
    if mailbox_supported { PresentMode::Mailbox } else { PresentMode::Fifo }
}

fn clamp_u32(v: u32, lo: u32, hi: u32) -> (r: u32)
    requires
        lo <= hi,
    ensures
        r == spec_clamp(v, lo, hi),
{
    if v < lo {
        lo
    } else if v > hi {
        hi
    } else {
        v
    }
}

pub fn choose_extent(caps: &SurfaceCapabilities, window_width: u32, window_height: u32) -> (r: Extent2D)
    requires
        caps.valid(),
    ensures
        r == spec_extent(*caps, window_width, window_height),
{
    if caps.current_extent.width != u32::MAX {
        caps.current_extent
    } else {
        Extent2D {
            width: clamp_u32(window_width, caps.min_image_extent.width, caps.max_image_extent.width),
            height: clamp_u32(window_height, caps.min_image_extent.height, caps.max_image_extent.height),
        }
    }
}

pub fn choose_image_count(caps: &SurfaceCapabilities) -> (r: u32)
    requires
        caps.valid(),
    ensures
        r == spec_image_count(*caps),
{
    if caps.max_image_count > 0 && caps.min_image_count >= caps.max_image_count {
        caps.max_image_count
    } else {
        caps.min_image_count + 1
    }
}

/// Mailbox where the adapter supports it, else vsync'd FIFO; never immediate.
pub fn choose_present_mode(mailbox_supported: bool) -> (r: PresentMode)
    ensures
        r == spec_present_mode(mailbox_supported),
        r != PresentMode::Immediate,
{
    if mailbox_supported {
        PresentMode::Mailbox
    } else {
        PresentMode::Fifo
    }
}

/// Concurrent sharing between two distinct families, else exclusive; with the
/// families that share the images.
pub fn choose_sharing_mode(graphics_family_index: u32, present_family_index: u32) -> (r: (SharingMode, Vec<u32>))
    ensures
        graphics_family_index != present_family_index ==> r.0 == SharingMode::Concurrent
            && r.1@ == seq![graphics_family_index, present_family_index],
        graphics_family_index == present_family_index ==> r.0 == SharingMode::Exclusive && r.1@ == Seq::<u32>::empty(),
{
    let mut families: Vec<u32> = Vec::new();
    if graphics_family_index != present_family_index {
        families.push(graphics_family_index);
        families.push(present_family_index);
        (SharingMode::Concurrent, families)
    } else {
        assert(families@ =~= Seq::<u32>::empty());
        (SharingMode::Exclusive, families)
    }
}

/// The negotiated parameters of a swapchain.
pub struct SwapChain {
    pub extent: Extent2D,
    pub format: SurfaceFormat,
    pub image_count: u32,
    pub present_mode: PresentMode,
    pub sharing_mode: SharingMode,
    /// The families that share the images under concurrent sharing.
    pub queue_family_indices: Vec<u32>,
}

impl SwapChain {
    /// The parameters negotiated for `caps` and the window size, in `format`.
    pub open spec fn negotiated(self, caps: SurfaceCapabilities, window_width: u32, window_height: u32,
        device: PhysicalDeviceInfo, format: SurfaceFormat) -> bool {
        &&& self.extent == spec_extent(caps, window_width, window_height)
        &&& self.format == format
        &&& self.image_count == spec_image_count(caps)
        &&& self.present_mode == spec_present_mode(device.mail_box_mode_support)
        &&& self.sharing_mode == (if device.graphics_family_index != device.present_family_index {
            SharingMode::Concurrent
        } else {
            SharingMode::Exclusive
        })
        &&& self.queue_family_indices@ == (if device.graphics_family_index != device.present_family_index {
            seq![device.graphics_family_index, device.present_family_index]
        } else {
            Seq::<u32>::empty()
        })
    }

    fn negotiate(caps: &SurfaceCapabilities, window_width: u32, window_height: u32,
        device: &PhysicalDeviceInfo, format: SurfaceFormat) -> (r: SwapChain)
        requires
            caps.valid(),
        ensures
            r.negotiated(*caps, window_width, window_height, *device, format),
    {
        let (sharing_mode, queue_family_indices) = choose_sharing_mode(device.graphics_family_index, device.present_family_index);
        SwapChain {
            extent: choose_extent(caps, window_width, window_height),
            format,
            image_count: choose_image_count(caps),
            present_mode: choose_present_mode(device.mail_box_mode_support),
            sharing_mode,
            queue_family_indices,
        }
    }

    /// Negotiates a swapchain in the adapter's selected surface format.
    pub fn new(caps: &SurfaceCapabilities, window_width: u32, window_height: u32, device: &PhysicalDeviceInfo) -> (r: SwapChain)
        requires
            caps.valid(),
        ensures
            r.negotiated(*caps, window_width, window_height, *device, device.surface_format),
    {
        SwapChain::negotiate(caps, window_width, window_height, device, device.surface_format)
    }

    /// Negotiates the whole swapchain anew for a resized or stale surface,
    /// keeping the colour format negotiated before.
    pub fn recreate(&mut self, caps: &SurfaceCapabilities, window_width: u32, window_height: u32, device: &PhysicalDeviceInfo)
        requires
            caps.valid(),
        ensures
            final(self).negotiated(*caps, window_width, window_height, *device, old(self).format),
            final(self).format == old(self).format,
    {
        let format = self.format;
        *self = SwapChain::negotiate(caps, window_width, window_height, device, format);
    }
}

} // verus!
