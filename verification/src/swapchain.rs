//! Swapchain negotiation: surface format, present mode, extent and image
//! count, computed from what the surface and the window report.

use vstd::prelude::*;
use crate::device::QueueFamilyIndices;

verus! {

/// Format code for 8-bit BGRA with sRGB encoding.
pub const FORMAT_B8G8R8A8_SRGB: u32 = 50;

/// Color-space code for non-linear sRGB.
pub const COLOR_SPACE_SRGB_NONLINEAR: u32 = 0;

/// Present-mode code for immediate presentation.
pub const PRESENT_MODE_IMMEDIATE: u32 = 0;

/// Present-mode code for low-latency triple buffering.
pub const PRESENT_MODE_MAILBOX: u32 = 1;

/// Present-mode code for first-in-first-out presentation; always supported.
pub const PRESENT_MODE_FIFO: u32 = 2;

/// A surface format: a pixel format paired with a color space.
#[derive(Clone, Copy, Debug, PartialEq, Eq, Structural)]
pub struct SurfaceFormat {
    pub format: u32,
    pub color_space: u32,
}

/// A two-dimensional pixel extent.
#[derive(Clone, Copy, Debug, PartialEq, Eq, Structural)]
pub struct Extent2D {
    pub width: u32,
    pub height: u32,
}

/// What the surface reports about itself: image-count bounds, the current
/// extent (`u32::MAX` width meaning "pick your own"), and the extent bounds.
#[derive(Clone, Copy, Debug, PartialEq, Eq, Structural)]
pub struct SurfaceCapabilities {
    pub min_image_count: u32,
    pub max_image_count: u32,
    pub current_extent: Extent2D,
    pub min_image_extent: Extent2D,
    pub max_image_extent: Extent2D,
}

/// The preferred surface format: 8-bit BGRA with non-linear sRGB.
pub open spec fn is_preferred_format(f: SurfaceFormat) -> bool {
    f.format == FORMAT_B8G8R8A8_SRGB && f.color_space == COLOR_SPACE_SRGB_NONLINEAR
}

/// The preferred pair written out as a value.
pub open spec fn preferred_format() -> SurfaceFormat {
    SurfaceFormat { format: FORMAT_B8G8R8A8_SRGB, color_space: COLOR_SPACE_SRGB_NONLINEAR }
}

/// Chooses the surface format: the preferred 8-bit BGRA / non-linear sRGB
/// pair when the surface offers it, anywhere in the list; otherwise the first
/// offered format.
pub fn get_swapchain_surface_format(formats: &Vec<SurfaceFormat>) -> (r: SurfaceFormat)
    requires
        formats@.len() > 0,
    ensures
        (exists|i: int| 0 <= i < formats@.len() && is_preferred_format(formats@[i])) ==> r
            == preferred_format(),
        !(exists|i: int| 0 <= i < formats@.len() && is_preferred_format(formats@[i])) ==> r
            == formats@[0],
{
    let n = formats.len();
    let mut k: usize = 0;
    while k < n
        invariant
            n == formats@.len(),
            0 <= k <= n,
            forall|i: int| 0 <= i < k ==> !is_preferred_format(formats@[i]),
        decreases n - k,
    {
        let f = formats[k];
        if f.format == FORMAT_B8G8R8A8_SRGB && f.color_space == COLOR_SPACE_SRGB_NONLINEAR {
            return f;
        }
        k = k + 1;
    }
    formats[0]
}

/// Chooses the present mode: mailbox when the surface offers it, otherwise
/// first-in-first-out, which every surface supports.
pub fn get_swapchain_present_mode(present_modes: &Vec<u32>) -> (r: u32)
    ensures
        (exists|i: int| 0 <= i < present_modes@.len() && present_modes@[i] == PRESENT_MODE_MAILBOX)
            ==> r == PRESENT_MODE_MAILBOX,
        !(exists|i: int|
            0 <= i < present_modes@.len() && present_modes@[i] == PRESENT_MODE_MAILBOX) ==> r
            == PRESENT_MODE_FIFO,
{
    let n = present_modes.len();
    let mut k: usize = 0;
    while k < n
        invariant
            n == present_modes@.len(),
            0 <= k <= n,
            forall|i: int| 0 <= i < k ==> present_modes@[i] != PRESENT_MODE_MAILBOX,
        decreases n - k,
    {
        if present_modes[k] == PRESENT_MODE_MAILBOX {
            return PRESENT_MODE_MAILBOX;
        }
        k = k + 1;
    }
    PRESENT_MODE_FIFO
}

/// `v` clamped into the interval from `lo` to `hi`, with `lo` winning when the
/// interval is empty.
pub open spec fn spec_clamp(lo: u32, hi: u32, v: u32) -> u32 {
    let capped = if v < hi {
        v
    } else {
        hi
    };
    if capped < lo {
        lo
    } else {
        capped
    }
}

/// The negotiated swapchain extent: the surface's current extent when it is
/// fixed (width differing from the `u32::MAX` sentinel), otherwise the
/// window's pixel size clamped into the surface's extent bounds.
pub open spec fn spec_extent(window: Extent2D, caps: SurfaceCapabilities) -> Extent2D {
    if caps.current_extent.width != u32::MAX {
        caps.current_extent
    } else {
        Extent2D {
            width: spec_clamp(
                caps.min_image_extent.width,
                caps.max_image_extent.width,
                window.width,
            ),
            height: spec_clamp(
                caps.min_image_extent.height,
                caps.max_image_extent.height,
                window.height,
            ),
        }
    }
}

/// Negotiates the swapchain extent from the window size and the surface
/// capabilities.
pub fn get_swapchain_extent(window: Extent2D, caps: SurfaceCapabilities) -> (r: Extent2D)
    ensures
        r == spec_extent(window, caps),
{
    if caps.current_extent.width != u32::MAX {
        caps.current_extent
    } else {
        let w_capped = if window.width < caps.max_image_extent.width {
            window.width
        } else {
            caps.max_image_extent.width
        };
        let h_capped = if window.height < caps.max_image_extent.height {
            window.height
        } else {
            caps.max_image_extent.height
        };
        let width = if w_capped < caps.min_image_extent.width {
            caps.min_image_extent.width
        } else {
            w_capped
        };
        let height = if h_capped < caps.min_image_extent.height {
            caps.min_image_extent.height
        } else {
            h_capped
        };
        Extent2D { width, height }
    }
}

/// The negotiated image count: one more than the surface's minimum, clamped
/// down to the maximum when the surface enforces a nonzero one.
pub open spec fn spec_image_count(caps: SurfaceCapabilities) -> u32 {
    let wanted = (caps.min_image_count + 1) as u32;
    if caps.max_image_count != 0 && wanted > caps.max_image_count {
        caps.max_image_count
    } else {
        wanted
    }
}

/// Negotiates the number of swapchain images.
pub fn get_swapchain_image_count(caps: SurfaceCapabilities) -> (r: u32)
    requires
        caps.min_image_count < u32::MAX,
    ensures
        r == spec_image_count(caps),
{
    let wanted = caps.min_image_count + 1;
    if caps.max_image_count != 0 && wanted > caps.max_image_count {
        caps.max_image_count
    } else {
        wanted
    }
}

/// How the swapchain images are shared between queue families.
#[derive(Clone, Copy, Debug, PartialEq, Eq, Structural)]
pub enum SharingMode {
    /// One queue family owns the images.
    Exclusive,
    /// The named queue families use the images concurrently.
    Concurrent,
}

/// Everything `create` decides about a swapchain, ready to be handed to the
/// graphics API.
#[derive(Debug)]
pub struct SwapchainConfig {
    pub format: SurfaceFormat,
    pub present_mode: u32,
    pub extent: Extent2D,
    pub image_count: u32,
    pub sharing_mode: SharingMode,
    /// The families named for concurrent sharing; empty under exclusive
    /// ownership.
    pub queue_family_indices: Vec<u32>,
}

/// Negotiates a whole swapchain: format and present mode chosen from what
/// the surface offers, extent and image count from its capabilities, and
/// concurrent sharing across the two queue families exactly when graphics
/// and present differ.
pub fn create_swapchain(
    window: Extent2D,
    caps: SurfaceCapabilities,
    formats: &Vec<SurfaceFormat>,
    present_modes: &Vec<u32>,
    indices: QueueFamilyIndices,
) -> (r: SwapchainConfig)
    requires
        formats@.len() > 0,
        caps.min_image_count < u32::MAX,
    ensures
        (exists|i: int| 0 <= i < formats@.len() && is_preferred_format(formats@[i])) ==> r.format
            == preferred_format(),
        !(exists|i: int| 0 <= i < formats@.len() && is_preferred_format(formats@[i])) ==> r.format
            == formats@[0],
        (exists|i: int| 0 <= i < present_modes@.len() && present_modes@[i] == PRESENT_MODE_MAILBOX)
            ==> r.present_mode == PRESENT_MODE_MAILBOX,
        !(exists|i: int|
            0 <= i < present_modes@.len() && present_modes@[i] == PRESENT_MODE_MAILBOX)
            ==> r.present_mode == PRESENT_MODE_FIFO,
        r.extent == spec_extent(window, caps),
        r.image_count == spec_image_count(caps),
        indices.graphics == indices.present ==> r.sharing_mode == SharingMode::Exclusive
            && r.queue_family_indices@ == Seq::<u32>::empty(),
        indices.graphics != indices.present ==> r.sharing_mode == SharingMode::Concurrent
            && r.queue_family_indices@ == seq![indices.graphics, indices.present],
{
    let format = get_swapchain_surface_format(formats);
    let present_mode = get_swapchain_present_mode(present_modes);
    let extent = get_swapchain_extent(window, caps);
    let image_count = get_swapchain_image_count(caps);
    let mut queue_family_indices: Vec<u32> = Vec::new();
    let sharing_mode = if indices.graphics != indices.present {
        queue_family_indices.push(indices.graphics);
        queue_family_indices.push(indices.present);
        proof {
            assert(queue_family_indices@ =~= seq![indices.graphics, indices.present]);
        }
        SharingMode::Concurrent
    } else {
        proof {
            assert(queue_family_indices@ =~= Seq::<u32>::empty());
        }
        SharingMode::Exclusive
    };
    SwapchainConfig { format, present_mode, extent, image_count, sharing_mode, queue_family_indices }
}

/// The shape of one image view: which format it reads the image in and which
/// aspect it exposes, as a single-mip, single-layer two-dimensional view.
#[derive(Clone, Copy, Debug, PartialEq, Eq, Structural)]
pub struct ImageViewConfig {
    pub format: u32,
    pub aspect_mask: u32,
    pub base_mip_level: u32,
    pub level_count: u32,
    pub base_array_layer: u32,
    pub layer_count: u32,
}

/// Builds the view configuration for one image: the given format and aspect,
/// one mip level, one array layer.
pub fn create_image_view(format: u32, aspect_mask: u32) -> (r: ImageViewConfig)
    ensures
        r == (ImageViewConfig {
            format,
            aspect_mask,
            base_mip_level: 0,
            level_count: 1,
            base_array_layer: 0,
            layer_count: 1,
        }),
{
    ImageViewConfig {
        format,
        aspect_mask,
        base_mip_level: 0,
        level_count: 1,
        base_array_layer: 0,
        layer_count: 1,
    }
}

/// Builds one color view per swapchain image, in the swapchain's format:
/// the view list always matches the image list in length, one view per
/// image.
pub fn create_swapchain_image_views(image_count: usize, format: u32) -> (r: Vec<ImageViewConfig>)
    ensures
        r@.len() == image_count,
        forall|i: int|
            0 <= i < image_count ==> r@[i] == (ImageViewConfig {
                format,
                aspect_mask: crate::barrier::ASPECT_COLOR,
                base_mip_level: 0,
                level_count: 1,
                base_array_layer: 0,
                layer_count: 1,
            }),
{
    let mut r: Vec<ImageViewConfig> = Vec::new();
    let mut k: usize = 0;
    while k < image_count
        invariant
            0 <= k <= image_count,
            r@.len() == k,
            forall|i: int|
                0 <= i < k ==> r@[i] == (ImageViewConfig {
                    format,
                    aspect_mask: crate::barrier::ASPECT_COLOR,
                    base_mip_level: 0,
                    level_count: 1,
                    base_array_layer: 0,
                    layer_count: 1,
                }),
        decreases image_count - k,
    {
        r.push(create_image_view(format, crate::barrier::ASPECT_COLOR));
        k = k + 1;
    }
    r
}

} // verus!
