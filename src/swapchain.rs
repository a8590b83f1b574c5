//! Planning and holding the presentable image chain.
//!
//! The surface is queried by the caller; the plan is computed here from
//! what the query returned, so that a rebuild against an unchanged surface
//! plans the same chain.
use vstd::prelude::*;

use crate::device_select::QueueFamilySelection;

verus! {

/// `VK_FORMAT_B8G8R8A8_SRGB`, the preferred colour format.
pub const FORMAT_B8G8R8A8_SRGB: i32 = 50;

/// `VK_PRESENT_MODE_MAILBOX_KHR`: no tearing, and no wait when ahead.
pub const PRESENT_MODE_MAILBOX: i32 = 1;

/// `VK_PRESENT_MODE_FIFO_KHR`, which every implementation supports.
pub const PRESENT_MODE_FIFO: i32 = 2;

/// A `current_extent.width` of this value means the surface leaves the
/// extent to the swapchain.
pub const EXTENT_UNDEFINED: u32 = 0xFFFF_FFFF;

#[derive(Clone, Copy, Debug, PartialEq, Eq, Structural)]
pub struct Extent {
    pub width: u32,
    pub height: u32,
}

/// A format the surface supports, with its colour space.
#[derive(Clone, Copy, Debug, PartialEq, Eq, Structural)]
pub struct SurfaceFormat {
    pub format: i32,
    pub color_space: i32,
}

/// The part of the surface capabilities that the plan reads.
#[derive(Clone, Copy, Debug, PartialEq, Eq, Structural)]
pub struct SurfaceCaps {
    pub min_image_count: u32,
    /// Zero means no upper bound.
    pub max_image_count: u32,
    pub current_extent: Extent,
    pub min_image_extent: Extent,
    pub max_image_extent: Extent,
}

/// Everything a surface query returned.
#[derive(Clone, Debug)]
pub struct SurfaceSupport {
    pub caps: SurfaceCaps,
    pub formats: Vec<SurfaceFormat>,
    pub present_modes: Vec<i32>,
}

/// How the chain's images are shared between queue families.
#[derive(Clone, Copy, Debug, PartialEq, Eq, Structural)]
pub enum SharingMode {
    /// One family does graphics and present.
    Exclusive,
    /// Shared by the graphics family and the present family.
    Concurrent { graphics_index: u32, present_index: u32 },
}

/// The parameters a swapchain is created with.
#[derive(Clone, Copy, Debug, PartialEq, Eq, Structural)]
pub struct SwapchainConfig {
    pub image_count: u32,
    pub format: SurfaceFormat,
    pub present_mode: i32,
    pub extent: Extent,
    pub sharing: SharingMode,
}

pub open spec fn has_format(fs: Seq<SurfaceFormat>, format: i32) -> bool {
    exists|i: int| 0 <= i < fs.len() && (#[trigger] fs[i]).format == format
}

/// The first format of the list that is the preferred one, or else the
/// first format of the list.
pub open spec fn chosen_format(fs: Seq<SurfaceFormat>) -> SurfaceFormat
    recommends
        fs.len() > 0,
{
    if has_format(fs, FORMAT_B8G8R8A8_SRGB) {
        let i = choose|i: int|
            0 <= i < fs.len() && fs[i].format == FORMAT_B8G8R8A8_SRGB && forall|j: int|
                0 <= j < i ==> (#[trigger] fs[j]).format != FORMAT_B8G8R8A8_SRGB;
        fs[i]
    } else {
        fs[0]
    }
}

pub open spec fn chosen_present_mode(modes: Seq<i32>) -> i32 {
    if modes.contains(PRESENT_MODE_MAILBOX) {
        PRESENT_MODE_MAILBOX
    } else {
        PRESENT_MODE_FIFO
    }
}

pub open spec fn clamp(v: u32, lo: u32, hi: u32) -> u32 {
    if v < lo {
        lo
    } else if v > hi {
        hi
    } else {
        v
    }
}

pub open spec fn chosen_extent(caps: SurfaceCaps, window: Extent) -> Extent {
    if caps.current_extent.width != EXTENT_UNDEFINED {
        caps.current_extent
    } else {
        Extent {
            width: clamp(window.width, caps.min_image_extent.width, caps.max_image_extent.width),
            height: clamp(window.height, caps.min_image_extent.height, caps.max_image_extent.height),
        }
    }
}

/// One image more than the minimum, but no more than a nonzero maximum.
pub open spec fn chosen_image_count(caps: SurfaceCaps) -> int {
    if caps.max_image_count > 0 && caps.min_image_count + 1 > caps.max_image_count {
        caps.max_image_count as int
    } else {
        caps.min_image_count + 1
    }
}

/// The image count fits in a `u32`.
pub open spec fn image_count_fits(caps: SurfaceCaps) -> bool {
    caps.min_image_count < u32::MAX || caps.max_image_count > 0
}

pub open spec fn chosen_sharing(sel: QueueFamilySelection) -> SharingMode {
    if sel.graphics_index == sel.present_index {
        SharingMode::Exclusive
    } else {
        SharingMode::Concurrent {
            graphics_index: sel.graphics_index,
            present_index: sel.present_index,
        }
    }
}

/// The surface query can be planned on: it lists a format, and the image
/// count fits.
pub open spec fn plannable(support: SurfaceSupport) -> bool {
    support.formats@.len() > 0 && image_count_fits(support.caps)
}

pub open spec fn planned_config(
    support: SurfaceSupport,
    window: Extent,
    sel: QueueFamilySelection,
) -> SwapchainConfig {
    SwapchainConfig {
        image_count: chosen_image_count(support.caps) as u32,
        format: chosen_format(support.formats@),
        present_mode: chosen_present_mode(support.present_modes@),
        extent: chosen_extent(support.caps, window),
        sharing: chosen_sharing(sel),
    }
}

/// The preferred format if the surface lists it, else its first format.
pub fn choose_swap_format(formats: &Vec<SurfaceFormat>) -> (r: SurfaceFormat)
    requires
        formats.len() > 0,
    ensures
        r == chosen_format(formats@),
{
    let mut i: usize = 0;
    while i < formats.len()
        invariant
            0 <= i <= formats.len(),
            forall|j: int| 0 <= j < i ==> (#[trigger] formats@[j]).format != FORMAT_B8G8R8A8_SRGB,
        decreases formats.len() - i,
    {
        if formats[i].format == FORMAT_B8G8R8A8_SRGB {
            proof {
                let k = choose|k: int|
                    0 <= k < formats@.len() && formats@[k].format == FORMAT_B8G8R8A8_SRGB
                        && forall|j: int|
                        0 <= j < k ==> (#[trigger] formats@[j]).format != FORMAT_B8G8R8A8_SRGB;
                // the first preferred entry is unique
                assert(k == i as int) by {
                    if k < i as int {
                    } else if k > i as int {
                        assert(formats@[i as int].format == FORMAT_B8G8R8A8_SRGB);
                    }
                }
            }
            return formats[i];
        }
        i = i + 1;
    }
    formats[0]
}

/// Mailbox if the surface offers it, else FIFO.
pub fn choose_swap_present_mode(modes: &Vec<i32>) -> (r: i32)
    ensures
        r == chosen_present_mode(modes@),
{
    let mut i: usize = 0;
    while i < modes.len()
        invariant
            0 <= i <= modes.len(),
            forall|j: int| 0 <= j < i ==> modes@[j] != PRESENT_MODE_MAILBOX,
        decreases modes.len() - i,
    {
        if modes[i] == PRESENT_MODE_MAILBOX {
            return PRESENT_MODE_MAILBOX;
        }
        i = i + 1;
    }
    PRESENT_MODE_FIFO
}

fn clamp_u32(v: u32, lo: u32, hi: u32) -> (r: u32)
    ensures
        r == clamp(v, lo, hi),
{
    if v < lo {
        lo
    } else if v > hi {
        hi
    } else {
        v
    }
}

/// The surface's extent, or the window size clamped into the surface's
/// bounds when the surface leaves it undefined.
pub fn choose_swap_extent(caps: &SurfaceCaps, window: Extent) -> (r: Extent)
    ensures
        r == chosen_extent(*caps, window),
{
    if caps.current_extent.width != EXTENT_UNDEFINED {
        return caps.current_extent;
    }
    Extent {
        width: clamp_u32(window.width, caps.min_image_extent.width, caps.max_image_extent.width),
        height: clamp_u32(window.height, caps.min_image_extent.height, caps.max_image_extent.height),
    }
}

/// The number of images to ask for.
pub fn choose_image_count(caps: &SurfaceCaps) -> (r: u32)
    requires
        image_count_fits(*caps),
    ensures
        r as int == chosen_image_count(*caps),
{
    if caps.max_image_count > 0 && caps.min_image_count >= caps.max_image_count {
        caps.max_image_count
    } else {
        caps.min_image_count + 1
    }
}

/// Exclusive when one family does both jobs, concurrent across the two
/// otherwise.
pub fn choose_sharing_mode(sel: &QueueFamilySelection) -> (r: SharingMode)
    ensures
        r == chosen_sharing(*sel),
{
    if sel.graphics_index == sel.present_index {
        SharingMode::Exclusive
    } else {
        SharingMode::Concurrent {
            graphics_index: sel.graphics_index,
            present_index: sel.present_index,
        }
    }
}

/// The presentable chain: the swapchain, its images, and one view per
/// image in the same order.
pub struct SwapchainContext {
    pub swapchain_device: ash::khr::swapchain::Device,
    pub swapchain: ash::vk::SwapchainKHR,
    pub config: SwapchainConfig,
    pub swapchain_imgs: Vec<ash::vk::Image>,
    pub swapchain_img_views: Vec<ash::vk::ImageView>,
}

impl SwapchainContext {
    /// The configuration a chain is built with, from a surface query, the
    /// window size and the queue families.
    pub fn plan(support: &SurfaceSupport, window: Extent, sel: &QueueFamilySelection) -> (r:
        SwapchainConfig)
        requires
            plannable(*support),
        ensures
            r == planned_config(*support, window, *sel),
    {
        SwapchainConfig {
            image_count: choose_image_count(&support.caps),
            format: choose_swap_format(&support.formats),
            present_mode: choose_swap_present_mode(&support.present_modes),
            extent: choose_swap_extent(&support.caps, window),
            sharing: choose_sharing_mode(sel),
        }
    }

    /// Assembles a chain from its swapchain, images and views.
    pub fn new(
        swapchain_device: ash::khr::swapchain::Device,
        swapchain: ash::vk::SwapchainKHR,
        config: SwapchainConfig,
        swapchain_imgs: Vec<ash::vk::Image>,
        swapchain_img_views: Vec<ash::vk::ImageView>,
    ) -> (r: SwapchainContext)
        requires
            swapchain_img_views.len() == swapchain_imgs.len(),
        ensures
            r.wf(),
            r.swapchain == swapchain,
            r.config == config,
            r.swapchain_imgs@ == swapchain_imgs@,
            r.swapchain_img_views@ == swapchain_img_views@,
    {
        SwapchainContext { swapchain_device, swapchain, config, swapchain_imgs, swapchain_img_views }
    }

    /// One view per image.
    pub open spec fn wf(&self) -> bool {
        self.swapchain_img_views@.len() == self.swapchain_imgs@.len()
    }

    pub fn image_count(&self) -> (r: usize)
        ensures
            r == self.swapchain_imgs@.len(),
    {
        self.swapchain_imgs.len()
    }

    pub fn extent(&self) -> (r: Extent)
        ensures
            r == self.config.extent,
    {
        self.config.extent
    }

    pub fn format(&self) -> (r: i32)
        ensures
            r == self.config.format.format,
    {
        self.config.format.format
    }
}

/// A chain rebuilt against an unchanged surface, window size and queue
/// families gets the same extent, format, present mode and image count as
/// before.
pub proof fn lemma_rebuild_plans_same_chain(
    before: SurfaceSupport,
    after: SurfaceSupport,
    window: Extent,
    sel: QueueFamilySelection,
)
    requires
        plannable(before),
        after.caps == before.caps,
        after.formats@ == before.formats@,
        after.present_modes@ == before.present_modes@,
    ensures
        planned_config(after, window, sel) == planned_config(before, window, sel),
{
}

} // verus!
