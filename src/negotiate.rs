use vstd::prelude::*;

use crate::error::SwapchainError;

verus! {

/// Raw code of the 8-bit BGRA format with SRGB encoding.
pub const FORMAT_B8G8R8A8_SRGB: i32 = 50;

/// Raw code of the 8-bit RGBA format with linear (UNORM) encoding.
pub const FORMAT_R8G8B8A8_UNORM: i32 = 37;

/// Raw code of the non-linear SRGB color space.
pub const COLOR_SPACE_SRGB_NONLINEAR: i32 = 0;

/// Raw code of the immediate present mode, which may tear.
pub const PRESENT_MODE_IMMEDIATE: i32 = 0;

/// Raw code of the low-latency, non-tearing mailbox present mode.
pub const PRESENT_MODE_MAILBOX: i32 = 1;

/// Raw code of the strict-vsync present mode, which every platform supports.
pub const PRESENT_MODE_FIFO: i32 = 2;

/// Width and height of a presentable image, in pixels.
#[derive(Clone, Copy, Debug, PartialEq, Eq, Structural)]
pub struct Extent2D {
    pub width: u32,
    pub height: u32,
}

/// A pixel format paired with a color space, as raw platform codes.
#[derive(Clone, Copy, Debug, PartialEq, Eq, Structural)]
pub struct SurfaceFormat {
    pub format: i32,
    pub color_space: i32,
}

/// What the platform reports of a surface's limits.
#[derive(Clone, Copy, Debug, PartialEq, Eq, Structural)]
pub struct SurfaceCapabilities {
    pub min_image_count: u32,
    /// Zero means that there is no upper limit.
    pub max_image_count: u32,
    /// Both axes at `u32::MAX` means that the extent follows the window.
    pub current_extent: Extent2D,
    pub min_image_extent: Extent2D,
    pub max_image_extent: Extent2D,
    pub supported_transforms: u32,
    pub current_transform: u32,
}

/// The graphics and presentation queue families of the chosen device.
#[derive(Clone, Copy, Debug, PartialEq, Eq, Structural)]
pub struct QueueFamilyIndices {
    pub graphics_family: Option<u32>,
    pub present_family: Option<u32>,
}

/// Whether the chain's images are shared across queue families.
#[derive(Clone, Copy, Debug, PartialEq, Eq, Structural)]
pub enum SharingMode {
    Exclusive,
    Concurrent,
}

/// The three answers of a capability query on a device and surface pair.
#[derive(Debug)]
pub struct SwapChainSupportDetail {
    pub capabilities: SurfaceCapabilities,
    pub formats: Vec<SurfaceFormat>,
    pub present_modes: Vec<i32>,
}

/// The negotiated configuration of a presentable image chain.
#[derive(Debug)]
pub struct SwapchainConfig {
    pub format: SurfaceFormat,
    pub present_mode: i32,
    pub extent: Extent2D,
    pub image_count: u32,
    pub sharing_mode: SharingMode,
    /// The queue families listed for concurrent sharing; empty when exclusive.
    pub queue_family_indices: Vec<u32>,
    pub pre_transform: u32,
}

/// The format that direct display prefers.
pub open spec fn preferred_format() -> SurfaceFormat {
    SurfaceFormat { format: FORMAT_B8G8R8A8_SRGB, color_space: COLOR_SPACE_SRGB_NONLINEAR }
}

/// The preferred format where the list holds it, else the list's first entry.
pub open spec fn chosen_format(s: Seq<SurfaceFormat>) -> SurfaceFormat
    recommends
        s.len() > 0,
{
    if s.contains(preferred_format()) {
        preferred_format()
    } else {
        s[0]
    }
}

/// The mailbox mode where the list holds it, else the list's first entry.
pub open spec fn chosen_present_mode(s: Seq<i32>) -> i32
    recommends
        s.len() > 0,
{
    if s.contains(PRESENT_MODE_MAILBOX) {
        PRESENT_MODE_MAILBOX
    } else {
        s[0]
    }
}

/// `v` brought into `[lo, hi]`: below `lo` gives `lo`, above `hi` gives `hi`.
pub open spec fn clamp_spec(v: u32, lo: u32, hi: u32) -> u32 {
    if v < lo {
        lo
    } else if v > hi {
        hi
    } else {
        v
    }
}

/// Whether the platform leaves the extent to the caller (the window follows).
pub open spec fn extent_follows_window(caps: SurfaceCapabilities) -> bool {
    caps.current_extent.width == u32::MAX && caps.current_extent.height == u32::MAX
}

/// The requested size clamped into the limits where the extent follows the
/// window; the platform's current extent otherwise.
pub open spec fn chosen_extent(caps: SurfaceCapabilities, width: u32, height: u32) -> Extent2D {
    if extent_follows_window(caps) {
        Extent2D {
            width: clamp_spec(width, caps.min_image_extent.width, caps.max_image_extent.width),
            height: clamp_spec(height, caps.min_image_extent.height, caps.max_image_extent.height),
        }
    } else {
        caps.current_extent
    }
}

/// One image more than the minimum, capped by a nonzero maximum.
pub open spec fn chosen_image_count(caps: SurfaceCapabilities) -> int {
    if caps.max_image_count > 0 && caps.min_image_count + 1 > caps.max_image_count {
        caps.max_image_count as int
    } else {
        caps.min_image_count + 1
    }
}

/// Concurrent sharing across both families where they differ, else exclusive.
pub open spec fn chosen_sharing(graphics: u32, present: u32) -> (SharingMode, Seq<u32>) {
    if graphics != present {
        (SharingMode::Concurrent, seq![graphics, present])
    } else {
        (SharingMode::Exclusive, Seq::empty())
    }
}

/// Brings `v` into `[lo, hi]` by composing a lower and an upper bound.
pub fn clamp_u32(v: u32, lo: u32, hi: u32) -> (r: u32)
    ensures
        r == clamp_spec(v, lo, hi),
{
    if v < lo {
        lo
    } else if v > hi {
        hi
    } else {
        v
    }
}

/// Picks the BGRA-8 / SRGB-nonlinear pair if offered, else the first option.
pub fn choose_swapchain_format(available_formats: &Vec<SurfaceFormat>) -> (r: Result<
    SurfaceFormat,
    SwapchainError,
>)
    ensures
        r == (if available_formats@.len() == 0 {
            Err(SwapchainError::NegotiationError)
        } else {
            Ok(chosen_format(available_formats@))
        }),
{
    let n = available_formats.len();
    let mut i: usize = 0;
    while i < n
        invariant
            n == available_formats@.len(),
            0 <= i <= n,
            forall|j: int| 0 <= j < i ==> available_formats@[j] != preferred_format(),
        decreases n - i,
    {
        let f = available_formats[i];
        if f.format == FORMAT_B8G8R8A8_SRGB && f.color_space == COLOR_SPACE_SRGB_NONLINEAR {
            assert(available_formats@[i as int] == preferred_format());
            return Ok(f);
        }
        i += 1;
    }
    if n == 0 {
        Err(SwapchainError::NegotiationError)
    } else {
        Ok(available_formats[0])
    }
}

/// Picks the mailbox present mode if offered, else the first option.
pub fn choose_swapchain_present_mode(present_modes: &Vec<i32>) -> (r: Result<i32, SwapchainError>)
    ensures
        r == (if present_modes@.len() == 0 {
            Err(SwapchainError::NegotiationError)
        } else {
            Ok(chosen_present_mode(present_modes@))
        }),
{
    let n = present_modes.len();
    let mut i: usize = 0;
    while i < n
        invariant
            n == present_modes@.len(),
            0 <= i <= n,
            forall|j: int| 0 <= j < i ==> present_modes@[j] != PRESENT_MODE_MAILBOX,
        decreases n - i,
    {
        if present_modes[i] == PRESENT_MODE_MAILBOX {
            assert(present_modes@[i as int] == PRESENT_MODE_MAILBOX);
            return Ok(PRESENT_MODE_MAILBOX);
        }
        i += 1;
    }
    if n == 0 {
        Err(SwapchainError::NegotiationError)
    } else {
        Ok(present_modes[0])
    }
}

/// The extent of the chain for a requested window size of `width` by `height`.
pub fn choose_swapchain_extent(capabilities: &SurfaceCapabilities, width: u32, height: u32) -> (r:
    Extent2D)
    ensures
        r == chosen_extent(*capabilities, width, height),
{
    if capabilities.current_extent.width != u32::MAX || capabilities.current_extent.height
        != u32::MAX {
        capabilities.current_extent
    } else {
        Extent2D {
            width: clamp_u32(
                width,
                capabilities.min_image_extent.width,
                capabilities.max_image_extent.width,
            ),
            height: clamp_u32(
                height,
                capabilities.min_image_extent.height,
                capabilities.max_image_extent.height,
            ),
        }
    }
}

/// The number of images to request from the platform.
pub fn choose_image_count(capabilities: &SurfaceCapabilities) -> (r: u32)
    requires
        capabilities.min_image_count < u32::MAX,
    ensures
        r == chosen_image_count(*capabilities),
{
    let image_count = capabilities.min_image_count + 1;
    if capabilities.max_image_count > 0 && image_count > capabilities.max_image_count {
        capabilities.max_image_count
    } else {
        image_count
    }
}

/// The sharing mode and the queue families it lists; both families must be known.
pub fn choose_sharing_mode(queue_family: &QueueFamilyIndices) -> (r: Result<
    (SharingMode, Vec<u32>),
    SwapchainError,
>)
    ensures
        match (queue_family.graphics_family, queue_family.present_family) {
            (Some(g), Some(p)) => r is Ok && r->Ok_0.0 == chosen_sharing(g, p).0
                && r->Ok_0.1@ == chosen_sharing(g, p).1,
            _ => r is Err && r->Err_0 == SwapchainError::PreconditionError,
        },
{
    match (queue_family.graphics_family, queue_family.present_family) {
        (Some(g), Some(p)) => {
            if g != p {
                Ok((SharingMode::Concurrent, vec![g, p]))
            } else {
                Ok((SharingMode::Exclusive, Vec::new()))
            }
        },
        _ => Err(SwapchainError::PreconditionError),
    }
}

/// The error that negotiation reports for these inputs, if any: missing queue
/// families first, then an empty option list or an image count that cannot grow.
pub open spec fn negotiation_error(
    support: SwapChainSupportDetail,
    queue_family: QueueFamilyIndices,
) -> Option<SwapchainError> {
    if queue_family.graphics_family is None || queue_family.present_family is None {
        Some(SwapchainError::PreconditionError)
    } else if support.formats@.len() == 0 || support.present_modes@.len() == 0
        || support.capabilities.min_image_count == u32::MAX {
        Some(SwapchainError::NegotiationError)
    } else {
        None
    }
}

/// Whether `c` is the configuration that negotiation selects for these inputs.
pub open spec fn is_negotiated(
    c: SwapchainConfig,
    support: SwapChainSupportDetail,
    queue_family: QueueFamilyIndices,
    width: u32,
    height: u32,
) -> bool {
    let caps = support.capabilities;
    let sharing = chosen_sharing(
        queue_family.graphics_family->Some_0,
        queue_family.present_family->Some_0,
    );
    &&& c.format == chosen_format(support.formats@)
    &&& c.present_mode == chosen_present_mode(support.present_modes@)
    &&& c.extent == chosen_extent(caps, width, height)
    &&& c.image_count == chosen_image_count(caps)
    &&& c.sharing_mode == sharing.0
    &&& c.queue_family_indices@ == sharing.1
    &&& c.pre_transform == caps.current_transform
}

/// Selects a complete configuration from what the platform reported, for a
/// requested window size of `width` by `height`.
pub fn negotiate(
    support: &SwapChainSupportDetail,
    queue_family: &QueueFamilyIndices,
    width: u32,
    height: u32,
) -> (r: Result<SwapchainConfig, SwapchainError>)
    ensures
        match negotiation_error(*support, *queue_family) {
            Some(e) => r is Err && r->Err_0 == e,
            None => r is Ok && is_negotiated(r->Ok_0, *support, *queue_family, width, height),
        },
{
    let (sharing_mode, queue_family_indices) = match choose_sharing_mode(queue_family) {
        Ok(s) => s,
        Err(e) => return Err(e),
    };
    let format = match choose_swapchain_format(&support.formats) {
        Ok(f) => f,
        Err(e) => return Err(e),
    };
    let present_mode = match choose_swapchain_present_mode(&support.present_modes) {
        Ok(m) => m,
        Err(e) => return Err(e),
    };
    if support.capabilities.min_image_count == u32::MAX {
        return Err(SwapchainError::NegotiationError);
    }
    let extent = choose_swapchain_extent(&support.capabilities, width, height);
    let image_count = choose_image_count(&support.capabilities);
    Ok(
        SwapchainConfig {
            format,
            present_mode,
            extent,
            image_count,
            sharing_mode,
            queue_family_indices,
            pre_transform: support.capabilities.current_transform,
        },
    )
}

/// A format list that offers the BGRA-8 / SRGB-nonlinear pair yields exactly
/// that pair, wherever it stands in the list.
pub proof fn lemma_format_prefers_srgb(formats: Seq<SurfaceFormat>)
    requires
        formats.contains(preferred_format()),
    ensures
        chosen_format(formats) == preferred_format(),
{
}

/// A non-empty format list without the preferred pair yields its first entry.
pub proof fn lemma_format_falls_back_to_first(formats: Seq<SurfaceFormat>)
    requires
        formats.len() > 0,
        !formats.contains(preferred_format()),
    ensures
        chosen_format(formats) == formats[0],
{
}

/// A present-mode list that offers the mailbox mode yields the mailbox mode,
/// wherever it stands in the list.
pub proof fn lemma_present_mode_prefers_mailbox(modes: Seq<i32>)
    requires
        modes.contains(PRESENT_MODE_MAILBOX),
    ensures
        chosen_present_mode(modes) == PRESENT_MODE_MAILBOX,
{
}

/// A non-empty present-mode list without the mailbox mode yields its first entry.
pub proof fn lemma_present_mode_falls_back_to_first(modes: Seq<i32>)
    requires
        modes.len() > 0,
        !modes.contains(PRESENT_MODE_MAILBOX),
    ensures
        chosen_present_mode(modes) == modes[0],
{
}

/// Where the extent follows the window, the requested size is clamped into the
/// platform's limits on each axis.
pub proof fn lemma_extent_follows_window(caps: SurfaceCapabilities, width: u32, height: u32)
    requires
        extent_follows_window(caps),
    ensures
        chosen_extent(caps, width, height) == (Extent2D {
            width: clamp_spec(width, caps.min_image_extent.width, caps.max_image_extent.width),
            height: clamp_spec(height, caps.min_image_extent.height, caps.max_image_extent.height),
        }),
{
}

/// Where the platform fixes the extent, it is used verbatim and the requested
/// size is ignored.
pub proof fn lemma_extent_fixed_by_platform(caps: SurfaceCapabilities, width: u32, height: u32)
    requires
        !extent_follows_window(caps),
    ensures
        chosen_extent(caps, width, height) == caps.current_extent,
{
}

/// The image count is at least one more than the minimum, at most a nonzero
/// maximum, and exactly one more than the minimum when there is no maximum;
/// this needs a maximum that is either absent or above the minimum.
pub proof fn lemma_image_count_bounds(caps: SurfaceCapabilities)
    requires
        caps.max_image_count == 0 || caps.max_image_count > caps.min_image_count,
    ensures
        chosen_image_count(caps) >= caps.min_image_count + 1,
        caps.max_image_count > 0 ==> chosen_image_count(caps) <= caps.max_image_count,
        caps.max_image_count == 0 ==> chosen_image_count(caps) == caps.min_image_count + 1,
{
}

/// Sharing is concurrent over both families exactly when they differ, and
/// exclusive with no listed family otherwise.
pub proof fn lemma_sharing_concurrent_iff_distinct(graphics: u32, present: u32)
    ensures
        (chosen_sharing(graphics, present).0 == SharingMode::Concurrent
            && chosen_sharing(graphics, present).1 == seq![graphics, present]) <==> graphics
            != present,
        graphics == present ==> chosen_sharing(graphics, present).0 == SharingMode::Exclusive
            && chosen_sharing(graphics, present).1 == Seq::<u32>::empty(),
{
}

} // verus!
