use vstd::prelude::*;

use crate::record::{extent_ok, Extent2D};

verus! {

/// The number of swapchain images asked for when the surface allows it.
pub const PREFERRED_IMAGE_COUNT: u32 = 3;

/// The surface format the swapchain uses: 8-bit BGRA, unsigned normalized,
/// in the graphics API's numbering of formats.
pub const PREFERRED_SURFACE_FORMAT: i32 = 44;

/// How many images to ask of a surface that offers `min..=max` of them; a
/// `max` of zero means the surface sets no upper bound.
pub open spec fn requested_image_count(min: u32, max: u32) -> u32 {
    let want = if min > PREFERRED_IMAGE_COUNT { min } else { PREFERRED_IMAGE_COUNT };
    if max != 0 && want > max {
        max
    } else {
        want
    }
}

/// The image count to create a swapchain with: at least three, within what
/// the surface allows.
pub fn swapchain_image_count(min: u32, max: u32) -> (r: u32)
    ensures
        r == requested_image_count(min, max),
        max == 0 || r <= max,
        min <= max || max == 0 ==> min <= r,
        r >= PREFERRED_IMAGE_COUNT || (max != 0 && r == max),
{
    let want: u32 = if min > PREFERRED_IMAGE_COUNT { min } else { PREFERRED_IMAGE_COUNT };
    if max != 0 && want > max {
        max
    } else {
        want
    }
}

/// The position of the first entry of `formats` that is the preferred
/// surface format, if any.
pub fn choose_surface_format(formats: &Vec<i32>) -> (r: Option<usize>)
    ensures
        match r {
            Some(i) => i < formats@.len() && formats@[i as int] == PREFERRED_SURFACE_FORMAT
                && forall|j: int| 0 <= j < i ==> formats@[j] != PREFERRED_SURFACE_FORMAT,
            None => forall|j: int| 0 <= j < formats@.len() ==> formats@[j] != PREFERRED_SURFACE_FORMAT,
        },
{
    let mut i: usize = 0;
    while i < formats.len()
        invariant
            i <= formats@.len(),
            forall|j: int| 0 <= j < i ==> formats@[j] != PREFERRED_SURFACE_FORMAT,
        decreases formats@.len() - i,
    {
        if formats[i] == PREFERRED_SURFACE_FORMAT {
            return Some(i);
        }
        i = i + 1;
    }
    None
}

/// What a swapchain was made with: the size of its images and how many there
/// are. Each image has its own view and its own "render complete" semaphore,
/// kept in the same order as the images.
#[derive(Debug, Copy, Clone, PartialEq, Eq, Structural)]
pub struct SwapchainData {
    pub extent: Extent2D,
    pub image_count: u32,
}

/// Why a swapchain description was refused.
#[derive(Debug, Copy, Clone, PartialEq, Eq, Structural)]
pub enum SwapchainError {
    /// A side of the extent is zero.
    ZeroExtent,
    /// A side of the extent is too large to blit from or to.
    ExtentTooLarge,
    /// The swapchain has no images.
    NoImages,
}

/// A part of a swapchain, in the order that they are destroyed.
#[derive(Debug, Copy, Clone, PartialEq, Eq, Structural)]
pub enum SwapchainPart {
    ImageViews,
    RenderSemaphores,
    Swapchain,
    Surface,
}

/// Why a swapchain of `image_count` images of `extent` cannot be rendered
/// to, if it cannot.
pub open spec fn swapchain_problem(extent: Extent2D, image_count: u32) -> Option<SwapchainError> {
    if extent.width == 0 || extent.height == 0 {
        Some(SwapchainError::ZeroExtent)
    } else if !extent_ok(extent) {
        Some(SwapchainError::ExtentTooLarge)
    } else if image_count == 0 {
        Some(SwapchainError::NoImages)
    } else {
        None
    }
}

impl SwapchainData {
    /// The swapchain can be rendered to: its images have a usable size and
    /// there is at least one.
    pub open spec fn valid(self) -> bool {
        extent_ok(self.extent) && self.image_count > 0
    }

    /// Describes a swapchain of `image_count` images of `extent`.
    pub fn new(extent: Extent2D, image_count: u32) -> (r: Result<SwapchainData, SwapchainError>)
        ensures
            r == match swapchain_problem(extent, image_count) {
                Some(e) => Err(e),
                None => Ok(SwapchainData { extent, image_count }),
            },
            r is Ok <==> (SwapchainData { extent, image_count }).valid(),
    {
        if extent.width == 0 || extent.height == 0 {
            Err(SwapchainError::ZeroExtent)
        } else if extent.width > crate::record::MAX_SIDE || extent.height > crate::record::MAX_SIDE {
            Err(SwapchainError::ExtentTooLarge)
        } else if image_count == 0 {
            Err(SwapchainError::NoImages)
        } else {
            Ok(SwapchainData { extent, image_count })
        }
    }

    /// The parts of a swapchain in the order they are destroyed: image views,
    /// semaphores, the swapchain, and last its surface.
    pub fn flush(&self) -> (r: Vec<SwapchainPart>)
        ensures
            r@ == seq![
                SwapchainPart::ImageViews,
                SwapchainPart::RenderSemaphores,
                SwapchainPart::Swapchain,
                SwapchainPart::Surface,
            ],
    {
        let mut parts: Vec<SwapchainPart> = Vec::new();
        parts.push(SwapchainPart::ImageViews);
        parts.push(SwapchainPart::RenderSemaphores);
        parts.push(SwapchainPart::Swapchain);
        parts.push(SwapchainPart::Surface);
        assert(parts@ =~= seq![
            SwapchainPart::ImageViews,
            SwapchainPart::RenderSemaphores,
            SwapchainPart::Swapchain,
            SwapchainPart::Surface,
        ]);
        parts
    }
}

} // verus!
