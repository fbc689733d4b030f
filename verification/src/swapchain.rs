use vstd::prelude::*;

verus! {

/// `VK_FORMAT_B8G8R8A8_SRGB`.
pub const FORMAT_B8G8R8A8_SRGB: i32 = 50;

/// `VK_COLOR_SPACE_SRGB_NONLINEAR_KHR`.
pub const COLOR_SPACE_SRGB_NONLINEAR: i32 = 0;

/// `VK_PRESENT_MODE_MAILBOX_KHR`.
pub const PRESENT_MODE_MAILBOX: i32 = 1;

/// `VK_PRESENT_MODE_FIFO_KHR`, which every surface supports.
pub const PRESENT_MODE_FIFO: i32 = 2;

/// `VK_ERROR_OUT_OF_DATE_KHR`.
pub const ERROR_OUT_OF_DATE: i32 = -1000001004;

/// A width and a height in pixels.
#[derive(Copy, Clone, Debug, PartialEq, Eq, Structural)]
pub struct Extent2D {
    pub width: u32,
    pub height: u32,
}

/// The parts of a surface's capabilities that the swapchain setup reads.
#[derive(Copy, Clone, Debug, PartialEq, Eq, Structural)]
pub struct SurfaceCapabilities {
    pub min_image_count: u32,
    /// Zero when the surface sets no maximum.
    pub max_image_count: u32,
    /// A width of `u32::MAX` says that the swapchain picks the extent.
    pub current_extent: Extent2D,
    pub min_image_extent: Extent2D,
    pub max_image_extent: Extent2D,
}

/// A pixel format together with its color space.
#[derive(Copy, Clone, Debug, PartialEq, Eq, Structural)]
pub struct SurfaceFormat {
    pub format: i32,
    pub color_space: i32,
}

/// `value.clamp(min, max)` on integers.
pub open spec fn clamped(value: u32, min: u32, max: u32) -> u32 {
    if value < min {
        min
    } else if value > max {
        max
    } else {
        value
    }
}

/// Restrict `value` to `min..=max`; `min` may not exceed `max`.
pub fn clamp(value: u32, min: u32, max: u32) -> (r: u32)
    requires
        min <= max,
    ensures
        r == clamped(value, min, max),
{
    if value < min {
        min
    } else if value > max {
        max
    } else {
        value
    }
}

/// The number of swapchain images to ask for: two more than the minimum,
/// kept within the surface's maximum when it has one.
pub fn select_image_count(capabilities: &SurfaceCapabilities) -> (count: u32)
    requires
        capabilities.min_image_count + 2 <= u32::MAX,
        capabilities.max_image_count > 0 ==> capabilities.min_image_count
            <= capabilities.max_image_count,
    ensures
        count == if capabilities.max_image_count > 0 {
            clamped(
                (capabilities.min_image_count + 2) as u32,
                capabilities.min_image_count,
                capabilities.max_image_count,
            )
        } else {
            (capabilities.min_image_count + 2) as u32
        },
{
    let count = capabilities.min_image_count + 2;
    if capabilities.max_image_count > 0 {
        clamp(count, capabilities.min_image_count, capabilities.max_image_count)
    } else {
        count
    }
}

/// The image count asked for is at least the surface's minimum, and at most
/// its maximum when it has one.
pub proof fn law_image_count_within_limits(capabilities: SurfaceCapabilities, count: u32)
    requires
        capabilities.min_image_count + 2 <= u32::MAX,
        capabilities.max_image_count > 0 ==> capabilities.min_image_count
            <= capabilities.max_image_count,
        count == if capabilities.max_image_count > 0 {
            clamped(
                (capabilities.min_image_count + 2) as u32,
                capabilities.min_image_count,
                capabilities.max_image_count,
            )
        } else {
            (capabilities.min_image_count + 2) as u32
        },
    ensures
        count >= capabilities.min_image_count,
        capabilities.max_image_count > 0 ==> count <= capabilities.max_image_count,
        capabilities.max_image_count == 0 ==> count == capabilities.min_image_count + 2,
{
}

/// The swapchain extent. The surface's current extent is used unless its
/// width is `u32::MAX`; then each side of the framebuffer size is clamped,
/// with the maximum extent as the lower bound and the minimum extent as the
/// upper one.
pub fn select_extent(capabilities: &SurfaceCapabilities, framebuffer_size: (u32, u32)) -> (extent:
    Extent2D)
    requires
        capabilities.current_extent.width == u32::MAX ==> {
            &&& capabilities.max_image_extent.width <= capabilities.min_image_extent.width
            &&& capabilities.max_image_extent.height <= capabilities.min_image_extent.height
        },
    ensures
        capabilities.current_extent.width != u32::MAX ==> extent == capabilities.current_extent,
        capabilities.current_extent.width == u32::MAX ==> extent == (Extent2D {
            width: clamped(
                framebuffer_size.0,
                capabilities.max_image_extent.width,
                capabilities.min_image_extent.width,
            ),
            height: clamped(
                framebuffer_size.1,
                capabilities.max_image_extent.height,
                capabilities.min_image_extent.height,
            ),
        }),
{
    if capabilities.current_extent.width != u32::MAX {
        // Indicates that the current extent should be used
        return capabilities.current_extent;
    }
    let (desired_width, desired_height) = framebuffer_size;
    Extent2D {
        width: clamp(
            desired_width,
            capabilities.max_image_extent.width,
            capabilities.min_image_extent.width,
        ),
        height: clamp(
            desired_height,
            capabilities.max_image_extent.height,
            capabilities.min_image_extent.height,
        ),
    }
}

/// Mailbox when the surface offers it, otherwise FIFO, which is always
/// available.
pub fn select_present_mode(present_modes: &Vec<i32>) -> (mode: i32)
    ensures
        mode == if present_modes@.contains(PRESENT_MODE_MAILBOX) {
            PRESENT_MODE_MAILBOX
        } else {
            PRESENT_MODE_FIFO
        },
{
    let mut i: usize = 0;
    while i < present_modes.len()
        invariant
            i <= present_modes.len(),
            forall|j: int| 0 <= j < i ==> present_modes@[j] != PRESENT_MODE_MAILBOX,
        decreases present_modes.len() - i,
    {
        if present_modes[i] == PRESENT_MODE_MAILBOX {
            return PRESENT_MODE_MAILBOX;
        }
        i = i + 1;
    }
    PRESENT_MODE_FIFO
}

/// An sRGB BGRA8 format in the non-linear sRGB color space.
pub open spec fn is_preferred_format(format: SurfaceFormat) -> bool {
    format.color_space == COLOR_SPACE_SRGB_NONLINEAR && format.format == FORMAT_B8G8R8A8_SRGB
}

/// The preferred surface format is exactly B8G8R8A8_SRGB in the SRGB
/// non-linear color space: no other format or color space is preferred.
pub proof fn law_preferred_format_is_exactly_srgb_bgra(format: SurfaceFormat)
    ensures
        is_preferred_format(format) <==> format == (SurfaceFormat {
            format: FORMAT_B8G8R8A8_SRGB,
            color_space: COLOR_SPACE_SRGB_NONLINEAR,
        }),
{
}

/// The first preferred surface format, or else the first format; `None` when
/// the surface offers no format.
pub fn select_surface_format(surface_formats: &Vec<SurfaceFormat>) -> (selected: Option<
    SurfaceFormat,
>)
    ensures
        surface_formats@.len() == 0 <==> selected is None,
        (exists|i: int| 0 <= i < surface_formats@.len() && is_preferred_format(surface_formats@[i]))
            ==> exists|i: int|
            0 <= i < surface_formats@.len() && is_preferred_format(surface_formats@[i])
                && selected == Some(surface_formats@[i]) && forall|j: int|
                0 <= j < i ==> !is_preferred_format(#[trigger] surface_formats@[j]),
        !(exists|i: int| 0 <= i < surface_formats@.len() && is_preferred_format(surface_formats@[i]))
            && surface_formats@.len() > 0 ==> selected == Some(surface_formats@[0]),
        (exists|i: int|
            0 <= i < surface_formats@.len() && (#[trigger] surface_formats@[i]).format
                == FORMAT_B8G8R8A8_SRGB && surface_formats@[i].color_space
                == COLOR_SPACE_SRGB_NONLINEAR) ==> selected == Some(
            SurfaceFormat {
                format: FORMAT_B8G8R8A8_SRGB,
                color_space: COLOR_SPACE_SRGB_NONLINEAR,
            },
        ),
{
    let mut i: usize = 0;
    while i < surface_formats.len()
        invariant
            i <= surface_formats.len(),
            forall|j: int| 0 <= j < i ==> !is_preferred_format(#[trigger] surface_formats@[j]),
        decreases surface_formats.len() - i,
    {
        let candidate = surface_formats[i];
        if candidate.color_space == COLOR_SPACE_SRGB_NONLINEAR && candidate.format
            == FORMAT_B8G8R8A8_SRGB {
            return Some(candidate);
        }
        i = i + 1;
    }
    if surface_formats.len() > 0 {
        Some(surface_formats[0])
    } else {
        None
    }
}

/// How the swapchain images are shared between the graphics and present
/// queue families.
#[derive(Copy, Clone, Debug, PartialEq, Eq, Structural)]
pub enum ImageSharing {
    /// One family owns the images; no family index list is given.
    Exclusive,
    /// Both families use the images; these are the family indices to list.
    Concurrent(u32, u32),
}

/// Exclusive sharing when graphics and presentation use the same queue
/// family, concurrent sharing between the two families otherwise.
pub fn select_image_sharing(graphics_queue_index: u32, present_queue_index: u32) -> (sharing:
    ImageSharing)
    ensures
        graphics_queue_index == present_queue_index ==> sharing == ImageSharing::Exclusive,
        graphics_queue_index != present_queue_index ==> sharing == ImageSharing::Concurrent(
            graphics_queue_index,
            present_queue_index,
        ),
{
    if graphics_queue_index == present_queue_index {
        ImageSharing::Exclusive
    } else {
        ImageSharing::Concurrent(graphics_queue_index, present_queue_index)
    }
}

/// Returned when acquiring a swapchain image.
#[derive(Copy, Clone, Debug, PartialEq, Eq, Structural)]
pub enum AcquireImageStatus {
    /// Indicates that the swapchain image with a given index was acquired.
    ImageAcequired(u32),
    /// Indicates that the swapchain needs rebuilt.
    NeedsRebuild,
}

/// Returned when presenting a swapchain image.
#[derive(Copy, Clone, Debug, PartialEq, Eq, Structural)]
pub enum PresentImageStatus {
    /// Indicates that the image was queued for presentation.
    Queued,
    /// Indicates that the swapchain needs rebuilt.
    NeedsRebuild,
}

/// What acquiring the next image means for the frame. `acquired` is the
/// driver's answer: the image index and whether the swapchain is suboptimal,
/// or the error code. A suboptimal swapchain still yields its image; an
/// out-of-date one needs a rebuild; any other error is passed on.
pub fn acquire_image_status(acquired: Result<(u32, bool), i32>) -> (status: Result<
    AcquireImageStatus,
    i32,
>)
    ensures
        match acquired {
            Ok((index, _suboptimal)) => status == Ok::<AcquireImageStatus, i32>(
                AcquireImageStatus::ImageAcequired(index),
            ),
            Err(code) => if code == ERROR_OUT_OF_DATE {
                status == Ok::<AcquireImageStatus, i32>(AcquireImageStatus::NeedsRebuild)
            } else {
                status == Err::<AcquireImageStatus, i32>(code)
            },
        },
{
    match acquired {
        Ok((index, _suboptimal)) => Ok(AcquireImageStatus::ImageAcequired(index)),
        Err(code) => {
            if code == ERROR_OUT_OF_DATE {
                Ok(AcquireImageStatus::NeedsRebuild)
            } else {
                Err(code)
            }
        },
    }
}

/// What presenting an image means for the frame. `presented` is the
/// driver's answer: whether the swapchain is suboptimal, or the error code.
/// A suboptimal or out-of-date swapchain needs a rebuild; any other error is
/// passed on.
pub fn present_image_status(presented: Result<bool, i32>) -> (status: Result<
    PresentImageStatus,
    i32,
>)
    ensures
        match presented {
            Ok(suboptimal) => status == Ok::<PresentImageStatus, i32>(
                if suboptimal {
                    PresentImageStatus::NeedsRebuild
                } else {
                    PresentImageStatus::Queued
                },
            ),
            Err(code) => if code == ERROR_OUT_OF_DATE {
                status == Ok::<PresentImageStatus, i32>(PresentImageStatus::NeedsRebuild)
            } else {
                status == Err::<PresentImageStatus, i32>(code)
            },
        },
{
    match presented {
        Ok(false) => Ok(PresentImageStatus::Queued),
        Ok(true) => Ok(PresentImageStatus::NeedsRebuild),
        Err(code) => {
            if code == ERROR_OUT_OF_DATE {
                Ok(PresentImageStatus::NeedsRebuild)
            } else {
                Err(code)
            }
        },
    }
}

} // verus!
