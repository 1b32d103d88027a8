//! Configuring the swapchain of a window: how many images, which surface format,
//! which present mode, how many frames in flight.
//!
//! Formats, color spaces and present modes are the numbers that the graphics API
//! uses for them.

use vstd::prelude::*;

verus! {

/// The format with 8 bits each of blue, green, red and alpha in sRGB encoding.
pub const FORMAT_B8G8R8A8_SRGB: i32 = 50;

/// The sRGB color space with its nonlinear transfer function.
pub const COLOR_SPACE_SRGB_NONLINEAR: i32 = 0;

/// Present mode: images are shown at once; tearing may be seen.
pub const PRESENT_MODE_IMMEDIATE: i32 = 0;

/// Present mode: the newest image waits for the next vertical blank.
pub const PRESENT_MODE_MAILBOX: i32 = 1;

/// Present mode: images queue up for the vertical blanks. Always offered.
pub const PRESENT_MODE_FIFO: i32 = 2;

/// Why a window's swapchain could not be set up.
#[derive(Debug, Clone, Copy, PartialEq, Eq, Structural)]
pub enum WindowRenderTargetBindingError {
    /// The surface offers no format at all.
    NoSurfaceFormats,
    /// The graphics API refused a call; the number is its result code.
    VkResultError(i32),
}

/// A format and color space that a surface offers.
#[derive(Debug, Clone, Copy, PartialEq, Eq, Structural)]
pub struct SurfaceFormat {
    /// The format of the pixels.
    pub format: i32,
    /// The color space that the pixels are in.
    pub color_space: i32,
}

impl SurfaceFormat {
    /// Whether this is the format that the engine likes best.
    pub open spec fn is_preferred(self) -> bool {
        self.format == FORMAT_B8G8R8A8_SRGB && self.color_space == COLOR_SPACE_SRGB_NONLINEAR
    }
}

/// Number of images to ask for: one more than the surface's minimum, but no more
/// than its maximum where it has one (a maximum of zero means that it has none).
pub fn select_image_count(min_image_count: u32, max_image_count: u32) -> (image_count: u32)
    requires
        min_image_count < u32::MAX,
    ensures
        image_count == (if max_image_count > 0 && min_image_count + 1 > max_image_count {
            max_image_count
        } else {
            (min_image_count + 1) as u32
        }),
{
    let mut image_count = min_image_count + 1;
    if max_image_count > 0 && image_count > max_image_count {
        image_count = max_image_count;
    }
    image_count
}

/// As `select_image_count`, for every minimum: `None` where one more than the
/// minimum is not a number of images.
pub fn checked_image_count(min_image_count: u32, max_image_count: u32) -> (image_count: Option<
    u32,
>)
    ensures
        min_image_count == u32::MAX ==> image_count.is_none(),
        min_image_count < u32::MAX ==> image_count == Some(
            if max_image_count > 0 && min_image_count + 1 > max_image_count {
                max_image_count
            } else {
                (min_image_count + 1) as u32
            },
        ),
{
    if min_image_count < u32::MAX {
        Some(select_image_count(min_image_count, max_image_count))
    } else {
        None
    }
}

/// The surface format to use: the first preferred one among those offered, else
/// the first one offered.
pub open spec fn selected_surface_format(formats: Seq<SurfaceFormat>) -> Option<SurfaceFormat> {
    if exists|i: int| 0 <= i < formats.len() && (#[trigger] formats[i]).is_preferred() {
        Some(
            SurfaceFormat {
                format: FORMAT_B8G8R8A8_SRGB,
                color_space: COLOR_SPACE_SRGB_NONLINEAR,
            },
        )
    } else if formats.len() > 0 {
        Some(formats[0])
    } else {
        None
    }
}

/// Picks the surface format: the preferred one if the surface offers it, else
/// the first one that it offers. A surface that offers none cannot be used.
pub fn select_surface_format(formats: &Vec<SurfaceFormat>) -> (selected: Result<
    SurfaceFormat,
    WindowRenderTargetBindingError,
>)
    ensures
        match selected_surface_format(formats@) {
            Some(format) => selected == Ok::<SurfaceFormat, WindowRenderTargetBindingError>(format),
            None => selected == Err::<SurfaceFormat, WindowRenderTargetBindingError>(
                WindowRenderTargetBindingError::NoSurfaceFormats,
            ),
        },
{
    let count = formats.len();
    let mut i: usize = 0;
    while i < count
        invariant
            i <= count,
            count == formats@.len(),
            forall|k: int| 0 <= k < i ==> !(#[trigger] formats@[k]).is_preferred(),
        decreases count - i,
    {
        let candidate = formats[i];
        if candidate.format == FORMAT_B8G8R8A8_SRGB && candidate.color_space
            == COLOR_SPACE_SRGB_NONLINEAR {
            assert(formats@[i as int].is_preferred());
            return Ok(candidate);
        }
        i += 1;
    }
    if count > 0 {
        Ok(formats[0])
    } else {
        Err(WindowRenderTargetBindingError::NoSurfaceFormats)
    }
}

/// The present mode that the options ask for: without tearing and without a
/// limit on the frame rate the mailbox, without tearing and with a limit the
/// queue, and where tearing is accepted the immediate mode.
pub open spec fn wanted_present_mode(prevent_tearing: bool, limit_frame_rate: bool) -> i32 {
    if prevent_tearing && !limit_frame_rate {
        PRESENT_MODE_MAILBOX
    } else if prevent_tearing && limit_frame_rate {
        PRESENT_MODE_FIFO
    } else {
        PRESENT_MODE_IMMEDIATE
    }
}

/// Picks the present mode: the one that the options ask for if the surface
/// offers it, else the queue, which every surface offers.
pub fn select_present_mode(
    present_modes: &Vec<i32>,
    prevent_tearing: bool,
    limit_frame_rate: bool,
) -> (selected: i32)
    ensures
        selected == (if present_modes@.contains(
            wanted_present_mode(prevent_tearing, limit_frame_rate),
        ) {
            wanted_present_mode(prevent_tearing, limit_frame_rate)
        } else {
            PRESENT_MODE_FIFO
        }),
{
    let wanted = if prevent_tearing && !limit_frame_rate {
        PRESENT_MODE_MAILBOX
    } else if prevent_tearing && limit_frame_rate {
        PRESENT_MODE_FIFO
    } else {
        PRESENT_MODE_IMMEDIATE
    };
    let count = present_modes.len();
    let mut i: usize = 0;
    while i < count
        invariant
            i <= count,
            count == present_modes@.len(),
            wanted == wanted_present_mode(prevent_tearing, limit_frame_rate),
            forall|k: int| 0 <= k < i ==> present_modes@[k] != wanted,
        decreases count - i,
    {
        if present_modes[i] == wanted {
            assert(present_modes@.contains(wanted));
            return wanted;
        }
        i += 1;
    }
    PRESENT_MODE_FIFO
}

/// Number of frames in flight: what the options prefer, but at least one.
pub fn frames_in_flight(preferred_frames_in_flight: u32) -> (frames: u32)
    ensures
        frames == (if preferred_frames_in_flight >= 1 {
            preferred_frames_in_flight
        } else {
            1
        }),
{
    if preferred_frames_in_flight >= 1 {
        preferred_frames_in_flight
    } else {
        1
    }
}

} // verus!
