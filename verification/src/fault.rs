//! What the driver can report, and which of it ends the program.

use vstd::prelude::*;

verus! {

/// Why the driver handed out no swapchain image.
#[derive(Clone, Copy, Debug, PartialEq, Eq, Structural)]
pub enum AcquireFault {
    OutOfMemory,
    DeviceLost,
    Timeout,
    SurfaceLost,
    /// The surface changed and the swapchain no longer fits it.
    OutOfDate,
}

/// Why the driver built no swapchain.
#[derive(Clone, Copy, Debug, PartialEq, Eq, Structural)]
pub enum RebuildFault {
    OutOfMemory,
    DeviceLost,
    SurfaceLost,
    SurfaceInUse,
    NativeWindowInUse,
    MissingExtension,
    OldSwapchainSurfaceMismatch,
    OldSwapchainAlreadyUsed,
    UnsupportedMinImagesCount,
    UnsupportedMaxImagesCount,
    UnsupportedFormat,
    /// The surface cannot take a swapchain of the requested size right now.
    UnsupportedDimensions,
    UnsupportedArrayLayers,
    UnsupportedUsageFlags,
    UnsupportedSurfaceTransform,
    UnsupportedCompositeAlpha,
    UnsupportedPresentMode,
}

/// Why a frame's submission did not reach the queue.
#[derive(Clone, Copy, Debug, PartialEq, Eq, Structural)]
pub enum SubmitFault {
    AccessDenied,
    OutOfMemory,
    DeviceLost,
    SurfaceLost,
    /// The surface changed and the swapchain no longer fits it.
    OutOfDate,
    Timeout,
}

/// A condition that the renderer does not recover from: the program reports
/// it and terminates.
#[derive(Clone, Copy, Debug, PartialEq, Eq, Structural)]
pub enum Fatal {
    /// The instance lists no physical device.
    NoDevice,
    /// No queue family both draws and presents to the surface.
    NoQueueFamily,
    /// The surface lists no composite alpha mode.
    NoCompositeAlpha,
    /// The surface lists no pixel format.
    NoFormat,
    /// The surface reports no size of its own.
    NoExtent,
    /// The number of framebuffers differs from the number of swapchain images.
    FramebufferMismatch,
    /// The driver named an image that the swapchain does not have.
    ImageOutOfRange,
    /// The swapchain could not be rebuilt, for another reason than its size.
    Rebuild(RebuildFault),
    /// No image could be acquired, for another reason than a stale surface.
    Acquire(AcquireFault),
    /// An event arrived that the frame loop was not waiting for.
    OutOfTurn,
}

} // verus!
