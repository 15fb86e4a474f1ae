//! Frame-rendering core of a real-time 3D renderer.
//!
//! The crate owns the decision logic of the rendering core: device and queue
//! selection, swapchain negotiation, memory-type selection, the staged-upload
//! protocol, image-layout transitions, command recording, and the per-frame
//! synchronization state machine that bounds the number of frames in flight.
//! The host environment performs the graphics-API calls themselves and feeds
//! their outcomes back into these functions as plain values.

use vstd::prelude::*;

pub mod barrier;
pub mod commands;
pub mod descriptor;
pub mod device;
pub mod frame;
pub mod pipeline;
pub mod resources;
pub mod swapchain;
pub mod vertex;

verus! {

/// Upper bound on the number of frames the CPU may submit ahead of the GPU.
pub const MAX_FRAMES_IN_FLIGHT: usize = 2;

/// The fatal error conditions of the rendering core.
///
/// Recoverable conditions (an out-of-date swapchain, a minimized window) are
/// not errors: they are handled by recreation or by skipping the tick.
#[derive(Clone, Copy, Debug, PartialEq, Eq, Structural)]
pub enum RenderError {
    /// No physical device exposes the required queues, extensions and
    /// swapchain support.
    NoSuitableDevice,
    /// A device lacks a graphics queue family or a present-capable family.
    MissingQueueFamily,
    /// A device does not support all required device extensions.
    MissingDeviceExtensions,
    /// Diagnostics were requested but the validation layer is absent.
    ValidationLayerUnavailable,
    /// A device reports no surface formats or no present modes.
    NoSwapchainSupport,
    /// No memory type satisfies a resource's requirements.
    NoSuitableMemoryType,
    /// No candidate format supports the required features.
    NoSupportedFormat,
    /// Shader byte code whose length is not a multiple of four.
    MisalignedShaderBytecode,
    /// An image-layout transition pair outside the supported table.
    UnsupportedLayoutTransition,
}

} // verus!
