//! Error classification for the renderer.

use vstd::prelude::*;

verus! {

/// Everything that can go wrong while creating the renderer or driving a
/// frame.  Fatal initialization errors mean no device satisfied the
/// requirements; unexpected device errors are unrecoverable driver or device
/// states reported by a GPU call and carry the raw result code.
#[derive(Clone, Copy, Debug, PartialEq, Eq, Structural)]
pub enum RenderError {
    /// No physical device satisfied every suitability requirement.
    NoSuitableGpu,
    /// A candidate device lacks a graphics or a presentation queue family.
    MissingQueueFamily,
    /// A candidate device lacks a required device extension.
    MissingRequiredExtension,
    /// A candidate device reports no surface formats or no present modes.
    InsufficientSwapchainSupport,
    /// A candidate device does not support sampler anisotropy.
    MissingDeviceFeature,
    /// No memory type matches both the resource's requirements and the
    /// requested property flags.
    NoSuitableMemoryType,
    /// A startup asset (texture or mesh) is malformed; fatal at creation
    /// time only, never retried.
    InvalidAsset,
    /// A GPU call failed in a way the renderer does not recover from; the
    /// field holds the driver's result code.
    DeviceError(i32),
}

impl RenderError {
    /// True for the errors that abort `create`: no device satisfies the
    /// requirements, so no partial application is returned.
    pub fn is_fatal_initialization(&self) -> (r: bool)
        ensures
            r == (self is NoSuitableGpu || self is MissingQueueFamily
                || self is MissingRequiredExtension || self is InsufficientSwapchainSupport
                || self is MissingDeviceFeature || self is NoSuitableMemoryType
                || self is InvalidAsset),
    {
        match self {
            RenderError::NoSuitableGpu => true,
            RenderError::MissingQueueFamily => true,
            RenderError::MissingRequiredExtension => true,
            RenderError::InsufficientSwapchainSupport => true,
            RenderError::MissingDeviceFeature => true,
            RenderError::NoSuitableMemoryType => true,
            RenderError::InvalidAsset => true,
            RenderError::DeviceError(_) => false,
        }
    }

    /// A short human-readable name for the error.
    pub fn describe(&self) -> (r: String)
        ensures
            self is NoSuitableGpu ==> r@ == "no suitable GPU"@,
            self is NoSuitableMemoryType ==> r@ == "no suitable memory type"@,
    {
        match self {
            RenderError::NoSuitableGpu => "no suitable GPU".to_string(),
            RenderError::MissingQueueFamily => "missing required queue family".to_string(),
            RenderError::MissingRequiredExtension => "missing required device extension".to_string(),
            RenderError::InsufficientSwapchainSupport => "insufficient swapchain support".to_string(),
            RenderError::MissingDeviceFeature => "missing required device feature".to_string(),
            RenderError::NoSuitableMemoryType => "no suitable memory type".to_string(),
            RenderError::InvalidAsset => "malformed startup asset".to_string(),
            RenderError::DeviceError(_) => "device error".to_string(),
        }
    }
}

} // verus!
