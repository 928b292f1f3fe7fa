//! The errors of the setup logic.

use vstd::prelude::*;

verus! {

/// A raw `VkResult` error code returned by a driver call.
#[derive(Clone, Copy, Debug, PartialEq, Eq, Structural)]
pub struct VulkanError(pub i32);

/// What a physical device lacks.
#[derive(Clone, Copy, Debug, PartialEq, Eq, Structural)]
pub enum Unsuitability {
    NotDiscreteGpu,
    NoGeometryShader,
    MissingQueueFamilies,
    MissingDeviceExtensions,
    InsufficientSwapchainSupport,
}

/// The reason why a physical device cannot be used.
#[derive(Clone, Copy, Debug, PartialEq, Eq, Structural)]
pub struct SuitabilityError(pub Unsuitability);

impl SuitabilityError {
    /// The text that the error carries; it is displayed as `Missing {text}.`.
    pub fn message(&self) -> (text: &'static str)
        ensures
            self.0 == Unsuitability::NotDiscreteGpu ==> text@ == "Only discrete GPUs are supported!"@,
            self.0 == Unsuitability::NoGeometryShader ==> text@ == "Missing geometry shader support."@,
            self.0 == Unsuitability::MissingQueueFamilies ==> text@ == "Missing required queue families."@,
            self.0 == Unsuitability::MissingDeviceExtensions ==> text@ == "Mission required device extensions."@,
            self.0 == Unsuitability::InsufficientSwapchainSupport ==> text@ == "Insufficient swapchain support."@,
    {
        match self.0 {
            Unsuitability::NotDiscreteGpu => "Only discrete GPUs are supported!",
            Unsuitability::NoGeometryShader => "Missing geometry shader support.",
            Unsuitability::MissingQueueFamilies => "Missing required queue families.",
            Unsuitability::MissingDeviceExtensions => "Mission required device extensions.",
            Unsuitability::InsufficientSwapchainSupport => "Insufficient swapchain support.",
        }
    }
}

/// Every way in which setting up the renderer can fail inside this library.
#[derive(Clone, Copy, Debug, PartialEq, Eq, Structural)]
pub enum SetupError {
    /// A driver call failed with this code.
    Vulkan(VulkanError),
    /// A physical device was found unsuitable.
    Unsuitable(SuitabilityError),
    /// Validation was requested but the validation layer is not available.
    ValidationLayerMissing,
    /// No physical device passed the suitability checks.
    NoSuitableDevice,
    /// Shader bytecode whose length (in bytes) is zero or not a multiple of four.
    ShaderBytecodeLength(usize),
    /// The aligned buffer for shader bytecode could not be allocated.
    ShaderBytecodeAlloc,
}

/// The error for a device that lacks `what`.
pub open spec fn unsuitable(what: Unsuitability) -> SetupError {
    SetupError::Unsuitable(SuitabilityError(what))
}

} // verus!
