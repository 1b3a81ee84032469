//! Vulkan error codes and their classification.
use vstd::prelude::*;

verus! {

/// Raw `VkResult` codes of the Vulkan specification that are classified.
pub const ERROR_OUT_OF_HOST_MEMORY: i32 = -1;
pub const ERROR_OUT_OF_DEVICE_MEMORY: i32 = -2;
pub const ERROR_INITIALIZATION_FAILED: i32 = -3;
pub const ERROR_DEVICE_LOST: i32 = -4;
pub const ERROR_MEMORY_MAP_FAILED: i32 = -5;
pub const ERROR_LAYER_NOT_PRESENT: i32 = -6;
pub const ERROR_EXTENSION_NOT_PRESENT: i32 = -7;
pub const ERROR_FEATURE_NOT_PRESENT: i32 = -8;
pub const ERROR_INCOMPATIBLE_DRIVER: i32 = -9;
pub const ERROR_TOO_MANY_OBJECTS: i32 = -10;
pub const ERROR_FORMAT_NOT_SUPPORTED: i32 = -11;
pub const ERROR_FRAGMENTED_POOL: i32 = -12;
pub const ERROR_UNKNOWN: i32 = -13;
pub const ERROR_SURFACE_LOST_KHR: i32 = -1_000_000_000;
pub const ERROR_NATIVE_WINDOW_IN_USE_KHR: i32 = -1_000_000_001;
pub const ERROR_OUT_OF_DATE_KHR: i32 = -1_000_001_004;
pub const ERROR_INCOMPATIBLE_DISPLAY_KHR: i32 = -1_000_003_001;
pub const ERROR_INVALID_SHADER_NV: i32 = -1_000_012_000;
/// Also the value of `ERROR_OUT_OF_POOL_MEMORY_KHR`.
pub const ERROR_OUT_OF_POOL_MEMORY: i32 = -1_000_069_000;
/// Also the value of `ERROR_INVALID_EXTERNAL_HANDLE_KHR`.
pub const ERROR_INVALID_EXTERNAL_HANDLE: i32 = -1_000_072_003;
/// Also the value of `ERROR_FRAGMENTATION_EXT`.
pub const ERROR_FRAGMENTATION: i32 = -1_000_161_000;
/// Also the value of `ERROR_INVALID_DEVICE_ADDRESS_EXT` and of
/// `ERROR_INVALID_OPAQUE_CAPTURE_ADDRESS_KHR`.
pub const ERROR_INVALID_OPAQUE_CAPTURE_ADDRESS: i32 = -1_000_257_000;
pub const ERROR_FULL_SCREEN_EXCLUSIVE_MODE_LOST_EXT: i32 = -1_000_255_000;

/// A Vulkan error, classified from the raw `VkResult` code the driver returned.
#[derive(Clone, Copy, Debug, PartialEq, Eq, Structural)]
pub enum VulkanError {
    /// Host memory allocation has failed
    OutOfHostMemory,
    /// Device memory allocation has failed
    OutOfDeviceMemory,
    /// Initialization of an object could not be completed
    InitializationFailed,
    /// The logical or physical device was lost
    DeviceLost,
    /// Mapping of memory failed
    MemoryMapFailed,
    /// A requested layer is not present or could not be loaded
    LayerNotPresent,
    /// A requested extension is not supported
    ExtensionNotPresent,
    /// A requested feature is not supported
    FeatureNotPresent,
    /// The requested version of Vulkan is not supported by the driver
    IncompatibleDriver,
    /// Too many objects of the type have already been created
    TooManyObjects,
    /// A requested format is not supported on this device
    FormatNotSupported,
    /// A pool allocation has failed due to fragmentation of the pool's memory
    FragmentedPool,
    /// A surface is no longer available
    SurfaceLost,
    /// The requested window is already in use by Vulkan or another API
    NativeWindowInUse,
    /// A surface has changed in a way that it is no longer compatible with the swapchain
    OutOfDateSurface,
    /// The display used by the swapchain is incompatible
    IncompatibleDisplay,
    /// One or more shaders failed to compile or link
    InvalidShader,
    /// A pool memory allocation has failed
    OutOfPoolMemory,
    /// An external handle is not a valid handle of the specified type
    InvalidExternalHandle,
    /// A descriptor pool creation has failed due to fragmentation
    Fragmentation,
    /// A buffer creation failed because the requested address is not available
    InvalidDeviceAddress,
    /// A buffer creation or memory allocation failed because the requested address is not available
    InvalidCaptureAddress,
    /// An operation on a swapchain with exclusive full-screen access lost that access
    LostFullscreenAccess,
    /// An unknown error has occurred
    Unknown,
    /// Any other Vulkan result, by its raw code
    Other(i32),
}

/// The classification of a raw `VkResult` code, tested in the order of the
/// error list (so the code shared by the device-address and the
/// capture-address errors is classified as a device-address error).
pub open spec fn classify_result(code: i32) -> VulkanError {
    if code == ERROR_OUT_OF_HOST_MEMORY { VulkanError::OutOfHostMemory }
    else if code == ERROR_OUT_OF_DEVICE_MEMORY { VulkanError::OutOfDeviceMemory }
    else if code == ERROR_INITIALIZATION_FAILED { VulkanError::InitializationFailed }
    else if code == ERROR_DEVICE_LOST { VulkanError::DeviceLost }
    else if code == ERROR_MEMORY_MAP_FAILED { VulkanError::MemoryMapFailed }
    else if code == ERROR_LAYER_NOT_PRESENT { VulkanError::LayerNotPresent }
    else if code == ERROR_EXTENSION_NOT_PRESENT { VulkanError::ExtensionNotPresent }
    else if code == ERROR_FEATURE_NOT_PRESENT { VulkanError::FeatureNotPresent }
    else if code == ERROR_INCOMPATIBLE_DRIVER { VulkanError::IncompatibleDriver }
    else if code == ERROR_TOO_MANY_OBJECTS { VulkanError::TooManyObjects }
    else if code == ERROR_FORMAT_NOT_SUPPORTED { VulkanError::FormatNotSupported }
    else if code == ERROR_FRAGMENTED_POOL { VulkanError::FragmentedPool }
    else if code == ERROR_SURFACE_LOST_KHR { VulkanError::SurfaceLost }
    else if code == ERROR_NATIVE_WINDOW_IN_USE_KHR { VulkanError::NativeWindowInUse }
    else if code == ERROR_OUT_OF_DATE_KHR { VulkanError::OutOfDateSurface }
    else if code == ERROR_INCOMPATIBLE_DISPLAY_KHR { VulkanError::IncompatibleDisplay }
    else if code == ERROR_INVALID_SHADER_NV { VulkanError::InvalidShader }
    else if code == ERROR_OUT_OF_POOL_MEMORY { VulkanError::OutOfPoolMemory }
    else if code == ERROR_INVALID_EXTERNAL_HANDLE { VulkanError::InvalidExternalHandle }
    else if code == ERROR_FRAGMENTATION { VulkanError::Fragmentation }
    else if code == ERROR_INVALID_OPAQUE_CAPTURE_ADDRESS { VulkanError::InvalidDeviceAddress }
    else if code == ERROR_FULL_SCREEN_EXCLUSIVE_MODE_LOST_EXT { VulkanError::LostFullscreenAccess }
    else if code == ERROR_UNKNOWN { VulkanError::Unknown }
    else { VulkanError::Other(code) }
}

impl VulkanError {
    /// Classifies a raw `VkResult` code returned by the driver.
    pub fn from_raw(code: i32) -> (e: VulkanError)
        ensures
            e == classify_result(code),
    {
        if code == ERROR_OUT_OF_HOST_MEMORY {
            VulkanError::OutOfHostMemory
        } else if code == ERROR_OUT_OF_DEVICE_MEMORY {
            VulkanError::OutOfDeviceMemory
        } else if code == ERROR_INITIALIZATION_FAILED {
            VulkanError::InitializationFailed
        } else if code == ERROR_DEVICE_LOST {
            VulkanError::DeviceLost
        } else if code == ERROR_MEMORY_MAP_FAILED {
            VulkanError::MemoryMapFailed
        } else if code == ERROR_LAYER_NOT_PRESENT {
            VulkanError::LayerNotPresent
        } else if code == ERROR_EXTENSION_NOT_PRESENT {
            VulkanError::ExtensionNotPresent
        } else if code == ERROR_FEATURE_NOT_PRESENT {
            VulkanError::FeatureNotPresent
        } else if code == ERROR_INCOMPATIBLE_DRIVER {
            VulkanError::IncompatibleDriver
        } else if code == ERROR_TOO_MANY_OBJECTS {
            VulkanError::TooManyObjects
        } else if code == ERROR_FORMAT_NOT_SUPPORTED {
            VulkanError::FormatNotSupported
        } else if code == ERROR_FRAGMENTED_POOL {
            VulkanError::FragmentedPool
        } else if code == ERROR_SURFACE_LOST_KHR {
            VulkanError::SurfaceLost
        } else if code == ERROR_NATIVE_WINDOW_IN_USE_KHR {
            VulkanError::NativeWindowInUse
        } else if code == ERROR_OUT_OF_DATE_KHR {
            VulkanError::OutOfDateSurface
        } else if code == ERROR_INCOMPATIBLE_DISPLAY_KHR {
            VulkanError::IncompatibleDisplay
        } else if code == ERROR_INVALID_SHADER_NV {
            VulkanError::InvalidShader
        } else if code == ERROR_OUT_OF_POOL_MEMORY {
            VulkanError::OutOfPoolMemory
        } else if code == ERROR_INVALID_EXTERNAL_HANDLE {
            VulkanError::InvalidExternalHandle
        } else if code == ERROR_FRAGMENTATION {
            VulkanError::Fragmentation
        } else if code == ERROR_INVALID_OPAQUE_CAPTURE_ADDRESS {
            VulkanError::InvalidDeviceAddress
        } else if code == ERROR_FULL_SCREEN_EXCLUSIVE_MODE_LOST_EXT {
            VulkanError::LostFullscreenAccess
        } else if code == ERROR_UNKNOWN {
            VulkanError::Unknown
        } else {
            VulkanError::Other(code)
        }
    }
}

} // verus!
