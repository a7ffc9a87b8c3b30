//! Vulkan bit masks, enumerations and handles, as the numbers that the Vulkan API gives them.

use vstd::prelude::*;

verus! {

pub type FormatFeatureFlags = u32;

pub type ExternalMemoryFeatureFlags = u32;

pub type ExternalMemoryHandleTypeFlags = u32;

pub type ExternalSemaphoreFeatureFlags = u32;

pub type ExternalSemaphoreHandleTypeFlags = u32;

pub type ImageUsageFlags = u32;

pub type ImageCreateFlags = u32;

pub type ImageAspectFlags = u32;

pub type BufferUsageFlags = u32;

pub type QueueFlags = u32;

pub type AccessFlags = u32;

pub type PipelineStageFlags = u32;

/// A pixel or texel format.
pub type PixelFormat = i32;

pub type ImageTiling = i32;

pub type ImageLayout = i32;

pub type DescriptorType = i32;

/// The raw value of a Vulkan handle.
pub type RawHandle = u64;

pub const FORMAT_FEATURE_SAMPLED_IMAGE: FormatFeatureFlags = 0x1;

pub const FORMAT_FEATURE_STORAGE_IMAGE: FormatFeatureFlags = 0x2;

pub const FORMAT_FEATURE_UNIFORM_TEXEL_BUFFER: FormatFeatureFlags = 0x8;

pub const FORMAT_FEATURE_COLOR_ATTACHMENT: FormatFeatureFlags = 0x80;

pub const FORMAT_FEATURE_SAMPLED_IMAGE_FILTER_LINEAR: FormatFeatureFlags = 0x1000;

pub const FORMAT_FEATURE_TRANSFER_SRC: FormatFeatureFlags = 0x4000;

pub const FORMAT_FEATURE_TRANSFER_DST: FormatFeatureFlags = 0x8000;

pub const FORMAT_FEATURE_MIDPOINT_CHROMA_SAMPLES: FormatFeatureFlags = 0x2_0000;

pub const FORMAT_FEATURE_YCBCR_LINEAR_FILTER: FormatFeatureFlags = 0x4_0000;

pub const FORMAT_FEATURE_COSITED_CHROMA_SAMPLES: FormatFeatureFlags = 0x80_0000;

pub const EXTERNAL_MEMORY_FEATURE_IMPORTABLE: ExternalMemoryFeatureFlags = 0x4;

pub const EXTERNAL_MEMORY_HANDLE_TYPE_DMA_BUF: ExternalMemoryHandleTypeFlags = 0x200;

pub const EXTERNAL_SEMAPHORE_FEATURE_IMPORTABLE: ExternalSemaphoreFeatureFlags = 0x2;

pub const EXTERNAL_SEMAPHORE_HANDLE_TYPE_SYNC_FD: ExternalSemaphoreHandleTypeFlags = 0x10;

pub const IMAGE_USAGE_TRANSFER_SRC: ImageUsageFlags = 0x1;

pub const IMAGE_USAGE_TRANSFER_DST: ImageUsageFlags = 0x2;

pub const IMAGE_USAGE_SAMPLED: ImageUsageFlags = 0x4;

pub const IMAGE_USAGE_STORAGE: ImageUsageFlags = 0x8;

pub const IMAGE_USAGE_COLOR_ATTACHMENT: ImageUsageFlags = 0x10;

pub const IMAGE_CREATE_NONE: ImageCreateFlags = 0;

pub const IMAGE_CREATE_MUTABLE_FORMAT: ImageCreateFlags = 0x8;

pub const IMAGE_ASPECT_COLOR: ImageAspectFlags = 0x1;

pub const IMAGE_ASPECT_PLANE_0: ImageAspectFlags = 0x10;

pub const IMAGE_ASPECT_PLANE_1: ImageAspectFlags = 0x20;

pub const BUFFER_USAGE_TRANSFER_SRC: BufferUsageFlags = 0x1;

pub const BUFFER_USAGE_UNIFORM_TEXEL_BUFFER: BufferUsageFlags = 0x4;

pub const QUEUE_GRAPHICS: QueueFlags = 0x1;

pub const QUEUE_COMPUTE: QueueFlags = 0x2;

pub const QUEUE_TRANSFER: QueueFlags = 0x4;

pub const ACCESS_NONE: AccessFlags = 0;

pub const ACCESS_SHADER_READ: AccessFlags = 0x20;

pub const ACCESS_SHADER_WRITE: AccessFlags = 0x40;

pub const ACCESS_TRANSFER_READ: AccessFlags = 0x800;

pub const ACCESS_TRANSFER_WRITE: AccessFlags = 0x1000;

pub const ACCESS_MEMORY_READ: AccessFlags = 0x8000;

pub const STAGE_TOP_OF_PIPE: PipelineStageFlags = 0x1;

pub const STAGE_FRAGMENT_SHADER: PipelineStageFlags = 0x80;

pub const STAGE_COMPUTE_SHADER: PipelineStageFlags = 0x800;

pub const STAGE_TRANSFER: PipelineStageFlags = 0x1000;

pub const STAGE_BOTTOM_OF_PIPE: PipelineStageFlags = 0x2000;

pub const STAGE_ALL_COMMANDS: PipelineStageFlags = 0x1_0000;

pub const LAYOUT_UNDEFINED: ImageLayout = 0;

pub const LAYOUT_GENERAL: ImageLayout = 1;

pub const LAYOUT_SHADER_READ_ONLY_OPTIMAL: ImageLayout = 5;

pub const LAYOUT_TRANSFER_DST_OPTIMAL: ImageLayout = 7;

pub const TILING_OPTIMAL: ImageTiling = 0;

pub const TILING_DRM_FORMAT_MODIFIER: ImageTiling = 1_000_158_000;

pub const DESCRIPTOR_TYPE_STORAGE_IMAGE: DescriptorType = 3;

pub const DESCRIPTOR_TYPE_UNIFORM_TEXEL_BUFFER: DescriptorType = 4;

/// The queue family index that leaves ownership alone.
pub const QUEUE_FAMILY_IGNORED: u32 = 0xffff_ffff;

/// The owner of DMA-BUF memory outside this logical device. The core external family is used;
/// producer and consumer must use the same ownership identity.
pub const DMA_BUF_EXTERNAL_QUEUE_FAMILY: u32 = 0xffff_fffe;

pub const FORMAT_R8_UNORM: PixelFormat = 9;

pub const FORMAT_R8G8_UNORM: PixelFormat = 16;

pub const FORMAT_R8G8B8A8_UNORM: PixelFormat = 37;

pub const FORMAT_B8G8R8A8_UNORM: PixelFormat = 44;

pub const FORMAT_R32_UINT: PixelFormat = 98;

pub const FORMAT_G8_B8R8_2PLANE_420_UNORM: PixelFormat = 1_000_156_003;

/// Every bit of `required` is set in `available`.
pub open spec fn has_all(available: u32, required: u32) -> bool {
    available & required == required
}

/// Some bit of `wanted` is set in `available`.
pub open spec fn has_any(available: u32, wanted: u32) -> bool {
    available & wanted != 0
}

/// Tests that every bit of `required` is set in `available`.
pub fn contains(available: u32, required: u32) -> (contained: bool)
    ensures
        contained == has_all(available, required),
{
    available & required == required
}

/// Tests that some bit of `wanted` is set in `available`.
pub fn intersects(available: u32, wanted: u32) -> (intersecting: bool)
    ensures
        intersecting == has_any(available, wanted),
{
    available & wanted != 0
}

} // verus!
