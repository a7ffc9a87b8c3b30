//! DMA-BUF import into Vulkan: layout and capability rules, bounded caches, command plans and the
//! synchronization of one import from acquire to release.

pub mod cache;
pub mod capability;
pub mod color;
pub mod construction;
pub mod error;
pub mod flags;
pub mod identity;
pub mod image;
pub mod import;
pub mod inventory;
pub mod layout;
pub mod memory;
pub mod output;
pub mod pipeline;
pub mod pool;
pub mod record;
pub mod resources;
pub mod result;
pub mod submission;
pub mod sync;
pub mod transaction;
pub mod types;

pub use cache::{
    claim_idle_source, Nv12SourceCache, Nv12SourceCacheKey, PackedSourceCache,
    PackedSourceCacheKey, PackedSourceTopology, SourceLease,
};
pub use capability::{
    resolve_nv12_modifier_capability, same_nv12_capability, validate_nv12_modifier_capability,
    Nv12ModifierCapability, Nv12ResolveRequest,
};
pub use color::{map_nv12_colorimetry, Nv12Conversion, YcbcrModel, YcbcrOffset, YcbcrRange};
pub use error::VulkanImportError;
pub use flags::DMA_BUF_EXTERNAL_QUEUE_FAMILY;
pub use identity::{checked_identity, verified_dmabuf_identity, DmaBufIdentity};
pub use image::{
    AcquirePlan, DirectNv12Sampling, ImportId, ImportedDmaBufImage, StagedAcquirePlan,
    StagedNv12Planes, StagedPushConstants, StagedTransferPlan,
};
pub use import::{Nv12ImportCacheStats, PackedImportCacheStats, VulkanDmaBufImporter};
pub use inventory::{
    inventory_nv12_modifier_capabilities,
    inventory_nv12_modifier_capabilities_with_staging_preference,
    validate_bgra_scanout_import_support, validate_packed_import_support,
    validate_packed_staging_support, validate_rgba_import_support, validate_sync_fd_import,
};
pub use layout::{
    nv12_compute_source_span, nv12_transfer_source_span, validate_image_inputs,
    validate_nv12_shared_layout, validate_nv12_shared_object_topology, validate_packed_layout,
    validate_staged_layout, validate_staged_packed_layout, validate_transfer_layout,
};
pub use pipeline::{packed_shader_words, shader_words};
pub use record::{nv12_multiplanar_transfer_regions, nv12_separate_transfer_regions};
pub use resources::StagedSampledImages;
pub use sync::{
    timestamp_delta, ImportedImageSync, ImportedImageSyncError, ImportedImageSyncErrorKind,
    VulkanVideoTiming,
};
pub use types::{
    Extent3D, ImportedPlane, Nv12AllocationBindingRecipe, Nv12FrameTopology, Nv12ImportStrategy,
    Nv12Plane, Nv12SharedObjectLayout, Nv12StagingPreference, PackedImageFormat,
    PackedImageImport, PackedImageImportStrategy, SampledImageFormat, VulkanImportPoolLimits,
    DIRECT_NV12_USAGE, DIRECT_PACKED_USAGE, DRM_FORMAT_MOD_LINEAR, IMPORTED_NV12_FORMAT,
    IMPORTED_RGBA_FORMAT, IMPORTED_SCANOUT_BGRA_FORMAT, STAGED_NV12_CHROMA_FORMAT,
    STAGED_NV12_LUMA_FORMAT, STAGED_NV12_OUTPUT_USAGE, STAGED_NV12_SOURCE_TEXEL_FORMAT,
    STAGED_NV12_SOURCE_USAGE, STAGED_PACKED_OUTPUT_USAGE, STAGED_PACKED_SOURCE_TEXEL_FORMAT,
    STAGED_PACKED_SOURCE_USAGE, STAGED_PACKED_STORAGE_VIEW_FORMAT, TRANSFER_NV12_OUTPUT_USAGE,
    TRANSFER_NV12_SOURCE_USAGE,
};
