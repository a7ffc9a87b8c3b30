//! The values that an import is described in.

use vstd::prelude::*;

use crate::vulkan::flags::{
    BufferUsageFlags, ImageUsageFlags, PixelFormat, BUFFER_USAGE_TRANSFER_SRC,
    BUFFER_USAGE_UNIFORM_TEXEL_BUFFER, FORMAT_B8G8R8A8_UNORM, FORMAT_G8_B8R8_2PLANE_420_UNORM,
    FORMAT_R32_UINT, FORMAT_R8G8B8A8_UNORM, FORMAT_R8G8_UNORM, FORMAT_R8_UNORM,
    IMAGE_USAGE_COLOR_ATTACHMENT, IMAGE_USAGE_SAMPLED, IMAGE_USAGE_STORAGE,
    IMAGE_USAGE_TRANSFER_DST, IMAGE_USAGE_TRANSFER_SRC,
};

verus! {

/// The code of the linear DRM modifier.
pub const DRM_FORMAT_MOD_LINEAR: u64 = 0;

pub const IMPORTED_RGBA_FORMAT: PixelFormat = FORMAT_R8G8B8A8_UNORM;

pub const IMPORTED_SCANOUT_BGRA_FORMAT: PixelFormat = FORMAT_B8G8R8A8_UNORM;

pub const IMPORTED_NV12_FORMAT: PixelFormat = FORMAT_G8_B8R8_2PLANE_420_UNORM;

pub const DIRECT_PACKED_USAGE: ImageUsageFlags = IMAGE_USAGE_SAMPLED | IMAGE_USAGE_COLOR_ATTACHMENT
    | IMAGE_USAGE_TRANSFER_SRC | IMAGE_USAGE_TRANSFER_DST;

pub const DIRECT_NV12_USAGE: ImageUsageFlags = IMAGE_USAGE_SAMPLED;

/// A renderer that wraps a texture may ask for both transfer bits even where it only samples. The
/// output images are the importer's own, so that the bits say nothing about the producer's memory.
pub const STAGED_NV12_OUTPUT_USAGE: ImageUsageFlags = IMAGE_USAGE_SAMPLED | IMAGE_USAGE_STORAGE
    | IMAGE_USAGE_TRANSFER_SRC | IMAGE_USAGE_TRANSFER_DST;

pub const TRANSFER_NV12_OUTPUT_USAGE: ImageUsageFlags = IMAGE_USAGE_SAMPLED
    | IMAGE_USAGE_TRANSFER_SRC | IMAGE_USAGE_TRANSFER_DST;

pub const STAGED_NV12_SOURCE_USAGE: BufferUsageFlags = BUFFER_USAGE_UNIFORM_TEXEL_BUFFER;

pub const TRANSFER_NV12_SOURCE_USAGE: BufferUsageFlags = BUFFER_USAGE_TRANSFER_SRC;

pub const STAGED_NV12_SOURCE_TEXEL_FORMAT: PixelFormat = FORMAT_R32_UINT;

pub const STAGED_NV12_LUMA_FORMAT: PixelFormat = FORMAT_R8_UNORM;

pub const STAGED_NV12_CHROMA_FORMAT: PixelFormat = FORMAT_R8G8_UNORM;

pub const STAGED_PACKED_SOURCE_USAGE: BufferUsageFlags = BUFFER_USAGE_UNIFORM_TEXEL_BUFFER;

pub const STAGED_PACKED_SOURCE_TEXEL_FORMAT: PixelFormat = FORMAT_R32_UINT;

pub const STAGED_PACKED_STORAGE_VIEW_FORMAT: PixelFormat = FORMAT_R32_UINT;

pub const STAGED_PACKED_OUTPUT_USAGE: ImageUsageFlags = STAGED_NV12_OUTPUT_USAGE;

/// Byte order of a packed image.
#[derive(Clone, Copy, Debug, PartialEq, Eq, Hash, Structural)]
pub enum PackedImageFormat {
    Rgba8888,
    Bgra8888,
}

/// How a packed image reaches the renderer.
#[derive(Clone, Copy, Debug, PartialEq, Eq, Hash, Structural)]
pub enum PackedImageImportStrategy {
    /// The producer's allocation is sampled as an image.
    DirectSampledImage,
    /// Linear pixels are read as a uniform texel buffer and copied by compute into an optimal BGRA
    /// image.
    LinearBufferToOptimalBgra,
}

impl PackedImageFormat {
    /// The Vulkan format that `vk_format` returns.
    pub open spec fn format_code(self) -> PixelFormat {
        match self {
            PackedImageFormat::Rgba8888 => IMPORTED_RGBA_FORMAT,
            PackedImageFormat::Bgra8888 => IMPORTED_SCANOUT_BGRA_FORMAT,
        }
    }

    /// The Vulkan format with the same byte order.
    pub fn vk_format(self) -> (format: PixelFormat)
        ensures
            format == self.format_code(),
    {
        match self {
            PackedImageFormat::Rgba8888 => IMPORTED_RGBA_FORMAT,
            PackedImageFormat::Bgra8888 => IMPORTED_SCANOUT_BGRA_FORMAT,
        }
    }

    /// The name that `label` returns.
    pub open spec fn label_text(self) -> Seq<char> {
        match self {
            PackedImageFormat::Rgba8888 => "R8G8B8A8"@,
            PackedImageFormat::Bgra8888 => "B8G8R8A8"@,
        }
    }

    /// The name of the format in diagnostics.
    pub fn label(self) -> (label: &'static str)
        ensures
            label@ == self.label_text(),
    {
        match self {
            PackedImageFormat::Rgba8888 => "R8G8B8A8",
            PackedImageFormat::Bgra8888 => "B8G8R8A8",
        }
    }
}

/// How many sources and outputs an importer keeps.
#[derive(Clone, Copy, Debug, PartialEq, Eq, Structural)]
pub struct VulkanImportPoolLimits {
    pub nv12_source_cache_entries: usize,
    pub nv12_output_slots: usize,
    pub packed_source_cache_entries: usize,
    pub packed_output_slots: usize,
}

impl Default for VulkanImportPoolLimits {
    fn default() -> (limits: VulkanImportPoolLimits)
        ensures
            limits.nv12_source_cache_entries == 32,
            limits.nv12_output_slots == 8,
            limits.packed_source_cache_entries == 32,
            limits.packed_output_slots == 8,
    {
        VulkanImportPoolLimits {
            nv12_source_cache_entries: 32,
            nv12_output_slots: 8,
            packed_source_cache_entries: 32,
            packed_output_slots: 8,
        }
    }
}

/// One plane of an imported image.
#[derive(Clone, Copy, Debug, PartialEq, Eq, Hash, Structural)]
pub struct ImportedPlane {
    pub offset: u64,
    pub pitch: u32,
}

/// A request to import a packed image.
#[derive(Clone, Copy, Debug, PartialEq, Eq, Hash)]
pub struct PackedImageImport {
    pub stream_incarnation: u64,
    pub dimensions: (u32, u32),
    pub source_fd: i32,
    pub source_size: u64,
    pub modifier: u64,
    pub plane: ImportedPlane,
    pub format: PackedImageFormat,
}

/// One plane of a biplanar frame, with the object that it lies in.
#[derive(Clone, Copy, Debug, PartialEq, Eq, Hash, Structural)]
pub struct Nv12Plane {
    pub object_index: u32,
    pub offset: u64,
    pub pitch: u32,
}

/// A biplanar frame whose planes share one object.
#[derive(Clone, Copy, Debug, PartialEq, Eq, Hash)]
pub struct Nv12SharedObjectLayout {
    pub modifier: u64,
    pub object_size: u64,
    pub planes: [ImportedPlane; 2],
}

/// Everything by which one biplanar frame is told from another.
#[derive(Clone, Copy, Debug, PartialEq, Eq, Hash)]
pub struct Nv12FrameTopology {
    pub dimensions: (u32, u32),
    pub object_count: u32,
    pub object_size: u64,
    pub plane_count: u32,
    pub planes: [Nv12Plane; 2],
    pub modifier: u64,
}

impl Nv12SharedObjectLayout {
    /// The topology that `frame_topology` returns.
    pub open spec fn topology(self, dimensions: (u32, u32)) -> Nv12FrameTopology {
        Nv12FrameTopology {
            dimensions,
            object_count: 1,
            object_size: self.object_size,
            plane_count: 2,
            planes: [
                Nv12Plane {
                    object_index: 0,
                    offset: self.planes[0].offset,
                    pitch: self.planes[0].pitch,
                },
                Nv12Plane {
                    object_index: 0,
                    offset: self.planes[1].offset,
                    pitch: self.planes[1].pitch,
                },
            ],
            modifier: self.modifier,
        }
    }

    /// The topology of a frame with this layout.
    pub fn frame_topology(self, dimensions: (u32, u32)) -> (topology: Nv12FrameTopology)
        ensures
            topology == self.topology(dimensions),
    {
        Nv12FrameTopology {
            dimensions,
            object_count: 1,
            object_size: self.object_size,
            plane_count: 2,
            planes: [
                Nv12Plane {
                    object_index: 0,
                    offset: self.planes[0].offset,
                    pitch: self.planes[0].pitch,
                },
                Nv12Plane {
                    object_index: 0,
                    offset: self.planes[1].offset,
                    pitch: self.planes[1].pitch,
                },
            ],
            modifier: self.modifier,
        }
    }
}

impl Nv12FrameTopology {
    /// Tests that nothing tells the two topologies apart.
    pub fn same_as(&self, other: &Nv12FrameTopology) -> (same: bool)
        ensures
            same == (*self == *other),
    {
        let same = self.dimensions.0 == other.dimensions.0 && self.dimensions.1
            == other.dimensions.1 && self.object_count == other.object_count && self.object_size
            == other.object_size && self.plane_count == other.plane_count && self.planes[0]
            == other.planes[0] && self.planes[1] == other.planes[1] && self.modifier
            == other.modifier;
        assert(same ==> self.planes =~= other.planes);
        same
    }
}

/// How a biplanar frame reaches the renderer.
#[derive(Clone, Copy, Debug, PartialEq, Eq, Hash, Structural)]
pub enum Nv12ImportStrategy {
    /// The producer's allocation is sampled as a multi-planar image.
    DirectSampledImage,
    /// A transfer-source buffer is copied plane for plane into one optimal multi-planar image.
    LinearBufferToOptimalNv12,
    /// A transfer-source buffer is copied into separate optimal luma and chroma images.
    LinearBufferToOptimalYuvPlanes,
    /// A uniform texel buffer is copied by compute into separate optimal luma and chroma images.
    LinearBufferToYuvPlanes,
    /// A uniform texel buffer is converted by compute into an optimal RGBA image.
    LinearBufferToRgba,
}

impl Nv12ImportStrategy {
    /// The frame is copied with transfer commands.
    pub open spec fn is_transfer(self) -> bool {
        self is LinearBufferToOptimalNv12 || self is LinearBufferToOptimalYuvPlanes
    }

    /// The frame is copied by a compute shader.
    pub open spec fn is_compute(self) -> bool {
        self is LinearBufferToYuvPlanes || self is LinearBufferToRgba
    }
}

/// Which staging of linear biplanar frames an importer looks for.
#[derive(Clone, Copy, Debug, PartialEq, Eq, Structural)]
pub enum Nv12StagingPreference {
    /// A transfer path, then compute planes, then compute RGBA.
    PreferPlanar,
    /// Compute planes and nothing else.
    RequirePlanar,
    /// Compute RGBA and nothing else.
    RequireRgba,
}

impl Default for Nv12StagingPreference {
    fn default() -> (preference: Nv12StagingPreference)
        ensures
            preference is PreferPlanar,
    {
        Nv12StagingPreference::PreferPlanar
    }
}

/// How the memory of a biplanar frame is bound.
#[derive(Clone, Copy, Debug, PartialEq, Eq, Hash, Structural)]
pub enum Nv12AllocationBindingRecipe {
    DirectSharedImage,
    LinearBufferToOptimalNv12,
    LinearBufferToOptimalYuvPlanes,
    LinearBufferToYuvPlanes,
    LinearBufferToRgba,
}

/// The extent of an image.
#[derive(Clone, Copy, Debug, PartialEq, Eq, Structural)]
pub struct Extent3D {
    pub width: u32,
    pub height: u32,
    pub depth: u32,
}

/// What the renderer samples.
#[derive(Clone, Copy, Debug, PartialEq, Eq, Structural)]
pub enum SampledImageFormat {
    Rgba8888,
    Bgra8888,
    Nv12,
    Nv12Planes,
}

/// What a compute shader writes.
#[derive(Clone, Copy, Debug, PartialEq, Eq, Structural)]
pub enum Nv12ComputeOutput {
    Rgba,
    YuvPlanes,
}

} // verus!
