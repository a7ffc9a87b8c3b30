//! Imported images: what a frame is sampled from, and what has to be submitted for it.

use vstd::prelude::*;

use crate::probe::DmaBufProbe;
use crate::text::agrees;
use crate::vulkan::cache::{
    after_release, after_retirement, Nv12SourceCache, Nv12SourceCacheKey, PackedSourceCache,
    PackedSourceCacheKey, SourceLease,
};
use crate::vulkan::capability::Nv12ModifierCapability;
use crate::vulkan::color::{Nv12Conversion, YcbcrOffset, YcbcrRange};
use crate::vulkan::error::{imports, ImportFault, VulkanImportError};
use crate::vulkan::flags::{
    FormatFeatureFlags, ImageTiling, ImageUsageFlags, PixelFormat, RawHandle,
    TILING_DRM_FORMAT_MODIFIER, TILING_OPTIMAL,
};
use crate::vulkan::identity::{checked_identity, identity_of, probe_view};
use crate::vulkan::inventory::{
    direct_modifier_verdict, validate_bgra_scanout_import_support, DrmModifierProperties,
    ExternalModifierCapability, SCANOUT_FEATURES,
};
use crate::vulkan::layout::{image_inputs_verdict, validate_image_inputs};
use crate::vulkan::pool::{
    after_slot_release, orphan_of, Nv12OutputKey, Nv12OutputPool, OutputSlot, PackedOutputKey,
    PackedOutputPool,
};
use crate::vulkan::resources::{
    BufferAllocation, ComputePipeline, DeviceObject, ImageAllocation, Nv12SourceAllocation,
    PackedOutput, PackedSourceAllocation, StagedOutput, StagedOutputResources,
    StagedSampledImages,
};
use crate::vulkan::types::{
    ImportedPlane, Nv12ImportStrategy, Nv12SharedObjectLayout, PackedImageFormat,
    PackedImageImport, SampledImageFormat, DIRECT_NV12_USAGE, DIRECT_PACKED_USAGE,
    IMPORTED_NV12_FORMAT, IMPORTED_SCANOUT_BGRA_FORMAT, STAGED_NV12_OUTPUT_USAGE,
    STAGED_PACKED_OUTPUT_USAGE, TRANSFER_NV12_OUTPUT_USAGE,
};

verus! {

/// The number of one import. It is never zero.
#[derive(Clone, Copy, Debug, PartialEq, Eq, Structural)]
pub struct ImportId {
    pub value: u64,
}

impl ImportId {
    /// The number.
    pub fn get(self) -> (value: u64)
        ensures
            value == self.value,
    {
        self.value
    }
}

/// Hands out numbers, each of them once.
#[derive(Debug)]
pub struct ImportIds {
    pub next: u64,
}

impl ImportIds {
    /// Zero is not handed out.
    pub open spec fn well_formed(self) -> bool {
        self.next > 0
    }

    /// The number has been handed out.
    pub open spec fn has_issued(self, id: ImportId) -> bool {
        0 < id.value < self.next
    }

    /// No number has been handed out.
    pub fn new() -> (ids: ImportIds)
        ensures
            ids.well_formed(),
            forall|id: ImportId| !(#[trigger] ids.has_issued(id)),
            ids.next == 1,
    {
        ImportIds { next: 1 }
    }

    /// The next number, which has not been handed out before.
    pub fn issue(&mut self) -> (id: ImportId)
        requires
            old(self).well_formed(),
            old(self).next < u64::MAX,
        ensures
            final(self).well_formed(),
            id.value == old(self).next,
            final(self).next == old(self).next + 1,
            !old(self).has_issued(id),
            forall|other: ImportId| #[trigger]
                final(self).has_issued(other) == (old(self).has_issued(other) || other == id),
    {
        let id = ImportId { value: self.next };
        self.next = self.next + 1;
        id
    }
}

/// How a multi-planar image is sampled.
#[derive(Clone, Copy, Debug, PartialEq, Eq, Structural)]
pub struct DirectNv12Sampling {
    pub conversion: Nv12Conversion,
    pub format_features: FormatFeatureFlags,
}

/// The planes of a staged frame, and how they become color.
#[derive(Clone, Copy, Debug, PartialEq, Eq, Structural)]
pub struct StagedNv12Planes {
    pub luma_image: RawHandle,
    pub chroma_image: RawHandle,
    pub conversion: Nv12Conversion,
}

/// What the shader for packed pixels is told about a frame.
#[derive(Clone, Copy, Debug, PartialEq, Eq, Structural)]
pub struct PackedPushConstants {
    pub width: u32,
    pub height: u32,
    pub offset: u32,
    pub pitch: u32,
    pub source_format: u32,
}

/// What the shaders for biplanar frames are told about a frame.
#[derive(Clone, Copy, Debug, PartialEq, Eq, Structural)]
pub struct Nv12PushConstants {
    pub width: u32,
    pub height: u32,
    pub y_offset: u32,
    pub y_pitch: u32,
    pub uv_offset: u32,
    pub uv_pitch: u32,
    pub range: u32,
    pub x_offset: u32,
    pub y_chroma_offset: u32,
}

/// How many bytes of push constants the shader for packed pixels takes.
pub const PACKED_PUSH_CONSTANT_BYTES: u32 = 20;

/// How many bytes of push constants the shaders for biplanar frames take.
pub const NV12_PUSH_CONSTANT_BYTES: u32 = 36;

/// The push constants of a staged frame.
#[derive(Clone, Copy, Debug, PartialEq, Eq, Structural)]
pub enum StagedPushConstants {
    Nv12(Nv12PushConstants),
    Packed(PackedPushConstants),
}

impl StagedPushConstants {
    /// The words that `words` returns.
    pub open spec fn as_words(self) -> Seq<u32> {
        match self {
            StagedPushConstants::Nv12(constants) => seq![
                constants.width,
                constants.height,
                constants.y_offset,
                constants.y_pitch,
                constants.uv_offset,
                constants.uv_pitch,
                constants.range,
                constants.x_offset,
                constants.y_chroma_offset,
            ],
            StagedPushConstants::Packed(constants) => seq![
                constants.width,
                constants.height,
                constants.offset,
                constants.pitch,
                constants.source_format,
            ],
        }
    }

    /// The constants as the words that the shader reads, in order.
    pub fn words(self) -> (words: Vec<u32>)
        ensures
            words@ == self.as_words(),
            4 * words.len() == (match self {
                StagedPushConstants::Nv12(_) => NV12_PUSH_CONSTANT_BYTES,
                StagedPushConstants::Packed(_) => PACKED_PUSH_CONSTANT_BYTES,
            }),
    {
        let words: Vec<u32> = match self {
            StagedPushConstants::Nv12(constants) => vec![
                constants.width,
                constants.height,
                constants.y_offset,
                constants.y_pitch,
                constants.uv_offset,
                constants.uv_pitch,
                constants.range,
                constants.x_offset,
                constants.y_chroma_offset,
            ],
            StagedPushConstants::Packed(constants) => vec![
                constants.width,
                constants.height,
                constants.offset,
                constants.pitch,
                constants.source_format,
            ],
        };
        assert(words@ =~= self.as_words());
        words
    }
}

/// The push constants of a packed frame, or why there are none.
pub open spec fn packed_constants_verdict(request: PackedImageImport) -> Result<
    PackedPushConstants,
    Seq<char>,
> {
    if request.plane.offset > u32::MAX {
        Err("Vulkan packed offset exceeds u32"@)
    } else {
        Ok(
            PackedPushConstants {
                width: request.dimensions.0,
                height: request.dimensions.1,
                offset: request.plane.offset as u32,
                pitch: request.plane.pitch,
                source_format: match request.format {
                    PackedImageFormat::Rgba8888 => 0,
                    PackedImageFormat::Bgra8888 => 1,
                },
            },
        )
    }
}

/// How a shader is told where chroma samples lie along one axis.
pub open spec fn offset_code(offset: YcbcrOffset) -> u32 {
    match offset {
        YcbcrOffset::CositedEven => 0,
        YcbcrOffset::Midpoint => 1,
    }
}

fn code_of_offset(offset: YcbcrOffset) -> (code: u32)
    ensures
        code == offset_code(offset),
{
    match offset {
        YcbcrOffset::CositedEven => 0,
        YcbcrOffset::Midpoint => 1,
    }
}

/// The push constants of a biplanar frame, or why there are none.
pub open spec fn nv12_constants_verdict(
    dimensions: (u32, u32),
    layout: Nv12SharedObjectLayout,
    conversion: Nv12Conversion,
) -> Result<Nv12PushConstants, Seq<char>> {
    if layout.planes[0].offset > u32::MAX {
        Err("Vulkan NV12 luma offset exceeds u32"@)
    } else if layout.planes[1].offset > u32::MAX {
        Err("Vulkan NV12 chroma offset exceeds u32"@)
    } else {
        Ok(
            Nv12PushConstants {
                width: dimensions.0,
                height: dimensions.1,
                y_offset: layout.planes[0].offset as u32,
                y_pitch: layout.planes[0].pitch,
                uv_offset: layout.planes[1].offset as u32,
                uv_pitch: layout.planes[1].pitch,
                range: match conversion.range {
                    YcbcrRange::Narrow => 0,
                    YcbcrRange::Full => 1,
                },
                x_offset: offset_code(conversion.x_offset),
                y_chroma_offset: offset_code(conversion.y_offset),
            },
        )
    }
}

/// How a biplanar frame gets into its output.
#[derive(Clone, Copy, Debug, PartialEq, Eq)]
pub enum StagedNv12Operation {
    Compute { pipeline: ComputePipeline, push_constants: Nv12PushConstants },
    Transfer { layout: Nv12SharedObjectLayout },
}

/// A packed frame on its way into an output.
#[derive(Debug)]
pub struct StagedPacked {
    pub lease: SourceLease<PackedSourceCacheKey>,
    pub source: BufferAllocation,
    pub output: OutputSlot<PackedOutputKey, PackedOutput>,
    pub pipeline: ComputePipeline,
    pub push_constants: PackedPushConstants,
}

/// A biplanar frame on its way into an output.
#[derive(Debug)]
pub struct StagedNv12 {
    pub lease: SourceLease<Nv12SourceCacheKey>,
    pub source: BufferAllocation,
    pub output: OutputSlot<Nv12OutputKey, StagedOutput>,
    pub operation: StagedNv12Operation,
    pub conversion: Nv12Conversion,
    pub format_features: FormatFeatureFlags,
}

/// What an imported image is made of.
#[derive(Debug)]
pub enum ImportedKind {
    DirectPacked {
        lease: SourceLease<PackedSourceCacheKey>,
        sampled: ImageAllocation,
        format: PackedImageFormat,
    },
    DirectBgraScanout { sampled: ImageAllocation },
    DirectNv12 {
        lease: SourceLease<Nv12SourceCacheKey>,
        sampled: ImageAllocation,
        sampling: DirectNv12Sampling,
    },
    StagedPacked(StagedPacked),
    StagedNv12(StagedNv12),
}

/// One import that a renderer can sample. A direct import is the producer's memory; a staged import
/// holds a claim on a cached source and one output slot.
#[derive(Debug)]
pub struct ImportedDmaBufImage {
    pub import_id: ImportId,
    pub kind: ImportedKind,
    pub dimensions: (u32, u32),
    pub modifier: u64,
    pub sampled_usage: ImageUsageFlags,
    pub sampled_tiling: ImageTiling,
}

/// What an image leaves to destroy.
#[derive(Clone, Copy, Debug, PartialEq, Eq)]
pub enum Orphan {
    Image(ImageAllocation),
    Nv12Output(StagedOutput),
    PackedOutput(PackedOutput),
}

impl Orphan {
    /// What there is to destroy.
    pub open spec fn objects(self) -> Seq<DeviceObject> {
        match self {
            Orphan::Image(image) => image.objects(),
            Orphan::Nv12Output(output) => output.objects(),
            Orphan::PackedOutput(output) => output.objects(),
        }
    }

    /// What to destroy, in order.
    pub fn teardown(self) -> (objects: Vec<DeviceObject>)
        ensures
            objects@ == self.objects(),
    {
        match self {
            Orphan::Image(image) => image.teardown(),
            Orphan::Nv12Output(output) => output.teardown(),
            Orphan::PackedOutput(output) => output.teardown(),
        }
    }
}

/// An import that was refused, with what it was to hold.
#[derive(Debug)]
pub struct RefusedImport<K, O> {
    pub message: String,
    pub lease: SourceLease<K>,
    pub output: O,
}

/// The image that a direct import has to create.
#[derive(Clone, Copy, Debug, PartialEq, Eq)]
pub struct DirectImagePlan {
    pub dimensions: (u32, u32),
    pub source_fd: i32,
    pub source_size: u64,
    pub modifier: u64,
    pub first_plane: ImportedPlane,
    pub second_plane: Option<ImportedPlane>,
    pub format: PixelFormat,
    pub usage: ImageUsageFlags,
}

/// The image that a packed request creates where it is sampled directly.
pub open spec fn packed_image_plan(request: PackedImageImport) -> DirectImagePlan {
    DirectImagePlan {
        dimensions: request.dimensions,
        source_fd: request.source_fd,
        source_size: request.source_size,
        modifier: request.modifier,
        first_plane: request.plane,
        second_plane: None,
        format: request.format.format_code(),
        usage: DIRECT_PACKED_USAGE,
    }
}

/// The image to create for a packed request that is sampled directly.
pub fn plan_packed_image(request: PackedImageImport) -> (plan: DirectImagePlan)
    ensures
        plan == packed_image_plan(request),
{
    DirectImagePlan {
        dimensions: request.dimensions,
        source_fd: request.source_fd,
        source_size: request.source_size,
        modifier: request.modifier,
        first_plane: request.plane,
        second_plane: None,
        format: request.format.vk_format(),
        usage: DIRECT_PACKED_USAGE,
    }
}

/// The image that a biplanar frame creates where it is sampled directly.
pub open spec fn nv12_image_plan(
    dimensions: (u32, u32),
    source_fd: i32,
    layout: Nv12SharedObjectLayout,
) -> DirectImagePlan {
    DirectImagePlan {
        dimensions,
        source_fd,
        source_size: layout.object_size,
        modifier: layout.modifier,
        first_plane: layout.planes[0],
        second_plane: Some(layout.planes[1]),
        format: IMPORTED_NV12_FORMAT,
        usage: DIRECT_NV12_USAGE,
    }
}

/// The image to create for a biplanar frame that is sampled directly.
pub fn plan_nv12_image(
    dimensions: (u32, u32),
    source_fd: i32,
    layout: Nv12SharedObjectLayout,
) -> (plan: DirectImagePlan)
    ensures
        plan == nv12_image_plan(dimensions, source_fd, layout),
{
    DirectImagePlan {
        dimensions,
        source_fd,
        source_size: layout.object_size,
        modifier: layout.modifier,
        first_plane: layout.planes[0],
        second_plane: Some(layout.planes[1]),
        format: IMPORTED_NV12_FORMAT,
        usage: DIRECT_NV12_USAGE,
    }
}

/// A request to import a scanout buffer.
#[derive(Clone, Copy, Debug, PartialEq, Eq)]
pub struct ScanoutImport {
    pub dimensions: (u32, u32),
    pub source_fd: i32,
    pub source_size: u64,
    pub modifier: u64,
    pub plane: ImportedPlane,
    pub usage: ImageUsageFlags,
}

/// What `plan_bgra_scanout` returns.
pub open spec fn scanout_verdict(
    request: ScanoutImport,
    modifiers: Seq<DrmModifierProperties>,
    external: Result<ExternalModifierCapability, i32>,
    probe: Result<DmaBufProbe, Seq<char>>,
) -> Result<DirectImagePlan, ImportFault> {
    let inputs = image_inputs_verdict(request.dimensions, request.source_fd, request.plane);
    let support = direct_modifier_verdict(
        modifiers,
        IMPORTED_SCANOUT_BGRA_FORMAT,
        request.modifier,
        SCANOUT_FEATURES,
        "B8G8R8A8"@,
        external,
    );
    let identity = identity_of(request.source_fd, request.source_size, probe);
    if inputs is Err {
        Err(ImportFault::Other(inputs->Err_0))
    } else if request.source_size == 0 {
        Err(ImportFault::Other("Vulkan scanout import has a zero allocation size"@))
    } else if support is Err {
        Err(ImportFault::Other(support->Err_0))
    } else if identity is Err {
        Err(identity->Err_0)
    } else {
        Ok(
            DirectImagePlan {
                dimensions: request.dimensions,
                source_fd: request.source_fd,
                source_size: request.source_size,
                modifier: request.modifier,
                first_plane: request.plane,
                second_plane: None,
                format: IMPORTED_SCANOUT_BGRA_FORMAT,
                usage: request.usage,
            },
        )
    }
}

/// Admits a scanout buffer, and says which image to create for it. The declared size has to be the
/// one that a probe of the descriptor found.
pub fn plan_bgra_scanout(
    request: ScanoutImport,
    modifiers: &[DrmModifierProperties],
    external: Result<ExternalModifierCapability, i32>,
    probe: Result<DmaBufProbe, String>,
) -> (result: Result<DirectImagePlan, VulkanImportError>)
    ensures
        imports(result, scanout_verdict(request, modifiers@, external, probe_view(probe))),
        result is Ok ==> (probe matches Ok(observed) && observed.allocation_size
            == request.source_size),
{
    match validate_image_inputs(request.dimensions, request.source_fd, request.plane) {
        Ok(()) => {},
        Err(message) => return Err(VulkanImportError::Other(message)),
    }
    if request.source_size == 0 {
        return Err(
            VulkanImportError::Other(
                "Vulkan scanout import has a zero allocation size".to_owned(),
            ),
        );
    }
    match validate_bgra_scanout_import_support(modifiers, request.modifier, external) {
        Ok(()) => {},
        Err(message) => return Err(VulkanImportError::Other(message)),
    }
    match checked_identity(request.source_fd, request.source_size, probe) {
        Ok(_) => {},
        Err(error) => return Err(error),
    }
    Ok(
        DirectImagePlan {
            dimensions: request.dimensions,
            source_fd: request.source_fd,
            source_size: request.source_size,
            modifier: request.modifier,
            first_plane: request.plane,
            second_plane: None,
            format: IMPORTED_SCANOUT_BGRA_FORMAT,
            usage: request.usage,
        },
    )
}

/// The view of a packed source that the compute shader reads.
pub fn packed_source_view(source: PackedSourceAllocation) -> (result: Result<RawHandle, String>)
    ensures
        agrees(
            result,
            match source {
                PackedSourceAllocation::Staged { view, .. } => Ok(view),
                PackedSourceAllocation::Direct(_) => Err(
                    "Vulkan staged packed import received a direct-image cache entry"@,
                ),
            },
        ),
{
    match source {
        PackedSourceAllocation::Staged { view, .. } => Ok(view),
        PackedSourceAllocation::Direct(_) => Err(
            "Vulkan staged packed import received a direct-image cache entry".to_owned(),
        ),
    }
}

/// A compute dispatch that covers `size` texels in groups of sixteen.
pub open spec fn groups_of_sixteen(size: int) -> int {
    (size + 15) / 16
}

fn dispatch_groups(size: u32) -> (groups: u32)
    ensures
        groups == groups_of_sixteen(size as int),
{
    if size % 16 == 0 {
        size / 16
    } else {
        size / 16 + 1
    }
}

/// A dispatch has a group for every texel, and no group without one.
pub proof fn dispatches_cover_the_texels(size: int, texel: int)
    requires
        0 <= texel < size,
    ensures
        0 <= texel / 16 < groups_of_sixteen(size),
        (groups_of_sixteen(size) - 1) * 16 < size,
{
}

/// What has to be submitted before the renderer samples the image.
#[derive(Clone, Copy, Debug, PartialEq, Eq)]
pub enum AcquirePlan {
    DirectImage { image: RawHandle },
    StagedCompute(StagedAcquirePlan),
    StagedTransfer(StagedTransferPlan),
}

/// A compute shader that writes an output from a source buffer.
#[derive(Clone, Copy, Debug, PartialEq, Eq)]
pub struct StagedAcquirePlan {
    pub source_buffer: RawHandle,
    pub source_size: u64,
    pub output: StagedSampledImages,
    pub output_initialized: bool,
    pub descriptor_set: RawHandle,
    pub pipeline: RawHandle,
    pub pipeline_layout: RawHandle,
    pub push_constants: StagedPushConstants,
    pub dispatch: (u32, u32),
}

/// A copy of the planes of a source buffer into an output.
#[derive(Clone, Copy, Debug, PartialEq, Eq)]
pub struct StagedTransferPlan {
    pub source_buffer: RawHandle,
    pub source_size: u64,
    pub output: StagedSampledImages,
    pub output_initialized: bool,
    pub dimensions: (u32, u32),
    pub planes: [ImportedPlane; 2],
}

impl ImportedDmaBufImage {
    /// An output that a compute shader writes has descriptors for it.
    pub open spec fn well_formed(self) -> bool {
        self.kind matches ImportedKind::StagedNv12(staged) ==> staged.operation is Compute
            ==> staged.output.resources.descriptor_set is Some
    }

    /// An image for scanout that has been created as planned.
    pub fn new_bgra_scanout(import_id: ImportId, plan: DirectImagePlan, sampled: ImageAllocation) -> (
    image: ImportedDmaBufImage)
        ensures
            image == (ImportedDmaBufImage {
                import_id,
                kind: ImportedKind::DirectBgraScanout { sampled },
                dimensions: plan.dimensions,
                modifier: plan.modifier,
                sampled_usage: plan.usage,
                sampled_tiling: TILING_DRM_FORMAT_MODIFIER,
            }),
            image.well_formed(),
    {
        ImportedDmaBufImage {
            import_id,
            kind: ImportedKind::DirectBgraScanout { sampled },
            dimensions: plan.dimensions,
            modifier: plan.modifier,
            sampled_usage: plan.usage,
            sampled_tiling: TILING_DRM_FORMAT_MODIFIER,
        }
    }

    /// A packed image that is sampled from its source. A source that was staged is refused.
    pub fn from_direct_packed_source(
        import_id: ImportId,
        request: PackedImageImport,
        lease: SourceLease<PackedSourceCacheKey>,
        source: PackedSourceAllocation,
    ) -> (result: Result<ImportedDmaBufImage, RefusedImport<PackedSourceCacheKey, ()>>)
        ensures
            match source {
                PackedSourceAllocation::Direct(sampled) => {
                    &&& result == Ok::<_, RefusedImport<PackedSourceCacheKey, ()>>(
                        ImportedDmaBufImage {
                            import_id,
                            kind: ImportedKind::DirectPacked {
                                lease,
                                sampled,
                                format: request.format,
                            },
                            dimensions: request.dimensions,
                            modifier: request.modifier,
                            sampled_usage: DIRECT_PACKED_USAGE,
                            sampled_tiling: TILING_DRM_FORMAT_MODIFIER,
                        },
                    )
                    &&& result->Ok_0.well_formed()
                },
                PackedSourceAllocation::Staged { .. } => {
                    &&& result is Err
                    &&& result->Err_0.message@
                        == "Vulkan direct packed import received a staged-buffer cache entry"@
                    &&& result->Err_0.lease == lease
                },
            },
    {
        match source {
            PackedSourceAllocation::Direct(sampled) => Ok(
                ImportedDmaBufImage {
                    import_id,
                    kind: ImportedKind::DirectPacked { lease, sampled, format: request.format },
                    dimensions: request.dimensions,
                    modifier: request.modifier,
                    sampled_usage: DIRECT_PACKED_USAGE,
                    sampled_tiling: TILING_DRM_FORMAT_MODIFIER,
                },
            ),
            PackedSourceAllocation::Staged { .. } => Err(
                RefusedImport {
                    message:
                        "Vulkan direct packed import received a staged-buffer cache entry".to_owned(),
                    lease,
                    output: (),
                },
            ),
        }
    }

    /// A biplanar image that is sampled from its source. A capability or a source for staging is
    /// refused.
    pub fn new_nv12_direct_shared_object(
        import_id: ImportId,
        dimensions: (u32, u32),
        layout: Nv12SharedObjectLayout,
        conversion: Nv12Conversion,
        capability: Nv12ModifierCapability,
        lease: SourceLease<Nv12SourceCacheKey>,
        source: Nv12SourceAllocation,
    ) -> (result: Result<ImportedDmaBufImage, RefusedImport<Nv12SourceCacheKey, ()>>)
        ensures
            if !(capability.strategy is DirectSampledImage) {
                &&& result is Err
                &&& result->Err_0.message@
                    == "Vulkan NV12 direct constructor received a staged capability"@
                &&& result->Err_0.lease == lease
            } else {
                match source {
                    Nv12SourceAllocation::Direct(sampled) => {
                        &&& result == Ok::<_, RefusedImport<Nv12SourceCacheKey, ()>>(
                            ImportedDmaBufImage {
                                import_id,
                                kind: ImportedKind::DirectNv12 {
                                    lease,
                                    sampled,
                                    sampling: DirectNv12Sampling {
                                        conversion,
                                        format_features: capability.sampled_tiling_features,
                                    },
                                },
                                dimensions,
                                modifier: layout.modifier,
                                sampled_usage: DIRECT_NV12_USAGE,
                                sampled_tiling: TILING_DRM_FORMAT_MODIFIER,
                            },
                        )
                        &&& result->Ok_0.well_formed()
                    },
                    _ => {
                        &&& result is Err
                        &&& result->Err_0.message@
                            == "Vulkan direct NV12 import received a staged-buffer cache entry"@
                        &&& result->Err_0.lease == lease
                    },
                }
            },
    {
        match capability.strategy {
            Nv12ImportStrategy::DirectSampledImage => {},
            _ => {
                return Err(
                    RefusedImport {
                        message:
                            "Vulkan NV12 direct constructor received a staged capability".to_owned(),
                        lease,
                        output: (),
                    },
                );
            },
        }
        match source {
            Nv12SourceAllocation::Direct(sampled) => Ok(
                ImportedDmaBufImage {
                    import_id,
                    kind: ImportedKind::DirectNv12 {
                        lease,
                        sampled,
                        sampling: DirectNv12Sampling {
                            conversion,
                            format_features: capability.sampled_tiling_features,
                        },
                    },
                    dimensions,
                    modifier: layout.modifier,
                    sampled_usage: DIRECT_NV12_USAGE,
                    sampled_tiling: TILING_DRM_FORMAT_MODIFIER,
                },
            ),
            _ => Err(
                RefusedImport {
                    message:
                        "Vulkan direct NV12 import received a staged-buffer cache entry".to_owned(),
                    lease,
                    output: (),
                },
            ),
        }
    }

    /// The number of the import.
    pub fn import_id(&self) -> (id: ImportId)
        ensures
            id == self.import_id,
    {
        self.import_id
    }

    /// The handle that `image` returns.
    pub open spec fn sampled_image(self) -> RawHandle {
        match self.kind {
            ImportedKind::DirectPacked { sampled, .. } => sampled.image,
            ImportedKind::DirectBgraScanout { sampled } => sampled.image,
            ImportedKind::DirectNv12 { sampled, .. } => sampled.image,
            ImportedKind::StagedPacked(staged) => staged.output.resources.sampled.image,
            ImportedKind::StagedNv12(staged) => match staged.output.resources.resources {
                StagedOutputResources::Rgba { sampled, .. } => sampled.image,
                StagedOutputResources::Nv12 { sampled } => sampled.image,
                StagedOutputResources::TransferYuvPlanes { luma, .. } => luma.image,
                StagedOutputResources::YuvPlanes { luma, .. } => luma.image,
            },
        }
    }

    /// The image that is sampled, which is the luma plane where the planes are apart.
    pub fn image(&self) -> (image: RawHandle)
        ensures
            image == self.sampled_image(),
    {
        match &self.kind {
            ImportedKind::DirectPacked { sampled, .. } => sampled.image,
            ImportedKind::DirectBgraScanout { sampled } => sampled.image,
            ImportedKind::DirectNv12 { sampled, .. } => sampled.image,
            ImportedKind::StagedPacked(staged) => staged.output.resources.sampled.image,
            ImportedKind::StagedNv12(staged) => match staged.output.resources.resources {
                StagedOutputResources::Rgba { sampled, .. } => sampled.image,
                StagedOutputResources::Nv12 { sampled } => sampled.image,
                StagedOutputResources::TransferYuvPlanes { luma, .. } => luma.image,
                StagedOutputResources::YuvPlanes { luma, .. } => luma.image,
            },
        }
    }

    /// The size of the frame.
    pub fn dimensions(&self) -> (dimensions: (u32, u32))
        ensures
            dimensions == self.dimensions,
    {
        self.dimensions
    }

    /// The modifier of the producer's memory.
    pub fn modifier(&self) -> (modifier: u64)
        ensures
            modifier == self.modifier,
    {
        self.modifier
    }

    /// The usage of the image that is sampled.
    pub fn sampled_usage(&self) -> (usage: ImageUsageFlags)
        ensures
            usage == self.sampled_usage,
    {
        self.sampled_usage
    }

    /// The tiling of the image that is sampled.
    pub fn sampled_tiling(&self) -> (tiling: ImageTiling)
        ensures
            tiling == self.sampled_tiling,
    {
        self.sampled_tiling
    }

    /// The format of what is sampled.
    pub fn sampled_format(&self) -> (format: SampledImageFormat)
        ensures
            format == (match self.kind {
                ImportedKind::DirectPacked { format: PackedImageFormat::Rgba8888, .. } =>
                    SampledImageFormat::Rgba8888,
                ImportedKind::DirectPacked { format: PackedImageFormat::Bgra8888, .. } =>
                    SampledImageFormat::Bgra8888,
                ImportedKind::DirectBgraScanout { .. } => SampledImageFormat::Bgra8888,
                ImportedKind::DirectNv12 { .. } => SampledImageFormat::Nv12,
                ImportedKind::StagedPacked(_) => SampledImageFormat::Bgra8888,
                ImportedKind::StagedNv12(staged) => match staged.output.resources.resources {
                    StagedOutputResources::Rgba { .. } => SampledImageFormat::Rgba8888,
                    StagedOutputResources::Nv12 { .. } => SampledImageFormat::Nv12,
                    StagedOutputResources::TransferYuvPlanes { .. } =>
                        SampledImageFormat::Nv12Planes,
                    StagedOutputResources::YuvPlanes { .. } => SampledImageFormat::Nv12Planes,
                },
            }),
    {
        match &self.kind {
            ImportedKind::DirectPacked { format, .. } => match format {
                PackedImageFormat::Rgba8888 => SampledImageFormat::Rgba8888,
                PackedImageFormat::Bgra8888 => SampledImageFormat::Bgra8888,
            },
            ImportedKind::DirectBgraScanout { .. } => SampledImageFormat::Bgra8888,
            ImportedKind::DirectNv12 { .. } => SampledImageFormat::Nv12,
            ImportedKind::StagedPacked(_) => SampledImageFormat::Bgra8888,
            ImportedKind::StagedNv12(staged) => match staged.output.resources.resources {
                StagedOutputResources::Rgba { .. } => SampledImageFormat::Rgba8888,
                StagedOutputResources::Nv12 { .. } => SampledImageFormat::Nv12,
                StagedOutputResources::TransferYuvPlanes { .. } => SampledImageFormat::Nv12Planes,
                StagedOutputResources::YuvPlanes { .. } => SampledImageFormat::Nv12Planes,
            },
        }
    }

    /// The sampling that `nv12_sampling` returns.
    pub open spec fn multi_planar_sampling(self) -> Option<DirectNv12Sampling> {
        match self.kind {
            ImportedKind::DirectNv12 { sampling, .. } => Some(sampling),
            ImportedKind::StagedNv12(staged) if staged.output.resources.resources is Nv12 => Some(
                DirectNv12Sampling {
                    conversion: staged.conversion,
                    format_features: staged.format_features,
                },
            ),
            _ => None,
        }
    }

    /// How the image is sampled, where it is multi-planar.
    pub fn nv12_sampling(&self) -> (sampling: Option<DirectNv12Sampling>)
        ensures
            sampling == self.multi_planar_sampling(),
    {
        match &self.kind {
            ImportedKind::DirectNv12 { sampling, .. } => Some(*sampling),
            ImportedKind::StagedNv12(staged) => match staged.output.resources.resources {
                StagedOutputResources::Nv12 { .. } => Some(
                    DirectNv12Sampling {
                        conversion: staged.conversion,
                        format_features: staged.format_features,
                    },
                ),
                _ => None,
            },
            _ => None,
        }
    }

    /// The same as `nv12_sampling`.
    pub fn direct_nv12_sampling(&self) -> (sampling: Option<DirectNv12Sampling>)
        ensures
            sampling == self.multi_planar_sampling(),
    {
        self.nv12_sampling()
    }

    /// The planes of a staged frame, where they are apart.
    pub fn staged_nv12_planes(&self) -> (planes: Option<StagedNv12Planes>)
        ensures
            planes == (match self.kind {
                ImportedKind::StagedNv12(staged) => match staged.output.resources.resources.images() {
                    StagedSampledImages::YuvPlanes { luma, chroma } => Some(
                        StagedNv12Planes {
                            luma_image: luma,
                            chroma_image: chroma,
                            conversion: staged.conversion,
                        },
                    ),
                    _ => None,
                },
                _ => None,
            }),
    {
        match &self.kind {
            ImportedKind::StagedNv12(staged) => {
                match staged.output.resources.resources.sampled_images() {
                    StagedSampledImages::YuvPlanes { luma, chroma } => Some(
                        StagedNv12Planes {
                            luma_image: luma,
                            chroma_image: chroma,
                            conversion: staged.conversion,
                        },
                    ),
                    _ => None,
                }
            },
            _ => None,
        }
    }

    /// The frame is copied or converted into an output.
    pub open spec fn staged(self) -> bool {
        self.kind is StagedPacked || self.kind is StagedNv12
    }

    /// Tests that the frame is copied or converted into an output.
    pub fn is_staged(&self) -> (staged: bool)
        ensures
            staged == self.staged(),
    {
        match &self.kind {
            ImportedKind::StagedPacked(_) => true,
            ImportedKind::StagedNv12(_) => true,
            _ => false,
        }
    }

    /// The claim on the source of a staged frame has ended.
    pub open spec fn source_released(self) -> bool {
        match self.kind {
            ImportedKind::StagedPacked(staged) => staged.lease.released,
            ImportedKind::StagedNv12(staged) => staged.lease.released,
            _ => false,
        }
    }

    /// Tests that the claim on the source of a staged frame has ended.
    pub fn staged_source_released(&self) -> (released: bool)
        ensures
            released == self.source_released(),
    {
        match &self.kind {
            ImportedKind::StagedPacked(staged) => staged.lease.released,
            ImportedKind::StagedNv12(staged) => staged.lease.released,
            _ => false,
        }
    }

    /// The image with the claim on its source ended.
    pub open spec fn without_claim(self) -> ImportedDmaBufImage {
        match self.kind {
            ImportedKind::StagedPacked(staged) => ImportedDmaBufImage {
                kind: ImportedKind::StagedPacked(
                    StagedPacked {
                        lease: SourceLease { released: true, ..staged.lease },
                        ..staged
                    },
                ),
                ..self
            },
            ImportedKind::StagedNv12(staged) => ImportedDmaBufImage {
                kind: ImportedKind::StagedNv12(
                    StagedNv12 { lease: SourceLease { released: true, ..staged.lease }, ..staged },
                ),
                ..self
            },
            _ => self,
        }
    }

    /// Ends the claim on the source of a staged frame, once: the producer has its memory back, while
    /// the output is still displayed. Returns whether this call ended it.
    pub fn release_staged_source<N, P>(
        &mut self,
        nv12_sources: &mut Nv12SourceCache<N>,
        packed_sources: &mut PackedSourceCache<P>,
    ) -> (released: bool)
        requires
            old(nv12_sources).well_formed(),
            old(packed_sources).well_formed(),
        ensures
            final(nv12_sources).well_formed(),
            final(packed_sources).well_formed(),
            final(nv12_sources).max_entries == old(nv12_sources).max_entries,
            final(packed_sources).max_entries == old(packed_sources).max_entries,
            *final(self) == old(self).without_claim(),
            released == (old(self).staged() && !old(self).source_released()),
            final(packed_sources).entries@ == (match old(self).kind {
                ImportedKind::StagedPacked(staged) => after_release(
                    old(packed_sources).entries@,
                    staged.lease,
                ),
                _ => old(packed_sources).entries@,
            }),
            final(nv12_sources).entries@ == (match old(self).kind {
                ImportedKind::StagedNv12(staged) => after_release(
                    old(nv12_sources).entries@,
                    staged.lease,
                ),
                _ => old(nv12_sources).entries@,
            }),
    {
        match &mut self.kind {
            ImportedKind::StagedPacked(staged) => packed_sources.release(&mut staged.lease),
            ImportedKind::StagedNv12(staged) => nv12_sources.release(&mut staged.lease),
            _ => false,
        }
    }

    /// The image with an output that has contents.
    pub open spec fn with_contents(self) -> ImportedDmaBufImage {
        match self.kind {
            ImportedKind::StagedPacked(staged) => ImportedDmaBufImage {
                kind: ImportedKind::StagedPacked(
                    StagedPacked {
                        output: OutputSlot { initialized: true, ..staged.output },
                        ..staged
                    },
                ),
                ..self
            },
            ImportedKind::StagedNv12(staged) => ImportedDmaBufImage {
                kind: ImportedKind::StagedNv12(
                    StagedNv12 {
                        output: OutputSlot { initialized: true, ..staged.output },
                        ..staged
                    },
                ),
                ..self
            },
            _ => self,
        }
    }

    /// Records that the acquire was submitted, so that a staged output has contents from now on.
    pub fn mark_acquire_submitted(&mut self)
        ensures
            *final(self) == old(self).with_contents(),
            old(self).well_formed() ==> final(self).well_formed(),
    {
        match &mut self.kind {
            ImportedKind::StagedPacked(staged) => {
                staged.output.initialized = true;
            },
            ImportedKind::StagedNv12(staged) => {
                staged.output.initialized = true;
            },
            _ => {},
        }
    }

    /// The plan that `acquire_plan` returns.
    pub open spec fn acquisition(self) -> AcquirePlan {
        match self.kind {
            ImportedKind::StagedPacked(staged) => AcquirePlan::StagedCompute(
                StagedAcquirePlan {
                    source_buffer: staged.source.buffer,
                    source_size: staged.source.size,
                    output: StagedSampledImages::Bgra {
                        image: staged.output.resources.sampled.image,
                    },
                    output_initialized: staged.output.initialized,
                    descriptor_set: staged.output.resources.descriptor_set,
                    pipeline: staged.pipeline.pipeline,
                    pipeline_layout: staged.pipeline.pipeline_layout,
                    push_constants: StagedPushConstants::Packed(staged.push_constants),
                    dispatch: (
                        groups_of_sixteen(self.dimensions.0 as int) as u32,
                        groups_of_sixteen(self.dimensions.1 as int) as u32,
                    ),
                },
            ),
            ImportedKind::StagedNv12(staged) => match staged.operation {
                StagedNv12Operation::Compute { pipeline, push_constants } =>
                    AcquirePlan::StagedCompute(
                    StagedAcquirePlan {
                        source_buffer: staged.source.buffer,
                        source_size: staged.source.size,
                        output: staged.output.resources.resources.images(),
                        output_initialized: staged.output.initialized,
                        descriptor_set: staged.output.resources.descriptor_set.unwrap(),
                        pipeline: pipeline.pipeline,
                        pipeline_layout: pipeline.pipeline_layout,
                        push_constants: StagedPushConstants::Nv12(push_constants),
                        dispatch: (
                            groups_of_sixteen(self.dimensions.0 as int / 2) as u32,
                            groups_of_sixteen(self.dimensions.1 as int / 2) as u32,
                        ),
                    },
                ),
                StagedNv12Operation::Transfer { layout } => AcquirePlan::StagedTransfer(
                    StagedTransferPlan {
                        source_buffer: staged.source.buffer,
                        source_size: staged.source.size,
                        output: staged.output.resources.resources.images(),
                        output_initialized: staged.output.initialized,
                        dimensions: self.dimensions,
                        planes: layout.planes,
                    },
                ),
            },
            _ => AcquirePlan::DirectImage { image: self.sampled_image() },
        }
    }

    /// What has to be submitted before the renderer samples the image. A shader for packed pixels
    /// runs once for each pixel, one for biplanar frames once for each chroma sample, in groups of
    /// sixteen by sixteen.
    pub fn acquire_plan(&self) -> (plan: AcquirePlan)
        requires
            self.well_formed(),
        ensures
            plan == self.acquisition(),
    {
        match &self.kind {
            ImportedKind::StagedPacked(staged) => AcquirePlan::StagedCompute(
                StagedAcquirePlan {
                    source_buffer: staged.source.buffer,
                    source_size: staged.source.size,
                    output: StagedSampledImages::Bgra {
                        image: staged.output.resources.sampled.image,
                    },
                    output_initialized: staged.output.initialized,
                    descriptor_set: staged.output.resources.descriptor_set,
                    pipeline: staged.pipeline.pipeline,
                    pipeline_layout: staged.pipeline.pipeline_layout,
                    push_constants: StagedPushConstants::Packed(staged.push_constants),
                    dispatch: (
                        dispatch_groups(self.dimensions.0),
                        dispatch_groups(self.dimensions.1),
                    ),
                },
            ),
            ImportedKind::StagedNv12(staged) => match &staged.operation {
                StagedNv12Operation::Compute { pipeline, push_constants } => {
                    let descriptor_set: u64 = match staged.output.resources.descriptor_set {
                        Some(descriptor_set) => descriptor_set,
                        None => 0,
                    };
                    AcquirePlan::StagedCompute(
                        StagedAcquirePlan {
                            source_buffer: staged.source.buffer,
                            source_size: staged.source.size,
                            output: staged.output.resources.resources.sampled_images(),
                            output_initialized: staged.output.initialized,
                            descriptor_set,
                            pipeline: pipeline.pipeline,
                            pipeline_layout: pipeline.pipeline_layout,
                            push_constants: StagedPushConstants::Nv12(*push_constants),
                            dispatch: (
                                dispatch_groups(self.dimensions.0 / 2),
                                dispatch_groups(self.dimensions.1 / 2),
                            ),
                        },
                    )
                },
                StagedNv12Operation::Transfer { layout } => AcquirePlan::StagedTransfer(
                    StagedTransferPlan {
                        source_buffer: staged.source.buffer,
                        source_size: staged.source.size,
                        output: staged.output.resources.resources.sampled_images(),
                        output_initialized: staged.output.initialized,
                        dimensions: self.dimensions,
                        planes: layout.planes,
                    },
                ),
            },
            _ => AcquirePlan::DirectImage { image: self.image() },
        }
    }

    /// Gives up everything that the image holds: its lease, which frees the source for the next
    /// frame, and its output slot, which goes back to the pool. Returns what belongs to nobody else
    /// and has to be destroyed, where there is anything.
    pub fn retire<N, P>(
        self,
        nv12_sources: &mut Nv12SourceCache<N>,
        packed_sources: &mut PackedSourceCache<P>,
        nv12_outputs: &mut Nv12OutputPool<StagedOutput>,
        packed_outputs: &mut PackedOutputPool<PackedOutput>,
    ) -> (orphan: Option<Orphan>)
        requires
            old(nv12_sources).well_formed(),
            old(packed_sources).well_formed(),
            old(nv12_outputs).well_formed(),
            old(packed_outputs).well_formed(),
        ensures
            final(nv12_sources).well_formed(),
            final(packed_sources).well_formed(),
            final(nv12_outputs).well_formed(),
            final(packed_outputs).well_formed(),
            final(nv12_sources).max_entries == old(nv12_sources).max_entries,
            final(packed_sources).max_entries == old(packed_sources).max_entries,
            final(nv12_outputs).max_slots == old(nv12_outputs).max_slots,
            final(packed_outputs).max_slots == old(packed_outputs).max_slots,
            final(nv12_outputs).next_ticket == old(nv12_outputs).next_ticket,
            final(packed_outputs).next_ticket == old(packed_outputs).next_ticket,
            orphan == (match self.kind {
                ImportedKind::DirectBgraScanout { sampled } => Some(Orphan::Image(sampled)),
                ImportedKind::StagedPacked(staged) => match orphan_of(
                    old(packed_outputs).places@,
                    staged.output,
                ) {
                    Some(output) => Some(Orphan::PackedOutput(output)),
                    None => None,
                },
                ImportedKind::StagedNv12(staged) => match orphan_of(
                    old(nv12_outputs).places@,
                    staged.output,
                ) {
                    Some(output) => Some(Orphan::Nv12Output(output)),
                    None => None,
                },
                _ => None,
            }),
            final(packed_sources).entries@ == (match self.kind {
                ImportedKind::DirectPacked { lease, .. } => after_retirement(
                    old(packed_sources).entries@,
                    lease,
                ),
                ImportedKind::StagedPacked(staged) => after_retirement(
                    old(packed_sources).entries@,
                    staged.lease,
                ),
                _ => old(packed_sources).entries@,
            }),
            final(nv12_sources).entries@ == (match self.kind {
                ImportedKind::DirectNv12 { lease, .. } => after_retirement(
                    old(nv12_sources).entries@,
                    lease,
                ),
                ImportedKind::StagedNv12(staged) => after_retirement(
                    old(nv12_sources).entries@,
                    staged.lease,
                ),
                _ => old(nv12_sources).entries@,
            }),
            final(packed_outputs).places@ == (match self.kind {
                ImportedKind::StagedPacked(staged) => after_slot_release(
                    old(packed_outputs).places@,
                    staged.output,
                ),
                _ => old(packed_outputs).places@,
            }),
            final(nv12_outputs).places@ == (match self.kind {
                ImportedKind::StagedNv12(staged) => after_slot_release(
                    old(nv12_outputs).places@,
                    staged.output,
                ),
                _ => old(nv12_outputs).places@,
            }),
    {
        match self.kind {
            ImportedKind::DirectPacked { lease, .. } => {
                packed_sources.retire(lease);
                None
            },
            ImportedKind::DirectBgraScanout { sampled } => Some(Orphan::Image(sampled)),
            ImportedKind::DirectNv12 { lease, .. } => {
                nv12_sources.retire(lease);
                None
            },
            ImportedKind::StagedPacked(staged) => {
                packed_sources.retire(staged.lease);
                match packed_outputs.release(staged.output) {
                    Some(output) => Some(Orphan::PackedOutput(output)),
                    None => None,
                }
            },
            ImportedKind::StagedNv12(staged) => {
                nv12_sources.retire(staged.lease);
                match nv12_outputs.release(staged.output) {
                    Some(output) => Some(Orphan::Nv12Output(output)),
                    None => None,
                }
            },
        }
    }
}

/// A packed image that is converted into an output. A plane that the shader cannot address is
/// refused, and so is a source without a buffer.
pub fn create_staged_packed(
    import_id: ImportId,
    request: PackedImageImport,
    lease: SourceLease<PackedSourceCacheKey>,
    source: PackedSourceAllocation,
    output: OutputSlot<PackedOutputKey, PackedOutput>,
    pipeline: ComputePipeline,
) -> (result: Result<
    ImportedDmaBufImage,
    RefusedImport<PackedSourceCacheKey, OutputSlot<PackedOutputKey, PackedOutput>>,
>)
    ensures
        match (source, packed_constants_verdict(request)) {
            (PackedSourceAllocation::Direct(_), _) => {
                &&& result is Err
                &&& result->Err_0.message@
                    == "Vulkan staged packed import received a direct-image cache entry"@
                &&& result->Err_0.lease == lease
                &&& result->Err_0.output == output
            },
            (_, Err(text)) => {
                &&& result is Err
                &&& result->Err_0.message@ == text
                &&& result->Err_0.lease == lease
                &&& result->Err_0.output == output
            },
            (PackedSourceAllocation::Staged { source, .. }, Ok(push_constants)) => {
                &&& result == Ok::<
                    _,
                    RefusedImport<PackedSourceCacheKey, OutputSlot<PackedOutputKey, PackedOutput>>,
                >(
                    ImportedDmaBufImage {
                        import_id,
                        kind: ImportedKind::StagedPacked(
                            StagedPacked { lease, source, output, pipeline, push_constants },
                        ),
                        dimensions: request.dimensions,
                        modifier: request.modifier,
                        sampled_usage: STAGED_PACKED_OUTPUT_USAGE,
                        sampled_tiling: TILING_OPTIMAL,
                    },
                )
                &&& result->Ok_0.well_formed()
            },
        },
        result matches Ok(image) ==> {
            &&& image.kind matches ImportedKind::StagedPacked(staged)
            &&& staged.push_constants.source_format == 0 <==> request.format
                == PackedImageFormat::Rgba8888
            &&& staged.push_constants.source_format == 1 <==> request.format
                == PackedImageFormat::Bgra8888
        },
{
    let buffer = match source {
        PackedSourceAllocation::Staged { source, .. } => source,
        PackedSourceAllocation::Direct(_) => {
            return Err(
                RefusedImport {
                    message:
                        "Vulkan staged packed import received a direct-image cache entry".to_owned(),
                    lease,
                    output,
                },
            );
        },
    };
    if request.plane.offset > u32::MAX as u64 {
        return Err(
            RefusedImport { message: "Vulkan packed offset exceeds u32".to_owned(), lease, output },
        );
    }
    let push_constants = PackedPushConstants {
        width: request.dimensions.0,
        height: request.dimensions.1,
        offset: request.plane.offset as u32,
        pitch: request.plane.pitch,
        source_format: match request.format {
            PackedImageFormat::Rgba8888 => 0,
            PackedImageFormat::Bgra8888 => 1,
        },
    };
    Ok(
        ImportedDmaBufImage {
            import_id,
            kind: ImportedKind::StagedPacked(
                StagedPacked { lease, source: buffer, output, pipeline, push_constants },
            ),
            dimensions: request.dimensions,
            modifier: request.modifier,
            sampled_usage: STAGED_PACKED_OUTPUT_USAGE,
            sampled_tiling: TILING_OPTIMAL,
        },
    )
}

/// A biplanar frame that is to be staged.
#[derive(Clone, Copy, Debug, PartialEq, Eq)]
pub struct StagedNv12Request {
    pub dimensions: (u32, u32),
    pub layout: Nv12SharedObjectLayout,
    pub conversion: Nv12Conversion,
    pub strategy: Nv12ImportStrategy,
    pub sampled_format_features: FormatFeatureFlags,
}

/// The operation that stages a biplanar frame, or why there is none.
pub open spec fn staging_operation(
    request: StagedNv12Request,
    pipeline: Option<ComputePipeline>,
) -> Result<StagedNv12Operation, Seq<char>> {
    if request.strategy is DirectSampledImage {
        Err("direct NV12 import cannot be constructed as staged"@)
    } else if request.strategy.is_transfer() {
        if pipeline is Some {
            Err("Vulkan NV12 transfer unexpectedly owns a compute pipeline"@)
        } else {
            Ok(StagedNv12Operation::Transfer { layout: request.layout })
        }
    } else {
        match pipeline {
            None => Err("Vulkan compute NV12 staging is missing its pipeline"@),
            Some(pipeline) => match nv12_constants_verdict(
                request.dimensions,
                request.layout,
                request.conversion,
            ) {
                Err(text) => Err(text),
                Ok(push_constants) => Ok(StagedNv12Operation::Compute { pipeline, push_constants }),
            },
        }
    }
}

fn find_staging_operation(request: StagedNv12Request, pipeline: Option<ComputePipeline>) -> (result:
    Result<StagedNv12Operation, String>)
    ensures
        agrees(result, staging_operation(request, pipeline)),
{
    match request.strategy {
        Nv12ImportStrategy::DirectSampledImage => Err(
            "direct NV12 import cannot be constructed as staged".to_owned(),
        ),
        Nv12ImportStrategy::LinearBufferToOptimalNv12
        | Nv12ImportStrategy::LinearBufferToOptimalYuvPlanes => {
            if pipeline.is_some() {
                return Err(
                    "Vulkan NV12 transfer unexpectedly owns a compute pipeline".to_owned(),
                );
            }
            Ok(StagedNv12Operation::Transfer { layout: request.layout })
        },
        Nv12ImportStrategy::LinearBufferToYuvPlanes | Nv12ImportStrategy::LinearBufferToRgba => {
            let pipeline = match pipeline {
                Some(pipeline) => pipeline,
                None => {
                    return Err(
                        "Vulkan compute NV12 staging is missing its pipeline".to_owned(),
                    );
                },
            };
            if request.layout.planes[0].offset > u32::MAX as u64 {
                return Err("Vulkan NV12 luma offset exceeds u32".to_owned());
            }
            if request.layout.planes[1].offset > u32::MAX as u64 {
                return Err("Vulkan NV12 chroma offset exceeds u32".to_owned());
            }
            let push_constants = Nv12PushConstants {
                width: request.dimensions.0,
                height: request.dimensions.1,
                y_offset: request.layout.planes[0].offset as u32,
                y_pitch: request.layout.planes[0].pitch,
                uv_offset: request.layout.planes[1].offset as u32,
                uv_pitch: request.layout.planes[1].pitch,
                range: match request.conversion.range {
                    YcbcrRange::Narrow => 0,
                    YcbcrRange::Full => 1,
                },
                x_offset: code_of_offset(request.conversion.x_offset),
                y_chroma_offset: code_of_offset(request.conversion.y_offset),
            };
            Ok(StagedNv12Operation::Compute { pipeline, push_constants })
        },
    }
}

/// A biplanar image that is copied or converted into an output. A strategy without its pipeline, or
/// with one that it does not use, is refused, and so is a plane that the shader cannot address.
pub fn create_staged_nv12(
    import_id: ImportId,
    request: StagedNv12Request,
    lease: SourceLease<Nv12SourceCacheKey>,
    source: BufferAllocation,
    output: OutputSlot<Nv12OutputKey, StagedOutput>,
    pipeline: Option<ComputePipeline>,
) -> (result: Result<
    ImportedDmaBufImage,
    RefusedImport<Nv12SourceCacheKey, OutputSlot<Nv12OutputKey, StagedOutput>>,
>)
    requires
        request.strategy.is_compute() ==> output.resources.descriptor_set is Some,
    ensures
        match staging_operation(request, pipeline) {
            Err(text) => {
                &&& result is Err
                &&& result->Err_0.message@ == text
                &&& result->Err_0.lease == lease
                &&& result->Err_0.output == output
            },
            Ok(operation) => {
                &&& result == Ok::<
                    _,
                    RefusedImport<Nv12SourceCacheKey, OutputSlot<Nv12OutputKey, StagedOutput>>,
                >(
                    ImportedDmaBufImage {
                        import_id,
                        kind: ImportedKind::StagedNv12(
                            StagedNv12 {
                                lease,
                                source,
                                output,
                                operation,
                                conversion: request.conversion,
                                format_features: request.sampled_format_features,
                            },
                        ),
                        dimensions: request.dimensions,
                        modifier: request.layout.modifier,
                        sampled_usage: if request.strategy.is_transfer() {
                            TRANSFER_NV12_OUTPUT_USAGE
                        } else {
                            STAGED_NV12_OUTPUT_USAGE
                        },
                        sampled_tiling: TILING_OPTIMAL,
                    },
                )
                &&& result->Ok_0.well_formed()
            },
        },
{
    let operation = match find_staging_operation(request, pipeline) {
        Ok(operation) => operation,
        Err(message) => return Err(RefusedImport { message, lease, output }),
    };
    let sampled_usage: u32 = match request.strategy {
        Nv12ImportStrategy::LinearBufferToOptimalNv12
        | Nv12ImportStrategy::LinearBufferToOptimalYuvPlanes => TRANSFER_NV12_OUTPUT_USAGE,
        _ => STAGED_NV12_OUTPUT_USAGE,
    };
    Ok(
        ImportedDmaBufImage {
            import_id,
            kind: ImportedKind::StagedNv12(
                StagedNv12 {
                    lease,
                    source,
                    output,
                    operation,
                    conversion: request.conversion,
                    format_features: request.sampled_format_features,
                },
            ),
            dimensions: request.dimensions,
            modifier: request.layout.modifier,
            sampled_usage,
            sampled_tiling: TILING_OPTIMAL,
        },
    )
}

} // verus!
