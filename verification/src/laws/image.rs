//! What holds of conversions, sampled images and output slots, whatever frame they are for.

use vstd::prelude::*;

use crate::format::Colorimetry;
use crate::probe::DmaBufProbe;
use crate::vulkan::cache::{Nv12SourceCacheKey, PackedSourceCacheKey, SourceLease};
use crate::vulkan::capability::Nv12ModifierCapability;
use crate::vulkan::color::{map_nv12_colorimetry, Nv12Conversion};
use crate::vulkan::error::VulkanImportError;
use crate::vulkan::flags::RawHandle;
use crate::vulkan::image::{
    create_staged_nv12, create_staged_packed, packed_source_view, plan_bgra_scanout,
    plan_nv12_image, plan_packed_image, AcquirePlan, DirectImagePlan, DirectNv12Sampling, ImportId,
    ImportIds, ImportedDmaBufImage, ImportedKind, Orphan, RefusedImport, ScanoutImport,
    StagedNv12Operation, StagedNv12Planes, StagedNv12Request, StagedPushConstants,
    StagedTransferPlan,
};
use crate::vulkan::identity::{checked_identity, DmaBufIdentity};
use crate::vulkan::inventory::{
    validate_bgra_scanout_import_support, DrmModifierProperties, ExternalModifierCapability,
};
use crate::vulkan::layout::validate_image_inputs;
use crate::vulkan::output::{
    finish_packed_output, finish_staged_output, packed_descriptor_writes, plan_packed_output,
    plan_staged_output, staged_descriptor_writes, DescriptorWrite, OutputAction, OutputBuild,
    OutputPlan,
};
use crate::vulkan::pool::{Nv12OutputKey, OutputSlot, PackedOutputKey};
use crate::vulkan::record::{nv12_separate_transfer_regions, BufferImageCopy};
use crate::vulkan::resources::{
    BufferAllocation, ComputeKind, ComputePipeline, DeviceObject, ImageAllocation,
    Nv12SourceAllocation, PackedOutput, PackedSourceAllocation, StagedOutput, StagedOutputResources,
    StagedSampledImages,
};
use crate::vulkan::types::{
    Nv12ComputeOutput, Nv12ImportStrategy, Nv12SharedObjectLayout, PackedImageFormat,
    PackedImageImport, SampledImageFormat,
};

verus! {

/// A stream has a conversion if and only if it is BT.709 throughout, says its range and where its
/// chroma lies, and the chroma does not lie at the bottom.
pub proof fn conversions_exist_for_explicit_bt709(
    color: Colorimetry,
    result: Result<Nv12Conversion, String>,
)
    requires
        call_ensures(map_nv12_colorimetry, (color,), result),
    ensures
        result is Ok <==> {
            &&& color.primaries is Bt709 && color.transfer is Bt709 && color.matrix is Bt709
            &&& color.range is Limited || color.range is Full
            &&& color.chroma_location is Left || color.chroma_location is Center
                || color.chroma_location is TopLeft || color.chroma_location is Top
        },
{
}

/// A conversion is that of the stream: full range if and only if the stream has full range, narrow
/// if and only if it has limited range, and chroma on the even samples of an axis if and only if the
/// stream's chroma lies at the left, or at the top, of its block.
pub proof fn conversions_keep_range_and_siting(color: Colorimetry, conversion: Nv12Conversion)
    requires
        call_ensures(map_nv12_colorimetry, (color,), Ok(conversion)),
    ensures
        conversion.model is Bt709,
        conversion.range is Full <==> color.range is Full,
        conversion.range is Narrow <==> color.range is Limited,
        conversion.x_offset is CositedEven <==> (color.chroma_location is Left
            || color.chroma_location is TopLeft),
        conversion.x_offset is Midpoint <==> (color.chroma_location is Top || color.chroma_location
            is Center),
        conversion.y_offset is CositedEven <==> (color.chroma_location is Top
            || color.chroma_location is TopLeft),
        conversion.y_offset is Midpoint <==> (color.chroma_location is Left || color.chroma_location
            is Center),
{
}

/// Streams with the same conversion have the same range and the same chroma location: no two
/// contracts are mixed up.
pub proof fn conversions_tell_streams_apart(
    one: Colorimetry,
    other: Colorimetry,
    conversion: Nv12Conversion,
)
    requires
        call_ensures(map_nv12_colorimetry, (one,), Ok(conversion)),
        call_ensures(map_nv12_colorimetry, (other,), Ok(conversion)),
    ensures
        one.range == other.range,
        one.chroma_location == other.chroma_location,
        one.primaries == other.primaries && one.transfer == other.transfer && one.matrix
            == other.matrix,
{
}

/// Sampling with a conversion asks for images that can be sampled and filtered, for linear chroma
/// filtering, and for each of the two chroma sitings exactly where an axis has it.
pub proof fn conversions_ask_for_the_sitings_they_use(conversion: Nv12Conversion, features: u32)
    requires
        call_ensures(Nv12Conversion::required_direct_features, (conversion,), features),
    ensures
        features & 0x1 != 0,
        features & 0x1000 != 0,
        features & 0x4_0000 != 0,
        features & 0x2_0000 != 0 <==> (conversion.x_offset is Midpoint || conversion.y_offset
            is Midpoint),
        features & 0x80_0000 != 0 <==> (conversion.x_offset is CositedEven || conversion.y_offset
            is CositedEven),
        features & !0x86_1001u32 == 0,
{
    let one = 0x1u32 | 0x1000u32 | 0x4_0000u32 | 0x2_0000u32;
    let other = 0x1u32 | 0x1000u32 | 0x4_0000u32 | 0x80_0000u32;
    let both = 0x1u32 | 0x1000u32 | 0x4_0000u32 | (0x2_0000u32 | 0x80_0000u32);
    assert(one == 0x6_1001 && other == 0x84_1001 && both == 0x86_1001) by (bit_vector)
        requires
            one == 0x1u32 | 0x1000u32 | 0x4_0000u32 | 0x2_0000u32,
            other == 0x1u32 | 0x1000u32 | 0x4_0000u32 | 0x80_0000u32,
            both == 0x1u32 | 0x1000u32 | 0x4_0000u32 | (0x2_0000u32 | 0x80_0000u32),
    ;
    assert(0x6_1001u32 & 0x1 == 1 && 0x6_1001u32 & 0x1000 == 0x1000 && 0x6_1001u32 & 0x4_0000
        == 0x4_0000 && 0x6_1001u32 & 0x2_0000 == 0x2_0000 && 0x6_1001u32 & 0x80_0000 == 0
        && 0x6_1001u32 & !0x86_1001u32 == 0) by (bit_vector);
    assert(0x84_1001u32 & 0x1 == 1 && 0x84_1001u32 & 0x1000 == 0x1000 && 0x84_1001u32 & 0x4_0000
        == 0x4_0000 && 0x84_1001u32 & 0x2_0000 == 0 && 0x84_1001u32 & 0x80_0000 == 0x80_0000
        && 0x84_1001u32 & !0x86_1001u32 == 0) by (bit_vector);
    assert(0x86_1001u32 & 0x1 == 1 && 0x86_1001u32 & 0x1000 == 0x1000 && 0x86_1001u32 & 0x4_0000
        == 0x4_0000 && 0x86_1001u32 & 0x2_0000 == 0x2_0000 && 0x86_1001u32 & 0x80_0000 == 0x80_0000
        && 0x86_1001u32 & !0x86_1001u32 == 0) by (bit_vector);
}

/// The names of the usages: sampled is four, storage eight, copied from one, copied to two, color
/// attachment sixteen.
proof fn lemma_usages()
    ensures
        4u32 | 16u32 | 1u32 | 2u32 == 0x17,
        4u32 | 8u32 | 1u32 | 2u32 == 0xf,
        4u32 | 1u32 | 2u32 == 0x7,
{
    assert(4u32 | 16u32 | 1u32 | 2u32 == 0x17 && 4u32 | 8u32 | 1u32 | 2u32 == 0xf && 4u32 | 1u32
        | 2u32 == 0x7) by (bit_vector);
}

/// A packed image that is staged is described to the shader as the request describes it, with zero
/// for RGBA and one for BGRA; it is refused if and only if the shader could not address it or the
/// source is no buffer, and then nothing that was handed in is lost.
pub proof fn staged_packed_images_tell_the_shader_the_request(
    import_id: ImportId,
    request: PackedImageImport,
    lease: SourceLease<PackedSourceCacheKey>,
    source: PackedSourceAllocation,
    output: OutputSlot<PackedOutputKey, PackedOutput>,
    pipeline: ComputePipeline,
    result: Result<
        ImportedDmaBufImage,
        RefusedImport<PackedSourceCacheKey, OutputSlot<PackedOutputKey, PackedOutput>>,
    >,
)
    requires
        call_ensures(
            create_staged_packed,
            (import_id, request, lease, source, output, pipeline),
            result,
        ),
    ensures
        result is Ok <==> source is Staged && request.plane.offset <= 0xffff_ffff,
        result matches Ok(image) ==> {
            &&& image.import_id == import_id
            &&& image.dimensions == request.dimensions
            &&& image.modifier == request.modifier
            &&& image.sampled_usage == 0xf && image.sampled_tiling == 0
            &&& image.kind matches ImportedKind::StagedPacked(staged)
            &&& staged.lease == lease && staged.output == output && staged.pipeline == pipeline
            &&& source matches PackedSourceAllocation::Staged { source: buffer, .. }
                && staged.source == buffer
            &&& staged.push_constants.width == request.dimensions.0
            &&& staged.push_constants.height == request.dimensions.1
            &&& staged.push_constants.offset == request.plane.offset
            &&& staged.push_constants.pitch == request.plane.pitch
            &&& staged.push_constants.source_format == 0 <==> request.format is Rgba8888
            &&& staged.push_constants.source_format == 1 <==> request.format is Bgra8888
        },
        result matches Err(refused) ==> refused.lease == lease && refused.output == output,
{
    lemma_usages();
}

/// A biplanar image that is staged is told to the shader, or to the copy, as the request describes
/// it: range zero is narrow and one is full, chroma offset zero is on even samples and one between
/// them. It is refused if and only if the pipeline does not go with the strategy or the shader could
/// not address the planes, and then nothing that was handed in is lost.
pub proof fn staged_nv12_images_tell_the_shader_the_request(
    import_id: ImportId,
    request: StagedNv12Request,
    lease: SourceLease<Nv12SourceCacheKey>,
    source: BufferAllocation,
    output: OutputSlot<Nv12OutputKey, StagedOutput>,
    pipeline: Option<ComputePipeline>,
    result: Result<
        ImportedDmaBufImage,
        RefusedImport<Nv12SourceCacheKey, OutputSlot<Nv12OutputKey, StagedOutput>>,
    >,
)
    requires
        call_ensures(
            create_staged_nv12,
            (import_id, request, lease, source, output, pipeline),
            result,
        ),
    ensures
        result is Ok <==> match request.strategy {
            Nv12ImportStrategy::DirectSampledImage => false,
            Nv12ImportStrategy::LinearBufferToOptimalNv12
            | Nv12ImportStrategy::LinearBufferToOptimalYuvPlanes => pipeline is None,
            Nv12ImportStrategy::LinearBufferToYuvPlanes
            | Nv12ImportStrategy::LinearBufferToRgba => pipeline is Some
                && request.layout.planes[0].offset <= 0xffff_ffff && request.layout.planes[1].offset
                <= 0xffff_ffff,
        },
        result matches Ok(image) ==> {
            &&& image.import_id == import_id
            &&& image.dimensions == request.dimensions
            &&& image.modifier == request.layout.modifier
            &&& image.sampled_tiling == 0
            &&& image.kind matches ImportedKind::StagedNv12(staged)
            &&& staged.lease == lease && staged.output == output && staged.source == source
            &&& staged.conversion == request.conversion
            &&& staged.format_features == request.sampled_format_features
            &&& staged.operation matches StagedNv12Operation::Transfer { layout } ==> pipeline
                is None && layout == request.layout && image.sampled_usage == 0x7
            &&& staged.operation matches StagedNv12Operation::Compute {
                pipeline: used,
                push_constants,
            } ==> {
                &&& pipeline == Some(used) && image.sampled_usage == 0xf
                &&& push_constants.width == request.dimensions.0
                &&& push_constants.height == request.dimensions.1
                &&& push_constants.y_offset == request.layout.planes[0].offset
                &&& push_constants.y_pitch == request.layout.planes[0].pitch
                &&& push_constants.uv_offset == request.layout.planes[1].offset
                &&& push_constants.uv_pitch == request.layout.planes[1].pitch
                &&& push_constants.range == 0 <==> request.conversion.range is Narrow
                &&& push_constants.range == 1 <==> request.conversion.range is Full
                &&& push_constants.x_offset == 0 <==> request.conversion.x_offset is CositedEven
                &&& push_constants.x_offset == 1 <==> request.conversion.x_offset is Midpoint
                &&& push_constants.y_chroma_offset == 0 <==> request.conversion.y_offset
                    is CositedEven
                &&& push_constants.y_chroma_offset == 1 <==> request.conversion.y_offset is Midpoint
            }
        },
        result matches Err(refused) ==> refused.lease == lease && refused.output == output,
{
    lemma_usages();
}

/// The shader reads its constants as words: the size first, then where the planes lie, then how to
/// read them.
pub proof fn constants_are_words_in_this_order(constants: StagedPushConstants, words: Vec<u32>)
    requires
        call_ensures(StagedPushConstants::words, (constants,), words),
    ensures
        constants matches StagedPushConstants::Packed(packed) ==> words@.len() == 5 && words@[0]
            == packed.width && words@[1] == packed.height && words@[2] == packed.offset && words@[3]
            == packed.pitch && words@[4] == packed.source_format,
        constants matches StagedPushConstants::Nv12(planes) ==> words@.len() == 9 && words@[0]
            == planes.width && words@[1] == planes.height && words@[2] == planes.y_offset
            && words@[3] == planes.y_pitch && words@[4] == planes.uv_offset && words@[5]
            == planes.uv_pitch && words@[6] == planes.range && words@[7] == planes.x_offset
            && words@[8] == planes.y_chroma_offset,
{
}

/// `groups` groups of sixteen cover `size`, and no fewer do.
pub open spec fn covers(groups: u32, size: int) -> bool {
    &&& 16 * groups >= size
    &&& 16 * groups < size + 16
}

/// What is submitted for an image is about that image: its own memory, outputs, descriptors and
/// constants. A packed shader runs for every pixel, a biplanar one for every chroma sample.
pub proof fn acquisitions_are_about_the_image(
    image: ImportedDmaBufImage,
    plan: AcquirePlan,
    sampled: RawHandle,
)
    requires
        call_ensures(ImportedDmaBufImage::acquire_plan, (&image,), plan),
        call_ensures(ImportedDmaBufImage::image, (&image,), sampled),
    ensures
        match image.kind {
            ImportedKind::DirectPacked { sampled: own, .. } => plan == (AcquirePlan::DirectImage {
                image: own.image,
            }) && sampled == own.image,
            ImportedKind::DirectBgraScanout { sampled: own } => plan == (AcquirePlan::DirectImage {
                image: own.image,
            }) && sampled == own.image,
            ImportedKind::DirectNv12 { sampled: own, .. } => plan == (AcquirePlan::DirectImage {
                image: own.image,
            }) && sampled == own.image,
            ImportedKind::StagedPacked(staged) => {
                &&& plan matches AcquirePlan::StagedCompute(compute)
                &&& compute.source_buffer == staged.source.buffer && compute.source_size
                    == staged.source.size
                &&& compute.output == (StagedSampledImages::Bgra { image: sampled })
                &&& sampled == staged.output.resources.sampled.image
                &&& compute.output_initialized == staged.output.initialized
                &&& compute.descriptor_set == staged.output.resources.descriptor_set
                &&& compute.pipeline == staged.pipeline.pipeline && compute.pipeline_layout
                    == staged.pipeline.pipeline_layout
                &&& compute.push_constants == StagedPushConstants::Packed(staged.push_constants)
                &&& covers(compute.dispatch.0, image.dimensions.0 as int)
                &&& covers(compute.dispatch.1, image.dimensions.1 as int)
            },
            ImportedKind::StagedNv12(staged) => match staged.operation {
                StagedNv12Operation::Compute { pipeline, push_constants } => {
                    &&& plan matches AcquirePlan::StagedCompute(compute)
                    &&& compute.source_buffer == staged.source.buffer && compute.source_size
                        == staged.source.size
                    &&& compute.output_initialized == staged.output.initialized
                    &&& staged.output.resources.descriptor_set matches Some(set)
                        ==> compute.descriptor_set == set
                    &&& compute.pipeline == pipeline.pipeline && compute.pipeline_layout
                        == pipeline.pipeline_layout
                    &&& compute.push_constants == StagedPushConstants::Nv12(push_constants)
                    &&& covers(compute.dispatch.0, image.dimensions.0 as int / 2)
                    &&& covers(compute.dispatch.1, image.dimensions.1 as int / 2)
                    &&& are_outputs(compute.output, staged.output.resources.resources)
                },
                StagedNv12Operation::Transfer { layout } => {
                    &&& plan matches AcquirePlan::StagedTransfer(transfer)
                    &&& transfer.source_buffer == staged.source.buffer && transfer.source_size
                        == staged.source.size
                    &&& transfer.output_initialized == staged.output.initialized
                    &&& transfer.dimensions == image.dimensions
                    &&& transfer.planes == layout.planes
                    &&& are_outputs(transfer.output, staged.output.resources.resources)
                },
            },
        },
{
}

/// The images are those of the output, luma and chroma each in its own place.
pub open spec fn are_outputs(
    images: StagedSampledImages,
    resources: StagedOutputResources,
) -> bool {
    match resources {
        StagedOutputResources::Rgba { sampled, .. } => images == (StagedSampledImages::Rgba {
            image: sampled.image,
        }),
        StagedOutputResources::Nv12 { sampled } => images == (StagedSampledImages::Nv12 {
            image: sampled.image,
        }),
        StagedOutputResources::TransferYuvPlanes { luma, chroma } => images == (
        StagedSampledImages::YuvPlanes { luma: luma.image, chroma: chroma.image }),
        StagedOutputResources::YuvPlanes { luma, chroma, .. } => images == (
        StagedSampledImages::YuvPlanes { luma: luma.image, chroma: chroma.image }),
    }
}

/// What is sampled has the format that it was made with: packed pixels that are sampled directly
/// keep theirs, staged packed pixels become BGRA, and a biplanar frame is one multi-planar image,
/// two planes or RGBA.
pub proof fn images_are_sampled_in_their_own_format(
    image: ImportedDmaBufImage,
    format: SampledImageFormat,
    sampling: Option<DirectNv12Sampling>,
    direct_sampling: Option<DirectNv12Sampling>,
    planes: Option<StagedNv12Planes>,
    sampled: RawHandle,
    staged: bool,
)
    requires
        call_ensures(ImportedDmaBufImage::sampled_format, (&image,), format),
        call_ensures(ImportedDmaBufImage::nv12_sampling, (&image,), sampling),
        call_ensures(ImportedDmaBufImage::direct_nv12_sampling, (&image,), direct_sampling),
        call_ensures(ImportedDmaBufImage::staged_nv12_planes, (&image,), planes),
        call_ensures(ImportedDmaBufImage::image, (&image,), sampled),
        call_ensures(ImportedDmaBufImage::is_staged, (&image,), staged),
    ensures
        staged <==> image.kind is StagedPacked || image.kind is StagedNv12,
        sampling is Some <==> format is Nv12,
        direct_sampling == sampling,
        planes is Some <==> format is Nv12Planes,
        match image.kind {
            ImportedKind::DirectPacked { format: packed, .. } => (packed is Rgba8888 <==> format
                is Rgba8888) && (packed is Bgra8888 <==> format is Bgra8888),
            ImportedKind::DirectBgraScanout { .. } => format is Bgra8888,
            ImportedKind::StagedPacked(_) => format is Bgra8888,
            ImportedKind::DirectNv12 { sampling: own, .. } => sampling == Some(own),
            ImportedKind::StagedNv12(frame) => {
                &&& frame.output.resources.resources is Rgba <==> format is Rgba8888
                &&& frame.output.resources.resources is Nv12 <==> format is Nv12
                &&& !(format is Bgra8888)
                &&& sampling matches Some(own) ==> own.conversion == frame.conversion
                    && own.format_features == frame.format_features
                &&& planes matches Some(apart) ==> apart.luma_image == sampled && apart.conversion
                    == frame.conversion && match frame.output.resources.resources {
                    StagedOutputResources::TransferYuvPlanes { luma, chroma } => apart.luma_image
                        == luma.image && apart.chroma_image == chroma.image,
                    StagedOutputResources::YuvPlanes { luma, chroma, .. } => apart.luma_image
                        == luma.image && apart.chroma_image == chroma.image,
                    _ => false,
                }
            },
        },
{
}

/// Images that are sampled directly are planned from the request alone: the packed ones in the
/// format with the request's byte order, the biplanar ones with both planes in order.
pub proof fn direct_images_are_planned_from_the_request(
    request: PackedImageImport,
    packed: DirectImagePlan,
    dimensions: (u32, u32),
    source_fd: i32,
    layout: Nv12SharedObjectLayout,
    planar: DirectImagePlan,
)
    requires
        call_ensures(plan_packed_image, (request,), packed),
        call_ensures(plan_nv12_image, (dimensions, source_fd, layout), planar),
    ensures
        packed.dimensions == request.dimensions,
        packed.source_fd == request.source_fd && packed.source_size == request.source_size,
        packed.modifier == request.modifier,
        packed.first_plane == request.plane && packed.second_plane is None,
        request.format is Rgba8888 <==> packed.format == 37,
        request.format is Bgra8888 <==> packed.format == 44,
        packed.usage == 0x17,
        planar.dimensions == dimensions,
        planar.source_fd == source_fd && planar.source_size == layout.object_size,
        planar.modifier == layout.modifier,
        planar.first_plane == layout.planes[0] && planar.second_plane == Some(layout.planes[1]),
        planar.format == 1_000_156_003,
        planar.usage == 0x4,
{
    lemma_usages();
}

/// Formats have the Vulkan numbers of their byte orders.
pub proof fn packed_formats_have_their_numbers(format: PackedImageFormat, number: i32)
    requires
        call_ensures(PackedImageFormat::vk_format, (format,), number),
    ensures
        format is Rgba8888 <==> number == 37,
        format is Bgra8888 <==> number == 44,
{
}

/// An image that is sampled from its source is made of exactly that source, and only of one that was
/// made for sampling.
pub proof fn direct_images_sample_their_source(
    import_id: ImportId,
    request: PackedImageImport,
    lease: SourceLease<PackedSourceCacheKey>,
    source: PackedSourceAllocation,
    result: Result<ImportedDmaBufImage, RefusedImport<PackedSourceCacheKey, ()>>,
)
    requires
        call_ensures(
            ImportedDmaBufImage::from_direct_packed_source,
            (import_id, request, lease, source),
            result,
        ),
    ensures
        result is Ok <==> source is Direct,
        result matches Ok(image) ==> {
            &&& image.import_id == import_id
            &&& image.dimensions == request.dimensions
            &&& image.modifier == request.modifier
            &&& image.sampled_usage == 0x17 && image.sampled_tiling == 1_000_158_000
            &&& image.kind matches ImportedKind::DirectPacked { lease: kept, sampled, format }
            &&& kept == lease && format == request.format && source
                == PackedSourceAllocation::Direct(sampled)
        },
        result matches Err(refused) ==> refused.lease == lease,
{
    lemma_usages();
}

/// A biplanar image that is sampled from its source is made of exactly that source, with the
/// features of the capability, and only where both were made for sampling.
pub proof fn direct_nv12_images_sample_their_source(
    import_id: ImportId,
    dimensions: (u32, u32),
    layout: Nv12SharedObjectLayout,
    conversion: Nv12Conversion,
    capability: Nv12ModifierCapability,
    lease: SourceLease<Nv12SourceCacheKey>,
    source: Nv12SourceAllocation,
    result: Result<ImportedDmaBufImage, RefusedImport<Nv12SourceCacheKey, ()>>,
)
    requires
        call_ensures(
            ImportedDmaBufImage::new_nv12_direct_shared_object,
            (import_id, dimensions, layout, conversion, capability, lease, source),
            result,
        ),
    ensures
        result is Ok <==> capability.strategy is DirectSampledImage && source is Direct,
        result matches Ok(image) ==> {
            &&& image.import_id == import_id
            &&& image.dimensions == dimensions
            &&& image.modifier == layout.modifier
            &&& image.sampled_usage == 0x4 && image.sampled_tiling == 1_000_158_000
            &&& image.kind matches ImportedKind::DirectNv12 { lease: kept, sampled, sampling }
            &&& kept == lease && source == Nv12SourceAllocation::Direct(sampled)
            &&& sampling.conversion == conversion && sampling.format_features
                == capability.sampled_tiling_features
        },
        result matches Err(refused) ==> refused.lease == lease,
{
}

/// An image for scanout is made as it was planned.
pub proof fn scanout_images_are_as_planned(
    import_id: ImportId,
    plan: DirectImagePlan,
    sampled: ImageAllocation,
    image: ImportedDmaBufImage,
)
    requires
        call_ensures(ImportedDmaBufImage::new_bgra_scanout, (import_id, plan, sampled), image),
    ensures
        image.import_id == import_id,
        image.kind == (ImportedKind::DirectBgraScanout { sampled }),
        image.dimensions == plan.dimensions && image.modifier == plan.modifier,
        image.sampled_usage == plan.usage && image.sampled_tiling == 1_000_158_000,
{
}

/// No two imports have the same number, and none has zero.
pub proof fn import_numbers_are_never_repeated(first: ImportId, second: ImportId)
    ensures
        forall|ids: &mut ImportIds, later: &mut ImportIds|
            #[trigger] call_ensures(ImportIds::issue, (ids,), first) && #[trigger] call_ensures(
                ImportIds::issue,
                (later,),
                second,
            ) && (*ids).well_formed() && final(ids).next <= (*later).next ==> 0 < first.value
                < second.value,
{
}

/// Once the acquire was submitted the output has contents, and nothing else changed.
pub proof fn submitted_outputs_have_contents(image: ImportedDmaBufImage, plan: AcquirePlan)
    requires
        call_ensures(ImportedDmaBufImage::acquire_plan, (&image,), plan),
    ensures
        forall|before: &mut ImportedDmaBufImage| #[trigger]
            call_ensures(ImportedDmaBufImage::mark_acquire_submitted, (before,), ())
                && *final(before) == image ==> {
                &&& plan matches AcquirePlan::StagedCompute(compute) ==> compute.output_initialized
                &&& plan matches AcquirePlan::StagedTransfer(transfer)
                    ==> transfer.output_initialized
                &&& image.import_id == (*before).import_id && image.dimensions
                    == (*before).dimensions
                &&& image.staged() == (*before).staged()
                &&& !image.staged() ==> image == *before
            },
{
}

/// A compute source has a view to read through, and a direct one has none.
pub proof fn staged_sources_are_read_through_their_view(
    source: PackedSourceAllocation,
    result: Result<RawHandle, String>,
    biplanar: Nv12SourceAllocation,
    view: Option<RawHandle>,
)
    requires
        call_ensures(packed_source_view, (source,), result),
        call_ensures(Nv12SourceAllocation::compute_view, (biplanar,), view),
    ensures
        result is Ok <==> source is Staged,
        result matches Ok(found) ==> (source matches PackedSourceAllocation::Staged {
            view: own,
            ..
        } && found == own),
        view is Some <==> biplanar is Compute,
        view matches Some(found) ==> (biplanar matches Nv12SourceAllocation::Compute {
            view: own,
            ..
        } && found == own),
{
}

/// The output of a biplanar strategy has the frame's size; where it has a second image, that is the
/// chroma at half the width and half the height. Every image is as large as the copy that is written
/// into it.
pub proof fn outputs_are_as_large_as_what_is_written(
    dimensions: (u32, u32),
    strategy: Nv12ImportStrategy,
    pipeline: Option<ComputePipeline>,
    source_view: Option<RawHandle>,
    plan: OutputPlan,
    transfer: StagedTransferPlan,
    regions: [BufferImageCopy; 2],
)
    requires
        call_ensures(plan_staged_output, (dimensions, strategy, pipeline, source_view), Ok(plan)),
        transfer.dimensions == dimensions,
        call_ensures(nv12_separate_transfer_regions, (transfer,), regions),
    ensures
        plan.first.dimensions == dimensions,
        (plan.first.dimensions.0, plan.first.dimensions.1) == (regions[0].width, regions[0].height),
        plan.second matches Some(chroma) ==> {
            &&& (chroma.dimensions.0, chroma.dimensions.1) == (regions[1].width, regions[1].height)
            &&& dimensions.0 % 2 == 0 ==> 2 * chroma.dimensions.0 == dimensions.0
            &&& dimensions.1 % 2 == 0 ==> 2 * chroma.dimensions.1 == dimensions.1
            &&& 2 * chroma.dimensions.0 <= plan.first.dimensions.0 <= 2 * chroma.dimensions.0 + 1
            &&& 2 * chroma.dimensions.1 <= plan.first.dimensions.1 <= 2 * chroma.dimensions.1 + 1
        },
{
}

/// A biplanar strategy has an output if and only if its compute resources are those that it uses:
/// none for a copy, the matching shader and a view for a conversion. Separate planes are one channel
/// of luma and two of chroma, a conversion is RGBA, and a plain copy is one multi-planar image.
pub proof fn outputs_are_what_the_strategy_writes(
    dimensions: (u32, u32),
    strategy: Nv12ImportStrategy,
    pipeline: Option<ComputePipeline>,
    source_view: Option<RawHandle>,
    result: Result<OutputPlan, String>,
)
    requires
        call_ensures(plan_staged_output, (dimensions, strategy, pipeline, source_view), result),
    ensures
        result is Ok <==> match strategy {
            Nv12ImportStrategy::DirectSampledImage => false,
            Nv12ImportStrategy::LinearBufferToOptimalNv12
            | Nv12ImportStrategy::LinearBufferToOptimalYuvPlanes => pipeline is None && source_view
                is None,
            Nv12ImportStrategy::LinearBufferToYuvPlanes => source_view is Some && (
            pipeline matches Some(compute) && compute.kind == ComputeKind::Nv12(
                Nv12ComputeOutput::YuvPlanes,
            )),
            Nv12ImportStrategy::LinearBufferToRgba => source_view is Some && (
            pipeline matches Some(compute) && compute.kind == ComputeKind::Nv12(
                Nv12ComputeOutput::Rgba,
            )),
        },
        result matches Ok(plan) ==> {
            &&& !plan.packed
            &&& plan.second is Some <==> (strategy is LinearBufferToOptimalYuvPlanes || strategy
                is LinearBufferToYuvPlanes)
            &&& plan.first.format == (match strategy {
                Nv12ImportStrategy::LinearBufferToRgba => 37i32,
                Nv12ImportStrategy::LinearBufferToOptimalNv12 => 1_000_156_003,
                _ => 9,
            })
            &&& plan.second matches Some(chroma) ==> chroma.format == 16 && chroma.usage
                == plan.first.usage && chroma.flags == 0 && chroma.view_format is None
            &&& plan.first.usage == if strategy is LinearBufferToYuvPlanes || strategy
                is LinearBufferToRgba {
                0xfu32
            } else {
                0x7
            }
            &&& plan.first.flags == 0 && plan.first.view_format is None
            &&& plan.descriptors is Some <==> pipeline is Some
            &&& plan.descriptors matches Some(descriptors) ==> {
                &&& pipeline matches Some(compute) && descriptors.set_layout
                    == compute.descriptor_set_layout
                &&& source_view == Some(descriptors.source_view)
                &&& descriptors.storage_images == if plan.second is Some {
                    2u32
                } else {
                    1
                }
            }
        },
{
    lemma_usages();
}

/// A packed output has the frame's size, is BGRA, and is written as whole words.
pub proof fn packed_outputs_have_the_frame_size(
    dimensions: (u32, u32),
    pipeline: ComputePipeline,
    source_view: RawHandle,
    plan: OutputPlan,
)
    requires
        call_ensures(plan_packed_output, (dimensions, pipeline, source_view), plan),
    ensures
        plan.packed && plan.second is None,
        plan.first.dimensions == dimensions,
        plan.first.format == 44 && plan.first.view_format == Some(98i32),
        plan.first.usage == 0xf && plan.first.flags == 0x8,
        plan.descriptors matches Some(descriptors) && descriptors.set_layout
            == pipeline.descriptor_set_layout && descriptors.source_view == source_view
            && descriptors.storage_images == 1,
{
    lemma_usages();
}

/// An output is made image by image, each followed by its view where the shader needs views, and
/// then the descriptors; it is finished only when all of that exists.
pub proof fn outputs_are_made_in_order(build: OutputBuild, action: OutputAction)
    requires
        build.well_formed(),
        call_ensures(OutputBuild::next, (&build,), action),
    ensures
        match action {
            OutputAction::CreateImage(plan) => {
                &&& build.images.len() == 0 ==> plan == build.plan.first
                &&& build.images.len() > 0 ==> build.images.len() == 1 && build.plan.second == Some(
                    plan,
                )
                &&& build.plan.descriptors is Some ==> build.views.len() == build.images.len()
            },
            OutputAction::CreateView { image, format } => {
                &&& build.plan.descriptors is Some
                &&& build.views.len() + 1 == build.images.len()
                &&& image == build.images@.last().image
                &&& build.views.len() == 0 ==> format == (match build.plan.first.view_format {
                    Some(other) => other,
                    None => build.plan.first.format,
                })
                &&& build.views.len() == 1 ==> (build.plan.second matches Some(second) && format
                    == match second.view_format {
                    Some(other) => other,
                    None => second.format,
                })
            },
            OutputAction::CreateDescriptorPool { storage_images } => {
                &&& build.descriptor_pool is None
                &&& build.views.len() == build.images.len()
                &&& build.images.len() == 2 <==> build.plan.second is Some
                &&& build.plan.descriptors matches Some(descriptors) && descriptors.storage_images
                    == storage_images
            },
            OutputAction::AllocateDescriptorSet { pool, layout } => {
                &&& build.descriptor_pool == Some(pool)
                &&& build.plan.descriptors matches Some(descriptors) && descriptors.set_layout
                    == layout
            },
            OutputAction::Finish => {
                &&& build.plan.descriptors is None
                &&& build.images.len() == 2 <==> build.plan.second is Some
                &&& build.images.len() >= 1
            },
        },
{
}

/// A finished biplanar output has the images and views that were made, the luma first, in the shape
/// that its strategy writes.
pub proof fn finished_outputs_are_what_was_made(
    build: OutputBuild,
    strategy: Nv12ImportStrategy,
    descriptor_set: Option<RawHandle>,
    output: StagedOutput,
)
    requires
        call_ensures(finish_staged_output, (build, strategy, descriptor_set), output),
    ensures
        output.descriptor_pool == build.descriptor_pool,
        output.descriptor_set == descriptor_set,
        match output.resources {
            StagedOutputResources::Rgba { view, sampled } => strategy is LinearBufferToRgba && view
                == build.views[0] && sampled == build.images[0],
            StagedOutputResources::Nv12 { sampled } => (strategy is LinearBufferToOptimalNv12
                || strategy is DirectSampledImage) && sampled == build.images[0],
            StagedOutputResources::TransferYuvPlanes { luma, chroma } => strategy
                is LinearBufferToOptimalYuvPlanes && luma == build.images[0] && chroma
                == build.images[1],
            StagedOutputResources::YuvPlanes { luma_view, luma, chroma_view, chroma } => strategy
                is LinearBufferToYuvPlanes && luma == build.images[0] && chroma == build.images[1]
                && luma_view == build.views[0] && chroma_view == build.views[1],
        },
{
}

/// A finished packed output has the image and the view that were made.
pub proof fn finished_packed_outputs_are_what_was_made(
    build: OutputBuild,
    descriptor_set: RawHandle,
    output: PackedOutput,
)
    requires
        call_ensures(finish_packed_output, (build, descriptor_set), output),
    ensures
        output.sampled == build.images[0],
        output.storage_view == build.views[0],
        output.descriptor_set == descriptor_set,
        build.descriptor_pool matches Some(pool) ==> output.descriptor_pool == pool,
{
}

/// The shader finds its source at binding zero, then the image or the luma plane, then the chroma
/// plane; only outputs that a shader writes have descriptors.
pub proof fn shaders_find_source_and_outputs(
    output: StagedOutput,
    source_view: RawHandle,
    result: Result<Vec<DescriptorWrite>, String>,
    packed: PackedOutput,
    packed_result: Vec<DescriptorWrite>,
)
    requires
        call_ensures(staged_descriptor_writes, (output, source_view), result),
        call_ensures(packed_descriptor_writes, (packed, source_view), packed_result),
    ensures
        result is Ok <==> output.descriptor_set is Some && (output.resources is Rgba
            || output.resources is YuvPlanes),
        result matches Ok(writes) ==> {
            let set = output.descriptor_set.unwrap();
            &&& writes@[0] == (DescriptorWrite::TexelBuffer { set, binding: 0, view: source_view })
            &&& match output.resources {
                StagedOutputResources::Rgba { view, .. } => writes@.len() == 2 && writes@[1] == (
                DescriptorWrite::StorageImage { set, binding: 1, view }),
                StagedOutputResources::YuvPlanes { luma_view, chroma_view, .. } => writes@.len()
                    == 3 && writes@[1] == (DescriptorWrite::StorageImage {
                    set,
                    binding: 1,
                    view: luma_view,
                }) && writes@[2] == (DescriptorWrite::StorageImage {
                    set,
                    binding: 2,
                    view: chroma_view,
                }),
                _ => false,
            }
        },
        packed_result@.len() == 2,
        packed_result@[0] == (DescriptorWrite::TexelBuffer {
            set: packed.descriptor_set,
            binding: 0,
            view: source_view,
        }),
        packed_result@[1] == (DescriptorWrite::StorageImage {
            set: packed.descriptor_set,
            binding: 1,
            view: packed.storage_view,
        }),
{
}

/// A scanout buffer is admitted if and only if its inputs are sound, it has a size, the device
/// supports its modifier, and a probe of its descriptor found that very size. What is planned is the
/// buffer itself, as one BGRA plane.
pub proof fn scanout_buffers_are_admitted_part_by_part(
    request: ScanoutImport,
    modifiers: &[DrmModifierProperties],
    external: Result<ExternalModifierCapability, i32>,
    probe: Result<DmaBufProbe, String>,
    inputs: Result<(), String>,
    support: Result<(), String>,
    identity: Result<DmaBufIdentity, VulkanImportError>,
    result: Result<DirectImagePlan, VulkanImportError>,
)
    requires
        call_ensures(
            validate_image_inputs,
            (request.dimensions, request.source_fd, request.plane),
            inputs,
        ),
        call_ensures(
            validate_bgra_scanout_import_support,
            (modifiers, request.modifier, external),
            support,
        ),
        call_ensures(
            checked_identity,
            (request.source_fd, request.source_size, probe),
            identity,
        ),
        call_ensures(plan_bgra_scanout, (request, modifiers, external, probe), result),
    ensures
        result is Ok <==> inputs is Ok && request.source_size > 0 && support is Ok && identity
            is Ok,
        result matches Ok(plan) ==> {
            &&& plan.dimensions == request.dimensions
            &&& plan.source_fd == request.source_fd && plan.source_size == request.source_size
            &&& plan.modifier == request.modifier
            &&& plan.first_plane == request.plane && plan.second_plane is None
            &&& plan.format == 44 && plan.usage == request.usage
        },
        result matches Err(error) ==> (inputs is Err || request.source_size == 0 || support is Err
            ==> error is Other) && (inputs is Ok && request.source_size > 0 && support is Ok
            ==> error@ == identity->Err_0@),
{
}

/// An image tells what it holds.
pub proof fn images_tell_what_they_hold(
    image: ImportedDmaBufImage,
    id: ImportId,
    value: u64,
    dimensions: (u32, u32),
    modifier: u64,
    usage: u32,
    tiling: i32,
    released: bool,
)
    requires
        call_ensures(ImportedDmaBufImage::import_id, (&image,), id),
        call_ensures(ImportId::get, (id,), value),
        call_ensures(ImportedDmaBufImage::dimensions, (&image,), dimensions),
        call_ensures(ImportedDmaBufImage::modifier, (&image,), modifier),
        call_ensures(ImportedDmaBufImage::sampled_usage, (&image,), usage),
        call_ensures(ImportedDmaBufImage::sampled_tiling, (&image,), tiling),
        call_ensures(ImportedDmaBufImage::staged_source_released, (&image,), released),
    ensures
        id == image.import_id && value == image.import_id.value,
        dimensions == image.dimensions && modifier == image.modifier,
        usage == image.sampled_usage && tiling == image.sampled_tiling,
        released <==> match image.kind {
            ImportedKind::StagedPacked(staged) => staged.lease.released,
            ImportedKind::StagedNv12(staged) => staged.lease.released,
            _ => false,
        },
{
}

/// Importers count from one, and what is left of an import is destroyed as what it is.
pub proof fn orphans_are_destroyed_as_what_they_are(
    ids: ImportIds,
    orphan: Orphan,
    objects: Vec<DeviceObject>,
    image: ImageAllocation,
    image_objects: Vec<DeviceObject>,
    planar: StagedOutput,
    planar_objects: Vec<DeviceObject>,
    packed: PackedOutput,
    packed_objects: Vec<DeviceObject>,
)
    requires
        call_ensures(ImportIds::new, (), ids),
        call_ensures(Orphan::teardown, (orphan,), objects),
        call_ensures(ImageAllocation::teardown, (image,), image_objects),
        call_ensures(StagedOutput::teardown, (planar,), planar_objects),
        call_ensures(PackedOutput::teardown, (packed,), packed_objects),
    ensures
        ids.next == 1,
        orphan == Orphan::Image(image) ==> objects@ == image_objects@,
        orphan == Orphan::Nv12Output(planar) ==> objects@ == planar_objects@,
        orphan == Orphan::PackedOutput(packed) ==> objects@ == packed_objects@,
{
}

} // verus!
