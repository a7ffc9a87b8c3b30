//! What holds of capabilities, whatever the device reports.

use vstd::prelude::*;

use crate::vulkan::capability::{
    resolve_nv12_modifier_capability, same_nv12_capability, validate_nv12_modifier_capability,
    Nv12ModifierCapability, Nv12ResolveRequest,
};
use crate::vulkan::color::Nv12Conversion;
use crate::vulkan::flags::{contains, intersects};
use crate::vulkan::inventory::{
    check_optimal_format, direct_candidates, imported_memory_type, inventory,
    inventory_nv12_modifier_capabilities,
    inventory_nv12_modifier_capabilities_with_staging_preference, linear_modifier,
    linear_nv12_compute_capability, linear_nv12_transfer_capability, memory_type,
    select_memory_type, selected_queue_flags, validate_bgra_scanout_import_support,
    validate_direct_modifier, validate_external_import, validate_packed_import_support,
    validate_packed_staging_support, validate_rgba_import_support, validate_sync_fd_import,
    DrmModifierProperties, ExternalMemoryProperties, ExternalModifierCapability, Nv12ModifierReport,
    Nv12StagingReport, OptimalFormatReport, PackedStagingReport, QueueFamilyProperties,
};
use crate::vulkan::types::{
    Extent3D, Nv12AllocationBindingRecipe, Nv12ImportStrategy, Nv12StagingPreference,
    PackedImageFormat,
};

verus! {

/// Every bit of `wanted` is in `flags`.
pub open spec fn holds(flags: u32, wanted: u32) -> bool {
    flags & wanted == wanted
}

/// DMA-BUFs can be imported: the importable bit is set, and the DMA-BUF handle is compatible.
pub open spec fn takes_dma_bufs(features: u32, handles: u32) -> bool {
    holds(features, 0x4) && holds(handles, 0x200)
}

proof fn lemma_masks()
    ensures
        0x80u32 | 0x4000u32 | 0x8000u32 == 0xc080,
        0x1u32 | 0x4000u32 | 0x8000u32 | 0x80u32 == 0xc081,
        0x1u32 | 0x2u32 | 0x4000u32 | 0x8000u32 == 0xc003,
        0x1u32 | 0x1000u32 | 0x4_0000u32 | 0x2_0000u32 | 0x80_0000u32 | 0x4000u32 | 0x8000u32
            == 0x86_d001,
        0x1u32 | 0x1000u32 | 0x4000u32 | 0x8000u32 == 0xd001,
        0x1u32 | 0x1000u32 | 0x2u32 | 0x4000u32 | 0x8000u32 == 0xd003,
        0x1u32 | 0x1000u32 | 0x2u32 == 0x1003,
        0x1u32 | 0x2u32 | 0x4u32 == 0x7,
        0x1u32 | 0x1000u32 | 0x4_0000u32 | 0x2_0000u32 == 0x6_1001,
        0x1u32 | 0x1000u32 | 0x4_0000u32 | 0x80_0000u32 == 0x84_1001,
        0x1u32 | 0x1000u32 | 0x4_0000u32 | (0x2_0000u32 | 0x80_0000u32) == 0x86_1001,
        0x6_1001u32 | 0x4000u32 | 0x8000u32 == 0x6_d001,
        0x84_1001u32 | 0x4000u32 | 0x8000u32 == 0x84_d001,
        0x86_1001u32 | 0x4000u32 | 0x8000u32 == 0x86_d001,
{
    assert(0x80u32 | 0x4000u32 | 0x8000u32 == 0xc080 && 0x1u32 | 0x4000u32 | 0x8000u32 | 0x80u32
        == 0xc081 && 0x1u32 | 0x2u32 | 0x4000u32 | 0x8000u32 == 0xc003 && 0x1u32 | 0x1000u32
        | 0x4_0000u32 | 0x2_0000u32 | 0x80_0000u32 | 0x4000u32 | 0x8000u32 == 0x86_d001 && 0x1u32
        | 0x1000u32 | 0x4000u32 | 0x8000u32 == 0xd001 && 0x1u32 | 0x1000u32 | 0x2u32 | 0x4000u32
        | 0x8000u32 == 0xd003 && 0x1u32 | 0x1000u32 | 0x2u32 == 0x1003 && 0x1u32 | 0x2u32 | 0x4u32
        == 0x7) by (bit_vector);
    assert(0x1u32 | 0x1000u32 | 0x4_0000u32 | 0x2_0000u32 == 0x6_1001 && 0x1u32 | 0x1000u32
        | 0x4_0000u32 | 0x80_0000u32 == 0x84_1001 && 0x1u32 | 0x1000u32 | 0x4_0000u32 | (
    0x2_0000u32 | 0x80_0000u32) == 0x86_1001 && 0x6_1001u32 | 0x4000u32 | 0x8000u32 == 0x6_d001
        && 0x84_1001u32 | 0x4000u32 | 0x8000u32 == 0x84_d001 && 0x86_1001u32 | 0x4000u32 | 0x8000u32
        == 0x86_d001) by (bit_vector);
}

/// A capability serves a frame if and only if the frame has an area and fits, DMA-BUFs can be
/// imported, and what the strategy needs is there: two memory planes for direct sampling, a linear
/// modifier for all others, BT.709 for separate planes and conversions, and the sampling, filtering,
/// siting, copying and storage that the strategy makes use of.
pub proof fn capabilities_serve_what_they_can(
    capability: Nv12ModifierCapability,
    dimensions: (u32, u32),
    conversion: Nv12Conversion,
    result: Result<(), String>,
)
    requires
        call_ensures(
            validate_nv12_modifier_capability,
            (capability, dimensions, conversion),
            result,
        ),
    ensures
        result is Ok <==> {
            let middle = conversion.x_offset is Midpoint && conversion.y_offset is Midpoint;
            let even = conversion.x_offset is CositedEven && conversion.y_offset is CositedEven;
            &&& 0 < dimensions.0 <= capability.max_extent.width
            &&& 0 < dimensions.1 <= capability.max_extent.height
            &&& takes_dma_bufs(capability.external_features, capability.compatible_handle_types)
            &&& match capability.strategy {
                Nv12ImportStrategy::DirectSampledImage => {
                    &&& capability.modifier_plane_count == 2
                    &&& holds(
                        capability.sampled_tiling_features,
                        if middle {
                            0x6_1001u32
                        } else if even {
                            0x84_1001
                        } else {
                            0x86_1001
                        },
                    )
                },
                Nv12ImportStrategy::LinearBufferToOptimalNv12 => {
                    &&& capability.modifier == 0
                    &&& holds(
                        capability.sampled_tiling_features,
                        if middle {
                            0x6_d001u32
                        } else if even {
                            0x84_d001
                        } else {
                            0x86_d001
                        },
                    )
                },
                Nv12ImportStrategy::LinearBufferToOptimalYuvPlanes => {
                    &&& capability.modifier == 0 && conversion.model is Bt709
                    &&& holds(capability.sampled_tiling_features, 0xd001)
                },
                Nv12ImportStrategy::LinearBufferToYuvPlanes
                | Nv12ImportStrategy::LinearBufferToRgba => {
                    &&& capability.modifier == 0 && conversion.model is Bt709
                    &&& holds(capability.sampled_tiling_features, 0x1003)
                },
            }
        },
{
    lemma_masks();
}

/// A smaller frame is served wherever a larger one is.
pub proof fn smaller_frames_are_served_too(
    capability: Nv12ModifierCapability,
    dimensions: (u32, u32),
    smaller: (u32, u32),
    conversion: Nv12Conversion,
    result: Result<(), String>,
)
    requires
        call_ensures(
            validate_nv12_modifier_capability,
            (capability, dimensions, conversion),
            Ok(()),
        ),
        call_ensures(validate_nv12_modifier_capability, (capability, smaller, conversion), result),
        0 < smaller.0 <= dimensions.0,
        0 < smaller.1 <= dimensions.1,
    ensures
        result is Ok,
{
}

/// A stream gets the first capability, in the device's order, that is for its modifier and serves
/// its frames, and none if and only if there is none.
pub proof fn streams_get_the_first_capability_that_serves(
    candidates: &[Nv12ModifierCapability],
    request: Nv12ResolveRequest,
    result: Result<Nv12ModifierCapability, String>,
    serves: spec_fn(int) -> Result<(), String>,
)
    requires
        call_ensures(resolve_nv12_modifier_capability, (candidates, request), result),
        forall|index: int|
            0 <= index < candidates@.len() ==> call_ensures(
                validate_nv12_modifier_capability,
                (candidates@[index], request.dimensions, request.conversion),
                #[trigger] serves(index),
            ),
    ensures
        result matches Ok(found) ==> exists|index: int|
            0 <= index < candidates@.len() && candidates@[index] == found && found.modifier
                == request.modifier && #[trigger] serves(index) is Ok && forall|before: int|
                0 <= before < index ==> candidates@[before].modifier != request.modifier
                    || #[trigger] serves(before) is Err,
        result is Err ==> forall|index: int|
            0 <= index < candidates@.len() ==> candidates@[index].modifier != request.modifier
                || #[trigger] serves(index) is Err,
{
    assert forall|index: int| 0 <= index < candidates@.len() implies (crate::vulkan::capability::answers(
        candidates@[index],
        request,
    ) <==> candidates@[index].modifier == request.modifier && #[trigger] serves(index) is Ok) by {
        assert(call_ensures(
            validate_nv12_modifier_capability,
            (candidates@[index], request.dimensions, request.conversion),
            serves(index),
        ));
    }
    if let Ok(found) = result {
        let index = choose|index: int|
            0 <= index < candidates@.len() && candidates@[index] == found
                && crate::vulkan::capability::answers(#[trigger] candidates@[index], request)
                && forall|before: int|
                0 <= before < index ==> !crate::vulkan::capability::answers(
                    #[trigger] candidates@[before],
                    request,
                );
        assert(serves(index) is Ok);
        assert forall|before: int| 0 <= before < index implies candidates@[before].modifier
            != request.modifier || #[trigger] serves(before) is Err by {
            assert(!crate::vulkan::capability::answers(candidates@[before], request));
        }
    } else {
        assert forall|index: int| 0 <= index < candidates@.len() implies candidates@[index].modifier
            != request.modifier || #[trigger] serves(index) is Err by {
            assert(!crate::vulkan::capability::answers(candidates@[index], request));
        }
    }
}

/// Two capabilities are the same if and only if they agree in everything.
pub proof fn same_capabilities_agree_in_everything(
    one: Nv12ModifierCapability,
    other: Nv12ModifierCapability,
    same: bool,
)
    requires
        call_ensures(same_nv12_capability, (one, other), same),
    ensures
        same <==> {
            &&& one.modifier == other.modifier && one.strategy == other.strategy
            &&& one.modifier_plane_count == other.modifier_plane_count
            &&& one.source_tiling_features == other.source_tiling_features
            &&& one.sampled_tiling_features == other.sampled_tiling_features
            &&& one.external_features == other.external_features
            &&& one.compatible_handle_types == other.compatible_handle_types
            &&& one.max_extent == other.max_extent
        },
{
}

/// Memory is bound as the strategy asks for, and no two strategies bind it alike.
pub proof fn recipes_go_with_strategies(
    capability: Nv12ModifierCapability,
    recipe: Nv12AllocationBindingRecipe,
)
    requires
        call_ensures(Nv12ModifierCapability::allocation_recipe, (capability,), recipe),
    ensures
        recipe is DirectSharedImage <==> capability.strategy is DirectSampledImage,
        recipe is LinearBufferToOptimalNv12 <==> capability.strategy is LinearBufferToOptimalNv12,
        recipe is LinearBufferToOptimalYuvPlanes <==> capability.strategy
            is LinearBufferToOptimalYuvPlanes,
        recipe is LinearBufferToYuvPlanes <==> capability.strategy is LinearBufferToYuvPlanes,
        recipe is LinearBufferToRgba <==> capability.strategy is LinearBufferToRgba,
{
}

/// The flags of a queue are those of its family, where the family exists and has a queue.
pub proof fn queues_have_the_flags_of_their_family(
    families: &[QueueFamilyProperties],
    index: u32,
    flags: u32,
)
    requires
        call_ensures(selected_queue_flags, (families, index), flags),
    ensures
        index < families@.len() && families@[index as int].queue_count > 0 ==> flags
            == families@[index as int].queue_flags,
        index >= families@.len() ==> flags == 0,
        index < families@.len() && families@[index as int].queue_count == 0 ==> flags == 0,
{
}

/// Memory can be imported if and only if it is importable as a DMA-BUF, and a sync file if and only
/// if semaphores are importable from one.
pub proof fn imports_need_importable_handles(
    properties: ExternalMemoryProperties,
    label: &str,
    result: Result<(), String>,
    features: u32,
    handles: u32,
    semaphore: Result<(), String>,
)
    requires
        call_ensures(validate_external_import, (properties, label), result),
        call_ensures(validate_sync_fd_import, (features, handles), semaphore),
    ensures
        result is Ok <==> holds(properties.features, 0x4) && holds(
            properties.compatible_handle_types,
            0x200,
        ),
        semaphore is Ok <==> holds(features, 0x2) && holds(handles, 0x10),
{
}

/// The device has the modifier with one plane and with the wanted features.
pub open spec fn has_modifier(
    modifiers: Seq<DrmModifierProperties>,
    modifier: u64,
    wanted: u32,
) -> bool {
    exists|index: int|
        0 <= index < modifiers.len() && (#[trigger] modifiers[index]).modifier == modifier
            && modifiers[index].plane_count == 1 && holds(
            modifiers[index].tiling_features,
            wanted,
        )
}

/// The modifier can be imported.
pub open spec fn can_be_imported(external: Result<ExternalModifierCapability, i32>) -> bool {
    external matches Ok(found) && takes_dma_bufs(
        found.external_features,
        found.compatible_handle_types,
    )
}

/// An image can be imported directly if and only if the device has its modifier with one plane and
/// with the features that are used, and can import it: color attachment and copies for scanout, and
/// sampling besides for packed images.
pub proof fn direct_images_need_a_modifier_with_features(
    modifiers: &[DrmModifierProperties],
    format: i32,
    modifier: u64,
    wanted: u32,
    label: &str,
    external: Result<ExternalModifierCapability, i32>,
    packed_format: PackedImageFormat,
    direct: Result<(), String>,
    scanout: Result<(), String>,
    packed: Result<(), String>,
    rgba: Result<(), String>,
)
    requires
        call_ensures(
            validate_direct_modifier,
            (modifiers, format, modifier, wanted, label, external),
            direct,
        ),
        call_ensures(
            validate_bgra_scanout_import_support,
            (modifiers, modifier, external),
            scanout,
        ),
        call_ensures(
            validate_packed_import_support,
            (modifiers, packed_format, modifier, external),
            packed,
        ),
        call_ensures(validate_rgba_import_support, (modifiers, modifier, external), rgba),
    ensures
        direct is Ok <==> has_modifier(modifiers@, modifier, wanted) && can_be_imported(external),
        scanout is Ok <==> has_modifier(modifiers@, modifier, 0xc080) && can_be_imported(external),
        packed is Ok <==> has_modifier(modifiers@, modifier, 0xc081) && can_be_imported(external),
        rgba is Ok <==> has_modifier(modifiers@, modifier, 0xc081) && can_be_imported(external),
{
    lemma_masks();
    lemma_has_modifier(modifiers@, modifier, wanted);
    lemma_has_modifier(modifiers@, modifier, 0xc080);
    lemma_has_modifier(modifiers@, modifier, 0xc081);
}

proof fn lemma_has_modifier(modifiers: Seq<DrmModifierProperties>, modifier: u64, wanted: u32)
    ensures
        has_modifier(modifiers, modifier, wanted)
            == crate::vulkan::inventory::has_single_plane_modifier(modifiers, modifier, wanted),
{
    if has_modifier(modifiers, modifier, wanted) {
        let index = choose|index: int|
            0 <= index < modifiers.len() && (#[trigger] modifiers[index]).modifier == modifier
                && modifiers[index].plane_count == 1 && holds(
                modifiers[index].tiling_features,
                wanted,
            );
        assert(modifiers[index].modifier == modifier);
    }
}

/// An optimal format is usable if and only if it has the features and an extent, and it is then
/// reported with exactly those.
pub proof fn optimal_formats_are_reported_as_they_are(
    format: i32,
    wanted: u32,
    report: OptimalFormatReport,
    result: Result<(u32, Extent3D), String>,
)
    requires
        call_ensures(check_optimal_format, (format, wanted, report), result),
    ensures
        result is Ok <==> holds(report.features, wanted) && report.max_extent is Ok,
        result matches Ok((features, extent)) ==> features == report.features && report.max_extent
            == Ok::<_, i32>(extent),
{
}

/// An optimal image with the features can be made.
pub open spec fn can_be_made(report: OptimalFormatReport, wanted: u32) -> bool {
    holds(report.features, wanted) && report.max_extent is Ok
}

/// Packed pixels can be staged if and only if they are linear, the queue computes, the source can be
/// imported and read as texels, and the output can be sampled, stored and copied and viewed as words.
pub proof fn packed_staging_needs_a_linear_source_and_compute(
    format: PackedImageFormat,
    modifier: u64,
    report: PackedStagingReport,
    result: Result<(), String>,
)
    requires
        call_ensures(validate_packed_staging_support, (format, modifier, report), result),
    ensures
        result is Ok <==> {
            &&& modifier == 0
            &&& holds(report.queue_flags, 0x2)
            &&& takes_dma_bufs(report.source.features, report.source.compatible_handle_types)
            &&& holds(report.source_texel_features, 0x8)
            &&& can_be_made(report.output, 0xc003)
            &&& holds(report.storage_view_features, 0x2)
        },
{
    lemma_masks();
}

/// `extent` is the largest at which both planes exist, chroma being half as large.
pub open spec fn fits_both(extent: Extent3D, luma: Extent3D, chroma: Extent3D) -> bool {
    &&& extent.width <= luma.width && extent.width <= 2 * chroma.width
    &&& extent.height <= luma.height && extent.height <= 2 * chroma.height
    &&& extent.width == luma.width || extent.width == 2 * chroma.width
    &&& extent.height == luma.height || extent.height == 2 * chroma.height
    &&& extent.depth == 1
}

/// A capability for staging linear frames: what it says of the source is what the device says.
pub open spec fn stages_linear(
    capability: Nv12ModifierCapability,
    linear: DrmModifierProperties,
    source: ExternalMemoryProperties,
) -> bool {
    &&& capability.modifier == 0
    &&& capability.modifier_plane_count == linear.plane_count
    &&& capability.source_tiling_features == linear.tiling_features
    &&& capability.external_features == source.features
    &&& capability.compatible_handle_types == source.compatible_handle_types
}

/// Frames can be copied if and only if the queue does anything at all, the source can be imported,
/// and a multi-planar image, or else a luma and a chroma image, can be made to copy into. The
/// multi-planar image goes first; two planes have the features that both have and the extent at
/// which both exist.
pub proof fn copies_go_into_one_image_or_two_planes(
    linear: DrmModifierProperties,
    report: Nv12StagingReport,
    result: Result<Nv12ModifierCapability, String>,
)
    requires
        call_ensures(linear_nv12_transfer_capability, (linear, report), result),
    ensures
        result is Ok <==> {
            &&& report.queue_flags & 0x7 != 0
            &&& takes_dma_bufs(
                report.transfer_source.features,
                report.transfer_source.compatible_handle_types,
            )
            &&& can_be_made(report.transfer_nv12, 0x86_d001) || (can_be_made(
                report.transfer_luma,
                0xd001,
            ) && can_be_made(report.transfer_chroma, 0xd001))
        },
        result matches Ok(capability) ==> {
            &&& stages_linear(capability, linear, report.transfer_source)
            &&& if can_be_made(report.transfer_nv12, 0x86_d001) {
                &&& capability.strategy is LinearBufferToOptimalNv12
                &&& capability.sampled_tiling_features == report.transfer_nv12.features
                &&& report.transfer_nv12.max_extent == Ok::<_, i32>(capability.max_extent)
            } else {
                &&& capability.strategy is LinearBufferToOptimalYuvPlanes
                &&& capability.sampled_tiling_features == report.transfer_luma.features
                    & report.transfer_chroma.features
                &&& fits_both(
                    capability.max_extent,
                    report.transfer_luma.max_extent->Ok_0,
                    report.transfer_chroma.max_extent->Ok_0,
                )
            }
        },
{
    lemma_masks();
}

/// Frames can be staged by a shader if and only if the queue computes, the source can be imported
/// and read as texels, and the outputs that the preference allows can be made: planes unless RGBA is
/// required, RGBA unless planes are required, and planes first.
pub proof fn shaders_write_planes_before_rgba(
    linear: DrmModifierProperties,
    report: Nv12StagingReport,
    preference: Nv12StagingPreference,
    result: Result<Nv12ModifierCapability, String>,
)
    requires
        call_ensures(linear_nv12_compute_capability, (linear, report, preference), result),
    ensures
        ({
            let planes = !(preference is RequireRgba) && can_be_made(report.compute_luma, 0xd003)
                && can_be_made(report.compute_chroma, 0xd003);
            let rgba = !(preference is RequirePlanar) && can_be_made(report.compute_rgba, 0xd003);
            &&& result is Ok <==> {
                &&& holds(report.queue_flags, 0x2)
                &&& takes_dma_bufs(
                    report.texel_source.features,
                    report.texel_source.compatible_handle_types,
                )
                &&& holds(report.source_texel_features, 0x8)
                &&& planes || rgba
            }
            &&& result matches Ok(capability) ==> {
                &&& stages_linear(capability, linear, report.texel_source)
                &&& if planes {
                    &&& capability.strategy is LinearBufferToYuvPlanes
                    &&& capability.sampled_tiling_features == report.compute_luma.features
                        & report.compute_chroma.features
                    &&& fits_both(
                        capability.max_extent,
                        report.compute_luma.max_extent->Ok_0,
                        report.compute_chroma.max_extent->Ok_0,
                    )
                } else {
                    &&& capability.strategy is LinearBufferToRgba
                    &&& capability.sampled_tiling_features == report.compute_rgba.features
                    &&& report.compute_rgba.max_extent == Ok::<_, i32>(capability.max_extent)
                }
            }
        }),
{
    lemma_masks();
}

/// The modifier can be sampled directly: it has two memory planes, and DMA-BUFs with it can be
/// imported.
pub open spec fn is_direct(report: Nv12ModifierReport) -> bool {
    report.properties.plane_count == 2 && (report.external matches Some(found) && takes_dma_bufs(
        found.external_features,
        found.compatible_handle_types,
    ))
}

/// The capability says of direct sampling what the device reports of the modifier.
pub open spec fn is_direct_capability(
    capability: Nv12ModifierCapability,
    report: Nv12ModifierReport,
) -> bool {
    &&& capability.strategy is DirectSampledImage
    &&& capability.modifier == report.properties.modifier
    &&& capability.modifier_plane_count == report.properties.plane_count
    &&& capability.source_tiling_features == report.properties.tiling_features
    &&& capability.sampled_tiling_features == report.properties.tiling_features
    &&& report.external matches Some(found)
    &&& capability.external_features == found.external_features
    &&& capability.compatible_handle_types == found.compatible_handle_types
    &&& capability.max_extent == found.max_extent
}

/// Each direct modifier has its place among the direct candidates.
proof fn lemma_direct_place(modifiers: Seq<Nv12ModifierReport>, index: int, count: int)
    requires
        0 <= index < count <= modifiers.len(),
        is_direct(modifiers[index]),
    ensures
        0 <= direct_candidates(modifiers, index).len() < direct_candidates(modifiers, count).len(),
        is_direct_capability(
            direct_candidates(modifiers, count)[direct_candidates(modifiers, index).len() as int],
            modifiers[index],
        ),
    decreases count,
{
    reveal_with_fuel(direct_candidates, 2);
    if index < count - 1 {
        lemma_direct_place(modifiers, index, count - 1);
    }
}

/// Candidates only grow in number.
proof fn lemma_direct_grows(modifiers: Seq<Nv12ModifierReport>, from: int, to: int)
    requires
        0 <= from <= to <= modifiers.len(),
    ensures
        direct_candidates(modifiers, from).len() <= direct_candidates(modifiers, to).len(),
    decreases to - from,
{
    if from < to {
        lemma_direct_grows(modifiers, from, to - 1);
    }
}

/// Every direct candidate comes from a direct modifier.
proof fn lemma_direct_origin(
    modifiers: Seq<Nv12ModifierReport>,
    count: int,
    place: int,
) -> (origin: int)
    requires
        0 <= count <= modifiers.len(),
        0 <= place < direct_candidates(modifiers, count).len(),
    ensures
        0 <= origin < count,
        is_direct(modifiers[origin]),
        is_direct_capability(direct_candidates(modifiers, count)[place], modifiers[origin]),
    decreases count,
{
    if place < direct_candidates(modifiers, count - 1).len() {
        lemma_direct_origin(modifiers, count - 1, place)
    } else {
        count - 1
    }
}

/// What the linear modifier is among the reports.
proof fn lemma_linear(modifiers: Seq<Nv12ModifierReport>, from: int)
    requires
        0 <= from <= modifiers.len(),
    ensures
        match linear_modifier(modifiers, from) {
            Some(linear) => linear.modifier == 0 && exists|index: int|
                from <= index < modifiers.len() && (#[trigger] modifiers[index]).properties
                    == linear,
            None => forall|index: int|
                from <= index < modifiers.len() ==> (
                #[trigger] modifiers[index]).properties.modifier != 0,
        },
    decreases modifiers.len() - from,
{
    if from < modifiers.len() {
        lemma_linear(modifiers, from + 1);
        if modifiers[from].properties.modifier == 0 {
            assert(linear_modifier(modifiers, from) == Some(modifiers[from].properties));
        } else if linear_modifier(modifiers, from + 1) is Some {
            let linear = linear_modifier(modifiers, from + 1).unwrap();
            let index = choose|index: int|
                from + 1 <= index < modifiers.len() && (#[trigger] modifiers[index]).properties
                    == linear;
            assert(modifiers[index].properties == linear);
        }
    }
}

/// A device is offered for direct sampling with the modifiers that can be sampled directly, in its
/// own order, and only where nothing else is required.
pub proof fn direct_modifiers_are_offered_in_order(
    modifiers: &[Nv12ModifierReport],
    report: Nv12StagingReport,
    preference: Nv12StagingPreference,
    capabilities: Vec<Nv12ModifierCapability>,
    index: int,
    later: int,
    place: int,
)
    requires
        call_ensures(
            inventory_nv12_modifier_capabilities_with_staging_preference,
            (modifiers, report, preference),
            capabilities,
        ),
    ensures
        preference is PreferPlanar && 0 <= index < modifiers@.len() && is_direct(modifiers@[index])
            ==> exists|at: int|
            0 <= at < capabilities@.len() && is_direct_capability(
                #[trigger] capabilities@[at],
                modifiers@[index],
            ),
        preference is PreferPlanar && 0 <= index < later < modifiers@.len() && is_direct(
            modifiers@[index],
        ) && is_direct(modifiers@[later]) ==> exists|at: int, behind: int|
            #![trigger capabilities@[at], capabilities@[behind]]
            0 <= at < behind < capabilities@.len() && is_direct_capability(
                capabilities@[at],
                modifiers@[index],
            ) && is_direct_capability(capabilities@[behind], modifiers@[later]),
        0 <= place < capabilities@.len() && capabilities@[place].strategy is DirectSampledImage
            ==> preference is PreferPlanar && exists|origin: int|
            0 <= origin < modifiers@.len() && is_direct(#[trigger] modifiers@[origin])
                && is_direct_capability(capabilities@[place], modifiers@[origin]),
{
    let all = modifiers@;
    let count = all.len() as int;
    let direct = direct_candidates(all, count);
    if preference is PreferPlanar && 0 <= index < count && is_direct(all[index]) {
        lemma_direct_place(all, index, count);
        let at = direct_candidates(all, index).len() as int;
        assert(capabilities@[at] == direct[at]);
        if index < later < count && is_direct(all[later]) {
            lemma_direct_place(all, later, count);
            lemma_direct_place(all, index, later);
            let behind = direct_candidates(all, later).len() as int;
            assert(capabilities@[behind] == direct[behind]);
        }
    }
    if 0 <= place < capabilities@.len() && capabilities@[place].strategy is DirectSampledImage {
        if preference is PreferPlanar && place < direct.len() {
            let origin = lemma_direct_origin(all, count, place);
            assert(is_direct(all[origin]));
            assert(capabilities@[place] == direct[place]);
        }
    }
}

/// Staging is offered last and at most once, for linear frames alone: by copies where planes are
/// merely preferred and copies can be made, and else by a shader, where one can be used.
pub proof fn staging_is_offered_last(
    modifiers: &[Nv12ModifierReport],
    report: Nv12StagingReport,
    preference: Nv12StagingPreference,
    capabilities: Vec<Nv12ModifierCapability>,
    place: int,
)
    requires
        call_ensures(
            inventory_nv12_modifier_capabilities_with_staging_preference,
            (modifiers, report, preference),
            capabilities,
        ),
        0 <= place < capabilities@.len(),
        !(capabilities@[place].strategy is DirectSampledImage),
    ensures
        place == capabilities@.len() - 1,
        capabilities@[place].modifier == 0,
        preference is RequirePlanar ==> capabilities@[place].strategy is LinearBufferToYuvPlanes,
        preference is RequireRgba ==> capabilities@[place].strategy is LinearBufferToRgba,
        exists|index: int|
            0 <= index < modifiers@.len() && (#[trigger] modifiers@[index]).properties.modifier
                == 0 && modifiers@[index].properties.plane_count
                == capabilities@[place].modifier_plane_count,
{
    let all = modifiers@;
    let count = all.len() as int;
    lemma_linear(all, 0);
    if preference is PreferPlanar && place < direct_candidates(all, count).len() {
        let origin = lemma_direct_origin(all, count, place);
        assert(capabilities@[place] == direct_candidates(all, count)[place]);
    }
    let linear = linear_modifier(all, 0).unwrap();
    let index = choose|index: int|
        0 <= index < all.len() && (#[trigger] all[index]).properties == linear;
    assert(all[index].properties.modifier == 0);
}

/// Where the device has the linear modifier and can copy or convert linear frames as the preference
/// allows, that is offered: copies before conversions where planes are merely preferred.
pub proof fn linear_staging_is_offered_where_it_can_be_done(
    modifiers: &[Nv12ModifierReport],
    report: Nv12StagingReport,
    preference: Nv12StagingPreference,
    capabilities: Vec<Nv12ModifierCapability>,
    linear: DrmModifierProperties,
    transfer: Result<Nv12ModifierCapability, String>,
    compute: Result<Nv12ModifierCapability, String>,
    index: int,
)
    requires
        call_ensures(
            inventory_nv12_modifier_capabilities_with_staging_preference,
            (modifiers, report, preference),
            capabilities,
        ),
        0 <= index < modifiers@.len(),
        modifiers@[index].properties == linear,
        linear.modifier == 0,
        forall|before: int|
            0 <= before < index ==> (#[trigger] modifiers@[before]).properties.modifier != 0,
        call_ensures(linear_nv12_transfer_capability, (linear, report), transfer),
        call_ensures(linear_nv12_compute_capability, (linear, report, preference), compute),
    ensures
        preference is PreferPlanar && transfer is Ok ==> capabilities@.len() > 0
            && capabilities@.last() == transfer->Ok_0,
        (!(preference is PreferPlanar) || transfer is Err) && compute is Ok ==> capabilities@.len()
            > 0 && capabilities@.last() == compute->Ok_0,
{
    lemma_first_linear(modifiers@, 0, index);
}

proof fn lemma_first_linear(modifiers: Seq<Nv12ModifierReport>, from: int, index: int)
    requires
        0 <= from <= index < modifiers.len(),
        modifiers[index].properties.modifier == 0,
        forall|before: int|
            from <= before < index ==> (#[trigger] modifiers[before]).properties.modifier != 0,
    ensures
        linear_modifier(modifiers, from) == Some(modifiers[index].properties),
    decreases index - from,
{
    if from < index {
        assert(modifiers[from].properties.modifier != 0);
        lemma_first_linear(modifiers, from + 1, index);
    }
}

/// Without a preference, planes are preferred.
pub proof fn planes_are_preferred_by_default(
    modifiers: &[Nv12ModifierReport],
    report: Nv12StagingReport,
    plain: Vec<Nv12ModifierCapability>,
    preferring: Vec<Nv12ModifierCapability>,
)
    requires
        call_ensures(inventory_nv12_modifier_capabilities, (modifiers, report), plain),
        call_ensures(
            inventory_nv12_modifier_capabilities_with_staging_preference,
            (modifiers, report, Nv12StagingPreference::PreferPlanar),
            preferring,
        ),
    ensures
        plain@ == preferring@,
{
}

/// The bit of a memory type is set.
pub open spec fn allows(bits: u32, index: u32) -> bool {
    bits & (1u32 << index) != 0
}

proof fn lemma_memory_type(bits: u32, count: u32, from: u32)
    requires
        from <= count <= 32,
    ensures
        match memory_type(bits, count as int, from as int) {
            Some(index) => from <= index < count && allows(bits, index as u32) && forall|before: u32|
                from <= before < index ==> !#[trigger] allows(bits, before),
            None => forall|index: u32| from <= index < count ==> !#[trigger] allows(bits, index),
        },
    decreases count - from,
{
    if from < count {
        lemma_memory_type(bits, count, (from + 1) as u32);
    }
}

/// Memory gets the first type, of those that the device has, that its bits allow, and none if and
/// only if they allow none. Imported memory gets a type that both the image and the file descriptor
/// allow.
pub proof fn memory_gets_the_first_type_that_is_allowed(
    bits: u32,
    fd_bits: u32,
    count: u32,
    result: Result<u32, String>,
    imported: Result<u32, String>,
)
    requires
        count <= 32,
        call_ensures(select_memory_type, (bits, count), result),
        call_ensures(imported_memory_type, (bits, fd_bits, count), imported),
    ensures
        result matches Ok(index) ==> index < count && allows(bits, index) && forall|before: u32|
            before < index ==> !#[trigger] allows(bits, before),
        result is Err ==> forall|index: u32| index < count ==> !#[trigger] allows(bits, index),
        imported matches Ok(index) ==> index < count && allows(bits, index) && allows(
            fd_bits,
            index,
        ) && forall|before: u32|
            before < index ==> !#[trigger] allows(bits, before) || !allows(fd_bits, before),
        imported is Err ==> forall|index: u32|
            index < count ==> !#[trigger] allows(bits, index) || !allows(fd_bits, index),
{
    lemma_memory_type(bits, count, 0);
    lemma_memory_type(bits & fd_bits, count, 0);
    assert forall|index: u32| index < 32 implies (allows(bits & fd_bits, index) <==> #[trigger]
        allows(bits, index) && allows(fd_bits, index)) by {
        assert(((bits & fd_bits) & (1u32 << index) != 0) <==> (bits & (1u32 << index) != 0
            && fd_bits & (1u32 << index) != 0)) by (bit_vector)
            requires
                index < 32,
        ;
    }
}

/// Flags contain others where every bit is there, and meet them where one is.
pub proof fn flags_are_compared_bit_by_bit(
    flags: u32,
    wanted: u32,
    contained: bool,
    met: bool,
    bit: u32,
)
    requires
        call_ensures(contains, (flags, wanted), contained),
        call_ensures(intersects, (flags, wanted), met),
        bit < 32,
    ensures
        contained ==> (allows(wanted, bit) ==> allows(flags, bit)),
        allows(wanted, bit) && allows(flags, bit) ==> met,
        contained && wanted != 0 ==> met,
        wanted == 0 ==> contained && !met,
        flags == wanted ==> contained,
        contained && flags == 0 ==> wanted == 0,
{
    assert(flags & wanted == wanted ==> (wanted & (1u32 << bit) != 0 ==> flags & (1u32 << bit)
        != 0)) by (bit_vector);
    assert(wanted & (1u32 << bit) != 0 && flags & (1u32 << bit) != 0 ==> flags & wanted != 0)
        by (bit_vector)
        requires
            bit < 32,
    ;
    assert(flags & 0 == 0 && 0 & wanted == 0 && flags & flags == flags) by (bit_vector);
}

} // verus!
