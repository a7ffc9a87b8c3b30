//! What holds of frames on their way into the importer, wherever they are stopped.

use vstd::prelude::*;

use crate::vulkan::cache::{Nv12SourceCacheKey, PackedSourceCacheKey, SourceCache, SourceLease};
use crate::vulkan::error::VulkanImportError;
use crate::vulkan::flags::RawHandle;
use crate::vulkan::image::{
    create_staged_nv12, create_staged_packed, ImportId, ImportedDmaBufImage, ImportedKind, Orphan,
    StagedNv12Request,
};
use crate::vulkan::import::{ImportCounters, VulkanDmaBufImporter};
use crate::vulkan::output::{
    finish_packed_output, finish_staged_output, packed_descriptor_writes, plan_packed_output,
    plan_staged_output, staged_descriptor_writes, DescriptorWrite, OutputBuild, OutputPlan,
};
use crate::vulkan::pool::{Nv12OutputKey, OutputPool, OutputSlot, PackedOutputKey, SlotClaim};
use crate::vulkan::resources::{
    ImageAllocation, Nv12SourceAllocation, PackedOutput, PackedSourceAllocation, StagedOutput,
};
use crate::vulkan::transaction::{
    FrameStep, Nv12Import, Nv12Staging, PackedImport, PackedStaging, RefusedFrame,
};
use crate::vulkan::types::PackedImageImportStrategy;

verus! {

/// What a biplanar frame is staged as.
pub open spec fn request_of(staging: Nv12Staging) -> StagedNv12Request {
    StagedNv12Request {
        dimensions: staging.request.dimensions,
        layout: staging.request.layout,
        conversion: staging.request.conversion,
        strategy: staging.strategy,
        sampled_format_features: staging.request.capability.sampled_tiling_features,
    }
}

/// The staging is that of the frame, with its buffer and the view that a shader reads.
pub open spec fn stages(staging: Nv12Staging, import: Nv12Import) -> bool {
    &&& staging.request == import.request && staging.strategy == import.strategy
    &&& staging.lease == import.lease && staging.pipeline == import.pipeline
    &&& match import.source {
        Nv12SourceAllocation::Direct(_) => false,
        Nv12SourceAllocation::Transfer { source } => staging.buffer == source && staging.view
            is None,
        Nv12SourceAllocation::Compute { view, source } => staging.buffer == source && staging.view
            == Some(view),
    }
}

/// The image is the one that staging into the slot gives, and the writes are those that its shader
/// needs, if any.
pub open spec fn is_staged_into(
    image: ImportedDmaBufImage,
    writes: Seq<DescriptorWrite>,
    id: ImportId,
    staging: Nv12Staging,
    slot: OutputSlot<Nv12OutputKey, StagedOutput>,
) -> bool {
    &&& forall|expected: ImportedDmaBufImage| #[trigger]
        call_ensures(
            create_staged_nv12,
            (id, request_of(staging), staging.lease, staging.buffer, slot, staging.pipeline),
            Ok(expected),
        ) ==> image == expected
    &&& image.import_id == id && image.dimensions == staging.request.dimensions
    &&& image.kind matches ImportedKind::StagedNv12(staged) && staged.lease == staging.lease
        && staged.source == staging.buffer && staged.output == slot
    &&& staging.view is None ==> writes.len() == 0
    &&& staging.view matches Some(view) ==> forall|expected: Vec<DescriptorWrite>| #[trigger]
        call_ensures(staged_descriptor_writes, (slot.resources, view), Ok(expected)) ==> writes
            == expected@
}

/// A biplanar frame that is sampled directly is ready at once, as the image that was made of its
/// source, and touches no output. One that is staged is ready where the pool has a slot for its size
/// and strategy, and else an output is to be built as its strategy plans it. A frame that is refused
/// gives its lease back.
pub proof fn nv12_frames_are_ready_or_need_an_output<N, P>(
    id: ImportId,
    import: Nv12Import,
    staging: Nv12Staging,
    key: Nv12OutputKey,
    claim: Option<SlotClaim<Nv12OutputKey, StagedOutput>>,
    planned: Result<OutputPlan, String>,
    result: Result<FrameStep<Nv12Staging, StagedOutput>, RefusedFrame<StagedOutput>>,
)
    requires
        !(import.source is Direct) ==> stages(staging, import),
        key.dimensions == import.request.dimensions && key.strategy == import.strategy,
        call_ensures(
            plan_staged_output,
            (staging.request.dimensions, staging.strategy, staging.pipeline, staging.view),
            planned,
        ),
    ensures
        forall|
            i: &mut VulkanDmaBufImporter<N, P, StagedOutput, PackedOutput>,
            p: &mut OutputPool<Nv12OutputKey, StagedOutput>,
        |
            #[trigger] call_ensures(
                VulkanDmaBufImporter::<N, P, StagedOutput, PackedOutput>::continue_nv12,
                (i, id, import),
                result,
            ) && #[trigger] call_ensures(
                OutputPool::<Nv12OutputKey, StagedOutput>::claim,
                (p, &key),
                claim,
            ) && *p == (*i).nv12_outputs ==> match import.source {
                Nv12SourceAllocation::Direct(sampled) => {
                    &&& result is Ok <==> import.request.capability.strategy is DirectSampledImage
                    &&& result matches Ok(step) ==> is_sampled_directly(step, id, import, sampled)
                    &&& final(i).nv12_outputs == (*i).nv12_outputs
                },
                _ => {
                    &&& claim matches Some(SlotClaim::Reuse(slot)) ==> (result matches Ok(step) ==> (
                    step matches FrameStep::Ready { image, writes } && is_staged_into(
                        image,
                        writes@,
                        id,
                        staging,
                        slot,
                    ) && final(i).nv12_outputs.places@ == final(p).places@))
                    &&& claim matches Some(SlotClaim::Create { dropped }) ==> {
                        &&& result is Ok <==> planned is Ok
                        &&& result matches Ok(step) ==> (step matches FrameStep::Build {
                            staging: own,
                            plan,
                            dropped: gone,
                        } && own == staging && planned == Ok::<_, String>(plan) && gone == dropped)
                        &&& result matches Err(refused) ==> refused.orphan == dropped
                        &&& final(i).nv12_outputs.places@ == final(p).places@
                    }
                    &&& claim is None ==> (result matches Err(refused) && refused.error
                        is PoolSaturated && refused.orphan is None
                        && final(i).nv12_outputs.places@ == (*i).nv12_outputs.places@)
                },
            },
{
    assert forall|
        i: &mut VulkanDmaBufImporter<N, P, StagedOutput, PackedOutput>,
        p: &mut OutputPool<Nv12OutputKey, StagedOutput>,
    |
        #[trigger] call_ensures(
            VulkanDmaBufImporter::<N, P, StagedOutput, PackedOutput>::continue_nv12,
            (i, id, import),
            result,
        ) && #[trigger] call_ensures(
            OutputPool::<Nv12OutputKey, StagedOutput>::claim,
            (p, &key),
            claim,
        ) && *p == (*i).nv12_outputs implies match import.source {
        Nv12SourceAllocation::Direct(sampled) => {
            &&& result is Ok <==> import.request.capability.strategy is DirectSampledImage
            &&& result matches Ok(step) ==> is_sampled_directly(step, id, import, sampled)
            &&& final(i).nv12_outputs == (*i).nv12_outputs
        },
        _ => {
            &&& claim matches Some(SlotClaim::Reuse(slot)) ==> (result matches Ok(step) ==> (
            step matches FrameStep::Ready { image, writes } && is_staged_into(
                image,
                writes@,
                id,
                staging,
                slot,
            ) && final(i).nv12_outputs.places@ == final(p).places@))
            &&& claim matches Some(SlotClaim::Create { dropped }) ==> {
                &&& result is Ok <==> planned is Ok
                &&& result matches Ok(step) ==> (step matches FrameStep::Build {
                    staging: own,
                    plan,
                    dropped: gone,
                } && own == staging && planned == Ok::<_, String>(plan) && gone == dropped)
                &&& result matches Err(refused) ==> refused.orphan == dropped
                &&& final(i).nv12_outputs.places@ == final(p).places@
            }
            &&& claim is None ==> (result matches Err(refused) && refused.error is PoolSaturated
                && refused.orphan is None && final(i).nv12_outputs.places@ == (
            *i).nv12_outputs.places@)
        },
    } by {
        assert(import.source is Transfer ==> staging == import.staged_from(
            import.source->Transfer_source,
            None,
        ));
        assert(import.source is Compute ==> staging == import.staged_from(
            import.source->Compute_source,
            Some(import.source->Compute_view),
        ));
        assert(key == staging.output_key() || import.source is Direct);
    }
}

/// The frame is ready as the image of its source.
pub open spec fn is_sampled_directly(
    step: FrameStep<Nv12Staging, StagedOutput>,
    id: ImportId,
    import: Nv12Import,
    sampled: ImageAllocation,
) -> bool {
    &&& step matches FrameStep::Ready { image, writes }
    &&& writes@.len() == 0
    &&& forall|expected: ImportedDmaBufImage| #[trigger]
        call_ensures(
            ImportedDmaBufImage::new_nv12_direct_shared_object,
            (
                id,
                import.request.dimensions,
                import.request.layout,
                import.request.conversion,
                import.request.capability,
                import.lease,
                Nv12SourceAllocation::Direct(sampled),
            ),
            Ok(expected),
        ) ==> image == expected
    &&& image.import_id == id && image.dimensions == import.request.dimensions
    &&& image.kind matches ImportedKind::DirectNv12 { lease, sampled: own, .. } && lease
        == import.lease && own == sampled
}

/// A frame that is refused gives its lease back to the cache, and a frame that goes on keeps it.
pub proof fn refused_nv12_frames_give_their_lease_back<N, P>(
    id: ImportId,
    import: Nv12Import,
    result: Result<FrameStep<Nv12Staging, StagedOutput>, RefusedFrame<StagedOutput>>,
    staging: Nv12Staging,
    made: Result<(OutputBuild, Option<RawHandle>), VulkanImportError>,
    output: Result<(ImportedDmaBufImage, Vec<DescriptorWrite>), RefusedFrame<StagedOutput>>,
)
    ensures
        forall|
            i: &mut VulkanDmaBufImporter<N, P, StagedOutput, PackedOutput>,
            c: &mut SourceCache<Nv12SourceCacheKey, N>,
        |
            #[trigger] call_ensures(
                VulkanDmaBufImporter::<N, P, StagedOutput, PackedOutput>::continue_nv12,
                (i, id, import),
                result,
            ) && #[trigger] call_ensures(
                SourceCache::<Nv12SourceCacheKey, N>::retire,
                (c, import.lease),
                (),
            ) && *c == (*i).nv12_sources ==> final(i).nv12_sources.entries@ == if result is Ok {
                (*i).nv12_sources.entries@
            } else {
                final(c).entries@
            },
        forall|
            i: &mut VulkanDmaBufImporter<N, P, StagedOutput, PackedOutput>,
            c: &mut SourceCache<Nv12SourceCacheKey, N>,
        |
            #[trigger] call_ensures(
                VulkanDmaBufImporter::<N, P, StagedOutput, PackedOutput>::nv12_output_made,
                (i, id, staging, made),
                output,
            ) && #[trigger] call_ensures(
                SourceCache::<Nv12SourceCacheKey, N>::retire,
                (c, staging.lease),
                (),
            ) && *c == (*i).nv12_sources ==> final(i).nv12_sources.entries@ == if output is Ok {
                (*i).nv12_sources.entries@
            } else {
                final(c).entries@
            },
{
}

/// An output that was built takes a new slot of the frame's size and strategy, without contents, and
/// the frame is staged into it. Where the output could not be built nothing is left of it.
pub proof fn built_nv12_outputs_take_a_slot<N, P>(
    id: ImportId,
    staging: Nv12Staging,
    build: OutputBuild,
    set: Option<RawHandle>,
    error: VulkanImportError,
    output: StagedOutput,
    result: Result<(ImportedDmaBufImage, Vec<DescriptorWrite>), RefusedFrame<StagedOutput>>,
)
    requires
        call_ensures(finish_staged_output, (build, staging.strategy, set), output),
    ensures
        forall|i: &mut VulkanDmaBufImporter<N, P, StagedOutput, PackedOutput>| #[trigger]
            call_ensures(
                VulkanDmaBufImporter::<N, P, StagedOutput, PackedOutput>::nv12_output_made,
                (i, id, staging, Ok((build, set))),
                result,
            ) ==> {
                let before = (*i).nv12_outputs;
                let after = final(i).nv12_outputs;
                &&& result matches Ok((image, writes)) ==> {
                    &&& image.kind matches ImportedKind::StagedNv12(staged)
                    &&& staged.output.resources == output && !staged.output.initialized
                    &&& staged.output.key.dimensions == staging.request.dimensions
                    &&& staged.output.key.strategy == staging.strategy
                    &&& is_staged_into(image, writes@, id, staging, staged.output)
                    &&& after.places@.len() == before.places@.len() + 1
                    &&& after.places@.last().ticket == staged.output.ticket
                        && after.places@.last().idle is None
                    &&& after.places@.drop_last() =~= before.places@
                }
                &&& result matches Err(refused) ==> refused.orphan == Some(output) && after.places@
                    == before.places@ || (refused.orphan is None && after.places@.len()
                    == before.places@.len() + 1 && (after.places@.last().idle matches Some(slot)
                    && slot.resources == output))
            },
        forall|i: &mut VulkanDmaBufImporter<N, P, StagedOutput, PackedOutput>| #[trigger]
            call_ensures(
                VulkanDmaBufImporter::<N, P, StagedOutput, PackedOutput>::nv12_output_made,
                (i, id, staging, Err(error)),
                result,
            ) ==> {
                &&& result matches Err(refused) && refused.error@ == error@ && refused.orphan
                    is None
                &&& final(i).nv12_outputs == (*i).nv12_outputs
            },
{
}

/// The image is the one that staging packed pixels into the slot gives, and the writes are those
/// that its shader needs.
pub open spec fn is_packed_into(
    image: ImportedDmaBufImage,
    writes: Seq<DescriptorWrite>,
    id: ImportId,
    staging: PackedStaging,
    slot: OutputSlot<PackedOutputKey, PackedOutput>,
) -> bool {
    &&& forall|expected: ImportedDmaBufImage| #[trigger]
        call_ensures(
            create_staged_packed,
            (
                id,
                staging.request,
                staging.lease,
                PackedSourceAllocation::Staged { view: staging.view, source: staging.buffer },
                slot,
                staging.pipeline,
            ),
            Ok(expected),
        ) ==> image == expected
    &&& image.import_id == id && image.dimensions == staging.request.dimensions
    &&& image.kind matches ImportedKind::StagedPacked(staged) && staged.lease == staging.lease
        && staged.source == staging.buffer && staged.output == slot && (
    staged.push_constants.source_format == 0 <==> staging.request.format is Rgba8888)
    &&& forall|expected: Vec<DescriptorWrite>| #[trigger]
        call_ensures(packed_descriptor_writes, (slot.resources, staging.view), expected) ==> writes
            == expected@
}

/// A packed frame whose source was made for its strategy is ready at once where it is sampled
/// directly; where it is staged it is ready in a slot of its size, or an output of its size is to be
/// built. A frame that is refused gives its lease back.
pub proof fn packed_frames_are_ready_or_need_an_output<N, P>(
    id: ImportId,
    import: PackedImport,
    staging: PackedStaging,
    key: PackedOutputKey,
    claim: Option<SlotClaim<PackedOutputKey, PackedOutput>>,
    plan: OutputPlan,
    result: Result<FrameStep<PackedStaging, PackedOutput>, RefusedFrame<PackedOutput>>,
)
    requires
        key.dimensions == import.request.dimensions,
        import.source matches PackedSourceAllocation::Staged { view, source } ==> (
        import.pipeline matches Some(pipeline) ==> staging.request == import.request
            && staging.lease == import.lease && staging.buffer == source && staging.view == view
            && staging.pipeline == pipeline),
        call_ensures(
            plan_packed_output,
            (staging.request.dimensions, staging.pipeline, staging.view),
            plan,
        ),
    ensures
        forall|
            i: &mut VulkanDmaBufImporter<N, P, StagedOutput, PackedOutput>,
            p: &mut OutputPool<PackedOutputKey, PackedOutput>,
            c: &mut SourceCache<PackedSourceCacheKey, P>,
        |
            #[trigger] call_ensures(
                VulkanDmaBufImporter::<N, P, StagedOutput, PackedOutput>::continue_packed,
                (i, id, import),
                result,
            ) && #[trigger] call_ensures(
                OutputPool::<PackedOutputKey, PackedOutput>::claim,
                (p, &key),
                claim,
            ) && #[trigger] call_ensures(
                SourceCache::<PackedSourceCacheKey, P>::retire,
                (c, import.lease),
                (),
            ) && *p == (*i).packed_outputs && *c == (*i).packed_sources ==> {
                &&& final(i).packed_sources.entries@ == if result is Ok {
                    (*i).packed_sources.entries@
                } else {
                    final(c).entries@
                }
                &&& match (import.strategy, import.source) {
                    (
                        PackedImageImportStrategy::DirectSampledImage,
                        PackedSourceAllocation::Direct(sampled),
                    ) => result matches Ok(step) && is_packed_directly(step, id, import, sampled),
                    (
                        PackedImageImportStrategy::LinearBufferToOptimalBgra,
                        PackedSourceAllocation::Staged { .. },
                    ) => if import.pipeline is None || (*i).packed_staging_error is Some {
                        result is Err && final(i).packed_outputs == (*i).packed_outputs
                    } else {
                        &&& claim matches Some(SlotClaim::Reuse(slot)) ==> {
                            &&& result is Ok <==> import.request.plane.offset <= 0xffff_ffff
                            &&& result matches Ok(step) ==> (step matches FrameStep::Ready {
                                image,
                                writes,
                            } && is_packed_into(image, writes@, id, staging, slot)
                                && final(i).packed_outputs.places@ == final(p).places@)
                        }
                        &&& claim matches Some(SlotClaim::Create { dropped }) ==> (
                        result matches Ok(step) && step == (FrameStep::Build {
                            staging,
                            plan,
                            dropped,
                        }) && final(i).packed_outputs.places@ == final(p).places@)
                        &&& claim is None ==> (result matches Err(refused) && refused.error
                            is PoolSaturated && refused.orphan is None
                            && final(i).packed_outputs.places@ == (*i).packed_outputs.places@)
                    },
                    _ => result is Err && final(i).packed_outputs == (*i).packed_outputs,
                }
            },
{
    assert forall|
        i: &mut VulkanDmaBufImporter<N, P, StagedOutput, PackedOutput>,
        p: &mut OutputPool<PackedOutputKey, PackedOutput>,
        c: &mut SourceCache<PackedSourceCacheKey, P>,
    |
        #[trigger] call_ensures(
            VulkanDmaBufImporter::<N, P, StagedOutput, PackedOutput>::continue_packed,
            (i, id, import),
            result,
        ) && #[trigger] call_ensures(
            OutputPool::<PackedOutputKey, PackedOutput>::claim,
            (p, &key),
            claim,
        ) && #[trigger] call_ensures(
            SourceCache::<PackedSourceCacheKey, P>::retire,
            (c, import.lease),
            (),
        ) && *p == (*i).packed_outputs && *c == (*i).packed_sources implies {
        &&& final(i).packed_sources.entries@ == if result is Ok {
            (*i).packed_sources.entries@
        } else {
            final(c).entries@
        }
        &&& match (import.strategy, import.source) {
            (
                PackedImageImportStrategy::DirectSampledImage,
                PackedSourceAllocation::Direct(sampled),
            ) => result matches Ok(step) && is_packed_directly(step, id, import, sampled),
            (
                PackedImageImportStrategy::LinearBufferToOptimalBgra,
                PackedSourceAllocation::Staged { .. },
            ) => if import.pipeline is None || (*i).packed_staging_error is Some {
                result is Err && final(i).packed_outputs == (*i).packed_outputs
            } else {
                &&& claim matches Some(SlotClaim::Reuse(slot)) ==> {
                    &&& result is Ok <==> import.request.plane.offset <= 0xffff_ffff
                    &&& result matches Ok(step) ==> (step matches FrameStep::Ready {
                        image,
                        writes,
                    } && is_packed_into(image, writes@, id, staging, slot)
                        && final(i).packed_outputs.places@ == final(p).places@)
                }
                &&& claim matches Some(SlotClaim::Create { dropped }) ==> (result matches Ok(step)
                    && step == (FrameStep::Build { staging, plan, dropped })
                    && final(i).packed_outputs.places@ == final(p).places@)
                &&& claim is None ==> (result matches Err(refused) && refused.error is PoolSaturated
                    && refused.orphan is None && final(i).packed_outputs.places@ == (
                *i).packed_outputs.places@)
            },
            _ => result is Err && final(i).packed_outputs == (*i).packed_outputs,
        }
    } by {
        assert(import.source is Staged && import.pipeline is Some ==> staging
            == import.staged_from(
            import.source->Staged_source,
            import.source->Staged_view,
            import.pipeline.unwrap(),
        ));
        assert(import.source is Staged && import.pipeline is Some ==> key == staging.output_key());
    }
}

/// The frame is ready as the image of its source.
pub open spec fn is_packed_directly(
    step: FrameStep<PackedStaging, PackedOutput>,
    id: ImportId,
    import: PackedImport,
    sampled: ImageAllocation,
) -> bool {
    &&& step matches FrameStep::Ready { image, writes }
    &&& writes@.len() == 0
    &&& forall|expected: ImportedDmaBufImage| #[trigger]
        call_ensures(
            ImportedDmaBufImage::from_direct_packed_source,
            (id, import.request, import.lease, PackedSourceAllocation::Direct(sampled)),
            Ok(expected),
        ) ==> image == expected
    &&& image.import_id == id && image.dimensions == import.request.dimensions
    &&& image.kind matches ImportedKind::DirectPacked { lease, sampled: own, format } && lease
        == import.lease && own == sampled && format == import.request.format
}

/// A packed output that was built takes a new slot of the frame's size, without contents, and the
/// frame is staged into it. Where the output could not be built nothing is left of it.
pub proof fn built_packed_outputs_take_a_slot<N, P>(
    id: ImportId,
    staging: PackedStaging,
    build: OutputBuild,
    set: RawHandle,
    error: VulkanImportError,
    output: PackedOutput,
    result: Result<(ImportedDmaBufImage, Vec<DescriptorWrite>), RefusedFrame<PackedOutput>>,
)
    requires
        build.descriptor_pool is Some,
        call_ensures(finish_packed_output, (build, set), output),
    ensures
        forall|i: &mut VulkanDmaBufImporter<N, P, StagedOutput, PackedOutput>| #[trigger]
            call_ensures(
                VulkanDmaBufImporter::<N, P, StagedOutput, PackedOutput>::packed_output_made,
                (i, id, staging, Ok((build, set))),
                result,
            ) ==> {
                let before = (*i).packed_outputs;
                let after = final(i).packed_outputs;
                &&& result is Ok <==> staging.request.plane.offset <= 0xffff_ffff
                &&& after.places@.len() == before.places@.len() + 1
                &&& after.places@.drop_last() =~= before.places@
                &&& result matches Ok((image, writes)) ==> {
                    &&& image.kind matches ImportedKind::StagedPacked(staged)
                    &&& staged.output.resources == output && !staged.output.initialized
                    &&& staged.output.key.dimensions == staging.request.dimensions
                    &&& is_packed_into(image, writes@, id, staging, staged.output)
                    &&& after.places@.last().ticket == staged.output.ticket
                        && after.places@.last().idle is None
                }
                &&& result matches Err(refused) ==> refused.orphan is None && (
                after.places@.last().idle matches Some(slot) && slot.resources == output)
            },
        forall|i: &mut VulkanDmaBufImporter<N, P, StagedOutput, PackedOutput>| #[trigger]
            call_ensures(
                VulkanDmaBufImporter::<N, P, StagedOutput, PackedOutput>::packed_output_made,
                (i, id, staging, Err(error)),
                result,
            ) ==> {
                &&& result matches Err(refused) && refused.error@ == error@ && refused.orphan
                    is None
                &&& final(i).packed_outputs == (*i).packed_outputs
            },
{
}

/// An image that retires gives its lease back to the cache that it came from and its slot back to
/// its pool, and leaves the other cache and the other pool alone. What belongs to nobody else is
/// handed out to destroy: the image for scanout, and an output whose slot has no place.
pub proof fn retired_images_give_everything_back<N, P>(
    image: ImportedDmaBufImage,
    orphan: Option<Orphan>,
    planar_lease: SourceLease<Nv12SourceCacheKey>,
    packed_lease: SourceLease<PackedSourceCacheKey>,
)
    ensures
        forall|
            nv12_sources: &mut SourceCache<Nv12SourceCacheKey, N>,
            packed_sources: &mut SourceCache<PackedSourceCacheKey, P>,
            nv12_outputs: &mut OutputPool<Nv12OutputKey, StagedOutput>,
            packed_outputs: &mut OutputPool<PackedOutputKey, PackedOutput>,
            c: &mut SourceCache<Nv12SourceCacheKey, N>,
            d: &mut SourceCache<PackedSourceCacheKey, P>,
        |
            #[trigger] call_ensures(
                ImportedDmaBufImage::retire::<N, P>,
                (image, nv12_sources, packed_sources, nv12_outputs, packed_outputs),
                orphan,
            ) && #[trigger] call_ensures(
                SourceCache::<Nv12SourceCacheKey, N>::retire,
                (c, planar_lease),
                (),
            ) && #[trigger] call_ensures(
                SourceCache::<PackedSourceCacheKey, P>::retire,
                (d, packed_lease),
                (),
            ) && *c == *nv12_sources && *d == *packed_sources ==> match image.kind {
                ImportedKind::DirectPacked { lease, .. } => {
                    &&& lease == packed_lease ==> final(packed_sources).entries@ == final(d).entries@
                    &&& final(nv12_sources).entries@ == (*nv12_sources).entries@
                    &&& final(packed_outputs).places@ == (*packed_outputs).places@
                    &&& final(nv12_outputs).places@ == (*nv12_outputs).places@
                    &&& orphan is None
                },
                ImportedKind::DirectBgraScanout { sampled } => {
                    &&& final(packed_sources).entries@ == (*packed_sources).entries@
                    &&& final(nv12_sources).entries@ == (*nv12_sources).entries@
                    &&& orphan == Some(Orphan::Image(sampled))
                },
                ImportedKind::DirectNv12 { lease, .. } => {
                    &&& lease == planar_lease ==> final(nv12_sources).entries@ == final(c).entries@
                    &&& final(packed_sources).entries@ == (*packed_sources).entries@
                    &&& final(packed_outputs).places@ == (*packed_outputs).places@
                    &&& final(nv12_outputs).places@ == (*nv12_outputs).places@
                    &&& orphan is None
                },
                ImportedKind::StagedPacked(staged) => {
                    &&& staged.lease == packed_lease ==> final(packed_sources).entries@
                        == final(d).entries@
                    &&& final(nv12_sources).entries@ == (*nv12_sources).entries@
                    &&& final(nv12_outputs).places@ == (*nv12_outputs).places@
                    &&& orphan matches Some(left) ==> left == Orphan::PackedOutput(
                        staged.output.resources,
                    )
                },
                ImportedKind::StagedNv12(staged) => {
                    &&& staged.lease == planar_lease ==> final(nv12_sources).entries@
                        == final(c).entries@
                    &&& final(packed_sources).entries@ == (*packed_sources).entries@
                    &&& final(packed_outputs).places@ == (*packed_outputs).places@
                    &&& orphan matches Some(left) ==> left == Orphan::Nv12Output(
                        staged.output.resources,
                    )
                },
            },
{
}

/// A staged image whose output goes back to its pool does so as the pool takes slots back.
pub proof fn retired_outputs_go_back_to_the_pool<N, P>(
    image: ImportedDmaBufImage,
    orphan: Option<Orphan>,
    planar_slot: OutputSlot<Nv12OutputKey, StagedOutput>,
    planar_left: Option<StagedOutput>,
    packed_slot: OutputSlot<PackedOutputKey, PackedOutput>,
    packed_left: Option<PackedOutput>,
)
    ensures
        forall|
            nv12_sources: &mut SourceCache<Nv12SourceCacheKey, N>,
            packed_sources: &mut SourceCache<PackedSourceCacheKey, P>,
            nv12_outputs: &mut OutputPool<Nv12OutputKey, StagedOutput>,
            packed_outputs: &mut OutputPool<PackedOutputKey, PackedOutput>,
            p: &mut OutputPool<Nv12OutputKey, StagedOutput>,
            q: &mut OutputPool<PackedOutputKey, PackedOutput>,
        |
            #[trigger] call_ensures(
                ImportedDmaBufImage::retire::<N, P>,
                (image, nv12_sources, packed_sources, nv12_outputs, packed_outputs),
                orphan,
            ) && #[trigger] call_ensures(
                OutputPool::<Nv12OutputKey, StagedOutput>::release,
                (p, planar_slot),
                planar_left,
            ) && #[trigger] call_ensures(
                OutputPool::<PackedOutputKey, PackedOutput>::release,
                (q, packed_slot),
                packed_left,
            ) && *p == *nv12_outputs && *q == *packed_outputs ==> {
                &&& image.kind matches ImportedKind::StagedNv12(staged) ==> staged.output
                    == planar_slot ==> final(nv12_outputs).places@ == final(p).places@ && (orphan
                    is Some <==> planar_left is Some)
                &&& image.kind matches ImportedKind::StagedPacked(staged) ==> staged.output
                    == packed_slot ==> final(packed_outputs).places@ == final(q).places@ && (orphan
                    is Some <==> packed_left is Some)
            },
{
}

/// The claim on the source of a staged image ends once, in the cache that it came from, while the
/// output stays the image's; a direct image has nothing to end before it retires.
pub proof fn staged_sources_are_released_once<N, P>(first: bool, second: bool)
    ensures
        forall|
            image: &mut ImportedDmaBufImage,
            nv12_sources: &mut SourceCache<Nv12SourceCacheKey, N>,
            packed_sources: &mut SourceCache<PackedSourceCacheKey, P>,
        |
            #[trigger] call_ensures(
                ImportedDmaBufImage::release_staged_source::<N, P>,
                (image, nv12_sources, packed_sources),
                first,
            ) ==> {
                &&& match (*image).kind {
                    ImportedKind::StagedPacked(staged) => {
                        &&& first == !staged.lease.released
                        &&& final(nv12_sources).entries@ == (*nv12_sources).entries@
                        &&& final(image).kind matches ImportedKind::StagedPacked(after)
                        &&& after.lease.released && after.lease.key == staged.lease.key
                        &&& after.output == staged.output && after.push_constants
                            == staged.push_constants
                    },
                    ImportedKind::StagedNv12(staged) => {
                        &&& first == !staged.lease.released
                        &&& final(packed_sources).entries@ == (*packed_sources).entries@
                        &&& final(image).kind matches ImportedKind::StagedNv12(after)
                        &&& after.lease.released && after.lease.key == staged.lease.key
                        &&& after.output == staged.output && after.operation == staged.operation
                    },
                    _ => !first && *final(image) == *image && final(nv12_sources).entries@ == (
                    *nv12_sources).entries@ && final(packed_sources).entries@ == (
                    *packed_sources).entries@,
                }
                &&& final(image).import_id == (*image).import_id
            },
        forall|
            image: &mut ImportedDmaBufImage,
            a: &mut SourceCache<Nv12SourceCacheKey, N>,
            b: &mut SourceCache<PackedSourceCacheKey, P>,
            again: &mut ImportedDmaBufImage,
            c: &mut SourceCache<Nv12SourceCacheKey, N>,
            d: &mut SourceCache<PackedSourceCacheKey, P>,
        |
            #[trigger] call_ensures(
                ImportedDmaBufImage::release_staged_source::<N, P>,
                (image, a, b),
                first,
            ) && #[trigger] call_ensures(
                ImportedDmaBufImage::release_staged_source::<N, P>,
                (again, c, d),
                second,
            ) && *again == *final(image) ==> !second && final(c).entries@ == (*c).entries@
                && final(d).entries@ == (*d).entries@,
{
}

/// A packed frame whose output is refused gives its lease back, and one that goes on keeps it.
pub proof fn refused_packed_frames_give_their_lease_back<N, P>(
    id: ImportId,
    staging: PackedStaging,
    made: Result<(OutputBuild, RawHandle), VulkanImportError>,
    output: Result<(ImportedDmaBufImage, Vec<DescriptorWrite>), RefusedFrame<PackedOutput>>,
)
    ensures
        forall|
            i: &mut VulkanDmaBufImporter<N, P, StagedOutput, PackedOutput>,
            c: &mut SourceCache<PackedSourceCacheKey, P>,
        |
            #[trigger] call_ensures(
                VulkanDmaBufImporter::<N, P, StagedOutput, PackedOutput>::packed_output_made,
                (i, id, staging, made),
                output,
            ) && #[trigger] call_ensures(
                SourceCache::<PackedSourceCacheKey, P>::retire,
                (c, staging.lease),
                (),
            ) && *c == (*i).packed_sources ==> final(i).packed_sources.entries@ == if output is Ok {
                (*i).packed_sources.entries@
            } else {
                final(c).entries@
            },
{
}

/// Nothing is counted on a frame's way but a pool that is full, once; numbers of slots are used up
/// one by one; and frames of one kind leave the other kind alone.
pub proof fn frames_count_full_pools_alone<N, P>(
    id: ImportId,
    planar: Nv12Import,
    planar_result: Result<FrameStep<Nv12Staging, StagedOutput>, RefusedFrame<StagedOutput>>,
    planar_staging: Nv12Staging,
    planar_made: Result<(OutputBuild, Option<RawHandle>), VulkanImportError>,
    planar_output: Result<(ImportedDmaBufImage, Vec<DescriptorWrite>), RefusedFrame<StagedOutput>>,
    packed: PackedImport,
    packed_result: Result<FrameStep<PackedStaging, PackedOutput>, RefusedFrame<PackedOutput>>,
    packed_staging: PackedStaging,
    packed_made: Result<(OutputBuild, RawHandle), VulkanImportError>,
    packed_output: Result<(ImportedDmaBufImage, Vec<DescriptorWrite>), RefusedFrame<PackedOutput>>,
)
    ensures
        forall|i: &mut VulkanDmaBufImporter<N, P, StagedOutput, PackedOutput>| #[trigger]
            call_ensures(
                VulkanDmaBufImporter::<N, P, StagedOutput, PackedOutput>::continue_nv12,
                (i, id, planar),
                planar_result,
            ) ==> {
                &&& counts_full_pool(
                    (*i).nv12_counters,
                    final(i).nv12_counters,
                    planar_result matches Err(refused) && refused.error is PoolSaturated,
                )
                &&& final(i).packed_counters == (*i).packed_counters && final(i).packed_sources
                    == (*i).packed_sources && final(i).packed_outputs == (*i).packed_outputs
                &&& final(i).nv12_outputs.next_ticket == (*i).nv12_outputs.next_ticket
                &&& final(i).nv12_outputs.max_slots == (*i).nv12_outputs.max_slots
            },
        forall|i: &mut VulkanDmaBufImporter<N, P, StagedOutput, PackedOutput>| #[trigger]
            call_ensures(
                VulkanDmaBufImporter::<N, P, StagedOutput, PackedOutput>::nv12_output_made,
                (i, id, planar_staging, planar_made),
                planar_output,
            ) ==> {
                &&& final(i).nv12_counters == (*i).nv12_counters
                &&& final(i).packed_counters == (*i).packed_counters && final(i).packed_sources
                    == (*i).packed_sources && final(i).packed_outputs == (*i).packed_outputs
                &&& final(i).nv12_outputs.next_ticket == (*i).nv12_outputs.next_ticket + (
                final(i).nv12_outputs.places@.len() - (*i).nv12_outputs.places@.len())
                &&& final(i).nv12_outputs.max_slots == (*i).nv12_outputs.max_slots
            },
        forall|i: &mut VulkanDmaBufImporter<N, P, StagedOutput, PackedOutput>| #[trigger]
            call_ensures(
                VulkanDmaBufImporter::<N, P, StagedOutput, PackedOutput>::continue_packed,
                (i, id, packed),
                packed_result,
            ) ==> {
                &&& counts_full_pool(
                    (*i).packed_counters,
                    final(i).packed_counters,
                    packed_result matches Err(refused) && refused.error is PoolSaturated,
                )
                &&& final(i).nv12_counters == (*i).nv12_counters && final(i).nv12_sources == (
                *i).nv12_sources && final(i).nv12_outputs == (*i).nv12_outputs
                &&& final(i).packed_outputs.next_ticket == (*i).packed_outputs.next_ticket
                &&& final(i).packed_outputs.max_slots == (*i).packed_outputs.max_slots
            },
        forall|i: &mut VulkanDmaBufImporter<N, P, StagedOutput, PackedOutput>| #[trigger]
            call_ensures(
                VulkanDmaBufImporter::<N, P, StagedOutput, PackedOutput>::packed_output_made,
                (i, id, packed_staging, packed_made),
                packed_output,
            ) ==> {
                &&& final(i).packed_counters == (*i).packed_counters
                &&& final(i).nv12_counters == (*i).nv12_counters && final(i).nv12_sources == (
                *i).nv12_sources && final(i).nv12_outputs == (*i).nv12_outputs
                &&& final(i).packed_outputs.next_ticket == (*i).packed_outputs.next_ticket + (
                final(i).packed_outputs.places@.len() - (*i).packed_outputs.places@.len())
                &&& final(i).packed_outputs.max_slots == (*i).packed_outputs.max_slots
            },
{
}

/// A full pool is counted once, and nothing else.
pub open spec fn counts_full_pool(
    before: ImportCounters,
    after: ImportCounters,
    full: bool,
) -> bool {
    &&& !full ==> after == before
    &&& full && before.output_pool_busy_rejections < u64::MAX ==> after == (ImportCounters {
        output_pool_busy_rejections: (before.output_pool_busy_rejections + 1) as u64,
        ..before
    })
}

} // verus!
