//! Imports from their claimed source to the image. Where an import is refused on the way, its source
//! and its output are given back.

use vstd::prelude::*;

use crate::vulkan::cache::{
    after_retirement, Nv12SourceCacheKey, PackedSourceCacheKey, SourceLease,
};
use crate::vulkan::error::{ImportFault, VulkanImportError};
use crate::vulkan::flags::{RawHandle, TILING_DRM_FORMAT_MODIFIER, TILING_OPTIMAL};
use crate::vulkan::image::{
    create_staged_nv12, create_staged_packed, packed_constants_verdict, staging_operation,
    DirectNv12Sampling, ImportId, ImportedDmaBufImage, ImportedKind, PackedPushConstants,
    StagedNv12, StagedNv12Operation, StagedNv12Request, StagedPacked,
};
use crate::vulkan::import::{ImportCounters, Nv12ImportRequest, VulkanDmaBufImporter};
use crate::vulkan::output::{
    finish_packed_output, finish_staged_output, is_complete, output_resources,
    packed_descriptor_writes, packed_output_plan, packed_writes, plan_packed_output,
    plan_staged_output, staged_descriptor_writes, staged_output_verdict, staged_writes_verdict,
    DescriptorWrite, OutputBuild, OutputPlan,
};
use crate::vulkan::pool::{
    a_new_slot_has_its_place, idle_place, matching_place, release_undoes_the_claim, without_place,
    Nv12OutputKey, OutputSlot, PackedOutputKey, SlotClaim, SlotPlace,
};
use crate::vulkan::resources::{
    BufferAllocation, ComputePipeline, ImageAllocation, Nv12SourceAllocation, PackedOutput,
    PackedSourceAllocation, StagedOutput,
};
use crate::vulkan::types::{
    Nv12ImportStrategy, PackedImageImport, PackedImageImportStrategy, DIRECT_NV12_USAGE,
    DIRECT_PACKED_USAGE, STAGED_NV12_OUTPUT_USAGE, STAGED_PACKED_OUTPUT_USAGE,
    TRANSFER_NV12_OUTPUT_USAGE,
};

verus! {

/// A biplanar frame whose source has been claimed.
#[derive(Debug)]
pub struct Nv12Import {
    pub request: Nv12ImportRequest,
    pub strategy: Nv12ImportStrategy,
    pub lease: SourceLease<Nv12SourceCacheKey>,
    pub source: Nv12SourceAllocation,
    /// The compute pipeline that the strategy runs.
    pub pipeline: Option<ComputePipeline>,
}

/// A biplanar frame that is copied or converted from a buffer.
#[derive(Debug)]
pub struct Nv12Staging {
    pub request: Nv12ImportRequest,
    pub strategy: Nv12ImportStrategy,
    pub lease: SourceLease<Nv12SourceCacheKey>,
    pub buffer: BufferAllocation,
    /// The view of the buffer that a compute shader reads.
    pub view: Option<RawHandle>,
    pub pipeline: Option<ComputePipeline>,
}

/// A packed image whose source has been claimed.
#[derive(Debug)]
pub struct PackedImport {
    pub request: PackedImageImport,
    pub strategy: PackedImageImportStrategy,
    pub lease: SourceLease<PackedSourceCacheKey>,
    pub source: PackedSourceAllocation,
    /// The pipeline for packed staging, where there is one.
    pub pipeline: Option<ComputePipeline>,
}

/// A packed image that is converted from a buffer.
#[derive(Debug)]
pub struct PackedStaging {
    pub request: PackedImageImport,
    pub lease: SourceLease<PackedSourceCacheKey>,
    pub buffer: BufferAllocation,
    /// The view of the buffer that the compute shader reads.
    pub view: RawHandle,
    pub pipeline: ComputePipeline,
}

/// How an import goes on. `S` is the import while it waits for its output, `R` is an output.
#[derive(Debug)]
pub enum FrameStep<S, R> {
    /// Once these descriptors are written, the image can be acquired.
    Ready { image: ImportedDmaBufImage, writes: Vec<DescriptorWrite> },
    /// An output has to be made. Where another one had to go for it, that is left to destroy.
    Build { staging: S, plan: OutputPlan, dropped: Option<R> },
}

/// An import that was refused, and the output that is left to destroy, where there is one.
#[derive(Debug)]
pub struct RefusedFrame<R> {
    pub error: VulkanImportError,
    pub orphan: Option<R>,
}

/// The import is refused for `fault`, and `orphan` is left to destroy.
pub open spec fn refuses<T, R>(
    result: Result<T, RefusedFrame<R>>,
    fault: ImportFault,
    orphan: Option<R>,
) -> bool {
    match result {
        Ok(_) => false,
        Err(refused) => refused.error@ == fault && refused.orphan == orphan,
    }
}

/// The import has become `image`, which can be acquired once `writes` are written.
pub open spec fn becomes(
    made: ImportedDmaBufImage,
    written: Vec<DescriptorWrite>,
    image: ImportedDmaBufImage,
    writes: Seq<DescriptorWrite>,
) -> bool {
    made == image && written@ == writes && made.well_formed()
}

/// `becomes`, as a step of the import.
pub open spec fn is_ready<S, R>(
    result: Result<FrameStep<S, R>, RefusedFrame<R>>,
    image: ImportedDmaBufImage,
    writes: Seq<DescriptorWrite>,
) -> bool {
    match result {
        Ok(FrameStep::Ready { image: made, writes: written }) => becomes(
            made,
            written,
            image,
            writes,
        ),
        _ => false,
    }
}

/// What a pool grants to a new slot: the places that stay, and the output that has to go.
pub open spec fn room_for_one<K, R>(places: Seq<SlotPlace<K, R>>, max_slots: usize) -> Option<
    (Seq<SlotPlace<K, R>>, Option<R>),
> {
    if places.len() < max_slots {
        Some((places, None))
    } else {
        match idle_place(places, 0) {
            Some(index) => Some(
                (without_place(places, index), Some(places[index].idle.unwrap().resources)),
            ),
            None => None,
        }
    }
}

/// The counters after a request that found its pool full.
pub open spec fn after_saturation(counters: ImportCounters) -> ImportCounters {
    ImportCounters {
        output_pool_busy_rejections: counters.output_pool_busy_rejections.wrapping_add(1),
        ..counters
    }
}

impl Nv12Import {
    /// The image that is sampled where it is.
    pub open spec fn direct_image(self, id: ImportId, sampled: ImageAllocation) ->
        ImportedDmaBufImage {
        ImportedDmaBufImage {
            import_id: id,
            kind: ImportedKind::DirectNv12 {
                lease: self.lease,
                sampled,
                sampling: DirectNv12Sampling {
                    conversion: self.request.conversion,
                    format_features: self.request.capability.sampled_tiling_features,
                },
            },
            dimensions: self.request.dimensions,
            modifier: self.request.layout.modifier,
            sampled_usage: DIRECT_NV12_USAGE,
            sampled_tiling: TILING_DRM_FORMAT_MODIFIER,
        }
    }

    /// The frame, staged from a buffer.
    pub open spec fn staged_from(self, buffer: BufferAllocation, view: Option<RawHandle>) ->
        Nv12Staging {
        Nv12Staging {
            request: self.request,
            strategy: self.strategy,
            lease: self.lease,
            buffer,
            view,
            pipeline: self.pipeline,
        }
    }
}

impl Nv12Staging {
    /// The shape of the output.
    pub open spec fn output_key(self) -> Nv12OutputKey {
        Nv12OutputKey { dimensions: self.request.dimensions, strategy: self.strategy }
    }

    /// What is staged.
    pub open spec fn staged_request(self) -> StagedNv12Request {
        StagedNv12Request {
            dimensions: self.request.dimensions,
            layout: self.request.layout,
            conversion: self.request.conversion,
            strategy: self.strategy,
            sampled_format_features: self.request.capability.sampled_tiling_features,
        }
    }

    /// The parts of the output, or why there is none.
    pub open spec fn plan_verdict(self) -> Result<OutputPlan, Seq<char>> {
        staged_output_verdict(self.request.dimensions, self.strategy, self.pipeline, self.view)
    }

    /// The descriptors to write, or why the output does not serve.
    pub open spec fn writes_verdict(self, output: StagedOutput) -> Result<
        Seq<DescriptorWrite>,
        Seq<char>,
    > {
        match self.view {
            Some(view) => staged_writes_verdict(output, view),
            None => if self.strategy.is_compute() && output.descriptor_set is None {
                Err("Vulkan compute NV12 output is missing its descriptor set"@)
            } else {
                Ok(Seq::empty())
            },
        }
    }

    /// How the frame gets into its output, or why it cannot.
    pub open spec fn operation_verdict(self) -> Result<StagedNv12Operation, Seq<char>> {
        staging_operation(self.staged_request(), self.pipeline)
    }

    /// The image that is staged into `slot`.
    pub open spec fn staged_image(
        self,
        id: ImportId,
        slot: OutputSlot<Nv12OutputKey, StagedOutput>,
        operation: StagedNv12Operation,
    ) -> ImportedDmaBufImage {
        ImportedDmaBufImage {
            import_id: id,
            kind: ImportedKind::StagedNv12(
                StagedNv12 {
                    lease: self.lease,
                    source: self.buffer,
                    output: slot,
                    operation,
                    conversion: self.request.conversion,
                    format_features: self.request.capability.sampled_tiling_features,
                },
            ),
            dimensions: self.request.dimensions,
            modifier: self.request.layout.modifier,
            sampled_usage: if self.strategy.is_transfer() {
                TRANSFER_NV12_OUTPUT_USAGE
            } else {
                STAGED_NV12_OUTPUT_USAGE
            },
            sampled_tiling: TILING_OPTIMAL,
        }
    }

    fn descriptor_writes(&self, output: StagedOutput) -> (result: Result<
        Vec<DescriptorWrite>,
        String,
    >)
        ensures
            match (result, self.writes_verdict(output)) {
                (Ok(writes), Ok(expected)) => writes@ == expected,
                (Err(message), Err(text)) => message@ == text,
                _ => false,
            },
    {
        match self.view {
            Some(view) => staged_descriptor_writes(output, view),
            None => {
                let writes: Vec<DescriptorWrite> = Vec::new();
                match self.strategy {
                    Nv12ImportStrategy::LinearBufferToYuvPlanes
                    | Nv12ImportStrategy::LinearBufferToRgba => {
                        if output.descriptor_set.is_none() {
                            return Err(
                                "Vulkan compute NV12 output is missing its descriptor set".to_owned(),
                            );
                        }
                        Ok(writes)
                    },
                    _ => Ok(writes),
                }
            },
        }
    }
}

impl PackedImport {
    /// The image that is sampled where it is.
    pub open spec fn direct_image(self, id: ImportId, sampled: ImageAllocation) ->
        ImportedDmaBufImage {
        ImportedDmaBufImage {
            import_id: id,
            kind: ImportedKind::DirectPacked {
                lease: self.lease,
                sampled,
                format: self.request.format,
            },
            dimensions: self.request.dimensions,
            modifier: self.request.modifier,
            sampled_usage: DIRECT_PACKED_USAGE,
            sampled_tiling: TILING_DRM_FORMAT_MODIFIER,
        }
    }

    /// The image, staged from a buffer.
    pub open spec fn staged_from(
        self,
        buffer: BufferAllocation,
        view: RawHandle,
        pipeline: ComputePipeline,
    ) -> PackedStaging {
        PackedStaging { request: self.request, lease: self.lease, buffer, view, pipeline }
    }
}

impl PackedStaging {
    /// The shape of the output.
    pub open spec fn output_key(self) -> PackedOutputKey {
        PackedOutputKey { dimensions: self.request.dimensions }
    }

    /// The image that is staged into `slot`.
    pub open spec fn staged_image(
        self,
        id: ImportId,
        slot: OutputSlot<PackedOutputKey, PackedOutput>,
        push_constants: PackedPushConstants,
    ) -> ImportedDmaBufImage {
        ImportedDmaBufImage {
            import_id: id,
            kind: ImportedKind::StagedPacked(
                StagedPacked {
                    lease: self.lease,
                    source: self.buffer,
                    output: slot,
                    pipeline: self.pipeline,
                    push_constants,
                },
            ),
            dimensions: self.request.dimensions,
            modifier: self.request.modifier,
            sampled_usage: STAGED_PACKED_OUTPUT_USAGE,
            sampled_tiling: TILING_OPTIMAL,
        }
    }
}

impl<N, P> VulkanDmaBufImporter<N, P, StagedOutput, PackedOutput> {
    /// Everything but the biplanar sources, outputs and counters is that of `other`.
    pub open spec fn same_but_nv12(self, other: Self) -> bool {
        &&& self.capabilities@ == other.capabilities@
        &&& self.packed_sources == other.packed_sources
        &&& self.packed_outputs == other.packed_outputs
        &&& self.packed_counters == other.packed_counters
        &&& self.packed_staging_error == other.packed_staging_error
        &&& self.nv12_sources.max_entries == other.nv12_sources.max_entries
        &&& self.nv12_outputs.max_slots == other.nv12_outputs.max_slots
    }

    /// Everything but the packed sources, outputs and counters is that of `other`.
    pub open spec fn same_but_packed(self, other: Self) -> bool {
        &&& self.capabilities@ == other.capabilities@
        &&& self.nv12_sources == other.nv12_sources
        &&& self.nv12_outputs == other.nv12_outputs
        &&& self.nv12_counters == other.nv12_counters
        &&& self.packed_staging_error == other.packed_staging_error
        &&& self.packed_sources.max_entries == other.packed_sources.max_entries
        &&& self.packed_outputs.max_slots == other.packed_outputs.max_slots
    }

    fn refuse_nv12(
        &mut self,
        lease: SourceLease<Nv12SourceCacheKey>,
        error: VulkanImportError,
        orphan: Option<StagedOutput>,
    ) -> (refused: RefusedFrame<StagedOutput>)
        requires
            old(self).well_formed(),
        ensures
            final(self).well_formed(),
            final(self).same_but_nv12(*old(self)),
            final(self).nv12_outputs == old(self).nv12_outputs,
            final(self).nv12_counters == old(self).nv12_counters,
            final(self).nv12_sources.entries@ == after_retirement(
                old(self).nv12_sources.entries@,
                lease,
            ),
            refused == (RefusedFrame { error, orphan }),
    {
        self.nv12_sources.retire(lease);
        RefusedFrame { error, orphan }
    }

    fn stage_nv12(
        id: ImportId,
        staging: Nv12Staging,
        slot: OutputSlot<Nv12OutputKey, StagedOutput>,
    ) -> (result: Result<
        (ImportedDmaBufImage, Vec<DescriptorWrite>),
        (String, SourceLease<Nv12SourceCacheKey>, OutputSlot<Nv12OutputKey, StagedOutput>),
    >)
        ensures
            match (staging.writes_verdict(slot.resources), staging.operation_verdict()) {
                (Err(text), _) => result matches Err((message, lease, given)) && message@ == text
                    && lease == staging.lease && given == slot,
                (Ok(_), Err(text)) => result matches Err((message, lease, given)) && message@
                    == text && lease == staging.lease && given == slot,
                (Ok(writes), Ok(operation)) => result matches Ok((image, written)) && becomes(
                    image,
                    written,
                    staging.staged_image(id, slot, operation),
                    writes,
                ),
            },
    {
        let writes = match staging.descriptor_writes(slot.resources) {
            Ok(writes) => writes,
            Err(message) => return Err((message, staging.lease, slot)),
        };
        let request = StagedNv12Request {
            dimensions: staging.request.dimensions,
            layout: staging.request.layout,
            conversion: staging.request.conversion,
            strategy: staging.strategy,
            sampled_format_features: staging.request.capability.sampled_tiling_features,
        };
        match create_staged_nv12(id, request, staging.lease, staging.buffer, slot, staging.pipeline) {
            Ok(image) => Ok((image, writes)),
            Err(refused) => Err((refused.message, refused.lease, refused.output)),
        }
    }

    /// Goes on with a biplanar frame whose source has been claimed: the image is ready, or an output
    /// has to be made for it. A frame that is refused gives its source and its output back.
    pub fn continue_nv12(&mut self, id: ImportId, import: Nv12Import) -> (result: Result<
        FrameStep<Nv12Staging, StagedOutput>,
        RefusedFrame<StagedOutput>,
    >)
        requires
            old(self).well_formed(),
        ensures
            final(self).well_formed(),
            final(self).same_but_nv12(*old(self)),
            final(self).nv12_outputs.next_ticket == old(self).nv12_outputs.next_ticket,
            final(self).nv12_sources.entries@ == (if result is Ok {
                old(self).nv12_sources.entries@
            } else {
                after_retirement(old(self).nv12_sources.entries@, import.lease)
            }),
            match import.source {
                Nv12SourceAllocation::Direct(sampled) => {
                    &&& final(self).nv12_outputs == old(self).nv12_outputs
                    &&& final(self).nv12_counters == old(self).nv12_counters
                    &&& if import.request.capability.strategy is DirectSampledImage {
                        is_ready(result, import.direct_image(id, sampled), Seq::empty())
                    } else {
                        refuses(
                            result,
                            ImportFault::Other(
                                "Vulkan NV12 direct constructor received a staged capability"@,
                            ),
                            None,
                        )
                    }
                },
                Nv12SourceAllocation::Transfer { source } => final(self).claims_nv12(
                    *old(self),
                    id,
                    import.staged_from(source, None),
                    result,
                ),
                Nv12SourceAllocation::Compute { view, source } => final(self).claims_nv12(
                    *old(self),
                    id,
                    import.staged_from(source, Some(view)),
                    result,
                ),
            },
    {
        let view = import.source.compute_view();
        let buffer = match import.source {
            Nv12SourceAllocation::Direct(_) => {
                return match ImportedDmaBufImage::new_nv12_direct_shared_object(
                    id,
                    import.request.dimensions,
                    import.request.layout,
                    import.request.conversion,
                    import.request.capability,
                    import.lease,
                    import.source,
                ) {
                    Ok(image) => {
                        let writes: Vec<DescriptorWrite> = Vec::new();
                        Ok(FrameStep::Ready { image, writes })
                    },
                    Err(refused) => Err(
                        self.refuse_nv12(
                            refused.lease,
                            VulkanImportError::Other(refused.message),
                            None,
                        ),
                    ),
                };
            },
            Nv12SourceAllocation::Transfer { source } => source,
            Nv12SourceAllocation::Compute { view: _, source } => source,
        };
        let staging = Nv12Staging {
            request: import.request,
            strategy: import.strategy,
            lease: import.lease,
            buffer,
            view,
            pipeline: import.pipeline,
        };
        let key = Nv12OutputKey {
            dimensions: staging.request.dimensions,
            strategy: staging.strategy,
        };
        proof {
            if matching_place(self.nv12_outputs.places@, key, 0) is Some {
                release_undoes_the_claim(self.nv12_outputs.places@, key);
            }
        }
        match self.claim_nv12_output(key) {
            Err(error) => Err(self.refuse_nv12(staging.lease, error, None)),
            Ok(SlotClaim::Reuse(slot)) => match Self::stage_nv12(id, staging, slot) {
                Ok((image, writes)) => Ok(FrameStep::Ready { image, writes }),
                Err((message, lease, slot)) => {
                    let orphan = self.nv12_outputs.release(slot);
                    Err(self.refuse_nv12(lease, VulkanImportError::Other(message), orphan))
                },
            },
            Ok(SlotClaim::Create { dropped }) => {
                match plan_staged_output(
                    staging.request.dimensions,
                    staging.strategy,
                    staging.pipeline,
                    staging.view,
                ) {
                    Ok(plan) => Ok(FrameStep::Build { staging, plan, dropped }),
                    Err(message) => Err(
                        self.refuse_nv12(staging.lease, VulkanImportError::Other(message), dropped),
                    ),
                }
            },
        }
    }

    /// What `continue_nv12` does with a frame that is staged: an idle output of its shape serves it;
    /// without one there is room for another, or the pool is full.
    pub open spec fn claims_nv12(
        self,
        before: Self,
        id: ImportId,
        staging: Nv12Staging,
        result: Result<FrameStep<Nv12Staging, StagedOutput>, RefusedFrame<StagedOutput>>,
    ) -> bool {
        let places = before.nv12_outputs.places@;
        match matching_place(places, staging.output_key(), 0) {
            Some(index) => {
                let slot = places[index].idle.unwrap();
                &&& self.nv12_counters == before.nv12_counters
                &&& match (staging.writes_verdict(slot.resources), staging.operation_verdict()) {
                    (Ok(writes), Ok(operation)) => {
                        &&& is_ready(result, staging.staged_image(id, slot, operation), writes)
                        &&& self.nv12_outputs.places@ == places.update(
                            index,
                            places[index].emptied(),
                        )
                    },
                    (Err(text), _) => {
                        &&& refuses(result, ImportFault::Other(text), None)
                        &&& self.nv12_outputs.places@ == places
                    },
                    (Ok(_), Err(text)) => {
                        &&& refuses(result, ImportFault::Other(text), None)
                        &&& self.nv12_outputs.places@ == places
                    },
                }
            },
            None => match room_for_one(places, before.nv12_outputs.max_slots) {
                Some((rest, dropped)) => {
                    &&& self.nv12_counters == before.nv12_counters
                    &&& self.nv12_outputs.places@ == rest
                    &&& rest.len() < before.nv12_outputs.max_slots
                    &&& match staging.plan_verdict() {
                        Ok(plan) => result == Ok::<_, RefusedFrame<StagedOutput>>(
                            FrameStep::Build { staging, plan, dropped },
                        ),
                        Err(text) => refuses(result, ImportFault::Other(text), dropped),
                    }
                },
                None => {
                    &&& self.nv12_counters == after_saturation(before.nv12_counters)
                    &&& self.nv12_outputs.places@ == places
                    &&& refuses(
                        result,
                        ImportFault::PoolSaturated {
                            pool: "NV12 output"@,
                            limit: before.nv12_outputs.max_slots,
                        },
                        None,
                    )
                },
            },
        }
    }

    /// Goes on with a biplanar frame once its output has been made, or could not be made. The output
    /// gets its place in the pool if its descriptors can be written; a frame that is refused after
    /// that leaves it there.
    pub fn nv12_output_made(
        &mut self,
        id: ImportId,
        staging: Nv12Staging,
        made: Result<(OutputBuild, Option<RawHandle>), VulkanImportError>,
    ) -> (result: Result<
        (ImportedDmaBufImage, Vec<DescriptorWrite>),
        RefusedFrame<StagedOutput>,
    >)
        requires
            old(self).well_formed(),
            old(self).nv12_outputs.places.len() < old(self).nv12_outputs.max_slots,
            old(self).nv12_outputs.next_ticket < u64::MAX,
            made matches Ok((build, _)) ==> is_complete(build, staging.strategy),
        ensures
            final(self).well_formed(),
            final(self).same_but_nv12(*old(self)),
            final(self).nv12_counters == old(self).nv12_counters,
            final(self).nv12_sources.entries@ == (if result is Ok {
                old(self).nv12_sources.entries@
            } else {
                after_retirement(old(self).nv12_sources.entries@, staging.lease)
            }),
            match made {
                Err(error) => {
                    &&& refuses(result, error@, None)
                    &&& final(self).nv12_outputs == old(self).nv12_outputs
                },
                Ok((build, set)) => {
                    let output = StagedOutput {
                        descriptor_pool: build.descriptor_pool,
                        descriptor_set: set,
                        resources: output_resources(build, staging.strategy),
                    };
                    let ticket = old(self).nv12_outputs.next_ticket;
                    let place = SlotPlace { ticket, key: staging.output_key(), idle: None };
                    let slot = OutputSlot {
                        ticket,
                        key: staging.output_key(),
                        resources: output,
                        initialized: false,
                    };
                    match (staging.writes_verdict(output), staging.operation_verdict()) {
                        (Err(text), _) => {
                            &&& refuses(result, ImportFault::Other(text), Some(output))
                            &&& final(self).nv12_outputs == old(self).nv12_outputs
                        },
                        (Ok(_), Err(text)) => {
                            &&& refuses(result, ImportFault::Other(text), None)
                            &&& final(self).nv12_outputs.next_ticket == ticket + 1
                            &&& final(self).nv12_outputs.places@
                                == old(self).nv12_outputs.places@.push(place.filled(slot))
                        },
                        (Ok(writes), Ok(operation)) => {
                            &&& result matches Ok((image, written)) && becomes(
                                image,
                                written,
                                staging.staged_image(id, slot, operation),
                                writes,
                            )
                            &&& final(self).nv12_outputs.next_ticket == ticket + 1
                            &&& final(self).nv12_outputs.places@
                                == old(self).nv12_outputs.places@.push(place)
                        },
                    }
                },
            },
    {
        let (build, set) = match made {
            Ok(made) => made,
            Err(error) => return Err(self.refuse_nv12(staging.lease, error, None)),
        };
        let output = finish_staged_output(build, staging.strategy, set);
        match staging.descriptor_writes(output) {
            Ok(_) => {},
            Err(message) => {
                return Err(
                    self.refuse_nv12(
                        staging.lease,
                        VulkanImportError::Other(message),
                        Some(output),
                    ),
                );
            },
        }
        let key = Nv12OutputKey {
            dimensions: staging.request.dimensions,
            strategy: staging.strategy,
        };
        let ghost places = self.nv12_outputs.places@;
        let slot = self.nv12_outputs.occupy(key, output);
        proof {
            a_new_slot_has_its_place(places, slot);
        }
        match Self::stage_nv12(id, staging, slot) {
            Ok(ready) => Ok(ready),
            Err((message, lease, slot)) => {
                let orphan = self.nv12_outputs.release(slot);
                Err(self.refuse_nv12(lease, VulkanImportError::Other(message), orphan))
            },
        }
    }

    fn refuse_packed(
        &mut self,
        lease: SourceLease<PackedSourceCacheKey>,
        error: VulkanImportError,
        orphan: Option<PackedOutput>,
    ) -> (refused: RefusedFrame<PackedOutput>)
        requires
            old(self).well_formed(),
        ensures
            final(self).well_formed(),
            final(self).same_but_packed(*old(self)),
            final(self).packed_outputs == old(self).packed_outputs,
            final(self).packed_counters == old(self).packed_counters,
            final(self).packed_sources.entries@ == after_retirement(
                old(self).packed_sources.entries@,
                lease,
            ),
            refused == (RefusedFrame { error, orphan }),
    {
        self.packed_sources.retire(lease);
        RefusedFrame { error, orphan }
    }

    fn stage_packed(
        id: ImportId,
        staging: PackedStaging,
        slot: OutputSlot<PackedOutputKey, PackedOutput>,
    ) -> (result: Result<
        (ImportedDmaBufImage, Vec<DescriptorWrite>),
        (String, SourceLease<PackedSourceCacheKey>, OutputSlot<PackedOutputKey, PackedOutput>),
    >)
        ensures
            match packed_constants_verdict(staging.request) {
                Err(text) => result matches Err((message, lease, given)) && message@ == text
                    && lease == staging.lease && given == slot,
                Ok(push_constants) => result matches Ok((image, written)) && becomes(
                    image,
                    written,
                    staging.staged_image(id, slot, push_constants),
                    packed_writes(slot.resources, staging.view),
                ),
            },
    {
        let writes = packed_descriptor_writes(slot.resources, staging.view);
        let source = PackedSourceAllocation::Staged { view: staging.view, source: staging.buffer };
        match create_staged_packed(id, staging.request, staging.lease, source, slot, staging.pipeline) {
            Ok(image) => Ok((image, writes)),
            Err(refused) => Err((refused.message, refused.lease, refused.output)),
        }
    }

    /// Goes on with a packed image whose source has been claimed: the image is ready, or an output
    /// has to be made for it. An image that is refused gives its source and its output back.
    pub fn continue_packed(&mut self, id: ImportId, import: PackedImport) -> (result: Result<
        FrameStep<PackedStaging, PackedOutput>,
        RefusedFrame<PackedOutput>,
    >)
        requires
            old(self).well_formed(),
        ensures
            final(self).well_formed(),
            final(self).same_but_packed(*old(self)),
            final(self).packed_outputs.next_ticket == old(self).packed_outputs.next_ticket,
            final(self).packed_sources.entries@ == (if result is Ok {
                old(self).packed_sources.entries@
            } else {
                after_retirement(old(self).packed_sources.entries@, import.lease)
            }),
            match (import.strategy, import.source) {
                (
                    PackedImageImportStrategy::DirectSampledImage,
                    PackedSourceAllocation::Direct(sampled),
                ) => {
                    &&& final(self).same_packed_outputs(*old(self))
                    &&& is_ready(result, import.direct_image(id, sampled), Seq::empty())
                },
                (
                    PackedImageImportStrategy::DirectSampledImage,
                    PackedSourceAllocation::Staged { .. },
                ) => {
                    &&& final(self).same_packed_outputs(*old(self))
                    &&& refuses(
                        result,
                        ImportFault::Other(
                            "Vulkan direct packed import received a staged-buffer cache entry"@,
                        ),
                        None,
                    )
                },
                (
                    PackedImageImportStrategy::LinearBufferToOptimalBgra,
                    PackedSourceAllocation::Direct(_),
                ) => {
                    &&& final(self).same_packed_outputs(*old(self))
                    &&& refuses(
                        result,
                        ImportFault::Other(
                            "Vulkan staged packed import received a direct-image cache entry"@,
                        ),
                        None,
                    )
                },
                (
                    PackedImageImportStrategy::LinearBufferToOptimalBgra,
                    PackedSourceAllocation::Staged { view, source },
                ) => if import.pipeline is None || old(self).packed_staging_error is Some {
                    &&& final(self).same_packed_outputs(*old(self))
                    &&& refuses(
                        result,
                        ImportFault::Other("Vulkan packed BGRA staging pipeline is unavailable"@),
                        None,
                    )
                } else {
                    final(self).claims_packed(
                        *old(self),
                        id,
                        import.staged_from(source, view, import.pipeline.unwrap()),
                        result,
                    )
                },
            },
    {
        match import.strategy {
            PackedImageImportStrategy::DirectSampledImage => {
                return match ImportedDmaBufImage::from_direct_packed_source(
                    id,
                    import.request,
                    import.lease,
                    import.source,
                ) {
                    Ok(image) => {
                        let writes: Vec<DescriptorWrite> = Vec::new();
                        Ok(FrameStep::Ready { image, writes })
                    },
                    Err(refused) => Err(
                        self.refuse_packed(
                            refused.lease,
                            VulkanImportError::Other(refused.message),
                            None,
                        ),
                    ),
                };
            },
            PackedImageImportStrategy::LinearBufferToOptimalBgra => {},
        }
        let (view, buffer): (u64, BufferAllocation) = match import.source {
            PackedSourceAllocation::Staged { view, source } => (view, source),
            PackedSourceAllocation::Direct(_) => {
                return Err(
                    self.refuse_packed(
                        import.lease,
                        VulkanImportError::Other(
                            "Vulkan staged packed import received a direct-image cache entry".to_owned(),
                        ),
                        None,
                    ),
                );
            },
        };
        let pipeline = match import.pipeline {
            Some(pipeline) => pipeline,
            None => {
                return Err(
                    self.refuse_packed(
                        import.lease,
                        VulkanImportError::Other(
                            "Vulkan packed BGRA staging pipeline is unavailable".to_owned(),
                        ),
                        None,
                    ),
                );
            },
        };
        let staging = PackedStaging {
            request: import.request,
            lease: import.lease,
            buffer,
            view,
            pipeline,
        };
        let key = PackedOutputKey { dimensions: staging.request.dimensions };
        proof {
            if matching_place(self.packed_outputs.places@, key, 0) is Some {
                release_undoes_the_claim(self.packed_outputs.places@, key);
            }
        }
        match self.claim_packed_output(key) {
            Err(error) => Err(self.refuse_packed(staging.lease, error, None)),
            Ok(SlotClaim::Reuse(slot)) => match Self::stage_packed(id, staging, slot) {
                Ok((image, writes)) => Ok(FrameStep::Ready { image, writes }),
                Err((message, lease, slot)) => {
                    let orphan = self.packed_outputs.release(slot);
                    Err(self.refuse_packed(lease, VulkanImportError::Other(message), orphan))
                },
            },
            Ok(SlotClaim::Create { dropped }) => {
                let plan = plan_packed_output(staging.request.dimensions, pipeline, view);
                Ok(FrameStep::Build { staging, plan, dropped })
            },
        }
    }

    /// The packed outputs are those of `other`.
    pub open spec fn same_packed_outputs(self, other: Self) -> bool {
        &&& self.packed_outputs == other.packed_outputs
        &&& self.packed_counters == other.packed_counters
    }

    /// What `continue_packed` does with an image that is staged: an idle output of its shape serves
    /// it; without one there is room for another, or the pool is full.
    pub open spec fn claims_packed(
        self,
        before: Self,
        id: ImportId,
        staging: PackedStaging,
        result: Result<FrameStep<PackedStaging, PackedOutput>, RefusedFrame<PackedOutput>>,
    ) -> bool {
        let places = before.packed_outputs.places@;
        match matching_place(places, staging.output_key(), 0) {
            Some(index) => {
                let slot = places[index].idle.unwrap();
                &&& self.packed_counters == before.packed_counters
                &&& match packed_constants_verdict(staging.request) {
                    Ok(push_constants) => {
                        &&& is_ready(
                            result,
                            staging.staged_image(id, slot, push_constants),
                            packed_writes(slot.resources, staging.view),
                        )
                        &&& self.packed_outputs.places@ == places.update(
                            index,
                            places[index].emptied(),
                        )
                    },
                    Err(text) => {
                        &&& refuses(result, ImportFault::Other(text), None)
                        &&& self.packed_outputs.places@ == places
                    },
                }
            },
            None => match room_for_one(places, before.packed_outputs.max_slots) {
                Some((rest, dropped)) => {
                    &&& self.packed_counters == before.packed_counters
                    &&& self.packed_outputs.places@ == rest
                    &&& rest.len() < before.packed_outputs.max_slots
                    &&& result == Ok::<_, RefusedFrame<PackedOutput>>(
                        FrameStep::Build {
                            staging,
                            plan: packed_output_plan(
                                staging.request.dimensions,
                                staging.pipeline,
                                staging.view,
                            ),
                            dropped,
                        },
                    )
                },
                None => {
                    &&& self.packed_counters == after_saturation(before.packed_counters)
                    &&& self.packed_outputs.places@ == places
                    &&& refuses(
                        result,
                        ImportFault::PoolSaturated {
                            pool: "packed output"@,
                            limit: before.packed_outputs.max_slots,
                        },
                        None,
                    )
                },
            },
        }
    }

    /// Goes on with a packed image once its output has been made, or could not be made. The output
    /// gets its place in the pool; an image that is refused after that leaves it there.
    pub fn packed_output_made(
        &mut self,
        id: ImportId,
        staging: PackedStaging,
        made: Result<(OutputBuild, RawHandle), VulkanImportError>,
    ) -> (result: Result<
        (ImportedDmaBufImage, Vec<DescriptorWrite>),
        RefusedFrame<PackedOutput>,
    >)
        requires
            old(self).well_formed(),
            old(self).packed_outputs.places.len() < old(self).packed_outputs.max_slots,
            old(self).packed_outputs.next_ticket < u64::MAX,
            made matches Ok((build, _)) ==> build.images.len() == 1 && build.views.len() == 1
                && build.descriptor_pool is Some,
        ensures
            final(self).well_formed(),
            final(self).same_but_packed(*old(self)),
            final(self).packed_counters == old(self).packed_counters,
            final(self).packed_sources.entries@ == (if result is Ok {
                old(self).packed_sources.entries@
            } else {
                after_retirement(old(self).packed_sources.entries@, staging.lease)
            }),
            match made {
                Err(error) => {
                    &&& refuses(result, error@, None)
                    &&& final(self).packed_outputs == old(self).packed_outputs
                },
                Ok((build, set)) => {
                    let output = PackedOutput {
                        descriptor_pool: build.descriptor_pool.unwrap(),
                        descriptor_set: set,
                        storage_view: build.views[0],
                        sampled: build.images[0],
                    };
                    let ticket = old(self).packed_outputs.next_ticket;
                    let place = SlotPlace { ticket, key: staging.output_key(), idle: None };
                    let slot = OutputSlot {
                        ticket,
                        key: staging.output_key(),
                        resources: output,
                        initialized: false,
                    };
                    &&& final(self).packed_outputs.next_ticket == ticket + 1
                    &&& match packed_constants_verdict(staging.request) {
                        Err(text) => {
                            &&& refuses(result, ImportFault::Other(text), None)
                            &&& final(self).packed_outputs.places@
                                == old(self).packed_outputs.places@.push(place.filled(slot))
                        },
                        Ok(push_constants) => {
                            &&& result matches Ok((image, written)) && becomes(
                                image,
                                written,
                                staging.staged_image(id, slot, push_constants),
                                packed_writes(output, staging.view),
                            )
                            &&& final(self).packed_outputs.places@
                                == old(self).packed_outputs.places@.push(place)
                        },
                    }
                },
            },
    {
        let (build, set): (OutputBuild, u64) = match made {
            Ok(made) => made,
            Err(error) => return Err(self.refuse_packed(staging.lease, error, None)),
        };
        let output = finish_packed_output(build, set);
        let key = PackedOutputKey { dimensions: staging.request.dimensions };
        let ghost places = self.packed_outputs.places@;
        let slot = self.packed_outputs.occupy(key, output);
        proof {
            a_new_slot_has_its_place(places, slot);
        }
        match Self::stage_packed(id, staging, slot) {
            Ok(ready) => Ok(ready),
            Err((message, lease, slot)) => {
                let orphan = self.packed_outputs.release(slot);
                Err(self.refuse_packed(lease, VulkanImportError::Other(message), orphan))
            },
        }
    }
}

} // verus!
