//! What holds of the importer, whatever it has imported before.

use vstd::prelude::*;

use crate::probe::DmaBufProbe;
use crate::vulkan::cache::{
    Nv12SourceCacheKey, PackedSourceCacheKey, SourceCache, SourceInsertion, SourceLease,
    SourceLookup,
};
use crate::vulkan::capability::{
    resolve_nv12_modifier_capability, validate_nv12_modifier_capability, Nv12ModifierCapability,
    Nv12ResolveRequest,
};
use crate::vulkan::error::VulkanImportError;
use crate::vulkan::identity::{
    checked_identity, identity_from_probe, verified_dmabuf_identity, DmaBufIdentity,
};
use crate::vulkan::import::{
    ImportCounters, ImportDeviceReport, Nv12ImportCacheStats, Nv12ImportPlan, Nv12ImportRequest,
    PackedImportCacheStats, PackedSupportReport, SourceClaim, VulkanDmaBufImporter,
};
use crate::vulkan::inventory::{
    inventory_nv12_modifier_capabilities_with_staging_preference, validate_packed_import_support,
    validate_packed_staging_support, DrmModifierProperties, Nv12ModifierReport,
};
use crate::vulkan::layout::{
    check_packed_layout, validate_image_inputs, validate_nv12_shared_layout, validate_staged_layout,
    validate_staged_packed_layout, validate_transfer_layout,
};
use crate::vulkan::pool::{Nv12OutputKey, OutputPool, PackedOutputKey, SlotClaim};
use crate::vulkan::types::{
    Nv12ComputeOutput, Nv12FrameTopology, Nv12ImportStrategy, Nv12SharedObjectLayout,
    Nv12StagingPreference, PackedImageFormat, PackedImageImport, PackedImageImportStrategy,
    VulkanImportPoolLimits,
};

verus! {

/// The identity of a buffer is that of its file, whose size is the declared one; there is none for a
/// file descriptor that is not open, a file that cannot be probed, or a size that is not its own,
/// and every such refusal is about the size.
pub proof fn identities_are_proved_by_the_file(
    source_fd: i32,
    declared: u64,
    probe: Result<DmaBufProbe, String>,
    result: Result<DmaBufIdentity, VulkanImportError>,
)
    requires
        call_ensures(checked_identity, (source_fd, declared, probe), result),
    ensures
        result is Ok <==> source_fd >= 0 && (probe matches Ok(found) && found.allocation_size
            == declared),
        result matches Ok(identity) ==> (probe matches Ok(found) && identity.device == found.device
            && identity.inode == found.inode && identity.allocation_size == declared),
        result matches Err(error) ==> error is AllocationSizeProbe || (
        error matches VulkanImportError::AllocationSizeMismatch {
            declared: said,
            observed,
        } && said == declared && (probe matches Ok(found) && observed == found.allocation_size)),
        result matches Err(error) ==> (error is AllocationSizeMismatch <==> source_fd >= 0 && probe
            is Ok),
{
}

/// Asking the file itself makes no difference: whatever the probe says decides.
pub proof fn probed_identities_are_proved_by_the_file<
    P: FnOnce() -> Result<DmaBufProbe, String>,
>(
    source_fd: i32,
    declared: u64,
    probe: P,
    found: Result<DmaBufProbe, String>,
    result: Result<DmaBufIdentity, VulkanImportError>,
)
    requires
        call_ensures(verified_dmabuf_identity::<P>, (source_fd, declared, probe), result),
        forall|outcome: Result<DmaBufProbe, String>|
            call_ensures(probe, (), outcome) ==> outcome == found,
    ensures
        result is Ok <==> source_fd >= 0 && (found matches Ok(file) && file.allocation_size
            == declared),
        result matches Ok(identity) ==> (found matches Ok(file) && identity.device == file.device
            && identity.inode == file.inode && identity.allocation_size == declared),
        result matches Err(error) ==> error is AllocationSizeProbe || error
            is AllocationSizeMismatch,
{
}

/// An import error is about the size of the allocation if and only if it is one of the three that
/// speak of it.
pub proof fn size_errors_are_told_apart(error: VulkanImportError, about_size: bool)
    requires
        call_ensures(VulkanImportError::is_allocation_size, (&error,), about_size),
    ensures
        about_size <==> error is AllocationSizeMismatch || error is AllocationSizeProbe || error
            is AllocationSize,
        !about_size <==> error is PoolSaturated || error is Other,
{
}

/// A new importer has nothing cached, room for as much as it was given, the capabilities of the
/// device for its preference, and can stage packed images if and only if the device can. There is
/// none with a limit of zero.
pub proof fn new_importers_are_empty<N, P, A, B>(
    device: ImportDeviceReport,
    limits: VulkanImportPoolLimits,
    preference: Nv12StagingPreference,
    result: Result<VulkanDmaBufImporter<N, P, A, B>, String>,
    modifiers: &[Nv12ModifierReport],
    capabilities: Vec<Nv12ModifierCapability>,
    staging: Result<(), String>,
)
    requires
        call_ensures(
            VulkanDmaBufImporter::<N, P, A, B>::new_with_limits_and_staging_preference,
            (&device, limits, preference),
            result,
        ),
        modifiers@ == device.nv12_modifiers@,
        call_ensures(
            inventory_nv12_modifier_capabilities_with_staging_preference,
            (modifiers, device.nv12_staging, preference),
            capabilities,
        ),
        call_ensures(
            validate_packed_staging_support,
            (PackedImageFormat::Bgra8888, 0u64, device.packed_staging),
            staging,
        ),
    ensures
        result is Ok <==> limits.nv12_source_cache_entries > 0 && limits.nv12_output_slots > 0
            && limits.packed_source_cache_entries > 0 && limits.packed_output_slots > 0,
        result matches Ok(importer) ==> {
            &&& importer.capabilities@ == capabilities@
            &&& importer.nv12_sources.entries@.len() == 0 && importer.nv12_sources.max_entries
                == limits.nv12_source_cache_entries
            &&& importer.nv12_outputs.places@.len() == 0 && importer.nv12_outputs.max_slots
                == limits.nv12_output_slots
            &&& importer.packed_sources.entries@.len() == 0 && importer.packed_sources.max_entries
                == limits.packed_source_cache_entries
            &&& importer.packed_outputs.places@.len() == 0 && importer.packed_outputs.max_slots
                == limits.packed_output_slots
            &&& importer.packed_staging_error is None <==> staging is Ok
            &&& importer.nv12_outputs.next_ticket == 0 && importer.packed_outputs.next_ticket == 0
            &&& counts_nothing(importer.nv12_counters) && counts_nothing(importer.packed_counters)
        },
{
}

/// Nothing has been counted, and the clock is at one.
pub open spec fn counts_nothing(counters: ImportCounters) -> bool {
    &&& counters.hits == 0 && counters.misses == 0 && counters.evictions == 0
    &&& counters.active_reuse_rejections == 0 && counters.topology_collisions == 0
    &&& counters.allocation_size_rejections == 0 && counters.output_pool_busy_rejections == 0
    &&& counters.clock == 1
}

/// Without limits there are thirty-two sources and eight outputs of each kind, and without a
/// preference planes are preferred.
pub proof fn importers_have_defaults<N, P, A, B>(
    device: ImportDeviceReport,
    limits: VulkanImportPoolLimits,
    plain: Result<VulkanDmaBufImporter<N, P, A, B>, String>,
    limited: Result<VulkanDmaBufImporter<N, P, A, B>, String>,
    preferring: Result<VulkanDmaBufImporter<N, P, A, B>, String>,
)
    requires
        call_ensures(VulkanDmaBufImporter::<N, P, A, B>::new, (&device,), plain),
        call_ensures(
            VulkanDmaBufImporter::<N, P, A, B>::new_with_limits,
            (&device, limits),
            limited,
        ),
        call_ensures(
            VulkanDmaBufImporter::<N, P, A, B>::new_with_limits_and_staging_preference,
            (&device, limits, Nv12StagingPreference::PreferPlanar),
            preferring,
        ),
    ensures
        plain matches Ok(importer) && importer.nv12_sources.max_entries == 32
            && importer.packed_sources.max_entries == 32 && importer.nv12_outputs.max_slots == 8
            && importer.packed_outputs.max_slots == 8,
        limited is Ok <==> preferring is Ok,
        limited is Ok ==> limited->Ok_0.capabilities@ == preferring->Ok_0.capabilities@
            && limited->Ok_0.nv12_sources.max_entries == limits.nv12_source_cache_entries
            && limited->Ok_0.nv12_outputs.max_slots == limits.nv12_output_slots
            && limited->Ok_0.packed_sources.max_entries == limits.packed_source_cache_entries
            && limited->Ok_0.packed_outputs.max_slots == limits.packed_output_slots,
        limited is Ok ==> plain->Ok_0.capabilities@ == limited->Ok_0.capabilities@,
{
}

/// A compute pipeline is needed if and only if some capability runs it, and a stream gets what
/// resolving among the importer's capabilities gives.
pub proof fn importers_serve_their_capabilities<N, P, A, B>(
    importer: VulkanDmaBufImporter<N, P, A, B>,
    planes: bool,
    rgba: bool,
    request: Nv12ResolveRequest,
    result: Result<Nv12ModifierCapability, String>,
    candidates: &[Nv12ModifierCapability],
    resolved: Result<Nv12ModifierCapability, String>,
)
    requires
        call_ensures(
            VulkanDmaBufImporter::<N, P, A, B>::needs_pipeline,
            (&importer, Nv12ComputeOutput::YuvPlanes),
            planes,
        ),
        call_ensures(
            VulkanDmaBufImporter::<N, P, A, B>::needs_pipeline,
            (&importer, Nv12ComputeOutput::Rgba),
            rgba,
        ),
        call_ensures(
            VulkanDmaBufImporter::<N, P, A, B>::resolve_nv12,
            (&importer, request),
            result,
        ),
        candidates@ == importer.capabilities@,
        call_ensures(resolve_nv12_modifier_capability, (candidates, request), resolved),
    ensures
        planes <==> exists|index: int|
            0 <= index < importer.capabilities@.len() && (
            #[trigger] importer.capabilities@[index]).strategy is LinearBufferToYuvPlanes,
        rgba <==> exists|index: int|
            0 <= index < importer.capabilities@.len() && (
            #[trigger] importer.capabilities@[index]).strategy is LinearBufferToRgba,
        result is Ok <==> resolved is Ok,
        result is Ok ==> result->Ok_0 == resolved->Ok_0,
        result is Err ==> result->Err_0@ == resolved->Err_0@,
{
    let all = importer.capabilities@;
    if planes {
        let index = choose|index: int|
            0 <= index < importer.capabilities.len() && crate::vulkan::import::pipeline_of(
                (#[trigger] importer.capabilities[index]).strategy,
            ) == Some(Nv12ComputeOutput::YuvPlanes);
        assert(all[index].strategy is LinearBufferToYuvPlanes);
    }
    if rgba {
        let index = choose|index: int|
            0 <= index < importer.capabilities.len() && crate::vulkan::import::pipeline_of(
                (#[trigger] importer.capabilities[index]).strategy,
            ) == Some(Nv12ComputeOutput::Rgba);
        assert(all[index].strategy is LinearBufferToRgba);
    }
    if exists|index: int|
        0 <= index < all.len() && (#[trigger] all[index]).strategy is LinearBufferToYuvPlanes {
        let index = choose|index: int|
            0 <= index < all.len() && (#[trigger] all[index]).strategy is LinearBufferToYuvPlanes;
        assert(crate::vulkan::import::pipeline_of(importer.capabilities[index].strategy) == Some(
            Nv12ComputeOutput::YuvPlanes,
        ));
    }
    if exists|index: int|
        0 <= index < all.len() && (#[trigger] all[index]).strategy is LinearBufferToRgba {
        let index = choose|index: int|
            0 <= index < all.len() && (#[trigger] all[index]).strategy is LinearBufferToRgba;
        assert(crate::vulkan::import::pipeline_of(importer.capabilities[index].strategy) == Some(
            Nv12ComputeOutput::Rgba,
        ));
    }
    if result is Ok && resolved is Ok {
        let one = choose|index: int|
            0 <= index < all.len() && all[index] == result->Ok_0
                && crate::vulkan::capability::answers(#[trigger] all[index], request) && forall|
                before: int,
            |
                0 <= before < index ==> !crate::vulkan::capability::answers(
                    #[trigger] all[before],
                    request,
                );
        let other = choose|index: int|
            0 <= index < all.len() && all[index] == resolved->Ok_0
                && crate::vulkan::capability::answers(#[trigger] all[index], request) && forall|
                before: int,
            |
                0 <= before < index ==> !crate::vulkan::capability::answers(
                    #[trigger] all[before],
                    request,
                );
        assert(one == other);
    }
}

/// Packed images are sampled directly wherever the device can, staged where it cannot but can stage
/// them, and refused otherwise.
pub proof fn packed_images_are_sampled_directly_where_possible<N, P, A, B>(
    importer: VulkanDmaBufImporter<N, P, A, B>,
    format: PackedImageFormat,
    modifier: u64,
    report: PackedSupportReport,
    modifiers: &[DrmModifierProperties],
    direct: Result<(), String>,
    staged: Result<(), String>,
    result: Result<PackedImageImportStrategy, String>,
)
    requires
        modifiers@ == report.modifiers@,
        call_ensures(
            validate_packed_import_support,
            (modifiers, format, modifier, report.external),
            direct,
        ),
        call_ensures(
            validate_packed_staging_support,
            (format, modifier, report.staging),
            staged,
        ),
        call_ensures(
            VulkanDmaBufImporter::<N, P, A, B>::packed_import_strategy,
            (&importer, format, modifier, &report),
            result,
        ),
    ensures
        result == Ok::<_, String>(PackedImageImportStrategy::DirectSampledImage) <==> direct is Ok,
        result == Ok::<_, String>(PackedImageImportStrategy::LinearBufferToOptimalBgra)
            <==> direct is Err && staged is Ok && importer.packed_staging_error is None,
        result is Err <==> direct is Err && (staged is Err || importer.packed_staging_error
            is Some),
{
}

/// A packed request is admitted if and only if its inputs and its layout are sound, the device
/// supports the strategy, and, for staging, the allocation can be read by the shader. A refusal
/// about the allocation's size is counted once, and nothing else changes.
pub proof fn packed_requests_are_admitted_part_by_part<N, P, A, B>(
    request: PackedImageImport,
    strategy: PackedImageImportStrategy,
    report: PackedSupportReport,
    modifiers: &[DrmModifierProperties],
    inputs: Result<(), String>,
    layout: Result<(), VulkanImportError>,
    direct: Result<(), String>,
    staging: Result<(), String>,
    staged: Result<(), VulkanImportError>,
    result: Result<(), VulkanImportError>,
)
    requires
        modifiers@ == report.modifiers@,
        call_ensures(
            validate_image_inputs,
            (request.dimensions, request.source_fd, request.plane),
            inputs,
        ),
        call_ensures(
            check_packed_layout,
            (request.dimensions, request.source_size, request.plane),
            layout,
        ),
        call_ensures(
            validate_packed_import_support,
            (modifiers, request.format, request.modifier, report.external),
            direct,
        ),
        call_ensures(
            validate_packed_staging_support,
            (request.format, request.modifier, report.staging),
            staging,
        ),
        call_ensures(
            validate_staged_packed_layout,
            (request.source_size, report.max_texel_buffer_elements),
            staged,
        ),
    ensures
        forall|i: &mut VulkanDmaBufImporter<N, P, A, B>| #[trigger]
            call_ensures(
                VulkanDmaBufImporter::<N, P, A, B>::import_packed_with_strategy,
                (i, request, strategy, &report),
                result,
            ) ==> {
                &&& result is Ok <==> inputs is Ok && layout is Ok && match strategy {
                    PackedImageImportStrategy::DirectSampledImage => direct is Ok,
                    PackedImageImportStrategy::LinearBufferToOptimalBgra => staging is Ok && staged
                        is Ok,
                }
                &&& counts_refusal(
                    (*i).packed_counters,
                    final(i).packed_counters,
                    result,
                )
                &&& final(i).packed_sources == (*i).packed_sources && final(i).packed_outputs
                    == (*i).packed_outputs
            },
        forall|i: &mut VulkanDmaBufImporter<N, P, A, B>| #[trigger]
            call_ensures(
                VulkanDmaBufImporter::<N, P, A, B>::import_packed,
                (i, request, &report),
                result,
            ) ==> {
                &&& result is Ok <==> inputs is Ok && layout is Ok && direct is Ok
                &&& counts_refusal(
                    (*i).packed_counters,
                    final(i).packed_counters,
                    result,
                )
            },
{
}

/// A refusal about the size of the allocation is counted, and nothing else.
pub open spec fn counts_refusal<T>(
    before: ImportCounters,
    after: ImportCounters,
    result: Result<T, VulkanImportError>,
) -> bool {
    let about_size = result matches Err(error) && (error is AllocationSizeMismatch || error
        is AllocationSizeProbe || error is AllocationSize);
    &&& about_size && before.allocation_size_rejections < u64::MAX
        ==> after.allocation_size_rejections == before.allocation_size_rejections + 1
    &&& !about_size ==> after.allocation_size_rejections == before.allocation_size_rejections
    &&& after.hits == before.hits && after.misses == before.misses && after.evictions
        == before.evictions && after.active_reuse_rejections == before.active_reuse_rejections
        && after.topology_collisions == before.topology_collisions
        && after.output_pool_busy_rejections == before.output_pool_busy_rejections && after.clock
        == before.clock
}

/// A biplanar request is admitted if and only if the importer issued its capability, the capability
/// is for the frame's modifier and serves the frame, the layout is sound, and what the strategy
/// reads it with can be done. What is planned is the frame itself, and the pipeline that the
/// strategy runs.
pub proof fn nv12_requests_are_admitted_part_by_part<N, P, A, B>(
    importer: VulkanDmaBufImporter<N, P, A, B>,
    request: Nv12ImportRequest,
    limit: u32,
    serves: Result<(), String>,
    layout: Result<(), String>,
    transfer: Result<(), String>,
    staged: Result<u64, String>,
    topology: Nv12FrameTopology,
    result: Result<Nv12ImportPlan, String>,
)
    requires
        call_ensures(
            validate_nv12_modifier_capability,
            (request.capability, request.dimensions, request.conversion),
            serves,
        ),
        call_ensures(validate_nv12_shared_layout, (request.dimensions, request.layout), layout),
        call_ensures(validate_transfer_layout, (request.dimensions, request.layout), transfer),
        call_ensures(validate_staged_layout, (request.dimensions, request.layout, limit), staged),
        call_ensures(
            Nv12SharedObjectLayout::frame_topology,
            (request.layout, request.dimensions),
            topology,
        ),
        call_ensures(
            VulkanDmaBufImporter::<N, P, A, B>::import_nv12_shared_object,
            (&importer, request, limit),
            result,
        ),
    ensures
        result is Ok <==> {
            &&& importer.capabilities@.contains(request.capability)
            &&& request.capability.modifier == request.layout.modifier
            &&& serves is Ok && layout is Ok
            &&& match request.capability.strategy {
                Nv12ImportStrategy::DirectSampledImage => request.source_fd >= 0,
                Nv12ImportStrategy::LinearBufferToOptimalNv12
                | Nv12ImportStrategy::LinearBufferToOptimalYuvPlanes => transfer is Ok,
                Nv12ImportStrategy::LinearBufferToYuvPlanes
                | Nv12ImportStrategy::LinearBufferToRgba => staged is Ok,
            }
        },
        result matches Ok(plan) ==> {
            &&& plan.topology == topology
            &&& plan.strategy == request.capability.strategy
            &&& plan.pipeline == Some(Nv12ComputeOutput::Rgba) <==> plan.strategy
                is LinearBufferToRgba
            &&& plan.pipeline == Some(Nv12ComputeOutput::YuvPlanes) <==> plan.strategy
                is LinearBufferToYuvPlanes
            &&& plan.source_view_range is Some <==> plan.pipeline is Some
            &&& plan.source_view_range matches Some(range) ==> staged == Ok::<_, String>(range)
        },
{
}

/// What was counted of a look into the cache: a hit, a miss, a source in use or a collision, once,
/// and a tick of the clock.
pub open spec fn counts_lookup(
    before: ImportCounters,
    after: ImportCounters,
    lookup: SourceLookup,
) -> bool {
    &&& counts_one(before.hits, after.hits, lookup is Claimed)
    &&& counts_one(before.misses, after.misses, lookup is Missing)
    &&& counts_one(
        before.active_reuse_rejections,
        after.active_reuse_rejections,
        lookup is Active,
    )
    &&& counts_one(before.topology_collisions, after.topology_collisions, lookup is Collision)
    &&& after.evictions == before.evictions && after.allocation_size_rejections
        == before.allocation_size_rejections && after.output_pool_busy_rejections
        == before.output_pool_busy_rejections
}

/// One more, where something happened, and as many as before where it did not.
pub open spec fn counts_one(before: u64, after: u64, happened: bool) -> bool {
    &&& !happened ==> after == before
    &&& happened && before < u64::MAX ==> after == before + 1
    &&& happened && before == u64::MAX ==> after == 0
}

/// What became of a look into the cache: an idle source is leased, a missing one is to be imported
/// as of now, and everything else is refused.
pub open spec fn follows_lookup<K>(
    result: Result<SourceClaim<K>, VulkanImportError>,
    lookup: SourceLookup,
    key: K,
    now: u64,
) -> bool {
    match lookup {
        SourceLookup::Claimed => result matches Ok(SourceClaim::Cached(lease)) && lease.key == key
            && !lease.released,
        SourceLookup::Missing => result matches Ok(SourceClaim::Import { key: wanted, generation })
            && wanted == key && generation == now,
        SourceLookup::Active | SourceLookup::Collision => result matches Err(error) && error
            is Other,
    }
}

/// The source of a packed request is looked up under everything that the request and the file say of
/// it, and claimed as the cache claims; a buffer without an identity is refused, which is counted.
pub proof fn packed_sources_are_found_by_request_and_file<N, P, A, B>(
    request: PackedImageImport,
    strategy: PackedImageImportStrategy,
    probe: Result<DmaBufProbe, String>,
    identity: Result<DmaBufIdentity, VulkanImportError>,
    key: PackedSourceCacheKey,
    lookup: SourceLookup,
    result: Result<SourceClaim<PackedSourceCacheKey>, VulkanImportError>,
)
    requires
        call_ensures(
            checked_identity,
            (request.source_fd, request.source_size, probe),
            identity,
        ),
        identity matches Ok(file) ==> {
            &&& key.stream_incarnation == request.stream_incarnation
            &&& key.device == file.device && key.inode == file.inode
            &&& key.topology.dimensions == request.dimensions
            &&& key.topology.object_size == request.source_size
            &&& key.topology.modifier == request.modifier
            &&& key.topology.plane == request.plane
            &&& key.topology.format == request.format
            &&& key.topology.strategy == strategy
        },
    ensures
        forall|
            i: &mut VulkanDmaBufImporter<N, P, A, B>,
            c: &mut SourceCache<PackedSourceCacheKey, P>,
        |
            #[trigger] call_ensures(
                VulkanDmaBufImporter::<N, P, A, B>::begin_packed_claim,
                (i, request, strategy, probe),
                result,
            ) && #[trigger] call_ensures(
                SourceCache::<PackedSourceCacheKey, P>::claim,
                (c, &key, (*i).packed_counters.clock),
                lookup,
            ) && *c == (*i).packed_sources ==> if identity is Ok {
                &&& follows_lookup(result, lookup, key, (*i).packed_counters.clock)
                &&& final(i).packed_sources.entries@ == final(c).entries@
                &&& counts_lookup((*i).packed_counters, final(i).packed_counters, lookup)
                &&& counts_one((*i).packed_counters.clock, final(i).packed_counters.clock, true)
            } else {
                &&& result is Err && result->Err_0@ == identity->Err_0@
                &&& counts_refusal((*i).packed_counters, final(i).packed_counters, result)
                &&& final(i).packed_sources == (*i).packed_sources
            },
{
    assert forall|
        i: &mut VulkanDmaBufImporter<N, P, A, B>,
        c: &mut SourceCache<PackedSourceCacheKey, P>,
    |
        #[trigger] call_ensures(
            VulkanDmaBufImporter::<N, P, A, B>::begin_packed_claim,
            (i, request, strategy, probe),
            result,
        ) && #[trigger] call_ensures(
            SourceCache::<PackedSourceCacheKey, P>::claim,
            (c, &key, (*i).packed_counters.clock),
            lookup,
        ) && *c == (*i).packed_sources implies if identity is Ok {
        &&& follows_lookup(result, lookup, key, (*i).packed_counters.clock)
        &&& final(i).packed_sources.entries@ == final(c).entries@
        &&& counts_lookup((*i).packed_counters, final(i).packed_counters, lookup)
        &&& counts_one((*i).packed_counters.clock, final(i).packed_counters.clock, true)
    } else {
        &&& result is Err && result->Err_0@ == identity->Err_0@
        &&& counts_refusal((*i).packed_counters, final(i).packed_counters, result)
        &&& final(i).packed_sources == (*i).packed_sources
    } by {
        if let Ok(file) = identity {
            assert(key == crate::vulkan::import::packed_key(request, strategy, file));
        }
    }
}

/// The source of a biplanar frame is looked up under everything that the plan and the file say of
/// it, and claimed as the cache claims; a buffer without an identity is refused.
pub proof fn nv12_sources_are_found_by_plan_and_file<N, P, A, B>(
    stream: u64,
    source_fd: i32,
    plan: Nv12ImportPlan,
    probe: Result<DmaBufProbe, String>,
    identity: Result<DmaBufIdentity, VulkanImportError>,
    key: Nv12SourceCacheKey,
    lookup: SourceLookup,
    result: Result<SourceClaim<Nv12SourceCacheKey>, VulkanImportError>,
)
    requires
        call_ensures(
            checked_identity,
            (source_fd, plan.topology.object_size, probe),
            identity,
        ),
        identity matches Ok(file) ==> {
            &&& key.stream_incarnation == stream
            &&& key.device == file.device && key.inode == file.inode
            &&& key.topology == plan.topology
            &&& key.strategy == plan.strategy
        },
    ensures
        forall|
            i: &mut VulkanDmaBufImporter<N, P, A, B>,
            c: &mut SourceCache<Nv12SourceCacheKey, N>,
        |
            #[trigger] call_ensures(
                VulkanDmaBufImporter::<N, P, A, B>::begin_nv12_claim,
                (i, stream, source_fd, plan, probe),
                result,
            ) && #[trigger] call_ensures(
                SourceCache::<Nv12SourceCacheKey, N>::claim,
                (c, &key, (*i).nv12_counters.clock),
                lookup,
            ) && *c == (*i).nv12_sources ==> if identity is Ok {
                &&& follows_lookup(result, lookup, key, (*i).nv12_counters.clock)
                &&& final(i).nv12_sources.entries@ == final(c).entries@
                &&& counts_lookup((*i).nv12_counters, final(i).nv12_counters, lookup)
                &&& counts_one((*i).nv12_counters.clock, final(i).nv12_counters.clock, true)
            } else {
                &&& result is Err && result->Err_0@ == identity->Err_0@
                &&& final(i).nv12_counters == (*i).nv12_counters
                &&& final(i).nv12_sources == (*i).nv12_sources
            },
{
    assert forall|
        i: &mut VulkanDmaBufImporter<N, P, A, B>,
        c: &mut SourceCache<Nv12SourceCacheKey, N>,
    |
        #[trigger] call_ensures(
            VulkanDmaBufImporter::<N, P, A, B>::begin_nv12_claim,
            (i, stream, source_fd, plan, probe),
            result,
        ) && #[trigger] call_ensures(
            SourceCache::<Nv12SourceCacheKey, N>::claim,
            (c, &key, (*i).nv12_counters.clock),
            lookup,
        ) && *c == (*i).nv12_sources implies if identity is Ok {
        &&& follows_lookup(result, lookup, key, (*i).nv12_counters.clock)
        &&& final(i).nv12_sources.entries@ == final(c).entries@
        &&& counts_lookup((*i).nv12_counters, final(i).nv12_counters, lookup)
        &&& counts_one((*i).nv12_counters.clock, final(i).nv12_counters.clock, true)
    } else {
        &&& result is Err && result->Err_0@ == identity->Err_0@
        &&& final(i).nv12_counters == (*i).nv12_counters
        &&& final(i).nv12_sources == (*i).nv12_sources
    } by {
        if let Ok(file) = identity {
            assert(key == crate::vulkan::import::nv12_key(stream, plan, file));
        }
    }
}

/// What was counted of an insertion: an eviction, or a look at what was there already.
pub open spec fn counts_insertion(
    before: ImportCounters,
    after: ImportCounters,
    outcome: SourceInsertion,
) -> bool {
    &&& after.clock == before.clock
    &&& outcome matches SourceInsertion::Existing(lookup) ==> counts_lookup(before, after, lookup)
    &&& outcome matches SourceInsertion::Inserted { evicted } ==> counts_one(
        before.evictions,
        after.evictions,
        evicted,
    ) && after == (ImportCounters { evictions: after.evictions, ..before })
    &&& outcome is Saturated ==> after == before
}

/// What became of an insertion: the source is leased where it is claimed now.
pub open spec fn follows_insertion<K>(
    result: Result<SourceLease<K>, VulkanImportError>,
    outcome: SourceInsertion,
    key: K,
) -> bool {
    let claimed = outcome is Inserted || outcome == SourceInsertion::Existing(
        SourceLookup::Claimed,
    );
    &&& result is Ok <==> claimed
    &&& result matches Ok(lease) ==> lease.key == key && !lease.released
    &&& result matches Err(error) ==> error is Other
}

/// A source that was imported is put into the cache, as of its claim, and leased; one that could not
/// be imported leaves the cache alone, with the error of the import.
pub proof fn imported_packed_sources_are_cached<N, P, A, B>(
    key: PackedSourceCacheKey,
    generation: u64,
    source: P,
    error: VulkanImportError,
    outcome: SourceInsertion,
    result: Result<SourceLease<PackedSourceCacheKey>, VulkanImportError>,
)
    ensures
        forall|
            i: &mut VulkanDmaBufImporter<N, P, A, B>,
            c: &mut SourceCache<PackedSourceCacheKey, P>,
        |
            #[trigger] call_ensures(
                VulkanDmaBufImporter::<N, P, A, B>::finish_packed_claim,
                (i, key, generation, Ok(source)),
                result,
            ) && #[trigger] call_ensures(
                SourceCache::<PackedSourceCacheKey, P>::insert,
                (c, key, source, generation),
                outcome,
            ) && *c == (*i).packed_sources ==> {
                &&& follows_insertion(result, outcome, key)
                &&& final(i).packed_sources.entries@ == final(c).entries@
                &&& counts_insertion((*i).packed_counters, final(i).packed_counters, outcome)
            },
        forall|i: &mut VulkanDmaBufImporter<N, P, A, B>| #[trigger]
            call_ensures(
                VulkanDmaBufImporter::<N, P, A, B>::finish_packed_claim,
                (i, key, generation, Err(error)),
                result,
            ) ==> {
                &&& result matches Err(reported) && reported@ == error@
                &&& final(i).packed_sources == (*i).packed_sources
                &&& counts_refusal((*i).packed_counters, final(i).packed_counters, result)
            },
{
}

/// A biplanar source that was imported is put into the cache, as of its claim, and leased; one that
/// could not be imported leaves everything alone, with the error of the import.
pub proof fn imported_nv12_sources_are_cached<N, P, A, B>(
    key: Nv12SourceCacheKey,
    generation: u64,
    source: N,
    error: VulkanImportError,
    outcome: SourceInsertion,
    result: Result<SourceLease<Nv12SourceCacheKey>, VulkanImportError>,
)
    ensures
        forall|
            i: &mut VulkanDmaBufImporter<N, P, A, B>,
            c: &mut SourceCache<Nv12SourceCacheKey, N>,
        |
            #[trigger] call_ensures(
                VulkanDmaBufImporter::<N, P, A, B>::finish_nv12_claim,
                (i, key, generation, Ok(source)),
                result,
            ) && #[trigger] call_ensures(
                SourceCache::<Nv12SourceCacheKey, N>::insert,
                (c, key, source, generation),
                outcome,
            ) && *c == (*i).nv12_sources ==> {
                &&& follows_insertion(result, outcome, key)
                &&& final(i).nv12_sources.entries@ == final(c).entries@
                &&& counts_insertion((*i).nv12_counters, final(i).nv12_counters, outcome)
            },
        forall|i: &mut VulkanDmaBufImporter<N, P, A, B>| #[trigger]
            call_ensures(
                VulkanDmaBufImporter::<N, P, A, B>::finish_nv12_claim,
                (i, key, generation, Err(error)),
                result,
            ) ==> {
                &&& result matches Err(reported) && reported@ == error@
                &&& final(i).nv12_sources == (*i).nv12_sources
                &&& final(i).nv12_counters == (*i).nv12_counters
            },
{
}

/// A stream leaves the importer as it leaves the cache; what went is counted as evicted, and it has
/// left for good if and only if nobody holds any of its sources.
pub proof fn streams_leave_the_importer<N, P, A, B>(
    stream: u64,
    packed_counts: (usize, usize),
    planar_counts: (usize, usize),
    result: Result<(), String>,
)
    ensures
        forall|
            i: &mut VulkanDmaBufImporter<N, P, A, B>,
            c: &mut SourceCache<PackedSourceCacheKey, P>,
        |
            #[trigger] call_ensures(
                VulkanDmaBufImporter::<N, P, A, B>::evict_packed_stream,
                (i, stream),
                result,
            ) && #[trigger] call_ensures(
                SourceCache::<PackedSourceCacheKey, P>::evict_stream,
                (c, stream),
                packed_counts,
            ) && *c == (*i).packed_sources ==> {
                &&& result is Ok <==> packed_counts.1 == 0
                &&& final(i).packed_sources.entries@ == final(c).entries@
                &&& (*i).packed_counters.evictions + packed_counts.0 <= u64::MAX
                    ==> final(i).packed_counters.evictions == (*i).packed_counters.evictions
                    + packed_counts.0
                &&& final(i).packed_counters.hits == (*i).packed_counters.hits
                &&& final(i).nv12_sources == (*i).nv12_sources
            },
        forall|
            i: &mut VulkanDmaBufImporter<N, P, A, B>,
            c: &mut SourceCache<Nv12SourceCacheKey, N>,
        |
            #[trigger] call_ensures(
                VulkanDmaBufImporter::<N, P, A, B>::evict_nv12_stream,
                (i, stream),
                result,
            ) && #[trigger] call_ensures(
                SourceCache::<Nv12SourceCacheKey, N>::evict_stream,
                (c, stream),
                planar_counts,
            ) && *c == (*i).nv12_sources ==> {
                &&& result is Ok <==> planar_counts.1 == 0
                &&& final(i).nv12_sources.entries@ == final(c).entries@
                &&& (*i).nv12_counters.evictions + planar_counts.0 <= u64::MAX
                    ==> final(i).nv12_counters.evictions == (*i).nv12_counters.evictions
                    + planar_counts.0
                &&& final(i).nv12_counters.hits == (*i).nv12_counters.hits
                &&& final(i).packed_sources == (*i).packed_sources
            },
{
}

/// Statistics are what was counted and what the caches and pools hold.
pub proof fn statistics_are_what_was_counted<N, P, A, B>(
    importer: VulkanDmaBufImporter<N, P, A, B>,
    planar: Nv12ImportCacheStats,
    packed: PackedImportCacheStats,
    planar_sources: usize,
    packed_sources: usize,
    planar_outputs: usize,
    packed_outputs: usize,
)
    requires
        call_ensures(
            VulkanDmaBufImporter::<N, P, A, B>::nv12_cache_stats,
            (&importer,),
            planar,
        ),
        call_ensures(
            VulkanDmaBufImporter::<N, P, A, B>::packed_cache_stats,
            (&importer,),
            packed,
        ),
        call_ensures(
            SourceCache::<Nv12SourceCacheKey, N>::active_sources,
            (&importer.nv12_sources,),
            planar_sources,
        ),
        call_ensures(
            SourceCache::<PackedSourceCacheKey, P>::active_sources,
            (&importer.packed_sources,),
            packed_sources,
        ),
        call_ensures(
            OutputPool::<Nv12OutputKey, A>::active_outputs,
            (&importer.nv12_outputs,),
            planar_outputs,
        ),
        call_ensures(
            OutputPool::<PackedOutputKey, B>::active_outputs,
            (&importer.packed_outputs,),
            packed_outputs,
        ),
    ensures
        planar.source_entries == importer.nv12_sources.entries@.len(),
        planar.active_sources == planar_sources,
        planar.output_slots == importer.nv12_outputs.places@.len(),
        planar.active_outputs == planar_outputs,
        planar.source_cache_hits == importer.nv12_counters.hits,
        planar.source_cache_misses == importer.nv12_counters.misses,
        planar.source_cache_evictions == importer.nv12_counters.evictions,
        planar.source_active_reuse_rejections == importer.nv12_counters.active_reuse_rejections,
        planar.source_topology_collisions == importer.nv12_counters.topology_collisions,
        planar.output_pool_busy_rejections == importer.nv12_counters.output_pool_busy_rejections,
        packed.source_entries == importer.packed_sources.entries@.len(),
        packed.active_sources == packed_sources,
        packed.output_slots == importer.packed_outputs.places@.len(),
        packed.active_outputs == packed_outputs,
        packed.source_cache_hits == importer.packed_counters.hits,
        packed.source_cache_misses == importer.packed_counters.misses,
        packed.source_cache_evictions == importer.packed_counters.evictions,
        packed.source_active_reuse_rejections == importer.packed_counters.active_reuse_rejections,
        packed.source_topology_collisions == importer.packed_counters.topology_collisions,
        packed.allocation_size_rejections == importer.packed_counters.allocation_size_rejections,
        packed.output_pool_busy_rejections == importer.packed_counters.output_pool_busy_rejections,
{
}

/// An output is claimed as the pool claims; a full pool is refused with its limit and counted, and
/// packed outputs are refused where packed images cannot be staged.
pub proof fn outputs_are_claimed_from_the_pool<N, P, A, B>(
    key: Nv12OutputKey,
    packed_key: PackedOutputKey,
    claim: Option<SlotClaim<Nv12OutputKey, A>>,
    packed_claim: Option<SlotClaim<PackedOutputKey, B>>,
    result: Result<SlotClaim<Nv12OutputKey, A>, VulkanImportError>,
    packed_result: Result<SlotClaim<PackedOutputKey, B>, VulkanImportError>,
)
    ensures
        forall|i: &mut VulkanDmaBufImporter<N, P, A, B>, p: &mut OutputPool<Nv12OutputKey, A>|
            #[trigger] call_ensures(
                VulkanDmaBufImporter::<N, P, A, B>::claim_nv12_output,
                (i, key),
                result,
            ) && #[trigger] call_ensures(
                OutputPool::<Nv12OutputKey, A>::claim,
                (p, &key),
                claim,
            ) && *p == (*i).nv12_outputs ==> {
                &&& claim matches Some(found) ==> result == Ok::<_, VulkanImportError>(found)
                &&& claim is None ==> (result matches Err(VulkanImportError::PoolSaturated {
                    pool,
                    limit,
                }) && pool@ == "NV12 output"@ && limit == (*i).nv12_outputs.max_slots)
                &&& final(i).nv12_outputs.places@ == final(p).places@
                &&& counts_one(
                    (*i).nv12_counters.output_pool_busy_rejections,
                    final(i).nv12_counters.output_pool_busy_rejections,
                    claim is None,
                )
                &&& final(i).nv12_counters.hits == (*i).nv12_counters.hits
                &&& final(i).nv12_outputs.max_slots == (*i).nv12_outputs.max_slots
                &&& final(i).capabilities@ == (*i).capabilities@ && final(i).packed_staging_error
                    == (*i).packed_staging_error
                &&& final(i).nv12_sources == (*i).nv12_sources && final(i).packed_sources == (
                *i).packed_sources && final(i).packed_outputs == (*i).packed_outputs
                    && final(i).packed_counters == (*i).packed_counters
            },
        forall|i: &mut VulkanDmaBufImporter<N, P, A, B>, p: &mut OutputPool<PackedOutputKey, B>|
            #[trigger] call_ensures(
                VulkanDmaBufImporter::<N, P, A, B>::claim_packed_output,
                (i, packed_key),
                packed_result,
            ) && #[trigger] call_ensures(
                OutputPool::<PackedOutputKey, B>::claim,
                (p, &packed_key),
                packed_claim,
            ) && *p == (*i).packed_outputs ==> if (*i).packed_staging_error is Some {
                &&& packed_result matches Err(error) && error is Other
                &&& final(i).packed_outputs == (*i).packed_outputs
                &&& final(i).packed_counters == (*i).packed_counters
            } else {
                &&& packed_claim matches Some(found) ==> packed_result == Ok::<
                    _,
                    VulkanImportError,
                >(found)
                &&& packed_claim is None ==> (packed_result matches Err(
                    VulkanImportError::PoolSaturated { pool, limit },
                ) && pool@ == "packed output"@ && limit == (*i).packed_outputs.max_slots)
                &&& final(i).packed_outputs.places@ == final(p).places@
                &&& counts_one(
                    (*i).packed_counters.output_pool_busy_rejections,
                    final(i).packed_counters.output_pool_busy_rejections,
                    packed_claim is None,
                )
                &&& final(i).packed_counters.hits == (*i).packed_counters.hits
                &&& final(i).packed_outputs.max_slots == (*i).packed_outputs.max_slots
                &&& final(i).capabilities@ == (*i).capabilities@ && final(i).packed_staging_error
                    == (*i).packed_staging_error
                &&& final(i).nv12_sources == (*i).nv12_sources && final(i).packed_sources == (
                *i).packed_sources && final(i).nv12_outputs == (*i).nv12_outputs
                    && final(i).nv12_counters == (*i).nv12_counters
            },
{
}

/// Importing one kind of frame leaves everything of the other kind alone, and the capabilities and
/// the limits stay what they were.
pub proof fn kinds_of_frames_are_kept_apart<N, P, A, B>(
    request: PackedImageImport,
    strategy: PackedImageImportStrategy,
    report: PackedSupportReport,
    probe: Result<DmaBufProbe, String>,
    key: PackedSourceCacheKey,
    generation: u64,
    created: Result<P, VulkanImportError>,
    admitted: Result<(), VulkanImportError>,
    begun: Result<SourceClaim<PackedSourceCacheKey>, VulkanImportError>,
    finished: Result<SourceLease<PackedSourceCacheKey>, VulkanImportError>,
    stream: u64,
    source_fd: i32,
    plan: Nv12ImportPlan,
    planar_key: Nv12SourceCacheKey,
    planar_created: Result<N, VulkanImportError>,
    planar_begun: Result<SourceClaim<Nv12SourceCacheKey>, VulkanImportError>,
    planar_finished: Result<SourceLease<Nv12SourceCacheKey>, VulkanImportError>,
    gone: Result<(), String>,
)
    ensures
        forall|i: &mut VulkanDmaBufImporter<N, P, A, B>| #[trigger]
            call_ensures(
                VulkanDmaBufImporter::<N, P, A, B>::import_packed_with_strategy,
                (i, request, strategy, &report),
                admitted,
            ) ==> keeps_nv12(*final(i), *i),
        forall|i: &mut VulkanDmaBufImporter<N, P, A, B>| #[trigger]
            call_ensures(
                VulkanDmaBufImporter::<N, P, A, B>::begin_packed_claim,
                (i, request, strategy, probe),
                begun,
            ) ==> keeps_nv12(*final(i), *i),
        forall|i: &mut VulkanDmaBufImporter<N, P, A, B>| #[trigger]
            call_ensures(
                VulkanDmaBufImporter::<N, P, A, B>::finish_packed_claim,
                (i, key, generation, created),
                finished,
            ) ==> keeps_nv12(*final(i), *i),
        forall|i: &mut VulkanDmaBufImporter<N, P, A, B>| #[trigger]
            call_ensures(
                VulkanDmaBufImporter::<N, P, A, B>::evict_packed_stream,
                (i, stream),
                gone,
            ) ==> keeps_nv12(*final(i), *i),
        forall|i: &mut VulkanDmaBufImporter<N, P, A, B>| #[trigger]
            call_ensures(
                VulkanDmaBufImporter::<N, P, A, B>::begin_nv12_claim,
                (i, stream, source_fd, plan, probe),
                planar_begun,
            ) ==> keeps_packed(*final(i), *i),
        forall|i: &mut VulkanDmaBufImporter<N, P, A, B>| #[trigger]
            call_ensures(
                VulkanDmaBufImporter::<N, P, A, B>::finish_nv12_claim,
                (i, planar_key, generation, planar_created),
                planar_finished,
            ) ==> keeps_packed(*final(i), *i),
        forall|i: &mut VulkanDmaBufImporter<N, P, A, B>| #[trigger]
            call_ensures(
                VulkanDmaBufImporter::<N, P, A, B>::evict_nv12_stream,
                (i, stream),
                gone,
            ) ==> keeps_packed(*final(i), *i),
{
}

/// Nothing but the packed sources and what was counted of them may differ.
pub open spec fn keeps_nv12<N, P, A, B>(
    after: VulkanDmaBufImporter<N, P, A, B>,
    before: VulkanDmaBufImporter<N, P, A, B>,
) -> bool {
    &&& after.capabilities@ == before.capabilities@ && after.packed_staging_error
        == before.packed_staging_error
    &&& after.nv12_sources == before.nv12_sources && after.nv12_outputs == before.nv12_outputs
        && after.nv12_counters == before.nv12_counters
    &&& after.packed_outputs == before.packed_outputs && after.packed_sources.max_entries
        == before.packed_sources.max_entries
}

/// Nothing but the biplanar sources and what was counted of them may differ.
pub open spec fn keeps_packed<N, P, A, B>(
    after: VulkanDmaBufImporter<N, P, A, B>,
    before: VulkanDmaBufImporter<N, P, A, B>,
) -> bool {
    &&& after.capabilities@ == before.capabilities@ && after.packed_staging_error
        == before.packed_staging_error
    &&& after.packed_sources == before.packed_sources && after.packed_outputs
        == before.packed_outputs && after.packed_counters == before.packed_counters
    &&& after.nv12_outputs == before.nv12_outputs && after.nv12_sources.max_entries
        == before.nv12_sources.max_entries
}

/// The importer offers the capabilities that it has, and a file's probe alone decides on an
/// identity.
pub proof fn importers_offer_what_they_have<N, P, A, B>(
    importer: VulkanDmaBufImporter<N, P, A, B>,
    offered: &[Nv12ModifierCapability],
    declared: u64,
    probe: Result<DmaBufProbe, String>,
    identity: Result<DmaBufIdentity, VulkanImportError>,
    checked: Result<DmaBufIdentity, VulkanImportError>,
    source_fd: i32,
)
    requires
        call_ensures(
            VulkanDmaBufImporter::<N, P, A, B>::nv12_capabilities,
            (&importer,),
            offered,
        ),
        call_ensures(identity_from_probe, (declared, probe), identity),
        call_ensures(checked_identity, (source_fd, declared, probe), checked),
        source_fd >= 0,
    ensures
        offered@ == importer.capabilities@,
        identity is Ok <==> checked is Ok,
        identity is Ok ==> identity->Ok_0 == checked->Ok_0,
        identity is Err ==> identity->Err_0@ == checked->Err_0@,
{
}

} // verus!
