//! The importer: which requests are admitted, which cached source serves them, and what is counted.

use vstd::prelude::*;

use crate::text::{agrees, decimal, padded_hexadecimal, Message};
use crate::vulkan::cache::{
    after_insertion, after_lookup, claimed_entries, insertion_of, lookup_of, stream_entries,
    without_stream, CachedSource, Nv12SourceCache, Nv12SourceCacheKey, PackedSourceCache,
    PackedSourceCacheKey, PackedSourceTopology, SourceCache, SourceInsertion, SourceKey,
    SourceLease, SourceLookup,
};
use crate::vulkan::capability::{
    answers, capability_verdict, rejections, resolve_nv12_modifier_capability,
    same_nv12_capability, validate_nv12_modifier_capability, Nv12ModifierCapability,
    Nv12ResolveRequest,
};
use crate::vulkan::color::Nv12Conversion;
use crate::vulkan::error::{imports, ImportFault, VulkanImportError};
use crate::probe::DmaBufProbe;
use crate::vulkan::identity::{checked_identity, identity_of, probe_view, DmaBufIdentity};
use crate::vulkan::inventory::{
    inventory, inventory_nv12_modifier_capabilities_with_staging_preference,
    packed_import_verdict, packed_staging_verdict, validate_packed_import_support,
    validate_packed_staging_support, DrmModifierProperties, ExternalModifierCapability,
    Nv12ModifierReport, Nv12StagingReport, PackedStagingReport,
};
use crate::vulkan::layout::{
    check_packed_layout, image_inputs_verdict, layout_verdict, packed_layout_verdict,
    staged_layout_verdict, staged_packed_verdict, transfer_layout_verdict, validate_image_inputs,
    validate_nv12_shared_layout, validate_staged_layout, validate_staged_packed_layout,
    validate_transfer_layout,
};
use crate::vulkan::pool::{
    idle_place, matching_place, slots_in_use, without_place, Nv12OutputKey, Nv12OutputPool,
    OutputKey, OutputPool, PackedOutputKey, PackedOutputPool, SlotClaim,
};
use crate::vulkan::types::{
    Nv12ComputeOutput, Nv12FrameTopology, Nv12ImportStrategy, Nv12SharedObjectLayout,
    Nv12StagingPreference, PackedImageFormat, PackedImageImport, PackedImageImportStrategy,
    VulkanImportPoolLimits, DRM_FORMAT_MOD_LINEAR,
};

verus! {

/// What one cache and its output pool have counted, and the clock that orders claims. The counters
/// wrap.
#[derive(Clone, Copy, Debug, PartialEq, Eq, Structural)]
pub struct ImportCounters {
    pub hits: u64,
    pub misses: u64,
    pub evictions: u64,
    pub active_reuse_rejections: u64,
    pub topology_collisions: u64,
    pub allocation_size_rejections: u64,
    pub output_pool_busy_rejections: u64,
    pub clock: u64,
}

impl ImportCounters {
    /// The counters after a look into the cache.
    pub open spec fn with_lookup(self, lookup: SourceLookup) -> ImportCounters {
        match lookup {
            SourceLookup::Claimed => ImportCounters { hits: self.hits.wrapping_add(1), ..self },
            SourceLookup::Active => ImportCounters {
                active_reuse_rejections: self.active_reuse_rejections.wrapping_add(1),
                ..self
            },
            SourceLookup::Collision => ImportCounters {
                topology_collisions: self.topology_collisions.wrapping_add(1),
                ..self
            },
            SourceLookup::Missing => ImportCounters {
                misses: self.misses.wrapping_add(1),
                ..self
            },
        }
    }

    /// The counters after putting a source into the cache.
    pub open spec fn with_insertion(self, insertion: SourceInsertion) -> ImportCounters {
        match insertion {
            SourceInsertion::Existing(lookup) => self.with_lookup(lookup),
            SourceInsertion::Inserted { evicted } => if evicted {
                ImportCounters { evictions: self.evictions.wrapping_add(1), ..self }
            } else {
                self
            },
            SourceInsertion::Saturated => self,
        }
    }

    /// The counters after a request that failed with `fault`.
    pub open spec fn with_fault(self, fault: ImportFault) -> ImportCounters {
        if fault.concerns_allocation_size() {
            ImportCounters {
                allocation_size_rejections: self.allocation_size_rejections.wrapping_add(1),
                ..self
            }
        } else {
            self
        }
    }

    /// The counters after the clock has ticked.
    pub open spec fn with_tick(self) -> ImportCounters {
        ImportCounters { clock: self.clock.wrapping_add(1), ..self }
    }

    fn new() -> (counters: ImportCounters)
        ensures
            counters == fresh_counters(),
    {
        ImportCounters {
            hits: 0,
            misses: 0,
            evictions: 0,
            active_reuse_rejections: 0,
            topology_collisions: 0,
            allocation_size_rejections: 0,
            output_pool_busy_rejections: 0,
            clock: 1,
        }
    }

    fn note_lookup(&mut self, lookup: SourceLookup)
        ensures
            *final(self) == old(self).with_lookup(lookup),
    {
        match lookup {
            SourceLookup::Claimed => {
                self.hits = self.hits.wrapping_add(1);
            },
            SourceLookup::Active => {
                self.active_reuse_rejections = self.active_reuse_rejections.wrapping_add(1);
            },
            SourceLookup::Collision => {
                self.topology_collisions = self.topology_collisions.wrapping_add(1);
            },
            SourceLookup::Missing => {
                self.misses = self.misses.wrapping_add(1);
            },
        }
    }

    fn note_insertion(&mut self, insertion: SourceInsertion)
        ensures
            *final(self) == old(self).with_insertion(insertion),
    {
        match insertion {
            SourceInsertion::Existing(lookup) => self.note_lookup(lookup),
            SourceInsertion::Inserted { evicted } => {
                if evicted {
                    self.evictions = self.evictions.wrapping_add(1);
                }
            },
            SourceInsertion::Saturated => {},
        }
    }

    fn note_error(&mut self, error: &VulkanImportError)
        ensures
            *final(self) == old(self).with_fault(error@),
    {
        if error.is_allocation_size() {
            self.allocation_size_rejections = self.allocation_size_rejections.wrapping_add(1);
        }
    }
}

/// Counters that have counted nothing.
pub open spec fn fresh_counters() -> ImportCounters {
    ImportCounters {
        hits: 0,
        misses: 0,
        evictions: 0,
        active_reuse_rejections: 0,
        topology_collisions: 0,
        allocation_size_rejections: 0,
        output_pool_busy_rejections: 0,
        clock: 1,
    }
}

/// Where the source of a frame comes from.
#[derive(Debug)]
pub enum SourceClaim<K> {
    /// From the cache.
    Cached(SourceLease<K>),
    /// It has to be imported, and then put into the cache under this key.
    Import { key: K, generation: u64 },
}

/// How a cache speaks of itself in diagnostics.
#[derive(Clone, Copy)]
pub struct CacheTexts {
    pub reuse: &'static str,
    pub collision: &'static str,
    pub saturated: &'static str,
}

/// The diagnostic for a cache that is full of sources in use.
pub open spec fn saturation_text(texts: CacheTexts, max_entries: usize) -> Seq<char> {
    texts.saturated@ + decimal(max_entries as nat) + " entries"@
}

/// What a look into the cache comes to for the request.
pub open spec fn claim_verdict<K>(
    texts: CacheTexts,
    lookup: SourceLookup,
    key: K,
    generation: u64,
) -> Result<SourceClaim<K>, ImportFault> {
    match lookup {
        SourceLookup::Claimed => Ok(SourceClaim::Cached(SourceLease { key, released: false })),
        SourceLookup::Active => Err(ImportFault::Other(texts.reuse@)),
        SourceLookup::Collision => Err(ImportFault::Other(texts.collision@)),
        SourceLookup::Missing => Ok(SourceClaim::Import { key, generation }),
    }
}

/// What putting a source into the cache comes to for the request.
pub open spec fn insertion_verdict<K>(
    texts: CacheTexts,
    max_entries: usize,
    insertion: SourceInsertion,
    key: K,
) -> Result<SourceLease<K>, ImportFault> {
    match insertion {
        SourceInsertion::Inserted { .. }
        | SourceInsertion::Existing(SourceLookup::Claimed) => Ok(
            SourceLease { key, released: false },
        ),
        SourceInsertion::Existing(SourceLookup::Active) => Err(ImportFault::Other(texts.reuse@)),
        SourceInsertion::Existing(_) => Err(ImportFault::Other(texts.collision@)),
        SourceInsertion::Saturated => Err(ImportFault::Other(saturation_text(texts, max_entries))),
    }
}

/// The cache and its counters after a look for `key`.
pub open spec fn begun<K: SourceKey, S>(
    before: SourceCache<K, S>,
    counted: ImportCounters,
    key: K,
    after: SourceCache<K, S>,
    counters: ImportCounters,
) -> bool {
    &&& after.well_formed()
    &&& after.max_entries == before.max_entries
    &&& after.entries@ == after_lookup(before.entries@, key, counted.clock)
    &&& counters == counted.with_tick().with_lookup(lookup_of(before.entries@, key))
}

fn begin_claim<K: SourceKey, S>(
    texts: CacheTexts,
    cache: &mut SourceCache<K, S>,
    counters: &mut ImportCounters,
    key: K,
) -> (result: Result<SourceClaim<K>, VulkanImportError>)
    requires
        old(cache).well_formed(),
    ensures
        begun(*old(cache), *old(counters), key, *final(cache), *final(counters)),
        imports(
            result,
            claim_verdict(texts, lookup_of(old(cache).entries@, key), key, old(counters).clock),
        ),
{
    let generation: u64 = counters.clock;
    counters.clock = counters.clock.wrapping_add(1);
    let lookup = cache.claim(&key, generation);
    counters.note_lookup(lookup);
    match lookup {
        SourceLookup::Claimed => Ok(SourceClaim::Cached(SourceLease { key, released: false })),
        SourceLookup::Active => Err(VulkanImportError::Other(texts.reuse.to_owned())),
        SourceLookup::Collision => Err(VulkanImportError::Other(texts.collision.to_owned())),
        SourceLookup::Missing => Ok(SourceClaim::Import { key, generation }),
    }
}

/// The cache and its counters after putting a source into the cache.
pub open spec fn finished<K: SourceKey, S>(
    before: SourceCache<K, S>,
    counted: ImportCounters,
    key: K,
    generation: u64,
    source: S,
    after: SourceCache<K, S>,
    counters: ImportCounters,
) -> bool {
    &&& after.well_formed()
    &&& after.max_entries == before.max_entries
    &&& after.entries@ == after_insertion(
        before.entries@,
        before.max_entries,
        CachedSource { key, source, claimed: true, leases: 1, last_used: generation },
        generation,
    )
    &&& counters == counted.with_insertion(insertion_of(before.entries@, before.max_entries, key))
}

fn finish_claim<K: SourceKey, S>(
    texts: CacheTexts,
    cache: &mut SourceCache<K, S>,
    counters: &mut ImportCounters,
    key: K,
    generation: u64,
    source: S,
) -> (result: Result<SourceLease<K>, VulkanImportError>)
    requires
        old(cache).well_formed(),
    ensures
        finished(
            *old(cache),
            *old(counters),
            key,
            generation,
            source,
            *final(cache),
            *final(counters),
        ),
        imports(
            result,
            insertion_verdict(
                texts,
                old(cache).max_entries,
                insertion_of(old(cache).entries@, old(cache).max_entries, key),
                key,
            ),
        ),
{
    let max_entries: usize = cache.max_entries;
    let insertion = cache.insert(key, source, generation);
    counters.note_insertion(insertion);
    match insertion {
        SourceInsertion::Inserted { .. }
        | SourceInsertion::Existing(SourceLookup::Claimed) => Ok(
            SourceLease { key, released: false },
        ),
        SourceInsertion::Existing(SourceLookup::Active) => Err(
            VulkanImportError::Other(texts.reuse.to_owned()),
        ),
        SourceInsertion::Existing(_) => Err(VulkanImportError::Other(texts.collision.to_owned())),
        SourceInsertion::Saturated => Err(
            VulkanImportError::Other(
                Message::new(texts.saturated).number(max_entries as u64).text(" entries").done(),
            ),
        ),
    }
}

/// How the cache of biplanar sources speaks of itself.
pub open spec fn nv12_texts() -> CacheTexts {
    CacheTexts {
        reuse: "cached NV12 DMA-BUF reappeared before its previous lease completed",
        collision:
            "cached NV12 DMA-BUF identity reappeared with different topology or read strategy",
        saturated: "Vulkan NV12 source cache is saturated at ",
    }
}

fn texts_of_nv12() -> (texts: CacheTexts)
    ensures
        texts == nv12_texts(),
{
    CacheTexts {
        reuse: "cached NV12 DMA-BUF reappeared before its previous lease completed",
        collision:
            "cached NV12 DMA-BUF identity reappeared with different topology or read strategy",
        saturated: "Vulkan NV12 source cache is saturated at ",
    }
}

/// How the cache of packed sources speaks of itself.
pub open spec fn packed_texts() -> CacheTexts {
    CacheTexts {
        reuse: "cached packed DMA-BUF reappeared before its previous lease completed",
        collision: "cached packed DMA-BUF identity reappeared with different topology",
        saturated: "Vulkan packed source cache is saturated at ",
    }
}

fn texts_of_packed() -> (texts: CacheTexts)
    ensures
        texts == packed_texts(),
{
    CacheTexts {
        reuse: "cached packed DMA-BUF reappeared before its previous lease completed",
        collision: "cached packed DMA-BUF identity reappeared with different topology",
        saturated: "Vulkan packed source cache is saturated at ",
    }
}

/// What the packed side of an importer holds and has counted.
#[derive(Clone, Copy, Debug, PartialEq, Eq, Structural)]
pub struct PackedImportCacheStats {
    pub source_entries: usize,
    pub active_sources: usize,
    pub output_slots: usize,
    pub active_outputs: usize,
    pub source_cache_hits: u64,
    pub source_cache_misses: u64,
    pub source_cache_evictions: u64,
    pub source_active_reuse_rejections: u64,
    pub source_topology_collisions: u64,
    pub allocation_size_rejections: u64,
    pub output_pool_busy_rejections: u64,
}

/// What the biplanar side of an importer holds and has counted.
#[derive(Clone, Copy, Debug, PartialEq, Eq, Structural)]
pub struct Nv12ImportCacheStats {
    pub source_entries: usize,
    pub active_sources: usize,
    pub output_slots: usize,
    pub active_outputs: usize,
    pub source_cache_hits: u64,
    pub source_cache_misses: u64,
    pub source_cache_evictions: u64,
    pub source_active_reuse_rejections: u64,
    pub source_topology_collisions: u64,
    pub output_pool_busy_rejections: u64,
}

/// How a biplanar frame is imported.
#[derive(Clone, Copy, Debug, PartialEq, Eq)]
pub struct Nv12ImportPlan {
    pub topology: Nv12FrameTopology,
    pub strategy: Nv12ImportStrategy,
    /// How many bytes of the source a compute shader sees.
    pub source_view_range: Option<u64>,
    /// The compute pipeline that the strategy runs.
    pub pipeline: Option<Nv12ComputeOutput>,
}

/// The compute pipeline that a strategy runs.
pub open spec fn pipeline_of(strategy: Nv12ImportStrategy) -> Option<Nv12ComputeOutput> {
    match strategy {
        Nv12ImportStrategy::LinearBufferToRgba => Some(Nv12ComputeOutput::Rgba),
        Nv12ImportStrategy::LinearBufferToYuvPlanes => Some(Nv12ComputeOutput::YuvPlanes),
        _ => None,
    }
}

/// A request for a biplanar frame.
#[derive(Clone, Copy, Debug, PartialEq, Eq)]
pub struct Nv12ImportRequest {
    pub dimensions: (u32, u32),
    pub source_fd: i32,
    pub layout: Nv12SharedObjectLayout,
    pub conversion: Nv12Conversion,
    pub capability: Nv12ModifierCapability,
}

/// What `import_nv12_shared_object` returns.
pub open spec fn nv12_request_verdict(
    capabilities: Seq<Nv12ModifierCapability>,
    request: Nv12ImportRequest,
    max_texel_buffer_elements: u32,
) -> Result<Nv12ImportPlan, Seq<char>> {
    let capability = request.capability;
    let capability_fault = capability_verdict(capability, request.dimensions, request.conversion);
    let layout_fault = layout_verdict(request.dimensions, request.layout);
    let transfer_fault = transfer_layout_verdict(request.dimensions, request.layout);
    let staged = staged_layout_verdict(
        request.dimensions,
        request.layout,
        max_texel_buffer_elements,
    );
    let plan = Nv12ImportPlan {
        topology: request.layout.topology(request.dimensions),
        strategy: capability.strategy,
        source_view_range: None,
        pipeline: pipeline_of(capability.strategy),
    };
    if !capabilities.contains(capability) {
        Err(
            "Vulkan NV12 modifier 0x"@ + padded_hexadecimal(capability.modifier as nat, 16)
                + " capability was not issued by this active-device importer"@,
        )
    } else if capability.modifier != request.layout.modifier {
        Err("Vulkan NV12 capability modifier does not match frame layout"@)
    } else if capability_fault is Err {
        Err(capability_fault->Err_0)
    } else if layout_fault is Err {
        Err(layout_fault->Err_0)
    } else if capability.strategy is DirectSampledImage {
        if request.source_fd < 0 {
            Err("Vulkan NV12 import has an invalid DMA-BUF fd"@)
        } else {
            Ok(plan)
        }
    } else if capability.strategy.is_transfer() {
        match transfer_fault {
            Err(text) => Err(text),
            Ok(()) => Ok(plan),
        }
    } else {
        match staged {
            Err(text) => Err(text),
            Ok(range) => Ok(Nv12ImportPlan { source_view_range: Some(range), ..plan }),
        }
    }
}

/// What a device reports for packed images of one format and modifier.
#[derive(Debug)]
pub struct PackedSupportReport {
    /// The modifiers of the format.
    pub modifiers: Vec<DrmModifierProperties>,
    /// The answer to the query for importing images with the modifier.
    pub external: Result<ExternalModifierCapability, i32>,
    pub staging: PackedStagingReport,
    pub max_texel_buffer_elements: u32,
}

/// Whether the device supports a strategy for packed images.
pub open spec fn support_verdict(
    format: PackedImageFormat,
    modifier: u64,
    strategy: PackedImageImportStrategy,
    report: PackedSupportReport,
) -> Result<(), Seq<char>> {
    match strategy {
        PackedImageImportStrategy::DirectSampledImage => packed_import_verdict(
            report.modifiers@,
            format,
            modifier,
            report.external,
        ),
        PackedImageImportStrategy::LinearBufferToOptimalBgra => packed_staging_verdict(
            format,
            modifier,
            report.staging,
        ),
    }
}

/// What `import_packed_with_strategy` returns.
pub open spec fn packed_request_verdict(
    request: PackedImageImport,
    strategy: PackedImageImportStrategy,
    report: PackedSupportReport,
) -> Result<(), ImportFault> {
    let support = support_verdict(request.format, request.modifier, strategy, report);
    let inputs = image_inputs_verdict(request.dimensions, request.source_fd, request.plane);
    let layout = packed_layout_verdict(request.dimensions, request.source_size, request.plane);
    if inputs is Err {
        Err(ImportFault::Other(inputs->Err_0))
    } else if layout is Err {
        layout
    } else if support is Err {
        Err(ImportFault::Other(support->Err_0))
    } else if strategy is LinearBufferToOptimalBgra {
        staged_packed_verdict(request.source_size, report.max_texel_buffer_elements)
    } else {
        Ok(())
    }
}

/// The counters after a request that came to `verdict`.
pub open spec fn after_verdict<T>(
    counters: ImportCounters,
    verdict: Result<T, ImportFault>,
) -> ImportCounters {
    match verdict {
        Ok(_) => counters,
        Err(fault) => counters.with_fault(fault),
    }
}

/// The key under which the source of a packed request is cached.
pub open spec fn packed_key(
    request: PackedImageImport,
    strategy: PackedImageImportStrategy,
    identity: DmaBufIdentity,
) -> PackedSourceCacheKey {
    PackedSourceCacheKey {
        stream_incarnation: request.stream_incarnation,
        device: identity.device,
        inode: identity.inode,
        topology: PackedSourceTopology {
            dimensions: request.dimensions,
            object_size: request.source_size,
            modifier: request.modifier,
            plane: request.plane,
            format: request.format,
            strategy,
        },
    }
}

/// The key under which the source of a biplanar frame is cached.
pub open spec fn nv12_key(
    stream_incarnation: u64,
    plan: Nv12ImportPlan,
    identity: DmaBufIdentity,
) -> Nv12SourceCacheKey {
    Nv12SourceCacheKey {
        stream_incarnation,
        device: identity.device,
        inode: identity.inode,
        topology: plan.topology,
        strategy: plan.strategy,
    }
}

/// What `packed_import_strategy` returns. `None` as the staging error stands for a staging pipeline
/// that exists.
pub open spec fn packed_strategy_verdict(
    staging_error: Option<Seq<char>>,
    direct: Result<(), Seq<char>>,
    staged: Result<(), Seq<char>>,
) -> Result<PackedImageImportStrategy, Seq<char>> {
    match (direct, staged) {
        (Ok(()), _) => Ok(PackedImageImportStrategy::DirectSampledImage),
        (Err(direct_error), Err(staged_error)) => Err(
            "Vulkan packed import has neither direct nor staged support: direct="@ + direct_error
                + "; staged="@ + staged_error,
        ),
        (Err(_), Ok(())) => match staging_error {
            Some(error) => Err("Vulkan packed staging pipeline is unavailable: "@ + error),
            None => Ok(PackedImageImportStrategy::LinearBufferToOptimalBgra),
        },
    }
}

/// The state of an importer: the capabilities that it issued, the caches of imported sources, the
/// pools of outputs and the counters. `N` and `P` are biplanar and packed sources, `A` and `B` the
/// resources of biplanar and packed outputs.
pub struct VulkanDmaBufImporter<N, P, A, B> {
    pub capabilities: Vec<Nv12ModifierCapability>,
    pub nv12_sources: Nv12SourceCache<N>,
    pub nv12_outputs: Nv12OutputPool<A>,
    pub nv12_counters: ImportCounters,
    pub packed_sources: PackedSourceCache<P>,
    pub packed_outputs: PackedOutputPool<B>,
    pub packed_counters: ImportCounters,
    /// Why there is no pipeline for packed staging, where there is none.
    pub packed_staging_error: Option<String>,
}

/// What an importer learns from its device.
#[derive(Debug)]
pub struct ImportDeviceReport {
    pub nv12_modifiers: Vec<Nv12ModifierReport>,
    pub nv12_staging: Nv12StagingReport,
    pub packed_staging: PackedStagingReport,
}

/// Some limit is zero.
pub open spec fn has_zero_limit(limits: VulkanImportPoolLimits) -> bool {
    limits.nv12_source_cache_entries == 0 || limits.nv12_output_slots == 0
        || limits.packed_source_cache_entries == 0 || limits.packed_output_slots == 0
}

impl<N, P, A, B> VulkanDmaBufImporter<N, P, A, B> {
    /// Caches and pools are within their bounds and consistent.
    pub open spec fn well_formed(self) -> bool {
        &&& self.nv12_sources.well_formed()
        &&& self.nv12_outputs.well_formed()
        &&& self.packed_sources.well_formed()
        &&& self.packed_outputs.well_formed()
    }

    /// The importer has the capabilities of the device, and has cached and counted nothing. There is
    /// a packed staging pipeline if linear BGRA pixels can be staged.
    pub open spec fn is_new(
        self,
        device: ImportDeviceReport,
        limits: VulkanImportPoolLimits,
        preference: Nv12StagingPreference,
    ) -> bool {
        &&& self.well_formed()
        &&& self.capabilities@ == inventory(
            device.nv12_modifiers@,
            device.nv12_staging,
            preference,
        )
        &&& self.nv12_sources.entries@.len() == 0
        &&& self.nv12_sources.max_entries == limits.nv12_source_cache_entries
        &&& self.nv12_outputs.places@.len() == 0
        &&& self.nv12_outputs.max_slots == limits.nv12_output_slots
        &&& self.nv12_outputs.next_ticket == 0
        &&& self.packed_sources.entries@.len() == 0
        &&& self.packed_sources.max_entries == limits.packed_source_cache_entries
        &&& self.packed_outputs.places@.len() == 0
        &&& self.packed_outputs.max_slots == limits.packed_output_slots
        &&& self.packed_outputs.next_ticket == 0
        &&& self.nv12_counters == fresh_counters()
        &&& self.packed_counters == fresh_counters()
        &&& match packed_staging_verdict(
            PackedImageFormat::Bgra8888,
            DRM_FORMAT_MOD_LINEAR,
            device.packed_staging,
        ) {
            Ok(()) => self.packed_staging_error is None,
            Err(text) => self.packed_staging_error matches Some(error) && error@ == text,
        }
    }

    /// Everything but the biplanar sources and counters is that of `other`.
    pub open spec fn same_but_nv12_sources(self, other: Self) -> bool {
        &&& self.capabilities@ == other.capabilities@
        &&& self.nv12_outputs == other.nv12_outputs
        &&& self.packed_sources == other.packed_sources
        &&& self.packed_outputs == other.packed_outputs
        &&& self.packed_counters == other.packed_counters
        &&& self.packed_staging_error == other.packed_staging_error
    }

    /// Everything but the packed sources and counters is that of `other`.
    pub open spec fn same_but_packed_sources(self, other: Self) -> bool {
        &&& self.capabilities@ == other.capabilities@
        &&& self.nv12_sources == other.nv12_sources
        &&& self.nv12_outputs == other.nv12_outputs
        &&& self.nv12_counters == other.nv12_counters
        &&& self.packed_outputs == other.packed_outputs
        &&& self.packed_staging_error == other.packed_staging_error
    }

    /// A new importer for a device, with the default limits.
    pub fn new(device: &ImportDeviceReport) -> (result: Result<Self, String>)
        ensures
            result matches Ok(importer) && importer.is_new(
                *device,
                VulkanImportPoolLimits {
                    nv12_source_cache_entries: 32,
                    nv12_output_slots: 8,
                    packed_source_cache_entries: 32,
                    packed_output_slots: 8,
                },
                Nv12StagingPreference::PreferPlanar,
            ),
    {
        Self::new_with_limits(device, VulkanImportPoolLimits::default())
    }

    /// A new importer for a device, with the default staging.
    pub fn new_with_limits(device: &ImportDeviceReport, limits: VulkanImportPoolLimits) -> (result:
        Result<Self, String>)
        ensures
            match result {
                Err(message) => has_zero_limit(limits) && message@
                    == "Vulkan import pool limits must be non-zero"@,
                Ok(importer) => !has_zero_limit(limits) && importer.is_new(
                    *device,
                    limits,
                    Nv12StagingPreference::PreferPlanar,
                ),
            },
    {
        Self::new_with_limits_and_staging_preference(
            device,
            limits,
            Nv12StagingPreference::default(),
        )
    }

    /// A new importer for a device: the capabilities of the device, and nothing cached.
    pub fn new_with_limits_and_staging_preference(
        device: &ImportDeviceReport,
        limits: VulkanImportPoolLimits,
        staging_preference: Nv12StagingPreference,
    ) -> (result: Result<Self, String>)
        ensures
            match result {
                Err(message) => has_zero_limit(limits) && message@
                    == "Vulkan import pool limits must be non-zero"@,
                Ok(importer) => !has_zero_limit(limits) && importer.is_new(
                    *device,
                    limits,
                    staging_preference,
                ),
            },
    {
        if limits.nv12_source_cache_entries == 0 || limits.nv12_output_slots == 0
            || limits.packed_source_cache_entries == 0 || limits.packed_output_slots == 0 {
            return Err("Vulkan import pool limits must be non-zero".to_owned());
        }
        let capabilities = inventory_nv12_modifier_capabilities_with_staging_preference(
            device.nv12_modifiers.as_slice(),
            device.nv12_staging,
            staging_preference,
        );
        let packed_staging_error = match validate_packed_staging_support(
            PackedImageFormat::Bgra8888,
            DRM_FORMAT_MOD_LINEAR,
            device.packed_staging,
        ) {
            Ok(()) => None,
            Err(error) => Some(error),
        };
        Ok(
            VulkanDmaBufImporter {
                capabilities,
                nv12_sources: SourceCache::new(limits.nv12_source_cache_entries),
                nv12_outputs: OutputPool::new(limits.nv12_output_slots),
                nv12_counters: ImportCounters::new(),
                packed_sources: SourceCache::new(limits.packed_source_cache_entries),
                packed_outputs: OutputPool::new(limits.packed_output_slots),
                packed_counters: ImportCounters::new(),
                packed_staging_error,
            },
        )
    }

    /// The capabilities that this importer issued.
    pub fn nv12_capabilities(&self) -> (capabilities: &[Nv12ModifierCapability])
        ensures
            capabilities@ == self.capabilities@,
    {
        self.capabilities.as_slice()
    }

    /// Some issued capability runs the compute pipeline with this output, so that it has to be
    /// made before frames come.
    pub fn needs_pipeline(&self, output: Nv12ComputeOutput) -> (needed: bool)
        ensures
            needed == exists|index: int|
                0 <= index < self.capabilities.len() && pipeline_of(
                    (#[trigger] self.capabilities[index]).strategy,
                ) == Some(output),
    {
        let mut index: usize = 0;
        while index < self.capabilities.len()
            invariant
                index <= self.capabilities.len(),
                forall|before: int|
                    0 <= before < index ==> pipeline_of(
                        (#[trigger] self.capabilities[before]).strategy,
                    ) != Some(output),
            decreases self.capabilities.len() - index,
        {
            let runs = match (self.capabilities[index].strategy, output) {
                (Nv12ImportStrategy::LinearBufferToRgba, Nv12ComputeOutput::Rgba) => true,
                (Nv12ImportStrategy::LinearBufferToYuvPlanes, Nv12ComputeOutput::YuvPlanes) => true,
                _ => false,
            };
            if runs {
                assert(pipeline_of(self.capabilities[index as int].strategy) == Some(output));
                return true;
            }
            index += 1;
        }
        false
    }

    /// Picks the capability for a stream. It is picked once and used for every frame.
    pub fn resolve_nv12(&self, request: Nv12ResolveRequest) -> (result: Result<
        Nv12ModifierCapability,
        String,
    >)
        ensures
            match result {
                Ok(selected) => exists|index: int|
                    0 <= index < self.capabilities@.len() && self.capabilities@[index] == selected
                        && answers(#[trigger] self.capabilities@[index], request)
                        && forall|before: int|
                        0 <= before < index ==> !answers(
                            #[trigger] self.capabilities@[before],
                            request,
                        ),
                Err(message) => message@ == rejections(
                    self.capabilities@,
                    request,
                    self.capabilities@.len() as int,
                ) && forall|index: int|
                    0 <= index < self.capabilities@.len() ==> !answers(
                        #[trigger] self.capabilities@[index],
                        request,
                    ),
            },
    {
        resolve_nv12_modifier_capability(self.capabilities.as_slice(), request)
    }

    /// How packed images of this format and modifier are imported.
    pub fn packed_import_strategy(
        &self,
        format: PackedImageFormat,
        modifier: u64,
        report: &PackedSupportReport,
    ) -> (result: Result<PackedImageImportStrategy, String>)
        ensures
            agrees(
                result,
                packed_strategy_verdict(
                    match self.packed_staging_error {
                        Some(error) => Some(error@),
                        None => None,
                    },
                    packed_import_verdict(report.modifiers@, format, modifier, report.external),
                    packed_staging_verdict(format, modifier, report.staging),
                ),
            ),
    {
        let direct_error = match validate_packed_import_support(
            report.modifiers.as_slice(),
            format,
            modifier,
            report.external,
        ) {
            Ok(()) => return Ok(PackedImageImportStrategy::DirectSampledImage),
            Err(error) => error,
        };
        match validate_packed_staging_support(format, modifier, report.staging) {
            Ok(()) => {},
            Err(staged_error) => {
                return Err(
                    Message::new(
                        "Vulkan packed import has neither direct nor staged support: direct=",
                    ).text(direct_error.as_str()).text("; staged=").text(
                        staged_error.as_str(),
                    ).done(),
                );
            },
        }
        match &self.packed_staging_error {
            Some(error) => Err(
                Message::new("Vulkan packed staging pipeline is unavailable: ").text(
                    error.as_str(),
                ).done(),
            ),
            None => Ok(PackedImageImportStrategy::LinearBufferToOptimalBgra),
        }
    }

    /// Admits a packed image, or says why not.
    pub fn import_packed_with_strategy(
        &mut self,
        request: PackedImageImport,
        strategy: PackedImageImportStrategy,
        report: &PackedSupportReport,
    ) -> (result: Result<(), VulkanImportError>)
        requires
            old(self).well_formed(),
        ensures
            imports(result, packed_request_verdict(request, strategy, *report)),
            final(self).same_but_packed_sources(*old(self)),
            final(self).packed_sources == old(self).packed_sources,
            final(self).packed_counters == after_verdict(
                old(self).packed_counters,
                packed_request_verdict(request, strategy, *report),
            ),
            final(self).well_formed(),
    {
        match validate_image_inputs(request.dimensions, request.source_fd, request.plane) {
            Ok(()) => {},
            Err(message) => return Err(VulkanImportError::Other(message)),
        }
        match check_packed_layout(request.dimensions, request.source_size, request.plane) {
            Ok(()) => {},
            Err(error) => {
                self.packed_counters.note_error(&error);
                return Err(error);
            },
        }
        match strategy {
            PackedImageImportStrategy::DirectSampledImage => {
                match validate_packed_import_support(
                    report.modifiers.as_slice(),
                    request.format,
                    request.modifier,
                    report.external,
                ) {
                    Ok(()) => Ok(()),
                    Err(message) => Err(VulkanImportError::Other(message)),
                }
            },
            PackedImageImportStrategy::LinearBufferToOptimalBgra => {
                match validate_packed_staging_support(
                    request.format,
                    request.modifier,
                    report.staging,
                ) {
                    Ok(()) => {},
                    Err(message) => return Err(VulkanImportError::Other(message)),
                }
                match validate_staged_packed_layout(
                    request.source_size,
                    report.max_texel_buffer_elements,
                ) {
                    Ok(()) => Ok(()),
                    Err(error) => {
                        self.packed_counters.note_error(&error);
                        Err(error)
                    },
                }
            },
        }
    }

    /// Admits a packed image for direct sampling, or says why not.
    pub fn import_packed(
        &mut self,
        request: PackedImageImport,
        report: &PackedSupportReport,
    ) -> (result: Result<(), VulkanImportError>)
        requires
            old(self).well_formed(),
        ensures
            imports(
                result,
                packed_request_verdict(
                    request,
                    PackedImageImportStrategy::DirectSampledImage,
                    *report,
                ),
            ),
            final(self).same_but_packed_sources(*old(self)),
            final(self).packed_sources == old(self).packed_sources,
            final(self).packed_counters == after_verdict(
                old(self).packed_counters,
                packed_request_verdict(
                    request,
                    PackedImageImportStrategy::DirectSampledImage,
                    *report,
                ),
            ),
            final(self).well_formed(),
    {
        self.import_packed_with_strategy(
            request,
            PackedImageImportStrategy::DirectSampledImage,
            report,
        )
    }

    /// Looks for the source of an admitted packed image. `probe` is what its descriptor says: a size
    /// that it does not prove is refused.
    pub fn begin_packed_claim(
        &mut self,
        request: PackedImageImport,
        strategy: PackedImageImportStrategy,
        probe: Result<DmaBufProbe, String>,
    ) -> (result: Result<SourceClaim<PackedSourceCacheKey>, VulkanImportError>)
        requires
            old(self).well_formed(),
        ensures
            final(self).well_formed(),
            final(self).same_but_packed_sources(*old(self)),
            match identity_of(request.source_fd, request.source_size, probe_view(probe)) {
                Err(fault) => {
                    &&& result matches Err(reported) && reported@ == fault
                    &&& final(self).packed_sources == old(self).packed_sources
                    &&& final(self).packed_counters == old(self).packed_counters.with_fault(fault)
                },
                Ok(identity) => {
                    let key = packed_key(request, strategy, identity);
                    &&& begun(
                        old(self).packed_sources,
                        old(self).packed_counters,
                        key,
                        final(self).packed_sources,
                        final(self).packed_counters,
                    )
                    &&& imports(
                        result,
                        claim_verdict(
                            packed_texts(),
                            lookup_of(old(self).packed_sources.entries@, key),
                            key,
                            old(self).packed_counters.clock,
                        ),
                    )
                },
            },
    {
        let identity = match checked_identity(request.source_fd, request.source_size, probe) {
            Ok(identity) => identity,
            Err(error) => {
                self.packed_counters.note_error(&error);
                return Err(error);
            },
        };
        let key = PackedSourceCacheKey {
            stream_incarnation: request.stream_incarnation,
            device: identity.device,
            inode: identity.inode,
            topology: PackedSourceTopology {
                dimensions: request.dimensions,
                object_size: request.source_size,
                modifier: request.modifier,
                plane: request.plane,
                format: request.format,
                strategy,
            },
        };
        begin_claim(
            texts_of_packed(),
            &mut self.packed_sources,
            &mut self.packed_counters,
            key,
        )
    }

    /// Puts a packed source that was imported for a claim into the cache.
    pub fn finish_packed_claim(
        &mut self,
        key: PackedSourceCacheKey,
        generation: u64,
        created: Result<P, VulkanImportError>,
    ) -> (result: Result<SourceLease<PackedSourceCacheKey>, VulkanImportError>)
        requires
            old(self).well_formed(),
        ensures
            final(self).well_formed(),
            final(self).same_but_packed_sources(*old(self)),
            match created {
                Err(error) => {
                    &&& result matches Err(reported) && reported@ == error@
                    &&& final(self).packed_sources == old(self).packed_sources
                    &&& final(self).packed_counters == old(self).packed_counters.with_fault(error@)
                },
                Ok(source) => {
                    &&& finished(
                        old(self).packed_sources,
                        old(self).packed_counters,
                        key,
                        generation,
                        source,
                        final(self).packed_sources,
                        final(self).packed_counters,
                    )
                    &&& imports(
                        result,
                        insertion_verdict(
                            packed_texts(),
                            old(self).packed_sources.max_entries,
                            insertion_of(
                                old(self).packed_sources.entries@,
                                old(self).packed_sources.max_entries,
                                key,
                            ),
                            key,
                        ),
                    )
                },
            },
    {
        match created {
            Ok(source) => finish_claim(
                texts_of_packed(),
                &mut self.packed_sources,
                &mut self.packed_counters,
                key,
                generation,
                source,
            ),
            Err(error) => {
                self.packed_counters.note_error(&error);
                Err(error)
            },
        }
    }

    /// Admits a biplanar frame and says how it is imported, or why not. The capability has to be one
    /// that this importer issued.
    pub fn import_nv12_shared_object(
        &self,
        request: Nv12ImportRequest,
        max_texel_buffer_elements: u32,
    ) -> (result: Result<Nv12ImportPlan, String>)
        ensures
            agrees(
                result,
                nv12_request_verdict(self.capabilities@, request, max_texel_buffer_elements),
            ),
    {
        let capability = request.capability;
        if !self.issued(capability) {
            return Err(
                Message::new("Vulkan NV12 modifier 0x").hex16(capability.modifier).text(
                    " capability was not issued by this active-device importer",
                ).done(),
            );
        }
        if capability.modifier != request.layout.modifier {
            return Err("Vulkan NV12 capability modifier does not match frame layout".to_owned());
        }
        match validate_nv12_modifier_capability(
            capability,
            request.dimensions,
            request.conversion,
        ) {
            Ok(()) => {},
            Err(message) => return Err(message),
        }
        match validate_nv12_shared_layout(request.dimensions, request.layout) {
            Ok(()) => {},
            Err(message) => return Err(message),
        }
        let topology = request.layout.frame_topology(request.dimensions);
        let (source_view_range, pipeline): (Option<u64>, Option<Nv12ComputeOutput>) =
            match capability.strategy {
            Nv12ImportStrategy::DirectSampledImage => {
                if request.source_fd < 0 {
                    return Err("Vulkan NV12 import has an invalid DMA-BUF fd".to_owned());
                }
                (None, None)
            },
            Nv12ImportStrategy::LinearBufferToOptimalNv12
            | Nv12ImportStrategy::LinearBufferToOptimalYuvPlanes => {
                match validate_transfer_layout(request.dimensions, request.layout) {
                    Ok(()) => {},
                    Err(message) => return Err(message),
                }
                (None, None)
            },
            Nv12ImportStrategy::LinearBufferToYuvPlanes => {
                match validate_staged_layout(
                    request.dimensions,
                    request.layout,
                    max_texel_buffer_elements,
                ) {
                    Ok(range) => (Some(range), Some(Nv12ComputeOutput::YuvPlanes)),
                    Err(message) => return Err(message),
                }
            },
            Nv12ImportStrategy::LinearBufferToRgba => {
                match validate_staged_layout(
                    request.dimensions,
                    request.layout,
                    max_texel_buffer_elements,
                ) {
                    Ok(range) => (Some(range), Some(Nv12ComputeOutput::Rgba)),
                    Err(message) => return Err(message),
                }
            },
        };
        Ok(
            Nv12ImportPlan {
                topology,
                strategy: capability.strategy,
                source_view_range,
                pipeline,
            },
        )
    }

    fn issued(&self, capability: Nv12ModifierCapability) -> (issued: bool)
        ensures
            issued == self.capabilities@.contains(capability),
    {
        let mut index: usize = 0;
        while index < self.capabilities.len()
            invariant
                index <= self.capabilities.len(),
                forall|before: int|
                    0 <= before < index ==> self.capabilities@[before] != capability,
            decreases self.capabilities.len() - index,
        {
            if same_nv12_capability(self.capabilities[index], capability) {
                assert(self.capabilities@[index as int] == capability);
                return true;
            }
            index += 1;
        }
        false
    }

    /// Looks for the source of an admitted biplanar frame. `probe` is what its descriptor says: a
    /// size that it does not prove is refused.
    pub fn begin_nv12_claim(
        &mut self,
        stream_incarnation: u64,
        source_fd: i32,
        plan: Nv12ImportPlan,
        probe: Result<DmaBufProbe, String>,
    ) -> (result: Result<SourceClaim<Nv12SourceCacheKey>, VulkanImportError>)
        requires
            old(self).well_formed(),
        ensures
            final(self).well_formed(),
            final(self).same_but_nv12_sources(*old(self)),
            match identity_of(source_fd, plan.topology.object_size, probe_view(probe)) {
                Err(fault) => {
                    &&& result matches Err(reported) && reported@ == fault
                    &&& final(self).nv12_sources == old(self).nv12_sources
                    &&& final(self).nv12_counters == old(self).nv12_counters
                },
                Ok(identity) => {
                    let key = nv12_key(stream_incarnation, plan, identity);
                    &&& begun(
                        old(self).nv12_sources,
                        old(self).nv12_counters,
                        key,
                        final(self).nv12_sources,
                        final(self).nv12_counters,
                    )
                    &&& imports(
                        result,
                        claim_verdict(
                            nv12_texts(),
                            lookup_of(old(self).nv12_sources.entries@, key),
                            key,
                            old(self).nv12_counters.clock,
                        ),
                    )
                },
            },
    {
        let identity = match checked_identity(source_fd, plan.topology.object_size, probe) {
            Ok(identity) => identity,
            Err(error) => return Err(error),
        };
        let key = Nv12SourceCacheKey {
            stream_incarnation,
            device: identity.device,
            inode: identity.inode,
            topology: plan.topology,
            strategy: plan.strategy,
        };
        begin_claim(texts_of_nv12(), &mut self.nv12_sources, &mut self.nv12_counters, key)
    }

    /// Puts a biplanar source that was imported for a claim into the cache.
    pub fn finish_nv12_claim(
        &mut self,
        key: Nv12SourceCacheKey,
        generation: u64,
        created: Result<N, VulkanImportError>,
    ) -> (result: Result<SourceLease<Nv12SourceCacheKey>, VulkanImportError>)
        requires
            old(self).well_formed(),
        ensures
            final(self).well_formed(),
            final(self).same_but_nv12_sources(*old(self)),
            match created {
                Err(error) => {
                    &&& result matches Err(reported) && reported@ == error@
                    &&& final(self).nv12_sources == old(self).nv12_sources
                    &&& final(self).nv12_counters == old(self).nv12_counters
                },
                Ok(source) => {
                    &&& finished(
                        old(self).nv12_sources,
                        old(self).nv12_counters,
                        key,
                        generation,
                        source,
                        final(self).nv12_sources,
                        final(self).nv12_counters,
                    )
                    &&& imports(
                        result,
                        insertion_verdict(
                            nv12_texts(),
                            old(self).nv12_sources.max_entries,
                            insertion_of(
                                old(self).nv12_sources.entries@,
                                old(self).nv12_sources.max_entries,
                                key,
                            ),
                            key,
                        ),
                    )
                },
            },
    {
        match created {
            Ok(source) => finish_claim(
                texts_of_nv12(),
                &mut self.nv12_sources,
                &mut self.nv12_counters,
                key,
                generation,
                source,
            ),
            Err(error) => Err(error),
        }
    }

    /// Drops the idle biplanar sources of a stream. Sources that are in use are an error.
    pub fn evict_nv12_stream(&mut self, stream_incarnation: u64) -> (result: Result<(), String>)
        requires
            old(self).well_formed(),
        ensures
            final(self).well_formed(),
            final(self).same_but_nv12_sources(*old(self)),
            evicted_stream(
                "Vulkan NV12 stream "@,
                stream_incarnation,
                old(self).nv12_sources,
                old(self).nv12_counters,
                final(self).nv12_sources,
                final(self).nv12_counters,
                result,
            ),
    {
        evict_from(
            "Vulkan NV12 stream ",
            stream_incarnation,
            &mut self.nv12_sources,
            &mut self.nv12_counters,
        )
    }

    /// Drops the idle packed sources of a stream. Sources that are in use are an error.
    pub fn evict_packed_stream(&mut self, stream_incarnation: u64) -> (result: Result<(), String>)
        requires
            old(self).well_formed(),
        ensures
            final(self).well_formed(),
            final(self).same_but_packed_sources(*old(self)),
            evicted_stream(
                "Vulkan packed stream "@,
                stream_incarnation,
                old(self).packed_sources,
                old(self).packed_counters,
                final(self).packed_sources,
                final(self).packed_counters,
                result,
            ),
    {
        evict_from(
            "Vulkan packed stream ",
            stream_incarnation,
            &mut self.packed_sources,
            &mut self.packed_counters,
        )
    }

    /// What the biplanar side holds and has counted.
    pub fn nv12_cache_stats(&self) -> (stats: Nv12ImportCacheStats)
        requires
            self.well_formed(),
        ensures
            stats.source_entries == self.nv12_sources.entries.len(),
            stats.active_sources == claimed_entries(
                self.nv12_sources.entries@,
                self.nv12_sources.entries.len() as int,
            ),
            stats.output_slots == self.nv12_outputs.places.len(),
            stats.active_outputs == slots_in_use(
                self.nv12_outputs.places@,
                self.nv12_outputs.places.len() as int,
            ),
            stats.source_cache_hits == self.nv12_counters.hits,
            stats.source_cache_misses == self.nv12_counters.misses,
            stats.source_cache_evictions == self.nv12_counters.evictions,
            stats.source_active_reuse_rejections == self.nv12_counters.active_reuse_rejections,
            stats.source_topology_collisions == self.nv12_counters.topology_collisions,
            stats.output_pool_busy_rejections == self.nv12_counters.output_pool_busy_rejections,
    {
        Nv12ImportCacheStats {
            source_entries: self.nv12_sources.entries.len(),
            active_sources: self.nv12_sources.active_sources(),
            output_slots: self.nv12_outputs.places.len(),
            active_outputs: self.nv12_outputs.active_outputs(),
            source_cache_hits: self.nv12_counters.hits,
            source_cache_misses: self.nv12_counters.misses,
            source_cache_evictions: self.nv12_counters.evictions,
            source_active_reuse_rejections: self.nv12_counters.active_reuse_rejections,
            source_topology_collisions: self.nv12_counters.topology_collisions,
            output_pool_busy_rejections: self.nv12_counters.output_pool_busy_rejections,
        }
    }

    /// What the packed side holds and has counted.
    pub fn packed_cache_stats(&self) -> (stats: PackedImportCacheStats)
        requires
            self.well_formed(),
        ensures
            stats.source_entries == self.packed_sources.entries.len(),
            stats.active_sources == claimed_entries(
                self.packed_sources.entries@,
                self.packed_sources.entries.len() as int,
            ),
            stats.output_slots == self.packed_outputs.places.len(),
            stats.active_outputs == slots_in_use(
                self.packed_outputs.places@,
                self.packed_outputs.places.len() as int,
            ),
            stats.source_cache_hits == self.packed_counters.hits,
            stats.source_cache_misses == self.packed_counters.misses,
            stats.source_cache_evictions == self.packed_counters.evictions,
            stats.source_active_reuse_rejections == self.packed_counters.active_reuse_rejections,
            stats.source_topology_collisions == self.packed_counters.topology_collisions,
            stats.allocation_size_rejections == self.packed_counters.allocation_size_rejections,
            stats.output_pool_busy_rejections == self.packed_counters.output_pool_busy_rejections,
    {
        PackedImportCacheStats {
            source_entries: self.packed_sources.entries.len(),
            active_sources: self.packed_sources.active_sources(),
            output_slots: self.packed_outputs.places.len(),
            active_outputs: self.packed_outputs.active_outputs(),
            source_cache_hits: self.packed_counters.hits,
            source_cache_misses: self.packed_counters.misses,
            source_cache_evictions: self.packed_counters.evictions,
            source_active_reuse_rejections: self.packed_counters.active_reuse_rejections,
            source_topology_collisions: self.packed_counters.topology_collisions,
            allocation_size_rejections: self.packed_counters.allocation_size_rejections,
            output_pool_busy_rejections: self.packed_counters.output_pool_busy_rejections,
        }
    }

    /// Asks for a biplanar output: an idle slot of the right shape, or room for a new one.
    pub fn claim_nv12_output(&mut self, key: Nv12OutputKey) -> (result: Result<
        SlotClaim<Nv12OutputKey, A>,
        VulkanImportError,
    >)
        requires
            old(self).well_formed(),
        ensures
            final(self).well_formed(),
            result matches Ok(SlotClaim::Create { .. }) ==> final(self).nv12_outputs.places.len()
                < final(self).nv12_outputs.max_slots,
            claimed_output(
                "NV12 output"@,
                key,
                old(self).nv12_outputs,
                old(self).nv12_counters,
                final(self).nv12_outputs,
                final(self).nv12_counters,
                result,
            ),
            final(self).capabilities@ == old(self).capabilities@,
            final(self).nv12_sources == old(self).nv12_sources,
            final(self).packed_sources == old(self).packed_sources,
            final(self).packed_outputs == old(self).packed_outputs,
            final(self).packed_counters == old(self).packed_counters,
            final(self).packed_staging_error == old(self).packed_staging_error,
    {
        claim_from(
            "NV12 output",
            &key,
            &mut self.nv12_outputs,
            &mut self.nv12_counters,
        )
    }

    /// Asks for a packed output: an idle slot of the right shape, or room for a new one.
    pub fn claim_packed_output(&mut self, key: PackedOutputKey) -> (result: Result<
        SlotClaim<PackedOutputKey, B>,
        VulkanImportError,
    >)
        requires
            old(self).well_formed(),
        ensures
            final(self).well_formed(),
            result matches Ok(SlotClaim::Create { .. }) ==> final(self).packed_outputs.places.len()
                < final(self).packed_outputs.max_slots,
            if old(self).packed_staging_error is Some {
                &&& result matches Err(error) && error@ == ImportFault::Other(
                    "Vulkan packed BGRA staging pipeline is unavailable"@,
                )
                &&& final(self).packed_outputs == old(self).packed_outputs
                &&& final(self).packed_counters == old(self).packed_counters
            } else {
                claimed_output(
                    "packed output"@,
                    key,
                    old(self).packed_outputs,
                    old(self).packed_counters,
                    final(self).packed_outputs,
                    final(self).packed_counters,
                    result,
                )
            },
            final(self).capabilities@ == old(self).capabilities@,
            final(self).nv12_sources == old(self).nv12_sources,
            final(self).nv12_outputs == old(self).nv12_outputs,
            final(self).nv12_counters == old(self).nv12_counters,
            final(self).packed_sources == old(self).packed_sources,
            final(self).packed_staging_error == old(self).packed_staging_error,
    {
        if self.packed_staging_error.is_some() {
            return Err(
                VulkanImportError::Other(
                    "Vulkan packed BGRA staging pipeline is unavailable".to_owned(),
                ),
            );
        }
        claim_from(
            "packed output",
            &key,
            &mut self.packed_outputs,
            &mut self.packed_counters,
        )
    }
}

/// What asking a pool for an output comes to. A saturated pool is counted.
pub open spec fn claimed_output<K: OutputKey, R>(
    label: Seq<char>,
    key: K,
    before: OutputPool<K, R>,
    counted: ImportCounters,
    after: OutputPool<K, R>,
    counters: ImportCounters,
    result: Result<SlotClaim<K, R>, VulkanImportError>,
) -> bool {
    &&& after.max_slots == before.max_slots
    &&& after.next_ticket == before.next_ticket
    &&& match matching_place(before.places@, key, 0) {
        Some(index) => {
            &&& result == Ok::<_, VulkanImportError>(
                SlotClaim::Reuse(before.places@[index].idle.unwrap()),
            )
            &&& after.places@ == before.places@.update(index, before.places@[index].emptied())
            &&& counters == counted
        },
        None => if before.places.len() < before.max_slots {
            &&& result == Ok::<_, VulkanImportError>(SlotClaim::<K, R>::Create { dropped: None })
            &&& after.places@ == before.places@
            &&& counters == counted
        } else {
            match idle_place(before.places@, 0) {
                Some(index) => {
                    &&& result == Ok::<_, VulkanImportError>(
                        SlotClaim::<K, R>::Create {
                            dropped: Some(before.places@[index].idle.unwrap().resources),
                        },
                    )
                    &&& after.places@ == without_place(before.places@, index)
                    &&& counters == counted
                },
                None => {
                    &&& result matches Err(error) && error@ == (ImportFault::PoolSaturated {
                        pool: label,
                        limit: before.max_slots,
                    })
                    &&& after.places@ == before.places@
                    &&& counters == ImportCounters {
                        output_pool_busy_rejections: counted.output_pool_busy_rejections.wrapping_add(
                            1,
                        ),
                        ..counted
                    }
                },
            }
        },
    }
}

fn claim_from<K: OutputKey, R>(
    label: &'static str,
    key: &K,
    pool: &mut OutputPool<K, R>,
    counters: &mut ImportCounters,
) -> (result: Result<SlotClaim<K, R>, VulkanImportError>)
    requires
        old(pool).well_formed(),
    ensures
        final(pool).well_formed(),
        claimed_output(
            label@,
            *key,
            *old(pool),
            *old(counters),
            *final(pool),
            *final(counters),
            result,
        ),
        result matches Ok(SlotClaim::Create { .. }) ==> final(pool).places.len()
            < final(pool).max_slots,
{
    match pool.claim(key) {
        Some(claim) => Ok(claim),
        None => {
            counters.output_pool_busy_rejections =
            counters.output_pool_busy_rejections.wrapping_add(1);
            Err(VulkanImportError::PoolSaturated { pool: label, limit: pool.max_slots })
        },
    }
}

/// The compute pipeline of every admitted biplanar frame is one that some issued capability needs,
/// so that it was made before frames came.
pub proof fn admitted_frames_find_their_pipeline(
    capabilities: Seq<Nv12ModifierCapability>,
    request: Nv12ImportRequest,
    max_texel_buffer_elements: u32,
)
    ensures
        nv12_request_verdict(capabilities, request, max_texel_buffer_elements) matches Ok(plan)
            ==> plan.pipeline matches Some(output) ==> exists|index: int|
            0 <= index < capabilities.len() && pipeline_of(
                (#[trigger] capabilities[index]).strategy,
            ) == Some(output),
{
    if nv12_request_verdict(capabilities, request, max_texel_buffer_elements) is Ok {
        let index = choose|index: int|
            0 <= index < capabilities.len() && capabilities[index] == request.capability;
        assert(capabilities[index] == request.capability);
    }
}

/// What evicting a stream comes to.
pub open spec fn evicted_stream<K: SourceKey, S>(
    label: Seq<char>,
    stream_incarnation: u64,
    before: SourceCache<K, S>,
    counted: ImportCounters,
    after: SourceCache<K, S>,
    counters: ImportCounters,
    result: Result<(), String>,
) -> bool {
    let retained = stream_entries(after.entries@, stream_incarnation, after.entries.len() as int);
    &&& after.max_entries == before.max_entries
    &&& after.entries@ == without_stream(
        before.entries@,
        stream_incarnation,
        before.entries.len() as int,
    )
    &&& counters == ImportCounters {
        evictions: counted.evictions.wrapping_add(
            (before.entries.len() - after.entries.len()) as u64,
        ),
        ..counted
    }
    &&& agrees(
        result,
        if retained == 0 {
            Ok(())
        } else {
            Err(
                label + decimal(stream_incarnation as nat) + " still owns "@ + decimal(retained)
                    + " active cached source(s)"@,
            )
        },
    )
}

fn evict_from<K: SourceKey, S>(
    label: &str,
    stream_incarnation: u64,
    cache: &mut SourceCache<K, S>,
    counters: &mut ImportCounters,
) -> (result: Result<(), String>)
    requires
        old(cache).well_formed(),
    ensures
        final(cache).well_formed(),
        evicted_stream(
            label@,
            stream_incarnation,
            *old(cache),
            *old(counters),
            *final(cache),
            *final(counters),
            result,
        ),
{
    let (evicted, retained): (usize, usize) = cache.evict_stream(stream_incarnation);
    counters.evictions = counters.evictions.wrapping_add(evicted as u64);
    if retained == 0 {
        Ok(())
    } else {
        Err(
            Message::new(label).number(stream_incarnation).text(" still owns ").number(
                retained as u64,
            ).text(" active cached source(s)").done(),
        )
    }
}

} // verus!
