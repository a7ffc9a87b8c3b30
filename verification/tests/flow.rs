use ash::vk;
use video_interop::vulkan::cache::{SourceCache, SourceInsertion, SourceLookup};
use video_interop::vulkan::flags::{
    BUFFER_USAGE_TRANSFER_SRC, BUFFER_USAGE_UNIFORM_TEXEL_BUFFER,
    EXTERNAL_MEMORY_FEATURE_IMPORTABLE, EXTERNAL_MEMORY_HANDLE_TYPE_DMA_BUF,
    FORMAT_FEATURE_UNIFORM_TEXEL_BUFFER, QUEUE_COMPUTE, QUEUE_GRAPHICS,
};
use video_interop::vulkan::image::{
    create_staged_nv12, create_staged_packed, plan_bgra_scanout, plan_nv12_image,
    plan_packed_image, ImportId, ImportIds, ImportedDmaBufImage, ScanoutImport, StagedNv12Request,
};
use video_interop::vulkan::import::{
    ImportDeviceReport, Nv12ImportPlan, Nv12ImportRequest, PackedSupportReport, SourceClaim,
};
use video_interop::vulkan::inventory::{
    check_optimal_format, imported_memory_type, select_memory_type, selected_queue_flags,
    DrmModifierProperties, ExternalMemoryProperties, ExternalModifierCapability,
    Nv12ModifierReport, Nv12StagingReport, OptimalFormatReport, PackedStagingReport,
    QueueFamilyProperties, COMPUTE_OUTPUT_FEATURES, DIRECT_PACKED_FEATURES, SCANOUT_FEATURES,
    STAGED_PACKED_OUTPUT_FEATURES, TRANSFER_NV12_FEATURES, TRANSFER_PLANE_FEATURES,
};
use video_interop::vulkan::memory::{
    descriptor_duplicated, direct_image_created, imported_buffer_created,
    imported_memory_allocated, imported_memory_bound, imported_memory_reported,
    local_image_created, local_memory_allocated, local_memory_bound, local_memory_reported,
    nv12_source_view_created, packed_source_view_created, plan_imported_buffer, plan_nv12_source,
    plan_packed_source, BufferViewPlan, ImportedAllocation, MemoryReport, SourcePlan,
};
use video_interop::vulkan::output::{
    finish_packed_output, finish_staged_output, packed_descriptor_writes, plan_packed_output,
    plan_staged_output, staged_descriptor_writes, DescriptorWrite, OutputAction, OutputBuild,
    OutputPlan,
};
use video_interop::vulkan::pipeline::{
    descriptor_layout_created, pipeline_created, pipeline_layout_created, shader_created,
};
use video_interop::vulkan::pool::{Nv12OutputKey, OutputPool, PackedOutputKey, SlotClaim};
use video_interop::vulkan::record::{record_acquire, CommandStep};
use video_interop::vulkan::resources::{
    BufferAllocation, ComputeKind, ComputePipeline, DeviceObject, ImageAllocation,
    Nv12SourceAllocation, PackedOutput, PackedSourceAllocation, StagedOutput,
    StagedOutputResources,
};
use video_interop::vulkan::transaction::{FrameStep, Nv12Import, PackedImport};
use video_interop::vulkan::types::Nv12ComputeOutput;
use video_interop::vulkan::{
    map_nv12_colorimetry, packed_shader_words, shader_words, AcquirePlan, Extent3D,
    ImportedPlane, Nv12Conversion, Nv12ImportStrategy, Nv12ModifierCapability, Nv12ResolveRequest,
    Nv12SharedObjectLayout, Nv12SourceCache, Nv12SourceCacheKey, Nv12StagingPreference,
    PackedImageFormat, PackedImageImport, PackedImageImportStrategy, PackedSourceCache,
    PackedSourceCacheKey, SampledImageFormat, SourceLease, VulkanDmaBufImporter,
    VulkanImportError, VulkanImportPoolLimits, DIRECT_NV12_USAGE, DIRECT_PACKED_USAGE,
    DRM_FORMAT_MOD_LINEAR, IMPORTED_NV12_FORMAT, STAGED_PACKED_STORAGE_VIEW_FORMAT,
};
use video_interop::{
    ChromaLocation, ColorRange, Colorimetry, DmaBufProbe, Matrix, Primaries, Transfer,
};

type Importer =
    VulkanDmaBufImporter<Nv12SourceAllocation, PackedSourceAllocation, StagedOutput, PackedOutput>;

const EXTENT: Extent3D = Extent3D { width: 4096, height: 4096, depth: 1 };

const IMPORTABLE: ExternalMemoryProperties = ExternalMemoryProperties {
    features: EXTERNAL_MEMORY_FEATURE_IMPORTABLE,
    compatible_handle_types: EXTERNAL_MEMORY_HANDLE_TYPE_DMA_BUF,
};

const IMAGE_IMPORTABLE: ExternalModifierCapability = ExternalModifierCapability {
    external_features: EXTERNAL_MEMORY_FEATURE_IMPORTABLE,
    compatible_handle_types: EXTERNAL_MEMORY_HANDLE_TYPE_DMA_BUF,
    max_extent: EXTENT,
};

fn optimal(features: u32) -> OptimalFormatReport {
    OptimalFormatReport { features, max_extent: Ok(EXTENT) }
}

fn nv12_staging() -> Nv12StagingReport {
    Nv12StagingReport {
        queue_flags: QUEUE_GRAPHICS | QUEUE_COMPUTE,
        transfer_source: IMPORTABLE,
        texel_source: IMPORTABLE,
        source_texel_features: FORMAT_FEATURE_UNIFORM_TEXEL_BUFFER,
        transfer_nv12: optimal(TRANSFER_NV12_FEATURES | conversion().required_direct_features()),
        transfer_luma: optimal(TRANSFER_PLANE_FEATURES),
        transfer_chroma: optimal(TRANSFER_PLANE_FEATURES),
        compute_luma: optimal(COMPUTE_OUTPUT_FEATURES),
        compute_chroma: optimal(COMPUTE_OUTPUT_FEATURES),
        compute_rgba: optimal(COMPUTE_OUTPUT_FEATURES),
    }
}

fn packed_staging() -> PackedStagingReport {
    PackedStagingReport {
        queue_flags: QUEUE_COMPUTE,
        source: IMPORTABLE,
        source_texel_features: FORMAT_FEATURE_UNIFORM_TEXEL_BUFFER,
        output: optimal(STAGED_PACKED_OUTPUT_FEATURES),
        storage_view_features: vk::FormatFeatureFlags::STORAGE_IMAGE.as_raw(),
    }
}

fn device() -> ImportDeviceReport {
    ImportDeviceReport {
        nv12_modifiers: vec![Nv12ModifierReport {
            properties: DrmModifierProperties {
                modifier: DRM_FORMAT_MOD_LINEAR,
                plane_count: 1,
                tiling_features: 0,
            },
            external: None,
        }],
        nv12_staging: nv12_staging(),
        packed_staging: packed_staging(),
    }
}

fn importer(preference: Nv12StagingPreference) -> Importer {
    VulkanDmaBufImporter::new_with_limits_and_staging_preference(
        &device(),
        VulkanImportPoolLimits {
            nv12_source_cache_entries: 2,
            nv12_output_slots: 1,
            packed_source_cache_entries: 1,
            packed_output_slots: 1,
        },
        preference,
    )
    .unwrap()
}

fn conversion() -> Nv12Conversion {
    map_nv12_colorimetry(Colorimetry {
        primaries: Primaries::Bt709,
        transfer: Transfer::Bt709,
        matrix: Matrix::Bt709,
        range: ColorRange::Limited,
        chroma_location: ChromaLocation::Left,
    })
    .unwrap()
}

fn layout() -> Nv12SharedObjectLayout {
    Nv12SharedObjectLayout {
        modifier: DRM_FORMAT_MOD_LINEAR,
        object_size: 3072,
        planes: [
            ImportedPlane { offset: 0, pitch: 64 },
            ImportedPlane { offset: 2048, pitch: 64 },
        ],
    }
}

fn resolve(importer: &Importer) -> Nv12ModifierCapability {
    importer
        .resolve_nv12(Nv12ResolveRequest {
            modifier: DRM_FORMAT_MOD_LINEAR,
            dimensions: (64, 32),
            conversion: conversion(),
        })
        .unwrap()
}

fn request(capability: Nv12ModifierCapability) -> Nv12ImportRequest {
    Nv12ImportRequest {
        dimensions: (64, 32),
        source_fd: 5,
        layout: layout(),
        conversion: conversion(),
        capability,
    }
}

fn probe(inode: u64) -> Result<DmaBufProbe, String> {
    Ok(DmaBufProbe { device: 1, inode, allocation_size: 3072 })
}

fn source() -> BufferAllocation {
    BufferAllocation { buffer: 30, memory: 31, size: 3072 }
}

fn pipeline(kind: ComputeKind) -> ComputePipeline {
    ComputePipeline { kind, descriptor_set_layout: 20, pipeline_layout: 21, pipeline: 22 }
}

fn claim(
    importer: &mut Importer,
    plan: Nv12ImportPlan,
    inode: u64,
) -> SourceLease<Nv12SourceCacheKey> {
    match importer.begin_nv12_claim(1, 5, plan, probe(inode)).unwrap() {
        SourceClaim::Cached(lease) => lease,
        SourceClaim::Import { key, generation } => importer
            .finish_nv12_claim(
                key,
                generation,
                Ok(Nv12SourceAllocation::Transfer { source: source() }),
            )
            .unwrap(),
    }
}

#[test]
fn limits_have_to_leave_room() {
    let limits = VulkanImportPoolLimits { nv12_output_slots: 0, ..Default::default() };
    let refused: Result<Importer, String> =
        VulkanDmaBufImporter::new_with_limits(&device(), limits);
    assert_eq!(refused.err().unwrap(), "Vulkan import pool limits must be non-zero");
    let importer: Importer = VulkanDmaBufImporter::new(&device()).unwrap();
    assert_eq!(importer.nv12_sources.max_entries, 32);
    assert_eq!(importer.packed_outputs.max_slots, 8);
}

#[test]
fn staging_follows_the_preference() {
    let planar = importer(Nv12StagingPreference::PreferPlanar);
    assert_eq!(resolve(&planar).strategy, Nv12ImportStrategy::LinearBufferToOptimalNv12);
    assert!(!planar.needs_pipeline(Nv12ComputeOutput::Rgba));

    let planes = importer(Nv12StagingPreference::RequirePlanar);
    assert_eq!(resolve(&planes).strategy, Nv12ImportStrategy::LinearBufferToYuvPlanes);
    assert!(planes.needs_pipeline(Nv12ComputeOutput::YuvPlanes));

    let rgba = importer(Nv12StagingPreference::RequireRgba);
    assert_eq!(resolve(&rgba).strategy, Nv12ImportStrategy::LinearBufferToRgba);
    assert!(rgba.needs_pipeline(Nv12ComputeOutput::Rgba));
    assert!(!rgba.needs_pipeline(Nv12ComputeOutput::YuvPlanes));
    assert_eq!(rgba.nv12_capabilities().len(), 1);
}

#[test]
fn frames_need_a_capability_of_this_importer() {
    let importer = importer(Nv12StagingPreference::RequireRgba);
    let capability = resolve(&importer);
    let plan = importer.import_nv12_shared_object(request(capability), 1 << 20).unwrap();
    assert_eq!(plan.pipeline, Some(Nv12ComputeOutput::Rgba));
    assert_eq!(plan.source_view_range, Some(3072));
    assert_eq!(plan.topology, layout().frame_topology((64, 32)));

    let foreign = Nv12ModifierCapability { modifier_plane_count: 9, ..capability };
    assert_eq!(
        importer.import_nv12_shared_object(request(foreign), 1 << 20).unwrap_err(),
        "Vulkan NV12 modifier 0x0000000000000000 capability was not issued by this active-device importer"
    );
    let mut other = request(capability);
    other.layout.modifier = 1;
    assert_eq!(
        importer.import_nv12_shared_object(other, 1 << 20).unwrap_err(),
        "Vulkan NV12 capability modifier does not match frame layout"
    );
    assert!(importer.import_nv12_shared_object(request(capability), 767).is_err());
    assert!(importer.import_nv12_shared_object(request(capability), 768).is_ok());
}

#[test]
fn sources_are_imported_once_and_claimed_by_one_import_at_a_time() {
    let mut importer = importer(Nv12StagingPreference::PreferPlanar);
    let plan = importer.import_nv12_shared_object(request(resolve(&importer)), 1 << 20).unwrap();
    let mut first = claim(&mut importer, plan, 10);
    let stats = importer.nv12_cache_stats();
    assert_eq!((stats.source_cache_hits, stats.source_cache_misses), (0, 1));
    assert_eq!((stats.source_entries, stats.active_sources), (1, 1));

    let error = importer.begin_nv12_claim(1, 5, plan, probe(10)).err().unwrap();
    assert_eq!(
        error.message(),
        "cached NV12 DMA-BUF reappeared before its previous lease completed"
    );
    assert!(importer.nv12_sources.release(&mut first));
    assert!(!importer.nv12_sources.release(&mut first));
    let second = match importer.begin_nv12_claim(1, 5, plan, probe(10)).unwrap() {
        SourceClaim::Cached(lease) => lease,
        SourceClaim::Import { .. } => panic!("the source is cached"),
    };
    let stats = importer.nv12_cache_stats();
    assert_eq!((stats.source_cache_hits, stats.source_active_reuse_rejections), (1, 1));

    let other = Nv12ImportPlan { strategy: Nv12ImportStrategy::LinearBufferToRgba, ..plan };
    let error = importer.begin_nv12_claim(1, 5, other, probe(10)).err().unwrap();
    assert_eq!(
        error.message(),
        "cached NV12 DMA-BUF identity reappeared with different topology or read strategy"
    );
    assert_eq!(
        importer.evict_nv12_stream(1).unwrap_err(),
        "Vulkan NV12 stream 1 still owns 1 active cached source(s)"
    );
    importer.nv12_sources.retire(first);
    importer.nv12_sources.retire(second);
    importer.evict_nv12_stream(1).unwrap();
    assert_eq!(importer.nv12_cache_stats().source_entries, 0);
    assert_eq!(importer.nv12_cache_stats().source_cache_evictions, 1);
}

#[test]
fn full_caches_drop_what_was_idle_longest() {
    let mut importer = importer(Nv12StagingPreference::PreferPlanar);
    let plan = importer.import_nv12_shared_object(request(resolve(&importer)), 1 << 20).unwrap();
    let oldest = claim(&mut importer, plan, 10);
    let newer = claim(&mut importer, plan, 11);
    let key = newer.key;
    let generation = importer.nv12_counters.clock;
    let created = || Ok(Nv12SourceAllocation::Transfer { source: source() });
    let third = Nv12SourceCacheKey { inode: 12, ..key };
    let error = importer.finish_nv12_claim(third, generation, created()).err().unwrap();
    assert_eq!(error.message(), "Vulkan NV12 source cache is saturated at 2 entries");
    importer.nv12_sources.retire(newer);
    importer.nv12_sources.retire(oldest);
    let _third = importer.finish_nv12_claim(third, generation, created()).unwrap();
    assert_eq!(importer.nv12_sources.entries.len(), 2);
    assert_eq!(importer.nv12_sources.entries[0].key.inode, 11);
    assert_eq!(importer.nv12_sources.entries[1].key.inode, 12);
    assert_eq!(importer.nv12_sources.active_sources(), 1);

    let failure = VulkanImportError::Other("no memory".to_string());
    let error = importer.finish_nv12_claim(third, generation, Err(failure)).err().unwrap();
    assert_eq!(error.message(), "no memory");
}

#[test]
fn cache_lookups_tell_the_four_cases_apart() {
    let mut cache: Nv12SourceCache<u8> = SourceCache::new(1);
    let key = Nv12SourceCacheKey {
        stream_incarnation: 1,
        device: 1,
        inode: 1,
        topology: layout().frame_topology((64, 32)),
        strategy: Nv12ImportStrategy::LinearBufferToRgba,
    };
    assert_eq!(cache.claim(&key, 0), SourceLookup::Missing);
    assert_eq!(cache.insert(key, 7, 0), SourceInsertion::Inserted { evicted: false });
    assert_eq!(cache.insert(key, 8, 1), SourceInsertion::Existing(SourceLookup::Active));
    assert_eq!(cache.claim(&key, 1), SourceLookup::Active);
    let mut lease = SourceLease { key, released: false };
    assert!(cache.release(&mut lease));
    assert_eq!(cache.claim(&key, 2), SourceLookup::Claimed);
    let collision =
        Nv12SourceCacheKey { strategy: Nv12ImportStrategy::LinearBufferToYuvPlanes, ..key };
    assert_eq!(cache.claim(&collision, 3), SourceLookup::Collision);
    let other = Nv12SourceCacheKey { inode: 2, ..key };
    assert_eq!(cache.insert(other, 9, 4), SourceInsertion::Saturated);
    assert!(!cache.evict_one_idle());
    cache.retire(SourceLease { key, released: false });
    cache.retire(lease);
    assert_eq!(cache.insert(other, 9, 5), SourceInsertion::Inserted { evicted: true });
    assert_eq!(cache.evict_stream(1), (0, 1));
    cache.retire(SourceLease { key: other, released: false });
    assert_eq!(cache.evict_stream(2), (0, 0));
    assert_eq!(cache.evict_stream(1), (1, 0));
}

fn packed_request() -> PackedImageImport {
    PackedImageImport {
        stream_incarnation: 4,
        dimensions: (64, 32),
        source_fd: 6,
        source_size: 8192,
        modifier: DRM_FORMAT_MOD_LINEAR,
        plane: ImportedPlane { offset: 0, pitch: 256 },
        format: PackedImageFormat::Bgra8888,
    }
}

fn packed_report(features: u32) -> PackedSupportReport {
    PackedSupportReport {
        modifiers: vec![DrmModifierProperties {
            modifier: DRM_FORMAT_MOD_LINEAR,
            plane_count: 1,
            tiling_features: features,
        }],
        external: Ok(IMAGE_IMPORTABLE),
        staging: packed_staging(),
        max_texel_buffer_elements: 2048,
    }
}

#[test]
fn packed_images_are_sampled_where_they_are_or_staged() {
    let importer = importer(Nv12StagingPreference::PreferPlanar);
    let format = PackedImageFormat::Bgra8888;
    let direct = packed_report(DIRECT_PACKED_FEATURES);
    assert_eq!(
        importer.packed_import_strategy(format, DRM_FORMAT_MOD_LINEAR, &direct).unwrap(),
        PackedImageImportStrategy::DirectSampledImage
    );
    let staged = packed_report(0);
    assert_eq!(
        importer.packed_import_strategy(format, DRM_FORMAT_MOD_LINEAR, &staged).unwrap(),
        PackedImageImportStrategy::LinearBufferToOptimalBgra
    );
    let error = importer.packed_import_strategy(format, 5, &staged).unwrap_err();
    assert!(error.starts_with(
        "Vulkan packed import has neither direct nor staged support: direct="
    ));
    assert!(error.ends_with(
        "; staged=Vulkan packed buffer staging requires linear modifier 0, got 0x0000000000000005"
    ));
}

#[test]
fn packed_staging_needs_its_pipeline() {
    let mut report = device();
    report.packed_staging.queue_flags = QUEUE_GRAPHICS;
    let importer: Importer = VulkanDmaBufImporter::new(&report).unwrap();
    let error = importer
        .packed_import_strategy(
            PackedImageFormat::Bgra8888,
            DRM_FORMAT_MOD_LINEAR,
            &packed_report(0),
        )
        .unwrap_err();
    assert_eq!(
        error,
        "Vulkan packed staging pipeline is unavailable: selected Vulkan queue does not support packed compute staging"
    );
}

#[test]
fn packed_sizes_that_do_not_hold_are_counted() {
    let mut importer = importer(Nv12StagingPreference::PreferPlanar);
    let staged = PackedImageImportStrategy::LinearBufferToOptimalBgra;
    let report = packed_report(DIRECT_PACKED_FEATURES);
    importer.import_packed(packed_request(), &report).unwrap();
    importer.import_packed_with_strategy(packed_request(), staged, &report).unwrap();
    let small = PackedImageImport { source_size: 8191, ..packed_request() };
    assert!(importer.import_packed(small, &report).unwrap_err().is_allocation_size());
    let large = PackedImageImport { source_size: 8196, ..packed_request() };
    assert!(importer
        .import_packed_with_strategy(large, staged, &report)
        .unwrap_err()
        .is_allocation_size());
    let invalid = PackedImageImport { source_fd: -1, ..packed_request() };
    assert!(!importer.import_packed(invalid, &report).unwrap_err().is_allocation_size());
    assert_eq!(importer.packed_cache_stats().allocation_size_rejections, 2);

    let half = Ok(DmaBufProbe { device: 1, inode: 1, allocation_size: 4096 });
    let error = importer
        .begin_packed_claim(packed_request(), staged, half)
        .err()
        .unwrap();
    assert_eq!(
        error.message(),
        "DMA-BUF declared allocation size 8192 does not match fd-backed allocation size 4096"
    );
    assert_eq!(importer.packed_cache_stats().allocation_size_rejections, 3);
}

#[test]
fn packed_streams_are_evicted_when_their_sources_are_idle() {
    let mut importer = importer(Nv12StagingPreference::PreferPlanar);
    let strategy = PackedImageImportStrategy::DirectSampledImage;
    let probe = Ok(DmaBufProbe { device: 1, inode: 9, allocation_size: 8192 });
    let lease = match importer.begin_packed_claim(packed_request(), strategy, probe).unwrap() {
        SourceClaim::Import { key, generation } => importer
            .finish_packed_claim(
                key,
                generation,
                Ok(PackedSourceAllocation::Direct(ImageAllocation { image: 1, memory: 2 })),
            )
            .unwrap(),
        SourceClaim::Cached(_) => panic!("nothing is cached yet"),
    };
    assert_eq!(
        importer.evict_packed_stream(4).unwrap_err(),
        "Vulkan packed stream 4 still owns 1 active cached source(s)"
    );
    importer.packed_sources.retire(lease);
    importer.evict_packed_stream(4).unwrap();
    assert_eq!(importer.packed_cache_stats().source_cache_evictions, 1);
}

#[test]
fn outputs_are_reused_once_they_are_back() {
    let mut importer = importer(Nv12StagingPreference::PreferPlanar);
    let key = Nv12OutputKey {
        dimensions: (64, 32),
        strategy: Nv12ImportStrategy::LinearBufferToOptimalNv12,
    };
    assert!(matches!(
        importer.claim_nv12_output(key).unwrap(),
        SlotClaim::Create { dropped: None }
    ));
    let output = StagedOutput {
        descriptor_pool: None,
        descriptor_set: None,
        resources: StagedOutputResources::Nv12 { sampled: ImageAllocation { image: 1, memory: 2 } },
    };
    let slot = importer.nv12_outputs.occupy(key, output);
    assert_eq!(importer.nv12_cache_stats().active_outputs, 1);
    let error = importer.claim_nv12_output(key).err().unwrap();
    assert_eq!(error.message(), "Vulkan NV12 output pool is saturated at 1 slots");
    assert_eq!(importer.nv12_cache_stats().output_pool_busy_rejections, 1);
    assert!(importer.nv12_outputs.release(slot).is_none());
    assert_eq!(importer.nv12_cache_stats().active_outputs, 0);
    match importer.claim_nv12_output(key).unwrap() {
        SlotClaim::Reuse(slot) => assert!(slot.resources == output),
        SlotClaim::Create { .. } => panic!("the slot is idle"),
    }

    importer.packed_staging_error = Some("no pipeline".to_string());
    let packed = PackedOutputKey { dimensions: (64, 32) };
    assert_eq!(
        importer.claim_packed_output(packed).err().unwrap().message(),
        "Vulkan packed BGRA staging pipeline is unavailable"
    );
}

#[test]
fn pools_make_room_by_dropping_an_idle_slot_of_another_shape() {
    let mut pool: OutputPool<PackedOutputKey, u8> = OutputPool::new(1);
    let small = PackedOutputKey { dimensions: (2, 2) };
    let large = PackedOutputKey { dimensions: (4, 4) };
    assert!(matches!(pool.claim(&small), Some(SlotClaim::Create { dropped: None })));
    let slot = pool.occupy(small, 1);
    assert!(pool.claim(&large).is_none());
    assert_eq!(pool.release(slot), None);
    assert!(matches!(pool.claim(&large), Some(SlotClaim::Create { dropped: Some(1) })));
    let slot = pool.occupy(large, 2);
    assert_eq!(pool.active_outputs(), 1);
    assert_eq!(pool.release(slot), None);
    let slot = match pool.claim(&large) {
        Some(SlotClaim::Reuse(slot)) => slot,
        _ => panic!("the slot has the right shape"),
    };
    assert_eq!(slot.resources, 2);
    let mut other: OutputPool<PackedOutputKey, u8> = OutputPool::new(1);
    assert_eq!(other.release(slot), Some(2));
}

/// Answers every action with the next number, until `fails` answers were given.
fn run(plan: OutputPlan, fails: usize) -> Result<(OutputBuild, Option<u64>), Vec<DeviceObject>> {
    let mut build = OutputBuild::new(plan);
    let mut handle: u64 = 100;
    let mut answers = 0;
    loop {
        let action = build.next();
        let failing = answers == fails;
        answers += 1;
        handle += 2;
        build = match action {
            OutputAction::CreateImage(_) => {
                let made = if failing {
                    Err(VulkanImportError::Other("image".to_string()))
                } else {
                    Ok(ImageAllocation { image: handle, memory: handle + 1 })
                };
                build.image_made(made).map_err(|failure| failure.destroy)?
            }
            OutputAction::CreateView { .. } => build
                .view_made(if failing { Err(-1) } else { Ok(handle) })
                .map_err(|failure| failure.destroy)?,
            OutputAction::CreateDescriptorPool { .. } => build
                .descriptor_pool_made(if failing { Err(-1) } else { Ok(handle) })
                .map_err(|failure| failure.destroy)?,
            OutputAction::AllocateDescriptorSet { .. } => {
                let (build, set) = build
                    .descriptor_set_made(if failing { Ok(None) } else { Ok(Some(handle)) })
                    .map_err(|failure| failure.destroy)?;
                return Ok((build, Some(set)));
            }
            OutputAction::Finish => return Ok((build, None)),
        };
    }
}

#[test]
fn staged_outputs_are_made_of_what_their_strategy_needs() {
    let strategy = Nv12ImportStrategy::LinearBufferToYuvPlanes;
    let kind = ComputeKind::Nv12(Nv12ComputeOutput::YuvPlanes);
    let plan = plan_staged_output((64, 32), strategy, Some(pipeline(kind)), Some(40)).unwrap();
    let (build, set) = run(plan, usize::MAX).unwrap();
    let output = finish_staged_output(build, strategy, set);
    let planes = StagedOutputResources::YuvPlanes {
        luma_view: 104,
        luma: ImageAllocation { image: 102, memory: 103 },
        chroma_view: 108,
        chroma: ImageAllocation { image: 106, memory: 107 },
    };
    assert_eq!(output.resources, planes);
    assert_eq!((output.descriptor_pool, output.descriptor_set), (Some(110), Some(112)));
    let writes = staged_descriptor_writes(output, 40).unwrap();
    assert_eq!(writes[0], DescriptorWrite::TexelBuffer { set: 112, binding: 0, view: 40 });
    assert_eq!(writes[1], DescriptorWrite::StorageImage { set: 112, binding: 1, view: 104 });
    assert_eq!(writes[2], DescriptorWrite::StorageImage { set: 112, binding: 2, view: 108 });

    assert_eq!(
        run(plan, 5).unwrap_err(),
        vec![
            DeviceObject::DescriptorPool(110),
            DeviceObject::ImageView(104),
            DeviceObject::Image(102),
            DeviceObject::Memory(103),
            DeviceObject::ImageView(108),
            DeviceObject::Image(106),
            DeviceObject::Memory(107),
        ]
    );
    assert_eq!(run(plan, 5).unwrap_err(), output.teardown());
    assert_eq!(run(plan, 4).unwrap_err(), output.teardown()[1..]);
    assert_eq!(
        run(plan, 3).unwrap_err(),
        vec![
            DeviceObject::Image(106),
            DeviceObject::Memory(107),
            DeviceObject::ImageView(104),
            DeviceObject::Image(102),
            DeviceObject::Memory(103),
        ]
    );
    assert!(run(plan, 0).unwrap_err().is_empty());
}

#[test]
fn transfer_outputs_carry_nothing_of_a_shader() {
    let strategy = Nv12ImportStrategy::LinearBufferToOptimalYuvPlanes;
    let plan = plan_staged_output((64, 32), strategy, None, None).unwrap();
    let (build, set) = run(plan, usize::MAX).unwrap();
    assert_eq!(set, None);
    let output = finish_staged_output(build, strategy, None);
    assert!(matches!(output.resources, StagedOutputResources::TransferYuvPlanes { .. }));
    assert_eq!(output.teardown().len(), 4);
    assert_eq!(
        staged_descriptor_writes(output, 40).unwrap_err(),
        "Vulkan transfer NV12 output has no compute descriptor set"
    );
    let rgba = pipeline(ComputeKind::Nv12(Nv12ComputeOutput::Rgba));
    assert_eq!(
        plan_staged_output((64, 32), strategy, Some(rgba), None).unwrap_err(),
        "Vulkan NV12 transfer output must not carry compute resources"
    );
    let compute = Nv12ImportStrategy::LinearBufferToYuvPlanes;
    assert_eq!(
        plan_staged_output((64, 32), compute, None, Some(1)).unwrap_err(),
        "Vulkan compute NV12 output is missing its compute pipeline"
    );
    assert_eq!(
        plan_staged_output((64, 32), compute, Some(rgba), None).unwrap_err(),
        "Vulkan compute NV12 output is missing its uniform texel-buffer view"
    );
    assert_eq!(
        plan_staged_output((64, 32), compute, Some(rgba), Some(1)).unwrap_err(),
        "Vulkan NV12 pipeline/output strategy mismatch"
    );
    let direct = Nv12ImportStrategy::DirectSampledImage;
    assert_eq!(
        plan_staged_output((64, 32), direct, Some(rgba), Some(1)).unwrap_err(),
        "direct NV12 import cannot allocate a staged output slot"
    );
}

#[test]
fn packed_outputs_are_written_through_another_format() {
    let plan = plan_packed_output((64, 32), pipeline(ComputeKind::Packed), 40);
    let (build, set) = run(plan, usize::MAX).unwrap();
    let output = finish_packed_output(build, set.unwrap());
    assert_eq!(output.storage_view, 104);
    assert_eq!(
        packed_descriptor_writes(output, 40)[1],
        DescriptorWrite::StorageImage { set: 108, binding: 1, view: 104 }
    );
    let mut build = OutputBuild::new(plan);
    build = build.image_made(Ok(ImageAllocation { image: 1, memory: 2 })).unwrap();
    assert_eq!(
        build.next(),
        OutputAction::CreateView { image: 1, format: STAGED_PACKED_STORAGE_VIEW_FORMAT }
    );
}

#[test]
fn pipelines_are_built_step_by_step_and_taken_down_on_failure() {
    let kind = ComputeKind::Nv12(Nv12ComputeOutput::YuvPlanes);
    assert_eq!(kind.bindings().len(), 3);
    assert_eq!(ComputeKind::Packed.bindings().len(), 2);
    assert_eq!(kind.push_constant_bytes(), 36);
    assert_eq!(ComputeKind::Packed.push_constant_bytes(), 20);
    let code = [0x03, 0x02, 0x23, 0x07, 1, 0, 0, 0];

    assert!(descriptor_layout_created(kind, Err(-1)).unwrap_err().destroy.is_empty());
    let step = descriptor_layout_created(kind, Ok(50)).unwrap();
    let failure = pipeline_layout_created(step, Err(-1), &code).unwrap_err();
    assert_eq!(failure.destroy, vec![DeviceObject::DescriptorSetLayout(50)]);
    let failure = pipeline_layout_created(step, Ok(51), &code[..7]).unwrap_err();
    assert_eq!(
        failure.destroy,
        vec![DeviceObject::PipelineLayout(51), DeviceObject::DescriptorSetLayout(50)]
    );
    let step = pipeline_layout_created(step, Ok(51), &code).unwrap();
    assert_eq!(step.words, vec![0x0723_0203, 1]);
    let step = shader_created(step, Ok(52)).unwrap();
    let failure = pipeline_created(step, vec![0], -2).unwrap_err();
    assert!(failure.destroy.contains(&DeviceObject::ShaderModule(52)));
    let (built, shader) = pipeline_created(step, vec![53], 0).unwrap();
    assert_eq!(shader, DeviceObject::ShaderModule(52));
    assert_eq!(
        built,
        ComputePipeline {
            kind,
            descriptor_set_layout: 50,
            pipeline_layout: 51,
            pipeline: 53
        }
    );
    assert_eq!(
        built.teardown(),
        vec![
            DeviceObject::Pipeline(53),
            DeviceObject::PipelineLayout(51),
            DeviceObject::DescriptorSetLayout(50),
        ]
    );
}

#[test]
fn shaders_are_little_endian_words() {
    let code = [0x03, 0x02, 0x23, 0x07, 0xff, 0, 0, 0x80];
    let words = vec![0x0723_0203, 0x8000_00ff];
    assert_eq!(shader_words(Nv12ComputeOutput::Rgba, &code).unwrap(), words);
    assert_eq!(packed_shader_words(&code).unwrap(), words);
    assert!(shader_words(Nv12ComputeOutput::YuvPlanes, &code[..6]).is_err());
    assert!(packed_shader_words(&code[..5]).is_err());
}

fn report(size: u64) -> MemoryReport {
    MemoryReport {
        size,
        type_bits: 0b0110,
        descriptor_type_bits: Ok(0b1100),
        type_count: 4,
    }
}

#[test]
fn imported_memory_has_to_fit_and_is_taken_down_on_failure() {
    let plan = plan_packed_image(packed_request());
    assert_eq!(plan.usage, DIRECT_PACKED_USAGE);
    assert!(direct_image_created(plan, Err(-1)).unwrap_err().destroy.is_empty());
    let step = direct_image_created(plan, Ok(60)).unwrap();
    let failure = imported_memory_reported(step, report(8193)).unwrap_err();
    assert_eq!(failure.destroy, vec![DeviceObject::Image(60)]);
    assert_eq!(
        failure.error.message(),
        "DMA-BUF object size 8192 is smaller than Vulkan import requirement 8193"
    );
    let none = MemoryReport { descriptor_type_bits: Ok(0b1000), ..report(8192) };
    assert_eq!(
        imported_memory_reported(step, none).unwrap_err().error.message(),
        "imported Vulkan DMA-BUF has no compatible memory type"
    );
    let step = imported_memory_reported(step, report(8192)).unwrap();
    assert_eq!((step.memory_type, step.source_fd), (2, 6));
    let failure = descriptor_duplicated(step, Err("full".to_string())).unwrap_err();
    assert_eq!(failure.destroy, vec![DeviceObject::Image(60)]);
    let step = descriptor_duplicated(step, Ok(61)).unwrap();
    let failure = imported_memory_allocated(step, Err(-1)).unwrap_err();
    assert_eq!(failure.destroy, vec![DeviceObject::Descriptor(61), DeviceObject::Image(60)]);
    let step = imported_memory_allocated(step, Ok(62)).unwrap();
    let failure = imported_memory_bound(step, Err(-1)).unwrap_err();
    assert_eq!(failure.destroy, vec![DeviceObject::Memory(62), DeviceObject::Image(60)]);
    match imported_memory_bound(step, Ok(())).unwrap() {
        ImportedAllocation::Image(image) => {
            assert_eq!(image, ImageAllocation { image: 60, memory: 62 });
            assert_eq!(
                image.teardown(),
                vec![DeviceObject::Image(60), DeviceObject::Memory(62)]
            );
        }
        ImportedAllocation::Buffer(_) => panic!("an image was imported"),
    }
}

#[test]
fn source_buffers_are_imported_with_the_whole_allocation() {
    assert!(plan_imported_buffer(-1, 64, BUFFER_USAGE_TRANSFER_SRC).is_err());
    assert!(plan_imported_buffer(3, 0, BUFFER_USAGE_TRANSFER_SRC).is_err());
    let plan = plan_imported_buffer(3, 64, BUFFER_USAGE_TRANSFER_SRC).unwrap();
    let step = imported_buffer_created(plan, Ok(70)).unwrap();
    let failure = imported_memory_reported(step, report(65)).unwrap_err();
    assert_eq!(
        failure.error.message(),
        "DMA-BUF allocation size 64 is smaller than Vulkan source-buffer requirement 65"
    );
    let step = imported_memory_reported(step, report(60)).unwrap();
    let step = descriptor_duplicated(step, Ok(71)).unwrap();
    let step = imported_memory_allocated(step, Ok(72)).unwrap();
    let buffer = match imported_memory_bound(step, Ok(())).unwrap() {
        ImportedAllocation::Buffer(buffer) => buffer,
        ImportedAllocation::Image(_) => panic!("a buffer was imported"),
    };
    assert_eq!(buffer, BufferAllocation { buffer: 70, memory: 72, size: 64 });
    let failure = nv12_source_view_created(buffer, Err(-1)).unwrap_err();
    assert_eq!(failure.destroy, vec![DeviceObject::Buffer(70), DeviceObject::Memory(72)]);
    let view = nv12_source_view_created(buffer, Ok(73)).unwrap();
    assert_eq!(view.compute_view(), Some(73));
    assert_eq!(view.teardown()[0], DeviceObject::BufferView(73));
    let view = packed_source_view_created(buffer, Ok(74)).unwrap();
    assert_eq!(view.teardown().len(), 3);
}

#[test]
fn sources_are_planned_by_their_strategy() {
    let importer = importer(Nv12StagingPreference::RequireRgba);
    let plan = importer.import_nv12_shared_object(request(resolve(&importer)), 1 << 20).unwrap();
    assert_eq!(
        plan_nv12_source((64, 32), 5, layout(), plan),
        SourcePlan::Buffer {
            usage: BUFFER_USAGE_UNIFORM_TEXEL_BUFFER,
            view: Some(BufferViewPlan {
                format: vk::Format::R32_UINT.as_raw(),
                range: 3072
            }),
        }
    );
    let direct = Nv12ImportPlan { strategy: Nv12ImportStrategy::DirectSampledImage, ..plan };
    match plan_nv12_source((64, 32), 5, layout(), direct) {
        SourcePlan::Image(image) => {
            assert_eq!(image.format, IMPORTED_NV12_FORMAT);
            assert_eq!(image.usage, DIRECT_NV12_USAGE);
            assert_eq!(image, plan_nv12_image((64, 32), 5, layout()));
        }
        SourcePlan::Buffer { .. } => panic!("a direct source is an image"),
    }
    let staged = PackedImageImportStrategy::LinearBufferToOptimalBgra;
    assert!(matches!(
        plan_packed_source(packed_request(), staged),
        SourcePlan::Buffer { view: Some(BufferViewPlan { range: 8192, .. }), .. }
    ));
}

#[test]
fn local_images_are_taken_down_on_failure() {
    assert!(local_image_created(Err(-1)).unwrap_err().destroy.is_empty());
    let step = local_image_created(Ok(80)).unwrap();
    let failure = local_memory_reported(step, 64, 0, 4).unwrap_err();
    assert_eq!(failure.destroy, vec![DeviceObject::Image(80)]);
    let step = local_memory_reported(step, 64, 0b100, 4).unwrap();
    assert_eq!((step.memory_type, step.allocation_size), (2, 64));
    let failure = local_memory_allocated(step, Err(-2)).unwrap_err();
    assert_eq!(
        failure.error.message(),
        "failed to allocate staged output memory: ERROR_OUT_OF_DEVICE_MEMORY"
    );
    let allocation = local_memory_allocated(step, Ok(81)).unwrap();
    assert_eq!(local_memory_bound(allocation, Err(-1)).unwrap_err().destroy.len(), 2);
    assert_eq!(local_memory_bound(allocation, Ok(())).unwrap(), allocation);
}

#[test]
fn scanout_images_need_memory_and_a_modifier() {
    let scanout = ScanoutImport {
        dimensions: (64, 32),
        source_fd: 3,
        source_size: 8192,
        modifier: 5,
        plane: ImportedPlane { offset: 0, pitch: 256 },
        usage: 0x10,
    };
    let modifiers = [DrmModifierProperties {
        modifier: 5,
        plane_count: 1,
        tiling_features: SCANOUT_FEATURES,
    }];
    let observed = |size| Ok(DmaBufProbe { device: 1, inode: 2, allocation_size: size });
    let importable = Ok(IMAGE_IMPORTABLE);
    let plan = plan_bgra_scanout(scanout, &modifiers, importable, observed(8192)).unwrap();
    let mut ids = ImportIds::new();
    let image = ImportedDmaBufImage::new_bgra_scanout(
        ids.issue(),
        plan,
        ImageAllocation { image: 1, memory: 2 },
    );
    assert_eq!(image.sampled_format(), SampledImageFormat::Bgra8888);
    assert_eq!((image.image(), image.dimensions(), image.modifier()), (1, (64, 32), 5));
    assert!(!image.is_staged());
    assert_eq!(image.acquire_plan(), AcquirePlan::DirectImage { image: 1 });
    let empty = ScanoutImport { source_size: 0, ..scanout };
    assert_eq!(
        plan_bgra_scanout(empty, &modifiers, importable, observed(0)).unwrap_err().message(),
        "Vulkan scanout import has a zero allocation size"
    );
    let invalid = ScanoutImport { source_fd: -1, ..scanout };
    assert_eq!(
        plan_bgra_scanout(invalid, &modifiers, importable, observed(8192)).unwrap_err().message(),
        "Vulkan imported image has an invalid DMA-BUF fd"
    );
    let other = ScanoutImport { modifier: 6, ..scanout };
    assert!(plan_bgra_scanout(other, &modifiers, importable, observed(8192)).is_err());
    assert!(plan_bgra_scanout(scanout, &modifiers, Err(-11), observed(8192)).is_err());
    let larger = plan_bgra_scanout(scanout, &modifiers, importable, observed(12288)).unwrap_err();
    assert!(larger.is_allocation_size());
    assert_eq!(
        larger.message(),
        "DMA-BUF declared allocation size 8192 does not match fd-backed allocation size 12288"
    );
    let unread = Err("DMA-BUF cannot be probed".to_string());
    let unread = plan_bgra_scanout(scanout, &modifiers, importable, unread).unwrap_err();
    assert_eq!(unread.message(), "Vulkan DMA-BUF cannot be probed");
}

#[test]
fn staged_frames_give_source_and_output_back() {
    let mut importer = importer(Nv12StagingPreference::RequireRgba);
    let capability = resolve(&importer);
    let plan = importer.import_nv12_shared_object(request(capability), 1 << 20).unwrap();
    let lease = claim(&mut importer, plan, 10);
    let key = Nv12OutputKey { dimensions: (64, 32), strategy: plan.strategy };
    let rgba = pipeline(ComputeKind::Nv12(Nv12ComputeOutput::Rgba));
    let output = StagedOutput {
        descriptor_pool: Some(90),
        descriptor_set: Some(91),
        resources: StagedOutputResources::Rgba {
            view: 92,
            sampled: ImageAllocation { image: 93, memory: 94 },
        },
    };
    assert!(matches!(
        importer.claim_nv12_output(key).unwrap(),
        SlotClaim::Create { dropped: None }
    ));
    let slot = importer.nv12_outputs.occupy(key, output);
    let mut ids = ImportIds::new();
    let staged = StagedNv12Request {
        dimensions: (64, 32),
        layout: layout(),
        conversion: conversion(),
        strategy: plan.strategy,
        sampled_format_features: capability.sampled_tiling_features,
    };
    let refused = create_staged_nv12(ids.issue(), staged, lease, source(), slot, None)
        .err()
        .unwrap();
    assert_eq!(refused.message, "Vulkan compute NV12 staging is missing its pipeline");
    let mut image = create_staged_nv12(
        ids.issue(),
        staged,
        refused.lease,
        source(),
        refused.output,
        Some(rgba),
    )
    .ok()
    .unwrap();
    assert_eq!(image.import_id().get(), 2);
    assert_eq!(image.sampled_format(), SampledImageFormat::Rgba8888);
    assert_eq!(image.image(), 93);
    assert!(image.staged_nv12_planes().is_none());
    let steps = record_acquire(image.acquire_plan(), 3, None).unwrap();
    assert!(steps.contains(&CommandStep::Dispatch { groups: (2, 1) }));
    match image.acquire_plan() {
        AcquirePlan::StagedCompute(plan) => {
            assert_eq!(plan.push_constants.words().len(), 9);
            assert_eq!(plan.push_constants.words()[..6], [64, 32, 0, 64, 2048, 64]);
            assert!(!plan.output_initialized);
        }
        _ => panic!("the frame is computed"),
    }
    image.mark_acquire_submitted();
    assert!(!image.staged_source_released());
    let mut packed: PackedSourceCache<u8> = SourceCache::new(1);
    assert!(image.release_staged_source(&mut importer.nv12_sources, &mut packed));
    assert!(!image.release_staged_source(&mut importer.nv12_sources, &mut packed));
    assert!(image.staged_source_released());
    assert_eq!(importer.nv12_cache_stats().active_sources, 0);
    let mut packed_outputs: OutputPool<PackedOutputKey, PackedOutput> = OutputPool::new(1);
    assert!(image
        .retire(
            &mut importer.nv12_sources,
            &mut packed,
            &mut importer.nv12_outputs,
            &mut packed_outputs,
        )
        .is_none());
    match importer.claim_nv12_output(key).unwrap() {
        SlotClaim::Reuse(slot) => assert!(slot.initialized),
        SlotClaim::Create { .. } => panic!("the slot is back"),
    }
}

#[test]
fn direct_frames_are_sampled_with_their_conversion() {
    let direct = Nv12ModifierCapability {
        modifier: DRM_FORMAT_MOD_LINEAR,
        strategy: Nv12ImportStrategy::DirectSampledImage,
        modifier_plane_count: 2,
        source_tiling_features: 0,
        sampled_tiling_features: 7,
        external_features: 0,
        compatible_handle_types: 0,
        max_extent: EXTENT,
    };
    let key = Nv12SourceCacheKey {
        stream_incarnation: 1,
        device: 1,
        inode: 1,
        topology: layout().frame_topology((64, 32)),
        strategy: Nv12ImportStrategy::DirectSampledImage,
    };
    let lease = || SourceLease { key, released: false };
    let mut ids = ImportIds::new();
    let sampled = ImageAllocation { image: 1, memory: 2 };
    let image = ImportedDmaBufImage::new_nv12_direct_shared_object(
        ids.issue(),
        (64, 32),
        layout(),
        conversion(),
        direct,
        lease(),
        Nv12SourceAllocation::Direct(sampled),
    )
    .ok()
    .unwrap();
    assert_eq!(image.sampled_format(), SampledImageFormat::Nv12);
    assert_eq!(image.sampled_usage(), DIRECT_NV12_USAGE);
    let sampling = image.direct_nv12_sampling().unwrap();
    assert_eq!((sampling.conversion, sampling.format_features), (conversion(), 7));
    assert_eq!(image.nv12_sampling(), Some(sampling));
    assert_eq!(image.sampled_tiling(), vk::ImageTiling::DRM_FORMAT_MODIFIER_EXT.as_raw());

    let refused = ImportedDmaBufImage::new_nv12_direct_shared_object(
        ids.issue(),
        (64, 32),
        layout(),
        conversion(),
        direct,
        lease(),
        Nv12SourceAllocation::Transfer { source: source() },
    )
    .err()
    .unwrap();
    assert_eq!(
        refused.message,
        "Vulkan direct NV12 import received a staged-buffer cache entry"
    );
}

#[test]
fn packed_sources_fit_their_strategy() {
    let key = PackedSourceCacheKey {
        stream_incarnation: 4,
        device: 1,
        inode: 1,
        topology: video_interop::vulkan::PackedSourceTopology {
            dimensions: (64, 32),
            object_size: 8192,
            modifier: 0,
            plane: ImportedPlane { offset: 0, pitch: 256 },
            format: PackedImageFormat::Bgra8888,
            strategy: PackedImageImportStrategy::LinearBufferToOptimalBgra,
        },
    };
    let lease = || SourceLease { key, released: false };
    let mut ids = ImportIds::new();
    let staged = PackedSourceAllocation::Staged { view: 40, source: source() };
    let refused = ImportedDmaBufImage::from_direct_packed_source(
        ids.issue(),
        packed_request(),
        lease(),
        staged,
    )
    .err()
    .unwrap();
    assert_eq!(
        refused.message,
        "Vulkan direct packed import received a staged-buffer cache entry"
    );
    let output = PackedOutput {
        descriptor_pool: 1,
        descriptor_set: 2,
        storage_view: 3,
        sampled: ImageAllocation { image: 4, memory: 5 },
    };
    let mut pool: OutputPool<PackedOutputKey, PackedOutput> = OutputPool::new(1);
    let slot = pool.occupy(PackedOutputKey { dimensions: (64, 32) }, output);
    let image = create_staged_packed(
        ids.issue(),
        packed_request(),
        lease(),
        staged,
        slot,
        pipeline(ComputeKind::Packed),
    )
    .ok()
    .unwrap();
    assert_eq!(image.sampled_format(), SampledImageFormat::Bgra8888);
    match image.acquire_plan() {
        AcquirePlan::StagedCompute(plan) => {
            assert_eq!(plan.push_constants.words()[..4], [64, 32, 0, 256]);
            assert_eq!(plan.dispatch, (4, 2));
        }
        _ => panic!("the image is computed"),
    }
}

#[test]
fn devices_are_read_by_their_queue_and_memory() {
    let families = [
        QueueFamilyProperties { queue_count: 1, queue_flags: 1, timestamp_valid_bits: 0 },
        QueueFamilyProperties { queue_count: 1, queue_flags: 6, timestamp_valid_bits: 0 },
    ];
    assert_eq!(selected_queue_flags(&families, 1), 6);
    assert_eq!(selected_queue_flags(&families, 2), 0);
    assert_eq!(select_memory_type(0b1010, 4).unwrap(), 1);
    assert_eq!(select_memory_type(1 << 31, 32).unwrap(), 31);
    assert!(select_memory_type(0b1000, 3).is_err());
    assert_eq!(imported_memory_type(0b0110, 0b1100, 4).unwrap(), 2);
    let report = optimal(0x1);
    assert_eq!(check_optimal_format(9, 0x1, report).unwrap(), (0x1, EXTENT));
    assert_eq!(
        check_optimal_format(9, 0x2, report).unwrap_err(),
        "optimal format 0x9 lacks required features 0x2 (available=0x1)"
    );
    let unsupported = OptimalFormatReport { features: 0x1, max_extent: Err(-11) };
    assert_eq!(
        check_optimal_format(9, 0x1, unsupported).unwrap_err(),
        "Vulkan optimal staging format 0x9 is unsupported: ERROR_FORMAT_NOT_SUPPORTED"
    );
}

fn frame(importer: &mut Importer, inode: u64, pipeline: Option<ComputePipeline>) -> Nv12Import {
    let request = request(resolve(importer));
    let plan = importer.import_nv12_shared_object(request, 1 << 20).unwrap();
    let lease = claim(importer, plan, inode);
    let source = Nv12SourceAllocation::Compute { view: 33, source: source() };
    Nv12Import { request, strategy: plan.strategy, lease, source, pipeline }
}

const ID: ImportId = ImportId { value: 7 };

#[test]
fn frames_get_an_output_and_then_share_it() {
    let mut importer = importer(Nv12StagingPreference::RequireRgba);
    let rgba = Some(pipeline(ComputeKind::Nv12(Nv12ComputeOutput::Rgba)));
    let first = frame(&mut importer, 10, rgba);
    let (staging, plan) = match importer.continue_nv12(ID, first) {
        Ok(FrameStep::Build { staging, plan, dropped: None }) => (staging, plan),
        _ => panic!("there is no output yet"),
    };
    let made = run(plan, usize::MAX).unwrap();
    let (image, writes) = importer.nv12_output_made(ID, staging, Ok(made)).ok().unwrap();
    assert_eq!(image.import_id(), ID);
    assert_eq!(image.image(), 102);
    assert_eq!(
        writes,
        [
            DescriptorWrite::TexelBuffer { set: 108, binding: 0, view: 33 },
            DescriptorWrite::StorageImage { set: 108, binding: 1, view: 104 },
        ]
    );
    assert_eq!(importer.nv12_cache_stats().active_outputs, 1);

    let second = frame(&mut importer, 11, rgba);
    let refused = importer.continue_nv12(ID, second).err().unwrap();
    assert_eq!(refused.error.message(), "Vulkan NV12 output pool is saturated at 1 slots");
    assert!(refused.orphan.is_none());
    let stats = importer.nv12_cache_stats();
    assert_eq!((stats.active_sources, stats.output_pool_busy_rejections), (1, 1));

    let orphan = image.retire(
        &mut importer.nv12_sources,
        &mut importer.packed_sources,
        &mut importer.nv12_outputs,
        &mut importer.packed_outputs,
    );
    assert!(orphan.is_none());
    let third = frame(&mut importer, 11, rgba);
    match importer.continue_nv12(ID, third) {
        Ok(FrameStep::Ready { image, .. }) => assert_eq!(image.image(), 102),
        _ => panic!("the output is idle"),
    }
}

#[test]
fn refused_frames_leave_nothing_claimed() {
    let mut importer = importer(Nv12StagingPreference::RequireRgba);
    let rgba = Some(pipeline(ComputeKind::Nv12(Nv12ComputeOutput::Rgba)));
    let planes = Some(pipeline(ComputeKind::Nv12(Nv12ComputeOutput::YuvPlanes)));

    let mismatched = frame(&mut importer, 10, planes);
    let refused = importer.continue_nv12(ID, mismatched).err().unwrap();
    assert_eq!(refused.error.message(), "Vulkan NV12 pipeline/output strategy mismatch");
    assert_eq!(importer.nv12_cache_stats().active_sources, 0);

    let unmade = frame(&mut importer, 10, rgba);
    let staging = match importer.continue_nv12(ID, unmade) {
        Ok(FrameStep::Build { staging, .. }) => staging,
        _ => panic!("there is no output yet"),
    };
    let error = VulkanImportError::Other("no memory".to_string());
    let refused = importer.nv12_output_made(ID, staging, Err(error)).err().unwrap();
    assert_eq!(refused.error.message(), "no memory");
    let stats = importer.nv12_cache_stats();
    assert_eq!((stats.active_sources, stats.output_slots), (0, 0));

    let undescribed = frame(&mut importer, 10, rgba);
    let (staging, plan) = match importer.continue_nv12(ID, undescribed) {
        Ok(FrameStep::Build { staging, plan, .. }) => (staging, plan),
        _ => panic!("there is no output yet"),
    };
    let (build, _) = run(plan, usize::MAX).unwrap();
    let refused = importer.nv12_output_made(ID, staging, Ok((build, None))).err().unwrap();
    assert_eq!(
        refused.error.message(),
        "Vulkan compute NV12 output is missing its descriptor set"
    );
    assert_eq!(
        refused.orphan.unwrap().teardown(),
        [
            DeviceObject::DescriptorPool(106),
            DeviceObject::ImageView(104),
            DeviceObject::Image(102),
            DeviceObject::Memory(103),
        ]
    );
    let stats = importer.nv12_cache_stats();
    assert_eq!((stats.active_sources, stats.output_slots), (0, 0));

    let made = frame(&mut importer, 10, rgba);
    let (mut staging, plan) = match importer.continue_nv12(ID, made) {
        Ok(FrameStep::Build { staging, plan, .. }) => (staging, plan),
        _ => panic!("there is no output yet"),
    };
    staging.request.layout.planes[1].offset = 1 << 32;
    let refused = importer
        .nv12_output_made(ID, staging, Ok(run(plan, usize::MAX).unwrap()))
        .err()
        .unwrap();
    assert_eq!(refused.error.message(), "Vulkan NV12 chroma offset exceeds u32");
    assert!(refused.orphan.is_none());
    let stats = importer.nv12_cache_stats();
    assert_eq!((stats.output_slots, stats.active_outputs), (1, 0));

    let mut far = frame(&mut importer, 10, rgba);
    far.request.layout.planes[0].offset = 1 << 32;
    let refused = importer.continue_nv12(ID, far).err().unwrap();
    assert_eq!(refused.error.message(), "Vulkan NV12 luma offset exceeds u32");
    let stats = importer.nv12_cache_stats();
    assert_eq!((stats.active_sources, stats.output_slots, stats.active_outputs), (0, 1, 0));

    let mut direct = frame(&mut importer, 10, rgba);
    direct.source = Nv12SourceAllocation::Direct(ImageAllocation { image: 1, memory: 2 });
    let refused = importer.continue_nv12(ID, direct).err().unwrap();
    assert_eq!(
        refused.error.message(),
        "Vulkan NV12 direct constructor received a staged capability"
    );
    assert_eq!(importer.nv12_cache_stats().active_sources, 0);
}

fn packed_frame(
    importer: &mut Importer,
    strategy: PackedImageImportStrategy,
    source: PackedSourceAllocation,
    pipeline: Option<ComputePipeline>,
) -> PackedImport {
    let request = packed_request();
    let probe = Ok(DmaBufProbe { device: 1, inode: 9, allocation_size: 8192 });
    let lease = match importer.begin_packed_claim(request, strategy, probe).unwrap() {
        SourceClaim::Cached(lease) => lease,
        SourceClaim::Import { key, generation } => {
            importer.finish_packed_claim(key, generation, Ok(source)).unwrap()
        }
    };
    assert_eq!(importer.packed_sources.source_of(&lease), Some(&source));
    PackedImport { request, strategy, lease, source, pipeline }
}

#[test]
fn packed_images_are_made_or_leave_nothing_claimed() {
    let mut importer = importer(Nv12StagingPreference::PreferPlanar);
    let strategy = PackedImageImportStrategy::LinearBufferToOptimalBgra;
    let staged = PackedSourceAllocation::Staged { view: 40, source: source() };
    let compute = Some(pipeline(ComputeKind::Packed));

    let unavailable = packed_frame(&mut importer, strategy, staged, None);
    let refused = importer.continue_packed(ID, unavailable).err().unwrap();
    assert_eq!(
        refused.error.message(),
        "Vulkan packed BGRA staging pipeline is unavailable"
    );
    let mut direct = packed_frame(&mut importer, strategy, staged, compute);
    direct.source = PackedSourceAllocation::Direct(ImageAllocation { image: 1, memory: 2 });
    let refused = importer.continue_packed(ID, direct).err().unwrap();
    assert_eq!(
        refused.error.message(),
        "Vulkan staged packed import received a direct-image cache entry"
    );
    let mut sampled = packed_frame(&mut importer, strategy, staged, compute);
    sampled.strategy = PackedImageImportStrategy::DirectSampledImage;
    let refused = importer.continue_packed(ID, sampled).err().unwrap();
    assert_eq!(
        refused.error.message(),
        "Vulkan direct packed import received a staged-buffer cache entry"
    );
    assert_eq!(importer.packed_cache_stats().active_sources, 0);

    let mut far = packed_frame(&mut importer, strategy, staged, compute);
    far.request.plane.offset = 1 << 32;
    let (staging, plan) = match importer.continue_packed(ID, far) {
        Ok(FrameStep::Build { staging, plan, dropped: None }) => (staging, plan),
        _ => panic!("there is no output yet"),
    };
    let (build, set) = run(plan, usize::MAX).unwrap();
    let refused = importer
        .packed_output_made(ID, staging, Ok((build, set.unwrap())))
        .err()
        .unwrap();
    assert_eq!(refused.error.message(), "Vulkan packed offset exceeds u32");
    assert!(refused.orphan.is_none());
    let stats = importer.packed_cache_stats();
    assert_eq!((stats.active_sources, stats.output_slots, stats.active_outputs), (0, 1, 0));

    let near = packed_frame(&mut importer, strategy, staged, compute);
    match importer.continue_packed(ID, near) {
        Ok(FrameStep::Ready { image, writes }) => {
            assert_eq!(image.image(), 102);
            assert_eq!(
                writes,
                [
                    DescriptorWrite::TexelBuffer { set: 108, binding: 0, view: 40 },
                    DescriptorWrite::StorageImage { set: 108, binding: 1, view: 104 },
                ]
            );
        }
        _ => panic!("the output is idle"),
    }
    assert_eq!(importer.packed_cache_stats().active_outputs, 1);
}
