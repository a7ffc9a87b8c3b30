use ash::vk;
use video_interop::vulkan::image::{Nv12PushConstants, PackedPushConstants};
use video_interop::vulkan::resources::ComputeKind;
use video_interop::vulkan::types::Nv12ComputeOutput;
use video_interop::vulkan::{packed_shader_words, shader_words};
use video_interop::vulkan::flags::contains;
use video_interop::vulkan::{
    claim_idle_source, map_nv12_colorimetry, nv12_multiplanar_transfer_regions,
    nv12_separate_transfer_regions, validate_nv12_modifier_capability,
    validate_nv12_shared_object_topology, validate_packed_layout, validate_transfer_layout,
    Extent3D, ImportedPlane, Nv12AllocationBindingRecipe, Nv12Conversion, Nv12FrameTopology,
    Nv12ImportStrategy, Nv12ModifierCapability, Nv12Plane, Nv12SharedObjectLayout,
    Nv12SourceCacheKey, PackedImageFormat, PackedImageImportStrategy, PackedSourceTopology,
    StagedSampledImages, StagedTransferPlan, VulkanImportPoolLimits, YcbcrModel, YcbcrOffset,
    YcbcrRange, DRM_FORMAT_MOD_LINEAR, STAGED_NV12_OUTPUT_USAGE, STAGED_NV12_SOURCE_TEXEL_FORMAT,
    STAGED_NV12_SOURCE_USAGE, STAGED_PACKED_OUTPUT_USAGE, STAGED_PACKED_SOURCE_TEXEL_FORMAT,
    STAGED_PACKED_SOURCE_USAGE, STAGED_PACKED_STORAGE_VIEW_FORMAT, TRANSFER_NV12_OUTPUT_USAGE,
    TRANSFER_NV12_SOURCE_USAGE, nv12_compute_source_span, nv12_transfer_source_span,
    resolve_nv12_modifier_capability, Nv12ResolveRequest,
};
use video_interop::{ChromaLocation, ColorRange, Colorimetry, Matrix, Primaries, Transfer};

fn raw(features: vk::FormatFeatureFlags) -> u32 {
    features.as_raw()
}

fn color(chroma_location: ChromaLocation) -> Colorimetry {
    Colorimetry {
        primaries: Primaries::Bt709,
        transfer: Transfer::Bt709,
        matrix: Matrix::Bt709,
        range: ColorRange::Limited,
        chroma_location,
    }
}

#[test]
fn tests_packed_formats_map_to_exact_vulkan_byte_orders_and_topology_keys() {
    assert_eq!(
        PackedImageFormat::Rgba8888.vk_format(),
        vk::Format::R8G8B8A8_UNORM.as_raw()
    );
    assert_eq!(
        PackedImageFormat::Bgra8888.vk_format(),
        vk::Format::B8G8R8A8_UNORM.as_raw()
    );
    let base = PackedSourceTopology {
        dimensions: (64, 32),
        object_size: 8_192,
        modifier: DRM_FORMAT_MOD_LINEAR,
        plane: ImportedPlane {
            offset: 0,
            pitch: 256,
        },
        format: PackedImageFormat::Bgra8888,
        strategy: PackedImageImportStrategy::DirectSampledImage,
    };
    assert_ne!(
        base,
        PackedSourceTopology {
            object_size: 8_448,
            ..base
        }
    );
    assert_ne!(
        base,
        PackedSourceTopology {
            format: PackedImageFormat::Rgba8888,
            ..base
        }
    );
    assert_ne!(
        base,
        PackedSourceTopology {
            strategy: PackedImageImportStrategy::LinearBufferToOptimalBgra,
            ..base
        }
    );
}

#[test]
fn tests_packed_layout_requires_exact_pitch_and_truthful_object_span() {
    let plane = ImportedPlane {
        offset: 64,
        pitch: 256,
    };
    assert!(validate_packed_layout((64, 32), 8_256, plane).is_ok());
    assert!(
        validate_packed_layout((64, 32), 8_255, plane)
            .unwrap_err()
            .contains("smaller than packed image span")
    );
    assert!(
        validate_packed_layout(
            (64, 32),
            8_256,
            ImportedPlane {
                offset: 64,
                pitch: 255,
            },
        )
        .unwrap_err()
        .contains("pitch")
    );
}

#[test]
fn tests_maps_exact_bt709_color_and_siting() {
    let conversion = map_nv12_colorimetry(color(ChromaLocation::Left)).unwrap();
    assert_eq!(conversion.model, YcbcrModel::Bt709);
    assert_eq!(conversion.range, YcbcrRange::Narrow);
    assert_eq!(conversion.x_offset, YcbcrOffset::CositedEven);
    assert_eq!(conversion.y_offset, YcbcrOffset::Midpoint);
    assert!(map_nv12_colorimetry(Colorimetry::default()).is_err());
    assert!(map_nv12_colorimetry(color(ChromaLocation::Bottom)).is_err());
}

#[test]
fn tests_validates_shared_linear_nv12_topology_without_trusting_modifier_plane_inventory() {
    let layout = validate_nv12_shared_object_topology(
        (64, 32),
        &[3_072],
        &[Some(DRM_FORMAT_MOD_LINEAR)],
        &[
            Nv12Plane {
                object_index: 0,
                offset: 0,
                pitch: 64,
            },
            Nv12Plane {
                object_index: 0,
                offset: 2_048,
                pitch: 64,
            },
        ],
    )
    .unwrap();
    assert_eq!(layout.object_size, 3_072);
    assert_eq!(layout.planes[1].offset, 2_048);
}

#[test]
fn tests_staged_capability_accepts_v3dv_one_plane_inventory_without_calling_it_direct() {
    let capability = Nv12ModifierCapability {
        modifier: DRM_FORMAT_MOD_LINEAR,
        strategy: Nv12ImportStrategy::LinearBufferToYuvPlanes,
        modifier_plane_count: 1,
        source_tiling_features: raw(vk::FormatFeatureFlags::TRANSFER_SRC),
        sampled_tiling_features: raw(vk::FormatFeatureFlags::SAMPLED_IMAGE
            | vk::FormatFeatureFlags::SAMPLED_IMAGE_FILTER_LINEAR
            | vk::FormatFeatureFlags::STORAGE_IMAGE
            | vk::FormatFeatureFlags::TRANSFER_SRC
            | vk::FormatFeatureFlags::TRANSFER_DST),
        external_features: vk::ExternalMemoryFeatureFlags::IMPORTABLE.as_raw(),
        compatible_handle_types: vk::ExternalMemoryHandleTypeFlags::DMA_BUF_EXT.as_raw(),
        max_extent: Extent3D {
            width: 4096,
            height: 4096,
            depth: 1,
        },
    };
    validate_nv12_modifier_capability(
        capability,
        (64, 32),
        map_nv12_colorimetry(color(ChromaLocation::Left)).unwrap(),
    )
    .unwrap();
    assert_eq!(
        capability.allocation_recipe(),
        Nv12AllocationBindingRecipe::LinearBufferToYuvPlanes
    );
}

#[test]
fn tests_transfer_capabilities_require_their_exact_sampling_and_transfer_features() {
    let conversion = map_nv12_colorimetry(color(ChromaLocation::Left)).unwrap();
    let capability = Nv12ModifierCapability {
        modifier: DRM_FORMAT_MOD_LINEAR,
        strategy: Nv12ImportStrategy::LinearBufferToOptimalNv12,
        modifier_plane_count: 1,
        source_tiling_features: raw(vk::FormatFeatureFlags::empty()),
        sampled_tiling_features: conversion.required_direct_features()
            | raw(vk::FormatFeatureFlags::TRANSFER_SRC | vk::FormatFeatureFlags::TRANSFER_DST),
        external_features: vk::ExternalMemoryFeatureFlags::IMPORTABLE.as_raw(),
        compatible_handle_types: vk::ExternalMemoryHandleTypeFlags::DMA_BUF_EXT.as_raw(),
        max_extent: Extent3D {
            width: 4096,
            height: 4096,
            depth: 1,
        },
    };
    validate_nv12_modifier_capability(capability, (64, 32), conversion).unwrap();
    let separate = Nv12ModifierCapability {
        strategy: Nv12ImportStrategy::LinearBufferToOptimalYuvPlanes,
        sampled_tiling_features: raw(vk::FormatFeatureFlags::SAMPLED_IMAGE
            | vk::FormatFeatureFlags::SAMPLED_IMAGE_FILTER_LINEAR
            | vk::FormatFeatureFlags::TRANSFER_SRC
            | vk::FormatFeatureFlags::TRANSFER_DST),
        ..capability
    };
    validate_nv12_modifier_capability(separate, (64, 32), conversion).unwrap();
    assert!(
        validate_nv12_modifier_capability(
            separate,
            (64, 32),
            Nv12Conversion {
                model: YcbcrModel::Bt601,
                ..conversion
            },
        )
        .is_err()
    );
    assert!(
        validate_nv12_modifier_capability(
            Nv12ModifierCapability {
                sampled_tiling_features: capability.sampled_tiling_features
                    & !raw(vk::FormatFeatureFlags::TRANSFER_DST),
                ..capability
            },
            (64, 32),
            conversion,
        )
        .is_err()
    );
}

#[test]
fn tests_staged_nv12_sources_declare_only_the_selected_read_operation() {
    assert!(STAGED_NV12_SOURCE_USAGE == vk::BufferUsageFlags::UNIFORM_TEXEL_BUFFER.as_raw());
    assert!(STAGED_NV12_SOURCE_TEXEL_FORMAT == vk::Format::R32_UINT.as_raw());
    assert!(!contains(STAGED_NV12_SOURCE_USAGE, vk::BufferUsageFlags::TRANSFER_SRC.as_raw()));
    assert!(TRANSFER_NV12_SOURCE_USAGE == vk::BufferUsageFlags::TRANSFER_SRC.as_raw());
    assert!(!contains(TRANSFER_NV12_SOURCE_USAGE, vk::BufferUsageFlags::STORAGE_BUFFER.as_raw()));
}

#[test]
fn tests_transfer_nv12_outputs_require_no_storage_usage() {
    assert!(contains(TRANSFER_NV12_OUTPUT_USAGE, vk::ImageUsageFlags::SAMPLED.as_raw()));
    assert!(contains(TRANSFER_NV12_OUTPUT_USAGE, vk::ImageUsageFlags::TRANSFER_SRC.as_raw()));
    assert!(contains(TRANSFER_NV12_OUTPUT_USAGE, vk::ImageUsageFlags::TRANSFER_DST.as_raw()));
    assert!(!contains(TRANSFER_NV12_OUTPUT_USAGE, vk::ImageUsageFlags::STORAGE.as_raw()));
    let capability = |strategy| Nv12ModifierCapability {
        modifier: DRM_FORMAT_MOD_LINEAR,
        strategy,
        modifier_plane_count: 1,
        source_tiling_features: raw(vk::FormatFeatureFlags::empty()),
        sampled_tiling_features: raw(vk::FormatFeatureFlags::empty()),
        external_features: vk::ExternalMemoryFeatureFlags::empty().as_raw(),
        compatible_handle_types: vk::ExternalMemoryHandleTypeFlags::empty().as_raw(),
        max_extent: Extent3D { width: 0, height: 0, depth: 0 },
    };
    assert_eq!(
        capability(Nv12ImportStrategy::LinearBufferToOptimalNv12).allocation_recipe(),
        Nv12AllocationBindingRecipe::LinearBufferToOptimalNv12
    );
    assert_eq!(
        capability(Nv12ImportStrategy::LinearBufferToOptimalYuvPlanes).allocation_recipe(),
        Nv12AllocationBindingRecipe::LinearBufferToOptimalYuvPlanes
    );
}

#[test]
fn tests_transfer_regions_preserve_exact_nv12_offsets_pitches_and_plane_extents() {
    let plan = StagedTransferPlan {
        source_buffer: 0,
        source_size: 3_824,
        output: StagedSampledImages::Nv12 {
            image: 0,
        },
        output_initialized: false,
        dimensions: (64, 32),
        planes: [
            ImportedPlane {
                offset: 0,
                pitch: 80,
            },
            ImportedPlane {
                offset: 2_560,
                pitch: 80,
            },
        ],
    };
    let regions = nv12_multiplanar_transfer_regions(plan);
    assert_eq!(regions[0].buffer_offset, 0);
    assert_eq!(regions[0].buffer_row_length, 80);
    assert!(regions[0].aspect == vk::ImageAspectFlags::PLANE_0.as_raw());
    assert_eq!(regions[0].width, 64);
    assert_eq!(regions[0].height, 32);
    assert_eq!(regions[1].buffer_offset, 2_560);
    assert_eq!(regions[1].buffer_row_length, 40);
    assert!(regions[1].aspect == vk::ImageAspectFlags::PLANE_1.as_raw());
    assert_eq!(regions[1].width, 32);
    assert_eq!(regions[1].height, 16);

    let separate = nv12_separate_transfer_regions(plan);
    assert!(
        separate
            .iter()
            .all(|region| region.aspect == vk::ImageAspectFlags::COLOR.as_raw())
    );
    assert_eq!(separate[0].buffer_row_length, 80);
    assert_eq!(separate[1].buffer_row_length, 40);
}

#[test]
fn tests_transfer_layout_fails_closed_on_unaligned_plane_offsets() {
    let layout = Nv12SharedObjectLayout {
        modifier: DRM_FORMAT_MOD_LINEAR,
        object_size: 3_840,
        planes: [
            ImportedPlane {
                offset: 2,
                pitch: 64,
            },
            ImportedPlane {
                offset: 2_048,
                pitch: 64,
            },
        ],
    };
    assert!(validate_transfer_layout((64, 32), layout).is_err());

    let valid = Nv12SharedObjectLayout {
        modifier: DRM_FORMAT_MOD_LINEAR,
        object_size: 3_840,
        planes: [
            ImportedPlane {
                offset: 0,
                pitch: 80,
            },
            ImportedPlane {
                offset: 2_560,
                pitch: 80,
            },
        ],
    };
    assert!(validate_transfer_layout((64, 32), valid).is_ok());
    assert_eq!(nv12_transfer_source_span((64, 32), valid).unwrap(), 3_824);

    let camera = Nv12SharedObjectLayout {
        modifier: DRM_FORMAT_MOD_LINEAR,
        object_size: 5_529_856,
        planes: [
            ImportedPlane {
                offset: 0,
                pitch: 2_560,
            },
            ImportedPlane {
                offset: 3_686_400,
                pitch: 2_560,
            },
        ],
    };
    assert_eq!(
        nv12_transfer_source_span((2_560, 1_440), camera).unwrap(),
        5_529_600
    );
    assert_eq!(camera.object_size - 5_529_600, 256);
    assert!(
        validate_transfer_layout(
            (64, 32),
            Nv12SharedObjectLayout {
                object_size: 3_800,
                ..valid
            },
        )
        .is_err()
    );
    assert!(
        validate_transfer_layout(
            (64, 32),
            Nv12SharedObjectLayout {
                planes: [
                    valid.planes[0],
                    ImportedPlane {
                        pitch: 79,
                        ..valid.planes[1]
                    },
                ],
                ..valid
            },
        )
        .is_err()
    );
    assert!(validate_transfer_layout((63, 32), valid).is_err());
}

#[test]
fn compute_nv12_source_span_excludes_allocation_tail_and_bounds_u32_addressing() {
    let camera = Nv12SharedObjectLayout {
        modifier: DRM_FORMAT_MOD_LINEAR,
        object_size: 5_529_856,
        planes: [
            ImportedPlane {
                offset: 0,
                pitch: 2_560,
            },
            ImportedPlane {
                offset: 3_686_400,
                pitch: 2_560,
            },
        ],
    };
    assert_eq!(
        nv12_compute_source_span((2_560, 1_440), camera).unwrap(),
        5_529_600
    );

    let overflow = Nv12SharedObjectLayout {
        modifier: DRM_FORMAT_MOD_LINEAR,
        object_size: u64::from(u32::MAX) + 4_097,
        planes: [
            ImportedPlane {
                offset: u64::from(u32::MAX) - 31,
                pitch: 64,
            },
            ImportedPlane {
                offset: 0,
                pitch: 64,
            },
        ],
    };
    assert!(nv12_compute_source_span((64, 32), overflow).unwrap() > u64::from(u32::MAX) + 1);
}

#[test]
fn tests_staged_packed_source_uses_bounded_texel_fetch_and_mutable_bgra_output() {
    assert!(STAGED_PACKED_SOURCE_USAGE == vk::BufferUsageFlags::UNIFORM_TEXEL_BUFFER.as_raw());
    assert!(STAGED_PACKED_SOURCE_TEXEL_FORMAT == vk::Format::R32_UINT.as_raw());
    assert!(STAGED_PACKED_STORAGE_VIEW_FORMAT == vk::Format::R32_UINT.as_raw());
    assert!(contains(STAGED_PACKED_OUTPUT_USAGE, vk::ImageUsageFlags::SAMPLED.as_raw()));
    assert!(contains(STAGED_PACKED_OUTPUT_USAGE, vk::ImageUsageFlags::STORAGE.as_raw()));
    assert!(!contains(STAGED_PACKED_SOURCE_USAGE, vk::BufferUsageFlags::TRANSFER_SRC.as_raw()));

    let bgra_word = |bytes: [u8; 4], format| match format {
        PackedImageFormat::Rgba8888 => {
            u32::from(bytes[2])
                | (u32::from(bytes[1]) << 8)
                | (u32::from(bytes[0]) << 16)
                | (u32::from(bytes[3]) << 24)
        }
        PackedImageFormat::Bgra8888 => {
            u32::from(bytes[0])
                | (u32::from(bytes[1]) << 8)
                | (u32::from(bytes[2]) << 16)
                | (255 << 24)
        }
    };
    assert_eq!(
        bgra_word([0x11, 0x22, 0x33, 0x44], PackedImageFormat::Rgba8888),
        0x4411_2233
    );
    assert_eq!(
        bgra_word([0x33, 0x22, 0x11, 0x00], PackedImageFormat::Bgra8888),
        0xff11_2233
    );
}

#[test]
fn tests_staged_outputs_declare_ganesh_transfer_compatibility_without_exposing_the_source() {
    assert!(contains(STAGED_NV12_OUTPUT_USAGE, vk::ImageUsageFlags::SAMPLED.as_raw()));
    assert!(contains(STAGED_NV12_OUTPUT_USAGE, vk::ImageUsageFlags::STORAGE.as_raw()));
    assert!(contains(STAGED_NV12_OUTPUT_USAGE, vk::ImageUsageFlags::TRANSFER_SRC.as_raw()));
    assert!(contains(STAGED_NV12_OUTPUT_USAGE, vk::ImageUsageFlags::TRANSFER_DST.as_raw()));
    assert!(!contains(STAGED_NV12_SOURCE_USAGE, vk::BufferUsageFlags::TRANSFER_SRC.as_raw()));
    assert!(!contains(STAGED_NV12_SOURCE_USAGE, vk::BufferUsageFlags::TRANSFER_DST.as_raw()));
}

#[test]
fn tests_default_import_pools_cover_camera_buffers_and_in_flight_outputs() {
    let limits = VulkanImportPoolLimits::default();
    assert!(limits.nv12_source_cache_entries >= 10);
    assert!(limits.nv12_output_slots >= 4);
    assert!(limits.packed_source_cache_entries >= 10);
    assert!(limits.packed_output_slots >= 4);
}

#[test]
fn tests_cached_source_active_reappearance_fails_closed_until_exact_release() {
    let mut claimed = false;
    claim_idle_source(&mut claimed).unwrap();
    assert!(claim_idle_source(&mut claimed).is_err());
    assert!(std::mem::replace(&mut claimed, false));
    claim_idle_source(&mut claimed).unwrap();
}

#[test]
fn tests_source_cache_identity_includes_stream_inode_and_exact_topology() {
    let topology = Nv12FrameTopology {
        dimensions: (64, 32),
        object_count: 1,
        object_size: 3_072,
        plane_count: 2,
        planes: [
            Nv12Plane {
                object_index: 0,
                offset: 0,
                pitch: 64,
            },
            Nv12Plane {
                object_index: 0,
                offset: 2_048,
                pitch: 64,
            },
        ],
        modifier: DRM_FORMAT_MOD_LINEAR,
    };
    let key = Nv12SourceCacheKey {
        stream_incarnation: 7,
        device: 3,
        inode: 11,
        topology,
        strategy: Nv12ImportStrategy::LinearBufferToYuvPlanes,
    };
    assert_ne!(
        key,
        Nv12SourceCacheKey {
            stream_incarnation: 8,
            ..key
        }
    );
    assert_ne!(key, Nv12SourceCacheKey { inode: 12, ..key });
    assert_ne!(
        key,
        Nv12SourceCacheKey {
            topology: Nv12FrameTopology {
                object_size: 3_328,
                ..topology
            },
            ..key
        }
    );
    assert_ne!(
        key,
        Nv12SourceCacheKey {
            strategy: Nv12ImportStrategy::LinearBufferToOptimalNv12,
            ..key
        }
    );
}

#[test]
fn tests_planar_chroma_coordinates_match_left_and_midpoint_definitions() {
    let reconstructed_coordinate = |pixel: u32, offset: YcbcrOffset| {
        let p = pixel as f32 + 0.5;
        let image_shader_coordinate = p * 0.5
            + match offset {
                YcbcrOffset::CositedEven => 0.25,
                YcbcrOffset::Midpoint => 0.0,
            };
        image_shader_coordinate - 0.5
    };
    assert_eq!(reconstructed_coordinate(0, YcbcrOffset::CositedEven), 0.0);
    assert_eq!(reconstructed_coordinate(1, YcbcrOffset::CositedEven), 0.5);
    assert_eq!(reconstructed_coordinate(0, YcbcrOffset::Midpoint), -0.25);
    assert_eq!(reconstructed_coordinate(1, YcbcrOffset::Midpoint), 0.25);
}

#[test]
fn resolver_uses_a_staged_candidate_when_direct_sampling_fails_exact_conversion() {
    let conversion = map_nv12_colorimetry(color(ChromaLocation::Left)).unwrap();
    let direct = Nv12ModifierCapability {
        modifier: DRM_FORMAT_MOD_LINEAR,
        strategy: Nv12ImportStrategy::DirectSampledImage,
        modifier_plane_count: 2,
        source_tiling_features: raw(vk::FormatFeatureFlags::SAMPLED_IMAGE),
        sampled_tiling_features: raw(vk::FormatFeatureFlags::SAMPLED_IMAGE),
        external_features: vk::ExternalMemoryFeatureFlags::IMPORTABLE.as_raw(),
        compatible_handle_types: vk::ExternalMemoryHandleTypeFlags::DMA_BUF_EXT.as_raw(),
        max_extent: Extent3D {
            width: 4_096,
            height: 4_096,
            depth: 1,
        },
    };
    let transfer = Nv12ModifierCapability {
        strategy: Nv12ImportStrategy::LinearBufferToOptimalYuvPlanes,
        modifier_plane_count: 1,
        sampled_tiling_features: raw(vk::FormatFeatureFlags::SAMPLED_IMAGE
            | vk::FormatFeatureFlags::SAMPLED_IMAGE_FILTER_LINEAR
            | vk::FormatFeatureFlags::TRANSFER_SRC
            | vk::FormatFeatureFlags::TRANSFER_DST),
        ..direct
    };
    let selected = resolve_nv12_modifier_capability(
        &[direct, transfer],
        Nv12ResolveRequest {
            modifier: DRM_FORMAT_MOD_LINEAR,
            dimensions: (2_560, 1_440),
            conversion,
        },
    )
    .unwrap();
    assert_eq!(
        selected.strategy,
        Nv12ImportStrategy::LinearBufferToOptimalYuvPlanes
    );
}

#[test]
fn tests_direct_capability_still_requires_truthful_two_plane_linear_filter_support() {
    let conversion = map_nv12_colorimetry(color(ChromaLocation::Left)).unwrap();
    let capability = Nv12ModifierCapability {
        modifier: 7,
        strategy: Nv12ImportStrategy::DirectSampledImage,
        modifier_plane_count: 1,
        source_tiling_features: conversion.required_direct_features(),
        sampled_tiling_features: conversion.required_direct_features(),
        external_features: vk::ExternalMemoryFeatureFlags::IMPORTABLE.as_raw(),
        compatible_handle_types: vk::ExternalMemoryHandleTypeFlags::DMA_BUF_EXT.as_raw(),
        max_extent: Extent3D {
            width: 4096,
            height: 4096,
            depth: 1,
        },
    };
    assert!(validate_nv12_modifier_capability(capability, (64, 32), conversion).is_err());
}

/// An empty compute shader with groups of sixteen by sixteen.
fn empty_compute_shader() -> Vec<u8> {
    let words: [u32; 35] = [
        0x0723_0203, 0x0001_0000, 0, 5, 0,
        0x0002_0011, 1,
        0x0003_000e, 0, 1,
        0x0005_000f, 5, 3, 0x6e69_616d, 0,
        0x0006_0010, 3, 17, 16, 16, 1,
        0x0002_0013, 1,
        0x0003_0021, 2, 1,
        0x0005_0036, 1, 3, 0, 2,
        0x0002_00f8, 4,
        0x0001_00fd,
        0x0001_0038,
    ];
    words.iter().flat_map(|word| word.to_le_bytes()).collect()
}

#[test]
fn tests_embedded_compute_shaders_are_valid_spirv() {
    let code = empty_compute_shader();
    for output in [Nv12ComputeOutput::Rgba, Nv12ComputeOutput::YuvPlanes] {
        let words = shader_words(output, &code).unwrap();
        assert_eq!(words.first().copied(), Some(0x0723_0203));
        assert!(words.len() > 16);
        assert!(ComputeKind::Nv12(output).push_constant_bytes() <= 128);
    }
    let packed = packed_shader_words(&code).unwrap();
    assert_eq!(packed.first().copied(), Some(0x0723_0203));
    assert!(packed.len() > 16);
    assert!(std::mem::size_of::<Nv12PushConstants>() <= 128);
    assert!(std::mem::size_of::<PackedPushConstants>() <= 128);
    assert!(ComputeKind::Packed.push_constant_bytes() <= 128);
}
