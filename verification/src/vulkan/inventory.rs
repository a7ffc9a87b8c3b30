//! From what a device reports to the import strategies that it can serve.

use vstd::prelude::*;

use crate::text::{agrees, bits_from_i32, bits_of_i32, hexadecimal, padded_hexadecimal, Message};
use crate::vulkan::capability::{is_importable, Nv12ModifierCapability};
use crate::vulkan::flags::{
    contains, has_all, has_any, intersects, ExternalMemoryFeatureFlags,
    ExternalMemoryHandleTypeFlags, ExternalSemaphoreFeatureFlags, ExternalSemaphoreHandleTypeFlags,
    FormatFeatureFlags, PixelFormat, QueueFlags, EXTERNAL_MEMORY_FEATURE_IMPORTABLE,
    EXTERNAL_MEMORY_HANDLE_TYPE_DMA_BUF, EXTERNAL_SEMAPHORE_FEATURE_IMPORTABLE,
    EXTERNAL_SEMAPHORE_HANDLE_TYPE_SYNC_FD, FORMAT_FEATURE_COLOR_ATTACHMENT,
    FORMAT_FEATURE_COSITED_CHROMA_SAMPLES, FORMAT_FEATURE_MIDPOINT_CHROMA_SAMPLES,
    FORMAT_FEATURE_SAMPLED_IMAGE, FORMAT_FEATURE_SAMPLED_IMAGE_FILTER_LINEAR,
    FORMAT_FEATURE_STORAGE_IMAGE, FORMAT_FEATURE_TRANSFER_DST, FORMAT_FEATURE_TRANSFER_SRC,
    FORMAT_FEATURE_UNIFORM_TEXEL_BUFFER, FORMAT_FEATURE_YCBCR_LINEAR_FILTER, QUEUE_COMPUTE,
    QUEUE_GRAPHICS, QUEUE_TRANSFER,
};
use crate::vulkan::result::{name_of_result, result_name};
use crate::vulkan::types::{
    Extent3D, Nv12ImportStrategy, Nv12StagingPreference, PackedImageFormat, DRM_FORMAT_MOD_LINEAR,
    IMPORTED_NV12_FORMAT, IMPORTED_RGBA_FORMAT, IMPORTED_SCANOUT_BGRA_FORMAT,
    STAGED_NV12_CHROMA_FORMAT, STAGED_NV12_LUMA_FORMAT,
};

verus! {

/// What a device reports for one modifier of a format.
#[derive(Clone, Copy, Debug, PartialEq, Eq, Structural)]
pub struct DrmModifierProperties {
    pub modifier: u64,
    pub plane_count: u32,
    pub tiling_features: FormatFeatureFlags,
}

/// What a device reports for external memory.
#[derive(Clone, Copy, Debug, PartialEq, Eq, Structural)]
pub struct ExternalMemoryProperties {
    pub features: ExternalMemoryFeatureFlags,
    pub compatible_handle_types: ExternalMemoryHandleTypeFlags,
}

/// What a device reports for importing images with one modifier.
#[derive(Clone, Copy, Debug, PartialEq, Eq, Structural)]
pub struct ExternalModifierCapability {
    pub external_features: ExternalMemoryFeatureFlags,
    pub compatible_handle_types: ExternalMemoryHandleTypeFlags,
    pub max_extent: Extent3D,
}

/// What a device reports for optimal images of one format and usage: the features of the format,
/// and the largest extent or the result code of the query for it.
#[derive(Clone, Copy, Debug, PartialEq, Eq)]
pub struct OptimalFormatReport {
    pub features: FormatFeatureFlags,
    pub max_extent: Result<Extent3D, i32>,
}

/// What a device reports for one queue family.
#[derive(Clone, Copy, Debug, PartialEq, Eq, Structural)]
pub struct QueueFamilyProperties {
    pub queue_count: u32,
    pub queue_flags: QueueFlags,
    pub timestamp_valid_bits: u32,
}

/// The flags that `selected_queue_flags` returns.
pub open spec fn queue_flags_of(families: Seq<QueueFamilyProperties>, index: u32) -> QueueFlags {
    if index < families.len() && families[index as int].queue_count > 0 {
        families[index as int].queue_flags
    } else {
        0
    }
}

/// What the selected queue can do: nothing, where its family does not exist or holds no queue.
pub fn selected_queue_flags(families: &[QueueFamilyProperties], index: u32) -> (flags: QueueFlags)
    ensures
        flags == queue_flags_of(families@, index),
{
    if (index as usize) < families.len() {
        let family = families[index as usize];
        if family.queue_count > 0 {
            return family.queue_flags;
        }
    }
    0
}

/// What `validate_external_import` returns.
pub open spec fn external_import_verdict(
    properties: ExternalMemoryProperties,
    label: Seq<char>,
) -> Result<(), Seq<char>> {
    if !is_importable(properties.features, properties.compatible_handle_types) {
        Err(label + " is not Vulkan DMA-BUF importable"@)
    } else {
        Ok(())
    }
}

/// Checks that memory can be imported from a DMA-BUF.
pub fn validate_external_import(properties: ExternalMemoryProperties, label: &str) -> (result:
    Result<(), String>)
    ensures
        agrees(result, external_import_verdict(properties, label@)),
{
    if !contains(properties.features, EXTERNAL_MEMORY_FEATURE_IMPORTABLE) || !contains(
        properties.compatible_handle_types,
        EXTERNAL_MEMORY_HANDLE_TYPE_DMA_BUF,
    ) {
        return Err(Message::new(label).text(" is not Vulkan DMA-BUF importable").done());
    }
    Ok(())
}

/// Some reported modifier is the wanted one, has one plane and has the required features.
pub open spec fn has_single_plane_modifier(
    modifiers: Seq<DrmModifierProperties>,
    modifier: u64,
    required: FormatFeatureFlags,
) -> bool {
    exists|index: int|
        0 <= index < modifiers.len() && (#[trigger] modifiers[index]).modifier == modifier
            && modifiers[index].plane_count == 1 && has_all(
            modifiers[index].tiling_features,
            required,
        )
}

/// The diagnostic for a modifier whose import query failed.
pub open spec fn modifier_query_text(format: PixelFormat, modifier: u64, code: i32) -> Seq<char> {
    "Vulkan DMA-BUF modifier 0x"@ + padded_hexadecimal(modifier as nat, 16)
        + " is not importable for format 0x"@ + hexadecimal(bits_of_i32(format)) + ": "@
        + result_name(code)
}

/// What `validate_direct_modifier` returns.
pub open spec fn direct_modifier_verdict(
    modifiers: Seq<DrmModifierProperties>,
    format: PixelFormat,
    modifier: u64,
    required: FormatFeatureFlags,
    label: Seq<char>,
    external: Result<ExternalModifierCapability, i32>,
) -> Result<(), Seq<char>> {
    if !has_single_plane_modifier(modifiers, modifier, required) {
        Err(
            "Vulkan device cannot use one-plane "@ + label + " DMA-BUF modifier 0x"@
                + padded_hexadecimal(modifier as nat, 16),
        )
    } else {
        match external {
            Err(code) => Err(modifier_query_text(format, modifier, code)),
            Ok(external) => external_import_verdict(
                ExternalMemoryProperties {
                    features: external.external_features,
                    compatible_handle_types: external.compatible_handle_types,
                },
                label,
            ),
        }
    }
}

/// Checks that a packed image with this modifier can be imported and used directly. `modifiers` is
/// what the device reports for the format, `external` its answer for the modifier.
pub fn validate_direct_modifier(
    modifiers: &[DrmModifierProperties],
    format: PixelFormat,
    modifier: u64,
    required: FormatFeatureFlags,
    label: &str,
    external: Result<ExternalModifierCapability, i32>,
) -> (result: Result<(), String>)
    ensures
        agrees(
            result,
            direct_modifier_verdict(modifiers@, format, modifier, required, label@, external),
        ),
{
    let mut found = false;
    let mut index: usize = 0;
    while index < modifiers.len()
        invariant
            index <= modifiers.len(),
            found ==> has_single_plane_modifier(modifiers@, modifier, required),
            !found ==> forall|before: int|
                0 <= before < index ==> !((#[trigger] modifiers@[before]).modifier == modifier
                    && modifiers@[before].plane_count == 1 && has_all(
                    modifiers@[before].tiling_features,
                    required,
                )),
        decreases modifiers.len() - index,
    {
        let candidate = modifiers[index];
        if candidate.modifier == modifier && candidate.plane_count == 1 && contains(
            candidate.tiling_features,
            required,
        ) {
            assert(modifiers@[index as int].modifier == modifier);
            found = true;
        }
        index += 1;
    }
    if !found {
        return Err(
            Message::new("Vulkan device cannot use one-plane ").text(label).text(
                " DMA-BUF modifier 0x",
            ).hex16(modifier).done(),
        );
    }
    match external {
        Err(code) => Err(
            Message::new("Vulkan DMA-BUF modifier 0x").hex16(modifier).text(
                " is not importable for format 0x",
            ).hex(bits_from_i32(format) as u64).text(": ").text(
                name_of_result(code).as_str(),
            ).done(),
        ),
        Ok(external) => validate_external_import(
            ExternalMemoryProperties {
                features: external.external_features,
                compatible_handle_types: external.compatible_handle_types,
            },
            label,
        ),
    }
}

/// What the scanout of a packed image needs of its modifier.
pub const SCANOUT_FEATURES: FormatFeatureFlags = FORMAT_FEATURE_COLOR_ATTACHMENT
    | FORMAT_FEATURE_TRANSFER_SRC | FORMAT_FEATURE_TRANSFER_DST;

/// What the direct sampling of a packed image needs of its modifier.
pub const DIRECT_PACKED_FEATURES: FormatFeatureFlags = FORMAT_FEATURE_SAMPLED_IMAGE
    | FORMAT_FEATURE_TRANSFER_SRC | FORMAT_FEATURE_TRANSFER_DST | FORMAT_FEATURE_COLOR_ATTACHMENT;

/// Checks that a BGRA image with this modifier can be imported for scanout.
pub fn validate_bgra_scanout_import_support(
    modifiers: &[DrmModifierProperties],
    modifier: u64,
    external: Result<ExternalModifierCapability, i32>,
) -> (result: Result<(), String>)
    ensures
        agrees(
            result,
            direct_modifier_verdict(
                modifiers@,
                IMPORTED_SCANOUT_BGRA_FORMAT,
                modifier,
                SCANOUT_FEATURES,
                "B8G8R8A8"@,
                external,
            ),
        ),
{
    validate_direct_modifier(
        modifiers,
        IMPORTED_SCANOUT_BGRA_FORMAT,
        modifier,
        SCANOUT_FEATURES,
        "B8G8R8A8",
        external,
    )
}

/// What `validate_packed_import_support` returns.
pub open spec fn packed_import_verdict(
    modifiers: Seq<DrmModifierProperties>,
    format: PackedImageFormat,
    modifier: u64,
    external: Result<ExternalModifierCapability, i32>,
) -> Result<(), Seq<char>> {
    direct_modifier_verdict(
        modifiers,
        format.format_code(),
        modifier,
        DIRECT_PACKED_FEATURES,
        format.label_text(),
        external,
    )
}

/// Checks that a packed image with this modifier can be imported and sampled.
pub fn validate_packed_import_support(
    modifiers: &[DrmModifierProperties],
    format: PackedImageFormat,
    modifier: u64,
    external: Result<ExternalModifierCapability, i32>,
) -> (result: Result<(), String>)
    ensures
        agrees(result, packed_import_verdict(modifiers@, format, modifier, external)),
{
    validate_direct_modifier(
        modifiers,
        format.vk_format(),
        modifier,
        DIRECT_PACKED_FEATURES,
        format.label(),
        external,
    )
}

/// Checks that an RGBA image with this modifier can be imported and sampled.
pub fn validate_rgba_import_support(
    modifiers: &[DrmModifierProperties],
    modifier: u64,
    external: Result<ExternalModifierCapability, i32>,
) -> (result: Result<(), String>)
    ensures
        agrees(
            result,
            packed_import_verdict(modifiers@, PackedImageFormat::Rgba8888, modifier, external),
        ),
{
    validate_packed_import_support(modifiers, PackedImageFormat::Rgba8888, modifier, external)
}

/// What `check_optimal_format` returns.
pub open spec fn optimal_format_verdict(
    format: PixelFormat,
    required: FormatFeatureFlags,
    report: OptimalFormatReport,
) -> Result<(FormatFeatureFlags, Extent3D), Seq<char>> {
    if !has_all(report.features, required) {
        Err(
            "optimal format 0x"@ + hexadecimal(bits_of_i32(format)) + " lacks required features 0x"@
                + hexadecimal(required as nat) + " (available=0x"@ + hexadecimal(
                report.features as nat,
            ) + ")"@,
        )
    } else {
        match report.max_extent {
            Err(code) => Err(
                "Vulkan optimal staging format 0x"@ + hexadecimal(bits_of_i32(format))
                    + " is unsupported: "@ + result_name(code),
            ),
            Ok(extent) => Ok((report.features, extent)),
        }
    }
}

/// Checks that optimal images of a format have the required features, and returns what the device
/// reports for them.
pub fn check_optimal_format(
    format: PixelFormat,
    required: FormatFeatureFlags,
    report: OptimalFormatReport,
) -> (result: Result<(FormatFeatureFlags, Extent3D), String>)
    ensures
        agrees(result, optimal_format_verdict(format, required, report)),
{
    if !contains(report.features, required) {
        return Err(
            Message::new("optimal format 0x").hex(bits_from_i32(format) as u64).text(
                " lacks required features 0x",
            ).hex(required as u64).text(" (available=0x").hex(report.features as u64).text(
                ")",
            ).done(),
        );
    }
    match report.max_extent {
        Err(code) => Err(
            Message::new("Vulkan optimal staging format 0x").hex(
                bits_from_i32(format) as u64,
            ).text(" is unsupported: ").text(name_of_result(code).as_str()).done(),
        ),
        Ok(extent) => Ok((report.features, extent)),
    }
}

/// What a device reports for staging packed images.
#[derive(Clone, Copy, Debug, PartialEq, Eq)]
pub struct PackedStagingReport {
    pub queue_flags: QueueFlags,
    /// External memory of uniform texel buffers.
    pub source: ExternalMemoryProperties,
    /// Buffer features of the source texel format.
    pub source_texel_features: FormatFeatureFlags,
    /// Optimal BGRA images that can be viewed in another format.
    pub output: OptimalFormatReport,
    /// Optimal features of the storage view format.
    pub storage_view_features: FormatFeatureFlags,
}

/// What the output of packed staging needs of its format.
pub const STAGED_PACKED_OUTPUT_FEATURES: FormatFeatureFlags = FORMAT_FEATURE_SAMPLED_IMAGE
    | FORMAT_FEATURE_STORAGE_IMAGE | FORMAT_FEATURE_TRANSFER_SRC | FORMAT_FEATURE_TRANSFER_DST;

/// What `validate_packed_staging_support` returns.
pub open spec fn packed_staging_verdict(
    format: PackedImageFormat,
    modifier: u64,
    report: PackedStagingReport,
) -> Result<(), Seq<char>> {
    let external = external_import_verdict(
        report.source,
        "linear "@ + format.label_text() + " source buffer"@,
    );
    let output = optimal_format_verdict(
        IMPORTED_SCANOUT_BGRA_FORMAT,
        STAGED_PACKED_OUTPUT_FEATURES,
        report.output,
    );
    if modifier != DRM_FORMAT_MOD_LINEAR {
        Err(
            "Vulkan packed buffer staging requires linear modifier 0, got 0x"@ + padded_hexadecimal(
                modifier as nat,
                16,
            ),
        )
    } else if !has_all(report.queue_flags, QUEUE_COMPUTE) {
        Err("selected Vulkan queue does not support packed compute staging"@)
    } else if external is Err {
        external
    } else if !has_all(report.source_texel_features, FORMAT_FEATURE_UNIFORM_TEXEL_BUFFER) {
        Err("Vulkan R32_UINT packed source lacks uniform-texel-buffer support"@)
    } else if output is Err {
        Err(output->Err_0)
    } else if !has_all(report.storage_view_features, FORMAT_FEATURE_STORAGE_IMAGE) {
        Err("Vulkan R32_UINT packed output view lacks storage-image support"@)
    } else {
        Ok(())
    }
}

/// Checks that linear packed pixels can be copied by compute into an optimal BGRA image.
pub fn validate_packed_staging_support(
    format: PackedImageFormat,
    modifier: u64,
    report: PackedStagingReport,
) -> (result: Result<(), String>)
    ensures
        agrees(result, packed_staging_verdict(format, modifier, report)),
{
    if modifier != DRM_FORMAT_MOD_LINEAR {
        return Err(
            Message::new("Vulkan packed buffer staging requires linear modifier 0, got 0x").hex16(
                modifier,
            ).done(),
        );
    }
    if !contains(report.queue_flags, QUEUE_COMPUTE) {
        return Err("selected Vulkan queue does not support packed compute staging".to_owned());
    }
    let label = Message::new("linear ").text(format.label()).text(" source buffer").done();
    match validate_external_import(report.source, label.as_str()) {
        Ok(()) => {},
        Err(message) => return Err(message),
    }
    if !contains(report.source_texel_features, FORMAT_FEATURE_UNIFORM_TEXEL_BUFFER) {
        return Err("Vulkan R32_UINT packed source lacks uniform-texel-buffer support".to_owned());
    }
    match check_optimal_format(
        IMPORTED_SCANOUT_BGRA_FORMAT,
        STAGED_PACKED_OUTPUT_FEATURES,
        report.output,
    ) {
        Ok(_) => {},
        Err(message) => return Err(message),
    }
    if !contains(report.storage_view_features, FORMAT_FEATURE_STORAGE_IMAGE) {
        return Err("Vulkan R32_UINT packed output view lacks storage-image support".to_owned());
    }
    Ok(())
}

/// What a device reports for staging linear biplanar frames.
#[derive(Clone, Copy, Debug, PartialEq, Eq)]
pub struct Nv12StagingReport {
    pub queue_flags: QueueFlags,
    /// External memory of transfer-source buffers.
    pub transfer_source: ExternalMemoryProperties,
    /// External memory of uniform texel buffers.
    pub texel_source: ExternalMemoryProperties,
    /// Buffer features of the source texel format.
    pub source_texel_features: FormatFeatureFlags,
    /// Multi-planar images with the usage of transfer outputs.
    pub transfer_nv12: OptimalFormatReport,
    /// Luma images with the usage of transfer outputs.
    pub transfer_luma: OptimalFormatReport,
    /// Chroma images with the usage of transfer outputs.
    pub transfer_chroma: OptimalFormatReport,
    /// Luma images with the usage of compute outputs.
    pub compute_luma: OptimalFormatReport,
    /// Chroma images with the usage of compute outputs.
    pub compute_chroma: OptimalFormatReport,
    /// RGBA images with the usage of compute outputs.
    pub compute_rgba: OptimalFormatReport,
}

/// What a multi-planar transfer output needs of its format.
pub const TRANSFER_NV12_FEATURES: FormatFeatureFlags = FORMAT_FEATURE_SAMPLED_IMAGE
    | FORMAT_FEATURE_SAMPLED_IMAGE_FILTER_LINEAR | FORMAT_FEATURE_YCBCR_LINEAR_FILTER
    | FORMAT_FEATURE_MIDPOINT_CHROMA_SAMPLES | FORMAT_FEATURE_COSITED_CHROMA_SAMPLES
    | FORMAT_FEATURE_TRANSFER_SRC | FORMAT_FEATURE_TRANSFER_DST;

/// What a transfer output of one plane needs of its format.
pub const TRANSFER_PLANE_FEATURES: FormatFeatureFlags = FORMAT_FEATURE_SAMPLED_IMAGE
    | FORMAT_FEATURE_SAMPLED_IMAGE_FILTER_LINEAR | FORMAT_FEATURE_TRANSFER_SRC
    | FORMAT_FEATURE_TRANSFER_DST;

/// What a compute output needs of its format.
pub const COMPUTE_OUTPUT_FEATURES: FormatFeatureFlags = FORMAT_FEATURE_SAMPLED_IMAGE
    | FORMAT_FEATURE_SAMPLED_IMAGE_FILTER_LINEAR | FORMAT_FEATURE_STORAGE_IMAGE
    | FORMAT_FEATURE_TRANSFER_SRC | FORMAT_FEATURE_TRANSFER_DST;

/// Twice `value`, or the largest value where that is too large.
pub open spec fn doubled(value: u32) -> int {
    if value * 2 > u32::MAX {
        u32::MAX as int
    } else {
        value * 2
    }
}

/// The extent up to which a luma image and a chroma image of half the size both reach.
pub open spec fn common_extent(luma: Extent3D, chroma: Extent3D) -> Extent3D {
    Extent3D {
        width: if luma.width <= doubled(chroma.width) {
            luma.width
        } else {
            doubled(chroma.width) as u32
        },
        height: if luma.height <= doubled(chroma.height) {
            luma.height
        } else {
            doubled(chroma.height) as u32
        },
        depth: 1,
    }
}

/// What `check_planes` returns.
pub open spec fn planes_verdict(
    required: FormatFeatureFlags,
    luma: OptimalFormatReport,
    chroma: OptimalFormatReport,
) -> Result<(FormatFeatureFlags, Extent3D), Seq<char>> {
    match optimal_format_verdict(STAGED_NV12_LUMA_FORMAT, required, luma) {
        Err(text) => Err(text),
        Ok((luma_features, luma_extent)) => match optimal_format_verdict(
            STAGED_NV12_CHROMA_FORMAT,
            required,
            chroma,
        ) {
            Err(text) => Err(text),
            Ok((chroma_features, chroma_extent)) => Ok(
                (luma_features & chroma_features, common_extent(luma_extent, chroma_extent)),
            ),
        },
    }
}

fn smaller(left: u32, right: u32) -> (least: u32)
    ensures
        least == (if left <= right {
            left
        } else {
            right
        }),
{
    if left <= right {
        left
    } else {
        right
    }
}

fn twice(value: u32) -> (result: u32)
    ensures
        result == doubled(value),
{
    if value > 0x7fff_ffff {
        u32::MAX
    } else {
        value * 2
    }
}

fn check_planes(
    required: FormatFeatureFlags,
    luma: OptimalFormatReport,
    chroma: OptimalFormatReport,
) -> (result: Result<(FormatFeatureFlags, Extent3D), String>)
    ensures
        agrees(result, planes_verdict(required, luma, chroma)),
{
    let (luma_features, luma_extent): (u32, Extent3D) = match check_optimal_format(
        STAGED_NV12_LUMA_FORMAT,
        required,
        luma,
    ) {
        Ok(found) => found,
        Err(message) => return Err(message),
    };
    let (chroma_features, chroma_extent): (u32, Extent3D) = match check_optimal_format(
        STAGED_NV12_CHROMA_FORMAT,
        required,
        chroma,
    ) {
        Ok(found) => found,
        Err(message) => return Err(message),
    };
    Ok(
        (
            luma_features & chroma_features,
            Extent3D {
                width: smaller(luma_extent.width, twice(chroma_extent.width)),
                height: smaller(luma_extent.height, twice(chroma_extent.height)),
                depth: 1,
            },
        ),
    )
}

/// The capability for a staged strategy.
pub open spec fn staged_capability(
    linear: DrmModifierProperties,
    strategy: Nv12ImportStrategy,
    source: ExternalMemoryProperties,
    output: (FormatFeatureFlags, Extent3D),
) -> Nv12ModifierCapability {
    Nv12ModifierCapability {
        modifier: DRM_FORMAT_MOD_LINEAR,
        strategy,
        modifier_plane_count: linear.plane_count,
        source_tiling_features: linear.tiling_features,
        sampled_tiling_features: output.0,
        external_features: source.features,
        compatible_handle_types: source.compatible_handle_types,
        max_extent: output.1,
    }
}

fn make_staged_capability(
    linear: DrmModifierProperties,
    strategy: Nv12ImportStrategy,
    source: ExternalMemoryProperties,
    output: (FormatFeatureFlags, Extent3D),
) -> (capability: Nv12ModifierCapability)
    ensures
        capability == staged_capability(linear, strategy, source, output),
{
    Nv12ModifierCapability {
        modifier: DRM_FORMAT_MOD_LINEAR,
        strategy,
        modifier_plane_count: linear.plane_count,
        source_tiling_features: linear.tiling_features,
        sampled_tiling_features: output.0,
        external_features: source.features,
        compatible_handle_types: source.compatible_handle_types,
        max_extent: output.1,
    }
}

/// What `linear_nv12_transfer_capability` returns.
pub open spec fn transfer_capability_verdict(
    linear: DrmModifierProperties,
    report: Nv12StagingReport,
) -> Result<Nv12ModifierCapability, Seq<char>> {
    let external = external_import_verdict(
        report.transfer_source,
        "linear NV12 transfer-source buffer"@,
    );
    if !has_any(report.queue_flags, QUEUE_GRAPHICS | QUEUE_COMPUTE | QUEUE_TRANSFER) {
        Err("selected Vulkan queue cannot execute buffer-to-image transfers"@)
    } else if external is Err {
        Err(external->Err_0)
    } else {
        match optimal_format_verdict(
            IMPORTED_NV12_FORMAT,
            TRANSFER_NV12_FEATURES,
            report.transfer_nv12,
        ) {
            Ok(output) => Ok(
                staged_capability(
                    linear,
                    Nv12ImportStrategy::LinearBufferToOptimalNv12,
                    report.transfer_source,
                    output,
                ),
            ),
            Err(multi_planar) => match planes_verdict(
                TRANSFER_PLANE_FEATURES,
                report.transfer_luma,
                report.transfer_chroma,
            ) {
                Ok(output) => Ok(
                    staged_capability(
                        linear,
                        Nv12ImportStrategy::LinearBufferToOptimalYuvPlanes,
                        report.transfer_source,
                        output,
                    ),
                ),
                Err(planes) => Err(
                    "Vulkan NV12 has neither exact multi-planar YCbCr nor separate-plane transfer support: multi_planar="@
                        + multi_planar + "; separate_planes="@ + planes,
                ),
            },
        }
    }
}

/// The transfer strategy for linear frames: into one multi-planar image where the device can sample
/// it exactly, else into separate planes.
pub fn linear_nv12_transfer_capability(
    linear: DrmModifierProperties,
    report: Nv12StagingReport,
) -> (result: Result<Nv12ModifierCapability, String>)
    ensures
        agrees(result, transfer_capability_verdict(linear, report)),
{
    if !intersects(report.queue_flags, QUEUE_GRAPHICS | QUEUE_COMPUTE | QUEUE_TRANSFER) {
        return Err("selected Vulkan queue cannot execute buffer-to-image transfers".to_owned());
    }
    match validate_external_import(report.transfer_source, "linear NV12 transfer-source buffer") {
        Ok(()) => {},
        Err(message) => return Err(message),
    }
    match check_optimal_format(IMPORTED_NV12_FORMAT, TRANSFER_NV12_FEATURES, report.transfer_nv12) {
        Ok(output) => Ok(
            make_staged_capability(
                linear,
                Nv12ImportStrategy::LinearBufferToOptimalNv12,
                report.transfer_source,
                output,
            ),
        ),
        Err(multi_planar) => match check_planes(
            TRANSFER_PLANE_FEATURES,
            report.transfer_luma,
            report.transfer_chroma,
        ) {
            Ok(output) => Ok(
                make_staged_capability(
                    linear,
                    Nv12ImportStrategy::LinearBufferToOptimalYuvPlanes,
                    report.transfer_source,
                    output,
                ),
            ),
            Err(planes) => Err(
                Message::new(
                    "Vulkan NV12 has neither exact multi-planar YCbCr nor separate-plane transfer support: multi_planar=",
                ).text(multi_planar.as_str()).text("; separate_planes=").text(
                    planes.as_str(),
                ).done(),
            ),
        },
    }
}

/// What `linear_nv12_compute_capability` returns.
pub open spec fn compute_capability_verdict(
    linear: DrmModifierProperties,
    report: Nv12StagingReport,
    preference: Nv12StagingPreference,
) -> Result<Nv12ModifierCapability, Seq<char>> {
    let external = external_import_verdict(
        report.texel_source,
        "linear NV12 uniform-texel source buffer"@,
    );
    let planar = planes_verdict(
        COMPUTE_OUTPUT_FEATURES,
        report.compute_luma,
        report.compute_chroma,
    );
    let rgba = optimal_format_verdict(
        IMPORTED_RGBA_FORMAT,
        COMPUTE_OUTPUT_FEATURES,
        report.compute_rgba,
    );
    if !has_all(report.queue_flags, QUEUE_COMPUTE) {
        Err("selected Vulkan queue cannot execute NV12 compute staging"@)
    } else if external is Err {
        Err(external->Err_0)
    } else if !has_all(report.source_texel_features, FORMAT_FEATURE_UNIFORM_TEXEL_BUFFER) {
        Err("Vulkan R32_UINT source buffers lack uniform-texel-buffer support"@)
    } else if preference !is RequireRgba && planar is Ok {
        Ok(
            staged_capability(
                linear,
                Nv12ImportStrategy::LinearBufferToYuvPlanes,
                report.texel_source,
                planar->Ok_0,
            ),
        )
    } else if preference is RequirePlanar {
        Err("required planar NV12 staging is unavailable: "@ + planar->Err_0)
    } else if rgba is Ok {
        Ok(
            staged_capability(
                linear,
                Nv12ImportStrategy::LinearBufferToRgba,
                report.texel_source,
                rgba->Ok_0,
            ),
        )
    } else if preference is RequireRgba {
        Err("required RGBA NV12 staging is unavailable: "@ + rgba->Err_0)
    } else {
        Err(
            "Vulkan NV12 has neither planar nor RGBA compute staging support: planar="@
                + planar->Err_0 + "; rgba="@ + rgba->Err_0,
        )
    }
}

/// The compute strategy for linear frames that the preference asks for.
pub fn linear_nv12_compute_capability(
    linear: DrmModifierProperties,
    report: Nv12StagingReport,
    preference: Nv12StagingPreference,
) -> (result: Result<Nv12ModifierCapability, String>)
    ensures
        agrees(result, compute_capability_verdict(linear, report, preference)),
{
    if !contains(report.queue_flags, QUEUE_COMPUTE) {
        return Err("selected Vulkan queue cannot execute NV12 compute staging".to_owned());
    }
    match validate_external_import(report.texel_source, "linear NV12 uniform-texel source buffer") {
        Ok(()) => {},
        Err(message) => return Err(message),
    }
    if !contains(report.source_texel_features, FORMAT_FEATURE_UNIFORM_TEXEL_BUFFER) {
        return Err("Vulkan R32_UINT source buffers lack uniform-texel-buffer support".to_owned());
    }
    let planar_error = match preference {
        Nv12StagingPreference::RequireRgba => None,
        Nv12StagingPreference::PreferPlanar | Nv12StagingPreference::RequirePlanar => {
            match check_planes(COMPUTE_OUTPUT_FEATURES, report.compute_luma, report.compute_chroma)
            {
                Ok(output) => {
                    return Ok(
                        make_staged_capability(
                            linear,
                            Nv12ImportStrategy::LinearBufferToYuvPlanes,
                            report.texel_source,
                            output,
                        ),
                    );
                },
                Err(message) => Some(message),
            }
        },
    };
    match (preference, planar_error) {
        (Nv12StagingPreference::RequirePlanar, Some(planar)) => Err(
            Message::new("required planar NV12 staging is unavailable: ").text(
                planar.as_str(),
            ).done(),
        ),
        (_, planar_error) => match check_optimal_format(
            IMPORTED_RGBA_FORMAT,
            COMPUTE_OUTPUT_FEATURES,
            report.compute_rgba,
        ) {
            Ok(output) => Ok(
                make_staged_capability(
                    linear,
                    Nv12ImportStrategy::LinearBufferToRgba,
                    report.texel_source,
                    output,
                ),
            ),
            Err(rgba) => match planar_error {
                None => Err(
                    Message::new("required RGBA NV12 staging is unavailable: ").text(
                        rgba.as_str(),
                    ).done(),
                ),
                Some(planar) => Err(
                    Message::new(
                        "Vulkan NV12 has neither planar nor RGBA compute staging support: planar=",
                    ).text(planar.as_str()).text("; rgba=").text(rgba.as_str()).done(),
                ),
            },
        },
    }
}

/// The staged capability for linear frames, where there is one: the transfer strategy, which only
/// the planar preference considers, else the compute strategy that the preference asks for.
pub open spec fn staging_candidate(
    linear: DrmModifierProperties,
    report: Nv12StagingReport,
    preference: Nv12StagingPreference,
) -> Seq<Nv12ModifierCapability> {
    if preference is PreferPlanar && transfer_capability_verdict(linear, report) is Ok {
        seq![transfer_capability_verdict(linear, report)->Ok_0]
    } else {
        match compute_capability_verdict(linear, report, preference) {
            Ok(capability) => seq![capability],
            Err(_) => Seq::empty(),
        }
    }
}

/// What a device reports for one modifier of the multi-planar format, and its answer to the query
/// for importing such images, where it gave one.
#[derive(Clone, Copy, Debug, PartialEq, Eq)]
pub struct Nv12ModifierReport {
    pub properties: DrmModifierProperties,
    pub external: Option<ExternalModifierCapability>,
}

/// The direct capabilities among the first `count` modifiers: those with two planes whose images
/// can be imported.
pub open spec fn direct_candidates(
    modifiers: Seq<Nv12ModifierReport>,
    count: int,
) -> Seq<Nv12ModifierCapability>
    decreases count,
{
    if count <= 0 {
        Seq::empty()
    } else {
        let earlier = direct_candidates(modifiers, count - 1);
        let modifier = modifiers[count - 1].properties;
        match modifiers[count - 1].external {
            Some(found) if modifier.plane_count == 2 && is_importable(
                found.external_features,
                found.compatible_handle_types,
            ) => earlier.push(
                Nv12ModifierCapability {
                    modifier: modifier.modifier,
                    strategy: Nv12ImportStrategy::DirectSampledImage,
                    modifier_plane_count: modifier.plane_count,
                    source_tiling_features: modifier.tiling_features,
                    sampled_tiling_features: modifier.tiling_features,
                    external_features: found.external_features,
                    compatible_handle_types: found.compatible_handle_types,
                    max_extent: found.max_extent,
                },
            ),
            _ => earlier,
        }
    }
}

/// The first linear modifier at or behind `from`.
pub open spec fn linear_modifier(modifiers: Seq<Nv12ModifierReport>, from: int) -> Option<
    DrmModifierProperties,
>
    decreases modifiers.len() - from,
{
    if from < 0 || from >= modifiers.len() {
        None
    } else if modifiers[from].properties.modifier == DRM_FORMAT_MOD_LINEAR {
        Some(modifiers[from].properties)
    } else {
        linear_modifier(modifiers, from + 1)
    }
}

/// What `inventory_nv12_modifier_capabilities_with_staging_preference` returns.
pub open spec fn inventory(
    modifiers: Seq<Nv12ModifierReport>,
    report: Nv12StagingReport,
    preference: Nv12StagingPreference,
) -> Seq<Nv12ModifierCapability> {
    let direct = if preference is PreferPlanar {
        direct_candidates(modifiers, modifiers.len() as int)
    } else {
        Seq::empty()
    };
    match linear_modifier(modifiers, 0) {
        Some(linear) => direct + staging_candidate(linear, report, preference),
        None => direct,
    }
}

fn find_linear_modifier(modifiers: &[Nv12ModifierReport]) -> (found: Option<
    DrmModifierProperties,
>)
    ensures
        found == linear_modifier(modifiers@, 0),
{
    let mut index: usize = 0;
    while index < modifiers.len()
        invariant
            index <= modifiers.len(),
            linear_modifier(modifiers@, 0) == linear_modifier(modifiers@, index as int),
        decreases modifiers.len() - index,
    {
        if modifiers[index].properties.modifier == DRM_FORMAT_MOD_LINEAR {
            return Some(modifiers[index].properties);
        }
        index += 1;
    }
    None
}

fn collect_direct_candidates(
    modifiers: &[Nv12ModifierReport],
) -> (capabilities: Vec<Nv12ModifierCapability>)
    ensures
        capabilities@ == direct_candidates(modifiers@, modifiers@.len() as int),
{
    let mut capabilities: Vec<Nv12ModifierCapability> = Vec::new();
    let mut index: usize = 0;
    while index < modifiers.len()
        invariant
            index <= modifiers.len(),
            capabilities@ == direct_candidates(modifiers@, index as int),
        decreases modifiers.len() - index,
    {
        let modifier = modifiers[index].properties;
        match modifiers[index].external {
            Some(found) => {
                if modifier.plane_count == 2 && contains(
                    found.external_features,
                    EXTERNAL_MEMORY_FEATURE_IMPORTABLE,
                ) && contains(found.compatible_handle_types, EXTERNAL_MEMORY_HANDLE_TYPE_DMA_BUF) {
                    capabilities.push(
                        Nv12ModifierCapability {
                            modifier: modifier.modifier,
                            strategy: Nv12ImportStrategy::DirectSampledImage,
                            modifier_plane_count: modifier.plane_count,
                            source_tiling_features: modifier.tiling_features,
                            sampled_tiling_features: modifier.tiling_features,
                            external_features: found.external_features,
                            compatible_handle_types: found.compatible_handle_types,
                            max_extent: found.max_extent,
                        },
                    );
                }
            },
            None => {},
        }
        index += 1;
    }
    capabilities
}

/// Every way in which a device can import biplanar frames. `modifiers` is what it reports for the
/// multi-planar format. Staging of linear frames is offered beside direct sampling, so that a
/// stream whose conversion the device cannot sample directly still finds a candidate.
pub fn inventory_nv12_modifier_capabilities_with_staging_preference(
    modifiers: &[Nv12ModifierReport],
    report: Nv12StagingReport,
    preference: Nv12StagingPreference,
) -> (capabilities: Vec<Nv12ModifierCapability>)
    ensures
        capabilities@ == inventory(modifiers@, report, preference),
{
    let mut capabilities: Vec<Nv12ModifierCapability> = match preference {
        Nv12StagingPreference::PreferPlanar => collect_direct_candidates(modifiers),
        _ => Vec::new(),
    };
    let ghost direct = capabilities@;
    match find_linear_modifier(modifiers) {
        Some(linear) => {
            let transfer = match preference {
                Nv12StagingPreference::PreferPlanar => match linear_nv12_transfer_capability(
                    linear,
                    report,
                ) {
                    Ok(transfer) => Some(transfer),
                    Err(_) => None,
                },
                _ => None,
            };
            match transfer {
                Some(transfer) => {
                    capabilities.push(transfer);
                    assert(capabilities@ =~= direct + staging_candidate(
                        linear,
                        report,
                        preference,
                    ));
                },
                None => {
                    match linear_nv12_compute_capability(linear, report, preference) {
                        Ok(capability) => {
                            capabilities.push(capability);
                            assert(capabilities@ =~= direct + staging_candidate(
                                linear,
                                report,
                                preference,
                            ));
                        },
                        Err(_) => {
                            assert(capabilities@ =~= direct + staging_candidate(
                                linear,
                                report,
                                preference,
                            ));
                        },
                    }
                },
            }
        },
        None => {},
    }
    capabilities
}

/// Every way in which a device can import biplanar frames, under the default preference.
pub fn inventory_nv12_modifier_capabilities(
    modifiers: &[Nv12ModifierReport],
    report: Nv12StagingReport,
) -> (capabilities: Vec<Nv12ModifierCapability>)
    ensures
        capabilities@ == inventory(modifiers@, report, Nv12StagingPreference::PreferPlanar),
{
    inventory_nv12_modifier_capabilities_with_staging_preference(
        modifiers,
        report,
        Nv12StagingPreference::default(),
    )
}

/// What `validate_sync_fd_import` returns.
pub open spec fn sync_fd_verdict(
    features: ExternalSemaphoreFeatureFlags,
    handles: ExternalSemaphoreHandleTypeFlags,
) -> Result<(), Seq<char>> {
    if !has_all(features, EXTERNAL_SEMAPHORE_FEATURE_IMPORTABLE) || !has_all(
        handles,
        EXTERNAL_SEMAPHORE_HANDLE_TYPE_SYNC_FD,
    ) {
        Err("Vulkan device cannot import SYNC_FD acquire semaphores"@)
    } else {
        Ok(())
    }
}

/// Checks that a device can import sync files, from what it reports for them.
pub fn validate_sync_fd_import(
    features: ExternalSemaphoreFeatureFlags,
    handles: ExternalSemaphoreHandleTypeFlags,
) -> (result: Result<(), String>)
    ensures
        agrees(result, sync_fd_verdict(features, handles)),
{
    if !contains(features, EXTERNAL_SEMAPHORE_FEATURE_IMPORTABLE) || !contains(
        handles,
        EXTERNAL_SEMAPHORE_HANDLE_TYPE_SYNC_FD,
    ) {
        return Err("Vulkan device cannot import SYNC_FD acquire semaphores".to_owned());
    }
    Ok(())
}

/// The first memory type below `count`, at or behind `from`, whose bit is set.
pub open spec fn memory_type(bits: u32, count: int, from: int) -> Option<int>
    decreases count - from,
{
    if from < 0 || from >= count {
        None
    } else if bits & (1u32 << from as u32) != 0 {
        Some(from)
    } else {
        memory_type(bits, count, from + 1)
    }
}

/// What `select_memory_type` returns.
pub open spec fn memory_type_verdict(bits: u32, count: u32) -> Result<u32, Seq<char>> {
    match memory_type(bits, count as int, 0) {
        Some(index) => Ok(index as u32),
        None => Err("imported Vulkan DMA-BUF has no compatible memory type"@),
    }
}

/// The first of `count` memory types that the bits allow. A device has at most 32 of them.
pub fn select_memory_type(bits: u32, count: u32) -> (result: Result<u32, String>)
    requires
        count <= 32,
    ensures
        agrees(result, memory_type_verdict(bits, count)),
{
    let mut index: u32 = 0;
    while index < count
        invariant
            index <= count <= 32,
            memory_type(bits, count as int, 0) == memory_type(bits, count as int, index as int),
        decreases count - index,
    {
        if bits & (1u32 << index) != 0 {
            return Ok(index);
        }
        index += 1;
    }
    Err("imported Vulkan DMA-BUF has no compatible memory type".to_owned())
}

/// The memory type for imported memory: it has to suit both the resource and the file descriptor.
pub fn imported_memory_type(requirement_bits: u32, fd_bits: u32, count: u32) -> (result: Result<
    u32,
    String,
>)
    requires
        count <= 32,
    ensures
        agrees(result, memory_type_verdict(requirement_bits & fd_bits, count)),
{
    select_memory_type(requirement_bits & fd_bits, count)
}

} // verus!
