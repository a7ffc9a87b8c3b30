//! Which import strategies a device can serve.

use vstd::prelude::*;

use crate::text::{agrees, decimal, hexadecimal, padded_hexadecimal, Message};
use crate::vulkan::color::{Nv12Conversion, YcbcrModel};
use crate::vulkan::flags::{
    contains, has_all, ExternalMemoryFeatureFlags, ExternalMemoryHandleTypeFlags,
    FormatFeatureFlags, EXTERNAL_MEMORY_FEATURE_IMPORTABLE, EXTERNAL_MEMORY_HANDLE_TYPE_DMA_BUF,
    FORMAT_FEATURE_SAMPLED_IMAGE, FORMAT_FEATURE_SAMPLED_IMAGE_FILTER_LINEAR,
    FORMAT_FEATURE_STORAGE_IMAGE, FORMAT_FEATURE_TRANSFER_DST, FORMAT_FEATURE_TRANSFER_SRC,
};
use crate::vulkan::types::{
    Extent3D, Nv12AllocationBindingRecipe, Nv12ImportStrategy, DRM_FORMAT_MOD_LINEAR,
};

verus! {

/// One way in which a device can import biplanar frames with one modifier.
#[derive(Clone, Copy, Debug, PartialEq, Eq, Structural)]
pub struct Nv12ModifierCapability {
    pub modifier: u64,
    pub strategy: Nv12ImportStrategy,
    /// How many memory planes the driver reports for the modifier. A staged strategy does not
    /// depend on it.
    pub modifier_plane_count: u32,
    pub source_tiling_features: FormatFeatureFlags,
    pub sampled_tiling_features: FormatFeatureFlags,
    pub external_features: ExternalMemoryFeatureFlags,
    pub compatible_handle_types: ExternalMemoryHandleTypeFlags,
    pub max_extent: Extent3D,
}

impl Nv12ModifierCapability {
    /// The recipe that `allocation_recipe` returns.
    pub open spec fn recipe(self) -> Nv12AllocationBindingRecipe {
        match self.strategy {
            Nv12ImportStrategy::DirectSampledImage =>
                Nv12AllocationBindingRecipe::DirectSharedImage,
            Nv12ImportStrategy::LinearBufferToOptimalNv12 =>
                Nv12AllocationBindingRecipe::LinearBufferToOptimalNv12,
            Nv12ImportStrategy::LinearBufferToOptimalYuvPlanes =>
                Nv12AllocationBindingRecipe::LinearBufferToOptimalYuvPlanes,
            Nv12ImportStrategy::LinearBufferToYuvPlanes =>
                Nv12AllocationBindingRecipe::LinearBufferToYuvPlanes,
            Nv12ImportStrategy::LinearBufferToRgba =>
                Nv12AllocationBindingRecipe::LinearBufferToRgba,
        }
    }

    /// How the memory of a frame is bound under this capability.
    pub fn allocation_recipe(self) -> (recipe: Nv12AllocationBindingRecipe)
        ensures
            recipe == self.recipe(),
    {
        match self.strategy {
            Nv12ImportStrategy::DirectSampledImage =>
                Nv12AllocationBindingRecipe::DirectSharedImage,
            Nv12ImportStrategy::LinearBufferToOptimalNv12 =>
                Nv12AllocationBindingRecipe::LinearBufferToOptimalNv12,
            Nv12ImportStrategy::LinearBufferToOptimalYuvPlanes =>
                Nv12AllocationBindingRecipe::LinearBufferToOptimalYuvPlanes,
            Nv12ImportStrategy::LinearBufferToYuvPlanes =>
                Nv12AllocationBindingRecipe::LinearBufferToYuvPlanes,
            Nv12ImportStrategy::LinearBufferToRgba =>
                Nv12AllocationBindingRecipe::LinearBufferToRgba,
        }
    }
}

/// Memory with these properties can be imported from a DMA-BUF.
pub open spec fn is_importable(
    features: ExternalMemoryFeatureFlags,
    handles: ExternalMemoryHandleTypeFlags,
) -> bool {
    has_all(features, EXTERNAL_MEMORY_FEATURE_IMPORTABLE) && has_all(
        handles,
        EXTERNAL_MEMORY_HANDLE_TYPE_DMA_BUF,
    )
}

/// The features that the sampled image of a strategy needs.
pub open spec fn required_features(
    strategy: Nv12ImportStrategy,
    conversion: Nv12Conversion,
) -> FormatFeatureFlags {
    match strategy {
        Nv12ImportStrategy::DirectSampledImage => conversion.direct_features(),
        Nv12ImportStrategy::LinearBufferToOptimalNv12 => conversion.direct_features()
            | FORMAT_FEATURE_TRANSFER_SRC | FORMAT_FEATURE_TRANSFER_DST,
        Nv12ImportStrategy::LinearBufferToOptimalYuvPlanes => FORMAT_FEATURE_SAMPLED_IMAGE
            | FORMAT_FEATURE_SAMPLED_IMAGE_FILTER_LINEAR | FORMAT_FEATURE_TRANSFER_SRC
            | FORMAT_FEATURE_TRANSFER_DST,
        Nv12ImportStrategy::LinearBufferToYuvPlanes
        | Nv12ImportStrategy::LinearBufferToRgba => FORMAT_FEATURE_SAMPLED_IMAGE
            | FORMAT_FEATURE_SAMPLED_IMAGE_FILTER_LINEAR | FORMAT_FEATURE_STORAGE_IMAGE,
    }
}

/// The strategy reads the frame as raw bytes, so that the bytes have to be linear.
pub open spec fn needs_linear(strategy: Nv12ImportStrategy) -> bool {
    strategy !is DirectSampledImage
}

/// The strategy leaves the color conversion to a shader that knows BT.709 alone.
pub open spec fn needs_bt709(strategy: Nv12ImportStrategy) -> bool {
    strategy is LinearBufferToOptimalYuvPlanes || strategy.is_compute()
}

/// The capability can serve frames of these dimensions with this conversion.
pub open spec fn serves(
    capability: Nv12ModifierCapability,
    dimensions: (u32, u32),
    conversion: Nv12Conversion,
) -> bool {
    &&& 0 < dimensions.0 <= capability.max_extent.width
    &&& 0 < dimensions.1 <= capability.max_extent.height
    &&& is_importable(capability.external_features, capability.compatible_handle_types)
    &&& capability.strategy is DirectSampledImage ==> capability.modifier_plane_count == 2
    &&& needs_linear(capability.strategy) ==> capability.modifier == DRM_FORMAT_MOD_LINEAR
    &&& needs_bt709(capability.strategy) ==> conversion.model is Bt709
    &&& has_all(
        capability.sampled_tiling_features,
        required_features(capability.strategy, conversion),
    )
}

/// The diagnostic for a modifier that the strategy cannot read.
pub open spec fn linear_only_text(strategy: Nv12ImportStrategy, modifier: u64) -> Seq<char> {
    (match strategy {
        Nv12ImportStrategy::LinearBufferToOptimalNv12 =>
            "Vulkan buffer-to-optimal NV12 transfer only supports linear modifier 0, got 0x"@,
        Nv12ImportStrategy::LinearBufferToOptimalYuvPlanes =>
            "Vulkan buffer-to-optimal YUV-plane transfer only supports linear modifier 0, got 0x"@,
        _ => "Vulkan raw-buffer NV12 staging only supports linear modifier 0, got 0x"@,
    }) + padded_hexadecimal(modifier as nat, 16)
}

/// The diagnostic for features that the sampled image lacks.
pub open spec fn missing_features_text(
    capability: Nv12ModifierCapability,
    required: FormatFeatureFlags,
) -> Seq<char> {
    (match capability.strategy {
        Nv12ImportStrategy::DirectSampledImage => "Vulkan NV12 modifier 0x"@ + padded_hexadecimal(
            capability.modifier as nat,
            16,
        ) + " lacks required direct sampling/filter/siting features 0x"@,
        Nv12ImportStrategy::LinearBufferToOptimalNv12 =>
            "Vulkan optimal multi-planar NV12 output lacks required transfer/sampling/filter/siting features 0x"@,
        Nv12ImportStrategy::LinearBufferToOptimalYuvPlanes =>
            "Vulkan optimal YUV-plane transfer output lacks required transfer/sampling/filter features 0x"@,
        _ => "Vulkan staged NV12 output lacks required optimal-image features 0x"@,
    }) + hexadecimal(required as nat) + " (available=0x"@ + hexadecimal(
        capability.sampled_tiling_features as nat,
    ) + ")"@
}

/// What `validate_nv12_modifier_capability` returns.
pub open spec fn capability_verdict(
    capability: Nv12ModifierCapability,
    dimensions: (u32, u32),
    conversion: Nv12Conversion,
) -> Result<(), Seq<char>> {
    if dimensions.0 == 0 || dimensions.1 == 0 {
        Err("Vulkan NV12 dimensions must be non-zero"@)
    } else if dimensions.0 > capability.max_extent.width || dimensions.1
        > capability.max_extent.height {
        Err(
            "Vulkan NV12 dimensions "@ + decimal(dimensions.0 as nat) + "x"@ + decimal(
                dimensions.1 as nat,
            ) + " exceed import limit "@ + decimal(capability.max_extent.width as nat) + "x"@
                + decimal(capability.max_extent.height as nat),
        )
    } else if !is_importable(capability.external_features, capability.compatible_handle_types) {
        Err(
            "Vulkan NV12 modifier 0x"@ + padded_hexadecimal(capability.modifier as nat, 16)
                + " is not DMA-BUF importable"@,
        )
    } else if capability.strategy is DirectSampledImage && capability.modifier_plane_count != 2 {
        Err(
            "Vulkan NV12 modifier 0x"@ + padded_hexadecimal(capability.modifier as nat, 16)
                + " reports "@ + decimal(capability.modifier_plane_count as nat)
                + " memory plane(s), expected exactly two for direct image import"@,
        )
    } else if needs_linear(capability.strategy) && capability.modifier != DRM_FORMAT_MOD_LINEAR {
        Err(linear_only_text(capability.strategy, capability.modifier))
    } else if needs_bt709(capability.strategy) && conversion.model !is Bt709 {
        if capability.strategy is LinearBufferToOptimalYuvPlanes {
            Err("Vulkan separate-plane NV12 transfer currently requires BT.709"@)
        } else {
            Err("Vulkan staged NV12 conversion currently requires BT.709"@)
        }
    } else if !has_all(
        capability.sampled_tiling_features,
        required_features(capability.strategy, conversion),
    ) {
        Err(
            missing_features_text(capability, required_features(capability.strategy, conversion)),
        )
    } else {
        Ok(())
    }
}

fn features_for(strategy: Nv12ImportStrategy, conversion: Nv12Conversion) -> (features:
    FormatFeatureFlags)
    ensures
        features == required_features(strategy, conversion),
{
    match strategy {
        Nv12ImportStrategy::DirectSampledImage => conversion.required_direct_features(),
        Nv12ImportStrategy::LinearBufferToOptimalNv12 => conversion.required_direct_features()
            | FORMAT_FEATURE_TRANSFER_SRC | FORMAT_FEATURE_TRANSFER_DST,
        Nv12ImportStrategy::LinearBufferToOptimalYuvPlanes => FORMAT_FEATURE_SAMPLED_IMAGE
            | FORMAT_FEATURE_SAMPLED_IMAGE_FILTER_LINEAR | FORMAT_FEATURE_TRANSFER_SRC
            | FORMAT_FEATURE_TRANSFER_DST,
        Nv12ImportStrategy::LinearBufferToYuvPlanes
        | Nv12ImportStrategy::LinearBufferToRgba => FORMAT_FEATURE_SAMPLED_IMAGE
            | FORMAT_FEATURE_SAMPLED_IMAGE_FILTER_LINEAR | FORMAT_FEATURE_STORAGE_IMAGE,
    }
}

fn linear_only_message(strategy: Nv12ImportStrategy, modifier: u64) -> (message: String)
    ensures
        message@ == linear_only_text(strategy, modifier),
{
    let start = match strategy {
        Nv12ImportStrategy::LinearBufferToOptimalNv12 =>
            "Vulkan buffer-to-optimal NV12 transfer only supports linear modifier 0, got 0x",
        Nv12ImportStrategy::LinearBufferToOptimalYuvPlanes =>
            "Vulkan buffer-to-optimal YUV-plane transfer only supports linear modifier 0, got 0x",
        _ => "Vulkan raw-buffer NV12 staging only supports linear modifier 0, got 0x",
    };
    Message::new(start).hex16(modifier).done()
}

fn missing_features_message(
    capability: Nv12ModifierCapability,
    required: FormatFeatureFlags,
) -> (message: String)
    ensures
        message@ == missing_features_text(capability, required),
{
    let start = match capability.strategy {
        Nv12ImportStrategy::DirectSampledImage => Message::new("Vulkan NV12 modifier 0x").hex16(
            capability.modifier,
        ).text(" lacks required direct sampling/filter/siting features 0x"),
        Nv12ImportStrategy::LinearBufferToOptimalNv12 => Message::new(
            "Vulkan optimal multi-planar NV12 output lacks required transfer/sampling/filter/siting features 0x",
        ),
        Nv12ImportStrategy::LinearBufferToOptimalYuvPlanes => Message::new(
            "Vulkan optimal YUV-plane transfer output lacks required transfer/sampling/filter features 0x",
        ),
        _ => Message::new(
            "Vulkan staged NV12 output lacks required optimal-image features 0x",
        ),
    };
    start.hex(required as u64).text(" (available=0x").hex(
        capability.sampled_tiling_features as u64,
    ).text(")").done()
}

/// Checks that a capability can serve frames of these dimensions with this conversion.
pub fn validate_nv12_modifier_capability(
    capability: Nv12ModifierCapability,
    dimensions: (u32, u32),
    conversion: Nv12Conversion,
) -> (result: Result<(), String>)
    ensures
        agrees(result, capability_verdict(capability, dimensions, conversion)),
        result is Ok <==> serves(capability, dimensions, conversion),
{
    if dimensions.0 == 0 || dimensions.1 == 0 {
        return Err("Vulkan NV12 dimensions must be non-zero".to_owned());
    }
    if dimensions.0 > capability.max_extent.width || dimensions.1 > capability.max_extent.height {
        return Err(
            Message::new("Vulkan NV12 dimensions ").number(dimensions.0 as u64).text("x").number(
                dimensions.1 as u64,
            ).text(" exceed import limit ").number(capability.max_extent.width as u64).text(
                "x",
            ).number(capability.max_extent.height as u64).done(),
        );
    }
    if !contains(capability.external_features, EXTERNAL_MEMORY_FEATURE_IMPORTABLE) || !contains(
        capability.compatible_handle_types,
        EXTERNAL_MEMORY_HANDLE_TYPE_DMA_BUF,
    ) {
        return Err(
            Message::new("Vulkan NV12 modifier 0x").hex16(capability.modifier).text(
                " is not DMA-BUF importable",
            ).done(),
        );
    }
    let direct = match capability.strategy {
        Nv12ImportStrategy::DirectSampledImage => true,
        _ => false,
    };
    if direct && capability.modifier_plane_count != 2 {
        return Err(
            Message::new("Vulkan NV12 modifier 0x").hex16(capability.modifier).text(
                " reports ",
            ).number(capability.modifier_plane_count as u64).text(
                " memory plane(s), expected exactly two for direct image import",
            ).done(),
        );
    }
    if !direct && capability.modifier != DRM_FORMAT_MOD_LINEAR {
        return Err(linear_only_message(capability.strategy, capability.modifier));
    }
    if conversion.model != YcbcrModel::Bt709 {
        match capability.strategy {
            Nv12ImportStrategy::LinearBufferToOptimalYuvPlanes => {
                return Err(
                    "Vulkan separate-plane NV12 transfer currently requires BT.709".to_owned(),
                );
            },
            Nv12ImportStrategy::LinearBufferToYuvPlanes
            | Nv12ImportStrategy::LinearBufferToRgba => {
                return Err("Vulkan staged NV12 conversion currently requires BT.709".to_owned());
            },
            _ => {},
        }
    }
    let required: u32 = features_for(capability.strategy, conversion);
    if !contains(capability.sampled_tiling_features, required) {
        return Err(missing_features_message(capability, required));
    }
    Ok(())
}

/// Tests that two capabilities are the same in every respect.
pub fn same_nv12_capability(left: Nv12ModifierCapability, right: Nv12ModifierCapability) -> (same:
    bool)
    ensures
        same == (left == right),
{
    left == right
}

/// What a stream needs of a capability.
#[derive(Clone, Copy, Debug, PartialEq, Eq)]
pub struct Nv12ResolveRequest {
    pub modifier: u64,
    pub dimensions: (u32, u32),
    pub conversion: Nv12Conversion,
}

/// The capability is for the requested modifier and can serve the request.
pub open spec fn answers(capability: Nv12ModifierCapability, request: Nv12ResolveRequest) -> bool {
    capability.modifier == request.modifier && serves(
        capability,
        request.dimensions,
        request.conversion,
    )
}

/// Why the first `count` candidates do not answer the request, in order.
pub open spec fn rejections(
    candidates: Seq<Nv12ModifierCapability>,
    request: Nv12ResolveRequest,
    count: int,
) -> Seq<char>
    decreases count,
{
    if count <= 0 {
        "Vulkan NV12 modifier 0x"@ + padded_hexadecimal(request.modifier as nat, 16)
            + " has no usable import candidate"@
    } else {
        let earlier = rejections(candidates, request, count - 1);
        let candidate = candidates[count - 1];
        if candidate.modifier == request.modifier {
            match capability_verdict(candidate, request.dimensions, request.conversion) {
                Ok(()) => earlier,
                Err(text) => earlier + "; "@ + text,
            }
        } else {
            earlier
        }
    }
}

/// Picks the first candidate, in the order in which the device offers them, that is for the
/// requested modifier and can serve the request. Where there is none, the diagnostic gathers why
/// each candidate for the modifier was refused.
pub fn resolve_nv12_modifier_capability(
    candidates: &[Nv12ModifierCapability],
    request: Nv12ResolveRequest,
) -> (result: Result<Nv12ModifierCapability, String>)
    ensures
        match result {
            Ok(selected) => exists|index: int|
                0 <= index < candidates@.len() && candidates@[index] == selected && answers(
                    #[trigger] candidates@[index],
                    request,
                ) && forall|before: int|
                    0 <= before < index ==> !answers(#[trigger] candidates@[before], request),
            Err(message) => message@ == rejections(
                candidates@,
                request,
                candidates@.len() as int,
            ) && forall|index: int|
                0 <= index < candidates@.len() ==> !answers(#[trigger] candidates@[index], request),
        },
{
    let mut reasons = Message::new("Vulkan NV12 modifier 0x").hex16(request.modifier).text(
        " has no usable import candidate",
    );
    let mut index: usize = 0;
    while index < candidates.len()
        invariant
            index <= candidates.len(),
            reasons@ == rejections(candidates@, request, index as int),
            forall|before: int|
                0 <= before < index ==> !answers(#[trigger] candidates@[before], request),
        decreases candidates.len() - index,
    {
        let candidate = candidates[index];
        if candidate.modifier == request.modifier {
            match validate_nv12_modifier_capability(
                candidate,
                request.dimensions,
                request.conversion,
            ) {
                Ok(()) => {
                    assert(answers(candidates@[index as int], request));
                    return Ok(candidate);
                },
                Err(message) => {
                    reasons = reasons.text("; ").text(message.as_str());
                },
            }
        }
        index += 1;
    }
    Err(reasons.done())
}

} // verus!
