//! From stream colorimetry to the conversion that the renderer has to make.

use vstd::prelude::*;

use crate::format::{ChromaLocation, ColorRange, Colorimetry, Matrix, Primaries, Transfer};
use crate::text::{agrees, Message};
use crate::vulkan::flags::{
    FormatFeatureFlags, FORMAT_FEATURE_COSITED_CHROMA_SAMPLES,
    FORMAT_FEATURE_MIDPOINT_CHROMA_SAMPLES, FORMAT_FEATURE_SAMPLED_IMAGE,
    FORMAT_FEATURE_SAMPLED_IMAGE_FILTER_LINEAR, FORMAT_FEATURE_YCBCR_LINEAR_FILTER,
};

verus! {

/// The matrix of a conversion.
#[derive(Clone, Copy, Debug, PartialEq, Eq, Hash, Structural)]
pub enum YcbcrModel {
    Bt601,
    Bt709,
    Bt2020,
}

/// The quantization range of a conversion.
#[derive(Clone, Copy, Debug, PartialEq, Eq, Hash, Structural)]
pub enum YcbcrRange {
    Narrow,
    Full,
}

/// Where chroma samples lie along one axis.
#[derive(Clone, Copy, Debug, PartialEq, Eq, Hash, Structural)]
pub enum YcbcrOffset {
    CositedEven,
    Midpoint,
}

/// How luma and chroma become color.
#[derive(Clone, Copy, Debug, PartialEq, Eq, Hash, Structural)]
pub struct Nv12Conversion {
    pub model: YcbcrModel,
    pub range: YcbcrRange,
    pub x_offset: YcbcrOffset,
    pub y_offset: YcbcrOffset,
}

impl Nv12Conversion {
    /// The chroma sitings that the two axes ask for.
    pub open spec fn siting_features(self) -> FormatFeatureFlags {
        match (self.x_offset, self.y_offset) {
            (YcbcrOffset::Midpoint, YcbcrOffset::Midpoint) =>
                FORMAT_FEATURE_MIDPOINT_CHROMA_SAMPLES,
            (YcbcrOffset::CositedEven, YcbcrOffset::CositedEven) =>
                FORMAT_FEATURE_COSITED_CHROMA_SAMPLES,
            _ => FORMAT_FEATURE_MIDPOINT_CHROMA_SAMPLES | FORMAT_FEATURE_COSITED_CHROMA_SAMPLES,
        }
    }

    /// The features that `required_direct_features` returns.
    pub open spec fn direct_features(self) -> FormatFeatureFlags {
        FORMAT_FEATURE_SAMPLED_IMAGE | FORMAT_FEATURE_SAMPLED_IMAGE_FILTER_LINEAR
            | FORMAT_FEATURE_YCBCR_LINEAR_FILTER | self.siting_features()
    }

    /// The features without which a multi-planar image cannot be sampled with this conversion.
    pub fn required_direct_features(self) -> (features: FormatFeatureFlags)
        ensures
            features == self.direct_features(),
    {
        let siting: u32 = match (self.x_offset, self.y_offset) {
            (YcbcrOffset::Midpoint, YcbcrOffset::Midpoint) =>
                FORMAT_FEATURE_MIDPOINT_CHROMA_SAMPLES,
            (YcbcrOffset::CositedEven, YcbcrOffset::CositedEven) =>
                FORMAT_FEATURE_COSITED_CHROMA_SAMPLES,
            _ => FORMAT_FEATURE_MIDPOINT_CHROMA_SAMPLES | FORMAT_FEATURE_COSITED_CHROMA_SAMPLES,
        };
        FORMAT_FEATURE_SAMPLED_IMAGE | FORMAT_FEATURE_SAMPLED_IMAGE_FILTER_LINEAR
            | FORMAT_FEATURE_YCBCR_LINEAR_FILTER | siting
    }
}

/// The color contract is the one that the renderer's output has.
pub open spec fn is_bt709(color: Colorimetry) -> bool {
    color.primaries is Bt709 && color.transfer is Bt709 && color.matrix is Bt709
}

/// The offsets of a chroma location, where there are any.
pub open spec fn chroma_offsets(location: ChromaLocation) -> Option<(YcbcrOffset, YcbcrOffset)> {
    match location {
        ChromaLocation::Left => Some((YcbcrOffset::CositedEven, YcbcrOffset::Midpoint)),
        ChromaLocation::Center => Some((YcbcrOffset::Midpoint, YcbcrOffset::Midpoint)),
        ChromaLocation::TopLeft => Some((YcbcrOffset::CositedEven, YcbcrOffset::CositedEven)),
        ChromaLocation::Top => Some((YcbcrOffset::Midpoint, YcbcrOffset::CositedEven)),
        _ => None,
    }
}

/// What `map_nv12_colorimetry` returns.
pub open spec fn nv12_conversion(color: Colorimetry) -> Result<Nv12Conversion, Seq<char>> {
    if color.primaries is Unspecified || color.transfer is Unspecified || color.matrix
        is Unspecified {
        Err("Vulkan NV12 requires explicit primaries, transfer, and matrix"@)
    } else if !is_bt709(color) {
        Err(
            "Vulkan NV12 color contract ("@ + color.primaries.name_text() + ", "@
                + color.transfer.name_text() + ", "@ + color.matrix.name_text()
                + ") is not identical to the BT.709 output contract"@,
        )
    } else if color.range is Unspecified {
        Err("Vulkan NV12 requires an explicit color range"@)
    } else if color.chroma_location is Unspecified {
        Err("Vulkan NV12 requires an explicit chroma location"@)
    } else if chroma_offsets(color.chroma_location) is None {
        Err("bottom-sited chroma is unsupported for Vulkan NV12"@)
    } else {
        let (x_offset, y_offset) = chroma_offsets(color.chroma_location).unwrap();
        Ok(
            Nv12Conversion {
                model: YcbcrModel::Bt709,
                range: if color.range is Limited {
                    YcbcrRange::Narrow
                } else {
                    YcbcrRange::Full
                },
                x_offset,
                y_offset,
            },
        )
    }
}

/// The conversion for a stream with this colorimetry. Only the BT.709 contract is supported, and
/// nothing may be left unspecified.
pub fn map_nv12_colorimetry(color: Colorimetry) -> (result: Result<Nv12Conversion, String>)
    ensures
        agrees(result, nv12_conversion(color)),
{
    match (color.primaries, color.transfer, color.matrix) {
        (Primaries::Bt709, Transfer::Bt709, Matrix::Bt709) => {},
        (Primaries::Unspecified, _, _)
        | (_, Transfer::Unspecified, _)
        | (_, _, Matrix::Unspecified) => {
            return Err(
                "Vulkan NV12 requires explicit primaries, transfer, and matrix".to_owned(),
            );
        },
        (primaries, transfer, matrix) => {
            return Err(
                Message::new("Vulkan NV12 color contract (").text(primaries.name()).text(
                    ", ",
                ).text(transfer.name()).text(", ").text(matrix.name()).text(
                    ") is not identical to the BT.709 output contract",
                ).done(),
            );
        },
    }
    let range = match color.range {
        ColorRange::Limited => YcbcrRange::Narrow,
        ColorRange::Full => YcbcrRange::Full,
        ColorRange::Unspecified => {
            return Err("Vulkan NV12 requires an explicit color range".to_owned());
        },
    };
    let (x_offset, y_offset) = match color.chroma_location {
        ChromaLocation::Left => (YcbcrOffset::CositedEven, YcbcrOffset::Midpoint),
        ChromaLocation::Center => (YcbcrOffset::Midpoint, YcbcrOffset::Midpoint),
        ChromaLocation::TopLeft => (YcbcrOffset::CositedEven, YcbcrOffset::CositedEven),
        ChromaLocation::Top => (YcbcrOffset::Midpoint, YcbcrOffset::CositedEven),
        ChromaLocation::Unspecified => {
            return Err("Vulkan NV12 requires an explicit chroma location".to_owned());
        },
        ChromaLocation::BottomLeft | ChromaLocation::Bottom => {
            return Err("bottom-sited chroma is unsupported for Vulkan NV12".to_owned());
        },
    };
    Ok(Nv12Conversion { model: YcbcrModel::Bt709, range, x_offset, y_offset })
}

} // verus!
