//! Stream formats and colorimetry.

use vstd::prelude::*;

use crate::text::{decimal, Message};

verus! {

/// A positive fraction, as numerator and denominator.
pub type Rational = (u32, u32);

/// Which acquire synchronization the frames of a stream carry.
#[derive(Clone, Copy, Debug, Eq, Hash, PartialEq, Structural)]
pub enum AcquireSyncPolicy {
    Implicit,
    SyncFile,
    PerFrame,
}

/// Which modifiers the buffers of a stream have.
#[derive(Clone, Copy, Debug, Eq, Hash, PartialEq, Structural)]
pub enum ModifierPolicy {
    PerBuffer,
    Implicit,
    Explicit(u64),
}

/// The policy type under the name that stream consumers use.
pub type StreamAcquireSyncPolicy = AcquireSyncPolicy;

/// The policy type under the name that stream consumers use.
pub type StreamModifierPolicy = ModifierPolicy;

/// Color primaries.
#[derive(Clone, Copy, Debug, Eq, Hash, PartialEq, Structural)]
pub enum Primaries {
    Unspecified,
    Bt709,
    Bt470M,
    Bt470Bg,
    Smpte170m,
    Smpte240m,
    Film,
    Bt2020,
    Smpte428,
    Smpte431,
    Smpte432,
    Ebu3213,
}

/// Transfer characteristics.
#[derive(Clone, Copy, Debug, Eq, Hash, PartialEq, Structural)]
pub enum Transfer {
    Unspecified,
    Bt709,
    Gamma22,
    Gamma28,
    Smpte170m,
    Smpte240m,
    Linear,
    Log,
    LogSqrt,
    Iec61966_2_4,
    Bt1361,
    Iec61966_2_1,
    Bt2020_10,
    Bt2020_12,
    Smpte2084,
    Smpte428,
    AribStdB67,
}

/// Matrix coefficients.
#[derive(Clone, Copy, Debug, Eq, Hash, PartialEq, Structural)]
pub enum Matrix {
    Unspecified,
    Rgb,
    Bt709,
    Fcc,
    Bt470Bg,
    Smpte170m,
    Smpte240m,
    Ycgco,
    Bt2020Ncl,
    Bt2020Cl,
    Smpte2085,
    ChromaDerivedNcl,
    ChromaDerivedCl,
    Ictcp,
}

/// Quantization range of the samples.
#[derive(Clone, Copy, Debug, Eq, Hash, PartialEq, Structural)]
pub enum ColorRange {
    Unspecified,
    Limited,
    Full,
}

/// Where the chroma samples lie among the luma samples.
#[derive(Clone, Copy, Debug, Eq, Hash, PartialEq, Structural)]
pub enum ChromaLocation {
    Unspecified,
    Left,
    Center,
    TopLeft,
    Top,
    BottomLeft,
    Bottom,
}

/// How the fields of a frame are interleaved.
#[derive(Clone, Copy, Debug, Eq, Hash, PartialEq, Structural)]
pub enum InterlaceMode {
    Progressive,
    InterlacedTopFirst,
    InterlacedBottomFirst,
    Mixed,
}

/// What the alpha channel means.
#[derive(Clone, Copy, Debug, Eq, Hash, PartialEq, Structural)]
pub enum AlphaMode {
    Opaque,
    Straight,
    Premultiplied,
}

impl Primaries {
    /// The name that `name` returns.
    pub open spec fn name_text(self) -> Seq<char> {
        match self {
            Primaries::Unspecified => "Unspecified"@,
            Primaries::Bt709 => "Bt709"@,
            Primaries::Bt470M => "Bt470M"@,
            Primaries::Bt470Bg => "Bt470Bg"@,
            Primaries::Smpte170m => "Smpte170m"@,
            Primaries::Smpte240m => "Smpte240m"@,
            Primaries::Film => "Film"@,
            Primaries::Bt2020 => "Bt2020"@,
            Primaries::Smpte428 => "Smpte428"@,
            Primaries::Smpte431 => "Smpte431"@,
            Primaries::Smpte432 => "Smpte432"@,
            Primaries::Ebu3213 => "Ebu3213"@,
        }
    }

    /// The name of the value in diagnostics.
    pub fn name(self) -> (name: &'static str)
        ensures
            name@ == self.name_text(),
    {
        match self {
            Primaries::Unspecified => "Unspecified",
            Primaries::Bt709 => "Bt709",
            Primaries::Bt470M => "Bt470M",
            Primaries::Bt470Bg => "Bt470Bg",
            Primaries::Smpte170m => "Smpte170m",
            Primaries::Smpte240m => "Smpte240m",
            Primaries::Film => "Film",
            Primaries::Bt2020 => "Bt2020",
            Primaries::Smpte428 => "Smpte428",
            Primaries::Smpte431 => "Smpte431",
            Primaries::Smpte432 => "Smpte432",
            Primaries::Ebu3213 => "Ebu3213",
        }
    }
}

impl Transfer {
    /// The name that `name` returns.
    pub open spec fn name_text(self) -> Seq<char> {
        match self {
            Transfer::Unspecified => "Unspecified"@,
            Transfer::Bt709 => "Bt709"@,
            Transfer::Gamma22 => "Gamma22"@,
            Transfer::Gamma28 => "Gamma28"@,
            Transfer::Smpte170m => "Smpte170m"@,
            Transfer::Smpte240m => "Smpte240m"@,
            Transfer::Linear => "Linear"@,
            Transfer::Log => "Log"@,
            Transfer::LogSqrt => "LogSqrt"@,
            Transfer::Iec61966_2_4 => "Iec61966_2_4"@,
            Transfer::Bt1361 => "Bt1361"@,
            Transfer::Iec61966_2_1 => "Iec61966_2_1"@,
            Transfer::Bt2020_10 => "Bt2020_10"@,
            Transfer::Bt2020_12 => "Bt2020_12"@,
            Transfer::Smpte2084 => "Smpte2084"@,
            Transfer::Smpte428 => "Smpte428"@,
            Transfer::AribStdB67 => "AribStdB67"@,
        }
    }

    /// The name of the value in diagnostics.
    pub fn name(self) -> (name: &'static str)
        ensures
            name@ == self.name_text(),
    {
        match self {
            Transfer::Unspecified => "Unspecified",
            Transfer::Bt709 => "Bt709",
            Transfer::Gamma22 => "Gamma22",
            Transfer::Gamma28 => "Gamma28",
            Transfer::Smpte170m => "Smpte170m",
            Transfer::Smpte240m => "Smpte240m",
            Transfer::Linear => "Linear",
            Transfer::Log => "Log",
            Transfer::LogSqrt => "LogSqrt",
            Transfer::Iec61966_2_4 => "Iec61966_2_4",
            Transfer::Bt1361 => "Bt1361",
            Transfer::Iec61966_2_1 => "Iec61966_2_1",
            Transfer::Bt2020_10 => "Bt2020_10",
            Transfer::Bt2020_12 => "Bt2020_12",
            Transfer::Smpte2084 => "Smpte2084",
            Transfer::Smpte428 => "Smpte428",
            Transfer::AribStdB67 => "AribStdB67",
        }
    }
}

impl Matrix {
    /// The name that `name` returns.
    pub open spec fn name_text(self) -> Seq<char> {
        match self {
            Matrix::Unspecified => "Unspecified"@,
            Matrix::Rgb => "Rgb"@,
            Matrix::Bt709 => "Bt709"@,
            Matrix::Fcc => "Fcc"@,
            Matrix::Bt470Bg => "Bt470Bg"@,
            Matrix::Smpte170m => "Smpte170m"@,
            Matrix::Smpte240m => "Smpte240m"@,
            Matrix::Ycgco => "Ycgco"@,
            Matrix::Bt2020Ncl => "Bt2020Ncl"@,
            Matrix::Bt2020Cl => "Bt2020Cl"@,
            Matrix::Smpte2085 => "Smpte2085"@,
            Matrix::ChromaDerivedNcl => "ChromaDerivedNcl"@,
            Matrix::ChromaDerivedCl => "ChromaDerivedCl"@,
            Matrix::Ictcp => "Ictcp"@,
        }
    }

    /// The name of the value in diagnostics.
    pub fn name(self) -> (name: &'static str)
        ensures
            name@ == self.name_text(),
    {
        match self {
            Matrix::Unspecified => "Unspecified",
            Matrix::Rgb => "Rgb",
            Matrix::Bt709 => "Bt709",
            Matrix::Fcc => "Fcc",
            Matrix::Bt470Bg => "Bt470Bg",
            Matrix::Smpte170m => "Smpte170m",
            Matrix::Smpte240m => "Smpte240m",
            Matrix::Ycgco => "Ycgco",
            Matrix::Bt2020Ncl => "Bt2020Ncl",
            Matrix::Bt2020Cl => "Bt2020Cl",
            Matrix::Smpte2085 => "Smpte2085",
            Matrix::ChromaDerivedNcl => "ChromaDerivedNcl",
            Matrix::ChromaDerivedCl => "ChromaDerivedCl",
            Matrix::Ictcp => "Ictcp",
        }
    }
}

/// The color contract of a stream.
#[derive(Clone, Copy, Debug, Eq, Hash, PartialEq, Structural)]
pub struct Colorimetry {
    pub primaries: Primaries,
    pub transfer: Transfer,
    pub matrix: Matrix,
    pub range: ColorRange,
    pub chroma_location: ChromaLocation,
}

impl Default for Colorimetry {
    fn default() -> (color: Colorimetry)
        ensures
            color.primaries is Unspecified,
            color.transfer is Unspecified,
            color.matrix is Unspecified,
            color.range is Unspecified,
            color.chroma_location is Unspecified,
    {
        Colorimetry {
            primaries: Primaries::Unspecified,
            transfer: Transfer::Unspecified,
            matrix: Matrix::Unspecified,
            range: ColorRange::Unspecified,
            chroma_location: ChromaLocation::Unspecified,
        }
    }
}

/// Pixel layouts of owned bytes.
#[derive(Clone, Copy, Debug, Eq, Hash, PartialEq, Structural)]
pub enum BinaryPixelFormat {
    Rgba8888,
    Rgb888,
    Gray8,
    Gray2,
    Bw1,
}

/// Which bit value a one-bit pixel uses for black.
#[derive(Clone, Copy, Debug, Eq, Hash, PartialEq, Structural)]
pub enum Bw1Polarity {
    OneIsBlack,
    OneIsWhite,
}

/// The format of owned bytes.
#[derive(Clone, Copy, Debug, Eq, Hash, PartialEq, Structural)]
pub struct BinaryFormat {
    pub pixel_format: BinaryPixelFormat,
    pub bw1_polarity: Option<Bw1Polarity>,
}

/// The format of DMA-BUF memory.
#[derive(Clone, Copy, Debug, Eq, Hash, PartialEq, Structural)]
pub struct DmaBufFormat {
    pub fourcc: u32,
    pub modifier: ModifierPolicy,
}

/// The format of either kind of storage.
#[derive(Clone, Copy, Debug, Eq, Hash, PartialEq, Structural)]
pub enum StorageFormat {
    Binary(BinaryFormat),
    DmaBuf(DmaBufFormat),
}

/// The format of a stream.
#[derive(Clone, Copy, Debug, Eq, Hash, PartialEq)]
pub struct Format {
    pub width: u32,
    pub height: u32,
    pub framerate: Option<Rational>,
    pub storage: StorageFormat,
    pub acquire_sync: AcquireSyncPolicy,
    pub colorimetry: Colorimetry,
    pub pixel_aspect_ratio: Rational,
    pub interlace_mode: InterlaceMode,
    pub alpha_mode: AlphaMode,
}

/// Why a stream format is not valid.
#[derive(Clone, Copy, Debug, Eq, PartialEq, Structural)]
pub enum FormatValidationError {
    ZeroSize { width: u32, height: u32 },
    InvalidFramerate { numerator: u32, denominator: u32 },
    InvalidFourcc,
    MissingBw1Polarity,
    UnexpectedBw1Polarity,
    BinaryFormatRequiresImplicitSync,
    BinaryFormatRequiresOpaqueAlpha,
    InvalidPixelAspectRatio { numerator: u32, denominator: u32 },
}

impl FormatValidationError {
    /// The diagnostic that `message` returns.
    pub open spec fn text(self) -> Seq<char> {
        match self {
            FormatValidationError::ZeroSize { width, height } =>
                "stream format size must be positive, got "@ + decimal(width as nat) + "x"@
                    + decimal(height as nat),
            FormatValidationError::InvalidFramerate { numerator, denominator } =>
                "stream framerate must be positive, got "@ + decimal(numerator as nat) + "/"@
                    + decimal(denominator as nat),
            FormatValidationError::InvalidFourcc => "stream format has invalid DRM fourcc 0"@,
            FormatValidationError::MissingBw1Polarity => "BW1 binary format requires a polarity"@,
            FormatValidationError::UnexpectedBw1Polarity =>
                "BW1 polarity is only valid for BW1 binary format"@,
            FormatValidationError::BinaryFormatRequiresImplicitSync =>
                "binary storage format requires implicit synchronization"@,
            FormatValidationError::BinaryFormatRequiresOpaqueAlpha =>
                "binary formats without alpha require opaque alpha mode"@,
            FormatValidationError::InvalidPixelAspectRatio { numerator, denominator } =>
                "pixel aspect ratio must be positive, got "@ + decimal(numerator as nat) + "/"@
                    + decimal(denominator as nat),
        }
    }

    /// The diagnostic for a log.
    pub fn message(&self) -> (message: String)
        ensures
            message@ == self.text(),
    {
        match *self {
            FormatValidationError::ZeroSize { width, height } => Message::new(
                "stream format size must be positive, got ",
            ).number(width as u64).text("x").number(height as u64).done(),
            FormatValidationError::InvalidFramerate { numerator, denominator } => Message::new(
                "stream framerate must be positive, got ",
            ).number(numerator as u64).text("/").number(denominator as u64).done(),
            FormatValidationError::InvalidFourcc => "stream format has invalid DRM fourcc 0".to_owned(),
            FormatValidationError::MissingBw1Polarity =>
                "BW1 binary format requires a polarity".to_owned(),
            FormatValidationError::UnexpectedBw1Polarity =>
                "BW1 polarity is only valid for BW1 binary format".to_owned(),
            FormatValidationError::BinaryFormatRequiresImplicitSync =>
                "binary storage format requires implicit synchronization".to_owned(),
            FormatValidationError::BinaryFormatRequiresOpaqueAlpha =>
                "binary formats without alpha require opaque alpha mode".to_owned(),
            FormatValidationError::InvalidPixelAspectRatio { numerator, denominator } =>
                Message::new("pixel aspect ratio must be positive, got ").number(
                numerator as u64,
            ).text("/").number(denominator as u64).done(),
        }
    }
}

impl BinaryFormat {
    /// What `validate` returns: a polarity goes with one-bit pixels and with nothing else.
    pub open spec fn verdict(self) -> Result<(), FormatValidationError> {
        if self.pixel_format is Bw1 && self.bw1_polarity is None {
            Err(FormatValidationError::MissingBw1Polarity)
        } else if self.pixel_format !is Bw1 && self.bw1_polarity is Some {
            Err(FormatValidationError::UnexpectedBw1Polarity)
        } else {
            Ok(())
        }
    }

    /// Checks that a polarity is given exactly for one-bit pixels.
    pub fn validate(&self) -> (result: Result<(), FormatValidationError>)
        ensures
            result == self.verdict(),
    {
        match (self.pixel_format, self.bw1_polarity) {
            (BinaryPixelFormat::Bw1, None) => Err(FormatValidationError::MissingBw1Polarity),
            (BinaryPixelFormat::Bw1, Some(_)) => Ok(()),
            (_, None) => Ok(()),
            (_, Some(_)) => Err(FormatValidationError::UnexpectedBw1Polarity),
        }
    }
}

impl DmaBufFormat {
    /// What `validate` returns.
    pub open spec fn verdict(self) -> Result<(), FormatValidationError> {
        if self.fourcc == 0 {
            Err(FormatValidationError::InvalidFourcc)
        } else {
            Ok(())
        }
    }

    /// Checks that the pixel format is named.
    pub fn validate(&self) -> (result: Result<(), FormatValidationError>)
        ensures
            result == self.verdict(),
    {
        if self.fourcc == 0 {
            return Err(FormatValidationError::InvalidFourcc);
        }
        Ok(())
    }
}

impl StorageFormat {
    /// What `validate` returns.
    pub open spec fn verdict(self) -> Result<(), FormatValidationError> {
        match self {
            StorageFormat::Binary(format) => format.verdict(),
            StorageFormat::DmaBuf(format) => format.verdict(),
        }
    }

    /// Checks the format of whichever storage it is.
    pub fn validate(&self) -> (result: Result<(), FormatValidationError>)
        ensures
            result == self.verdict(),
    {
        match self {
            StorageFormat::Binary(format) => format.validate(),
            StorageFormat::DmaBuf(format) => format.validate(),
        }
    }
}

/// Both parts of the fraction are positive.
pub open spec fn is_positive(fraction: Rational) -> bool {
    fraction.0 > 0 && fraction.1 > 0
}

impl Format {
    /// What `validate` returns: the first fault of the size, the frame rate, the storage, the
    /// synchronization and alpha of binary storage, and the pixel aspect ratio.
    pub open spec fn verdict(self) -> Result<(), FormatValidationError> {
        if self.width == 0 || self.height == 0 {
            Err(FormatValidationError::ZeroSize { width: self.width, height: self.height })
        } else if self.framerate matches Some(rate) && !is_positive(rate) {
            let (numerator, denominator) = self.framerate.unwrap();
            Err(FormatValidationError::InvalidFramerate { numerator, denominator })
        } else if self.storage.verdict() is Err {
            self.storage.verdict()
        } else if self.storage is Binary && self.acquire_sync !is Implicit {
            Err(FormatValidationError::BinaryFormatRequiresImplicitSync)
        } else if self.storage is Binary && self.storage->Binary_0.pixel_format !is Rgba8888
            && self.alpha_mode !is Opaque {
            Err(FormatValidationError::BinaryFormatRequiresOpaqueAlpha)
        } else if !is_positive(self.pixel_aspect_ratio) {
            Err(
                FormatValidationError::InvalidPixelAspectRatio {
                    numerator: self.pixel_aspect_ratio.0,
                    denominator: self.pixel_aspect_ratio.1,
                },
            )
        } else {
            Ok(())
        }
    }

    /// The format describes a stream.
    pub open spec fn well_formed(self) -> bool {
        &&& self.width > 0
        &&& self.height > 0
        &&& self.framerate matches Some(rate) ==> is_positive(rate)
        &&& is_positive(self.pixel_aspect_ratio)
        &&& self.storage matches StorageFormat::DmaBuf(format) ==> format.fourcc != 0
        &&& self.storage matches StorageFormat::Binary(format) ==> {
            &&& format.pixel_format is Bw1 <==> format.bw1_polarity is Some
            &&& self.acquire_sync is Implicit
            &&& format.pixel_format is Rgba8888 || self.alpha_mode is Opaque
        }
    }

    /// Checks the numeric ranges and what the storage kind asks of the other fields.
    pub fn validate(&self) -> (result: Result<(), FormatValidationError>)
        ensures
            result == self.verdict(),
            result is Ok <==> self.well_formed(),
    {
        if self.width == 0 || self.height == 0 {
            return Err(FormatValidationError::ZeroSize { width: self.width, height: self.height });
        }
        match self.framerate {
            Some((numerator, denominator)) => {
                if numerator == 0 || denominator == 0 {
                    return Err(FormatValidationError::InvalidFramerate { numerator, denominator });
                }
            },
            None => {},
        }
        match self.storage.validate() {
            Ok(()) => {},
            Err(fault) => return Err(fault),
        }
        match self.storage {
            StorageFormat::Binary(storage) => {
                match self.acquire_sync {
                    AcquireSyncPolicy::Implicit => {},
                    _ => return Err(FormatValidationError::BinaryFormatRequiresImplicitSync),
                }
                if storage.pixel_format != BinaryPixelFormat::Rgba8888 && self.alpha_mode
                    != AlphaMode::Opaque {
                    return Err(FormatValidationError::BinaryFormatRequiresOpaqueAlpha);
                }
            },
            StorageFormat::DmaBuf(_) => {},
        }
        let (numerator, denominator): (u32, u32) = self.pixel_aspect_ratio;
        if numerator == 0 || denominator == 0 {
            return Err(FormatValidationError::InvalidPixelAspectRatio { numerator, denominator });
        }
        Ok(())
    }
}

} // verus!
