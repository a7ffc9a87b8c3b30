use video_interop::{
    AcquireSyncPolicy, AlphaMode, BinaryFormat, BinaryPixelFormat, ChromaLocation, ColorRange,
    Colorimetry, DmaBufFormat, Format, FormatValidationError, InterlaceMode, Matrix,
    ModifierPolicy, Primaries, StorageFormat, Transfer,
};

fn format() -> Format {
    Format {
        width: 640,
        height: 480,
        framerate: Some((60, 1)),
        storage: StorageFormat::DmaBuf(DmaBufFormat {
            fourcc: u32::from_le_bytes(*b"NV12"),
            modifier: ModifierPolicy::PerBuffer,
        }),
        acquire_sync: AcquireSyncPolicy::PerFrame,
        colorimetry: Colorimetry::default(),
        pixel_aspect_ratio: (1, 1),
        interlace_mode: InterlaceMode::Progressive,
        alpha_mode: AlphaMode::Opaque,
    }
}

#[test]
fn validates_supported_stream_policy_values() {
    for modifier in [
        ModifierPolicy::PerBuffer,
        ModifierPolicy::Implicit,
        ModifierPolicy::Explicit(0),
        ModifierPolicy::Explicit(u64::MAX),
    ] {
        for acquire_sync in [
            AcquireSyncPolicy::Implicit,
            AcquireSyncPolicy::SyncFile,
            AcquireSyncPolicy::PerFrame,
        ] {
            let mut candidate = format();
            let StorageFormat::DmaBuf(storage) = &mut candidate.storage else {
                unreachable!()
            };
            storage.modifier = modifier;
            candidate.acquire_sync = acquire_sync;
            assert_eq!(candidate.validate(), Ok(()));
        }
    }
}

#[test]
fn binary_formats_require_implicit_synchronization() {
    let mut candidate = format();
    candidate.storage = StorageFormat::Binary(BinaryFormat {
        pixel_format: BinaryPixelFormat::Gray8,
        bw1_polarity: None,
    });
    assert_eq!(
        candidate.validate(),
        Err(FormatValidationError::BinaryFormatRequiresImplicitSync)
    );
    candidate.acquire_sync = AcquireSyncPolicy::Implicit;
    assert_eq!(candidate.validate(), Ok(()));
    candidate.alpha_mode = AlphaMode::Straight;
    assert_eq!(
        candidate.validate(),
        Err(FormatValidationError::BinaryFormatRequiresOpaqueAlpha)
    );
}

#[test]
fn default_colorimetry_is_explicitly_unspecified() {
    assert_eq!(
        Colorimetry::default(),
        Colorimetry {
            primaries: Primaries::Unspecified,
            transfer: Transfer::Unspecified,
            matrix: Matrix::Unspecified,
            range: ColorRange::Unspecified,
            chroma_location: ChromaLocation::Unspecified,
        }
    );
}

#[test]
fn represents_every_elixir_colorimetry_value() {
    let primaries = [
        Primaries::Unspecified,
        Primaries::Bt709,
        Primaries::Bt470M,
        Primaries::Bt470Bg,
        Primaries::Smpte170m,
        Primaries::Smpte240m,
        Primaries::Film,
        Primaries::Bt2020,
        Primaries::Smpte428,
        Primaries::Smpte431,
        Primaries::Smpte432,
        Primaries::Ebu3213,
    ];
    let transfers = [
        Transfer::Unspecified,
        Transfer::Bt709,
        Transfer::Gamma22,
        Transfer::Gamma28,
        Transfer::Smpte170m,
        Transfer::Smpte240m,
        Transfer::Linear,
        Transfer::Log,
        Transfer::LogSqrt,
        Transfer::Iec61966_2_4,
        Transfer::Bt1361,
        Transfer::Iec61966_2_1,
        Transfer::Bt2020_10,
        Transfer::Bt2020_12,
        Transfer::Smpte2084,
        Transfer::Smpte428,
        Transfer::AribStdB67,
    ];
    let matrices = [
        Matrix::Unspecified,
        Matrix::Rgb,
        Matrix::Bt709,
        Matrix::Fcc,
        Matrix::Bt470Bg,
        Matrix::Smpte170m,
        Matrix::Smpte240m,
        Matrix::Ycgco,
        Matrix::Bt2020Ncl,
        Matrix::Bt2020Cl,
        Matrix::Smpte2085,
        Matrix::ChromaDerivedNcl,
        Matrix::ChromaDerivedCl,
        Matrix::Ictcp,
    ];
    let ranges = [
        ColorRange::Unspecified,
        ColorRange::Limited,
        ColorRange::Full,
    ];
    let chroma_locations = [
        ChromaLocation::Unspecified,
        ChromaLocation::Left,
        ChromaLocation::Center,
        ChromaLocation::TopLeft,
        ChromaLocation::Top,
        ChromaLocation::BottomLeft,
        ChromaLocation::Bottom,
    ];

    assert_eq!(primaries.len(), 12);
    assert_eq!(transfers.len(), 17);
    assert_eq!(matrices.len(), 14);
    assert_eq!(ranges.len(), 3);
    assert_eq!(chroma_locations.len(), 7);
}

#[test]
fn rejects_invalid_numeric_schema_values() {
    let mut candidate = format();
    candidate.width = 0;
    assert_eq!(
        candidate.validate(),
        Err(FormatValidationError::ZeroSize {
            width: 0,
            height: 480
        })
    );

    let mut candidate = format();
    candidate.framerate = Some((60, 0));
    assert_eq!(
        candidate.validate(),
        Err(FormatValidationError::InvalidFramerate {
            numerator: 60,
            denominator: 0
        })
    );

    let mut candidate = format();
    let StorageFormat::DmaBuf(storage) = &mut candidate.storage else {
        unreachable!()
    };
    storage.fourcc = 0;
    assert_eq!(
        candidate.validate(),
        Err(FormatValidationError::InvalidFourcc)
    );

    let mut candidate = format();
    candidate.pixel_aspect_ratio = (0, 1);
    assert_eq!(
        candidate.validate(),
        Err(FormatValidationError::InvalidPixelAspectRatio {
            numerator: 0,
            denominator: 1
        })
    );
}
