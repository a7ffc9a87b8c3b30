//! Errors of descriptor validation, descriptor duplication and frame preparation.

use vstd::prelude::*;

use crate::text::{decimal, signed_decimal, Message};

verus! {

/// `std::io::Error`, carried unopened from the operating system to the caller.
#[verifier::external_type_specification]
#[verifier::external_body]
pub struct ExIoError(std::io::Error);

/// Why a frame or a descriptor is not well formed.
#[derive(Debug, PartialEq, Eq)]
pub enum ValidationError {
    ZeroCodedSize { width: u32, height: u32 },
    ZeroVisibleSize { width: u32, height: u32 },
    VisibleRectOverflow,
    VisibleRectOutOfBounds {
        x: u32,
        y: u32,
        width: u32,
        height: u32,
        coded_width: u32,
        coded_height: u32,
    },
    UnsupportedDescriptorVersion(u32),
    EmptyObjects,
    EmptyLayers,
    TooManyEntries { kind: &'static str, actual: usize, maximum: usize },
    NegativeFd { index: usize, fd: i32 },
    NegativeAcquireFence(i32),
    EmptyBinaryPlanes,
    UnsupportedBinaryPlaneCount(usize),
    ZeroBinaryStride,
    BinaryOffsetOutOfBounds { offset: u64, data_size: u64 },
    BinaryLastRowOutOfBounds { offset: u64, data_size: u64 },
    BinaryStorageRequiresImplicitSync,
    UnreferencedObject { index: usize },
    ZeroObjectSize { index: usize },
    InvalidFourcc { index: usize },
    EmptyPlanes { index: usize },
    TooManyPlanes { actual: usize, maximum: usize },
    ZeroPitch { layer: usize, plane: usize },
    InvalidObjectIndex { layer: usize, plane: usize, object_index: u32, object_count: usize },
    PlaneOffsetOutOfBounds {
        layer: usize,
        plane: usize,
        object_index: u32,
        offset: u64,
        object_size: u64,
    },
}

impl ValidationError {
    /// The diagnostic that `message` returns.
    pub open spec fn text(self) -> Seq<char> {
        match self {
            ValidationError::ZeroCodedSize { width, height } =>
                "coded frame size must be positive, got "@ + decimal(width as nat) + "x"@ + decimal(
                    height as nat,
                ),
            ValidationError::ZeroVisibleSize { width, height } =>
                "visible frame size must be positive, got "@ + decimal(width as nat) + "x"@
                    + decimal(height as nat),
            ValidationError::VisibleRectOverflow => "visible rectangle arithmetic overflowed"@,
            ValidationError::VisibleRectOutOfBounds {
                x,
                y,
                width,
                height,
                coded_width,
                coded_height,
            } => "visible rectangle ("@ + decimal(x as nat) + ", "@ + decimal(y as nat) + ", "@
                + decimal(width as nat) + ", "@ + decimal(height as nat) + ") exceeds coded size "@
                + decimal(coded_width as nat) + "x"@ + decimal(coded_height as nat),
            ValidationError::UnsupportedDescriptorVersion(version) =>
                "unsupported descriptor version "@ + decimal(version as nat),
            ValidationError::EmptyObjects => "descriptor has no objects"@,
            ValidationError::EmptyLayers => "descriptor has no layers"@,
            ValidationError::TooManyEntries { kind, actual, maximum } => "descriptor has "@
                + decimal(actual as nat) + " "@ + kind@ + "; maximum is "@ + decimal(
                maximum as nat,
            ),
            ValidationError::NegativeFd { index, fd } => "object "@ + decimal(index as nat)
                + " has negative fd "@ + signed_decimal(fd as int),
            ValidationError::NegativeAcquireFence(fd) => "acquire fence has negative fd "@
                + signed_decimal(fd as int),
            ValidationError::EmptyBinaryPlanes => "binary storage has no planes"@,
            ValidationError::UnsupportedBinaryPlaneCount(count) => "binary storage has "@ + decimal(
                count as nat,
            ) + " planes; only one plane is supported"@,
            ValidationError::ZeroBinaryStride => "binary storage plane has zero stride"@,
            ValidationError::BinaryOffsetOutOfBounds { offset, data_size } =>
                "binary storage plane offset "@ + decimal(offset as nat) + " is outside "@
                    + decimal(data_size as nat) + " bytes"@,
            ValidationError::BinaryLastRowOutOfBounds { offset, data_size } =>
                "binary storage last row starts at "@ + decimal(offset as nat) + ", outside "@
                    + decimal(data_size as nat) + " bytes"@,
            ValidationError::BinaryStorageRequiresImplicitSync =>
                "binary storage requires implicit synchronization"@,
            ValidationError::UnreferencedObject { index } => "object "@ + decimal(index as nat)
                + " is not referenced by any descriptor plane"@,
            ValidationError::ZeroObjectSize { index } => "object "@ + decimal(index as nat)
                + " has zero size"@,
            ValidationError::InvalidFourcc { index } => "layer "@ + decimal(index as nat)
                + " has invalid DRM fourcc 0"@,
            ValidationError::EmptyPlanes { index } => "layer "@ + decimal(index as nat)
                + " has no planes"@,
            ValidationError::TooManyPlanes { actual, maximum } => "descriptor has "@ + decimal(
                actual as nat,
            ) + " total planes; maximum is "@ + decimal(maximum as nat),
            ValidationError::ZeroPitch { layer, plane } => "layer "@ + decimal(layer as nat)
                + " plane "@ + decimal(plane as nat) + " has zero pitch"@,
            ValidationError::InvalidObjectIndex { layer, plane, object_index, object_count } =>
                "layer "@ + decimal(layer as nat) + " plane "@ + decimal(plane as nat)
                    + " references object "@ + decimal(object_index as nat) + ", but only "@
                    + decimal(object_count as nat) + " objects exist"@,
            ValidationError::PlaneOffsetOutOfBounds {
                layer,
                plane,
                object_index,
                offset,
                object_size,
            } => "layer "@ + decimal(layer as nat) + " plane "@ + decimal(plane as nat)
                + " offset "@ + decimal(offset as nat) + " is outside object "@ + decimal(
                object_index as nat,
            ) + " of size "@ + decimal(object_size as nat),
        }
    }

    /// The diagnostic for a log.
    pub fn message(&self) -> (message: String)
        ensures
            message@ == self.text(),
    {
        match *self {
            ValidationError::ZeroCodedSize { width, height } => Message::new(
                "coded frame size must be positive, got ",
            ).number(width as u64).text("x").number(height as u64).done(),
            ValidationError::ZeroVisibleSize { width, height } => Message::new(
                "visible frame size must be positive, got ",
            ).number(width as u64).text("x").number(height as u64).done(),
            ValidationError::VisibleRectOverflow =>
                "visible rectangle arithmetic overflowed".to_owned(),
            ValidationError::VisibleRectOutOfBounds {
                x,
                y,
                width,
                height,
                coded_width,
                coded_height,
            } => Message::new("visible rectangle (").number(x as u64).text(", ").number(
                y as u64,
            ).text(", ").number(width as u64).text(", ").number(height as u64).text(
                ") exceeds coded size ",
            ).number(coded_width as u64).text("x").number(coded_height as u64).done(),
            ValidationError::UnsupportedDescriptorVersion(version) => Message::new(
                "unsupported descriptor version ",
            ).number(version as u64).done(),
            ValidationError::EmptyObjects => "descriptor has no objects".to_owned(),
            ValidationError::EmptyLayers => "descriptor has no layers".to_owned(),
            ValidationError::TooManyEntries { kind, actual, maximum } => Message::new(
                "descriptor has ",
            ).number(actual as u64).text(" ").text(kind).text("; maximum is ").number(
                maximum as u64,
            ).done(),
            ValidationError::NegativeFd { index, fd } => Message::new("object ").number(
                index as u64,
            ).text(" has negative fd ").signed(fd as i64).done(),
            ValidationError::NegativeAcquireFence(fd) => Message::new(
                "acquire fence has negative fd ",
            ).signed(fd as i64).done(),
            ValidationError::EmptyBinaryPlanes => "binary storage has no planes".to_owned(),
            ValidationError::UnsupportedBinaryPlaneCount(count) => Message::new(
                "binary storage has ",
            ).number(count as u64).text(" planes; only one plane is supported").done(),
            ValidationError::ZeroBinaryStride => "binary storage plane has zero stride".to_owned(),
            ValidationError::BinaryOffsetOutOfBounds { offset, data_size } => Message::new(
                "binary storage plane offset ",
            ).number(offset).text(" is outside ").number(data_size).text(" bytes").done(),
            ValidationError::BinaryLastRowOutOfBounds { offset, data_size } => Message::new(
                "binary storage last row starts at ",
            ).number(offset).text(", outside ").number(data_size).text(" bytes").done(),
            ValidationError::BinaryStorageRequiresImplicitSync =>
                "binary storage requires implicit synchronization".to_owned(),
            ValidationError::UnreferencedObject { index } => Message::new("object ").number(
                index as u64,
            ).text(" is not referenced by any descriptor plane").done(),
            ValidationError::ZeroObjectSize { index } => Message::new("object ").number(
                index as u64,
            ).text(" has zero size").done(),
            ValidationError::InvalidFourcc { index } => Message::new("layer ").number(
                index as u64,
            ).text(" has invalid DRM fourcc 0").done(),
            ValidationError::EmptyPlanes { index } => Message::new("layer ").number(
                index as u64,
            ).text(" has no planes").done(),
            ValidationError::TooManyPlanes { actual, maximum } => Message::new(
                "descriptor has ",
            ).number(actual as u64).text(" total planes; maximum is ").number(
                maximum as u64,
            ).done(),
            ValidationError::ZeroPitch { layer, plane } => Message::new("layer ").number(
                layer as u64,
            ).text(" plane ").number(plane as u64).text(" has zero pitch").done(),
            ValidationError::InvalidObjectIndex { layer, plane, object_index, object_count } =>
                Message::new("layer ").number(layer as u64).text(" plane ").number(
                plane as u64,
            ).text(" references object ").number(object_index as u64).text(", but only ").number(
                object_count as u64,
            ).text(" objects exist").done(),
            ValidationError::PlaneOffsetOutOfBounds {
                layer,
                plane,
                object_index,
                offset,
                object_size,
            } => Message::new("layer ").number(layer as u64).text(" plane ").number(
                plane as u64,
            ).text(" offset ").number(offset).text(" is outside object ").number(
                object_index as u64,
            ).text(" of size ").number(object_size).done(),
        }
    }
}

/// Why the descriptors of a frame could not be duplicated.
#[derive(Debug)]
pub enum DuplicateError {
    InvalidFrame(ValidationError),
    NegativeAcquireFence(i32),
    DuplicateObjectFd { index: usize, fd: i32, source: std::io::Error },
    DuplicateAcquireFence { fd: i32, source: std::io::Error },
}

impl DuplicateError {
    /// The diagnostic that `message` returns, where `cause` is how the operating system describes
    /// its error.
    pub open spec fn text(self, cause: Seq<char>) -> Seq<char> {
        match self {
            DuplicateError::InvalidFrame(fault) => fault.text(),
            DuplicateError::NegativeAcquireFence(fd) => "acquire fence has negative fd "@
                + signed_decimal(fd as int),
            DuplicateError::DuplicateObjectFd { index, fd, .. } => "failed to duplicate object "@
                + decimal(index as nat) + " fd "@ + signed_decimal(fd as int) + ": "@ + cause,
            DuplicateError::DuplicateAcquireFence { fd, .. } =>
                "failed to duplicate acquire-fence fd "@ + signed_decimal(fd as int) + ": "@
                    + cause,
        }
    }

    /// The diagnostic for a log. `cause` is how the operating system describes its error; it is
    /// used where there is one.
    pub fn message(&self, cause: &str) -> (message: String)
        ensures
            message@ == self.text(cause@),
    {
        match self {
            DuplicateError::InvalidFrame(fault) => fault.message(),
            DuplicateError::NegativeAcquireFence(fd) => Message::new(
                "acquire fence has negative fd ",
            ).signed(*fd as i64).done(),
            DuplicateError::DuplicateObjectFd { index, fd, .. } => Message::new(
                "failed to duplicate object ",
            ).number(*index as u64).text(" fd ").signed(*fd as i64).text(": ").text(cause).done(),
            DuplicateError::DuplicateAcquireFence { fd, .. } => Message::new(
                "failed to duplicate acquire-fence fd ",
            ).signed(*fd as i64).text(": ").text(cause).done(),
        }
    }
}

/// Why the allocation size of a DMA-BUF could not be read.
#[derive(Debug)]
#[non_exhaustive]
pub enum DmaBufAllocationSizeError {
    Stat(std::io::Error),
    Seek(std::io::Error),
    Restore(std::io::Error),
    Zero,
    NegativeStat(i64),
    ProbeMismatch { stat: u64, seek_end: u64 },
}

impl DmaBufAllocationSizeError {
    /// The diagnostic that `message` returns, where `cause` is how the operating system describes
    /// its error.
    pub open spec fn text(self, cause: Seq<char>) -> Seq<char> {
        match self {
            DmaBufAllocationSizeError::Stat(_) => "failed to stat DMA-BUF fd: "@ + cause,
            DmaBufAllocationSizeError::Seek(_) => "failed to query DMA-BUF allocation size: "@
                + cause,
            DmaBufAllocationSizeError::Restore(_) =>
                "failed to restore DMA-BUF file position: "@ + cause,
            DmaBufAllocationSizeError::Zero => "DMA-BUF allocation size is zero"@,
            DmaBufAllocationSizeError::NegativeStat(size) => "DMA-BUF stat size is negative: "@
                + signed_decimal(size as int),
            DmaBufAllocationSizeError::ProbeMismatch { stat, seek_end } =>
                "DMA-BUF size probes disagree: fstat="@ + decimal(stat as nat) + ", seek_end="@
                    + decimal(seek_end as nat),
        }
    }

    /// The diagnostic for a log. `cause` is how the operating system describes its error; it is
    /// used where there is one.
    pub fn message(&self, cause: &str) -> (message: String)
        ensures
            message@ == self.text(cause@),
    {
        match self {
            DmaBufAllocationSizeError::Stat(_) => Message::new("failed to stat DMA-BUF fd: ").text(
                cause,
            ).done(),
            DmaBufAllocationSizeError::Seek(_) => Message::new(
                "failed to query DMA-BUF allocation size: ",
            ).text(cause).done(),
            DmaBufAllocationSizeError::Restore(_) => Message::new(
                "failed to restore DMA-BUF file position: ",
            ).text(cause).done(),
            DmaBufAllocationSizeError::Zero => "DMA-BUF allocation size is zero".to_owned(),
            DmaBufAllocationSizeError::NegativeStat(size) => Message::new(
                "DMA-BUF stat size is negative: ",
            ).signed(*size).done(),
            DmaBufAllocationSizeError::ProbeMismatch { stat, seek_end } => Message::new(
                "DMA-BUF size probes disagree: fstat=",
            ).number(*stat).text(", seek_end=").number(*seek_end).done(),
        }
    }
}

/// Why a release dispatcher does not serve.
#[derive(Clone, Debug, PartialEq, Eq)]
pub struct DispatcherError {
    pub message: String,
}

/// The dispatcher does not serve.
pub type ReleaseWorkerError = DispatcherError;

impl DispatcherError {
    /// The diagnostic that `message` returns.
    pub open spec fn text(self) -> Seq<char> {
        "video-interop release dispatcher unavailable: "@ + self.message@
    }

    pub(crate) fn new(message: &str) -> (error: DispatcherError)
        ensures
            error.message@ == message@,
    {
        DispatcherError { message: message.to_owned() }
    }

    /// The diagnostic for a log.
    pub fn message(&self) -> (message: String)
        ensures
            message@ == self.text(),
    {
        Message::new("video-interop release dispatcher unavailable: ").text(
            self.message.as_str(),
        ).done()
    }
}

/// Why a frame could not be prepared for a native consumer.
#[derive(Debug)]
pub enum PrepareError {
    MissingLease,
    UnexpectedLease,
    Duplicate(DuplicateError),
    Dispatcher(DispatcherError),
}

impl PrepareError {
    /// The diagnostic that `message` returns, where `cause` is how the operating system describes
    /// its error.
    pub open spec fn text(self, cause: Seq<char>) -> Seq<char> {
        match self {
            PrepareError::MissingLease => "borrowed video frame storage requires a lease"@,
            PrepareError::UnexpectedLease =>
                "owned binary video frame storage must not carry a lease"@,
            PrepareError::Duplicate(error) => error.text(cause),
            PrepareError::Dispatcher(error) => error.text(),
        }
    }

    /// The diagnostic for a log. `cause` is how the operating system describes its error; it is
    /// used where there is one.
    pub fn message(&self, cause: &str) -> (message: String)
        ensures
            message@ == self.text(cause@),
    {
        match self {
            PrepareError::MissingLease => "borrowed video frame storage requires a lease".to_owned(),
            PrepareError::UnexpectedLease =>
                "owned binary video frame storage must not carry a lease".to_owned(),
            PrepareError::Duplicate(error) => error.message(cause),
            PrepareError::Dispatcher(error) => error.message(),
        }
    }
}

} // verus!
