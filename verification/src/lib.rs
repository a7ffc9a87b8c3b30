//! Frame, format and synchronization contracts for sharing video between processes and GPU APIs.

pub mod dispatcher;
pub mod dmabuf;
pub mod egl;
pub mod error;
pub mod format;
pub mod frame;
pub mod geometry;
pub mod laws;
pub mod modifier;
pub mod probe;
pub mod schema;
pub mod sync_file;
pub mod text;
pub mod vulkan;

pub use dispatcher::{
    new_abandonment_guard, AbandonmentGuard, ClaimedLease, ClaimedVideoFrame, DispatcherHealth,
    DispatcherProbe, Frame, Lease, PreparedLease, PreparedVideoFrame, ReleaseDispatcher,
};
pub use dmabuf::{
    Descriptor, Layer, Object, OwnedDescriptor, OwnedObject, Plane, AV_DRM_MAX_ENTRIES,
};
pub use error::{
    DispatcherError, DmaBufAllocationSizeError, DuplicateError, PrepareError, ReleaseWorkerError,
    ValidationError,
};
pub use format::{
    AcquireSyncPolicy, AlphaMode, BinaryFormat, BinaryPixelFormat, Bw1Polarity, ChromaLocation,
    ColorRange, Colorimetry, DmaBufFormat, Format, FormatValidationError, InterlaceMode, Matrix,
    ModifierPolicy, Primaries, Rational, StorageFormat, StreamAcquireSyncPolicy,
    StreamModifierPolicy, Transfer,
};
pub use frame::{
    BinaryPlane, BinaryStorage, FrameDescriptor, OwnedFrame, OwnedStorage, Storage,
};
pub use geometry::Rect;
pub use modifier::Modifier;
pub use probe::{dmabuf_allocation_size, probe_dmabuf, DmaBufProbe, DmaBufStat, SeekTarget};
pub use sync_file::{AcquireSync, OwnedAcquireSync, SyncFile};
