//! Frames: storage, geometry and acquire synchronization together.

use vstd::prelude::*;

use crate::dmabuf::{Descriptor, OwnedDescriptor};
use crate::error::{DuplicateError, ValidationError};
use crate::geometry::Rect;
use crate::sync_file::{AcquireSync, OwnedAcquireSync};

verus! {

/// One plane of owned bytes.
#[derive(Clone, Copy, Debug, PartialEq, Eq, Structural)]
pub struct BinaryPlane {
    pub offset: u64,
    pub stride: u32,
}

/// A frame in owned bytes.
#[derive(Debug, PartialEq, Eq)]
pub struct BinaryStorage {
    pub data: Vec<u8>,
    pub planes: Vec<BinaryPlane>,
}

/// The contents of a binary storage.
#[verifier::ext_equal]
pub ghost struct BinaryView {
    pub data: Seq<u8>,
    pub planes: Seq<BinaryPlane>,
}

impl View for BinaryStorage {
    type V = BinaryView;

    open spec fn view(&self) -> BinaryView {
        BinaryView { data: self.data@, planes: self.planes@ }
    }
}

impl Clone for BinaryStorage {
    fn clone(&self) -> (copy: BinaryStorage)
        ensures
            copy@ == self@,
    {
        let data = self.data.clone();
        let planes = self.planes.clone();
        assert(data@ =~= self.data@);
        assert(planes@ =~= self.planes@);
        BinaryStorage { data, planes }
    }
}

/// Where the pixels of a frame are.
#[derive(Debug)]
#[non_exhaustive]
pub enum Storage {
    Binary(BinaryStorage),
    DmaBuf(Descriptor),
}

/// Storage that holds its bytes or its file descriptors itself.
#[derive(Debug)]
#[non_exhaustive]
pub enum OwnedStorage<H> {
    Binary(BinaryStorage),
    DmaBuf(OwnedDescriptor<H>),
}

/// A frame with borrowed file descriptors.
#[derive(Debug)]
pub struct FrameDescriptor {
    pub coded_width: u32,
    pub coded_height: u32,
    pub visible_rect: Rect,
    pub storage: Storage,
    pub acquire_sync: AcquireSync,
}

/// A frame with file descriptors of its own.
#[derive(Debug)]
pub struct OwnedFrame<H> {
    pub coded_width: u32,
    pub coded_height: u32,
    pub visible_rect: Rect,
    pub storage: OwnedStorage<H>,
    pub acquire_sync: OwnedAcquireSync<H>,
}

impl Storage {
    /// The two storages have the same contents.
    pub open spec fn same_contents(self, other: Storage) -> bool {
        match (self, other) {
            (Storage::Binary(storage), Storage::Binary(copy)) => storage@ == copy@,
            (Storage::DmaBuf(descriptor), Storage::DmaBuf(copy)) => descriptor@ == copy@,
            _ => false,
        }
    }
}

impl Clone for Storage {
    fn clone(&self) -> (copy: Storage)
        ensures
            copy.same_contents(*self),
    {
        match self {
            Storage::Binary(storage) => Storage::Binary(storage.clone()),
            Storage::DmaBuf(descriptor) => Storage::DmaBuf(descriptor.clone()),
        }
    }
}

impl Clone for FrameDescriptor {
    fn clone(&self) -> (copy: FrameDescriptor)
        ensures
            copy.coded_width == self.coded_width,
            copy.coded_height == self.coded_height,
            copy.visible_rect == self.visible_rect,
            copy.storage.same_contents(self.storage),
            copy.acquire_sync == self.acquire_sync,
    {
        FrameDescriptor {
            coded_width: self.coded_width,
            coded_height: self.coded_height,
            visible_rect: self.visible_rect,
            storage: self.storage.clone(),
            acquire_sync: self.acquire_sync,
        }
    }
}

impl BinaryView {
    /// What `BinaryStorage::validate` returns.
    pub open spec fn verdict(self) -> Result<(), ValidationError> {
        if self.planes.len() == 0 {
            Err(ValidationError::EmptyBinaryPlanes)
        } else if self.planes.len() != 1 {
            Err(ValidationError::UnsupportedBinaryPlaneCount(self.planes.len() as usize))
        } else if self.planes[0].stride == 0 {
            Err(ValidationError::ZeroBinaryStride)
        } else if self.planes[0].offset >= self.data.len() {
            Err(
                ValidationError::BinaryOffsetOutOfBounds {
                    offset: self.planes[0].offset,
                    data_size: self.data.len() as u64,
                },
            )
        } else {
            Ok(())
        }
    }

    /// Where the last of `coded_height` rows starts.
    pub open spec fn last_row(self, coded_height: u32) -> int {
        self.planes[0].offset + self.planes[0].stride * (if coded_height == 0 {
            0int
        } else {
            coded_height - 1
        })
    }

    /// What the check of the last row returns: the row has to start inside the data, and the
    /// position that is reported saturates.
    pub open spec fn height_verdict(self, coded_height: u32) -> Result<(), ValidationError> {
        if self.last_row(coded_height) >= self.data.len() {
            Err(
                ValidationError::BinaryLastRowOutOfBounds {
                    offset: if self.last_row(coded_height) > u64::MAX {
                        u64::MAX
                    } else {
                        self.last_row(coded_height) as u64
                    },
                    data_size: self.data.len() as u64,
                },
            )
        } else {
            Ok(())
        }
    }
}

impl Storage {
    /// What `validate` returns.
    pub open spec fn verdict(self) -> Result<(), ValidationError> {
        match self {
            Storage::Binary(storage) => storage@.verdict(),
            Storage::DmaBuf(descriptor) => descriptor@.verdict(),
        }
    }

    /// Checks the storage by itself.
    pub fn validate(&self) -> (result: Result<(), ValidationError>)
        ensures
            result == self.verdict(),
    {
        match self {
            Storage::Binary(storage) => storage.validate(),
            Storage::DmaBuf(descriptor) => descriptor.validate(),
        }
    }

    /// `duplicate` may be called on every file descriptor of the storage, where it is valid.
    pub open spec fn admits<H, D: Fn(i32) -> Result<H, std::io::Error>>(
        self,
        duplicate: D,
    ) -> bool {
        self matches Storage::DmaBuf(descriptor) ==> descriptor.admits(duplicate)
    }

    /// What duplicating the storage with `duplicate` may come to. Bytes are always copied.
    pub open spec fn duplication_outcome<H, D: Fn(i32) -> Result<H, std::io::Error>>(
        self,
        duplicate: D,
        result: Result<OwnedStorage<H>, DuplicateError>,
    ) -> bool {
        match self {
            Storage::Binary(storage) => result matches Ok(OwnedStorage::Binary(copy)) && copy@
                == storage@,
            Storage::DmaBuf(descriptor) => match result {
                Ok(OwnedStorage::DmaBuf(owned)) => crate::dmabuf::duplication_outcome(
                    descriptor,
                    duplicate,
                    Ok(owned),
                ),
                Ok(OwnedStorage::Binary(_)) => false,
                Err(error) => crate::dmabuf::duplication_outcome(descriptor, duplicate, Err(error)),
            },
        }
    }

    /// Copies the bytes, or duplicates the borrowed file descriptors with `duplicate`.
    pub fn duplicate_cloexec<H, D>(&self, duplicate: D) -> (result: Result<
        OwnedStorage<H>,
        DuplicateError,
    >) where D: Fn(i32) -> Result<H, std::io::Error>
        requires
            self.admits(duplicate),
        ensures
            self.duplication_outcome(duplicate, result),
    {
        match self {
            Storage::Binary(storage) => Ok(OwnedStorage::Binary(storage.clone())),
            Storage::DmaBuf(descriptor) => match descriptor.duplicate_cloexec(duplicate) {
                Ok(owned) => Ok(OwnedStorage::DmaBuf(owned)),
                Err(error) => Err(error),
            },
        }
    }
}

impl BinaryStorage {
    /// Checks that there is one plane and that it starts inside the data.
    pub fn validate(&self) -> (result: Result<(), ValidationError>)
        ensures
            result == self@.verdict(),
    {
        if self.planes.len() == 0 {
            return Err(ValidationError::EmptyBinaryPlanes);
        }
        if self.planes.len() != 1 {
            return Err(ValidationError::UnsupportedBinaryPlaneCount(self.planes.len()));
        }
        let plane = self.planes[0];
        if plane.stride == 0 {
            return Err(ValidationError::ZeroBinaryStride);
        }
        if plane.offset >= self.data.len() as u64 {
            return Err(
                ValidationError::BinaryOffsetOutOfBounds {
                    offset: plane.offset,
                    data_size: self.data.len() as u64,
                },
            );
        }
        Ok(())
    }

    fn validate_height(&self, coded_height: u32) -> (result: Result<(), ValidationError>)
        requires
            self.planes.len() == 1,
        ensures
            result == self@.height_verdict(coded_height),
    {
        let plane = self.planes[0];
        let rows: u32 = coded_height.saturating_sub(1);
        assert(plane.stride * rows <= 0xffff_ffff * 0xffff_ffff) by (nonlinear_arith)
            requires
                plane.stride <= 0xffff_ffff,
                rows <= 0xffff_ffff,
        ;
        let last_row: u64 = match plane.offset.checked_add(plane.stride as u64 * rows as u64) {
            Some(last_row) => last_row,
            None => return Err(
                ValidationError::BinaryLastRowOutOfBounds {
                    offset: u64::MAX,
                    data_size: self.data.len() as u64,
                },
            ),
        };
        if last_row >= self.data.len() as u64 {
            return Err(
                ValidationError::BinaryLastRowOutOfBounds {
                    offset: last_row,
                    data_size: self.data.len() as u64,
                },
            );
        }
        Ok(())
    }
}

impl FrameDescriptor {
    /// What `validate` returns: the first fault of the geometry, of the storage, of the last row
    /// of binary storage, and of the acquire synchronization.
    pub open spec fn verdict(self) -> Result<(), ValidationError> {
        let geometry = self.visible_rect.verdict(self.coded_width, self.coded_height);
        if geometry is Err {
            geometry
        } else if self.storage.verdict() is Err {
            self.storage.verdict()
        } else {
            match (self.storage, self.acquire_sync) {
                (Storage::Binary(storage), sync) => {
                    let rows = storage@.height_verdict(self.coded_height);
                    if rows is Err {
                        rows
                    } else if sync !is Implicit {
                        Err(ValidationError::BinaryStorageRequiresImplicitSync)
                    } else {
                        Ok(())
                    }
                },
                (Storage::DmaBuf(_), AcquireSync::SyncFile(sync_file)) => {
                    if sync_file.acquire_fence_fd < 0 {
                        Err(ValidationError::NegativeAcquireFence(sync_file.acquire_fence_fd))
                    } else {
                        Ok(())
                    }
                },
                (Storage::DmaBuf(_), AcquireSync::Implicit) => Ok(()),
            }
        }
    }

    /// Checks geometry, storage and synchronization.
    pub fn validate(&self) -> (result: Result<(), ValidationError>)
        ensures
            result == self.verdict(),
    {
        match self.visible_rect.validate(self.coded_width, self.coded_height) {
            Ok(()) => {},
            Err(fault) => return Err(fault),
        }
        match self.storage.validate() {
            Ok(()) => {},
            Err(fault) => return Err(fault),
        }
        match &self.storage {
            Storage::Binary(storage) => {
                match storage.validate_height(self.coded_height) {
                    Ok(()) => {},
                    Err(fault) => return Err(fault),
                }
                match &self.acquire_sync {
                    AcquireSync::Implicit => Ok(()),
                    AcquireSync::SyncFile(_) => Err(
                        ValidationError::BinaryStorageRequiresImplicitSync,
                    ),
                }
            },
            Storage::DmaBuf(_) => match &self.acquire_sync {
                AcquireSync::Implicit => Ok(()),
                AcquireSync::SyncFile(sync_file) => {
                    if sync_file.acquire_fence_fd < 0 {
                        Err(ValidationError::NegativeAcquireFence(sync_file.acquire_fence_fd))
                    } else {
                        Ok(())
                    }
                },
            },
        }
    }

    /// `duplicate` may be called on every file descriptor of the frame, where it is valid.
    pub open spec fn admits<H, D: Fn(i32) -> Result<H, std::io::Error>>(
        self,
        duplicate: D,
    ) -> bool {
        self.verdict() is Ok ==> {
            &&& self.storage.admits(duplicate)
            &&& self.acquire_sync matches AcquireSync::SyncFile(sync_file) ==> call_requires(
                duplicate,
                (sync_file.acquire_fence_fd,),
            )
        }
    }

    /// What duplicating the frame with `duplicate` may come to. A frame that validation refuses is
    /// refused with the same fault, before anything is duplicated. Otherwise the storage is
    /// duplicated, then the acquire fence, and the first failure is the result.
    pub open spec fn duplication_outcome<H, D: Fn(i32) -> Result<H, std::io::Error>>(
        self,
        duplicate: D,
        result: Result<OwnedFrame<H>, DuplicateError>,
    ) -> bool {
        match self.verdict() {
            Err(fault) => result matches Err(DuplicateError::InvalidFrame(reported)) && reported
                == fault,
            Ok(()) => match result {
                Ok(owned) => {
                    &&& owned.coded_width == self.coded_width
                    &&& owned.coded_height == self.coded_height
                    &&& owned.visible_rect == self.visible_rect
                    &&& self.storage.duplication_outcome(duplicate, Ok(owned.storage))
                    &&& crate::sync_file::sync_outcome(
                        self.acquire_sync,
                        duplicate,
                        Ok(owned.acquire_sync),
                    )
                },
                Err(error) => {
                    ||| self.storage.duplication_outcome(duplicate, Err(error))
                    ||| crate::sync_file::sync_outcome(
                        self.acquire_sync,
                        duplicate,
                        Err::<OwnedAcquireSync<H>, _>(error),
                    ) && exists|storage: OwnedStorage<H>|
                        self.storage.duplication_outcome(duplicate, Ok(storage))
                },
            },
        }
    }

    /// Validates the frame and duplicates every borrowed file descriptor with `duplicate`, the
    /// close-on-exec duplication of the operating system.
    pub fn duplicate_cloexec<H, D>(&self, duplicate: D) -> (result: Result<
        OwnedFrame<H>,
        DuplicateError,
    >) where D: Fn(i32) -> Result<H, std::io::Error> + Copy
        requires
            self.admits(duplicate),
        ensures
            self.duplication_outcome(duplicate, result),
    {
        match self.validate() {
            Ok(()) => {},
            Err(fault) => return Err(DuplicateError::InvalidFrame(fault)),
        }
        let storage = match self.storage.duplicate_cloexec(duplicate) {
            Ok(storage) => storage,
            Err(error) => return Err(error),
        };
        let acquire_sync = match self.acquire_sync.duplicate_cloexec(duplicate) {
            Ok(acquire_sync) => acquire_sync,
            Err(error) => return Err(error),
        };
        Ok(
            OwnedFrame {
                coded_width: self.coded_width,
                coded_height: self.coded_height,
                visible_rect: self.visible_rect,
                storage,
                acquire_sync,
            },
        )
    }
}

} // verus!
