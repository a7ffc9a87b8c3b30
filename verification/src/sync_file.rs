//! Acquire synchronization of a frame.

use vstd::prelude::*;

use crate::error::DuplicateError;

verus! {

/// A borrowed sync-file descriptor that signals when the producer has finished writing.
#[derive(Clone, Copy, Debug)]
pub struct SyncFile {
    pub acquire_fence_fd: i32,
}

/// How a consumer learns that a frame may be read.
#[derive(Clone, Copy, Debug)]
pub enum AcquireSync {
    Implicit,
    SyncFile(SyncFile),
}

/// Acquire synchronization with a sync-file descriptor `H` of its own.
#[derive(Debug)]
pub enum OwnedAcquireSync<H> {
    Implicit,
    SyncFile(H),
}

/// What duplicating a sync file with `duplicate` may come to.
pub open spec fn fence_outcome<H, D: Fn(i32) -> Result<H, std::io::Error>>(
    sync_file: SyncFile,
    duplicate: D,
    result: Result<H, DuplicateError>,
) -> bool {
    if sync_file.acquire_fence_fd < 0 {
        result matches Err(DuplicateError::NegativeAcquireFence(fd)) && fd
            == sync_file.acquire_fence_fd
    } else {
        match result {
            Ok(handle) => call_ensures(duplicate, (sync_file.acquire_fence_fd,), Ok(handle)),
            Err(DuplicateError::DuplicateAcquireFence { fd, source }) => fd
                == sync_file.acquire_fence_fd && call_ensures(duplicate, (fd,), Err(source)),
            Err(_) => false,
        }
    }
}

/// What duplicating acquire synchronization with `duplicate` may come to. Implicit
/// synchronization holds no descriptor and is always duplicated.
pub open spec fn sync_outcome<H, D: Fn(i32) -> Result<H, std::io::Error>>(
    sync: AcquireSync,
    duplicate: D,
    result: Result<OwnedAcquireSync<H>, DuplicateError>,
) -> bool {
    match sync {
        AcquireSync::Implicit => result matches Ok(OwnedAcquireSync::Implicit),
        AcquireSync::SyncFile(sync_file) => match result {
            Ok(OwnedAcquireSync::SyncFile(handle)) => fence_outcome(
                sync_file,
                duplicate,
                Ok(handle),
            ),
            Ok(OwnedAcquireSync::Implicit) => false,
            Err(error) => fence_outcome(sync_file, duplicate, Err(error)),
        },
    }
}

impl SyncFile {
    /// Duplicates the borrowed descriptor. `duplicate` is the close-on-exec duplication of the
    /// operating system; it is not called for a negative descriptor.
    pub fn duplicate_cloexec<H, D>(&self, duplicate: D) -> (result: Result<
        H,
        DuplicateError,
    >) where D: Fn(i32) -> Result<H, std::io::Error>
        requires
            self.acquire_fence_fd >= 0 ==> call_requires(duplicate, (self.acquire_fence_fd,)),
        ensures
            fence_outcome(*self, duplicate, result),
    {
        if self.acquire_fence_fd < 0 {
            return Err(DuplicateError::NegativeAcquireFence(self.acquire_fence_fd));
        }
        match duplicate(self.acquire_fence_fd) {
            Ok(handle) => Ok(handle),
            Err(source) => Err(
                DuplicateError::DuplicateAcquireFence { fd: self.acquire_fence_fd, source },
            ),
        }
    }
}

impl AcquireSync {
    /// Duplicates the borrowed sync file, where there is one.
    pub fn duplicate_cloexec<H, D>(&self, duplicate: D) -> (result: Result<
        OwnedAcquireSync<H>,
        DuplicateError,
    >) where D: Fn(i32) -> Result<H, std::io::Error>
        requires
            self matches AcquireSync::SyncFile(sync_file) ==> sync_file.acquire_fence_fd >= 0
                ==> call_requires(duplicate, (sync_file.acquire_fence_fd,)),
        ensures
            sync_outcome(*self, duplicate, result),
    {
        match self {
            AcquireSync::Implicit => Ok(OwnedAcquireSync::Implicit),
            AcquireSync::SyncFile(sync_file) => match sync_file.duplicate_cloexec(duplicate) {
                Ok(handle) => Ok(OwnedAcquireSync::SyncFile(handle)),
                Err(error) => Err(error),
            },
        }
    }
}

} // verus!
