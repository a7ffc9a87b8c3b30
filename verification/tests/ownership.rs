use std::cell::{Cell, RefCell};
use std::io;
use std::rc::Rc;

use video_interop::probe::{evaluate_probe, ProbeStep};
use video_interop::vulkan::{verified_dmabuf_identity, VulkanImportError};
use video_interop::{
    dmabuf_allocation_size, probe_dmabuf, AcquireSync, BinaryPlane, BinaryStorage, Descriptor,
    DmaBufAllocationSizeError, DmaBufProbe, DmaBufStat, DuplicateError, FrameDescriptor, Layer,
    Modifier, Object, OwnedAcquireSync, OwnedStorage, Plane, Rect, SeekTarget, Storage, SyncFile,
    ValidationError,
};

/// A file that knows its size and its position.
struct File {
    size: u64,
    stat_size: i64,
    position: Cell<u64>,
    seekable: bool,
    seeks: RefCell<Vec<SeekTarget>>,
}

impl File {
    fn new(size: u64, position: u64) -> Self {
        File {
            size,
            stat_size: size as i64,
            position: Cell::new(position),
            seekable: true,
            seeks: RefCell::new(Vec::new()),
        }
    }

    fn stat(&self) -> Result<DmaBufStat, io::Error> {
        Ok(DmaBufStat { device: 3, inode: 5, size: self.stat_size })
    }

    fn seek(&self, target: SeekTarget) -> Result<u64, io::Error> {
        self.seeks.borrow_mut().push(target);
        if !self.seekable {
            return Err(io::Error::other("illegal seek"));
        }
        self.position.set(match target {
            SeekTarget::Current => self.position.get(),
            SeekTarget::End => self.size,
            SeekTarget::Start(position) => position,
        });
        Ok(self.position.get())
    }

    fn probe(&self) -> Result<DmaBufProbe, DmaBufAllocationSizeError> {
        probe_dmabuf(|| self.stat(), |target| self.seek(target))
    }

    fn allocation_size(&self) -> Result<u64, DmaBufAllocationSizeError> {
        dmabuf_allocation_size(|| self.stat(), |target| self.seek(target))
    }
}

/// A descriptor of one's own, which is counted while it is open.
struct Fd {
    raw: i32,
    open: Rc<Cell<usize>>,
}

impl Drop for Fd {
    fn drop(&mut self) {
        self.open.set(self.open.get() - 1);
    }
}

/// A table that hands out duplicates, and refuses one of them where told so.
struct Table {
    open: Rc<Cell<usize>>,
    calls: RefCell<Vec<i32>>,
    refused: usize,
}

impl Table {
    fn new(refused: usize) -> Self {
        Table { open: Rc::new(Cell::new(0)), calls: RefCell::new(Vec::new()), refused }
    }

    fn duplicate(&self, fd: i32) -> Result<Fd, io::Error> {
        self.calls.borrow_mut().push(fd);
        if self.calls.borrow().len() == self.refused {
            return Err(io::Error::other("injected duplicate failure"));
        }
        self.open.set(self.open.get() + 1);
        Ok(Fd { raw: fd + 100, open: Rc::clone(&self.open) })
    }
}

fn descriptor_with_fds(fds: &[i32]) -> Descriptor {
    Descriptor {
        version: 1,
        objects: fds
            .iter()
            .map(|fd| Object { fd: *fd, size: 4096, modifier: Modifier::Implicit })
            .collect(),
        layers: vec![Layer {
            fourcc: u32::from_le_bytes(*b"XR24"),
            planes: (0..fds.len())
                .map(|index| Plane { object_index: index as u32, offset: 0, pitch: 256 })
                .collect(),
        }],
    }
}

#[test]
fn allocation_size_reports_complete_size_and_restores_position() {
    let file = File::new(4_096, 17);
    assert_eq!(file.allocation_size().unwrap(), 4_096);
    assert_eq!(file.position.get(), 17);
}

#[test]
fn allocation_size_and_identity_preserve_large_file_values() {
    let position = i64::from(i32::MAX) + 1;
    let size = position + 4096;
    let file = File::new(size as u64, position as u64);
    let probe = file.probe().unwrap();
    assert_eq!(probe.allocation_size, size as u64);
    assert_eq!(file.position.get(), position as u64);
    assert_eq!(probe.device, 3);
    assert_eq!(probe.inode, 5);
}

#[test]
fn allocation_size_rejects_zero_and_nonseekable_fds() {
    assert!(matches!(
        File::new(0, 0).allocation_size(),
        Err(DmaBufAllocationSizeError::Zero)
    ));
    let mut pipe = File::new(0, 0);
    pipe.seekable = false;
    assert!(matches!(pipe.allocation_size(), Err(DmaBufAllocationSizeError::Seek(_))));
}

#[test]
fn probing_moves_to_the_end_and_back() {
    let file = File::new(64, 9);
    file.probe().unwrap();
    assert_eq!(
        *file.seeks.borrow(),
        vec![SeekTarget::Current, SeekTarget::End, SeekTarget::Start(9)]
    );
}

#[test]
fn probing_reports_what_failed() {
    let stat = probe_dmabuf(|| Err(io::Error::other("gone")), |_| Ok(0)).unwrap_err();
    assert!(matches!(stat, DmaBufAllocationSizeError::Stat(_)));
    assert_eq!(stat.message("gone"), "failed to stat DMA-BUF fd: gone");

    let file = File::new(64, 9);
    let restore = probe_dmabuf(
        || file.stat(),
        |target| match target {
            SeekTarget::Start(_) => Err(io::Error::other("lost")),
            other => file.seek(other),
        },
    )
    .unwrap_err();
    assert!(matches!(restore, DmaBufAllocationSizeError::Restore(_)));

    let mut step = ProbeStep::begin(file.stat());
    step = step.sought(Err(io::Error::other("no position")));
    assert_eq!(step.target(), Some(SeekTarget::End));
    step = step.sought(Ok(64));
    assert_eq!(step.target(), None);
    assert!(matches!(step, ProbeStep::Done(Ok(_))));
}

#[test]
fn the_status_may_leave_the_size_open_but_not_contradict_it() {
    let stat = DmaBufStat { device: 3, inode: 5, size: 0 };
    assert_eq!(
        evaluate_probe(stat, 64).unwrap(),
        DmaBufProbe { device: 3, inode: 5, allocation_size: 64 }
    );
    let error = evaluate_probe(DmaBufStat { size: 65, ..stat }, 64).unwrap_err();
    assert_eq!(error.message(""), "DMA-BUF size probes disagree: fstat=65, seek_end=64");
    let error = evaluate_probe(DmaBufStat { size: -1, ..stat }, 64).unwrap_err();
    assert_eq!(error.message(""), "DMA-BUF stat size is negative: -1");
}

#[test]
fn dmabuf_identity_requires_exact_fd_backed_size_and_restores_position() {
    let file = File::new(4_096, 17);
    let probe = || file.probe().map_err(|error| error.message("illegal seek"));
    let identity = verified_dmabuf_identity(7, 4_096, probe).unwrap();
    assert_eq!(identity.allocation_size, 4_096);
    assert_eq!(file.position.get(), 17);
    assert!(verified_dmabuf_identity(7, 4_095, probe).is_err());
    assert!(verified_dmabuf_identity(7, 4_097, probe).is_err());
}

#[test]
fn identities_need_a_descriptor_and_a_probe() {
    let error = verified_dmabuf_identity(-1, 64, || Err("unused".to_string())).unwrap_err();
    assert_eq!(error.message(), "Vulkan DMA-BUF identity requires a valid fd");
    assert!(error.is_allocation_size());
    let error = verified_dmabuf_identity(1, 64, || Err("no size".to_string())).unwrap_err();
    assert!(matches!(error, VulkanImportError::AllocationSizeProbe(_)));
    assert_eq!(error.message(), "Vulkan no size");
}

#[test]
fn closes_earlier_duplicates_when_a_later_duplicate_fails() {
    let table = Table::new(2);
    let descriptor = descriptor_with_fds(&[4, 4]);
    let result = descriptor.duplicate_with(|fd| table.duplicate(fd));
    assert!(result.is_err());
    assert_eq!(table.calls.borrow().len(), 2);
    assert_eq!(table.open.get(), 0, "the failed operation leaked a duplicated write fd");
    match result {
        Err(DuplicateError::DuplicateObjectFd { index, fd, source }) => {
            assert_eq!((index, fd), (1, 4));
            assert_eq!(source.to_string(), "injected duplicate failure");
        }
        _ => panic!("the failure names the object"),
    }
}

#[test]
fn descriptors_are_asked_for_once_and_in_order() {
    let descriptor = descriptor_with_fds(&[4, 6]);
    let duplication = descriptor.begin_duplication::<i32>().unwrap();
    assert_eq!(duplication.next(&descriptor), Some(4));
    let duplication = duplication.answered(&descriptor, Ok(14)).unwrap();
    assert_eq!(duplication.next(&descriptor), Some(6));
    let duplication = duplication.answered(&descriptor, Ok(16)).unwrap();
    assert_eq!(duplication.next(&descriptor), None);
    let owned = duplication.finish(&descriptor);
    assert_eq!((owned.objects[0].fd, owned.objects[1].fd), (14, 16));
    assert_eq!(owned.objects[1].size, descriptor.objects[1].size);

    let error = descriptor
        .begin_duplication::<i32>()
        .unwrap()
        .answered(&descriptor, Err(io::Error::other("refused")))
        .unwrap_err();
    assert!(matches!(error, DuplicateError::DuplicateObjectFd { index: 0, fd: 4, .. }));
    let invalid = Descriptor { version: 2, ..descriptor };
    assert!(matches!(
        invalid.begin_duplication::<i32>(),
        Err(ValidationError::UnsupportedDescriptorVersion(2))
    ));
}

#[test]
fn duplicates_borrowed_fds_with_cloexec() {
    let table = Table::new(0);
    let owned = descriptor_with_fds(&[4])
        .duplicate_cloexec(|fd| table.duplicate(fd))
        .expect("duplicate descriptor");
    assert_ne!(owned.objects[0].fd.raw, 4);
    assert_eq!(*table.calls.borrow(), vec![4]);
    assert_eq!(owned.layers[0].planes[0].pitch, 256);
    assert_eq!(table.open.get(), 1);
    drop(owned);
    assert_eq!(table.open.get(), 0);
}

#[test]
fn duplicates_acquire_sync_files_with_cloexec() {
    let table = Table::new(0);
    let synchronization = AcquireSync::SyncFile(SyncFile { acquire_fence_fd: 9 });
    let owned = synchronization
        .duplicate_cloexec(|fd| table.duplicate(fd))
        .expect("duplicate acquire fence");
    let OwnedAcquireSync::SyncFile(acquire_fence_fd) = owned else {
        panic!("expected an owned sync file");
    };
    assert_ne!(acquire_fence_fd.raw, 9);
    assert_eq!(*table.calls.borrow(), vec![9]);

    let refused = Table::new(1);
    let error = SyncFile { acquire_fence_fd: 9 }
        .duplicate_cloexec(|fd| refused.duplicate(fd))
        .err()
        .unwrap();
    assert!(matches!(error, DuplicateError::DuplicateAcquireFence { fd: 9, .. }));
    let error = SyncFile { acquire_fence_fd: -3 }
        .duplicate_cloexec(|fd| table.duplicate(fd))
        .err()
        .unwrap();
    assert!(matches!(error, DuplicateError::NegativeAcquireFence(-3)));
}

fn binary_frame(bytes: usize) -> FrameDescriptor {
    FrameDescriptor {
        coded_width: 1,
        coded_height: 2,
        visible_rect: Rect { x: 0, y: 0, width: 1, height: 2 },
        storage: Storage::Binary(BinaryStorage {
            data: vec![0; bytes],
            planes: vec![BinaryPlane { offset: 0, stride: 9 }],
        }),
        acquire_sync: AcquireSync::Implicit,
    }
}

#[test]
fn validates_binary_last_row_without_requiring_trailing_padding() {
    assert_eq!(binary_frame(10).validate(), Ok(()));
}

#[test]
fn rejects_binary_storage_when_the_last_row_is_absent() {
    assert_eq!(
        binary_frame(9).validate(),
        Err(ValidationError::BinaryLastRowOutOfBounds { offset: 9, data_size: 9 })
    );
}

#[test]
fn binary_frames_need_one_plane_with_a_stride_and_no_fence() {
    let mut frame = binary_frame(10);
    frame.acquire_sync = AcquireSync::SyncFile(SyncFile { acquire_fence_fd: 3 });
    assert_eq!(frame.validate(), Err(ValidationError::BinaryStorageRequiresImplicitSync));

    let check = |planes: Vec<BinaryPlane>, expected: ValidationError| {
        let storage = BinaryStorage { data: vec![0; 10], planes };
        assert_eq!(storage.validate(), Err(expected));
    };
    check(vec![], ValidationError::EmptyBinaryPlanes);
    check(
        vec![BinaryPlane { offset: 0, stride: 1 }, BinaryPlane { offset: 0, stride: 1 }],
        ValidationError::UnsupportedBinaryPlaneCount(2),
    );
    check(vec![BinaryPlane { offset: 0, stride: 0 }], ValidationError::ZeroBinaryStride);
    check(
        vec![BinaryPlane { offset: 10, stride: 1 }],
        ValidationError::BinaryOffsetOutOfBounds { offset: 10, data_size: 10 },
    );
}

#[test]
fn frames_are_checked_before_anything_is_duplicated() {
    let table = Table::new(0);
    let frame = FrameDescriptor {
        coded_width: 64,
        coded_height: 16,
        visible_rect: Rect { x: 0, y: 0, width: 64, height: 16 },
        storage: Storage::DmaBuf(descriptor_with_fds(&[4, 5])),
        acquire_sync: AcquireSync::SyncFile(SyncFile { acquire_fence_fd: 6 }),
    };
    let mut outside = frame.clone();
    outside.visible_rect.width = 65;
    let error = outside.duplicate_cloexec(|fd| table.duplicate(fd)).err().unwrap();
    assert!(matches!(
        error,
        DuplicateError::InvalidFrame(ValidationError::VisibleRectOutOfBounds { width: 65, .. })
    ));
    assert!(table.calls.borrow().is_empty());

    let owned = frame.duplicate_cloexec(|fd| table.duplicate(fd)).unwrap();
    assert_eq!(*table.calls.borrow(), vec![4, 5, 6]);
    assert_eq!((owned.coded_width, owned.coded_height), (64, 16));
    assert!(matches!(owned.acquire_sync, OwnedAcquireSync::SyncFile(_)));
    match &owned.storage {
        OwnedStorage::DmaBuf(descriptor) => assert_eq!(descriptor.objects.len(), 2),
        _ => panic!("the storage keeps its kind"),
    }
    drop(owned);
    assert_eq!(table.open.get(), 0);
}

fn storage_error(change: impl Fn(&mut Descriptor)) -> ValidationError {
    let mut descriptor = descriptor_with_fds(&[4]);
    change(&mut descriptor);
    descriptor.validate().unwrap_err()
}

#[test]
fn every_fault_of_a_descriptor_has_its_error() {
    assert_eq!(
        storage_error(|d| d.version = 2),
        ValidationError::UnsupportedDescriptorVersion(2)
    );
    assert_eq!(storage_error(|d| d.objects.clear()), ValidationError::EmptyObjects);
    assert_eq!(storage_error(|d| d.layers.clear()), ValidationError::EmptyLayers);
    assert_eq!(
        storage_error(|d| d.objects[0].fd = -1),
        ValidationError::NegativeFd { index: 0, fd: -1 }
    );
    assert_eq!(
        storage_error(|d| d.objects[0].size = 0),
        ValidationError::ZeroObjectSize { index: 0 }
    );
    assert_eq!(
        storage_error(|d| d.layers[0].fourcc = 0),
        ValidationError::InvalidFourcc { index: 0 }
    );
    assert_eq!(
        storage_error(|d| d.layers[0].planes.clear()),
        ValidationError::EmptyPlanes { index: 0 }
    );
    assert_eq!(
        storage_error(|d| d.layers[0].planes[0].pitch = 0),
        ValidationError::ZeroPitch { layer: 0, plane: 0 }
    );
    assert_eq!(
        storage_error(|d| {
            d.layers[0].planes = vec![Plane { object_index: 0, offset: 0, pitch: 1 }; 5]
        }),
        ValidationError::TooManyEntries { kind: "planes in one layer", actual: 5, maximum: 4 }
    );
    assert_eq!(
        storage_error(|d| {
            d.layers[0].planes = vec![Plane { object_index: 0, offset: 0, pitch: 1 }; 3];
            d.layers.push(d.layers[0].clone());
        }),
        ValidationError::TooManyPlanes { actual: 6, maximum: 4 }
    );
    assert_eq!(
        ValidationError::NegativeAcquireFence(-2).message(),
        "acquire fence has negative fd -2"
    );
}

#[test]
fn every_fault_of_a_rectangle_has_its_error() {
    let rect = Rect { x: 1, y: 1, width: 2, height: 2 };
    assert_eq!(rect.validate(3, 3), Ok(()));
    assert_eq!(
        rect.validate(0, 3),
        Err(ValidationError::ZeroCodedSize { width: 0, height: 3 })
    );
    assert_eq!(
        Rect { width: 0, ..rect }.validate(3, 3),
        Err(ValidationError::ZeroVisibleSize { width: 0, height: 2 })
    );
    assert_eq!(
        Rect { x: u32::MAX, ..rect }.validate(3, 3),
        Err(ValidationError::VisibleRectOverflow)
    );
    assert!(matches!(
        rect.validate(2, 3),
        Err(ValidationError::VisibleRectOutOfBounds { coded_width: 2, .. })
    ));
}
