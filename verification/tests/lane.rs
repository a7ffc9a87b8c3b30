use std::cell::{Cell, RefCell};

use ash::vk;
use video_interop::vulkan::cache::{Nv12SourceCacheKey, SourceLease};
use video_interop::vulkan::flags::{RawHandle, DMA_BUF_EXTERNAL_QUEUE_FAMILY, TILING_OPTIMAL};
use video_interop::vulkan::image::{
    ImportId, ImportedDmaBufImage, ImportedKind, StagedNv12, StagedNv12Operation,
};
use video_interop::vulkan::inventory::QueueFamilyProperties;
use video_interop::vulkan::pool::{Nv12OutputKey, OutputSlot};
use video_interop::vulkan::record::{begin_command, end_command, CommandStep};
use video_interop::vulkan::resources::{
    BufferAllocation, DeviceObject, ImageAllocation, StagedOutput, StagedOutputResources,
};
use video_interop::vulkan::submission::{
    AcquireStage, Recording, ReleaseStage, SyncAction, SyncAnswer,
};
use video_interop::vulkan::sync::{
    acquire_fence_reset, acquire_pool_reset, acquire_recorded, plan_timestamps,
    ready_semaphore_created, release_fence_reset, release_pool_reset, release_recorded,
    sync_fd_duplicated, sync_semaphore_created, timestamp_pool_created, timestamps_read,
    LaneAction, LaneBuild, LaneEnd, ReleasePoll, SyncFailure, SyncFdPlan, SyncFdStep,
    TimestampPlan, TimestampQuery, TimingOutcome, TimingStatus, VideoTimingTicks,
};
use video_interop::vulkan::{
    timestamp_delta, ImportedImageSync, ImportedImageSyncError, ImportedImageSyncErrorKind,
    ImportedPlane, Nv12Conversion, Nv12ImportStrategy, Nv12SharedObjectLayout, VulkanVideoTiming,
    YcbcrModel, YcbcrOffset, YcbcrRange, DRM_FORMAT_MOD_LINEAR, IMPORTED_SCANOUT_BGRA_FORMAT,
    TRANSFER_NV12_OUTPUT_USAGE,
};

const DEVICE_LOST: i32 = vk::Result::ERROR_DEVICE_LOST.as_raw();
const OUT_OF_HOST_MEMORY: i32 = vk::Result::ERROR_OUT_OF_HOST_MEMORY.as_raw();

/// What a device did for a lane.
#[derive(Default)]
struct Trace {
    query_allocations: usize,
    query_resets: usize,
    writes: Vec<u32>,
    barriers: usize,
    copies: usize,
    begins: usize,
    ends: usize,
}

impl Trace {
    fn record(&mut self, steps: &[CommandStep]) {
        begin_command(Ok(())).unwrap();
        self.begins += 1;
        for step in steps {
            match step {
                CommandStep::ResetTimestamps { first, count, .. } => {
                    assert_eq!((*first, *count), (0, 3));
                    self.query_resets += 1;
                }
                CommandStep::WriteTimestamp { index, .. } => self.writes.push(*index),
                CommandStep::Barrier { .. } => self.barriers += 1,
                CommandStep::CopyBufferToImage { .. } => self.copies += 1,
                _ => panic!("unexpected command"),
            }
        }
        end_command(Ok(())).unwrap();
        self.ends += 1;
    }
}

/// A device that answers as it is told.
struct Device {
    enabled: bool,
    valid_bits: u32,
    period: f32,
    query_result: i32,
    status: Option<&'static str>,
    lost: bool,
    trace: Trace,
}

impl Device {
    fn new(enabled: bool) -> Self {
        Device {
            enabled,
            valid_bits: 64,
            period: 1.0,
            query_result: vk::Result::SUCCESS.as_raw(),
            status: None,
            lost: false,
            trace: Trace::default(),
        }
    }

    fn lane(&mut self) -> Result<ImportedImageSync, SyncFailure> {
        ImportedImageSync::new(
            |action| {
                Ok(Some(match action {
                    LaneAction::CreateAcquirePool | LaneAction::CreateReleasePool => 1,
                    LaneAction::AllocateAcquireCommand { pool }
                    | LaneAction::AllocateReleaseCommand { pool } => {
                        assert_eq!(pool, 1);
                        2
                    }
                    LaneAction::CreateAcquireFence | LaneAction::CreateReleaseFence => 3,
                    LaneAction::CreateTimestamps => unreachable!("timestamps are made apart"),
                }))
            },
            || self.timestamps(),
        )
    }

    fn timestamps(&mut self) -> Result<Option<TimestampQuery>, ImportedImageSyncError> {
        let families = [QueueFamilyProperties {
            queue_count: 1,
            queue_flags: 0,
            timestamp_valid_bits: self.valid_bits,
        }];
        let usable = self.period.is_finite() && self.period > 0.0;
        let plan = plan_timestamps(self.enabled, &families, 0, usable);
        self.status = plan.status().map(|status| status.text());
        match plan {
            TimestampPlan::CreatePool { valid_bits } => {
                self.trace.query_allocations += 1;
                let created = if self.query_result == 0 { Ok(4) } else { Err(self.query_result) };
                match timestamp_pool_created(valid_bits, created) {
                    Ok((query, status)) => {
                        if let Some(status) = status {
                            self.status = Some(status.text());
                        }
                        Ok(query)
                    }
                    Err(error) => {
                        self.lost = error.is_device_lost();
                        Err(error)
                    }
                }
            }
            _ => Ok(None),
        }
    }
}

/// A staged transfer into two planes, with the import number `id`.
fn transfer(id: u64) -> ImportedDmaBufImage {
    let layout = Nv12SharedObjectLayout {
        modifier: DRM_FORMAT_MOD_LINEAR,
        object_size: 24,
        planes: [
            ImportedPlane { offset: 0, pitch: 4 },
            ImportedPlane { offset: 16, pitch: 4 },
        ],
    };
    let strategy = Nv12ImportStrategy::LinearBufferToOptimalYuvPlanes;
    ImportedDmaBufImage {
        import_id: ImportId { value: id },
        kind: ImportedKind::StagedNv12(StagedNv12 {
            lease: SourceLease {
                key: Nv12SourceCacheKey {
                    stream_incarnation: 1,
                    device: 1,
                    inode: 1,
                    topology: layout.frame_topology((4, 4)),
                    strategy,
                },
                released: false,
            },
            source: BufferAllocation { buffer: 5, memory: 15, size: 24 },
            output: OutputSlot {
                ticket: 0,
                key: Nv12OutputKey { dimensions: (4, 4), strategy },
                resources: StagedOutput {
                    descriptor_pool: None,
                    descriptor_set: None,
                    resources: StagedOutputResources::TransferYuvPlanes {
                        luma: ImageAllocation { image: 6, memory: 16 },
                        chroma: ImageAllocation { image: 7, memory: 17 },
                    },
                },
                initialized: false,
            },
            operation: StagedNv12Operation::Transfer { layout },
            conversion: Nv12Conversion {
                model: YcbcrModel::Bt709,
                range: YcbcrRange::Narrow,
                x_offset: YcbcrOffset::CositedEven,
                y_offset: YcbcrOffset::Midpoint,
            },
            format_features: 0,
        }),
        dimensions: (4, 4),
        modifier: DRM_FORMAT_MOD_LINEAR,
        sampled_usage: TRANSFER_NV12_OUTPUT_USAGE,
        sampled_tiling: TILING_OPTIMAL,
    }
}

/// An image that is sampled where it is.
fn direct(id: u64) -> ImportedDmaBufImage {
    ImportedDmaBufImage {
        import_id: ImportId { value: id },
        kind: ImportedKind::DirectBgraScanout { sampled: ImageAllocation { image: 9, memory: 19 } },
        dimensions: (4, 4),
        modifier: DRM_FORMAT_MOD_LINEAR,
        sampled_usage: 0,
        sampled_tiling: TILING_OPTIMAL,
    }
}

/// Acquires the image, with the answer of the device to the question whether it is timed.
fn acquire(
    lane: &mut ImportedImageSync,
    device: &mut Device,
    image: &mut ImportedDmaBufImage,
    sampled: bool,
    choices: &mut usize,
) {
    let trace = RefCell::new(&mut device.trace);
    let asked = Cell::new(0);
    let ready = lane
        .submit_acquire(image, None, 0, |action| match action {
            SyncAction::CreateSemaphore => SyncAnswer::Created(Ok(40)),
            SyncAction::ChooseTiming => {
                asked.set(asked.get() + 1);
                SyncAnswer::Sampled(sampled)
            }
            SyncAction::Record { recording, .. } => {
                trace.borrow_mut().record(&recording.steps().unwrap());
                SyncAnswer::Recorded(Ok(()))
            }
            SyncAction::DuplicateFence { .. } => unreachable!("there is no fence"),
            _ => SyncAnswer::Finished(Ok(())),
        })
        .unwrap();
    assert_eq!(ready, 40);
    *choices += asked.get();
}

fn release(lane: &mut ImportedImageSync, device: &mut Device, image: &ImportedDmaBufImage) {
    lane.ganesh_wait_accepted(40).unwrap();
    let trace = RefCell::new(&mut device.trace);
    lane.submit_release(image, 0, |action| match action {
        SyncAction::Record { recording, .. } => {
            trace.borrow_mut().record(&recording.steps().unwrap());
            SyncAnswer::Recorded(Ok(()))
        }
        _ => SyncAnswer::Finished(Ok(())),
    })
    .unwrap();
}

#[test]
fn dma_buf_ownership_uses_core_external_queue_family() {
    assert_eq!(DMA_BUF_EXTERNAL_QUEUE_FAMILY, vk::QUEUE_FAMILY_EXTERNAL);
    assert_ne!(DMA_BUF_EXTERNAL_QUEUE_FAMILY, vk::QUEUE_FAMILY_FOREIGN_EXT);
}

#[test]
fn timestamp_delta_handles_valid_bit_wrap_without_waiting() {
    assert_eq!(timestamp_delta(10, 25, 64), 15);
    assert_eq!(timestamp_delta(250, 5, 8), 11);
}

#[test]
fn timestamps_wrap_at_every_width() {
    assert_eq!(timestamp_delta(u64::MAX, 2, 64), 3);
    assert_eq!(timestamp_delta(u64::MAX, 2, 65), 3);
    assert_eq!(timestamp_delta(1, 0, 1), 1);
    assert_eq!(timestamp_delta(7, 9, 0), 0);
    assert_eq!(timestamp_delta(0xf_ffff_ffff, 0, 36), 1);
}

#[test]
fn off_skips_all_query_work_but_keeps_copy_barriers_and_empty_release_commands() {
    let mut device = Device::new(false);
    let mut lane = device.lane().unwrap();
    assert!(!lane.has_gpu_timing_resources());
    let mut choices = 0;
    let mut image = transfer(1);
    acquire(&mut lane, &mut device, &mut image, true, &mut choices);
    release(&mut lane, &mut device, &image);
    assert_eq!(
        lane.release_complete(Ok(true)).unwrap(),
        ReleasePoll::Complete { timestamps: None }
    );
    assert!(lane.take_timing().is_none());
    assert_eq!(device.trace.query_allocations, 0);
    assert_eq!(device.trace.query_resets, 0);
    assert!(device.trace.writes.is_empty());
    assert_eq!(device.trace.barriers, 3);
    assert_eq!(device.trace.copies, 2);
    assert_eq!((device.trace.begins, device.trace.ends), (2, 2));
    assert_eq!(choices, 0);
}

#[test]
fn sparse_decision_survives_release_and_is_reselected_only_after_proven_reuse() {
    let mut device = Device::new(true);
    let mut lane = device.lane().unwrap();
    let mut choices = 0;
    for (index, sampled) in [true, false, true, false].into_iter().enumerate() {
        let mut image = transfer(index as u64 + 1);
        acquire(&mut lane, &mut device, &mut image, sampled, &mut choices);
        lane.choose_timing(!sampled);
        release(&mut lane, &mut device, &image);
        assert!(lane.reset_for_reuse(Ok(false)).is_err());
        assert_eq!(lane.reset_for_reuse(Ok(true)).unwrap(), None);
        assert!(lane.active_timestamp_query().is_none());
    }
    assert_eq!(device.trace.query_allocations, 1);
    assert_eq!(device.trace.writes, vec![0, 1, 2, 0, 1, 2]);
    assert_eq!(device.trace.query_resets, 2);
    assert_eq!(device.trace.copies, 8);
    assert_eq!(device.trace.barriers, 12);
    assert_eq!(choices, 4);
}

#[test]
fn unsupported_timestamps_do_not_block_sync_owner_creation() {
    for (bits, period) in [(0, 1.0), (65, 1.0), (64, 0.0), (64, f32::NAN)] {
        let mut device = Device::new(true);
        device.valid_bits = bits;
        device.period = period;
        let lane = device.lane().unwrap();
        assert!(!lane.has_gpu_timing_resources());
        assert_eq!(device.trace.query_allocations, 0);
        assert_eq!(device.status, Some("unsupported"));
    }
}

#[test]
fn optional_pool_oom_is_not_device_loss_and_device_loss_is_not_optional_success() {
    for result in [
        vk::Result::ERROR_OUT_OF_HOST_MEMORY,
        vk::Result::ERROR_OUT_OF_DEVICE_MEMORY,
        vk::Result::ERROR_DEVICE_LOST,
    ] {
        let mut device = Device::new(true);
        device.query_result = result.as_raw();
        let lane = device.lane();
        if result == vk::Result::ERROR_DEVICE_LOST {
            let failure = lane.err().unwrap();
            assert!(failure.error.is_device_lost());
            assert!(device.lost);
            assert_eq!(failure.destroy.len(), 4);
        } else {
            assert!(!lane.unwrap().has_gpu_timing_resources());
            assert!(!device.lost);
            assert_eq!(device.status, Some("failed"));
        }
    }
}

#[test]
fn query_results_follow_release_completion_and_are_collected_once() {
    for result in [
        vk::Result::SUCCESS,
        vk::Result::NOT_READY,
        vk::Result::ERROR_OUT_OF_HOST_MEMORY,
        vk::Result::ERROR_DEVICE_LOST,
    ] {
        let mut device = Device::new(true);
        let mut lane = device.lane().unwrap();
        let mut choices = 0;
        let mut image = transfer(1);
        acquire(&mut lane, &mut device, &mut image, true, &mut choices);
        release(&mut lane, &mut device, &image);
        assert_eq!(lane.release_complete(Ok(false)).unwrap(), ReleasePoll::Pending);
        let mut query_reads = 0;
        let query = match lane.release_complete(Ok(true)).unwrap() {
            ReleasePoll::Complete { timestamps: Some(query) } => {
                query_reads += 1;
                query
            }
            other => panic!("unexpected {other:?}"),
        };
        let read = if result == vk::Result::SUCCESS {
            Ok([1, 11, 31])
        } else {
            Err(result.as_raw())
        };
        let outcome = timestamps_read(query, read);
        if result == vk::Result::ERROR_DEVICE_LOST {
            assert!(outcome.unwrap_err().is_device_lost());
        } else {
            assert_eq!(
                lane.release_complete(Ok(true)).unwrap(),
                ReleasePoll::Complete { timestamps: None }
            );
            assert_eq!(query_reads, 1);
            match outcome.unwrap() {
                TimingOutcome::Sample(ticks) => {
                    assert_eq!(result, vk::Result::SUCCESS);
                    lane.keep_timing(VulkanVideoTiming {
                        conversion_ns: ticks.conversion,
                        composition_ns: ticks.composition,
                        total_gpu_ns: ticks.total,
                    });
                    assert_eq!(
                        lane.take_timing(),
                        Some(VulkanVideoTiming {
                            conversion_ns: 10,
                            composition_ns: 20,
                            total_gpu_ns: 30
                        })
                    );
                }
                TimingOutcome::Omitted => {
                    assert_ne!(result, vk::Result::SUCCESS);
                    assert_eq!(TimingStatus::Failed.text(), "failed");
                }
            }
            assert!(lane.take_timing().is_none());
        }
    }
}

#[test]
fn other_query_failures_are_errors() {
    let query = TimestampQuery { pool: 4, valid_bits: 8 };
    let error = timestamps_read(query, Err(-3)).unwrap_err();
    assert_eq!(error.kind(), ImportedImageSyncErrorKind::ReleaseFencePoll);
    assert!(!error.is_device_lost());
    assert_eq!(
        error.message(),
        "failed to read Vulkan video timestamps: ERROR_INITIALIZATION_FAILED"
    );
    assert_eq!(
        timestamps_read(query, Ok([250, 5, 10])).unwrap(),
        TimingOutcome::Sample(VideoTimingTicks { conversion: 11, composition: 5, total: 16 })
    );
    let error = timestamp_pool_created(64, Err(-3)).unwrap_err();
    assert_eq!(error.kind(), ImportedImageSyncErrorKind::Other);
    assert_eq!(
        error.message(),
        "failed to create Vulkan video timestamp pool: ERROR_INITIALIZATION_FAILED"
    );
}

#[test]
fn lanes_are_made_step_by_step() {
    let actions = RefCell::new(Vec::new());
    let make = |action| {
        actions.borrow_mut().push(action);
        Ok(Some(99 + actions.borrow().len() as u64))
    };
    let query = TimestampQuery { pool: 7, valid_bits: 64 };
    let lane = ImportedImageSync::new(make, || Ok(Some(query))).unwrap();
    assert_eq!((lane.acquire_pool, lane.release_pool), (100, 101));
    assert_eq!((lane.acquire_command, lane.release_command), (102, 103));
    assert_eq!((lane.acquire_fence, lane.release_fence), (104, 105));
    assert_eq!(lane.timestamp_query, Some(query));
    assert!(!lane.acquire_submitted && lane.ready_semaphore.is_none());
    assert_eq!(
        *actions.borrow(),
        [
            LaneAction::CreateAcquirePool,
            LaneAction::CreateReleasePool,
            LaneAction::AllocateAcquireCommand { pool: 100 },
            LaneAction::AllocateReleaseCommand { pool: 101 },
            LaneAction::CreateAcquireFence,
            LaneAction::CreateReleaseFence,
        ]
    );

    let no_command = |action| match action {
        LaneAction::AllocateReleaseCommand { .. } => Ok(None),
        _ => Ok(Some(5)),
    };
    let failure = ImportedImageSync::new(no_command, || Ok(None)).unwrap_err();
    assert_eq!(
        failure.error.message(),
        "Vulkan returned no imported-image release command buffer"
    );
    assert_eq!(
        failure.destroy,
        [DeviceObject::CommandPool(5), DeviceObject::CommandPool(5)]
    );

    let no_fence = |action| match action {
        LaneAction::CreateReleaseFence => Err(OUT_OF_HOST_MEMORY),
        LaneAction::CreateAcquireFence => Ok(Some(6)),
        _ => Ok(Some(5)),
    };
    let failure = ImportedImageSync::new(no_fence, || Ok(None)).unwrap_err();
    assert_eq!(failure.error.kind(), ImportedImageSyncErrorKind::ReleaseFenceCreate);
    assert_eq!(failure.destroy[0], DeviceObject::Fence(6));
    assert_eq!(failure.destroy.len(), 3);

    let lost = timestamp_pool_created(64, Err(-4)).map(|(query, _)| query);
    let failure = ImportedImageSync::new(|_| Ok(Some(5)), || lost).unwrap_err();
    assert!(failure.error.is_device_lost());
    assert_eq!(failure.destroy.len(), 4);
}

fn build_with(count: usize) -> LaneBuild {
    let mut build = LaneBuild::new();
    for handle in 0..count {
        build = build.made(Ok(Some(100 + handle as u64))).unwrap();
    }
    build
}

fn failure_of(count: usize, made: Result<Option<RawHandle>, i32>) -> SyncFailure {
    build_with(count).made(made).unwrap_err()
}

#[test]
fn lanes_take_down_what_was_made_when_a_step_fails() {
    let texts = [
        "failed to create Vulkan imported-image acquire command pool: ERROR_OUT_OF_HOST_MEMORY",
        "failed to create Vulkan imported-image release command pool: ERROR_OUT_OF_HOST_MEMORY",
        "failed to allocate Vulkan imported-image acquire command buffer: ERROR_OUT_OF_HOST_MEMORY",
        "failed to allocate Vulkan imported-image release command buffer: ERROR_OUT_OF_HOST_MEMORY",
        "failed to create imported-image source fence: ERROR_OUT_OF_HOST_MEMORY",
        "failed to create imported-image release fence: ERROR_OUT_OF_HOST_MEMORY",
    ];
    for (count, text) in texts.into_iter().enumerate() {
        let failure = failure_of(count, Err(OUT_OF_HOST_MEMORY));
        assert_eq!(failure.error.message(), text);
        assert_eq!(
            failure.error.kind(),
            if count < 4 {
                ImportedImageSyncErrorKind::Other
            } else {
                ImportedImageSyncErrorKind::ReleaseFenceCreate
            }
        );
        let mut expected: Vec<DeviceObject> = Vec::new();
        if count > 4 {
            expected.push(DeviceObject::Fence(104));
        }
        if count > 1 {
            expected.push(DeviceObject::CommandPool(101));
        }
        if count > 0 {
            expected.push(DeviceObject::CommandPool(100));
        }
        assert_eq!(failure.destroy, expected);
    }
    assert_eq!(
        failure_of(2, Ok(None)).error.message(),
        "Vulkan returned no imported-image acquire command buffer"
    );
    assert_eq!(
        failure_of(3, Ok(None)).error.message(),
        "Vulkan returned no imported-image release command buffer"
    );
    let lane = build_with(6).finish(Ok(None)).unwrap();
    assert_eq!(
        (lane.acquire_pool, lane.release_pool, lane.acquire_command, lane.release_command),
        (100, 101, 102, 103)
    );
    assert_eq!((lane.acquire_fence, lane.release_fence), (104, 105));
}

#[test]
fn a_fence_from_the_producer_is_imported_into_one_semaphore() {
    let mut lane = Device::new(false).lane().unwrap();
    let error = lane.plan_sync_fd(-1).unwrap_err();
    assert_eq!(error.kind(), ImportedImageSyncErrorKind::TemporarySemaphoreImport);
    assert_eq!(error.message(), "imported Vulkan image has an invalid sync fd");
    assert_eq!(lane.plan_sync_fd(3).unwrap(), SyncFdPlan::Create);
    assert!(sync_semaphore_created(Err(-1)).is_err());
    let step = sync_semaphore_created(Ok(50)).unwrap();
    assert_eq!(step, SyncFdStep { semaphore: 50, created: true });

    let failure = sync_fd_duplicated(step, Err("broken".to_string())).unwrap_err();
    assert_eq!(failure.destroy, vec![DeviceObject::Semaphore(50)]);
    assert_eq!(
        failure.error.message(),
        "failed to duplicate Vulkan acquire sync fd: failed to duplicate Vulkan DMA-BUF import fd: broken"
    );
    let (step, descriptor) = sync_fd_duplicated(step, Ok(8)).unwrap();
    let failure = lane.sync_fd_imported(step, descriptor, Err(-1)).unwrap_err();
    assert_eq!(
        failure.destroy,
        vec![DeviceObject::Descriptor(8), DeviceObject::Semaphore(50)]
    );
    assert_eq!(lane.imported_acquire, None);
    lane.sync_fd_imported(step, descriptor, Ok(())).unwrap();
    assert_eq!(lane.imported_acquire, Some(50));

    let again = SyncFdStep { semaphore: 50, created: false };
    assert_eq!(lane.plan_sync_fd(3).unwrap(), SyncFdPlan::Reuse(again));
    let failure = lane.sync_fd_imported(again, 9, Err(-1)).unwrap_err();
    assert_eq!(failure.destroy, vec![DeviceObject::Descriptor(9)]);
}

fn message_of(result: Result<(), ImportedImageSyncError>) -> String {
    result.unwrap_err().message().to_string()
}

#[test]
fn releases_follow_the_renderer_and_name_the_acquired_import() {
    let mut device = Device::new(false);
    let mut lane = device.lane().unwrap();
    let mut image = transfer(7);
    let before = "cannot release an imported Vulkan image before renderer acceptance";
    assert_eq!(message_of(lane.begin_release(&image)), before);
    assert_eq!(
        lane.source_release_complete(Ok(true)).unwrap_err().message(),
        "cannot poll staged source release before acquire submission"
    );
    acquire(&mut lane, &mut device, &mut image, false, &mut 0);
    assert_eq!(
        message_of(lane.begin_acquire()),
        "imported Vulkan image acquire was already submitted"
    );
    assert_eq!(message_of(lane.begin_release(&image)), before);
    assert!(!lane.source_release_complete(Ok(false)).unwrap());
    assert!(lane.source_release_complete(Ok(true)).unwrap());
    assert!(lane.source_release_complete(Err(DEVICE_LOST)).unwrap_err().is_device_lost());
    assert_eq!(
        lane.source_release_complete(Err(-1)).unwrap_err().kind(),
        ImportedImageSyncErrorKind::SourceFencePoll
    );

    assert_eq!(
        lane.ganesh_wait_accepted(41).unwrap_err(),
        "unexpected imported-image ready semaphore"
    );
    assert_eq!(
        lane.ganesh_wait_rejected(41).unwrap_err(),
        "unexpected rejected imported-image ready semaphore"
    );
    lane.ganesh_wait_accepted(40).unwrap();
    assert!(lane.ganesh_wait_accepted(40).is_err());
    assert_eq!(
        message_of(lane.begin_release(&transfer(8))),
        "imported Vulkan image release id 8 does not match acquired id 7"
    );
    assert_eq!(lane.release_complete(Ok(true)).unwrap(), ReleasePoll::NotSubmitted);
    assert_eq!(
        lane.reset_for_reuse(Ok(true)).unwrap_err(),
        "cannot reuse Vulkan image sync before release submission"
    );
    let error = lane.conclude_release(&image, Err(-1)).unwrap_err();
    assert_eq!(error.kind(), ImportedImageSyncErrorKind::ReleaseSubmit);
    assert!(lane.conclude_release(&image, Err(DEVICE_LOST)).unwrap_err().is_device_lost());
    assert!(!lane.release_submitted());
    lane.conclude_release(&image, Ok(())).unwrap();
    assert!(lane.release_submitted());
    assert_eq!(
        message_of(lane.begin_release(&image)),
        "imported Vulkan image release was already submitted"
    );
    assert!(lane.release_complete(Err(DEVICE_LOST)).unwrap_err().is_device_lost());
    assert_eq!(
        lane.release_complete(Err(-1)).unwrap_err().kind(),
        ImportedImageSyncErrorKind::ReleaseFencePoll
    );
    assert_eq!(
        lane.reset_for_reuse(Err(-1)).unwrap_err(),
        "failed to prove Vulkan sync lane idle: ERROR_OUT_OF_HOST_MEMORY"
    );
    assert_eq!(
        lane.reset_for_reuse(Ok(false)).unwrap_err(),
        "cannot reuse Vulkan image sync before exact completion"
    );
    assert_eq!(lane.reset_for_reuse(Ok(true)).unwrap(), None);
    lane.begin_acquire().unwrap();
}

#[test]
fn a_refused_ready_semaphore_comes_back_with_the_reset() {
    let mut device = Device::new(false);
    let mut lane = device.lane().unwrap();
    let mut image = direct(3);
    acquire(&mut lane, &mut device, &mut image, false, &mut 0);
    assert!(!lane.source_release_complete(Ok(true)).unwrap());
    lane.ganesh_wait_rejected(40).unwrap();
    lane.begin_release(&image).unwrap();
    assert_eq!(lane.release_recording(&image, 0).steps().unwrap().len(), 1);
    lane.conclude_release(&image, Ok(())).unwrap();
    assert_eq!(lane.reset_for_reuse(Ok(true)).unwrap(), Some(40));
}

#[test]
fn a_failed_acquire_keeps_the_lane_unless_the_device_is_lost() {
    let mut lane = Device::new(false).lane().unwrap();
    let mut image = transfer(5);
    let failure = lane.conclude_acquire(&mut image, 40, Err(-1)).unwrap_err();
    assert_eq!(failure.destroy, vec![DeviceObject::Semaphore(40)]);
    assert_eq!(failure.error.kind(), ImportedImageSyncErrorKind::AcquireSubmit);
    lane.begin_acquire().unwrap();
    let failure = lane.conclude_acquire(&mut image, 40, Err(DEVICE_LOST)).unwrap_err();
    assert!(failure.error.is_device_lost());
    assert!(failure.destroy.is_empty());
    assert_eq!(failure.error.message(), "Vulkan device lost while acquiring imported image");
    assert!(lane.begin_acquire().is_err());
    assert!(matches!(lane.retire(Ok(true)), LaneEnd::Quarantine));
}

#[test]
fn small_steps_name_what_failed() {
    assert!(ready_semaphore_created(Ok(1)).is_ok());
    assert_eq!(
        ready_semaphore_created(Err(-1)).unwrap_err().message(),
        "failed to create imported-image ready semaphore: ERROR_OUT_OF_HOST_MEMORY"
    );
    assert!(acquire_fence_reset(40, Ok(())).is_ok());
    let failure = acquire_fence_reset(40, Err(-1)).unwrap_err();
    assert_eq!(failure.destroy, vec![DeviceObject::Semaphore(40)]);
    assert_eq!(
        acquire_pool_reset(Err(-1)).unwrap_err(),
        "failed to reset Vulkan acquire command pool: ERROR_OUT_OF_HOST_MEMORY"
    );
    let failure = acquire_recorded(40, Err("no".to_string())).unwrap_err();
    assert_eq!(failure.error.message(), "no");
    assert_eq!(failure.destroy, vec![DeviceObject::Semaphore(40)]);
    assert_eq!(
        release_fence_reset(Err(-1)).unwrap_err().message(),
        "failed to reset imported-image release fence: ERROR_OUT_OF_HOST_MEMORY"
    );
    assert_eq!(
        release_pool_reset(Err(-1)).unwrap_err().message(),
        "failed to reset imported-image release pool: ERROR_OUT_OF_HOST_MEMORY"
    );
    assert_eq!(
        release_recorded(Err("no".to_string())).unwrap_err().kind(),
        ImportedImageSyncErrorKind::ReleaseSubmit
    );
    assert_eq!(
        begin_command(Err(-4)).unwrap_err(),
        "failed to begin Vulkan import command buffer: ERROR_DEVICE_LOST"
    );
    assert_eq!(
        end_command(Err(-4)).unwrap_err(),
        "failed to end Vulkan import command buffer: ERROR_DEVICE_LOST"
    );
    assert_eq!(VulkanVideoTiming::default().total_gpu_ns, 0);
    assert_eq!(IMPORTED_SCANOUT_BGRA_FORMAT, vk::Format::B8G8R8A8_UNORM.as_raw());
}

#[test]
fn idle_and_completed_lanes_are_taken_down_and_others_are_kept() {
    let lane = build_with(6).finish(Ok(Some(TimestampQuery { pool: 60, valid_bits: 64 })));
    match lane.unwrap().retire(Ok(false)) {
        LaneEnd::Destroy(objects) => {
            assert!(objects.contains(&DeviceObject::QueryPool(60)));
            assert!(objects.contains(&DeviceObject::CommandPool(100)));
            assert!(objects.contains(&DeviceObject::CommandPool(101)));
            assert!(objects.contains(&DeviceObject::Fence(104)));
            assert!(objects.contains(&DeviceObject::Fence(105)));
            assert_eq!(objects.len(), 5);
        }
        LaneEnd::Quarantine => panic!("an idle lane is not in use"),
    }
    let mut device = Device::new(false);
    let mut lane = device.lane().unwrap();
    let mut image = transfer(1);
    acquire(&mut lane, &mut device, &mut image, false, &mut 0);
    release(&mut lane, &mut device, &image);
    assert!(matches!(lane.retire(Ok(false)), LaneEnd::Quarantine));
}

/// Answers every call of an acquire, and keeps the calls. The call at `fails` fails.
fn acquire_calls(
    lane: &mut ImportedImageSync,
    image: &mut ImportedDmaBufImage,
    fence: Option<i32>,
    fails: usize,
) -> (Result<u64, SyncFailure>, Vec<SyncAction>) {
    let calls = RefCell::new(Vec::new());
    let result = lane.submit_acquire(image, fence, 3, |action| {
        let failing = calls.borrow().len() == fails;
        calls.borrow_mut().push(action);
        match action {
            SyncAction::CreateSemaphore => SyncAnswer::Created(if failing {
                Err(OUT_OF_HOST_MEMORY)
            } else {
                Ok(200 + calls.borrow().len() as u64)
            }),
            SyncAction::DuplicateFence { source_fd } => SyncAnswer::Duplicated(if failing {
                Err("broken".to_string())
            } else {
                Ok(source_fd + 1)
            }),
            SyncAction::ChooseTiming => SyncAnswer::Sampled(true),
            SyncAction::Record { .. } => {
                SyncAnswer::Recorded(if failing { Err("no".to_string()) } else { Ok(()) })
            }
            _ => SyncAnswer::Finished(if failing { Err(OUT_OF_HOST_MEMORY) } else { Ok(()) }),
        }
    });
    (result, calls.into_inner())
}

fn timed_lane() -> ImportedImageSync {
    build_with(6).finish(Ok(Some(TimestampQuery { pool: 60, valid_bits: 64 }))).unwrap()
}

#[test]
fn acquires_make_their_calls_in_order() {
    let mut lane = timed_lane();
    let mut image = transfer(1);
    let plan = image.acquire_plan();
    assert_eq!(
        lane.record_acquire(&image, 3),
        Recording::Acquire { plan, family: 3, timestamps: None }.steps()
    );
    let (result, calls) = acquire_calls(&mut lane, &mut image, Some(7), usize::MAX);
    assert_eq!(result.unwrap(), 204);
    assert_eq!(
        calls,
        [
            SyncAction::CreateSemaphore,
            SyncAction::DuplicateFence { source_fd: 7 },
            SyncAction::ImportFence { semaphore: 201, descriptor: 8 },
            SyncAction::CreateSemaphore,
            SyncAction::ResetFence { fence: 104 },
            SyncAction::ResetPool { pool: 100 },
            SyncAction::ChooseTiming,
            SyncAction::Record {
                command: 102,
                recording: Recording::Acquire { plan, family: 3, timestamps: Some(60) },
            },
            SyncAction::Submit {
                command: 102,
                wait: Some(201),
                signal: Some(204),
                fence: 104,
            },
        ]
    );
    assert_eq!(lane.imported_acquire, Some(201));
    assert_eq!(lane.ready_semaphore, Some(204));
    assert_eq!(lane.import_id, Some(ImportId { value: 1 }));
    assert!(lane.acquire_submitted && lane.staged_import);
    let (result, calls) = acquire_calls(&mut lane, &mut image, None, usize::MAX);
    assert_eq!(
        result.unwrap_err().error.message(),
        "imported Vulkan image acquire was already submitted"
    );
    assert!(calls.is_empty());
}

#[test]
fn direct_acquires_without_a_fence_wait_for_nothing() {
    let mut lane = timed_lane();
    let mut image = direct(1);
    let (result, calls) = acquire_calls(&mut lane, &mut image, None, usize::MAX);
    assert_eq!(result.unwrap(), 201);
    assert_eq!(calls.len(), 5);
    assert_eq!(
        calls[4],
        SyncAction::Submit { command: 102, wait: None, signal: Some(201), fence: 104 }
    );
    assert!(!lane.staged_import);
}

#[test]
fn failed_acquires_leave_the_lane_free() {
    let expected: [(&str, Vec<DeviceObject>); 8] = [
        ("failed to create sync-fd import semaphore: ERROR_OUT_OF_HOST_MEMORY", vec![]),
        (
            "failed to duplicate Vulkan acquire sync fd: failed to duplicate Vulkan DMA-BUF import fd: broken",
            vec![DeviceObject::Semaphore(201)],
        ),
        (
            "failed to import Vulkan acquire sync fd: ERROR_OUT_OF_HOST_MEMORY",
            vec![DeviceObject::Descriptor(8), DeviceObject::Semaphore(201)],
        ),
        ("failed to create imported-image ready semaphore: ERROR_OUT_OF_HOST_MEMORY", vec![]),
        (
            "failed to reset staged source fence: ERROR_OUT_OF_HOST_MEMORY",
            vec![DeviceObject::Semaphore(204)],
        ),
        (
            "failed to reset Vulkan acquire command pool: ERROR_OUT_OF_HOST_MEMORY",
            vec![DeviceObject::Semaphore(204)],
        ),
        ("no", vec![DeviceObject::Semaphore(204)]),
        (
            "failed to submit imported Vulkan image acquire: ERROR_OUT_OF_HOST_MEMORY",
            vec![DeviceObject::Semaphore(204)],
        ),
    ];
    for (fails, (text, objects)) in expected.into_iter().enumerate() {
        let mut lane = build_with(6).finish(Ok(None)).unwrap();
        let mut image = transfer(1);
        let (result, calls) = acquire_calls(&mut lane, &mut image, Some(7), fails);
        let failure = result.unwrap_err();
        assert_eq!(calls.len(), fails + 1);
        assert_eq!(failure.error.message(), text);
        assert_eq!(failure.destroy, objects);
        assert!(!failure.error.is_device_lost());
        lane.begin_acquire().unwrap();
        assert_eq!(lane.imported_acquire, if fails > 2 { Some(201) } else { None });
        assert!(lane.ready_semaphore.is_none());
    }
    let mut lane = timed_lane();
    assert_eq!(
        lane.start_acquire(Some(-1)).unwrap_err().message(),
        "imported Vulkan image has an invalid sync fd"
    );
    lane.imported_acquire = Some(50);
    assert_eq!(
        lane.start_acquire(Some(7)).unwrap(),
        AcquireStage::DuplicateFence {
            source_fd: 7,
            step: SyncFdStep { semaphore: 50, created: false },
        }
    );
    let submit = AcquireStage::Submit { wait: None, ready: 40 };
    let mut image = transfer(1);
    let failure = submit
        .answered(&mut lane, &mut image, SyncAnswer::Finished(Err(DEVICE_LOST)))
        .unwrap_err();
    assert!(failure.error.is_device_lost());
    assert!(failure.destroy.is_empty());
    assert!(lane.begin_acquire().is_err());
}

#[test]
fn releases_make_their_calls_in_order() {
    let texts = [
        "failed to reset imported-image release fence: ERROR_OUT_OF_HOST_MEMORY",
        "failed to reset imported-image release pool: ERROR_OUT_OF_HOST_MEMORY",
        "no",
        "failed to submit imported Vulkan image release: ERROR_OUT_OF_HOST_MEMORY",
    ];
    let mut lane = timed_lane();
    let mut image = direct(4);
    let ready = acquire_calls(&mut lane, &mut image, None, usize::MAX).0.unwrap();
    let calls = Cell::new(0);
    let refused = lane.submit_release(&image, 3, |_| {
        calls.set(calls.get() + 1);
        SyncAnswer::Finished(Ok(()))
    });
    assert_eq!(
        refused.unwrap_err().message(),
        "cannot release an imported Vulkan image before renderer acceptance"
    );
    assert_eq!(calls.get(), 0);
    assert!(!lane.release_submitted());
    lane.ganesh_wait_accepted(ready).unwrap();
    for fails in 0..=4 {
        let calls = RefCell::new(Vec::new());
        let result = lane.submit_release(&image, 3, |action| {
            let failing = calls.borrow().len() == fails;
            calls.borrow_mut().push(action);
            match action {
                SyncAction::Record { .. } => {
                    SyncAnswer::Recorded(if failing { Err("no".to_string()) } else { Ok(()) })
                }
                _ => SyncAnswer::Finished(if failing { Err(OUT_OF_HOST_MEMORY) } else { Ok(()) }),
            }
        });
        if fails < 4 {
            let error = result.unwrap_err();
            assert_eq!(error.message(), texts[fails]);
            assert_eq!(error.kind(), ImportedImageSyncErrorKind::ReleaseSubmit);
            assert_eq!(calls.borrow().len(), fails + 1);
            assert!(!lane.release_submitted());
        } else {
            result.unwrap();
            assert_eq!(
                *calls.borrow(),
                [
                    SyncAction::ResetFence { fence: 105 },
                    SyncAction::ResetPool { pool: 101 },
                    SyncAction::Record {
                        command: 103,
                        recording: Recording::DirectRelease { image: 9, family: 3 },
                    },
                    SyncAction::Submit { command: 103, wait: None, signal: None, fence: 105 },
                ]
            );
        }
    }
    assert!(lane.release_submitted());
    assert_eq!(lane.completion_fence(), Some(105));
    assert_eq!(lane.source_fence(), None);
    assert_eq!(ReleaseStage::Submitted.next(&lane, &image, 3), None);
}
