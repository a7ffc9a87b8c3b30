//! The synchronization of one import, from acquire to release. The calls into Vulkan are made one at
//! a time; what follows each of them is decided here.

use vstd::arithmetic::div_mod::lemma_mod_mod;
use vstd::arithmetic::power2::{lemma2_to64, lemma_pow2_adds, lemma_pow2_pos, pow2};
use vstd::bits::{
    lemma_u64_low_bits_mask_is_mod, lemma_u64_pow2_no_overflow, lemma_u64_shl_is_mul,
};
use vstd::prelude::*;

use crate::text::{agrees, decimal, Message};
use crate::vulkan::flags::RawHandle;
use crate::vulkan::image::{ImportId, ImportedDmaBufImage};
use crate::vulkan::inventory::QueueFamilyProperties;
use crate::vulkan::resources::DeviceObject;
use crate::vulkan::result::{
    failure, failure_text, ERROR_DEVICE_LOST, ERROR_OUT_OF_DEVICE_MEMORY,
    ERROR_OUT_OF_HOST_MEMORY, NOT_READY,
};

verus! {

/// What failed.
#[derive(Clone, Copy, Debug, PartialEq, Eq, Structural)]
pub enum ImportedImageSyncErrorKind {
    TemporarySemaphoreImport,
    AcquireSubmit,
    ReleaseSubmit,
    ReleaseFenceCreate,
    SourceFencePoll,
    ReleaseFencePoll,
    Other,
}

/// A failure of the synchronization.
#[derive(Debug)]
pub struct ImportedImageSyncError {
    pub kind: ImportedImageSyncErrorKind,
    pub device_lost: bool,
    pub message: String,
}

/// What a failure says.
pub ghost struct SyncFault {
    pub kind: ImportedImageSyncErrorKind,
    pub device_lost: bool,
    pub text: Seq<char>,
}

impl View for ImportedImageSyncError {
    type V = SyncFault;

    open spec fn view(&self) -> SyncFault {
        SyncFault { kind: self.kind, device_lost: self.device_lost, text: self.message@ }
    }
}

/// A failure that is no loss of the device.
pub open spec fn sync_fault(kind: ImportedImageSyncErrorKind, text: Seq<char>) -> SyncFault {
    SyncFault { kind, device_lost: false, text }
}

/// A loss of the device.
pub open spec fn loss_fault(kind: ImportedImageSyncErrorKind, text: Seq<char>) -> SyncFault {
    SyncFault { kind, device_lost: true, text }
}

impl ImportedImageSyncError {
    fn new(kind: ImportedImageSyncErrorKind, message: String) -> (error: ImportedImageSyncError)
        ensures
            error@ == sync_fault(kind, message@),
    {
        ImportedImageSyncError { kind, device_lost: false, message }
    }

    fn device_lost(kind: ImportedImageSyncErrorKind, message: String) -> (error:
        ImportedImageSyncError)
        ensures
            error@ == loss_fault(kind, message@),
    {
        ImportedImageSyncError { kind, device_lost: true, message }
    }

    /// What failed.
    pub fn kind(&self) -> (kind: ImportedImageSyncErrorKind)
        ensures
            kind == self@.kind,
    {
        self.kind
    }

    /// Tests that the device was lost, so that everything that belongs to it has to be kept as it
    /// is.
    pub fn is_device_lost(&self) -> (lost: bool)
        ensures
            lost == self@.device_lost,
    {
        self.device_lost
    }

    /// The diagnostic.
    pub fn message(&self) -> (message: &str)
        ensures
            message@ == self@.text,
    {
        self.message.as_str()
    }
}

/// The result is what `expected` says.
pub open spec fn syncs<T>(
    result: Result<T, ImportedImageSyncError>,
    expected: Result<T, SyncFault>,
) -> bool {
    match (result, expected) {
        (Ok(value), Ok(wanted)) => value == wanted,
        (Err(error), Err(fault)) => error@ == fault,
        _ => false,
    }
}

/// A failed attempt: why, and what to destroy in which order.
#[derive(Debug)]
pub struct SyncFailure {
    pub error: ImportedImageSyncError,
    pub destroy: Vec<DeviceObject>,
}

/// The attempt failed with `fault`, and leaves `objects` to destroy.
pub open spec fn sync_fails<T>(
    result: Result<T, SyncFailure>,
    fault: SyncFault,
    objects: Seq<DeviceObject>,
) -> bool {
    match result {
        Ok(_) => false,
        Err(failure) => failure.error@ == fault && failure.destroy@ == objects,
    }
}

/// How long the GPU took for a frame.
#[derive(Clone, Copy, Debug, PartialEq, Eq, Structural)]
pub struct VulkanVideoTiming {
    pub conversion_ns: u64,
    pub composition_ns: u64,
    pub total_gpu_ns: u64,
}

impl Default for VulkanVideoTiming {
    fn default() -> (timing: VulkanVideoTiming)
        ensures
            timing.conversion_ns == 0,
            timing.composition_ns == 0,
            timing.total_gpu_ns == 0,
    {
        VulkanVideoTiming { conversion_ns: 0, composition_ns: 0, total_gpu_ns: 0 }
    }
}

/// How many ticks of the device's clock a frame took.
#[derive(Clone, Copy, Debug, PartialEq, Eq, Structural)]
pub struct VideoTimingTicks {
    pub conversion: u64,
    pub composition: u64,
    pub total: u64,
}

/// How many values a clock with this many valid bits has.
pub open spec fn clock_values(valid_bits: u32) -> nat {
    if valid_bits >= 64 {
        0x1_0000_0000_0000_0000
    } else {
        pow2(valid_bits as nat)
    }
}

/// The ticks from `start` to `end` of a clock that wraps.
pub open spec fn ticks_between(start: u64, end: u64, valid_bits: u32) -> int {
    (end - start) % clock_values(valid_bits) as int
}

/// The ticks from one timestamp to another, across at most one wrap of the clock.
pub fn timestamp_delta(start: u64, end: u64, valid_bits: u32) -> (ticks: u64)
    ensures
        ticks == ticks_between(start, end, valid_bits),
{
    let difference: u64 = end.wrapping_sub(start);
    let ghost whole = 0x1_0000_0000_0000_0000int;
    assert(difference == (end - start) % whole);
    if valid_bits >= 64 {
        difference
    } else {
        let bits: u64 = valid_bits as u64;
        proof {
            lemma_u64_pow2_no_overflow(bits as nat);
            lemma_u64_shl_is_mul(1, bits);
            lemma_u64_low_bits_mask_is_mod(difference, bits as nat);
            lemma_pow2_pos(bits as nat);
            lemma_pow2_pos((64 - bits) as nat);
            lemma_pow2_adds(bits as nat, (64 - bits) as nat);
            lemma2_to64();
            lemma_mod_mod(end - start, pow2(bits as nat) as int, pow2((64 - bits) as nat) as int);
        }
        difference & ((1u64 << bits) - 1)
    }
}

/// The query pool of a lane that is timed.
#[derive(Clone, Copy, Debug, PartialEq, Eq, Structural)]
pub struct TimestampQuery {
    pub pool: RawHandle,
    pub valid_bits: u32,
}

/// Whether a lane is timed.
#[derive(Clone, Copy, Debug, PartialEq, Eq, Structural)]
pub enum TimestampPlan {
    /// Timing is switched off.
    Off,
    /// The device has no usable clock.
    Unsupported,
    /// A query pool is needed.
    CreatePool { valid_bits: u32 },
}

/// What the context is told about timing.
#[derive(Clone, Copy, Debug, PartialEq, Eq, Structural)]
pub enum TimingStatus {
    Unsupported,
    Failed,
}

impl TimingStatus {
    /// The status as text.
    pub fn text(self) -> (text: &'static str)
        ensures
            text@ == (match self {
                TimingStatus::Unsupported => "unsupported"@,
                TimingStatus::Failed => "failed"@,
            }),
    {
        match self {
            TimingStatus::Unsupported => "unsupported",
            TimingStatus::Failed => "failed",
        }
    }
}

impl TimestampPlan {
    /// What the context is told about the plan.
    pub fn status(self) -> (status: Option<TimingStatus>)
        ensures
            status == (if self is Unsupported {
                Some(TimingStatus::Unsupported)
            } else {
                None
            }),
    {
        match self {
            TimestampPlan::Unsupported => Some(TimingStatus::Unsupported),
            _ => None,
        }
    }
}

/// The valid bits of the selected queue's clock.
pub open spec fn valid_bits_of(families: Seq<QueueFamilyProperties>, index: u32) -> u32 {
    if index < families.len() {
        families[index as int].timestamp_valid_bits
    } else {
        0
    }
}

/// The plan that `plan_timestamps` returns.
pub open spec fn timestamp_plan(
    enabled: bool,
    valid_bits: u32,
    period_is_usable: bool,
) -> TimestampPlan {
    if !enabled {
        TimestampPlan::Off
    } else if valid_bits == 0 || valid_bits > 64 || !period_is_usable {
        TimestampPlan::Unsupported
    } else {
        TimestampPlan::CreatePool { valid_bits }
    }
}

/// Whether a lane is timed. `period_is_usable` tells that the period of the device's clock is finite
/// and positive.
pub fn plan_timestamps(
    enabled: bool,
    families: &[QueueFamilyProperties],
    index: u32,
    period_is_usable: bool,
) -> (plan: TimestampPlan)
    ensures
        plan == timestamp_plan(enabled, valid_bits_of(families@, index), period_is_usable),
{
    if !enabled {
        return TimestampPlan::Off;
    }
    let valid_bits: u32 = if (index as usize) < families.len() {
        families[index as usize].timestamp_valid_bits
    } else {
        0
    };
    if valid_bits == 0 || valid_bits > 64 || !period_is_usable {
        return TimestampPlan::Unsupported;
    }
    TimestampPlan::CreatePool { valid_bits }
}

/// The code says that memory ran out.
pub open spec fn is_out_of_memory(code: i32) -> bool {
    code == ERROR_OUT_OF_HOST_MEMORY || code == ERROR_OUT_OF_DEVICE_MEMORY
}

/// What `timestamp_pool_created` returns.
pub open spec fn timestamp_pool_verdict(valid_bits: u32, created: Result<RawHandle, i32>) -> Result<
    (Option<TimestampQuery>, Option<TimingStatus>),
    SyncFault,
> {
    match created {
        Ok(pool) => Ok((Some(TimestampQuery { pool, valid_bits }), None)),
        Err(code) => if is_out_of_memory(code) {
            Ok((None, Some(TimingStatus::Failed)))
        } else {
            Err(
                SyncFault {
                    kind: ImportedImageSyncErrorKind::Other,
                    device_lost: code == ERROR_DEVICE_LOST,
                    text: failure_text("failed to create Vulkan video timestamp pool: "@, code),
                },
            )
        },
    }
}

/// A query pool was asked for. Timing is optional: a lane without memory for it is not timed. A lost
/// device is no option.
pub fn timestamp_pool_created(valid_bits: u32, created: Result<RawHandle, i32>) -> (result: Result<
    (Option<TimestampQuery>, Option<TimingStatus>),
    ImportedImageSyncError,
>)
    ensures
        syncs(result, timestamp_pool_verdict(valid_bits, created)),
{
    match created {
        Ok(pool) => Ok((Some(TimestampQuery { pool, valid_bits }), None)),
        Err(code) => {
            if code == ERROR_OUT_OF_HOST_MEMORY || code == ERROR_OUT_OF_DEVICE_MEMORY {
                return Ok((None, Some(TimingStatus::Failed)));
            }
            let message = failure("failed to create Vulkan video timestamp pool: ", code);
            if code == ERROR_DEVICE_LOST {
                Err(ImportedImageSyncError::device_lost(ImportedImageSyncErrorKind::Other, message))
            } else {
                Err(ImportedImageSyncError::new(ImportedImageSyncErrorKind::Other, message))
            }
        },
    }
}

/// What a lane needs next.
#[derive(Clone, Copy, Debug, PartialEq, Eq, Structural)]
pub enum LaneAction {
    CreateAcquirePool,
    CreateReleasePool,
    AllocateAcquireCommand { pool: RawHandle },
    AllocateReleaseCommand { pool: RawHandle },
    CreateAcquireFence,
    CreateReleaseFence,
    CreateTimestamps,
}

/// What has been made of a lane so far.
#[derive(Debug)]
pub struct LaneBuild {
    /// The handles in the order in which they are made: acquire pool, release pool, acquire
    /// command, release command, acquire fence, release fence.
    pub handles: Vec<RawHandle>,
}

/// What a lane needs once this many of its handles have been made.
pub open spec fn lane_action(handles: Seq<RawHandle>, step: int) -> LaneAction {
    if step == 0 {
        LaneAction::CreateAcquirePool
    } else if step == 1 {
        LaneAction::CreateReleasePool
    } else if step == 2 {
        LaneAction::AllocateAcquireCommand { pool: handles[0] }
    } else if step == 3 {
        LaneAction::AllocateReleaseCommand { pool: handles[1] }
    } else if step == 4 {
        LaneAction::CreateAcquireFence
    } else if step == 5 {
        LaneAction::CreateReleaseFence
    } else {
        LaneAction::CreateTimestamps
    }
}

/// What exists once this many handles of a lane have been made, in the order in which it is
/// destroyed. Command buffers go with their pools.
pub open spec fn lane_objects(handles: Seq<RawHandle>, count: int) -> Seq<DeviceObject> {
    if count <= 0 {
        Seq::empty()
    } else if count == 1 {
        seq![DeviceObject::CommandPool(handles[0])]
    } else if count <= 4 {
        seq![DeviceObject::CommandPool(handles[1]), DeviceObject::CommandPool(handles[0])]
    } else if count == 5 {
        seq![
            DeviceObject::Fence(handles[4]),
            DeviceObject::CommandPool(handles[1]),
            DeviceObject::CommandPool(handles[0]),
        ]
    } else {
        seq![
            DeviceObject::Fence(handles[5]),
            DeviceObject::Fence(handles[4]),
            DeviceObject::CommandPool(handles[1]),
            DeviceObject::CommandPool(handles[0]),
        ]
    }
}

/// What comes before the result code where a step of a lane fails.
pub open spec fn lane_text(step: int) -> Seq<char> {
    if step == 0 {
        "failed to create Vulkan imported-image acquire command pool: "@
    } else if step == 1 {
        "failed to create Vulkan imported-image release command pool: "@
    } else if step == 2 {
        "failed to allocate Vulkan imported-image acquire command buffer: "@
    } else if step == 3 {
        "failed to allocate Vulkan imported-image release command buffer: "@
    } else if step == 4 {
        "failed to create imported-image source fence: "@
    } else {
        "failed to create imported-image release fence: "@
    }
}

/// What kind of failure a step of a lane is.
pub open spec fn lane_kind(step: int) -> ImportedImageSyncErrorKind {
    if step < 4 {
        ImportedImageSyncErrorKind::Other
    } else {
        ImportedImageSyncErrorKind::ReleaseFenceCreate
    }
}

/// The diagnostic for an allocation that returned no command buffer.
pub open spec fn no_command_text(step: int) -> Seq<char> {
    if step == 2 {
        "Vulkan returned no imported-image acquire command buffer"@
    } else {
        "Vulkan returned no imported-image release command buffer"@
    }
}

impl LaneBuild {
    /// No step is left out and none is made twice.
    pub open spec fn well_formed(self) -> bool {
        self.handles.len() <= 6
    }

    /// What exists, in the order in which it is destroyed.
    pub open spec fn objects(self) -> Seq<DeviceObject> {
        lane_objects(self.handles@, self.handles.len() as int)
    }

    /// What `next` returns.
    pub open spec fn action(self) -> LaneAction {
        lane_action(self.handles@, self.handles.len() as int)
    }

    /// Nothing has been made.
    pub fn new() -> (build: LaneBuild)
        ensures
            build.well_formed(),
            build.handles@ == Seq::<RawHandle>::empty(),
    {
        LaneBuild { handles: Vec::new() }
    }

    /// What to do next.
    pub fn next(&self) -> (action: LaneAction)
        requires
            self.well_formed(),
        ensures
            action == self.action(),
    {
        let step: usize = self.handles.len();
        if step == 0 {
            LaneAction::CreateAcquirePool
        } else if step == 1 {
            LaneAction::CreateReleasePool
        } else if step == 2 {
            LaneAction::AllocateAcquireCommand { pool: self.handles[0] }
        } else if step == 3 {
            LaneAction::AllocateReleaseCommand { pool: self.handles[1] }
        } else if step == 4 {
            LaneAction::CreateAcquireFence
        } else if step == 5 {
            LaneAction::CreateReleaseFence
        } else {
            LaneAction::CreateTimestamps
        }
    }

    fn unmade(&self) -> (destroy: Vec<DeviceObject>)
        requires
            self.well_formed(),
        ensures
            destroy@ == self.objects(),
    {
        let count: usize = self.handles.len();
        let mut destroy: Vec<DeviceObject> = Vec::new();
        if count >= 6 {
            destroy.push(DeviceObject::Fence(self.handles[5]));
        }
        if count >= 5 {
            destroy.push(DeviceObject::Fence(self.handles[4]));
        }
        if count >= 2 {
            destroy.push(DeviceObject::CommandPool(self.handles[1]));
        }
        if count >= 1 {
            destroy.push(DeviceObject::CommandPool(self.handles[0]));
        }
        assert(destroy@ =~= self.objects());
        destroy
    }

    fn failure_message(&self, code: i32) -> (message: String)
        requires
            self.handles.len() < 6,
        ensures
            message@ == failure_text(lane_text(self.handles.len() as int), code),
    {
        let step: usize = self.handles.len();
        if step == 0 {
            failure("failed to create Vulkan imported-image acquire command pool: ", code)
        } else if step == 1 {
            failure("failed to create Vulkan imported-image release command pool: ", code)
        } else if step == 2 {
            failure("failed to allocate Vulkan imported-image acquire command buffer: ", code)
        } else if step == 3 {
            failure("failed to allocate Vulkan imported-image release command buffer: ", code)
        } else if step == 4 {
            failure("failed to create imported-image source fence: ", code)
        } else {
            failure("failed to create imported-image release fence: ", code)
        }
    }

    /// The next handle was asked for. Only the allocation of a command buffer can succeed without
    /// one.
    pub fn made(self, made: Result<Option<RawHandle>, i32>) -> (result: Result<
        LaneBuild,
        SyncFailure,
    >)
        requires
            self.handles.len() < 6,
            made == Ok::<Option<RawHandle>, i32>(None) ==> self.handles.len() == 2
                || self.handles.len() == 3,
        ensures
            match made {
                Ok(Some(handle)) => {
                    &&& result matches Ok(next)
                    &&& next.well_formed()
                    &&& next.handles@ == self.handles@.push(handle)
                },
                Ok(None) => sync_fails(
                    result,
                    sync_fault(
                        ImportedImageSyncErrorKind::Other,
                        no_command_text(self.handles.len() as int),
                    ),
                    self.objects(),
                ),
                Err(code) => sync_fails(
                    result,
                    sync_fault(
                        lane_kind(self.handles.len() as int),
                        failure_text(lane_text(self.handles.len() as int), code),
                    ),
                    self.objects(),
                ),
            },
    {
        match made {
            Ok(Some(handle)) => {
                let mut next = self;
                next.handles.push(handle);
                Ok(next)
            },
            Ok(None) => {
                let message = if self.handles.len() == 2 {
                    "Vulkan returned no imported-image acquire command buffer".to_owned()
                } else {
                    "Vulkan returned no imported-image release command buffer".to_owned()
                };
                Err(
                    SyncFailure {
                        error: ImportedImageSyncError::new(
                            ImportedImageSyncErrorKind::Other,
                            message,
                        ),
                        destroy: self.unmade(),
                    },
                )
            },
            Err(code) => {
                let kind = if self.handles.len() < 4 {
                    ImportedImageSyncErrorKind::Other
                } else {
                    ImportedImageSyncErrorKind::ReleaseFenceCreate
                };
                Err(
                    SyncFailure {
                        error: ImportedImageSyncError::new(kind, self.failure_message(code)),
                        destroy: self.unmade(),
                    },
                )
            },
        }
    }

    /// The lane, once everything has been made and it is known whether the lane is timed.
    pub fn finish(self, timestamps: Result<Option<TimestampQuery>, ImportedImageSyncError>) -> (result:
        Result<ImportedImageSync, SyncFailure>)
        requires
            self.handles.len() == 6,
        ensures
            match timestamps {
                Ok(query) => {
                    &&& result matches Ok(lane)
                    &&& lane.well_formed()
                    &&& lane.is_idle()
                    &&& lane.acquire_pool == self.handles[0]
                    &&& lane.release_pool == self.handles[1]
                    &&& lane.acquire_command == self.handles[2]
                    &&& lane.release_command == self.handles[3]
                    &&& lane.acquire_fence == self.handles[4]
                    &&& lane.release_fence == self.handles[5]
                    &&& lane.imported_acquire is None
                    &&& lane.timestamp_query == query
                },
                Err(error) => sync_fails(result, error@, self.objects()),
            },
    {
        match timestamps {
            Ok(timestamp_query) => Ok(
                ImportedImageSync {
                    acquire_pool: self.handles[0],
                    acquire_command: self.handles[2],
                    release_pool: self.handles[1],
                    release_command: self.handles[3],
                    acquire_fence: self.handles[4],
                    release_fence: self.handles[5],
                    imported_acquire: None,
                    ready_semaphore: None,
                    import_id: None,
                    staged_import: false,
                    acquire_submitted: false,
                    renderer_accepted: false,
                    renderer_rejected: false,
                    release_submitted: false,
                    timestamp_query,
                    timing_choice: None,
                    timing_collected: false,
                    timing: None,
                },
            ),
            Err(error) => Err(SyncFailure { error, destroy: self.unmade() }),
        }
    }
}

/// These are the first handles of a lane, each of them an answer of `make` to the action of its step.
pub open spec fn lane_handles_made<F: Fn(LaneAction) -> Result<Option<RawHandle>, i32>>(
    make: F,
    handles: Seq<RawHandle>,
) -> bool {
    &&& handles.len() <= 6
    &&& forall|step: int|
        0 <= step < handles.len() ==> call_ensures(
            make,
            (lane_action(handles, step),),
            Ok(Some(#[trigger] handles[step])),
        )
}

/// Once `handles` were made, the next step of the lane failed: `make` answered with a result code or
/// without a handle, or the lane could not be timed. Everything that was made is left to destroy.
pub open spec fn lane_stops_at<
    F: Fn(LaneAction) -> Result<Option<RawHandle>, i32>,
    G: FnOnce() -> Result<Option<TimestampQuery>, ImportedImageSyncError>,
>(make: F, timestamps: G, handles: Seq<RawHandle>, failure: SyncFailure) -> bool {
    let step = handles.len() as int;
    &&& lane_handles_made(make, handles)
    &&& failure.destroy@ == lane_objects(handles, step)
    &&& if step < 6 {
        ||| exists|code: i32|
            call_ensures(make, (lane_action(handles, step),), Err(code)) && failure.error@
                == sync_fault(lane_kind(step), #[trigger] failure_text(lane_text(step), code))
        ||| call_ensures(make, (lane_action(handles, step),), Ok(None)) && failure.error@
            == sync_fault(ImportedImageSyncErrorKind::Other, no_command_text(step))
    } else {
        exists|error: ImportedImageSyncError| #[trigger]
            call_ensures(timestamps, (), Err(error)) && failure.error@ == error@
    }
}

/// The synchronization of one import at a time.
///
/// A direct image goes from the producer to the renderer and back. A staged import takes the source
/// buffer over, copies or converts it and gives it back in one submission, so that the renderer only
/// ever sees the output. The release fence alone says that everything is over.
#[derive(Debug)]
pub struct ImportedImageSync {
    pub acquire_pool: RawHandle,
    pub acquire_command: RawHandle,
    pub release_pool: RawHandle,
    pub release_command: RawHandle,
    pub acquire_fence: RawHandle,
    pub release_fence: RawHandle,
    /// The semaphore into which acquire fences are imported. It is used again.
    pub imported_acquire: Option<RawHandle>,
    /// The semaphore that the renderer waits for, until it takes it over.
    pub ready_semaphore: Option<RawHandle>,
    pub import_id: Option<ImportId>,
    pub staged_import: bool,
    pub acquire_submitted: bool,
    pub renderer_accepted: bool,
    pub renderer_rejected: bool,
    pub release_submitted: bool,
    pub timestamp_query: Option<TimestampQuery>,
    /// Whether this import is timed, once that has been chosen.
    pub timing_choice: Option<bool>,
    pub timing_collected: bool,
    pub timing: Option<VulkanVideoTiming>,
}

/// The semaphore into which an acquire fence is imported.
#[derive(Clone, Copy, Debug, PartialEq, Eq, Structural)]
pub struct SyncFdStep {
    pub semaphore: RawHandle,
    /// The semaphore was made for this import.
    pub created: bool,
}

impl SyncFdStep {
    /// What a failed import leaves to destroy: nothing that the lane had before.
    pub open spec fn objects(self) -> Seq<DeviceObject> {
        if self.created {
            seq![DeviceObject::Semaphore(self.semaphore)]
        } else {
            Seq::empty()
        }
    }
}

/// Where the semaphore for an acquire fence comes from.
#[derive(Clone, Copy, Debug, PartialEq, Eq, Structural)]
pub enum SyncFdPlan {
    Reuse(SyncFdStep),
    Create,
}

/// A semaphore for an acquire fence was asked for.
pub fn sync_semaphore_created(created: Result<RawHandle, i32>) -> (result: Result<
    SyncFdStep,
    ImportedImageSyncError,
>)
    ensures
        syncs(
            result,
            match created {
                Ok(semaphore) => Ok(SyncFdStep { semaphore, created: true }),
                Err(code) => Err(
                    sync_fault(
                        ImportedImageSyncErrorKind::TemporarySemaphoreImport,
                        failure_text("failed to create sync-fd import semaphore: "@, code),
                    ),
                ),
            },
        ),
{
    match created {
        Ok(semaphore) => Ok(SyncFdStep { semaphore, created: true }),
        Err(code) => Err(
            ImportedImageSyncError::new(
                ImportedImageSyncErrorKind::TemporarySemaphoreImport,
                failure("failed to create sync-fd import semaphore: ", code),
            ),
        ),
    }
}

/// A duplicate of the acquire fence was asked for; `Err` holds the cause of a failure.
pub fn sync_fd_duplicated(step: SyncFdStep, duplicated: Result<i32, String>) -> (result: Result<
    (SyncFdStep, i32),
    SyncFailure,
>)
    ensures
        match duplicated {
            Ok(descriptor) => result == Ok::<_, SyncFailure>((step, descriptor)),
            Err(cause) => sync_fails(
                result,
                sync_fault(
                    ImportedImageSyncErrorKind::TemporarySemaphoreImport,
                    "failed to duplicate Vulkan acquire sync fd: failed to duplicate Vulkan DMA-BUF import fd: "@
                        + cause@,
                ),
                step.objects(),
            ),
        },
{
    match duplicated {
        Ok(descriptor) => Ok((step, descriptor)),
        Err(cause) => {
            let mut destroy: Vec<DeviceObject> = Vec::new();
            if step.created {
                destroy.push(DeviceObject::Semaphore(step.semaphore));
            }
            assert(destroy@ =~= step.objects());
            Err(
                SyncFailure {
                    error: ImportedImageSyncError::new(
                        ImportedImageSyncErrorKind::TemporarySemaphoreImport,
                        Message::new(
                            "failed to duplicate Vulkan acquire sync fd: failed to duplicate Vulkan DMA-BUF import fd: ",
                        ).text(cause.as_str()).done(),
                    ),
                    destroy,
                },
            )
        },
    }
}

/// The semaphore for the renderer was asked for.
pub fn ready_semaphore_created(created: Result<RawHandle, i32>) -> (result: Result<
    RawHandle,
    ImportedImageSyncError,
>)
    ensures
        syncs(
            result,
            match created {
                Ok(ready) => Ok(ready),
                Err(code) => Err(
                    sync_fault(
                        ImportedImageSyncErrorKind::Other,
                        failure_text("failed to create imported-image ready semaphore: "@, code),
                    ),
                ),
            },
        ),
{
    match created {
        Ok(ready) => Ok(ready),
        Err(code) => Err(
            ImportedImageSyncError::new(
                ImportedImageSyncErrorKind::Other,
                failure("failed to create imported-image ready semaphore: ", code),
            ),
        ),
    }
}

fn semaphore_only(semaphore: RawHandle) -> (destroy: Vec<DeviceObject>)
    ensures
        destroy@ == seq![DeviceObject::Semaphore(semaphore)],
{
    let mut destroy: Vec<DeviceObject> = Vec::new();
    destroy.push(DeviceObject::Semaphore(semaphore));
    assert(destroy@ =~= seq![DeviceObject::Semaphore(semaphore)]);
    destroy
}

/// The fence of the acquire was reset.
pub fn acquire_fence_reset(ready: RawHandle, reset: Result<(), i32>) -> (result: Result<
    (),
    SyncFailure,
>)
    ensures
        match reset {
            Ok(()) => result is Ok,
            Err(code) => sync_fails(
                result,
                sync_fault(
                    ImportedImageSyncErrorKind::AcquireSubmit,
                    failure_text("failed to reset staged source fence: "@, code),
                ),
                seq![DeviceObject::Semaphore(ready)],
            ),
        },
{
    match reset {
        Ok(()) => Ok(()),
        Err(code) => Err(
            SyncFailure {
                error: ImportedImageSyncError::new(
                    ImportedImageSyncErrorKind::AcquireSubmit,
                    failure("failed to reset staged source fence: ", code),
                ),
                destroy: semaphore_only(ready),
            },
        ),
    }
}

/// The pool of the acquire commands was reset.
pub fn acquire_pool_reset(reset: Result<(), i32>) -> (result: Result<(), String>)
    ensures
        agrees(
            result,
            match reset {
                Ok(()) => Ok(()),
                Err(code) => Err(
                    failure_text("failed to reset Vulkan acquire command pool: "@, code),
                ),
            },
        ),
{
    match reset {
        Ok(()) => Ok(()),
        Err(code) => Err(failure("failed to reset Vulkan acquire command pool: ", code)),
    }
}

/// The acquire commands were recorded, or not.
pub fn acquire_recorded(ready: RawHandle, recorded: Result<(), String>) -> (result: Result<
    (),
    SyncFailure,
>)
    ensures
        match recorded {
            Ok(()) => result is Ok,
            Err(message) => sync_fails(
                result,
                sync_fault(ImportedImageSyncErrorKind::Other, message@),
                seq![DeviceObject::Semaphore(ready)],
            ),
        },
{
    match recorded {
        Ok(()) => Ok(()),
        Err(message) => Err(
            SyncFailure {
                error: ImportedImageSyncError::new(ImportedImageSyncErrorKind::Other, message),
                destroy: semaphore_only(ready),
            },
        ),
    }
}

/// The fence of the release was reset.
pub fn release_fence_reset(reset: Result<(), i32>) -> (result: Result<(), ImportedImageSyncError>)
    ensures
        syncs(
            result,
            match reset {
                Ok(()) => Ok(()),
                Err(code) => Err(
                    sync_fault(
                        ImportedImageSyncErrorKind::ReleaseSubmit,
                        failure_text("failed to reset imported-image release fence: "@, code),
                    ),
                ),
            },
        ),
{
    match reset {
        Ok(()) => Ok(()),
        Err(code) => Err(
            ImportedImageSyncError::new(
                ImportedImageSyncErrorKind::ReleaseSubmit,
                failure("failed to reset imported-image release fence: ", code),
            ),
        ),
    }
}

/// The pool of the release commands was reset.
pub fn release_pool_reset(reset: Result<(), i32>) -> (result: Result<(), ImportedImageSyncError>)
    ensures
        syncs(
            result,
            match reset {
                Ok(()) => Ok(()),
                Err(code) => Err(
                    sync_fault(
                        ImportedImageSyncErrorKind::ReleaseSubmit,
                        failure_text("failed to reset imported-image release pool: "@, code),
                    ),
                ),
            },
        ),
{
    match reset {
        Ok(()) => Ok(()),
        Err(code) => Err(
            ImportedImageSyncError::new(
                ImportedImageSyncErrorKind::ReleaseSubmit,
                failure("failed to reset imported-image release pool: ", code),
            ),
        ),
    }
}

/// The release commands were recorded, or not.
pub fn release_recorded(recorded: Result<(), String>) -> (result: Result<(), ImportedImageSyncError>)
    ensures
        syncs(
            result,
            match recorded {
                Ok(()) => Ok(()),
                Err(message) => Err(
                    sync_fault(ImportedImageSyncErrorKind::ReleaseSubmit, message@),
                ),
            },
        ),
{
    match recorded {
        Ok(()) => Ok(()),
        Err(message) => Err(
            ImportedImageSyncError::new(ImportedImageSyncErrorKind::ReleaseSubmit, message),
        ),
    }
}

/// What polling a release comes to.
#[derive(Clone, Copy, Debug, PartialEq, Eq)]
pub enum ReleasePoll {
    NotSubmitted,
    Pending,
    /// Everything is over. The timestamps are to be read now, where there are any.
    Complete { timestamps: Option<TimestampQuery> },
}

/// What reading the timestamps comes to.
#[derive(Clone, Copy, Debug, PartialEq, Eq, Structural)]
pub enum TimingOutcome {
    Sample(VideoTimingTicks),
    /// There is no sample, and the context is told that timing failed.
    Omitted,
}

/// How a lane ends.
#[derive(Debug)]
pub enum LaneEnd {
    /// Nothing is in use: destroy these, in order.
    Destroy(Vec<DeviceObject>),
    /// The device may still use everything. Nothing is destroyed but with the whole device, which
    /// counts as lost.
    Quarantine,
}

/// The ticks between three timestamps.
pub open spec fn timing_ticks(values: Seq<u64>, valid_bits: u32) -> VideoTimingTicks {
    VideoTimingTicks {
        conversion: ticks_between(values[0], values[1], valid_bits) as u64,
        composition: ticks_between(values[1], values[2], valid_bits) as u64,
        total: ticks_between(values[0], values[2], valid_bits) as u64,
    }
}

/// What `timestamps_read` returns.
pub open spec fn readback_verdict(valid_bits: u32, read: Result<Seq<u64>, i32>) -> Result<
    TimingOutcome,
    SyncFault,
> {
    match read {
        Ok(values) => Ok(TimingOutcome::Sample(timing_ticks(values, valid_bits))),
        Err(code) => if code == NOT_READY || is_out_of_memory(code) {
            Ok(TimingOutcome::Omitted)
        } else {
            Err(
                SyncFault {
                    kind: ImportedImageSyncErrorKind::ReleaseFencePoll,
                    device_lost: code == ERROR_DEVICE_LOST,
                    text: failure_text("failed to read Vulkan video timestamps: "@, code),
                },
            )
        },
    }
}

/// The timestamps of a release that completed were read. Timing is optional: without timestamps or
/// memory there is no sample. A lost device is an error.
pub fn timestamps_read(query: TimestampQuery, read: Result<[u64; 3], i32>) -> (result: Result<
    TimingOutcome,
    ImportedImageSyncError,
>)
    ensures
        syncs(
            result,
            readback_verdict(
                query.valid_bits,
                match read {
                    Ok(values) => Ok(values@),
                    Err(code) => Err(code),
                },
            ),
        ),
{
    match read {
        Ok(values) => Ok(
            TimingOutcome::Sample(
                VideoTimingTicks {
                    conversion: timestamp_delta(values[0], values[1], query.valid_bits),
                    composition: timestamp_delta(values[1], values[2], query.valid_bits),
                    total: timestamp_delta(values[0], values[2], query.valid_bits),
                },
            ),
        ),
        Err(code) => {
            if code == NOT_READY || code == ERROR_OUT_OF_HOST_MEMORY || code
                == ERROR_OUT_OF_DEVICE_MEMORY {
                return Ok(TimingOutcome::Omitted);
            }
            let message = failure("failed to read Vulkan video timestamps: ", code);
            let kind = ImportedImageSyncErrorKind::ReleaseFencePoll;
            if code == ERROR_DEVICE_LOST {
                Err(ImportedImageSyncError::device_lost(kind, message))
            } else {
                Err(ImportedImageSyncError::new(kind, message))
            }
        },
    }
}

impl ImportedImageSync {
    /// The states of an import come in order: acquire, the renderer's answer, release. The ready
    /// semaphore is the lane's from the acquire until the renderer takes it over.
    pub open spec fn well_formed(self) -> bool {
        &&& self.import_id is Some == self.acquire_submitted
        &&& self.staged_import ==> self.acquire_submitted
        &&& self.renderer_accepted || self.renderer_rejected ==> self.acquire_submitted
        &&& self.release_submitted ==> self.renderer_accepted || self.renderer_rejected
        &&& self.ready_semaphore is Some == (self.acquire_submitted && !self.renderer_accepted)
    }

    /// No import uses the lane.
    pub open spec fn is_idle(self) -> bool {
        &&& !self.acquire_submitted
        &&& !self.renderer_accepted
        &&& !self.renderer_rejected
        &&& !self.release_submitted
        &&& !self.staged_import
        &&& self.import_id is None
        &&& self.ready_semaphore is None
        &&& self.timing_choice is None
        &&& !self.timing_collected
        &&& self.timing is None
    }

    /// The handles of the lane, in the order in which they are made.
    pub open spec fn handles(self) -> Seq<RawHandle> {
        seq![
            self.acquire_pool,
            self.release_pool,
            self.acquire_command,
            self.release_command,
            self.acquire_fence,
            self.release_fence,
        ]
    }

    /// A lane that no import uses. `make` answers each action with its handle, `timestamps` says
    /// whether the lane is timed. Pools, command buffers and fences are made in order; the first step
    /// that fails ends the attempt, with everything made before it left to destroy.
    pub fn new<F, G>(make: F, timestamps: G) -> (result: Result<ImportedImageSync, SyncFailure>) where
        F: Fn(LaneAction) -> Result<Option<RawHandle>, i32>,
        G: FnOnce() -> Result<Option<TimestampQuery>, ImportedImageSyncError>,

        requires
            forall|handles: Seq<RawHandle>| #[trigger]
                lane_handles_made(make, handles) ==> if handles.len() < 6 {
                    call_requires(make, (lane_action(handles, handles.len() as int),))
                } else {
                    call_requires(timestamps, ())
                },
            forall|action: LaneAction| #[trigger]
                call_ensures(make, (action,), Ok(None)) ==> action is AllocateAcquireCommand
                    || action is AllocateReleaseCommand,
        ensures
            match result {
                Ok(lane) => {
                    &&& lane.well_formed()
                    &&& lane.is_idle()
                    &&& lane.imported_acquire is None
                    &&& lane_handles_made(make, lane.handles())
                    &&& call_ensures(timestamps, (), Ok(lane.timestamp_query))
                },
                Err(failure) => exists|handles: Seq<RawHandle>| #[trigger]
                    lane_stops_at(make, timestamps, handles, failure),
            },
    {
        let mut build = LaneBuild::new();
        while build.handles.len() < 6
            invariant
                build.well_formed(),
                lane_handles_made(make, build.handles@),
                forall|handles: Seq<RawHandle>| #[trigger]
                    lane_handles_made(make, handles) ==> if handles.len() < 6 {
                        call_requires(make, (lane_action(handles, handles.len() as int),))
                    } else {
                        call_requires(timestamps, ())
                    },
                forall|action: LaneAction| #[trigger]
                    call_ensures(make, (action,), Ok(None)) ==> action is AllocateAcquireCommand
                        || action is AllocateReleaseCommand,
            decreases 6 - build.handles.len(),
        {
            let ghost handles = build.handles@;
            let made = make(build.next());
            match build.made(made) {
                Ok(next) => {
                    build = next;
                    assert forall|step: int| 0 <= step < build.handles.len() implies call_ensures(
                        make,
                        (lane_action(build.handles@, step),),
                        Ok(Some(#[trigger] build.handles@[step])),
                    ) by {
                        if step < handles.len() {
                            assert(build.handles@[step] == handles[step]);
                            assert(lane_action(build.handles@, step) == lane_action(handles, step));
                        }
                    }
                },
                Err(failure) => {
                    assert(lane_stops_at(make, timestamps, handles, failure));
                    return Err(failure);
                },
            }
        }
        let ghost handles = build.handles@;
        match build.finish(timestamps()) {
            Ok(lane) => {
                assert(lane.handles() =~= handles);
                Ok(lane)
            },
            Err(failure) => {
                assert(lane_stops_at(make, timestamps, handles, failure));
                Err(failure)
            },
        }
    }

    /// Tests that the lane has what it needs to time frames.
    pub fn has_gpu_timing_resources(&self) -> (has: bool)
        ensures
            has == self.timestamp_query is Some,
    {
        self.timestamp_query.is_some()
    }

    /// Tests that it has to be chosen now whether the import is timed. Only staged imports are, and
    /// the choice is made once for each.
    pub fn timing_choice_due(&self, staged: bool) -> (due: bool)
        ensures
            due == (staged && self.timestamp_query is Some && self.timing_choice is None),
    {
        staged && self.timestamp_query.is_some() && self.timing_choice.is_none()
    }

    /// Chooses whether the import is timed. The first choice stands until the lane is reset.
    pub fn choose_timing(&mut self, sampled: bool)
        ensures
            *final(self) == (ImportedImageSync {
                timing_choice: if old(self).timing_choice is None {
                    Some(sampled)
                } else {
                    old(self).timing_choice
                },
                ..*old(self)
            }),
    {
        if self.timing_choice.is_none() {
            self.timing_choice = Some(sampled);
        }
    }

    /// The query pool of an import that is timed.
    pub open spec fn active_query(self) -> Option<TimestampQuery> {
        if self.timing_choice == Some(true) {
            self.timestamp_query
        } else {
            None
        }
    }

    /// The pool of `active_query`.
    pub open spec fn active_pool(self) -> Option<RawHandle> {
        match self.active_query() {
            Some(query) => Some(query.pool),
            None => None,
        }
    }

    /// The query pool of an import that is timed.
    pub fn active_timestamp_query(&self) -> (query: Option<TimestampQuery>)
        ensures
            query == self.active_query(),
    {
        match self.timing_choice {
            Some(sampled) => if sampled {
                self.timestamp_query
            } else {
                None
            },
            None => None,
        }
    }

    pub(crate) fn active_timestamp_pool(&self) -> (pool: Option<RawHandle>)
        ensures
            pool == self.active_pool(),
    {
        match self.active_timestamp_query() {
            Some(query) => Some(query.pool),
            None => None,
        }
    }

    /// What `begin_acquire` returns.
    pub open spec fn acquire_check(self) -> Result<(), SyncFault> {
        if self.acquire_submitted || self.release_submitted {
            Err(
                sync_fault(
                    ImportedImageSyncErrorKind::Other,
                    "imported Vulkan image acquire was already submitted"@,
                ),
            )
        } else {
            Ok(())
        }
    }

    /// Checks that the lane is free for an acquire.
    pub fn begin_acquire(&self) -> (result: Result<(), ImportedImageSyncError>)
        ensures
            syncs(result, self.acquire_check()),
    {
        if self.acquire_submitted || self.release_submitted {
            return Err(
                ImportedImageSyncError::new(
                    ImportedImageSyncErrorKind::Other,
                    "imported Vulkan image acquire was already submitted".to_owned(),
                ),
            );
        }
        Ok(())
    }

    /// Where the semaphore for an acquire fence comes from: the lane keeps one.
    pub fn plan_sync_fd(&self, source_fd: i32) -> (result: Result<SyncFdPlan, ImportedImageSyncError>)
        ensures
            syncs(
                result,
                if source_fd < 0 {
                    Err(
                        sync_fault(
                            ImportedImageSyncErrorKind::TemporarySemaphoreImport,
                            "imported Vulkan image has an invalid sync fd"@,
                        ),
                    )
                } else {
                    match self.imported_acquire {
                        Some(semaphore) => Ok(
                            SyncFdPlan::Reuse(SyncFdStep { semaphore, created: false }),
                        ),
                        None => Ok(SyncFdPlan::Create),
                    }
                },
            ),
    {
        if source_fd < 0 {
            return Err(
                ImportedImageSyncError::new(
                    ImportedImageSyncErrorKind::TemporarySemaphoreImport,
                    "imported Vulkan image has an invalid sync fd".to_owned(),
                ),
            );
        }
        match self.imported_acquire {
            Some(semaphore) => Ok(SyncFdPlan::Reuse(SyncFdStep { semaphore, created: false })),
            None => Ok(SyncFdPlan::Create),
        }
    }

    /// The import of an acquire fence was asked for. Vulkan takes the descriptor if and only if that
    /// succeeds.
    pub fn sync_fd_imported(
        &mut self,
        step: SyncFdStep,
        descriptor: i32,
        imported: Result<(), i32>,
    ) -> (result: Result<(), SyncFailure>)
        ensures
            match imported {
                Ok(()) => {
                    &&& result is Ok
                    &&& *final(self) == (ImportedImageSync {
                        imported_acquire: Some(step.semaphore),
                        ..*old(self)
                    })
                },
                Err(code) => {
                    &&& sync_fails(
                        result,
                        sync_fault(
                            ImportedImageSyncErrorKind::TemporarySemaphoreImport,
                            failure_text("failed to import Vulkan acquire sync fd: "@, code),
                        ),
                        seq![DeviceObject::Descriptor(descriptor)] + step.objects(),
                    )
                    &&& *final(self) == *old(self)
                },
            },
    {
        match imported {
            Ok(()) => {
                self.imported_acquire = Some(step.semaphore);
                Ok(())
            },
            Err(code) => {
                let mut destroy: Vec<DeviceObject> = Vec::new();
                destroy.push(DeviceObject::Descriptor(descriptor));
                if step.created {
                    destroy.push(DeviceObject::Semaphore(step.semaphore));
                }
                assert(destroy@ =~= seq![DeviceObject::Descriptor(descriptor)] + step.objects());
                Err(
                    SyncFailure {
                        error: ImportedImageSyncError::new(
                            ImportedImageSyncErrorKind::TemporarySemaphoreImport,
                            failure("failed to import Vulkan acquire sync fd: ", code),
                        ),
                        destroy,
                    },
                )
            },
        }
    }

    /// The lane once an acquire may have been submitted.
    pub open spec fn acquired(self, id: ImportId, staged: bool, ready: RawHandle) ->
        ImportedImageSync {
        ImportedImageSync {
            import_id: Some(id),
            staged_import: staged,
            acquire_submitted: true,
            ready_semaphore: Some(ready),
            ..self
        }
    }

    /// The acquire was submitted. Where the device was lost nobody knows whether the submission was
    /// taken, so that everything is kept.
    pub fn conclude_acquire(
        &mut self,
        image: &mut ImportedDmaBufImage,
        ready: RawHandle,
        submitted: Result<(), i32>,
    ) -> (result: Result<RawHandle, SyncFailure>)
        requires
            old(self).well_formed(),
            old(self).acquire_check() is Ok,
        ensures
            final(self).well_formed(),
            match submitted {
                Ok(()) => {
                    &&& result == Ok::<_, SyncFailure>(ready)
                    &&& *final(image) == old(image).with_contents()
                    &&& *final(self) == old(self).acquired(
                        old(image).import_id,
                        old(image).staged(),
                        ready,
                    )
                },
                Err(code) => {
                    &&& *final(image) == *old(image)
                    &&& if code == ERROR_DEVICE_LOST {
                        &&& sync_fails(
                            result,
                            loss_fault(
                                ImportedImageSyncErrorKind::AcquireSubmit,
                                "Vulkan device lost while acquiring imported image"@,
                            ),
                            Seq::empty(),
                        )
                        &&& *final(self) == old(self).acquired(
                            old(image).import_id,
                            old(image).staged(),
                            ready,
                        )
                    } else {
                        &&& sync_fails(
                            result,
                            sync_fault(
                                ImportedImageSyncErrorKind::AcquireSubmit,
                                failure_text(
                                    "failed to submit imported Vulkan image acquire: "@,
                                    code,
                                ),
                            ),
                            seq![DeviceObject::Semaphore(ready)],
                        )
                        &&& *final(self) == *old(self)
                    }
                },
            },
    {
        let code: i32 = match submitted {
            Ok(()) => 0,
            Err(code) => code,
        };
        if submitted.is_err() && code != ERROR_DEVICE_LOST {
            return Err(
                SyncFailure {
                    error: ImportedImageSyncError::new(
                        ImportedImageSyncErrorKind::AcquireSubmit,
                        failure("failed to submit imported Vulkan image acquire: ", code),
                    ),
                    destroy: semaphore_only(ready),
                },
            );
        }
        self.import_id = Some(image.import_id());
        self.staged_import = image.is_staged();
        self.acquire_submitted = true;
        self.ready_semaphore = Some(ready);
        if submitted.is_err() {
            return Err(
                SyncFailure {
                    error: ImportedImageSyncError::device_lost(
                        ImportedImageSyncErrorKind::AcquireSubmit,
                        "Vulkan device lost while acquiring imported image".to_owned(),
                    ),
                    destroy: Vec::new(),
                },
            );
        }
        image.mark_acquire_submitted();
        Ok(ready)
    }

    /// The fence that tells whether the producer has its memory back, where one does.
    pub fn source_fence(&self) -> (fence: Option<RawHandle>)
        ensures
            fence == (if self.acquire_submitted && self.staged_import {
                Some(self.acquire_fence)
            } else {
                None
            }),
    {
        if self.acquire_submitted && self.staged_import {
            Some(self.acquire_fence)
        } else {
            None
        }
    }

    /// The fence that tells whether everything is over, once the release was submitted.
    pub fn completion_fence(&self) -> (fence: Option<RawHandle>)
        ensures
            fence == (if self.release_submitted {
                Some(self.release_fence)
            } else {
                None
            }),
    {
        if self.release_submitted {
            Some(self.release_fence)
        } else {
            None
        }
    }

    /// What `source_release_complete` returns.
    pub open spec fn source_verdict(self, status: Result<bool, i32>) -> Result<bool, SyncFault> {
        let kind = ImportedImageSyncErrorKind::SourceFencePoll;
        if !self.acquire_submitted {
            Err(sync_fault(kind, "cannot poll staged source release before acquire submission"@))
        } else if !self.staged_import {
            Ok(false)
        } else {
            match status {
                Ok(signaled) => Ok(signaled),
                Err(code) => if code == ERROR_DEVICE_LOST {
                    Err(
                        loss_fault(
                            kind,
                            "Vulkan device lost while polling staged source release"@,
                        ),
                    )
                } else {
                    Err(
                        sync_fault(
                            kind,
                            failure_text("failed to poll staged source-release fence: "@, code),
                        ),
                    )
                },
            }
        }
    }

    /// Tells whether the producer has its memory back, given the status of the acquire fence: true
    /// proves it, even while the output is still displayed. A direct image gives nothing back before
    /// its release.
    pub fn source_release_complete(&self, status: Result<bool, i32>) -> (result: Result<
        bool,
        ImportedImageSyncError,
    >)
        ensures
            syncs(result, self.source_verdict(status)),
    {
        let kind = ImportedImageSyncErrorKind::SourceFencePoll;
        if !self.acquire_submitted {
            return Err(
                ImportedImageSyncError::new(
                    kind,
                    "cannot poll staged source release before acquire submission".to_owned(),
                ),
            );
        }
        if !self.staged_import {
            return Ok(false);
        }
        match status {
            Ok(signaled) => Ok(signaled),
            Err(code) => {
                if code == ERROR_DEVICE_LOST {
                    Err(
                        ImportedImageSyncError::device_lost(
                            kind,
                            "Vulkan device lost while polling staged source release".to_owned(),
                        ),
                    )
                } else {
                    Err(
                        ImportedImageSyncError::new(
                            kind,
                            failure("failed to poll staged source-release fence: ", code),
                        ),
                    )
                }
            },
        }
    }

    /// The renderer took the ready semaphore over.
    pub fn ganesh_wait_accepted(&mut self, semaphore: RawHandle) -> (result: Result<(), String>)
        requires
            old(self).well_formed(),
        ensures
            final(self).well_formed(),
            if old(self).ready_semaphore == Some(semaphore) {
                &&& result is Ok
                &&& *final(self) == (ImportedImageSync {
                    ready_semaphore: None,
                    renderer_accepted: true,
                    ..*old(self)
                })
            } else {
                &&& result matches Err(message) && message@
                    == "unexpected imported-image ready semaphore"@
                &&& *final(self) == *old(self)
            },
    {
        let expected = match self.ready_semaphore {
            Some(ready) => ready == semaphore,
            None => false,
        };
        if !expected {
            return Err("unexpected imported-image ready semaphore".to_owned());
        }
        self.ready_semaphore = None;
        self.renderer_accepted = true;
        Ok(())
    }

    /// The renderer refused the wait. The ready semaphore stays the lane's until the release fence
    /// proves that its signal is over.
    pub fn ganesh_wait_rejected(&mut self, semaphore: RawHandle) -> (result: Result<(), String>)
        requires
            old(self).well_formed(),
        ensures
            final(self).well_formed(),
            if old(self).ready_semaphore == Some(semaphore) {
                &&& result is Ok
                &&& *final(self) == (ImportedImageSync { renderer_rejected: true, ..*old(self) })
            } else {
                &&& result matches Err(message) && message@
                    == "unexpected rejected imported-image ready semaphore"@
                &&& *final(self) == *old(self)
            },
    {
        let expected = match self.ready_semaphore {
            Some(ready) => ready == semaphore,
            None => false,
        };
        if !expected {
            return Err("unexpected rejected imported-image ready semaphore".to_owned());
        }
        self.renderer_rejected = true;
        Ok(())
    }

    /// What `begin_release` returns.
    pub open spec fn release_check(self, id: ImportId) -> Result<(), SyncFault> {
        let kind = ImportedImageSyncErrorKind::ReleaseSubmit;
        if self.release_submitted {
            Err(sync_fault(kind, "imported Vulkan image release was already submitted"@))
        } else if !self.acquire_submitted || (!self.renderer_accepted && !self.renderer_rejected) {
            Err(
                sync_fault(
                    kind,
                    "cannot release an imported Vulkan image before renderer acceptance"@,
                ),
            )
        } else if self.import_id != Some(id) {
            Err(
                sync_fault(
                    kind,
                    "imported Vulkan image release id "@ + decimal(id.value as nat)
                        + " does not match acquired id "@ + decimal(
                        match self.import_id {
                            Some(acquired) => acquired.value as nat,
                            None => 0,
                        },
                    ),
                ),
            )
        } else {
            Ok(())
        }
    }

    /// Checks that the image may be released: it is the one that was acquired, the renderer has
    /// answered, and it has not been released.
    pub fn begin_release(&self, image: &ImportedDmaBufImage) -> (result: Result<
        (),
        ImportedImageSyncError,
    >)
        ensures
            syncs(result, self.release_check(image.import_id)),
    {
        let kind = ImportedImageSyncErrorKind::ReleaseSubmit;
        if self.release_submitted {
            return Err(
                ImportedImageSyncError::new(
                    kind,
                    "imported Vulkan image release was already submitted".to_owned(),
                ),
            );
        }
        if !self.acquire_submitted || (!self.renderer_accepted && !self.renderer_rejected) {
            return Err(
                ImportedImageSyncError::new(
                    kind,
                    "cannot release an imported Vulkan image before renderer acceptance".to_owned(),
                ),
            );
        }
        let acquired: u64 = match self.import_id {
            Some(id) => id.get(),
            None => 0,
        };
        if self.import_id.is_none() || acquired != image.import_id().get() {
            return Err(
                ImportedImageSyncError::new(
                    kind,
                    Message::new("imported Vulkan image release id ").number(
                        image.import_id().get(),
                    ).text(" does not match acquired id ").number(acquired).done(),
                ),
            );
        }
        Ok(())
    }

    /// The release was submitted.
    pub fn conclude_release(
        &mut self,
        image: &ImportedDmaBufImage,
        submitted: Result<(), i32>,
    ) -> (result: Result<(), ImportedImageSyncError>)
        requires
            old(self).well_formed(),
            old(self).release_check(image.import_id) is Ok,
        ensures
            final(self).well_formed(),
            syncs(
                result,
                match submitted {
                    Ok(()) => Ok(()),
                    Err(code) => if code == ERROR_DEVICE_LOST {
                        Err(
                            loss_fault(
                                ImportedImageSyncErrorKind::ReleaseSubmit,
                                "Vulkan device lost while releasing imported image"@,
                            ),
                        )
                    } else {
                        Err(
                            sync_fault(
                                ImportedImageSyncErrorKind::ReleaseSubmit,
                                failure_text(
                                    "failed to submit imported Vulkan image release: "@,
                                    code,
                                ),
                            ),
                        )
                    },
                },
            ),
            *final(self) == (ImportedImageSync {
                release_submitted: submitted is Ok,
                ..*old(self)
            }),
    {
        match submitted {
            Ok(()) => {
                self.release_submitted = true;
                Ok(())
            },
            Err(code) => {
                if code == ERROR_DEVICE_LOST {
                    Err(
                        ImportedImageSyncError::device_lost(
                            ImportedImageSyncErrorKind::ReleaseSubmit,
                            "Vulkan device lost while releasing imported image".to_owned(),
                        ),
                    )
                } else {
                    Err(
                        ImportedImageSyncError::new(
                            ImportedImageSyncErrorKind::ReleaseSubmit,
                            failure("failed to submit imported Vulkan image release: ", code),
                        ),
                    )
                }
            },
        }
    }

    /// Tests that the release was submitted.
    pub fn release_submitted(&self) -> (submitted: bool)
        ensures
            submitted == self.release_submitted,
    {
        self.release_submitted
    }

    /// The timestamps that are read once the release is complete, where they have not been.
    pub open spec fn unread_timestamps(self) -> Option<TimestampQuery> {
        if self.timing_collected {
            None
        } else {
            self.active_query()
        }
    }

    /// What `release_complete` returns.
    pub open spec fn release_poll(self, status: Result<bool, i32>) -> Result<ReleasePoll, SyncFault> {
        let kind = ImportedImageSyncErrorKind::ReleaseFencePoll;
        if !self.release_submitted {
            Ok(ReleasePoll::NotSubmitted)
        } else {
            match status {
                Ok(true) => Ok(ReleasePoll::Complete { timestamps: self.unread_timestamps() }),
                Ok(false) => Ok(ReleasePoll::Pending),
                Err(code) => if code == ERROR_DEVICE_LOST {
                    Err(
                        loss_fault(
                            kind,
                            "Vulkan device lost while polling imported-image release"@,
                        ),
                    )
                } else {
                    Err(
                        sync_fault(
                            kind,
                            failure_text("failed to poll imported-image release fence: "@, code),
                        ),
                    )
                },
            }
        }
    }

    /// The lane after polling its release: timestamps that were handed out are not handed out again.
    pub open spec fn after_poll(self, status: Result<bool, i32>) -> ImportedImageSync {
        if self.release_submitted && status == Ok::<bool, i32>(true) && self.timing_choice == Some(
            true,
        ) {
            ImportedImageSync { timing_collected: true, ..self }
        } else {
            self
        }
    }

    /// Tells whether everything is over, given the status of the release fence. The status does not
    /// matter before the release was submitted.
    pub fn release_complete(&mut self, status: Result<bool, i32>) -> (result: Result<
        ReleasePoll,
        ImportedImageSyncError,
    >)
        ensures
            syncs(result, old(self).release_poll(status)),
            *final(self) == old(self).after_poll(status),
            old(self).well_formed() ==> final(self).well_formed(),
    {
        let kind = ImportedImageSyncErrorKind::ReleaseFencePoll;
        if !self.release_submitted {
            return Ok(ReleasePoll::NotSubmitted);
        }
        match status {
            Ok(true) => {
                let timestamps = if self.timing_collected {
                    None
                } else {
                    self.active_timestamp_query()
                };
                match self.timing_choice {
                    Some(true) => {
                        self.timing_collected = true;
                    },
                    _ => {},
                }
                Ok(ReleasePoll::Complete { timestamps })
            },
            Ok(false) => Ok(ReleasePoll::Pending),
            Err(code) => {
                if code == ERROR_DEVICE_LOST {
                    Err(
                        ImportedImageSyncError::device_lost(
                            kind,
                            "Vulkan device lost while polling imported-image release".to_owned(),
                        ),
                    )
                } else {
                    Err(
                        ImportedImageSyncError::new(
                            kind,
                            failure("failed to poll imported-image release fence: ", code),
                        ),
                    )
                }
            },
        }
    }

    /// Keeps the sample of the import.
    pub fn keep_timing(&mut self, timing: VulkanVideoTiming)
        ensures
            *final(self) == (ImportedImageSync { timing: Some(timing), ..*old(self) }),
    {
        self.timing = Some(timing);
    }

    /// Hands the sample of the import out, once.
    pub fn take_timing(&mut self) -> (timing: Option<VulkanVideoTiming>)
        ensures
            timing == old(self).timing,
            *final(self) == (ImportedImageSync { timing: None, ..*old(self) }),
    {
        let timing = self.timing;
        self.timing = None;
        timing
    }

    /// The lane for the next import. What it was made of stays.
    pub open spec fn renewed(self) -> ImportedImageSync {
        ImportedImageSync {
            ready_semaphore: None,
            import_id: None,
            staged_import: false,
            acquire_submitted: false,
            renderer_accepted: false,
            renderer_rejected: false,
            release_submitted: false,
            timing_choice: None,
            timing_collected: false,
            timing: None,
            ..self
        }
    }

    /// What `reset_for_reuse` returns: the semaphore that is left to destroy.
    pub open spec fn reset_verdict(self, status: Result<bool, i32>) -> Result<
        Option<RawHandle>,
        Seq<char>,
    > {
        if !self.release_submitted {
            Err("cannot reuse Vulkan image sync before release submission"@)
        } else {
            match status {
                Err(code) => Err(failure_text("failed to prove Vulkan sync lane idle: "@, code)),
                Ok(false) => Err("cannot reuse Vulkan image sync before exact completion"@),
                Ok(true) => if self.ready_semaphore is Some && !self.renderer_rejected {
                    Err("cannot reuse Vulkan image sync with an unaccepted ready semaphore"@)
                } else {
                    Ok(self.ready_semaphore)
                },
            }
        }
    }

    /// Makes the lane free for the next import, given the status of the release fence. Returns the
    /// ready semaphore where the renderer refused it: it has to be destroyed.
    pub fn reset_for_reuse(&mut self, status: Result<bool, i32>) -> (result: Result<
        Option<RawHandle>,
        String,
    >)
        requires
            old(self).well_formed(),
        ensures
            final(self).well_formed(),
            agrees(result, old(self).reset_verdict(status)),
            *final(self) == (if result is Ok {
                old(self).renewed()
            } else {
                *old(self)
            }),
    {
        if !self.release_submitted {
            return Err("cannot reuse Vulkan image sync before release submission".to_owned());
        }
        match status {
            Err(code) => return Err(failure("failed to prove Vulkan sync lane idle: ", code)),
            Ok(false) => {
                return Err("cannot reuse Vulkan image sync before exact completion".to_owned());
            },
            Ok(true) => {},
        }
        if self.ready_semaphore.is_some() && !self.renderer_rejected {
            return Err(
                "cannot reuse Vulkan image sync with an unaccepted ready semaphore".to_owned(),
            );
        }
        let rejected = self.ready_semaphore;
        self.ready_semaphore = None;
        self.import_id = None;
        self.staged_import = false;
        self.acquire_submitted = false;
        self.renderer_accepted = false;
        self.renderer_rejected = false;
        self.release_submitted = false;
        self.timing_choice = None;
        self.timing_collected = false;
        self.timing = None;
        Ok(rejected)
    }

    /// What the lane owns, in the order in which it is destroyed.
    pub open spec fn objects(self) -> Seq<DeviceObject> {
        (match self.imported_acquire {
            Some(semaphore) => seq![DeviceObject::Semaphore(semaphore)],
            None => Seq::empty(),
        }) + (match self.ready_semaphore {
            Some(semaphore) => seq![DeviceObject::Semaphore(semaphore)],
            None => Seq::empty(),
        }) + (match self.timestamp_query {
            Some(query) => seq![DeviceObject::QueryPool(query.pool)],
            None => Seq::empty(),
        }) + seq![
            DeviceObject::Fence(self.release_fence),
            DeviceObject::Fence(self.acquire_fence),
            DeviceObject::CommandPool(self.release_pool),
            DeviceObject::CommandPool(self.acquire_pool),
        ]
    }

    /// The device uses nothing of the lane, given the status of the release fence.
    pub open spec fn is_safe_to_destroy(self, status: Result<bool, i32>) -> bool {
        !self.acquire_submitted || (self.release_submitted && status == Ok::<bool, i32>(true))
    }

    /// Ends the lane, given the status of the release fence. What the device may still use is not
    /// destroyed.
    pub fn retire(self, status: Result<bool, i32>) -> (end: LaneEnd)
        ensures
            match end {
                LaneEnd::Destroy(objects) => self.is_safe_to_destroy(status) && objects@
                    == self.objects(),
                LaneEnd::Quarantine => !self.is_safe_to_destroy(status),
            },
    {
        let complete = match status {
            Ok(complete) => complete,
            Err(_) => false,
        };
        if self.acquire_submitted && !(self.release_submitted && complete) {
            return LaneEnd::Quarantine;
        }
        let mut objects: Vec<DeviceObject> = Vec::new();
        match self.imported_acquire {
            Some(semaphore) => objects.push(DeviceObject::Semaphore(semaphore)),
            None => {},
        }
        match self.ready_semaphore {
            Some(semaphore) => objects.push(DeviceObject::Semaphore(semaphore)),
            None => {},
        }
        match self.timestamp_query {
            Some(query) => objects.push(DeviceObject::QueryPool(query.pool)),
            None => {},
        }
        objects.push(DeviceObject::Fence(self.release_fence));
        objects.push(DeviceObject::Fence(self.acquire_fence));
        objects.push(DeviceObject::CommandPool(self.release_pool));
        objects.push(DeviceObject::CommandPool(self.acquire_pool));
        assert(objects@ =~= self.objects());
        LaneEnd::Destroy(objects)
    }
}

/// A lane that carries an import takes no other before the release of that import was submitted and
/// its fence has signalled; then it is as good as new, and takes one.
pub proof fn a_lane_is_reused_only_after_its_release_completed(
    lane: ImportedImageSync,
    status: Result<bool, i32>,
)
    requires
        lane.well_formed(),
    ensures
        lane.acquire_submitted ==> lane.acquire_check() is Err,
        lane.reset_verdict(status) is Ok <==> lane.release_submitted && status == Ok::<bool, i32>(
            true,
        ),
        lane.renewed().is_idle(),
        lane.renewed().well_formed(),
        lane.renewed().acquire_check() is Ok,
{
}

/// An import that was not acquired, or that the renderer has not answered, is not released, and none
/// is released twice.
pub proof fn releases_follow_the_renderers_answer(lane: ImportedImageSync, id: ImportId)
    requires
        lane.well_formed(),
    ensures
        lane.release_check(id) is Ok ==> lane.acquire_submitted && lane.import_id == Some(id) && (
        lane.renderer_accepted || lane.renderer_rejected) && !lane.release_submitted,
        lane.is_idle() ==> lane.release_check(id) is Err,
        (ImportedImageSync { release_submitted: true, ..lane }).release_check(id) is Err,
{
}

/// The timestamps of an import are handed out for reading at most once, after its release has
/// completed, and never for an import that was not chosen to be timed.
pub proof fn timestamps_are_read_at_most_once(
    lane: ImportedImageSync,
    first: Result<bool, i32>,
    second: Result<bool, i32>,
)
    ensures
        lane.release_poll(first) matches Ok(ReleasePoll::Complete { timestamps: Some(_) }) ==> {
            &&& lane.release_submitted
            &&& first == Ok::<bool, i32>(true)
            &&& lane.timing_choice == Some(true)
            &&& !(lane.after_poll(first).release_poll(second) matches Ok(
                ReleasePoll::Complete { timestamps: Some(_) },
            ))
        },
{
}

} // verus!
