//! What holds of synchronization lanes, whatever the device answers.

use vstd::arithmetic::power2::pow2;
use vstd::prelude::*;

use crate::vulkan::flags::RawHandle;
use crate::vulkan::image::ImportedDmaBufImage;
use crate::vulkan::inventory::QueueFamilyProperties;
use crate::vulkan::resources::DeviceObject;
use crate::vulkan::sync::{
    acquire_fence_reset, acquire_pool_reset, acquire_recorded, plan_timestamps,
    ready_semaphore_created, release_fence_reset, release_pool_reset, release_recorded,
    sync_fd_duplicated, sync_semaphore_created, timestamp_delta, timestamp_pool_created,
    timestamps_read, ImportedImageSync, ImportedImageSyncError, ImportedImageSyncErrorKind,
    LaneAction, LaneBuild, LaneEnd, ReleasePoll, SyncFailure, SyncFdPlan, SyncFdStep, TimestampPlan,
    TimestampQuery, TimingOutcome, TimingStatus, VulkanVideoTiming,
};

verus! {

/// The device was lost.
pub open spec fn is_loss<T>(answer: Result<T, i32>) -> bool {
    answer matches Err(code) && code == -4
}

/// How many values a clock with so many bits has.
pub open spec fn values_of_clock(bits: u32) -> int {
    if bits >= 64 {
        0x1_0000_0000_0000_0000
    } else {
        pow2(bits as nat) as int
    }
}

/// The ticks between two readings are the fewest by which the clock gets from the first to the
/// second, turning over at most once; readings in order are apart by their difference.
pub proof fn ticks_lead_from_start_to_end(start: u64, end: u64, bits: u32, ticks: u64)
    requires
        call_ensures(timestamp_delta, (start, end, bits), ticks),
    ensures
        0 <= ticks < values_of_clock(bits),
        (start + ticks - end) % values_of_clock(bits) == 0,
        start <= end < values_of_clock(bits) ==> ticks == end - start,
        end < start < values_of_clock(bits) ==> ticks == values_of_clock(bits) - (start - end),
{
    let clock = values_of_clock(bits);
    vstd::arithmetic::power2::lemma_pow2_pos(bits as nat);
    assert(clock > 0);
    assert(ticks == (end - start) % clock);
    vstd::arithmetic::div_mod::lemma_mod_bound(end - start, clock);
    vstd::arithmetic::div_mod::lemma_fundamental_div_mod(end - start, clock);
    let turns = (end - start) / clock;
    assert(start + ticks - end == clock * (-turns)) by {
        assert(end - start == clock * turns + ticks);
        assert(clock * (-turns) == -(clock * turns)) by (nonlinear_arith);
    }
    vstd::arithmetic::div_mod::lemma_mod_multiples_basic(-turns, clock);
    assert((-turns) * clock == clock * (-turns)) by (nonlinear_arith);
    if start <= end < clock {
        vstd::arithmetic::div_mod::lemma_small_mod((end - start) as nat, clock as nat);
    }
    if end < start < clock {
        let rest = clock - (start - end);
        vstd::arithmetic::div_mod::lemma_small_mod(rest as nat, clock as nat);
        vstd::arithmetic::div_mod::lemma_mod_add_multiples_vanish(end - start, clock);
    }
}

/// A lane is timed if and only if timing is on, the queue family has a clock of one to sixty-four
/// bits, and its period can be used; the context hears only that a clock is missing.
pub proof fn lanes_are_timed_where_there_is_a_clock(
    enabled: bool,
    families: &[QueueFamilyProperties],
    index: u32,
    usable: bool,
    plan: TimestampPlan,
    status: Option<TimingStatus>,
)
    requires
        call_ensures(plan_timestamps, (enabled, families, index, usable), plan),
        call_ensures(TimestampPlan::status, (plan,), status),
    ensures
        plan is Off <==> !enabled,
        plan matches TimestampPlan::CreatePool { valid_bits } ==> enabled && usable && index
            < families@.len() && valid_bits == families@[index as int].timestamp_valid_bits && 1
            <= valid_bits <= 64,
        enabled && usable && index < families@.len() && 1
            <= families@[index as int].timestamp_valid_bits <= 64 ==> plan is CreatePool,
        status is Some <==> plan is Unsupported,
        status matches Some(told) ==> told is Unsupported,
{
}

/// A lane without a query pool for want of memory is simply not timed; any other failure is one of
/// the lane.
pub proof fn missing_query_pools_are_tolerated(
    bits: u32,
    created: Result<RawHandle, i32>,
    result: Result<(Option<TimestampQuery>, Option<TimingStatus>), ImportedImageSyncError>,
)
    requires
        call_ensures(timestamp_pool_created, (bits, created), result),
    ensures
        result is Ok <==> (created matches Err(code) ==> code == -1 || code == -2),
        created matches Ok(handle) ==> (result matches Ok((Some(query), None)) && query.pool
            == handle && query.valid_bits == bits),
        created is Err ==> (result matches Ok(outcome) ==> outcome.0 is None && (
        outcome.1 matches Some(told) && told is Failed)),
        result matches Err(error) ==> error.kind is Other && (error.device_lost <==> is_loss(created)),
{
}

/// A sample has the ticks of the conversion, of the composition and of both, from the three readings
/// in order; readings that are not there for want of time or memory are left out, and any other
/// failure is one of the release.
pub proof fn samples_are_the_three_readings(
    query: TimestampQuery,
    read: Result<[u64; 3], i32>,
    result: Result<TimingOutcome, ImportedImageSyncError>,
    conversion: u64,
    composition: u64,
    total: u64,
)
    requires
        call_ensures(timestamps_read, (query, read), result),
        read matches Ok(values) ==> call_ensures(
            timestamp_delta,
            (values[0], values[1], query.valid_bits),
            conversion,
        ) && call_ensures(timestamp_delta, (values[1], values[2], query.valid_bits), composition)
            && call_ensures(timestamp_delta, (values[0], values[2], query.valid_bits), total),
    ensures
        read is Ok ==> (result matches Ok(TimingOutcome::Sample(ticks)) && ticks.conversion
            == conversion && ticks.composition == composition && ticks.total == total),
        read matches Err(code) ==> (result matches Ok(outcome) <==> code == 1 || code == -1 || code
            == -2) && (result matches Ok(outcome) ==> outcome is Omitted),
        result matches Err(error) ==> error.kind is ReleaseFencePoll && (error.device_lost <==> is_loss(read)),
{
    if let Ok(values) = read {
        assert(values@[0] == values[0] && values@[1] == values[1] && values@[2] == values[2]);
    }
}

/// A lane is made in six steps, each command buffer from the pool of its own half.
pub proof fn lanes_are_made_in_order(build: LaneBuild, action: LaneAction)
    requires
        build.well_formed(),
        call_ensures(LaneBuild::next, (&build,), action),
    ensures
        action is CreateAcquirePool <==> build.handles@.len() == 0,
        action is CreateReleasePool <==> build.handles@.len() == 1,
        action matches LaneAction::AllocateAcquireCommand { pool } ==> build.handles@.len() == 2
            && pool == build.handles@[0],
        action matches LaneAction::AllocateReleaseCommand { pool } ==> build.handles@.len() == 3
            && pool == build.handles@[1],
        action is CreateAcquireFence <==> build.handles@.len() == 4,
        action is CreateReleaseFence <==> build.handles@.len() == 5,
        action is CreateTimestamps <==> build.handles@.len() == 6,
{
}

/// A step that was made is kept; one that failed leaves every pool and fence that there was to
/// destroy, the last first.
pub proof fn unfinished_lanes_are_given_back(
    build: LaneBuild,
    made: Result<Option<RawHandle>, i32>,
    result: Result<LaneBuild, SyncFailure>,
)
    requires
        build.handles@.len() < 6,
        call_ensures(LaneBuild::made, (build, made), result),
    ensures
        result is Ok <==> (made matches Ok(Some(_))),
        result matches Ok(next) ==> next.handles@.len() == build.handles@.len() + 1 && made == Ok::<
            _,
            i32,
        >(Some(next.handles@.last())) && next.handles@.drop_last() =~= build.handles@,
        result matches Err(failure) ==> failure.destroy@ =~= if build.handles@.len() == 0 {
            seq![]
        } else if build.handles@.len() == 1 {
            seq![DeviceObject::CommandPool(build.handles@[0])]
        } else if build.handles@.len() == 5 {
            seq![
                DeviceObject::Fence(build.handles@[4]),
                DeviceObject::CommandPool(build.handles@[1]),
                DeviceObject::CommandPool(build.handles@[0]),
            ]
        } else {
            seq![
                DeviceObject::CommandPool(build.handles@[1]),
                DeviceObject::CommandPool(build.handles@[0]),
            ]
        },
        result matches Err(failure) ==> !failure.error.device_lost && (failure.error.kind
            is ReleaseFenceCreate <==> made is Err && build.handles@.len() >= 4),
{
}

/// A lane that was made has its handles in order and no import; where its timing failed, everything
/// is left to destroy.
pub proof fn finished_lanes_are_idle(
    build: LaneBuild,
    timestamps: Result<Option<TimestampQuery>, ImportedImageSyncError>,
    result: Result<ImportedImageSync, SyncFailure>,
)
    requires
        build.handles@.len() == 6,
        call_ensures(LaneBuild::finish, (build, timestamps), result),
    ensures
        result is Ok <==> timestamps is Ok,
        result matches Ok(lane) ==> {
            &&& lane.acquire_pool == build.handles@[0] && lane.release_pool == build.handles@[1]
            &&& lane.acquire_command == build.handles@[2] && lane.release_command
                == build.handles@[3]
            &&& lane.acquire_fence == build.handles@[4] && lane.release_fence == build.handles@[5]
            &&& timestamps == Ok::<_, ImportedImageSyncError>(lane.timestamp_query)
            &&& has_no_import(lane) && lane.imported_acquire is None
        },
        result matches Err(failure) ==> failure.error@ == timestamps->Err_0@
            && failure.destroy@ =~= seq![
            DeviceObject::Fence(build.handles@[5]),
            DeviceObject::Fence(build.handles@[4]),
            DeviceObject::CommandPool(build.handles@[1]),
            DeviceObject::CommandPool(build.handles@[0]),
        ],
{
}

/// No import uses the lane.
pub open spec fn has_no_import(lane: ImportedImageSync) -> bool {
    &&& !lane.acquire_submitted && !lane.release_submitted && !lane.staged_import
    &&& !lane.renderer_accepted && !lane.renderer_rejected
    &&& lane.import_id is None && lane.ready_semaphore is None
    &&& lane.timing_choice is None && !lane.timing_collected && lane.timing is None
}

/// The handles that the lane owns are the same.
pub open spec fn has_same_handles(one: ImportedImageSync, other: ImportedImageSync) -> bool {
    &&& one.acquire_pool == other.acquire_pool && one.release_pool == other.release_pool
    &&& one.acquire_command == other.acquire_command && one.release_command
        == other.release_command
    &&& one.acquire_fence == other.acquire_fence && one.release_fence == other.release_fence
    &&& one.timestamp_query == other.timestamp_query
}

/// A staged import of a lane that can time is asked about timing once; the first choice stays.
pub proof fn timing_is_chosen_once(first: bool, second: bool, due: bool)
    ensures
        forall|lane: ImportedImageSync, staged: bool| #[trigger]
            call_ensures(ImportedImageSync::timing_choice_due, (&lane, staged), due) ==> (due
                <==> staged && lane.timestamp_query is Some && lane.timing_choice is None),
        forall|s: &mut ImportedImageSync| #[trigger]
            call_ensures(ImportedImageSync::choose_timing, (s, first), ()) ==> {
                &&& (*s).timing_choice is None ==> final(s).timing_choice == Some(first)
                &&& (*s).timing_choice is Some ==> final(s).timing_choice == (*s).timing_choice
                &&& has_same_handles(*final(s), *s)
            },
        forall|s: &mut ImportedImageSync, t: &mut ImportedImageSync|
            #[trigger] call_ensures(ImportedImageSync::choose_timing, (s, first), ())
                && #[trigger] call_ensures(ImportedImageSync::choose_timing, (t, second), ()) && *t
                == *final(s) ==> *final(t) == *t,
{
}

/// An import is timed if and only if it was chosen for timing and the lane can time.
pub proof fn chosen_imports_are_timed(
    lane: ImportedImageSync,
    query: Option<TimestampQuery>,
    has: bool,
)
    requires
        call_ensures(ImportedImageSync::active_timestamp_query, (&lane,), query),
        call_ensures(ImportedImageSync::has_gpu_timing_resources, (&lane,), has),
    ensures
        has <==> lane.timestamp_query is Some,
        query is Some <==> has && lane.timing_choice == Some(true),
        query is Some ==> query == lane.timestamp_query,
{
}

/// An acquire begins if and only if nothing was submitted on the lane.
pub proof fn acquires_need_a_free_lane(
    lane: ImportedImageSync,
    result: Result<(), ImportedImageSyncError>,
)
    requires
        call_ensures(ImportedImageSync::begin_acquire, (&lane,), result),
    ensures
        result is Ok <==> !lane.acquire_submitted && !lane.release_submitted,
        result matches Err(error) ==> error.kind is Other && !error.device_lost,
{
}

/// A fence is imported into the lane's own semaphore where it has one, and else into a new one; a
/// file descriptor that is not open is refused. A new semaphore is destroyed where the import fails,
/// the lane's own is kept.
pub proof fn fences_are_imported_into_one_semaphore(
    lane: ImportedImageSync,
    source_fd: i32,
    plan: Result<SyncFdPlan, ImportedImageSyncError>,
    created: Result<RawHandle, i32>,
    made: Result<SyncFdStep, ImportedImageSyncError>,
    step: SyncFdStep,
    duplicated: Result<i32, String>,
    duplicate: Result<(SyncFdStep, i32), SyncFailure>,
    descriptor: i32,
    imported: Result<(), i32>,
    result: Result<(), SyncFailure>,
)
    requires
        call_ensures(ImportedImageSync::plan_sync_fd, (&lane, source_fd), plan),
        call_ensures(sync_semaphore_created, (created,), made),
        call_ensures(sync_fd_duplicated, (step, duplicated), duplicate),
    ensures
        plan is Ok <==> source_fd >= 0,
        plan matches Ok(SyncFdPlan::Reuse(own)) ==> lane.imported_acquire == Some(own.semaphore)
            && !own.created,
        source_fd >= 0 && lane.imported_acquire is None ==> (plan matches Ok(found) && found
            is Create),
        source_fd >= 0 && lane.imported_acquire is Some ==> (plan matches Ok(found) && found
            is Reuse),
        match created {
            Ok(handle) => made matches Ok(own) && own.semaphore == handle && own.created,
            Err(_) => made matches Err(error) && error.kind is TemporarySemaphoreImport,
        },
        match duplicated {
            Ok(fd) => duplicate matches Ok(next) && next.0 == step && next.1 == fd,
            Err(_) => duplicate matches Err(failure) && failure.error.kind
                is TemporarySemaphoreImport && failure.destroy@ =~= spare_semaphore(step),
        },
        forall|s: &mut ImportedImageSync| #[trigger]
            call_ensures(
                ImportedImageSync::sync_fd_imported,
                (s, step, descriptor, imported),
                result,
            ) ==> {
                &&& result is Ok <==> imported is Ok
                &&& result is Ok ==> final(s).imported_acquire == Some(step.semaphore)
                    && has_same_handles(*final(s), *s) && final(s).acquire_submitted
                    == (*s).acquire_submitted
                &&& result matches Err(failure) ==> *final(s) == *s
                    && failure.destroy@ =~= seq![DeviceObject::Descriptor(descriptor)]
                    + spare_semaphore(step) && failure.error.kind is TemporarySemaphoreImport
            },
{
}

/// The semaphore, where it was made for this import.
pub open spec fn spare_semaphore(step: SyncFdStep) -> Seq<DeviceObject> {
    if step.created {
        seq![DeviceObject::Semaphore(step.semaphore)]
    } else {
        seq![]
    }
}

/// What is made ready for an acquire or a release is left to destroy where the next call fails, and
/// the failure is of the half that it belongs to.
pub proof fn preparations_are_given_back(
    created: Result<RawHandle, i32>,
    made: Result<RawHandle, ImportedImageSyncError>,
    ready: RawHandle,
    code: Result<(), i32>,
    fence: Result<(), SyncFailure>,
    pool: Result<(), String>,
    recorded: Result<(), String>,
    acquire: Result<(), SyncFailure>,
    release_fence: Result<(), ImportedImageSyncError>,
    release_pool: Result<(), ImportedImageSyncError>,
    release: Result<(), ImportedImageSyncError>,
)
    requires
        call_ensures(ready_semaphore_created, (created,), made),
        call_ensures(acquire_fence_reset, (ready, code), fence),
        call_ensures(acquire_pool_reset, (code,), pool),
        call_ensures(acquire_recorded, (ready, recorded), acquire),
        call_ensures(release_fence_reset, (code,), release_fence),
        call_ensures(release_pool_reset, (code,), release_pool),
        call_ensures(release_recorded, (recorded,), release),
    ensures
        made is Ok <==> created is Ok,
        made is Ok ==> made->Ok_0 == created->Ok_0,
        fence is Ok <==> code is Ok,
        pool is Ok <==> code is Ok,
        acquire is Ok <==> recorded is Ok,
        release_fence is Ok <==> code is Ok,
        release_pool is Ok <==> code is Ok,
        release is Ok <==> recorded is Ok,
        fence matches Err(failure) ==> failure.destroy@ == seq![DeviceObject::Semaphore(ready)]
            && failure.error.kind is AcquireSubmit,
        acquire matches Err(failure) ==> failure.destroy@ == seq![DeviceObject::Semaphore(ready)]
            && failure.error@.text == recorded->Err_0@,
        release_fence matches Err(error) ==> error.kind is ReleaseSubmit && !error.device_lost,
        release_pool matches Err(error) ==> error.kind is ReleaseSubmit && !error.device_lost,
        release matches Err(error) ==> error.kind is ReleaseSubmit && error@.text
            == recorded->Err_0@,
{
}

/// The lane holds the image's import, ready for the renderer.
pub open spec fn holds_import(
    lane: ImportedImageSync,
    image: ImportedDmaBufImage,
    ready: RawHandle,
) -> bool {
    &&& lane.acquire_submitted
    &&& lane.import_id == Some(image.import_id)
    &&& lane.staged_import == (image.kind is StagedPacked || image.kind is StagedNv12)
    &&& lane.ready_semaphore == Some(ready)
}

/// A submitted acquire makes the lane hold the import and hands the ready semaphore out. One that
/// was refused leaves lane and image as they were, with the semaphore to destroy; where the device
/// was lost everything is kept, and the loss is reported.
pub proof fn submitted_acquires_are_held(
    ready: RawHandle,
    submitted: Result<(), i32>,
    result: Result<RawHandle, SyncFailure>,
)
    ensures
        forall|s: &mut ImportedImageSync, image: &mut ImportedDmaBufImage| #[trigger]
            call_ensures(
                ImportedImageSync::conclude_acquire,
                (s, image, ready, submitted),
                result,
            ) ==> {
                &&& result is Ok <==> submitted is Ok
                &&& result matches Ok(handed) ==> handed == ready && holds_import(
                    *final(s),
                    *image,
                    ready,
                ) && final(s).release_submitted == (*s).release_submitted
                &&& result matches Err(failure) ==> *final(image) == *image && failure.error.kind
                    is AcquireSubmit
                &&& result matches Err(failure) ==> if is_loss(submitted) {
                    failure.error.device_lost && failure.destroy@.len() == 0 && holds_import(
                        *final(s),
                        *image,
                        ready,
                    )
                } else {
                    !failure.error.device_lost && failure.destroy@ == seq![
                        DeviceObject::Semaphore(ready),
                    ] && *final(s) == *s
                }
                &&& has_same_handles(*final(s), *s)
            },
{
}

/// The renderer answers for the semaphore that it was handed, and for no other: where it accepts it
/// the semaphore is its own, where it refuses it the semaphore stays the lane's.
pub proof fn answers_name_the_ready_semaphore(semaphore: RawHandle, result: Result<(), String>)
    ensures
        forall|s: &mut ImportedImageSync| #[trigger]
            call_ensures(ImportedImageSync::ganesh_wait_accepted, (s, semaphore), result) ==> {
                &&& result is Ok <==> (*s).ready_semaphore == Some(semaphore)
                &&& result is Ok ==> final(s).ready_semaphore is None && final(s).renderer_accepted
                    && final(s).renderer_rejected == (*s).renderer_rejected && final(s).import_id
                    == (*s).import_id && final(s).release_submitted == (*s).release_submitted
                &&& result is Err ==> *final(s) == *s
            },
        forall|s: &mut ImportedImageSync| #[trigger]
            call_ensures(ImportedImageSync::ganesh_wait_rejected, (s, semaphore), result) ==> {
                &&& result is Ok <==> (*s).ready_semaphore == Some(semaphore)
                &&& result is Ok ==> final(s).ready_semaphore == Some(semaphore)
                    && final(s).renderer_rejected && final(s).renderer_accepted
                    == (*s).renderer_accepted && final(s).import_id == (*s).import_id
                    && final(s).release_submitted == (*s).release_submitted
                &&& result is Err ==> *final(s) == *s
            },
{
}

/// Only staged imports give their source back early, when the acquire fence is signaled; the release
/// fence counts only once the release was submitted.
pub proof fn fences_belong_to_their_half(
    lane: ImportedImageSync,
    source: Option<RawHandle>,
    completion: Option<RawHandle>,
    status: Result<bool, i32>,
    released: Result<bool, ImportedImageSyncError>,
)
    requires
        call_ensures(ImportedImageSync::source_fence, (&lane,), source),
        call_ensures(ImportedImageSync::completion_fence, (&lane,), completion),
        call_ensures(ImportedImageSync::source_release_complete, (&lane, status), released),
    ensures
        source is Some <==> lane.acquire_submitted && lane.staged_import,
        source matches Some(fence) ==> fence == lane.acquire_fence,
        completion is Some <==> lane.release_submitted,
        completion matches Some(fence) ==> fence == lane.release_fence,
        released == Ok::<_, ImportedImageSyncError>(true) <==> lane.acquire_submitted
            && lane.staged_import && status == Ok::<_, i32>(true),
        released == Ok::<_, ImportedImageSyncError>(false) <==> lane.acquire_submitted && (
        !lane.staged_import || status == Ok::<_, i32>(false)),
        released matches Err(error) ==> error.kind is SourceFencePoll && (error.device_lost
            <==> lane.acquire_submitted && is_loss(status)),
{
}

/// An image may be released if and only if the lane acquired that very image, the renderer has
/// answered, and it was not released before; the release counts only where it was submitted.
pub proof fn releases_follow_acquire_and_answer(
    lane: ImportedImageSync,
    image: ImportedDmaBufImage,
    begun: Result<(), ImportedImageSyncError>,
    submitted: Result<(), i32>,
    result: Result<(), ImportedImageSyncError>,
)
    requires
        call_ensures(ImportedImageSync::begin_release, (&lane, &image), begun),
    ensures
        begun is Ok <==> {
            &&& lane.acquire_submitted && !lane.release_submitted
            &&& lane.renderer_accepted || lane.renderer_rejected
            &&& lane.import_id == Some(image.import_id)
        },
        begun matches Err(error) ==> error.kind is ReleaseSubmit && !error.device_lost,
        forall|s: &mut ImportedImageSync| #[trigger]
            call_ensures(
                ImportedImageSync::conclude_release,
                (s, &image, submitted),
                result,
            ) ==> {
                &&& result is Ok <==> submitted is Ok
                &&& final(s).release_submitted <==> submitted is Ok
                &&& final(s).acquire_submitted == (*s).acquire_submitted && final(s).import_id
                    == (*s).import_id && final(s).ready_semaphore == (*s).ready_semaphore
                &&& has_same_handles(*final(s), *s)
                &&& result matches Err(error) ==> error.kind is ReleaseSubmit && (error.device_lost
                    <==> is_loss(submitted))
            },
{
}

/// A release is over if and only if it was submitted and its fence is signaled. The timestamps are
/// handed out then, where the import is timed, and never again.
pub proof fn releases_are_over_when_the_fence_is_signaled(
    status: Result<bool, i32>,
    later: Result<bool, i32>,
    result: Result<ReleasePoll, ImportedImageSyncError>,
    again: Result<ReleasePoll, ImportedImageSyncError>,
)
    ensures
        forall|s: &mut ImportedImageSync| #[trigger]
            call_ensures(ImportedImageSync::release_complete, (s, status), result) ==> {
                let timed = !(*s).timing_collected && (*s).timing_choice == Some(true);
                &&& (result matches Ok(poll) && poll is NotSubmitted) <==> !(*s).release_submitted
                &&& (result matches Ok(poll) && poll is Complete) <==> (*s).release_submitted
                    && status == Ok::<_, i32>(true)
                &&& (result matches Ok(poll) && poll is Pending) <==> (*s).release_submitted
                    && status == Ok::<_, i32>(false)
                &&& result matches Ok(ReleasePoll::Complete { timestamps }) ==> timestamps == if
                    timed {
                    (*s).timestamp_query
                } else {
                    None
                }
                &&& result matches Err(error) ==> error.kind is ReleaseFencePoll && (
                error.device_lost <==> is_loss(status))
                &&& has_same_handles(*final(s), *s) && final(s).release_submitted
                    == (*s).release_submitted
            },
        forall|s: &mut ImportedImageSync, t: &mut ImportedImageSync|
            #[trigger] call_ensures(ImportedImageSync::release_complete, (s, status), result)
                && #[trigger] call_ensures(
                ImportedImageSync::release_complete,
                (t, later),
                again,
            ) && *t == *final(s) && (result matches Ok(poll) && poll is Complete) ==> (
            again matches Ok(ReleasePoll::Complete { timestamps }) ==> timestamps is None),
{
}

/// A timing that is kept is handed out once.
pub proof fn timings_are_handed_out_once(
    timing: VulkanVideoTiming,
    first: Option<VulkanVideoTiming>,
    second: Option<VulkanVideoTiming>,
)
    ensures
        forall|s: &mut ImportedImageSync, t: &mut ImportedImageSync|
            #[trigger] call_ensures(ImportedImageSync::keep_timing, (s, timing), ())
                && #[trigger] call_ensures(ImportedImageSync::take_timing, (t,), first) && *t
                == *final(s) ==> first == Some(timing) && final(t).timing is None,
        forall|s: &mut ImportedImageSync, t: &mut ImportedImageSync|
            #[trigger] call_ensures(ImportedImageSync::take_timing, (s,), first)
                && #[trigger] call_ensures(ImportedImageSync::take_timing, (t,), second) && *t
                == *final(s) ==> second is None && first == (*s).timing,
{
}

/// A lane is used again if and only if its release was submitted and is over, and no semaphore is
/// left that nobody answered for. It then holds no import and keeps its handles; a semaphore that
/// the renderer refused is handed out to destroy.
pub proof fn lanes_are_used_again_when_they_are_over(
    status: Result<bool, i32>,
    result: Result<Option<RawHandle>, String>,
)
    ensures
        forall|s: &mut ImportedImageSync| #[trigger]
            call_ensures(ImportedImageSync::reset_for_reuse, (s, status), result) ==> {
                &&& result is Ok <==> (*s).release_submitted && status == Ok::<_, i32>(true) && (
                (*s).ready_semaphore is Some ==> (*s).renderer_rejected)
                &&& result matches Ok(left) ==> left == (*s).ready_semaphore && has_no_import(
                    *final(s),
                ) && has_same_handles(*final(s), *s) && final(s).imported_acquire
                    == (*s).imported_acquire
                &&& result is Err ==> *final(s) == *s
            },
{
}

/// A lane is destroyed only where the device uses nothing of it: nothing was acquired, or the
/// release is over. Everything goes then, semaphores and queries before fences, fences before pools.
pub proof fn lanes_are_destroyed_when_nothing_uses_them(
    lane: ImportedImageSync,
    status: Result<bool, i32>,
    end: LaneEnd,
)
    requires
        call_ensures(ImportedImageSync::retire, (lane, status), end),
    ensures
        end is Destroy <==> !lane.acquire_submitted || (lane.release_submitted && status == Ok::<
            _,
            i32,
        >(true)),
        end matches LaneEnd::Destroy(objects) ==> {
            let last = objects@.len() as int;
            &&& last >= 4
            &&& objects@[last - 4] == DeviceObject::Fence(lane.release_fence)
            &&& objects@[last - 3] == DeviceObject::Fence(lane.acquire_fence)
            &&& objects@[last - 2] == DeviceObject::CommandPool(lane.release_pool)
            &&& objects@[last - 1] == DeviceObject::CommandPool(lane.acquire_pool)
            &&& lane.timestamp_query matches Some(query) ==> last >= 5 && objects@[last - 5]
                == DeviceObject::QueryPool(query.pool)
            &&& lane.imported_acquire matches Some(semaphore) ==> objects@[0]
                == DeviceObject::Semaphore(semaphore)
            &&& lane.ready_semaphore matches Some(semaphore) ==> objects@[if
                lane.imported_acquire is Some {
                1int
            } else {
                0
            }] == DeviceObject::Semaphore(semaphore)
            &&& last == 4 + (if lane.timestamp_query is Some {
                1int
            } else {
                0
            }) + (if lane.imported_acquire is Some {
                1int
            } else {
                0
            }) + (if lane.ready_semaphore is Some {
                1int
            } else {
                0
            })
        },
{
}

/// An error tells its kind, whether the device was lost, and its message.
pub proof fn errors_tell_what_they_hold(
    error: ImportedImageSyncError,
    kind: ImportedImageSyncErrorKind,
    lost: bool,
    message: &str,
)
    requires
        call_ensures(ImportedImageSyncError::kind, (&error,), kind),
        call_ensures(ImportedImageSyncError::is_device_lost, (&error,), lost),
        call_ensures(ImportedImageSyncError::message, (&error,), message),
    ensures
        kind == error.kind,
        lost == error.device_lost,
        message@ == error.message@,
{
}

/// What a lane tells about itself is what it holds.
pub proof fn lanes_tell_what_they_hold(lane: ImportedImageSync, submitted: bool, new: LaneBuild)
    requires
        call_ensures(ImportedImageSync::release_submitted, (&lane,), submitted),
        call_ensures(LaneBuild::new, (), new),
    ensures
        submitted == lane.release_submitted,
        new.handles@.len() == 0,
{
}

} // verus!
