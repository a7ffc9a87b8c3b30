//! What holds of acquires and releases, whatever the device answers.

use vstd::prelude::*;

use crate::vulkan::flags::RawHandle;
use crate::vulkan::image::{AcquirePlan, ImportedDmaBufImage};
use crate::vulkan::record::{
    record_acquire, record_direct_release, record_staged_release, CommandStep,
};
use crate::vulkan::resources::DeviceObject;
use crate::vulkan::submission::{
    acquire_ends, acquire_moves, acquire_reaches, release_ends, release_moves, release_reaches,
    AcquireProgress, AcquireStage, AcquireState, Recording, ReleaseProgress, ReleaseStage,
    ReleaseState, SyncAction, SyncAnswer,
};
use crate::vulkan::sync::{
    ImportedImageSync, ImportedImageSyncError, LaneAction, SyncFailure, SyncFdStep, TimestampQuery,
};

verus! {

/// The pool of the query, where there is one.
pub open spec fn pool_of(query: Option<TimestampQuery>) -> Option<RawHandle> {
    match query {
        Some(found) => Some(found.pool),
        None => None,
    }
}

/// A recording gives the steps of what it records.
pub proof fn recordings_give_their_steps(
    recording: Recording,
    result: Result<Vec<CommandStep>, String>,
    plan: AcquirePlan,
    family: u32,
    timestamps: Option<RawHandle>,
    acquired: Result<Vec<CommandStep>, String>,
    image: RawHandle,
    direct: Vec<CommandStep>,
    staged: Vec<CommandStep>,
)
    requires
        call_ensures(Recording::steps, (recording,), result),
        call_ensures(record_acquire, (plan, family, timestamps), acquired),
        call_ensures(record_direct_release, (image, family), direct),
        call_ensures(record_staged_release, (timestamps,), staged),
    ensures
        recording == (Recording::Acquire { plan, family, timestamps }) ==> (result is Ok
            <==> acquired is Ok) && (result is Ok ==> result->Ok_0@ == acquired->Ok_0@),
        recording == (Recording::DirectRelease { image, family }) ==> result is Ok && result->Ok_0@
            == direct@,
        recording == (Recording::StagedRelease { timestamps }) ==> result is Ok && result->Ok_0@
            == staged@,
{
}

/// What is recorded for a lane is the acquire of the image, timed where the import is timed; a
/// staged image is released by its timestamp alone, and a direct one by giving its image back.
pub proof fn lanes_record_their_image(
    lane: ImportedImageSync,
    image: ImportedDmaBufImage,
    family: u32,
    plan: AcquirePlan,
    query: Option<TimestampQuery>,
    sampled: RawHandle,
    staged: bool,
    acquire: Recording,
    release: Recording,
)
    requires
        call_ensures(ImportedDmaBufImage::acquire_plan, (&image,), plan),
        call_ensures(ImportedDmaBufImage::image, (&image,), sampled),
        call_ensures(ImportedDmaBufImage::is_staged, (&image,), staged),
        call_ensures(ImportedImageSync::active_timestamp_query, (&lane,), query),
        call_ensures(ImportedImageSync::acquire_recording, (&lane, &image, family), acquire),
        call_ensures(ImportedImageSync::release_recording, (&lane, &image, family), release),
    ensures
        acquire == (Recording::Acquire { plan, family, timestamps: pool_of(query) }),
        staged ==> release == (Recording::StagedRelease { timestamps: pool_of(query) }),
        !staged ==> release == (Recording::DirectRelease { image: sampled, family }),
{
}

/// An acquire begins if and only if the lane is free and the fence, where there is one, is a file
/// descriptor. Without a fence nothing is waited for; with one it goes into the lane's semaphore, or
/// into a new one where the lane has none.
pub proof fn acquires_begin_with_the_fence(
    lane: ImportedImageSync,
    fence: Option<i32>,
    begun: Result<(), ImportedImageSyncError>,
    result: Result<AcquireStage, ImportedImageSyncError>,
)
    requires
        call_ensures(ImportedImageSync::begin_acquire, (&lane,), begun),
        call_ensures(ImportedImageSync::start_acquire, (&lane, fence), result),
    ensures
        result is Ok <==> begun is Ok && (fence matches Some(fd) ==> fd >= 0),
        begun is Err ==> result is Err && result->Err_0@ == begun->Err_0@,
        result matches Ok(stage) ==> match (fence, lane.imported_acquire) {
            (None, _) => stage == (AcquireStage::CreateReadySemaphore { wait: None }),
            (Some(fd), None) => stage == (AcquireStage::CreateFenceSemaphore { source_fd: fd }),
            (Some(fd), Some(semaphore)) => stage == (AcquireStage::DuplicateFence {
                source_fd: fd,
                step: SyncFdStep { semaphore, created: false },
            }),
        },
{
}

/// The calls of an acquire go to the acquire half of the lane: its fence, its pool, its commands.
/// They record the acquire of the image, wait for the imported fence and signal the renderer.
pub proof fn acquires_use_the_acquire_half(
    stage: AcquireStage,
    lane: ImportedImageSync,
    image: ImportedDmaBufImage,
    family: u32,
    recording: Recording,
    action: Option<SyncAction>,
)
    requires
        call_ensures(ImportedImageSync::acquire_recording, (&lane, &image, family), recording),
        call_ensures(AcquireStage::next, (stage, &lane, &image, family), action),
    ensures
        action is None <==> stage is Submitted,
        match stage {
            AcquireStage::CreateFenceSemaphore { .. } => action == Some(
                SyncAction::CreateSemaphore,
            ),
            AcquireStage::DuplicateFence { source_fd, .. } => action == Some(
                SyncAction::DuplicateFence { source_fd },
            ),
            AcquireStage::ImportFence { step, descriptor } => action == Some(
                SyncAction::ImportFence { semaphore: step.semaphore, descriptor },
            ),
            AcquireStage::CreateReadySemaphore { .. } => action == Some(
                SyncAction::CreateSemaphore,
            ),
            AcquireStage::ResetFence { .. } => action == Some(
                SyncAction::ResetFence { fence: lane.acquire_fence },
            ),
            AcquireStage::ResetPool { .. } => action == Some(
                SyncAction::ResetPool { pool: lane.acquire_pool },
            ),
            AcquireStage::ChooseTiming { .. } => action == Some(SyncAction::ChooseTiming),
            AcquireStage::Record { .. } => action == Some(
                SyncAction::Record { command: lane.acquire_command, recording },
            ),
            AcquireStage::Submit { wait, ready } => action == Some(
                SyncAction::Submit {
                    command: lane.acquire_command,
                    wait,
                    signal: Some(ready),
                    fence: lane.acquire_fence,
                },
            ),
            AcquireStage::Submitted { .. } => true,
        },
{
}

/// The call was answered with success.
pub open spec fn succeeds(answer: SyncAnswer) -> bool {
    match answer {
        SyncAnswer::Created(created) => created is Ok,
        SyncAnswer::Duplicated(duplicated) => duplicated is Ok,
        SyncAnswer::Finished(finished) => finished is Ok,
        SyncAnswer::Sampled(_) => true,
        SyncAnswer::Recorded(recorded) => recorded is Ok,
    }
}

/// A call that succeeds leads to the next one, and a call that fails ends the acquire. What is
/// waited for is the semaphore that the fence was imported into, and the semaphore for the renderer
/// stays the one that was created.
pub proof fn acquires_go_on_only_after_success(
    stage: AcquireStage,
    answer: SyncAnswer,
    result: Result<AcquireStage, SyncFailure>,
)
    requires
        stage.takes(answer),
    ensures
        forall|lane: &mut ImportedImageSync, image: &mut ImportedDmaBufImage| #[trigger]
            call_ensures(AcquireStage::answered, (stage, lane, image, answer), result) ==> {
                &&& result is Ok <==> succeeds(answer)
                &&& result matches Ok(next) ==> match stage {
                    AcquireStage::CreateFenceSemaphore { source_fd } =>
                        next matches AcquireStage::DuplicateFence { source_fd: fd, step } && fd
                        == source_fd && step.created && answer == SyncAnswer::Created(
                        Ok(step.semaphore),
                    ),
                    AcquireStage::DuplicateFence { step, .. } =>
                        next matches AcquireStage::ImportFence { step: kept, descriptor } && kept
                        == step && answer == SyncAnswer::Duplicated(Ok(descriptor)),
                    AcquireStage::ImportFence { step, .. } => next == (
                    AcquireStage::CreateReadySemaphore { wait: Some(step.semaphore) })
                        && final(lane).imported_acquire == Some(step.semaphore),
                    AcquireStage::CreateReadySemaphore { wait } =>
                        next matches AcquireStage::ResetFence { wait: kept, ready } && kept == wait
                        && answer == SyncAnswer::Created(Ok(ready)),
                    AcquireStage::ResetFence { wait, ready } => next == (AcquireStage::ResetPool {
                        wait,
                        ready,
                    }),
                    AcquireStage::ResetPool { wait, ready } => next == if (image.kind
                        is StagedPacked || image.kind is StagedNv12) && (*lane).timestamp_query
                        is Some && (*lane).timing_choice is None {
                        AcquireStage::ChooseTiming { wait, ready }
                    } else {
                        AcquireStage::Record { wait, ready }
                    },
                    AcquireStage::ChooseTiming { wait, ready } => next == (AcquireStage::Record {
                        wait,
                        ready,
                    }) && ((*lane).timing_choice is None ==> (
                    answer matches SyncAnswer::Sampled(sampled) && final(lane).timing_choice == Some(
                        sampled,
                    ))) && ((*lane).timing_choice is Some ==> final(lane).timing_choice == (
                    *lane).timing_choice),
                    AcquireStage::Record { wait, ready } => next == (AcquireStage::Submit {
                        wait,
                        ready,
                    }),
                    AcquireStage::Submit { ready, .. } => next == (AcquireStage::Submitted {
                        ready,
                    }) && final(lane).acquire_submitted && final(lane).ready_semaphore == Some(
                        ready,
                    ) && final(lane).import_id == Some((*image).import_id),
                    AcquireStage::Submitted { .. } => false,
                }
                &&& !(stage is Submit) ==> final(lane).acquire_submitted == (
                *lane).acquire_submitted && *final(image) == *image
                &&& result is Err && !(stage is Submit) ==> *final(lane) == *lane
            },
{
}

/// An acquire that ends early leaves to destroy what it had made: the duplicate of the fence, a
/// semaphore that was made for it, and the semaphore for the renderer. Only a lost device leaves
/// everything in use.
pub proof fn failed_acquires_give_back_what_they_made(
    stage: AcquireStage,
    answer: SyncAnswer,
    failure: SyncFailure,
)
    requires
        stage.takes(answer),
    ensures
        forall|lane: &mut ImportedImageSync, image: &mut ImportedDmaBufImage| #[trigger]
            call_ensures(AcquireStage::answered, (stage, lane, image, answer), Err(failure)) ==> {
                let lost = stage is Submit && (answer matches SyncAnswer::Finished(Err(code))
                    && code == -4);
                &&& failure.error.device_lost <==> lost
                &&& *final(image) == *image
                &&& !lost ==> *final(lane) == *lane
                &&& lost ==> final(lane).acquire_submitted && failure.destroy@.len() == 0
                &&& !lost ==> match stage {
                    AcquireStage::CreateFenceSemaphore { .. } => failure.destroy@.len() == 0,
                    AcquireStage::DuplicateFence { step, .. } => failure.destroy@
                        =~= spare_semaphore(step),
                    AcquireStage::ImportFence { step, descriptor } => failure.destroy@ =~= seq![
                        DeviceObject::Descriptor(descriptor),
                    ] + spare_semaphore(step),
                    AcquireStage::CreateReadySemaphore { .. } => failure.destroy@.len() == 0,
                    AcquireStage::ResetFence { ready, .. } => failure.destroy@ == seq![
                        DeviceObject::Semaphore(ready),
                    ],
                    AcquireStage::ResetPool { ready, .. } => failure.destroy@ == seq![
                        DeviceObject::Semaphore(ready),
                    ],
                    AcquireStage::Record { ready, .. } => failure.destroy@ == seq![
                        DeviceObject::Semaphore(ready),
                    ],
                    AcquireStage::Submit { ready, .. } => failure.destroy@ == seq![
                        DeviceObject::Semaphore(ready),
                    ],
                    _ => false,
                }
            },
{
}

/// The semaphore, where it was made for this import.
pub open spec fn spare_semaphore(step: SyncFdStep) -> Seq<DeviceObject> {
    if step.created {
        seq![DeviceObject::Semaphore(step.semaphore)]
    } else {
        seq![]
    }
}

/// The calls of a release go to the release half of the lane: its fence, its pool, its commands.
/// They record the release of the image, and wait for nothing and signal nothing but the fence.
pub proof fn releases_use_the_release_half(
    stage: ReleaseStage,
    lane: ImportedImageSync,
    image: ImportedDmaBufImage,
    family: u32,
    recording: Recording,
    action: Option<SyncAction>,
)
    requires
        call_ensures(ImportedImageSync::release_recording, (&lane, &image, family), recording),
        call_ensures(ReleaseStage::next, (stage, &lane, &image, family), action),
    ensures
        action == (match stage {
            ReleaseStage::ResetFence => Some(
                SyncAction::ResetFence { fence: lane.release_fence },
            ),
            ReleaseStage::ResetPool => Some(SyncAction::ResetPool { pool: lane.release_pool }),
            ReleaseStage::Record => Some(
                SyncAction::Record { command: lane.release_command, recording },
            ),
            ReleaseStage::Submit => Some(
                SyncAction::Submit {
                    command: lane.release_command,
                    wait: None,
                    signal: None,
                    fence: lane.release_fence,
                },
            ),
            ReleaseStage::Submitted => None,
        }),
{
}

/// A call that succeeds leads to the next one, and a call that fails ends the release, with the lane
/// as it was. The release counts as submitted when the submission was taken.
pub proof fn releases_go_on_only_after_success(
    stage: ReleaseStage,
    image: ImportedDmaBufImage,
    answer: SyncAnswer,
    result: Result<ReleaseStage, ImportedImageSyncError>,
)
    requires
        stage.takes(answer),
    ensures
        forall|lane: &mut ImportedImageSync| #[trigger]
            call_ensures(ReleaseStage::answered, (stage, lane, &image, answer), result) ==> {
                &&& result is Ok <==> succeeds(answer)
                &&& result matches Ok(next) ==> match stage {
                    ReleaseStage::ResetFence => next is ResetPool,
                    ReleaseStage::ResetPool => next is Record,
                    ReleaseStage::Record => next is Submit,
                    ReleaseStage::Submit => next is Submitted,
                    ReleaseStage::Submitted => false,
                }
                &&& stage is Submit && result is Ok ==> final(lane).release_submitted
                &&& !(stage is Submit && result is Ok) ==> *final(lane) == *lane
                &&& final(lane).acquire_submitted == (*lane).acquire_submitted
                    && final(lane).import_id == (*lane).import_id
                &&& result matches Err(error) ==> error.kind is ReleaseSubmit && (error.device_lost
                    <==> stage is Submit && (answer matches SyncAnswer::Finished(Err(code)) && code
                    == -4))
            },
{
}

/// The call was made, and answered with success.
pub open spec fn was_done<F: Fn(SyncAction) -> SyncAnswer>(perform: F, action: SyncAction) -> bool {
    exists|answer: SyncAnswer| #[trigger]
        call_ensures(perform, (action,), answer) && succeeds(answer)
}

/// A duplicate of the fence was imported into the semaphore.
pub open spec fn was_imported<F: Fn(SyncAction) -> SyncAnswer>(
    perform: F,
    fence: i32,
    semaphore: RawHandle,
) -> bool {
    exists|descriptor: i32|
        #![trigger was_done(perform, SyncAction::ImportFence { semaphore, descriptor })]
        was_done(perform, SyncAction::ImportFence { semaphore, descriptor }) && call_ensures(
            perform,
            (SyncAction::DuplicateFence { source_fd: fence },),
            SyncAnswer::Duplicated(Ok(descriptor)),
        )
}

/// What is waited for at a stage, where that is known.
pub open spec fn waited_for(stage: AcquireStage) -> Option<Option<RawHandle>> {
    match stage {
        AcquireStage::CreateReadySemaphore { wait } => Some(wait),
        AcquireStage::ResetFence { wait, .. } => Some(wait),
        AcquireStage::ResetPool { wait, .. } => Some(wait),
        AcquireStage::ChooseTiming { wait, .. } => Some(wait),
        AcquireStage::Record { wait, .. } => Some(wait),
        AcquireStage::Submit { wait, .. } => Some(wait),
        _ => None,
    }
}

/// How far an acquire has come when it stands at a stage: every call before it was made and
/// succeeded, on the handles of the lane.
pub open spec fn has_done<F: Fn(SyncAction) -> SyncAnswer>(
    perform: F,
    first: AcquireState,
    state: AcquireState,
    fence: Option<i32>,
) -> bool {
    let fenced = fence is Some;
    &&& state.lane.acquire_fence == first.lane.acquire_fence
    &&& state.lane.acquire_pool == first.lane.acquire_pool
    &&& state.lane.acquire_command == first.lane.acquire_command
    &&& state.progress matches AcquireProgress::At(stage) ==> {
        &&& waited_for(stage) matches Some(wait) ==> (if fenced {
            wait is Some && wait == state.lane.imported_acquire && was_imported(
                perform,
                fence.unwrap(),
                wait.unwrap(),
            )
        } else {
            wait is None
        })
        &&& stage matches AcquireStage::CreateFenceSemaphore { source_fd } ==> fence == Some(
            source_fd,
        )
        &&& stage matches AcquireStage::DuplicateFence { source_fd, .. } ==> fence == Some(
            source_fd,
        )
        &&& stage matches AcquireStage::ImportFence { descriptor, .. } ==> fenced && call_ensures(
            perform,
            (SyncAction::DuplicateFence { source_fd: fence.unwrap() },),
            SyncAnswer::Duplicated(Ok(descriptor)),
        )
        &&& !fenced ==> !(stage is CreateFenceSemaphore || stage is DuplicateFence || stage
            is ImportFence)
        &&& stage is ResetPool || stage is ChooseTiming || stage is Record || stage is Submit
            || stage is Submitted ==> was_done(
            perform,
            SyncAction::ResetFence { fence: first.lane.acquire_fence },
        )
        &&& stage is ChooseTiming || stage is Record || stage is Submit || stage is Submitted
            ==> was_done(perform, SyncAction::ResetPool { pool: first.lane.acquire_pool })
        &&& stage is Submit || stage is Submitted ==> exists|recording: Recording| #[trigger]
            was_done(
                perform,
                SyncAction::Record { command: first.lane.acquire_command, recording },
            )
        &&& stage matches AcquireStage::Submitted { ready } ==> was_done(
            perform,
            SyncAction::Submit {
                command: first.lane.acquire_command,
                wait: if fenced {
                    state.lane.imported_acquire
                } else {
                    None
                },
                signal: Some(ready),
                fence: first.lane.acquire_fence,
            },
        ) && (fenced ==> state.lane.imported_acquire is Some && was_imported(
            perform,
            fence.unwrap(),
            state.lane.imported_acquire.unwrap(),
        ))
    }
}

proof fn lemma_acquire_has_done<F: Fn(SyncAction) -> SyncAnswer>(
    perform: F,
    family: u32,
    first: AcquireState,
    last: AcquireState,
    calls: nat,
    fence: Option<i32>,
)
    requires
        forall|action: SyncAction, answer: SyncAnswer| #[trigger]
            call_ensures(perform, (action,), answer) ==> action.takes(answer),
        has_done(perform, first, first, fence),
        acquire_reaches(perform, family, first, last, calls),
    ensures
        has_done(perform, first, last, fence),
    decreases calls,
{
    if calls > 0 {
        let before = choose|before: AcquireState|
            acquire_reaches(perform, family, first, before, (calls - 1) as nat)
                && #[trigger] acquire_moves(perform, family, before, last);
        lemma_acquire_has_done(perform, family, first, before, (calls - 1) as nat, fence);
        let stage = before.progress->At_0;
        let action = stage.action(before.lane, before.image, family).unwrap();
        let answer = choose|answer: SyncAnswer| #[trigger]
            call_ensures(perform, (action,), answer) && last == before.after(stage, answer);
        assert(action.takes(answer));
        if stage.after(before.lane, before.image, answer) is Ok {
            assert(succeeds(answer));
            assert(was_done(perform, action));
            if let SyncAction::Record { command, recording } = action {
                assert(was_done(
                    perform,
                    SyncAction::Record { command: first.lane.acquire_command, recording },
                ));
            }
            if stage is Submit || stage is Submitted {
                let recording = choose|recording: Recording| #[trigger]
                    was_done(
                        perform,
                        SyncAction::Record { command: first.lane.acquire_command, recording },
                    );
            }
        }
    }
}

/// An acquire that was submitted had its fence and its pool reset, a duplicate of the producer's
/// fence imported where there is one, and its commands recorded. Its submission waits for the semaphore with the producer's fence exactly where there is one, signals
/// the semaphore that the renderer is handed, and then the acquire fence.
pub proof fn submitted_acquires_waited_for_the_producer<F: Fn(SyncAction) -> SyncAnswer>(
    fence: Option<i32>,
    family: u32,
    perform: F,
    ready: RawHandle,
)
    requires
        forall|action: SyncAction, answer: SyncAnswer| #[trigger]
            call_ensures(perform, (action,), answer) ==> action.takes(answer),
    ensures
        forall|lane: &mut ImportedImageSync, image: &mut ImportedDmaBufImage| #[trigger]
            call_ensures(
                ImportedImageSync::submit_acquire::<F>,
                (lane, image, fence, family, perform),
                Ok(ready),
            ) ==> {
                &&& was_done(perform, SyncAction::ResetFence { fence: (*lane).acquire_fence })
                &&& was_done(perform, SyncAction::ResetPool { pool: (*lane).acquire_pool })
                &&& exists|recording: Recording| #[trigger]
                    was_done(
                        perform,
                        SyncAction::Record { command: (*lane).acquire_command, recording },
                    )
                &&& fence matches Some(fd) ==> (final(lane).imported_acquire matches Some(semaphore)
                    && was_imported(perform, fd, semaphore))
                &&& was_done(
                    perform,
                    SyncAction::Submit {
                        command: (*lane).acquire_command,
                        wait: if fence is Some {
                            final(lane).imported_acquire
                        } else {
                            None
                        },
                        signal: Some(ready),
                        fence: (*lane).acquire_fence,
                    },
                )
                &&& final(lane).ready_semaphore == Some(ready) && final(lane).acquire_submitted
                &&& final(lane).import_id == Some((*image).import_id)
            },
{
    assert forall|lane: &mut ImportedImageSync, image: &mut ImportedDmaBufImage| #[trigger]
        call_ensures(
            ImportedImageSync::submit_acquire::<F>,
            (lane, image, fence, family, perform),
            Ok(ready),
        ) implies {
        &&& was_done(perform, SyncAction::ResetFence { fence: (*lane).acquire_fence })
        &&& was_done(perform, SyncAction::ResetPool { pool: (*lane).acquire_pool })
        &&& exists|recording: Recording| #[trigger]
            was_done(
                perform,
                SyncAction::Record { command: (*lane).acquire_command, recording },
            )
        &&& fence matches Some(fd) ==> (final(lane).imported_acquire matches Some(semaphore)
            && was_imported(perform, fd, semaphore))
        &&& was_done(
            perform,
            SyncAction::Submit {
                command: (*lane).acquire_command,
                wait: if fence is Some {
                    final(lane).imported_acquire
                } else {
                    None
                },
                signal: Some(ready),
                fence: (*lane).acquire_fence,
            },
        )
        &&& final(lane).ready_semaphore == Some(ready) && final(lane).acquire_submitted
        &&& final(lane).import_id == Some((*image).import_id)
    } by {
        let stage = (*lane).acquire_start(fence)->Ok_0;
        let first = AcquireState {
            lane: *lane,
            image: *image,
            progress: AcquireProgress::At(stage),
        };
        let (last, calls) = choose|last: AcquireState, calls: nat|
            {
                &&& last.lane == *final(lane)
                &&& last.image == *final(image)
                &&& #[trigger] acquire_ends(
                    perform,
                    family,
                    first,
                    last,
                    calls,
                    Ok::<_, SyncFailure>(ready),
                )
            };
        lemma_acquire_has_done(perform, family, first, last, calls, fence);
    }
}

/// How far a release has come when it stands at a stage.
pub open spec fn has_released<F: Fn(SyncAction) -> SyncAnswer>(
    perform: F,
    lane: ImportedImageSync,
    image: ImportedDmaBufImage,
    family: u32,
    state: ReleaseState,
) -> bool {
    &&& state.lane == lane || state.progress == ReleaseProgress::At(ReleaseStage::Submitted)
    &&& state.progress matches ReleaseProgress::At(stage) ==> {
        &&& !(stage is ResetFence) ==> was_done(
            perform,
            SyncAction::ResetFence { fence: lane.release_fence },
        )
        &&& !(stage is ResetFence || stage is ResetPool) ==> was_done(
            perform,
            SyncAction::ResetPool { pool: lane.release_pool },
        )
        &&& stage is Submit || stage is Submitted ==> was_done(
            perform,
            SyncAction::Record {
                command: lane.release_command,
                recording: lane.release_commands(image, family),
            },
        )
        &&& stage is Submitted ==> was_done(
            perform,
            SyncAction::Submit {
                command: lane.release_command,
                wait: None,
                signal: None,
                fence: lane.release_fence,
            },
        )
    }
}

proof fn lemma_release_has_done<F: Fn(SyncAction) -> SyncAnswer>(
    perform: F,
    image: ImportedDmaBufImage,
    family: u32,
    first: ReleaseState,
    last: ReleaseState,
    calls: nat,
)
    requires
        forall|action: SyncAction, answer: SyncAnswer| #[trigger]
            call_ensures(perform, (action,), answer) ==> action.takes(answer),
        first.progress == ReleaseProgress::At(ReleaseStage::ResetFence),
        release_reaches(perform, image, family, first, last, calls),
    ensures
        has_released(perform, first.lane, image, family, last),
    decreases calls,
{
    if calls > 0 {
        let before = choose|before: ReleaseState|
            release_reaches(perform, image, family, first, before, (calls - 1) as nat)
                && #[trigger] release_moves(perform, image, family, before, last);
        lemma_release_has_done(perform, image, family, first, before, (calls - 1) as nat);
        let stage = before.progress->At_0;
        let action = stage.action(before.lane, image, family).unwrap();
        let answer = choose|answer: SyncAnswer| #[trigger]
            call_ensures(perform, (action,), answer) && last == before.after(stage, answer);
        assert(action.takes(answer));
        if stage.after(answer) is Ok {
            assert(succeeds(answer));
            assert(was_done(perform, action));
        }
    }
}

/// A release that was submitted had its fence and its pool reset and exactly the release of its
/// image recorded, and its submission signals the release fence.
pub proof fn submitted_releases_recorded_their_image<F: Fn(SyncAction) -> SyncAnswer>(
    image: ImportedDmaBufImage,
    family: u32,
    perform: F,
    recording: Recording,
    lane: ImportedImageSync,
)
    requires
        forall|action: SyncAction, answer: SyncAnswer| #[trigger]
            call_ensures(perform, (action,), answer) ==> action.takes(answer),
        call_ensures(ImportedImageSync::release_recording, (&lane, &image, family), recording),
    ensures
        forall|s: &mut ImportedImageSync| #[trigger]
            call_ensures(
                ImportedImageSync::submit_release::<F>,
                (s, &image, family, perform),
                Ok(()),
            ) && *s == lane ==> {
                &&& was_done(perform, SyncAction::ResetFence { fence: lane.release_fence })
                &&& was_done(perform, SyncAction::ResetPool { pool: lane.release_pool })
                &&& was_done(
                    perform,
                    SyncAction::Record { command: lane.release_command, recording },
                )
                &&& was_done(
                    perform,
                    SyncAction::Submit {
                        command: lane.release_command,
                        wait: None,
                        signal: None,
                        fence: lane.release_fence,
                    },
                )
                &&& final(s).release_submitted && final(s).import_id == lane.import_id
                &&& lane.import_id == Some(image.import_id) && !lane.release_submitted
            },
{
    assert forall|s: &mut ImportedImageSync| #[trigger]
        call_ensures(
            ImportedImageSync::submit_release::<F>,
            (s, &image, family, perform),
            Ok(()),
        ) && *s == lane implies {
        &&& was_done(perform, SyncAction::ResetFence { fence: lane.release_fence })
        &&& was_done(perform, SyncAction::ResetPool { pool: lane.release_pool })
        &&& was_done(perform, SyncAction::Record { command: lane.release_command, recording })
        &&& was_done(
            perform,
            SyncAction::Submit {
                command: lane.release_command,
                wait: None,
                signal: None,
                fence: lane.release_fence,
            },
        )
        &&& final(s).release_submitted && final(s).import_id == lane.import_id
        &&& lane.import_id == Some(image.import_id) && !lane.release_submitted
    } by {
        let first = ReleaseState {
            lane,
            progress: ReleaseProgress::At(ReleaseStage::ResetFence),
        };
        let (last, calls) = choose|last: ReleaseState, calls: nat|
            {
                &&& last.lane == *final(s)
                &&& #[trigger] release_ends(
                    perform,
                    image,
                    family,
                    first,
                    last,
                    calls,
                    Ok::<(), ImportedImageSyncError>(()),
                )
            };
        lemma_release_has_done(perform, image, family, first, last, calls);
    }
}

/// A lane that was made has the handles that it asked for, each for its own purpose, and the command
/// buffers from the pools of their half.
pub proof fn new_lanes_have_what_they_asked_for<
    F: Fn(LaneAction) -> Result<Option<RawHandle>, i32>,
    G: FnOnce() -> Result<Option<TimestampQuery>, ImportedImageSyncError>,
>(make: F, timestamps: G, lane: ImportedImageSync)
    requires
        call_ensures(ImportedImageSync::new::<F, G>, (make, timestamps), Ok(lane)),
    ensures
        call_ensures(make, (LaneAction::CreateAcquirePool,), Ok(Some(lane.acquire_pool))),
        call_ensures(make, (LaneAction::CreateReleasePool,), Ok(Some(lane.release_pool))),
        call_ensures(
            make,
            (LaneAction::AllocateAcquireCommand { pool: lane.acquire_pool },),
            Ok(Some(lane.acquire_command)),
        ),
        call_ensures(
            make,
            (LaneAction::AllocateReleaseCommand { pool: lane.release_pool },),
            Ok(Some(lane.release_command)),
        ),
        call_ensures(make, (LaneAction::CreateAcquireFence,), Ok(Some(lane.acquire_fence))),
        call_ensures(make, (LaneAction::CreateReleaseFence,), Ok(Some(lane.release_fence))),
        call_ensures(timestamps, (), Ok(lane.timestamp_query)),
        !lane.acquire_submitted && !lane.release_submitted && lane.import_id is None
            && lane.imported_acquire is None && lane.ready_semaphore is None,
{
    let handles = lane.handles();
    assert(handles[0] == lane.acquire_pool);
    assert(handles[1] == lane.release_pool);
    assert(handles[2] == lane.acquire_command);
    assert(handles[3] == lane.release_command);
    assert(handles[4] == lane.acquire_fence);
    assert(handles[5] == lane.release_fence);
}

/// What a lane records for an acquire is what the acquire of its image records, timed where the
/// import is timed.
pub proof fn lanes_record_the_acquire_of_their_image(
    lane: ImportedImageSync,
    image: ImportedDmaBufImage,
    family: u32,
    recording: Recording,
    steps: Result<Vec<CommandStep>, String>,
    result: Result<Vec<CommandStep>, String>,
)
    requires
        call_ensures(ImportedImageSync::acquire_recording, (&lane, &image, family), recording),
        call_ensures(Recording::steps, (recording,), steps),
        call_ensures(ImportedImageSync::record_acquire, (&lane, &image, family), result),
    ensures
        result is Ok <==> steps is Ok,
        result is Ok ==> result->Ok_0@ == steps->Ok_0@,
        result is Err ==> result->Err_0@ == steps->Err_0@,
{
}

/// Every call, on whatever it is made, is answered with success.
pub open spec fn always_succeeds<F: Fn(SyncAction) -> SyncAnswer>(perform: F) -> bool {
    forall|action: SyncAction, answer: SyncAnswer| #[trigger]
        call_ensures(perform, (action,), answer) ==> succeeds(answer)
}

/// An acquire is submitted wherever it can begin and no call fails, and the output of its image has
/// contents from then on. One that cannot begin fails at once with the reason, and one that fails
/// later leaves the image as it was.
pub proof fn acquires_are_submitted_where_nothing_fails<F: Fn(SyncAction) -> SyncAnswer>(
    lane: ImportedImageSync,
    fence: Option<i32>,
    family: u32,
    perform: F,
    begun: Result<AcquireStage, ImportedImageSyncError>,
    result: Result<RawHandle, SyncFailure>,
)
    requires
        call_ensures(ImportedImageSync::start_acquire, (&lane, fence), begun),
    ensures
        forall|
            s: &mut ImportedImageSync,
            image: &mut ImportedDmaBufImage,
            marked: &mut ImportedDmaBufImage,
        |
            #[trigger] call_ensures(
                ImportedImageSync::submit_acquire::<F>,
                (s, image, fence, family, perform),
                result,
            ) && #[trigger] call_ensures(
                ImportedDmaBufImage::mark_acquire_submitted,
                (marked,),
                (),
            ) && *s == lane && *marked == *image ==> {
                &&& begun is Ok && always_succeeds(perform) ==> result is Ok
                &&& result is Ok ==> begun is Ok && *final(image) == *final(marked)
                    && final(s).staged_import == (image.kind is StagedPacked || image.kind
                    is StagedNv12) && final(s).release_submitted == lane.release_submitted
                &&& result is Err ==> *final(image) == *image
                &&& begun is Err ==> (result matches Err(failure) && failure.error@
                    == begun->Err_0@ && failure.destroy@.len() == 0) && *final(s) == lane
            },
{
}

proof fn lemma_release_stop<F: Fn(SyncAction) -> SyncAnswer>(
    perform: F,
    image: ImportedDmaBufImage,
    family: u32,
    first: ReleaseState,
    last: ReleaseState,
    calls: nat,
)
    requires
        forall|action: SyncAction, answer: SyncAnswer| #[trigger]
            call_ensures(perform, (action,), answer) ==> action.takes(answer),
        first.progress is At,
        release_reaches(perform, image, family, first, last, calls),
    ensures
        last.progress matches ReleaseProgress::Stopped(fault) ==> fault.kind is ReleaseSubmit,
    decreases calls,
{
    if calls > 0 {
        let before = choose|before: ReleaseState|
            release_reaches(perform, image, family, first, before, (calls - 1) as nat)
                && #[trigger] release_moves(perform, image, family, before, last);
        let stage = before.progress->At_0;
        let action = stage.action(before.lane, image, family).unwrap();
        let answer = choose|answer: SyncAnswer| #[trigger]
            call_ensures(perform, (action,), answer) && last == before.after(stage, answer);
        assert(action.takes(answer));
    }
}

/// A release is submitted wherever it can begin and no call fails. One that cannot begin fails at
/// once with the reason, and one that fails leaves the lane as it was, with an error of the release.
pub proof fn releases_are_submitted_where_nothing_fails<F: Fn(SyncAction) -> SyncAnswer>(
    lane: ImportedImageSync,
    image: ImportedDmaBufImage,
    family: u32,
    perform: F,
    begun: Result<(), ImportedImageSyncError>,
    result: Result<(), ImportedImageSyncError>,
)
    requires
        forall|action: SyncAction, answer: SyncAnswer| #[trigger]
            call_ensures(perform, (action,), answer) ==> action.takes(answer),
        call_ensures(ImportedImageSync::begin_release, (&lane, &image), begun),
    ensures
        forall|s: &mut ImportedImageSync| #[trigger]
            call_ensures(
                ImportedImageSync::submit_release::<F>,
                (s, &image, family, perform),
                result,
            ) && *s == lane ==> {
                &&& begun is Ok && always_succeeds(perform) ==> result is Ok
                &&& result is Ok ==> begun is Ok && final(s).release_submitted
                &&& result matches Err(error) ==> *final(s) == lane && error.kind is ReleaseSubmit
                &&& begun is Err ==> (result matches Err(error) && error@ == begun->Err_0@)
            },
{
    assert forall|s: &mut ImportedImageSync| #[trigger]
        call_ensures(
            ImportedImageSync::submit_release::<F>,
            (s, &image, family, perform),
            result,
        ) && *s == lane implies {
        &&& begun is Ok && always_succeeds(perform) ==> result is Ok
        &&& result is Ok ==> begun is Ok && final(s).release_submitted
        &&& result matches Err(error) ==> *final(s) == lane && error.kind is ReleaseSubmit
        &&& begun is Err ==> (result matches Err(error) && error@ == begun->Err_0@)
    } by {
        let first = ReleaseState {
            lane,
            progress: ReleaseProgress::At(ReleaseStage::ResetFence),
        };
        if begun is Ok {
            let (last, calls) = choose|last: ReleaseState, calls: nat|
                {
                    &&& last.lane == *final(s)
                    &&& #[trigger] release_ends(perform, image, family, first, last, calls, result)
                };
            lemma_release_stop(perform, image, family, first, last, calls);
        }
    }
}

/// A lane that could not be made leaves every pool and fence that was made for it to destroy, the
/// last first, and each of them had been made for its own purpose.
pub proof fn lanes_that_fail_are_given_back<
    F: Fn(LaneAction) -> Result<Option<RawHandle>, i32>,
    G: FnOnce() -> Result<Option<TimestampQuery>, ImportedImageSyncError>,
>(make: F, timestamps: G, failure: SyncFailure)
    requires
        call_ensures(ImportedImageSync::new::<F, G>, (make, timestamps), Err(failure)),
    ensures
        exists|handles: Seq<RawHandle>| #[trigger]
            were_made(make, handles) && failure.destroy@ =~= left_of(handles),
        failure.error.device_lost ==> exists|error: ImportedImageSyncError| #[trigger]
            call_ensures(timestamps, (), Err(error)) && error.device_lost,
{
    let handles = choose|handles: Seq<RawHandle>| #[trigger]
        crate::vulkan::sync::lane_stops_at(make, timestamps, handles, failure);
    assert forall|step: int| 0 <= step < handles.len() implies call_ensures(
        make,
        (asked_for(handles, step),),
        Ok(Some(#[trigger] handles[step])),
    ) by {
        assert(asked_for(handles, step) == crate::vulkan::sync::lane_action(handles, step));
    }
    assert(were_made(make, handles));
}

/// What is asked for at a step of a lane.
pub open spec fn asked_for(handles: Seq<RawHandle>, step: int) -> LaneAction {
    if step == 0 {
        LaneAction::CreateAcquirePool
    } else if step == 1 {
        LaneAction::CreateReleasePool
    } else if step == 2 {
        LaneAction::AllocateAcquireCommand { pool: handles[0] }
    } else if step == 3 {
        LaneAction::AllocateReleaseCommand { pool: handles[1] }
    } else if step == 4 {
        LaneAction::CreateAcquireFence
    } else if step == 5 {
        LaneAction::CreateReleaseFence
    } else {
        LaneAction::CreateTimestamps
    }
}

/// The handles are what was made step by step.
pub open spec fn were_made<F: Fn(LaneAction) -> Result<Option<RawHandle>, i32>>(
    make: F,
    handles: Seq<RawHandle>,
) -> bool {
    &&& handles.len() <= 6
    &&& forall|step: int|
        0 <= step < handles.len() ==> call_ensures(
            make,
            (asked_for(handles, step),),
            Ok(Some(#[trigger] handles[step])),
        )
}

/// The fences and pools among the handles, the last first. Command buffers go with their pools.
pub open spec fn left_of(handles: Seq<RawHandle>) -> Seq<DeviceObject> {
    (if handles.len() > 5 {
        seq![DeviceObject::Fence(handles[5])]
    } else {
        seq![]
    }) + (if handles.len() > 4 {
        seq![DeviceObject::Fence(handles[4])]
    } else {
        seq![]
    }) + (if handles.len() > 1 {
        seq![DeviceObject::CommandPool(handles[1])]
    } else {
        seq![]
    }) + (if handles.len() > 0 {
        seq![DeviceObject::CommandPool(handles[0])]
    } else {
        seq![]
    })
}

} // verus!
