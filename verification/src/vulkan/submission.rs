//! The order of an acquire and of a release: which call is made next, and what follows its answer.

use vstd::prelude::*;

use crate::vulkan::flags::RawHandle;
use crate::vulkan::image::{AcquirePlan, ImportedDmaBufImage};
use crate::vulkan::record::{
    acquire_verdict, direct_release_steps, later_timestamp, record_acquire, record_direct_release,
    record_staged_release, CommandStep,
};
use crate::vulkan::resources::DeviceObject;
use crate::vulkan::result::{failure_text, ERROR_DEVICE_LOST};
use crate::vulkan::sync::{
    acquire_fence_reset, acquire_pool_reset, acquire_recorded, loss_fault,
    ready_semaphore_created, release_fence_reset, release_pool_reset, release_recorded,
    sync_fails, sync_fault, sync_fd_duplicated, sync_semaphore_created, syncs, ImportedImageSync,
    ImportedImageSyncError, ImportedImageSyncErrorKind, SyncFailure, SyncFault, SyncFdPlan,
    SyncFdStep,
};

verus! {

/// What is recorded into a command buffer.
#[derive(Clone, Copy, Debug, PartialEq, Eq)]
pub enum Recording {
    Acquire { plan: AcquirePlan, family: u32, timestamps: Option<RawHandle> },
    DirectRelease { image: RawHandle, family: u32 },
    StagedRelease { timestamps: Option<RawHandle> },
}

impl Recording {
    /// What `steps` returns.
    pub open spec fn verdict(self) -> Result<Seq<CommandStep>, Seq<char>> {
        match self {
            Recording::Acquire { plan, family, timestamps } => acquire_verdict(
                plan,
                family,
                timestamps,
            ),
            Recording::DirectRelease { image, family } => Ok(direct_release_steps(image, family)),
            Recording::StagedRelease { timestamps } => Ok(later_timestamp(timestamps, 2)),
        }
    }

    /// The commands, in order.
    pub fn steps(self) -> (result: Result<Vec<CommandStep>, String>)
        ensures
            match (result, self.verdict()) {
                (Ok(steps), Ok(expected)) => steps@ == expected,
                (Err(message), Err(text)) => message@ == text,
                _ => false,
            },
    {
        match self {
            Recording::Acquire { plan, family, timestamps } => record_acquire(
                plan,
                family,
                timestamps,
            ),
            Recording::DirectRelease { image, family } => Ok(record_direct_release(image, family)),
            Recording::StagedRelease { timestamps } => Ok(record_staged_release(timestamps)),
        }
    }
}

/// A call that an acquire or a release needs.
#[derive(Clone, Copy, Debug, PartialEq, Eq)]
pub enum SyncAction {
    CreateSemaphore,
    /// Duplicate the producer's acquire fence.
    DuplicateFence { source_fd: i32 },
    /// Import the duplicate into the semaphore, for one wait.
    ImportFence { semaphore: RawHandle, descriptor: i32 },
    ResetFence { fence: RawHandle },
    ResetPool { pool: RawHandle },
    /// Ask the context whether this import is timed.
    ChooseTiming,
    Record { command: RawHandle, recording: Recording },
    /// Submit the commands. They wait for one semaphore and signal another, where these are given,
    /// and signal the fence when they are over.
    Submit {
        command: RawHandle,
        wait: Option<RawHandle>,
        signal: Option<RawHandle>,
        fence: RawHandle,
    },
}

/// What a call returned.
#[derive(Debug)]
pub enum SyncAnswer {
    Created(Result<RawHandle, i32>),
    Duplicated(Result<i32, String>),
    Finished(Result<(), i32>),
    Sampled(bool),
    Recorded(Result<(), String>),
}

impl SyncAnswer {
    /// The call did what it was asked for.
    pub open spec fn is_success(self) -> bool {
        match self {
            SyncAnswer::Created(created) => created is Ok,
            SyncAnswer::Duplicated(duplicated) => duplicated is Ok,
            SyncAnswer::Finished(finished) => finished is Ok,
            SyncAnswer::Sampled(_) => true,
            SyncAnswer::Recorded(recorded) => recorded is Ok,
        }
    }
}

impl SyncAction {
    /// The answer is one to this action.
    pub open spec fn takes(self, answer: SyncAnswer) -> bool {
        match self {
            SyncAction::CreateSemaphore => answer is Created,
            SyncAction::DuplicateFence { .. } => answer is Duplicated,
            SyncAction::ChooseTiming => answer is Sampled,
            SyncAction::Record { .. } => answer is Recorded,
            _ => answer is Finished,
        }
    }
}

/// Where an acquire stands: the call that is due, and what is known for it. `wait` is the semaphore
/// with the acquire fence, where there is a fence; `ready` is the one that the renderer waits for.
#[derive(Clone, Copy, Debug, PartialEq, Eq)]
pub enum AcquireStage {
    CreateFenceSemaphore { source_fd: i32 },
    DuplicateFence { source_fd: i32, step: SyncFdStep },
    ImportFence { step: SyncFdStep, descriptor: i32 },
    CreateReadySemaphore { wait: Option<RawHandle> },
    ResetFence { wait: Option<RawHandle>, ready: RawHandle },
    ResetPool { wait: Option<RawHandle>, ready: RawHandle },
    ChooseTiming { wait: Option<RawHandle>, ready: RawHandle },
    Record { wait: Option<RawHandle>, ready: RawHandle },
    Submit { wait: Option<RawHandle>, ready: RawHandle },
    Submitted { ready: RawHandle },
}

/// Why an acquire ends early, and what it leaves to destroy.
pub ghost struct AcquireStop {
    pub fault: SyncFault,
    pub objects: Seq<DeviceObject>,
}

/// The stop for a failed call that Vulkan gave this code.
pub open spec fn stop_with(
    kind: ImportedImageSyncErrorKind,
    text: Seq<char>,
    code: i32,
    objects: Seq<DeviceObject>,
) -> AcquireStop {
    AcquireStop { fault: sync_fault(kind, failure_text(text, code)), objects }
}

impl AcquireStage {
    /// How far the acquire has come.
    pub open spec fn rank(self) -> int {
        match self {
            AcquireStage::CreateFenceSemaphore { .. } => 0,
            AcquireStage::DuplicateFence { .. } => 1,
            AcquireStage::ImportFence { .. } => 2,
            AcquireStage::CreateReadySemaphore { .. } => 3,
            AcquireStage::ResetFence { .. } => 4,
            AcquireStage::ResetPool { .. } => 5,
            AcquireStage::ChooseTiming { .. } => 6,
            AcquireStage::Record { .. } => 7,
            AcquireStage::Submit { .. } => 8,
            AcquireStage::Submitted { .. } => 9,
        }
    }

    /// The semaphore for the renderer, while the acquire owns it.
    pub open spec fn ready_semaphore(self) -> Option<RawHandle> {
        match self {
            AcquireStage::ResetFence { ready, .. } => Some(ready),
            AcquireStage::ResetPool { ready, .. } => Some(ready),
            AcquireStage::ChooseTiming { ready, .. } => Some(ready),
            AcquireStage::Record { ready, .. } => Some(ready),
            AcquireStage::Submit { ready, .. } => Some(ready),
            _ => None,
        }
    }

    /// What `next` returns.
    pub open spec fn action(
        self,
        lane: ImportedImageSync,
        image: ImportedDmaBufImage,
        family: u32,
    ) -> Option<SyncAction> {
        match self {
            AcquireStage::CreateFenceSemaphore { .. } => Some(SyncAction::CreateSemaphore),
            AcquireStage::DuplicateFence { source_fd, .. } => Some(
                SyncAction::DuplicateFence { source_fd },
            ),
            AcquireStage::ImportFence { step, descriptor } => Some(
                SyncAction::ImportFence { semaphore: step.semaphore, descriptor },
            ),
            AcquireStage::CreateReadySemaphore { .. } => Some(SyncAction::CreateSemaphore),
            AcquireStage::ResetFence { .. } => Some(
                SyncAction::ResetFence { fence: lane.acquire_fence },
            ),
            AcquireStage::ResetPool { .. } => Some(
                SyncAction::ResetPool { pool: lane.acquire_pool },
            ),
            AcquireStage::ChooseTiming { .. } => Some(SyncAction::ChooseTiming),
            AcquireStage::Record { .. } => Some(
                SyncAction::Record {
                    command: lane.acquire_command,
                    recording: Recording::Acquire {
                        plan: image.acquisition(),
                        family,
                        timestamps: lane.active_pool(),
                    },
                },
            ),
            AcquireStage::Submit { wait, ready } => Some(
                SyncAction::Submit {
                    command: lane.acquire_command,
                    wait,
                    signal: Some(ready),
                    fence: lane.acquire_fence,
                },
            ),
            AcquireStage::Submitted { .. } => None,
        }
    }

    /// The answer is one to the call that is due.
    pub open spec fn takes(self, answer: SyncAnswer) -> bool {
        match self {
            AcquireStage::CreateFenceSemaphore { .. } => answer is Created,
            AcquireStage::DuplicateFence { .. } => answer is Duplicated,
            AcquireStage::CreateReadySemaphore { .. } => answer is Created,
            AcquireStage::ChooseTiming { .. } => answer is Sampled,
            AcquireStage::Record { .. } => answer is Recorded,
            AcquireStage::Submitted { .. } => false,
            _ => answer is Finished,
        }
    }

    /// What follows the answer: the next stage, or the end.
    pub open spec fn after(
        self,
        lane: ImportedImageSync,
        image: ImportedDmaBufImage,
        answer: SyncAnswer,
    ) -> Result<AcquireStage, AcquireStop> {
        match (self, answer) {
            (
                AcquireStage::CreateFenceSemaphore { source_fd },
                SyncAnswer::Created(created),
            ) => match created {
                Ok(semaphore) => Ok(
                    AcquireStage::DuplicateFence {
                        source_fd,
                        step: SyncFdStep { semaphore, created: true },
                    },
                ),
                Err(code) => Err(
                    stop_with(
                        ImportedImageSyncErrorKind::TemporarySemaphoreImport,
                        "failed to create sync-fd import semaphore: "@,
                        code,
                        Seq::empty(),
                    ),
                ),
            },
            (AcquireStage::DuplicateFence { step, .. }, SyncAnswer::Duplicated(duplicated)) =>
                match duplicated {
                Ok(descriptor) => Ok(AcquireStage::ImportFence { step, descriptor }),
                Err(cause) => Err(
                    AcquireStop {
                        fault: sync_fault(
                            ImportedImageSyncErrorKind::TemporarySemaphoreImport,
                            "failed to duplicate Vulkan acquire sync fd: failed to duplicate Vulkan DMA-BUF import fd: "@
                                + cause@,
                        ),
                        objects: step.objects(),
                    },
                ),
            },
            (AcquireStage::ImportFence { step, descriptor }, SyncAnswer::Finished(imported)) =>
                match imported {
                Ok(()) => Ok(AcquireStage::CreateReadySemaphore { wait: Some(step.semaphore) }),
                Err(code) => Err(
                    stop_with(
                        ImportedImageSyncErrorKind::TemporarySemaphoreImport,
                        "failed to import Vulkan acquire sync fd: "@,
                        code,
                        seq![DeviceObject::Descriptor(descriptor)] + step.objects(),
                    ),
                ),
            },
            (AcquireStage::CreateReadySemaphore { wait }, SyncAnswer::Created(created)) =>
                match created {
                Ok(ready) => Ok(AcquireStage::ResetFence { wait, ready }),
                Err(code) => Err(
                    stop_with(
                        ImportedImageSyncErrorKind::Other,
                        "failed to create imported-image ready semaphore: "@,
                        code,
                        Seq::empty(),
                    ),
                ),
            },
            (AcquireStage::ResetFence { wait, ready }, SyncAnswer::Finished(reset)) => match reset {
                Ok(()) => Ok(AcquireStage::ResetPool { wait, ready }),
                Err(code) => Err(
                    stop_with(
                        ImportedImageSyncErrorKind::AcquireSubmit,
                        "failed to reset staged source fence: "@,
                        code,
                        seq![DeviceObject::Semaphore(ready)],
                    ),
                ),
            },
            (AcquireStage::ResetPool { wait, ready }, SyncAnswer::Finished(reset)) => match reset {
                Ok(()) => if image.staged() && lane.timestamp_query is Some && lane.timing_choice
                    is None {
                    Ok(AcquireStage::ChooseTiming { wait, ready })
                } else {
                    Ok(AcquireStage::Record { wait, ready })
                },
                Err(code) => Err(
                    stop_with(
                        ImportedImageSyncErrorKind::Other,
                        "failed to reset Vulkan acquire command pool: "@,
                        code,
                        seq![DeviceObject::Semaphore(ready)],
                    ),
                ),
            },
            (AcquireStage::ChooseTiming { wait, ready }, _) => Ok(
                AcquireStage::Record { wait, ready },
            ),
            (AcquireStage::Record { wait, ready }, SyncAnswer::Recorded(recorded)) =>
                match recorded {
                Ok(()) => Ok(AcquireStage::Submit { wait, ready }),
                Err(message) => Err(
                    AcquireStop {
                        fault: sync_fault(ImportedImageSyncErrorKind::Other, message@),
                        objects: seq![DeviceObject::Semaphore(ready)],
                    },
                ),
            },
            (AcquireStage::Submit { ready, .. }, SyncAnswer::Finished(submitted)) =>
                match submitted {
                Ok(()) => Ok(AcquireStage::Submitted { ready }),
                Err(code) => if code == ERROR_DEVICE_LOST {
                    Err(
                        AcquireStop {
                            fault: loss_fault(
                                ImportedImageSyncErrorKind::AcquireSubmit,
                                "Vulkan device lost while acquiring imported image"@,
                            ),
                            objects: Seq::empty(),
                        },
                    )
                } else {
                    Err(
                        stop_with(
                            ImportedImageSyncErrorKind::AcquireSubmit,
                            "failed to submit imported Vulkan image acquire: "@,
                            code,
                            seq![DeviceObject::Semaphore(ready)],
                        ),
                    )
                },
            },
            _ => Ok(self),
        }
    }

    /// The lane after the answer. It keeps the semaphore with the acquire fence and the choice of
    /// timing; it is in use once the submission may have been taken.
    pub open spec fn lane_after(
        self,
        lane: ImportedImageSync,
        image: ImportedDmaBufImage,
        answer: SyncAnswer,
    ) -> ImportedImageSync {
        match (self, answer) {
            (AcquireStage::ImportFence { step, .. }, SyncAnswer::Finished(Ok(()))) =>
                ImportedImageSync { imported_acquire: Some(step.semaphore), ..lane },
            (AcquireStage::ChooseTiming { .. }, SyncAnswer::Sampled(sampled)) =>
                if lane.timing_choice is None {
                ImportedImageSync { timing_choice: Some(sampled), ..lane }
            } else {
                lane
            },
            (AcquireStage::Submit { ready, .. }, SyncAnswer::Finished(submitted)) =>
                match submitted {
                Ok(()) => lane.acquired(image.import_id, image.staged(), ready),
                Err(code) => if code == ERROR_DEVICE_LOST {
                    lane.acquired(image.import_id, image.staged(), ready)
                } else {
                    lane
                },
            },
            _ => lane,
        }
    }

    /// The image after the answer: its output has contents once the submission was taken.
    pub open spec fn image_after(self, image: ImportedDmaBufImage, answer: SyncAnswer) ->
        ImportedDmaBufImage {
        match (self, answer) {
            (AcquireStage::Submit { .. }, SyncAnswer::Finished(Ok(()))) => image.with_contents(),
            _ => image,
        }
    }

    /// The call that is due, until the acquire has been submitted.
    pub fn next(self, lane: &ImportedImageSync, image: &ImportedDmaBufImage, family: u32) -> (action:
        Option<SyncAction>)
        requires
            image.well_formed(),
        ensures
            action == self.action(*lane, *image, family),
            action matches Some(due) ==> forall|answer: SyncAnswer| #[trigger]
                due.takes(answer) == self.takes(answer),
    {
        match self {
            AcquireStage::CreateFenceSemaphore { .. } => Some(SyncAction::CreateSemaphore),
            AcquireStage::DuplicateFence { source_fd, .. } => Some(
                SyncAction::DuplicateFence { source_fd },
            ),
            AcquireStage::ImportFence { step, descriptor } => Some(
                SyncAction::ImportFence { semaphore: step.semaphore, descriptor },
            ),
            AcquireStage::CreateReadySemaphore { .. } => Some(SyncAction::CreateSemaphore),
            AcquireStage::ResetFence { .. } => Some(
                SyncAction::ResetFence { fence: lane.acquire_fence },
            ),
            AcquireStage::ResetPool { .. } => Some(
                SyncAction::ResetPool { pool: lane.acquire_pool },
            ),
            AcquireStage::ChooseTiming { .. } => Some(SyncAction::ChooseTiming),
            AcquireStage::Record { .. } => Some(
                SyncAction::Record {
                    command: lane.acquire_command,
                    recording: lane.acquire_recording(image, family),
                },
            ),
            AcquireStage::Submit { wait, ready } => Some(
                SyncAction::Submit {
                    command: lane.acquire_command,
                    wait,
                    signal: Some(ready),
                    fence: lane.acquire_fence,
                },
            ),
            AcquireStage::Submitted { .. } => None,
        }
    }

    /// The call that was due returned an answer.
    pub fn answered(
        self,
        lane: &mut ImportedImageSync,
        image: &mut ImportedDmaBufImage,
        answer: SyncAnswer,
    ) -> (result: Result<AcquireStage, SyncFailure>)
        requires
            old(lane).well_formed(),
            old(lane).acquire_check() is Ok,
            self.takes(answer),
        ensures
            final(lane).well_formed(),
            *final(lane) == self.lane_after(*old(lane), *old(image), answer),
            *final(image) == self.image_after(*old(image), answer),
            old(image).well_formed() ==> final(image).well_formed(),
            match self.after(*old(lane), *old(image), answer) {
                Ok(stage) => {
                    &&& result == Ok::<_, SyncFailure>(stage)
                    &&& stage.rank() > self.rank()
                    &&& !(stage is Submitted) ==> final(lane).acquire_check() is Ok
                },
                Err(stop) => sync_fails(result, stop.fault, stop.objects),
            },
    {
        match (self, answer) {
            (AcquireStage::CreateFenceSemaphore { source_fd }, SyncAnswer::Created(created)) => {
                match sync_semaphore_created(created) {
                    Ok(step) => Ok(AcquireStage::DuplicateFence { source_fd, step }),
                    Err(error) => Err(nothing_left(error)),
                }
            },
            (
                AcquireStage::DuplicateFence { source_fd: _, step },
                SyncAnswer::Duplicated(duplicated),
            ) => match sync_fd_duplicated(step, duplicated) {
                Ok((step, descriptor)) => Ok(AcquireStage::ImportFence { step, descriptor }),
                Err(failure) => Err(failure),
            },
            (AcquireStage::ImportFence { step, descriptor }, SyncAnswer::Finished(imported)) => {
                match lane.sync_fd_imported(step, descriptor, imported) {
                    Ok(()) => Ok(AcquireStage::CreateReadySemaphore { wait: Some(step.semaphore) }),
                    Err(failure) => Err(failure),
                }
            },
            (AcquireStage::CreateReadySemaphore { wait }, SyncAnswer::Created(created)) => {
                match ready_semaphore_created(created) {
                    Ok(ready) => Ok(AcquireStage::ResetFence { wait, ready }),
                    Err(error) => Err(nothing_left(error)),
                }
            },
            (AcquireStage::ResetFence { wait, ready }, SyncAnswer::Finished(reset)) => {
                match acquire_fence_reset(ready, reset) {
                    Ok(()) => Ok(AcquireStage::ResetPool { wait, ready }),
                    Err(failure) => Err(failure),
                }
            },
            (AcquireStage::ResetPool { wait, ready }, SyncAnswer::Finished(reset)) => {
                match acquire_pool_reset(reset) {
                    Ok(()) => {
                        if lane.timing_choice_due(image.is_staged()) {
                            Ok(AcquireStage::ChooseTiming { wait, ready })
                        } else {
                            Ok(AcquireStage::Record { wait, ready })
                        }
                    },
                    Err(message) => match acquire_recorded(ready, Err(message)) {
                        Ok(()) => Ok(AcquireStage::Record { wait, ready }),
                        Err(failure) => Err(failure),
                    },
                }
            },
            (AcquireStage::ChooseTiming { wait, ready }, SyncAnswer::Sampled(sampled)) => {
                lane.choose_timing(sampled);
                Ok(AcquireStage::Record { wait, ready })
            },
            (AcquireStage::Record { wait, ready }, SyncAnswer::Recorded(recorded)) => {
                match acquire_recorded(ready, recorded) {
                    Ok(()) => Ok(AcquireStage::Submit { wait, ready }),
                    Err(failure) => Err(failure),
                }
            },
            (AcquireStage::Submit { wait: _, ready }, SyncAnswer::Finished(submitted)) => {
                match lane.conclude_acquire(image, ready, submitted) {
                    Ok(ready) => Ok(AcquireStage::Submitted { ready }),
                    Err(failure) => Err(failure),
                }
            },
            (stage, _) => Ok(stage),
        }
    }
}

fn nothing_left(error: ImportedImageSyncError) -> (failure: SyncFailure)
    ensures
        failure.error == error,
        failure.destroy@ == Seq::<DeviceObject>::empty(),
{
    SyncFailure { error, destroy: Vec::new() }
}

/// Some call of `perform` may fail.
pub open spec fn some_call_fails<F: Fn(SyncAction) -> SyncAnswer>(perform: F) -> bool {
    exists|action: SyncAction, answer: SyncAnswer| #[trigger]
        call_ensures(perform, (action,), answer) && !answer.is_success()
}

/// An acquire on its way, or the end of it.
pub ghost enum AcquireProgress {
    At(AcquireStage),
    Stopped(AcquireStop),
}

/// The lane and the image between two calls of an acquire.
pub ghost struct AcquireState {
    pub lane: ImportedImageSync,
    pub image: ImportedDmaBufImage,
    pub progress: AcquireProgress,
}

impl AcquireState {
    /// `perform` may make the call that is due, where one is.
    pub open spec fn admits<F: Fn(SyncAction) -> SyncAnswer>(self, perform: F, family: u32) -> bool {
        self.progress matches AcquireProgress::At(stage) ==> (stage.action(
            self.lane,
            self.image,
            family,
        ) matches Some(action) ==> call_requires(perform, (action,)))
    }

    /// The state after an answer at `stage`.
    pub open spec fn after(self, stage: AcquireStage, answer: SyncAnswer) -> AcquireState {
        AcquireState {
            lane: stage.lane_after(self.lane, self.image, answer),
            image: stage.image_after(self.image, answer),
            progress: match stage.after(self.lane, self.image, answer) {
                Ok(next) => AcquireProgress::At(next),
                Err(stop) => AcquireProgress::Stopped(stop),
            },
        }
    }
}

/// `perform` makes the call that is due, and its answer leads from one state to the other.
pub open spec fn acquire_moves<F: Fn(SyncAction) -> SyncAnswer>(
    perform: F,
    family: u32,
    before: AcquireState,
    after: AcquireState,
) -> bool {
    match before.progress {
        AcquireProgress::At(stage) => match stage.action(before.lane, before.image, family) {
            Some(action) => exists|answer: SyncAnswer| #[trigger]
                call_ensures(perform, (action,), answer) && after == before.after(stage, answer),
            None => false,
        },
        AcquireProgress::Stopped(_) => false,
    }
}

/// So many calls of `perform`, each of them the one that is due, lead from one state to the other.
pub open spec fn acquire_reaches<F: Fn(SyncAction) -> SyncAnswer>(
    perform: F,
    family: u32,
    first: AcquireState,
    last: AcquireState,
    calls: nat,
) -> bool
    decreases calls,
{
    if calls == 0 {
        first == last
    } else {
        exists|before: AcquireState|
            acquire_reaches(perform, family, first, before, (calls - 1) as nat)
                && #[trigger] acquire_moves(perform, family, before, last)
    }
}

/// What an acquire came to: the calls that were due led to `last`, which is its end.
pub open spec fn acquire_ends<F: Fn(SyncAction) -> SyncAnswer>(
    perform: F,
    family: u32,
    first: AcquireState,
    last: AcquireState,
    calls: nat,
    result: Result<RawHandle, SyncFailure>,
) -> bool {
    &&& acquire_reaches(perform, family, first, last, calls)
    &&& match last.progress {
        AcquireProgress::At(stage) => stage matches AcquireStage::Submitted { ready } && result
            == Ok::<_, SyncFailure>(ready),
        AcquireProgress::Stopped(stop) => sync_fails(result, stop.fault, stop.objects),
    }
}

/// The calls of an acquire come in one order: the fence of the producer is imported before the
/// semaphore for the renderer is made, and nothing is submitted that was not recorded after the
/// fence and the pool of the lane were reset.
pub proof fn acquires_keep_their_order(
    stage: AcquireStage,
    lane: ImportedImageSync,
    image: ImportedDmaBufImage,
    answer: SyncAnswer,
)
    requires
        stage.takes(answer),
    ensures
        stage.after(lane, image, answer) matches Ok(next) ==> {
            &&& next.rank() > stage.rank()
            &&& answer.is_success()
            &&& next is Submitted ==> stage is Submit
            &&& next is Submit ==> stage is Record
            &&& next is Record ==> stage is ResetPool || stage is ChooseTiming
            &&& next is ChooseTiming ==> stage is ResetPool
            &&& next is ResetPool ==> stage is ResetFence
            &&& next is ResetFence ==> stage is CreateReadySemaphore
            &&& next is CreateReadySemaphore ==> stage is ImportFence
            &&& next is ImportFence ==> stage is DuplicateFence
            &&& next is DuplicateFence ==> stage is CreateFenceSemaphore
        },
{
}

/// An acquire that fails leaves the lane free for another and the semaphore for the renderer to
/// destroy; only where the device was lost is everything kept.
pub proof fn a_failed_acquire_leaves_the_lane_free(
    stage: AcquireStage,
    lane: ImportedImageSync,
    image: ImportedDmaBufImage,
    answer: SyncAnswer,
)
    requires
        lane.acquire_check() is Ok,
        stage.takes(answer),
    ensures
        stage.after(lane, image, answer) matches Err(stop) ==> {
            &&& stage.image_after(image, answer) == image
            &&& !stop.fault.device_lost ==> stage.lane_after(lane, image, answer) == lane
            &&& stop.fault.device_lost ==> stage is Submit && stop.objects.len() == 0
                && stage.lane_after(lane, image, answer).acquire_check() is Err
        },
        stage.ready_semaphore() matches Some(ready) ==> (stage.after(lane, image, answer) matches Err(
            stop,
        ) ==> !stop.fault.device_lost ==> stop.objects == seq![DeviceObject::Semaphore(ready)]),
{
}

/// Where a release stands: the call that is due.
#[derive(Clone, Copy, Debug, PartialEq, Eq)]
pub enum ReleaseStage {
    ResetFence,
    ResetPool,
    Record,
    Submit,
    Submitted,
}

impl ReleaseStage {
    /// How far the release has come.
    pub open spec fn rank(self) -> int {
        match self {
            ReleaseStage::ResetFence => 0,
            ReleaseStage::ResetPool => 1,
            ReleaseStage::Record => 2,
            ReleaseStage::Submit => 3,
            ReleaseStage::Submitted => 4,
        }
    }

    /// What `next` returns.
    pub open spec fn action(
        self,
        lane: ImportedImageSync,
        image: ImportedDmaBufImage,
        family: u32,
    ) -> Option<SyncAction> {
        match self {
            ReleaseStage::ResetFence => Some(SyncAction::ResetFence { fence: lane.release_fence }),
            ReleaseStage::ResetPool => Some(SyncAction::ResetPool { pool: lane.release_pool }),
            ReleaseStage::Record => Some(
                SyncAction::Record {
                    command: lane.release_command,
                    recording: lane.release_commands(image, family),
                },
            ),
            ReleaseStage::Submit => Some(
                SyncAction::Submit {
                    command: lane.release_command,
                    wait: None,
                    signal: None,
                    fence: lane.release_fence,
                },
            ),
            ReleaseStage::Submitted => None,
        }
    }

    /// The answer is one to the call that is due.
    pub open spec fn takes(self, answer: SyncAnswer) -> bool {
        match self {
            ReleaseStage::Record => answer is Recorded,
            ReleaseStage::Submitted => false,
            _ => answer is Finished,
        }
    }

    /// What follows the answer: the next stage, or the end.
    pub open spec fn after(self, answer: SyncAnswer) -> Result<ReleaseStage, SyncFault> {
        let kind = ImportedImageSyncErrorKind::ReleaseSubmit;
        match (self, answer) {
            (ReleaseStage::ResetFence, SyncAnswer::Finished(reset)) => match reset {
                Ok(()) => Ok(ReleaseStage::ResetPool),
                Err(code) => Err(
                    sync_fault(
                        kind,
                        failure_text("failed to reset imported-image release fence: "@, code),
                    ),
                ),
            },
            (ReleaseStage::ResetPool, SyncAnswer::Finished(reset)) => match reset {
                Ok(()) => Ok(ReleaseStage::Record),
                Err(code) => Err(
                    sync_fault(
                        kind,
                        failure_text("failed to reset imported-image release pool: "@, code),
                    ),
                ),
            },
            (ReleaseStage::Record, SyncAnswer::Recorded(recorded)) => match recorded {
                Ok(()) => Ok(ReleaseStage::Submit),
                Err(message) => Err(sync_fault(kind, message@)),
            },
            (ReleaseStage::Submit, SyncAnswer::Finished(submitted)) => match submitted {
                Ok(()) => Ok(ReleaseStage::Submitted),
                Err(code) => if code == ERROR_DEVICE_LOST {
                    Err(loss_fault(kind, "Vulkan device lost while releasing imported image"@))
                } else {
                    Err(
                        sync_fault(
                            kind,
                            failure_text("failed to submit imported Vulkan image release: "@, code),
                        ),
                    )
                },
            },
            _ => Ok(self),
        }
    }

    /// The lane after the answer.
    pub open spec fn lane_after(self, lane: ImportedImageSync, answer: SyncAnswer) ->
        ImportedImageSync {
        match (self, answer) {
            (ReleaseStage::Submit, SyncAnswer::Finished(Ok(()))) => ImportedImageSync {
                release_submitted: true,
                ..lane
            },
            _ => lane,
        }
    }

    /// The call that is due, until the release has been submitted.
    pub fn next(self, lane: &ImportedImageSync, image: &ImportedDmaBufImage, family: u32) -> (action:
        Option<SyncAction>)
        ensures
            action == self.action(*lane, *image, family),
            action matches Some(due) ==> forall|answer: SyncAnswer| #[trigger]
                due.takes(answer) == self.takes(answer),
    {
        match self {
            ReleaseStage::ResetFence => Some(SyncAction::ResetFence { fence: lane.release_fence }),
            ReleaseStage::ResetPool => Some(SyncAction::ResetPool { pool: lane.release_pool }),
            ReleaseStage::Record => Some(
                SyncAction::Record {
                    command: lane.release_command,
                    recording: lane.release_recording(image, family),
                },
            ),
            ReleaseStage::Submit => Some(
                SyncAction::Submit {
                    command: lane.release_command,
                    wait: None,
                    signal: None,
                    fence: lane.release_fence,
                },
            ),
            ReleaseStage::Submitted => None,
        }
    }

    /// The call that was due returned an answer.
    pub fn answered(
        self,
        lane: &mut ImportedImageSync,
        image: &ImportedDmaBufImage,
        answer: SyncAnswer,
    ) -> (result: Result<ReleaseStage, ImportedImageSyncError>)
        requires
            old(lane).well_formed(),
            old(lane).release_check(image.import_id) is Ok,
            self.takes(answer),
        ensures
            final(lane).well_formed(),
            *final(lane) == self.lane_after(*old(lane), answer),
            syncs(result, self.after(answer)),
            self.after(answer) matches Ok(next) ==> next.rank() > self.rank() && (!(
            next is Submitted) ==> final(lane).release_check(image.import_id) is Ok),
    {
        match (self, answer) {
            (ReleaseStage::ResetFence, SyncAnswer::Finished(reset)) => {
                match release_fence_reset(reset) {
                    Ok(()) => Ok(ReleaseStage::ResetPool),
                    Err(error) => Err(error),
                }
            },
            (ReleaseStage::ResetPool, SyncAnswer::Finished(reset)) => {
                match release_pool_reset(reset) {
                    Ok(()) => Ok(ReleaseStage::Record),
                    Err(error) => Err(error),
                }
            },
            (ReleaseStage::Record, SyncAnswer::Recorded(recorded)) => {
                match release_recorded(recorded) {
                    Ok(()) => Ok(ReleaseStage::Submit),
                    Err(error) => Err(error),
                }
            },
            (ReleaseStage::Submit, SyncAnswer::Finished(submitted)) => {
                match lane.conclude_release(image, submitted) {
                    Ok(()) => Ok(ReleaseStage::Submitted),
                    Err(error) => Err(error),
                }
            },
            (stage, _) => Ok(stage),
        }
    }
}

/// A release on its way, or the end of it.
pub ghost enum ReleaseProgress {
    At(ReleaseStage),
    Stopped(SyncFault),
}

/// The lane between two calls of a release.
pub ghost struct ReleaseState {
    pub lane: ImportedImageSync,
    pub progress: ReleaseProgress,
}

impl ReleaseState {
    /// `perform` may make the call that is due, where one is.
    pub open spec fn admits<F: Fn(SyncAction) -> SyncAnswer>(
        self,
        perform: F,
        image: ImportedDmaBufImage,
        family: u32,
    ) -> bool {
        self.progress matches ReleaseProgress::At(stage) ==> (stage.action(
            self.lane,
            image,
            family,
        ) matches Some(action) ==> call_requires(perform, (action,)))
    }

    /// The state after an answer at `stage`.
    pub open spec fn after(self, stage: ReleaseStage, answer: SyncAnswer) -> ReleaseState {
        ReleaseState {
            lane: stage.lane_after(self.lane, answer),
            progress: match stage.after(answer) {
                Ok(next) => ReleaseProgress::At(next),
                Err(fault) => ReleaseProgress::Stopped(fault),
            },
        }
    }
}

/// `perform` makes the call that is due, and its answer leads from one state to the other.
pub open spec fn release_moves<F: Fn(SyncAction) -> SyncAnswer>(
    perform: F,
    image: ImportedDmaBufImage,
    family: u32,
    before: ReleaseState,
    after: ReleaseState,
) -> bool {
    match before.progress {
        ReleaseProgress::At(stage) => match stage.action(before.lane, image, family) {
            Some(action) => exists|answer: SyncAnswer| #[trigger]
                call_ensures(perform, (action,), answer) && after == before.after(stage, answer),
            None => false,
        },
        ReleaseProgress::Stopped(_) => false,
    }
}

/// So many calls of `perform`, each of them the one that is due, lead from one state to the other.
pub open spec fn release_reaches<F: Fn(SyncAction) -> SyncAnswer>(
    perform: F,
    image: ImportedDmaBufImage,
    family: u32,
    first: ReleaseState,
    last: ReleaseState,
    calls: nat,
) -> bool
    decreases calls,
{
    if calls == 0 {
        first == last
    } else {
        exists|before: ReleaseState|
            release_reaches(perform, image, family, first, before, (calls - 1) as nat)
                && #[trigger] release_moves(perform, image, family, before, last)
    }
}

/// What a release came to: the calls that were due led to `last`, which is its end.
pub open spec fn release_ends<F: Fn(SyncAction) -> SyncAnswer>(
    perform: F,
    image: ImportedDmaBufImage,
    family: u32,
    first: ReleaseState,
    last: ReleaseState,
    calls: nat,
    result: Result<(), ImportedImageSyncError>,
) -> bool {
    &&& release_reaches(perform, image, family, first, last, calls)
    &&& match last.progress {
        ReleaseProgress::At(stage) => stage is Submitted && result is Ok,
        ReleaseProgress::Stopped(fault) => result matches Err(error) && error@ == fault,
    }
}

/// The calls of a release come in one order, and nothing is submitted that was not recorded after
/// the fence and the pool of the lane were reset.
pub proof fn releases_keep_their_order(stage: ReleaseStage, answer: SyncAnswer)
    requires
        stage.takes(answer),
    ensures
        stage.after(answer) matches Ok(next) ==> {
            &&& answer.is_success()
            &&& next is Submitted ==> stage is Submit
            &&& next is Submit ==> stage is Record
            &&& next is Record ==> stage is ResetPool
            &&& next is ResetPool ==> stage is ResetFence
            &&& next.rank() == stage.rank() + 1
        },
{
}

impl ImportedImageSync {
    /// What is recorded to acquire an image.
    pub fn acquire_recording(&self, image: &ImportedDmaBufImage, family: u32) -> (recording:
        Recording)
        requires
            image.well_formed(),
        ensures
            recording == (Recording::Acquire {
                plan: image.acquisition(),
                family,
                timestamps: self.active_pool(),
            }),
    {
        Recording::Acquire {
            plan: image.acquire_plan(),
            family,
            timestamps: self.active_timestamp_pool(),
        }
    }

    /// The commands that acquire an image.
    pub fn record_acquire(&self, image: &ImportedDmaBufImage, family: u32) -> (result: Result<
        Vec<CommandStep>,
        String,
    >)
        requires
            image.well_formed(),
        ensures
            match (result, acquire_verdict(image.acquisition(), family, self.active_pool())) {
                (Ok(steps), Ok(expected)) => steps@ == expected,
                (Err(message), Err(text)) => message@ == text,
                _ => false,
            },
    {
        self.acquire_recording(image, family).steps()
    }

    /// What is recorded to release an image. A staged import has given its source back before, so
    /// that only its last timestamp is left.
    pub open spec fn release_commands(self, image: ImportedDmaBufImage, family: u32) -> Recording {
        if image.staged() {
            Recording::StagedRelease { timestamps: self.active_pool() }
        } else {
            Recording::DirectRelease { image: image.sampled_image(), family }
        }
    }

    /// What is recorded to release an image.
    pub fn release_recording(&self, image: &ImportedDmaBufImage, family: u32) -> (recording:
        Recording)
        ensures
            recording == self.release_commands(*image, family),
    {
        if image.is_staged() {
            Recording::StagedRelease { timestamps: self.active_timestamp_pool() }
        } else {
            Recording::DirectRelease { image: image.image(), family }
        }
    }

    /// What `start_acquire` returns.
    pub open spec fn acquire_start(self, acquire_sync_fd: Option<i32>) -> Result<
        AcquireStage,
        SyncFault,
    > {
        match self.acquire_check() {
            Err(fault) => Err(fault),
            Ok(()) => match acquire_sync_fd {
                None => Ok(AcquireStage::CreateReadySemaphore { wait: None }),
                Some(source_fd) => if source_fd < 0 {
                    Err(
                        sync_fault(
                            ImportedImageSyncErrorKind::TemporarySemaphoreImport,
                            "imported Vulkan image has an invalid sync fd"@,
                        ),
                    )
                } else {
                    match self.imported_acquire {
                        Some(semaphore) => Ok(
                            AcquireStage::DuplicateFence {
                                source_fd,
                                step: SyncFdStep { semaphore, created: false },
                            },
                        ),
                        None => Ok(AcquireStage::CreateFenceSemaphore { source_fd }),
                    }
                },
            },
        }
    }

    /// Begins an acquire. The lane has to be free. Where the producer gave an acquire fence, it is
    /// imported first, into the semaphore that the lane keeps for it.
    pub fn start_acquire(&self, acquire_sync_fd: Option<i32>) -> (result: Result<
        AcquireStage,
        ImportedImageSyncError,
    >)
        ensures
            syncs(result, self.acquire_start(acquire_sync_fd)),
    {
        match self.begin_acquire() {
            Ok(()) => {},
            Err(error) => return Err(error),
        }
        match acquire_sync_fd {
            None => Ok(AcquireStage::CreateReadySemaphore { wait: None }),
            Some(source_fd) => match self.plan_sync_fd(source_fd) {
                Ok(SyncFdPlan::Reuse(step)) => Ok(AcquireStage::DuplicateFence { source_fd, step }),
                Ok(SyncFdPlan::Create) => Ok(AcquireStage::CreateFenceSemaphore { source_fd }),
                Err(error) => Err(error),
            },
        }
    }

    /// Acquires an image for the renderer, on queues of this family. `perform` makes the calls, each
    /// of them the one that is due: the producer's fence is imported where there is one, the
    /// semaphore for the renderer is made, fence and pool are reset, the commands recorded and
    /// submitted. No other call is made, and none where the lane is not free or the fence not
    /// valid. Returns the semaphore that the renderer waits for. The first call that fails ends
    /// the acquire, with what it leaves to destroy.
    pub fn submit_acquire<F>(
        &mut self,
        image: &mut ImportedDmaBufImage,
        acquire_sync_fd: Option<i32>,
        family: u32,
        perform: F,
    ) -> (result: Result<RawHandle, SyncFailure>) where F: Fn(SyncAction) -> SyncAnswer
        requires
            old(self).well_formed(),
            old(image).well_formed(),
            old(self).acquire_start(acquire_sync_fd) matches Ok(stage) ==> forall|
                state: AcquireState,
                calls: nat,
            | #[trigger]
                acquire_reaches(
                    perform,
                    family,
                    (AcquireState {
                        lane: *old(self),
                        image: *old(image),
                        progress: AcquireProgress::At(stage),
                    }),
                    state,
                    calls,
                ) ==> state.admits(perform, family),
            forall|action: SyncAction, answer: SyncAnswer| #[trigger]
                call_ensures(perform, (action,), answer) ==> action.takes(answer),
        ensures
            final(self).well_formed(),
            final(image).well_formed(),
            match result {
                Ok(ready) => {
                    &&& *final(image) == old(image).with_contents()
                    &&& *final(self) == (ImportedImageSync {
                        imported_acquire: final(self).imported_acquire,
                        timing_choice: final(self).timing_choice,
                        ..*old(self)
                    }).acquired(old(image).import_id, old(image).staged(), ready)
                },
                Err(_) => {
                    &&& *final(image) == *old(image)
                    &&& old(self).acquire_start(acquire_sync_fd) is Ok ==> some_call_fails(perform)
                },
            },
            match old(self).acquire_start(acquire_sync_fd) {
                Err(fault) => {
                    &&& sync_fails(result, fault, Seq::empty())
                    &&& *final(self) == *old(self)
                    &&& *final(image) == *old(image)
                },
                Ok(stage) => exists|last: AcquireState, calls: nat|
                    {
                        &&& last.lane == *final(self)
                        &&& last.image == *final(image)
                        &&& #[trigger] acquire_ends(
                            perform,
                            family,
                            (AcquireState {
                                lane: *old(self),
                                image: *old(image),
                                progress: AcquireProgress::At(stage),
                            }),
                            last,
                            calls,
                            result,
                        )
                    },
            },
    {
        let mut stage = match self.start_acquire(acquire_sync_fd) {
            Ok(stage) => stage,
            Err(error) => return Err(nothing_left(error)),
        };
        let ghost first = AcquireState {
            lane: *self,
            image: *image,
            progress: AcquireProgress::At(stage),
        };
        let ghost mut calls: nat = 0;
        loop
            invariant
                self.well_formed(),
                image.well_formed(),
                !(stage is Submitted) ==> self.acquire_check() is Ok,
                match stage {
                    AcquireStage::Submitted { ready } => {
                        &&& *image == old(image).with_contents()
                        &&& *self == (ImportedImageSync {
                            imported_acquire: self.imported_acquire,
                            timing_choice: self.timing_choice,
                            ..*old(self)
                        }).acquired(old(image).import_id, old(image).staged(), ready)
                    },
                    _ => {
                        &&& *image == *old(image)
                        &&& *self == (ImportedImageSync {
                            imported_acquire: self.imported_acquire,
                            timing_choice: self.timing_choice,
                            ..*old(self)
                        })
                    },
                },
                forall|state: AcquireState, calls: nat| #[trigger]
                    acquire_reaches(perform, family, first, state, calls) ==> state.admits(
                        perform,
                        family,
                    ),
                forall|action: SyncAction, answer: SyncAnswer| #[trigger]
                    call_ensures(perform, (action,), answer) ==> action.takes(answer),
                acquire_reaches(
                    perform,
                    family,
                    first,
                    (AcquireState {
                        lane: *self,
                        image: *image,
                        progress: AcquireProgress::At(stage),
                    }),
                    calls,
                ),
                old(self).acquire_start(acquire_sync_fd) is Ok,
                first == (AcquireState {
                    lane: *old(self),
                    image: *old(image),
                    progress: AcquireProgress::At(
                        old(self).acquire_start(acquire_sync_fd)->Ok_0,
                    ),
                }),
            decreases 9 - stage.rank(),
        {
            let ghost before = AcquireState {
                lane: *self,
                image: *image,
                progress: AcquireProgress::At(stage),
            };
            match stage {
                AcquireStage::Submitted { ready } => {
                    let result: Result<RawHandle, SyncFailure> = Ok(ready);
                    assert(acquire_ends(perform, family, first, before, calls, result));
                    return result;
                },
                _ => {},
            }
            let action = match stage.next(self, image, family) {
                Some(action) => action,
                // Only an acquire that has been submitted needs no call.
                None => continue,
            };
            let answer = perform(action);
            let ghost given = answer;
            let ghost at = stage;
            let step = stage.answered(self, image, answer);
            let ghost after = before.after(at, given);
            proof {
                assert(call_ensures(perform, (action,), given));
                assert(acquire_moves(perform, family, before, after));
                assert(acquire_reaches(perform, family, first, after, calls + 1));
                calls = calls + 1;
            }
            match step {
                Ok(next) => {
                    stage = next;
                },
                Err(failure) => {
                    let result: Result<RawHandle, SyncFailure> = Err(failure);
                    assert(acquire_ends(perform, family, first, after, calls, result));
                    return result;
                },
            }
        }
    }

    /// Releases the image that was acquired, on queues of this family. `perform` makes the calls,
    /// each of them the one that is due: fence and pool are reset, the commands recorded and
    /// submitted. No other call is made, and none where the release is refused. The first call that fails ends the release.
    pub fn submit_release<F>(&mut self, image: &ImportedDmaBufImage, family: u32, perform: F) -> (
    result: Result<(), ImportedImageSyncError>) where F: Fn(SyncAction) -> SyncAnswer
        requires
            old(self).well_formed(),
            old(self).release_check(image.import_id) is Ok ==> forall|
                state: ReleaseState,
                calls: nat,
            | #[trigger]
                release_reaches(
                    perform,
                    *image,
                    family,
                    (ReleaseState {
                        lane: *old(self),
                        progress: ReleaseProgress::At(ReleaseStage::ResetFence),
                    }),
                    state,
                    calls,
                ) ==> state.admits(perform, *image, family),
            forall|action: SyncAction, answer: SyncAnswer| #[trigger]
                call_ensures(perform, (action,), answer) ==> action.takes(answer),
        ensures
            final(self).well_formed(),
            match result {
                Ok(()) => *final(self) == (ImportedImageSync {
                    release_submitted: true,
                    ..*old(self)
                }),
                Err(_) => {
                    &&& *final(self) == *old(self)
                    &&& old(self).release_check(image.import_id) is Ok ==> some_call_fails(perform)
                },
            },
            match old(self).release_check(image.import_id) {
                Err(fault) => {
                    &&& result matches Err(error) && error@ == fault
                    &&& *final(self) == *old(self)
                },
                Ok(()) => exists|last: ReleaseState, calls: nat|
                    {
                        &&& last.lane == *final(self)
                        &&& #[trigger] release_ends(
                            perform,
                            *image,
                            family,
                            (ReleaseState {
                                lane: *old(self),
                                progress: ReleaseProgress::At(ReleaseStage::ResetFence),
                            }),
                            last,
                            calls,
                            result,
                        )
                    },
            },
    {
        match self.begin_release(image) {
            Ok(()) => {},
            Err(error) => return Err(error),
        }
        let mut stage = ReleaseStage::ResetFence;
        let ghost first = ReleaseState { lane: *self, progress: ReleaseProgress::At(stage) };
        let ghost mut calls: nat = 0;
        loop
            invariant
                self.well_formed(),
                !(stage is Submitted) ==> self.release_check(image.import_id) is Ok,
                *self == (if stage is Submitted {
                    ImportedImageSync { release_submitted: true, ..*old(self) }
                } else {
                    *old(self)
                }),
                forall|state: ReleaseState, calls: nat| #[trigger]
                    release_reaches(perform, *image, family, first, state, calls)
                        ==> state.admits(perform, *image, family),
                forall|action: SyncAction, answer: SyncAnswer| #[trigger]
                    call_ensures(perform, (action,), answer) ==> action.takes(answer),
                release_reaches(
                    perform,
                    *image,
                    family,
                    first,
                    (ReleaseState { lane: *self, progress: ReleaseProgress::At(stage) }),
                    calls,
                ),
                old(self).release_check(image.import_id) is Ok,
                first == (ReleaseState {
                    lane: *old(self),
                    progress: ReleaseProgress::At(ReleaseStage::ResetFence),
                }),
            decreases 4 - stage.rank(),
        {
            let ghost before = ReleaseState { lane: *self, progress: ReleaseProgress::At(stage) };
            let action = match stage.next(self, image, family) {
                Some(action) => action,
                None => {
                    let result: Result<(), ImportedImageSyncError> = Ok(());
                    assert(release_ends(perform, *image, family, first, before, calls, result));
                    return result;
                },
            };
            let answer = perform(action);
            let ghost given = answer;
            let ghost at = stage;
            let step = stage.answered(self, image, answer);
            let ghost after = before.after(at, given);
            proof {
                assert(call_ensures(perform, (action,), given));
                assert(release_moves(perform, *image, family, before, after));
                assert(release_reaches(perform, *image, family, first, after, calls + 1));
                calls = calls + 1;
            }
            match step {
                Ok(next) => {
                    stage = next;
                },
                Err(error) => {
                    let result: Result<(), ImportedImageSyncError> = Err(error);
                    assert(release_ends(perform, *image, family, first, after, calls, result));
                    return result;
                },
            }
        }
    }
}

} // verus!
