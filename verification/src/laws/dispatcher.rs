//! What holds of the dispatcher, whatever it is given.

use vstd::prelude::*;

use crate::dispatcher::{
    decode_health, new_abandonment_guard, retry_delay, AbandonOutcome, AbandonmentGuard,
    ClaimedLease, ClaimedVideoFrame, CloseStep, CloseWait, DispatchCommand, DispatcherClient,
    DispatcherHealth, DispatcherProbe, Frame, JoinStep, MessageKind, PreparedVideoFrame,
    ReleaseDispatcher, WorkerCommand,
};
use crate::error::{DispatcherError, DuplicateError, PrepareError, ValidationError};
use crate::frame::{FrameDescriptor, OwnedFrame};

verus! {

/// The states of a dispatcher have the codes zero to three; every other code is read as a failure.
pub proof fn dispatcher_states_have_codes(
    health: DispatcherHealth,
    code: u8,
    other: u8,
    read: DispatcherHealth,
    probe: DispatcherProbe,
    probed: DispatcherHealth,
)
    requires
        call_ensures(DispatcherHealth::code, (health,), code),
        call_ensures(decode_health, (other,), read),
        call_ensures(DispatcherProbe::health, (&probe,), probed),
    ensures
        code == 0 <==> health is Healthy,
        code == 1 <==> health is Stopping,
        code == 2 <==> health is Stopped,
        code == 3 <==> health is Failed,
        read is Healthy <==> other == 0,
        read is Stopping <==> other == 1,
        read is Stopped <==> other == 2,
        read is Failed <==> other > 2,
        code == other ==> read == health,
        probe.health == other ==> probed == read,
{
}

/// The messages of the dispatcher are told apart by their tags.
pub proof fn messages_are_told_apart(release: &'static str, abandoned: &'static str)
    requires
        call_ensures(MessageKind::tag, (MessageKind::Release,), release),
        call_ensures(MessageKind::tag, (MessageKind::Abandoned,), abandoned),
    ensures
        release@ == "video_interop_release"@,
        abandoned@ == "video_interop_abandoned"@,
        release@ != abandoned@,
{
    reveal_strlit("video_interop_release");
    reveal_strlit("video_interop_abandoned");
    assert("video_interop_release"@.len() != "video_interop_abandoned"@.len());
}

/// Somebody who closes a dispatcher looks again as long as time is left, never later than it runs
/// out, and after a millisecond at the latest.
pub proof fn closing_looks_again_in_time(remaining: Option<u128>, delay: Option<u128>)
    requires
        call_ensures(retry_delay, (remaining,), delay),
    ensures
        delay is Some <==> (remaining matches Some(left) && left > 0),
        delay matches Some(sleep) ==> 0 < sleep <= 1_000_000 && sleep <= remaining.unwrap(),
        delay matches Some(sleep) ==> sleep == 1_000_000 || sleep == remaining.unwrap(),
{
}

/// A consumer that accepts a frame has that frame, and owes the release of exactly its lease.
pub proof fn claiming_keeps_frame_and_lease<H, C, G>(
    prepared: PreparedVideoFrame<H, C, G>,
    claimed: ClaimedVideoFrame<H, C, G>,
)
    requires
        call_ensures(PreparedVideoFrame::<H, C, G>::claim, (prepared,), claimed),
    ensures
        claimed.frame == prepared.frame,
        claimed.lease is Some <==> prepared.lease is Some,
        claimed.lease matches Some(lease) ==> lease.pending == prepared.lease,
{
}

/// A dispatcher starts healthy, with a worker, without clients and with nothing to send, if and only
/// if its worker could be started.
pub proof fn dispatchers_start_healthy_and_idle<C>(
    started: Result<(), String>,
    result: Result<ReleaseDispatcher<C>, DispatcherError>,
)
    requires
        call_ensures(ReleaseDispatcher::<C>::start, (started,), result),
    ensures
        result is Ok <==> started is Ok,
        result matches Ok(dispatcher) ==> {
            &&& dispatcher.health is Healthy && dispatcher.active_clients == 0
            &&& dispatcher.undelivered_commands == 0 && dispatcher.queue@.len() == 0
            &&& dispatcher.has_worker && !dispatcher.joining && !dispatcher.stop_enqueued
        },
        result matches Err(error) ==> (started matches Err(cause) && error.message@ == cause@),
{
}

/// A message that is sent takes the last place; every message before it keeps its own. The client
/// that sent it is gone.
pub proof fn messages_queue_behind_the_others<C>(
    client: DispatcherClient,
    command: DispatchCommand<C>,
)
    ensures
        forall|d: &mut ReleaseDispatcher<C>| #[trigger]
            call_ensures(ReleaseDispatcher::<C>::dispatch, (d, client, command), ()) ==> {
                let before = (*d).queue@;
                let after = final(d).queue@;
                &&& after.len() == before.len() + 1
                &&& after.last() == WorkerCommand::Dispatch(command)
                &&& forall|index: int| 0 <= index < before.len() ==> after[index] == before[index]
                &&& final(d).active_clients == (*d).active_clients - 1
                &&& final(d).health == (*d).health
                &&& final(d).undelivered_commands == (*d).undelivered_commands
            },
{
}

/// The worker takes the oldest message; the others move up and keep their order. It takes nothing
/// if and only if there is nothing.
pub proof fn messages_leave_oldest_first<C>(taken: Option<WorkerCommand<C>>)
    ensures
        forall|d: &mut ReleaseDispatcher<C>| #[trigger]
            call_ensures(ReleaseDispatcher::<C>::take_command, (d,), taken) ==> {
                let before = (*d).queue@;
                let after = final(d).queue@;
                &&& taken is None <==> before.len() == 0
                &&& taken matches Some(command) ==> command == before[0] && after.len() + 1
                    == before.len()
                &&& forall|index: int|
                    0 <= index < after.len() ==> #[trigger] after[index] == before[if taken is Some {
                        index + 1
                    } else {
                        index
                    }]
                &&& final(d).active_clients == (*d).active_clients
                &&& final(d).health == (*d).health
                &&& final(d).undelivered_commands == (*d).undelivered_commands
            },
{
}

/// A message is taken after exactly the messages that were there when it was sent: one that is sent
/// into an empty queue comes out next, and taking another message first makes no difference to what
/// is left.
pub proof fn messages_are_taken_in_the_order_they_were_sent<C>(
    client: DispatcherClient,
    command: DispatchCommand<C>,
    taken: Option<WorkerCommand<C>>,
    taken_first: Option<WorkerCommand<C>>,
)
    ensures
        forall|sent: &mut ReleaseDispatcher<C>, left: &mut ReleaseDispatcher<C>|
            #[trigger] call_ensures(
                ReleaseDispatcher::<C>::dispatch,
                (sent, client, command),
                (),
            ) && #[trigger] call_ensures(ReleaseDispatcher::<C>::take_command, (left,), taken) && (
            *left).queue@ == final(sent).queue@ && (*sent).queue@.len() == 0 ==> taken == Some(
                WorkerCommand::Dispatch(command),
            ) && final(left).queue@.len() == 0,
        forall|
            sent: &mut ReleaseDispatcher<C>,
            left: &mut ReleaseDispatcher<C>,
            left_first: &mut ReleaseDispatcher<C>,
            sent_second: &mut ReleaseDispatcher<C>,
        |
            #[trigger] call_ensures(
                ReleaseDispatcher::<C>::dispatch,
                (sent, client, command),
                (),
            ) && #[trigger] call_ensures(ReleaseDispatcher::<C>::take_command, (left,), taken)
                && #[trigger] call_ensures(
                ReleaseDispatcher::<C>::take_command,
                (left_first,),
                taken_first,
            ) && #[trigger] call_ensures(
                ReleaseDispatcher::<C>::dispatch,
                (sent_second, client, command),
                (),
            ) && (*left).queue@ == final(sent).queue@ && (*sent).queue@ == (*left_first).queue@ && (
            *sent_second).queue@ == final(left_first).queue@ && (*sent).queue@.len() > 0 ==> taken
                == taken_first && final(left).queue@ =~= final(sent_second).queue@,
{
}

/// A client is admitted if and only if the dispatcher is healthy, and is counted exactly then; one
/// that goes is counted no more. Neither touches the messages.
pub proof fn clients_are_counted<C>(
    result: Result<DispatcherClient, DispatcherError>,
    client: DispatcherClient,
)
    ensures
        forall|d: &mut ReleaseDispatcher<C>| #[trigger]
            call_ensures(ReleaseDispatcher::<C>::acquire_client, (d,), result) ==> {
                &&& result is Ok <==> (*d).health is Healthy
                &&& final(d).active_clients == (*d).active_clients + (if result is Ok {
                    1int
                } else {
                    0
                })
                &&& final(d).queue@ == (*d).queue@
                &&& final(d).health == (*d).health
                &&& result matches Err(error) ==> error.message@ == (match (*d).health {
                    DispatcherHealth::Stopping => "dispatcher is Stopping"@,
                    DispatcherHealth::Stopped => "dispatcher is Stopped"@,
                    _ => "dispatcher is Failed"@,
                })
            },
        forall|d: &mut ReleaseDispatcher<C>| #[trigger]
            call_ensures(ReleaseDispatcher::<C>::release_client, (d, client), ()) ==> {
                &&& final(d).active_clients == (*d).active_clients - 1
                &&& final(d).queue@ == (*d).queue@
                &&& final(d).health == (*d).health
            },
{
    reveal_strlit("dispatcher is ");
    reveal_strlit("Stopping");
    reveal_strlit("Stopped");
    reveal_strlit("Failed");
    reveal_strlit("dispatcher is Stopping");
    reveal_strlit("dispatcher is Stopped");
    reveal_strlit("dispatcher is Failed");
    assert("dispatcher is "@ + "Stopping"@ =~= "dispatcher is Stopping"@);
    assert("dispatcher is "@ + "Stopped"@ =~= "dispatcher is Stopped"@);
    assert("dispatcher is "@ + "Failed"@ =~= "dispatcher is Failed"@);
}

/// After closing has begun no client is admitted, and nothing that was sent is lost. Beginning to
/// close fails if and only if the dispatcher has failed, and never revives a dispatcher.
pub proof fn closing_shuts_clients_out<C>(
    begun: Result<(), DispatcherError>,
    result: Result<DispatcherClient, DispatcherError>,
)
    ensures
        forall|d: &mut ReleaseDispatcher<C>| #[trigger]
            call_ensures(ReleaseDispatcher::<C>::begin_close, (d,), begun) ==> {
                &&& begun is Err <==> (*d).health is Failed
                &&& !(final(d).health is Healthy)
                &&& (*d).health is Healthy ==> final(d).health is Stopping
                &&& !((*d).health is Healthy) ==> final(d).health == (*d).health
                &&& final(d).queue@ == (*d).queue@
                &&& final(d).active_clients == (*d).active_clients
                &&& final(d).stop_enqueued == (*d).stop_enqueued
            },
        forall|closed: &mut ReleaseDispatcher<C>, d: &mut ReleaseDispatcher<C>|
            #[trigger] call_ensures(ReleaseDispatcher::<C>::begin_close, (closed,), begun)
                && #[trigger] call_ensures(ReleaseDispatcher::<C>::acquire_client, (d,), result)
                && *d == *final(closed) ==> result is Err,
{
}

/// However often the worker is told to stop, the order is queued once, behind every message.
pub proof fn the_order_to_stop_is_given_once<C>(
    first: Result<(), DispatcherError>,
    second: Result<(), DispatcherError>,
)
    ensures
        forall|d: &mut ReleaseDispatcher<C>| #[trigger]
            call_ensures(ReleaseDispatcher::<C>::enqueue_stop_once, (d,), first) ==> {
                &&& first is Ok
                &&& final(d).stop_enqueued
                &&& !(*d).stop_enqueued ==> final(d).queue@.len() == (*d).queue@.len() + 1
                    && final(d).queue@.last() is Stop
                &&& forall|index: int|
                    0 <= index < (*d).queue@.len() ==> final(d).queue@[index] == (*d).queue@[index]
            },
        forall|d: &mut ReleaseDispatcher<C>, again: &mut ReleaseDispatcher<C>|
            #[trigger] call_ensures(ReleaseDispatcher::<C>::enqueue_stop_once, (d,), first)
                && #[trigger] call_ensures(
                ReleaseDispatcher::<C>::enqueue_stop_once,
                (again,),
                second,
            ) && *again == *final(d) ==> final(again).queue@ == (*again).queue@,
{
}

/// The worker is handed over for joining only when it has finished, to one caller alone, and not by
/// a dispatcher that has failed. A dispatcher that has stopped needs nothing more.
pub proof fn the_worker_is_joined_once<C>(
    first_finished: bool,
    second_finished: bool,
    first: Result<JoinStep, DispatcherError>,
    second: Result<JoinStep, DispatcherError>,
)
    ensures
        forall|d: &mut ReleaseDispatcher<C>| #[trigger]
            call_ensures(ReleaseDispatcher::<C>::join_step, (d, first_finished), first) ==> {
                &&& first is Err <==> (*d).health is Failed
                &&& first == Ok::<_, DispatcherError>(JoinStep::Done) <==> (*d).health is Stopped
                &&& first == Ok::<_, DispatcherError>(JoinStep::Join) ==> first_finished
                    && !(*d).joining && final(d).joining
                &&& first != Ok::<_, DispatcherError>(JoinStep::Join) ==> final(d).joining == (
                *d).joining
                &&& first == Ok::<_, DispatcherError>(JoinStep::Wait) ==> !first_finished
                    || (*d).joining
                &&& final(d).queue@ == (*d).queue@ && final(d).health == (*d).health
            },
        forall|d: &mut ReleaseDispatcher<C>, again: &mut ReleaseDispatcher<C>|
            #[trigger] call_ensures(ReleaseDispatcher::<C>::join_step, (d, first_finished), first)
                && #[trigger] call_ensures(
                ReleaseDispatcher::<C>::join_step,
                (again, second_finished),
                second,
            ) && *again == *final(d) && first == Ok::<_, DispatcherError>(JoinStep::Join)
                ==> second == Ok::<_, DispatcherError>(JoinStep::Wait),
{
}

/// An attempt at closing waits for clients as long as there are any; afterwards the order to stop
/// has been given, and the worker is joined when it has finished. It is done only when the
/// dispatcher has stopped.
pub proof fn closing_waits_for_clients_and_worker<C>(
    begin: bool,
    finished: bool,
    result: Result<CloseStep, DispatcherError>,
)
    ensures
        forall|d: &mut ReleaseDispatcher<C>| #[trigger]
            call_ensures(
                ReleaseDispatcher::<C>::close_and_join,
                (d, begin, finished),
                result,
            ) ==> {
                &&& !(final(d).health is Healthy)
                &&& final(d).active_clients == (*d).active_clients
                &&& result matches Err(error) ==> (*d).health is Failed && error.message@
                    == "dispatcher is Failed"@
                &&& begin && (*d).health is Failed ==> result is Err
                &&& (begin && (*d).health is Failed) || (*d).active_clients > 0 ==> final(d).queue@
                    == (*d).queue@ && final(d).stop_enqueued == (*d).stop_enqueued
                    && final(d).joining == (*d).joining && final(d).has_worker == (*d).has_worker
                &&& !((*d).health is Failed) && (*d).active_clients > 0 ==> result == Ok::<
                    _,
                    DispatcherError,
                >(CloseStep::Wait(CloseWait::Clients)) && final(d).queue@ == (*d).queue@
                &&& !((*d).health is Failed) && (*d).active_clients == 0 ==> {
                    &&& final(d).stop_enqueued
                    &&& (*d).stop_enqueued ==> final(d).queue@ == (*d).queue@
                    &&& !(*d).stop_enqueued ==> final(d).queue@.len() == (*d).queue@.len() + 1
                        && final(d).queue@.last() is Stop && final(d).queue@.drop_last()
                        =~= (*d).queue@
                    &&& result == Ok::<_, DispatcherError>(CloseStep::Done) <==> (*d).health
                        is Stopped
                    &&& result == Ok::<_, DispatcherError>(CloseStep::Join) <==> finished
                        && !(*d).joining && !((*d).health is Stopped)
                    &&& result == Ok::<_, DispatcherError>(CloseStep::Wait(CloseWait::Worker))
                        <==> !((*d).health is Stopped) && (!finished || (*d).joining)
                }
            },
{
}

/// A dispatcher may go if and only if it has stopped, which it has when its worker was joined; a
/// worker that panics makes it fail.
pub proof fn joined_workers_let_the_dispatcher_go<C>(dispatcher: ReleaseDispatcher<C>, may: bool)
    requires
        call_ensures(ReleaseDispatcher::<C>::may_drop, (&dispatcher,), may),
    ensures
        may <==> dispatcher.health is Stopped,
        forall|d: &mut ReleaseDispatcher<C>| #[trigger]
            call_ensures(ReleaseDispatcher::<C>::worker_joined, (d,), ()) && *final(d) == dispatcher
                ==> may,
        forall|d: &mut ReleaseDispatcher<C>| #[trigger]
            call_ensures(ReleaseDispatcher::<C>::worker_panicked, (d,), ()) && *final(d)
                == dispatcher ==> !may && dispatcher.health is Failed && dispatcher.queue@
                == (*d).queue@,
{
}

/// An undelivered message is counted, and a delivered one is not; a gone recipient leaves the
/// dispatcher as healthy as it was.
pub proof fn undelivered_messages_are_counted<C>(delivered: bool)
    ensures
        forall|d: &mut ReleaseDispatcher<C>| #[trigger]
            call_ensures(ReleaseDispatcher::<C>::command_sent, (d, delivered), ()) ==> {
                &&& delivered ==> final(d).undelivered_commands == (*d).undelivered_commands
                &&& !delivered && (*d).undelivered_commands < usize::MAX
                    ==> final(d).undelivered_commands == (*d).undelivered_commands + 1
                &&& !delivered && (*d).undelivered_commands == usize::MAX
                    ==> final(d).undelivered_commands == 0
                &&& final(d).health == (*d).health
                &&& final(d).queue@ == (*d).queue@
                &&& final(d).active_clients == (*d).active_clients
            },
{
}

/// What an observer reads is the state and the count of the dispatcher.
pub proof fn observers_see_the_dispatcher<C>(
    dispatcher: ReleaseDispatcher<C>,
    probe: DispatcherProbe,
    seen: DispatcherHealth,
    count: usize,
)
    requires
        call_ensures(ReleaseDispatcher::<C>::probe, (&dispatcher,), probe),
        call_ensures(DispatcherProbe::health, (&probe,), seen),
        call_ensures(DispatcherProbe::undelivered_commands, (&probe,), count),
    ensures
        seen == dispatcher.health,
        count == dispatcher.undelivered_commands,
{
}

/// The message of a holder that is gone is queued by a healthy dispatcher and by no other: one that
/// is being closed has no use for it, and one that failed loses it.
pub proof fn abandonment_reaches_healthy_dispatchers<C>(
    command: DispatchCommand<C>,
    outcome: AbandonOutcome,
)
    ensures
        forall|d: &mut ReleaseDispatcher<C>| #[trigger]
            call_ensures(
                ReleaseDispatcher::<C>::dispatch_abandoned,
                (d, command),
                outcome,
            ) ==> {
                &&& outcome is Queued <==> (*d).health is Healthy
                &&& outcome is Inert <==> (*d).health is Stopping || (*d).health is Stopped
                &&& outcome is Corrupt <==> (*d).health is Failed
                &&& outcome is Queued ==> final(d).queue@.len() == (*d).queue@.len() + 1
                    && final(d).queue@.last() == WorkerCommand::Dispatch(command)
                    && final(d).queue@.drop_last() =~= (*d).queue@
                &&& !(outcome is Queued) ==> final(d).queue@ == (*d).queue@
                &&& final(d).active_clients == (*d).active_clients
            },
{
}

/// A guard is given out by a healthy dispatcher alone, and says that its holder is gone; its message
/// is sent once, however often the guard is let go.
pub proof fn guards_speak_once<C>(
    message: C,
    made: Result<AbandonmentGuard<C>, DispatcherError>,
    first: AbandonOutcome,
    second: AbandonOutcome,
)
    ensures
        forall|d: &mut ReleaseDispatcher<C>| #[trigger]
            call_ensures(new_abandonment_guard::<C>, (d, message), made) ==> {
                &&& made is Ok <==> (*d).health is Healthy
                &&& made matches Ok(guard) ==> (guard.command matches Some(command) && command.kind
                    is Abandoned && command.message == message)
                &&& final(d).queue@ == (*d).queue@
                &&& final(d).active_clients == (*d).active_clients
            },
        forall|guard: &mut AbandonmentGuard<C>, d: &mut ReleaseDispatcher<C>| #[trigger]
            call_ensures(AbandonmentGuard::<C>::abandon, (guard, d), first) ==> {
                &&& first is Spent <==> (*guard).command is None
                &&& final(guard).command is None
                &&& first is Queued ==> (*d).health is Healthy && final(d).queue@.len()
                    == (*d).queue@.len() + 1 && final(d).queue@.last() == WorkerCommand::Dispatch(
                    (*guard).command.unwrap(),
                )
                &&& (*d).health is Healthy && (*guard).command is Some ==> first is Queued
                &&& !(first is Queued) ==> final(d).queue@ == (*d).queue@
            },
        forall|
            guard: &mut AbandonmentGuard<C>,
            d: &mut ReleaseDispatcher<C>,
            again: &mut AbandonmentGuard<C>,
            other: &mut ReleaseDispatcher<C>,
        |
            #[trigger] call_ensures(AbandonmentGuard::<C>::abandon, (guard, d), first)
                && #[trigger] call_ensures(
                AbandonmentGuard::<C>::abandon,
                (again, other),
                second,
            ) && *again == *final(guard) ==> second is Spent && final(other).queue@
                == (*other).queue@,
{
}

/// A claimed lease is released once: the first release queues its message and hands the guard out,
/// and the second does neither.
pub proof fn leases_are_released_once<C, G>(first: Option<G>, second: Option<G>)
    ensures
        forall|lease: &mut ClaimedLease<C, G>, d: &mut ReleaseDispatcher<C>| #[trigger]
            call_ensures(ClaimedLease::<C, G>::dispatch_release, (lease, d), first) ==> {
                &&& first is Some <==> (*lease).pending is Some
                &&& (*lease).pending matches Some(pending) ==> first == Some(pending.guard)
                    && final(d).queue@.len() == (*d).queue@.len() + 1 && final(d).queue@.last()
                    == WorkerCommand::Dispatch(pending.command) && final(d).queue@.drop_last()
                    =~= (*d).queue@ && final(d).active_clients == (*d).active_clients - 1
                &&& (*lease).pending is None ==> final(d).queue@ == (*d).queue@
                    && final(d).active_clients == (*d).active_clients
                &&& final(lease).pending is None
            },
        forall|
            lease: &mut ClaimedLease<C, G>,
            d: &mut ReleaseDispatcher<C>,
            again: &mut ClaimedLease<C, G>,
            other: &mut ReleaseDispatcher<C>,
        |
            #[trigger] call_ensures(ClaimedLease::<C, G>::dispatch_release, (lease, d), first)
                && #[trigger] call_ensures(
                ClaimedLease::<C, G>::dispatch_release,
                (again, other),
                second,
            ) && *again == *final(lease) ==> second is None && final(other).queue@
                == (*other).queue@ && final(other).active_clients == (*other).active_clients,
{
}

/// A holder that retires has released its lease: the message is queued where it had not been sent,
/// and the guard may go.
pub proof fn retiring_releases_the_lease<C, G>(lease: ClaimedLease<C, G>, guard: Option<G>)
    ensures
        forall|d: &mut ReleaseDispatcher<C>| #[trigger]
            call_ensures(ClaimedLease::<C, G>::retire, (lease, d), guard) ==> {
                &&& guard is Some <==> lease.pending is Some
                &&& lease.pending matches Some(pending) ==> guard == Some(pending.guard)
                    && final(d).queue@.len() == (*d).queue@.len() + 1 && final(d).queue@.last()
                    == WorkerCommand::Dispatch(pending.command) && final(d).active_clients
                    == (*d).active_clients - 1
                &&& lease.pending is None ==> final(d).queue@ == (*d).queue@
            },
{
}

/// A prepared frame that nobody accepts sends nothing, and gives its place among the clients back.
pub proof fn discarded_frames_send_nothing<H, C, G>(
    prepared: PreparedVideoFrame<H, C, G>,
    frame: OwnedFrame<H>,
)
    ensures
        forall|d: &mut ReleaseDispatcher<C>| #[trigger]
            call_ensures(PreparedVideoFrame::<H, C, G>::discard, (prepared, d), frame) ==> {
                &&& frame == prepared.frame
                &&& final(d).queue@ == (*d).queue@
                &&& prepared.lease is Some ==> final(d).active_clients == (*d).active_clients - 1
                &&& prepared.lease is None ==> final(d).active_clients == (*d).active_clients
            },
{
}

/// Preparing a frame takes a place among the clients if and only if it succeeds for borrowed memory,
/// and queues nothing. Borrowed memory needs a lease and a healthy dispatcher, bytes need neither.
pub proof fn preparing_a_frame_takes_one_client<
    H,
    C,
    G,
    D: Fn(i32) -> Result<H, std::io::Error> + Copy,
>(frame: Frame<C, G>, duplicate: D, result: Result<PreparedVideoFrame<H, C, G>, PrepareError>)
    ensures
        forall|d: &mut ReleaseDispatcher<C>| #[trigger]
            call_ensures(Frame::<C, G>::prepare_cloexec::<H, D>, (frame, d, duplicate), result)
                ==> {
                let borrowed = frame.storage is DmaBuf;
                &&& final(d).queue@ == (*d).queue@
                &&& final(d).health == (*d).health
                &&& borrowed && result is Ok ==> final(d).active_clients == (*d).active_clients + 1
                &&& !borrowed || result is Err ==> final(d).active_clients == (*d).active_clients
                &&& (result matches Err(PrepareError::MissingLease)) <==> borrowed && frame.lease
                    is None
                &&& (result matches Err(PrepareError::UnexpectedLease)) <==> !borrowed
                    && frame.lease is Some
                &&& (result matches Err(PrepareError::Dispatcher(_))) <==> borrowed && frame.lease
                    is Some && !((*d).health is Healthy)
                &&& result matches Ok(prepared) ==> {
                    &&& prepared.lease is Some <==> borrowed
                    &&& prepared.lease matches Some(kept) ==> frame.lease matches Some(lease)
                        && kept.command.kind is Release && kept.command.message == lease.message
                        && kept.guard == lease.guard
                    &&& prepared.frame.coded_width == frame.coded_width
                    &&& prepared.frame.coded_height == frame.coded_height
                    &&& prepared.frame.visible_rect == frame.visible_rect
                }
            },
{
}

/// Nothing but the messages and the clients may differ.
pub open spec fn keeps_its_state<C>(
    after: ReleaseDispatcher<C>,
    before: ReleaseDispatcher<C>,
) -> bool {
    &&& after.health == before.health && after.undelivered_commands == before.undelivered_commands
    &&& after.has_worker == before.has_worker && after.joining == before.joining
    &&& after.stop_enqueued == before.stop_enqueued
}

/// Sending, taking, admitting and releasing change the messages and the clients alone.
pub proof fn sending_keeps_the_state<C, G, H>(
    client: DispatcherClient,
    command: DispatchCommand<C>,
    message: C,
    taken: Option<WorkerCommand<C>>,
    admitted: Result<DispatcherClient, DispatcherError>,
    outcome: AbandonOutcome,
    made: Result<AbandonmentGuard<C>, DispatcherError>,
    lease: ClaimedLease<C, G>,
    guard: Option<G>,
    prepared: PreparedVideoFrame<H, C, G>,
    frame: OwnedFrame<H>,
)
    ensures
        forall|d: &mut ReleaseDispatcher<C>| #[trigger]
            call_ensures(ReleaseDispatcher::<C>::dispatch, (d, client, command), ())
                ==> keeps_its_state(*final(d), *d),
        forall|d: &mut ReleaseDispatcher<C>| #[trigger]
            call_ensures(ReleaseDispatcher::<C>::take_command, (d,), taken) ==> keeps_its_state(
                *final(d),
                *d,
            ),
        forall|d: &mut ReleaseDispatcher<C>| #[trigger]
            call_ensures(ReleaseDispatcher::<C>::acquire_client, (d,), admitted)
                ==> keeps_its_state(*final(d), *d),
        forall|d: &mut ReleaseDispatcher<C>| #[trigger]
            call_ensures(ReleaseDispatcher::<C>::release_client, (d, client), ())
                ==> keeps_its_state(*final(d), *d),
        forall|d: &mut ReleaseDispatcher<C>| #[trigger]
            call_ensures(ReleaseDispatcher::<C>::dispatch_abandoned, (d, command), outcome)
                ==> keeps_its_state(*final(d), *d),
        forall|d: &mut ReleaseDispatcher<C>| #[trigger]
            call_ensures(new_abandonment_guard::<C>, (d, message), made) ==> keeps_its_state(
                *final(d),
                *d,
            ),
        forall|g: &mut AbandonmentGuard<C>, d: &mut ReleaseDispatcher<C>| #[trigger]
            call_ensures(AbandonmentGuard::<C>::abandon, (g, d), outcome) ==> keeps_its_state(
                *final(d),
                *d,
            ) && final(d).active_clients == (*d).active_clients,
        forall|l: &mut ClaimedLease<C, G>, d: &mut ReleaseDispatcher<C>| #[trigger]
            call_ensures(ClaimedLease::<C, G>::dispatch_release, (l, d), guard)
                ==> keeps_its_state(*final(d), *d),
        forall|d: &mut ReleaseDispatcher<C>| #[trigger]
            call_ensures(ClaimedLease::<C, G>::retire, (lease, d), guard) ==> keeps_its_state(
                *final(d),
                *d,
            ),
        forall|d: &mut ReleaseDispatcher<C>| #[trigger]
            call_ensures(PreparedVideoFrame::<H, C, G>::discard, (prepared, d), frame)
                ==> keeps_its_state(*final(d), *d),
{
}

/// Closing changes the state and the order to stop alone: the messages, the clients and the count of
/// undelivered messages stay.
pub proof fn closing_keeps_the_rest<C>(
    result: Result<(), DispatcherError>,
    finished: bool,
    step: Result<JoinStep, DispatcherError>,
    begin: bool,
    close: Result<CloseStep, DispatcherError>,
    delivered: bool,
)
    ensures
        forall|d: &mut ReleaseDispatcher<C>| #[trigger]
            call_ensures(ReleaseDispatcher::<C>::begin_close, (d,), result) ==> keeps_its_state(
                (ReleaseDispatcher { health: (*d).health, ..*final(d) }),
                *d,
            ),
        forall|d: &mut ReleaseDispatcher<C>| #[trigger]
            call_ensures(ReleaseDispatcher::<C>::enqueue_stop_once, (d,), result)
                ==> keeps_its_state(
                (ReleaseDispatcher { stop_enqueued: (*d).stop_enqueued, ..*final(d) }),
                *d,
            ) && final(d).active_clients == (*d).active_clients,
        forall|d: &mut ReleaseDispatcher<C>| #[trigger]
            call_ensures(ReleaseDispatcher::<C>::join_step, (d, finished), step)
                ==> keeps_its_state(
                (ReleaseDispatcher {
                    joining: (*d).joining,
                    has_worker: (*d).has_worker,
                    ..*final(d)
                }),
                *d,
            ) && final(d).active_clients == (*d).active_clients,
        forall|d: &mut ReleaseDispatcher<C>| #[trigger]
            call_ensures(ReleaseDispatcher::<C>::close_and_join, (d, begin, finished), close)
                ==> final(d).undelivered_commands == (*d).undelivered_commands && (
            final(d).health is Stopping || final(d).health == (*d).health) && ((*d).health is Healthy
                <==> final(d).health != (*d).health),
        forall|d: &mut ReleaseDispatcher<C>| #[trigger]
            call_ensures(ReleaseDispatcher::<C>::worker_joined, (d,), ()) ==> keeps_its_state(
                (ReleaseDispatcher { health: (*d).health, ..*final(d) }),
                *d,
            ) && final(d).queue@ == (*d).queue@ && final(d).active_clients == (*d).active_clients,
        forall|d: &mut ReleaseDispatcher<C>| #[trigger]
            call_ensures(ReleaseDispatcher::<C>::worker_panicked, (d,), ()) ==> keeps_its_state(
                (ReleaseDispatcher { health: (*d).health, ..*final(d) }),
                *d,
            ) && final(d).active_clients == (*d).active_clients,
        forall|d: &mut ReleaseDispatcher<C>| #[trigger]
            call_ensures(ReleaseDispatcher::<C>::command_sent, (d, delivered), ())
                ==> keeps_its_state(
                (ReleaseDispatcher {
                    undelivered_commands: (*d).undelivered_commands,
                    ..*final(d)
                }),
                *d,
            ),
{
}

/// Preparing a frame hands on what duplicating it gives.
pub proof fn prepared_frames_are_duplicates<
    H,
    C,
    G,
    D: Fn(i32) -> Result<H, std::io::Error> + Copy,
>(
    frame: Frame<C, G>,
    descriptor: FrameDescriptor,
    duplicate: D,
    valid: Result<(), ValidationError>,
    result: Result<PreparedVideoFrame<H, C, G>, PrepareError>,
)
    requires
        descriptor.coded_width == frame.coded_width && descriptor.coded_height
            == frame.coded_height,
        descriptor.visible_rect == frame.visible_rect && descriptor.storage == frame.storage,
        descriptor.acquire_sync == frame.acquire_sync,
        call_ensures(FrameDescriptor::validate, (&descriptor,), valid),
    ensures
        forall|d: &mut ReleaseDispatcher<C>| #[trigger]
            call_ensures(Frame::<C, G>::prepare_cloexec::<H, D>, (frame, d, duplicate), result)
                ==> {
                &&& keeps_its_state(*final(d), *d)
                &&& result is Ok ==> valid is Ok
                &&& frame.storage is Binary && frame.lease is None && valid is Ok ==> result is Ok
                &&& result matches Err(PrepareError::Duplicate(DuplicateError::InvalidFrame(fault)))
                    ==> valid == Err::<(), _>(fault)
            },
{
    assert(frame.descriptor() == descriptor);
}

/// A dispatcher is drained when it has no clients, and a wait that took too long says what it waited
/// for.
pub proof fn waits_say_what_is_missing<C>(
    dispatcher: ReleaseDispatcher<C>,
    drained: bool,
    clients: DispatcherError,
    ownership: DispatcherError,
    worker: DispatcherError,
    health: DispatcherHealth,
)
    requires
        call_ensures(ReleaseDispatcher::<C>::clients_drained, (&dispatcher,), drained),
        call_ensures(ReleaseDispatcher::<C>::health, (&dispatcher,), health),
        call_ensures(CloseWait::timed_out, (CloseWait::Clients,), clients),
        call_ensures(CloseWait::timed_out, (CloseWait::Ownership,), ownership),
        call_ensures(CloseWait::timed_out, (CloseWait::Worker,), worker),
    ensures
        drained <==> dispatcher.active_clients == 0,
        health == dispatcher.health,
        clients.message@ == "timed out waiting for dispatcher clients to retire"@,
        ownership.message@ == "timed out waiting for dispatcher close ownership"@,
        worker.message@ == "timed out waiting for dispatcher worker to drain"@,
{
}

/// A claimed frame comes apart into its frame and its lease.
pub proof fn claimed_frames_come_apart<H, C, G>(
    claimed: ClaimedVideoFrame<H, C, G>,
    parts: (OwnedFrame<H>, Option<ClaimedLease<C, G>>),
)
    requires
        call_ensures(ClaimedVideoFrame::<H, C, G>::into_parts, (claimed,), parts),
    ensures
        parts.0 == claimed.frame,
        parts.1 == claimed.lease,
{
}

} // verus!
