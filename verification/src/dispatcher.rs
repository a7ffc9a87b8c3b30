//! The dispatcher of lease messages: who may send, in which order messages leave, and when the
//! worker that sends them may go.

use vstd::prelude::*;

use crate::error::{DispatcherError, PrepareError};
use crate::frame::{FrameDescriptor, OwnedFrame, Storage};
use crate::geometry::Rect;
use crate::sync_file::AcquireSync;
use crate::text::Message;

verus! {

/// The state of a dispatcher.
#[derive(Clone, Copy, Debug, PartialEq, Eq, Structural)]
pub enum DispatcherHealth {
    Healthy,
    Stopping,
    Stopped,
    Failed,
}

impl DispatcherHealth {
    /// The code that `code` returns.
    pub open spec fn encoded(self) -> u8 {
        match self {
            DispatcherHealth::Healthy => 0,
            DispatcherHealth::Stopping => 1,
            DispatcherHealth::Stopped => 2,
            DispatcherHealth::Failed => 3,
        }
    }

    /// The state as a code.
    pub fn code(self) -> (code: u8)
        ensures
            code == self.encoded(),
    {
        match self {
            DispatcherHealth::Healthy => 0,
            DispatcherHealth::Stopping => 1,
            DispatcherHealth::Stopped => 2,
            DispatcherHealth::Failed => 3,
        }
    }

    /// The name of the state in diagnostics.
    pub open spec fn name_text(self) -> Seq<char> {
        match self {
            DispatcherHealth::Healthy => "Healthy"@,
            DispatcherHealth::Stopping => "Stopping"@,
            DispatcherHealth::Stopped => "Stopped"@,
            DispatcherHealth::Failed => "Failed"@,
        }
    }

    fn name(self) -> (name: &'static str)
        ensures
            name@ == self.name_text(),
    {
        match self {
            DispatcherHealth::Healthy => "Healthy",
            DispatcherHealth::Stopping => "Stopping",
            DispatcherHealth::Stopped => "Stopped",
            DispatcherHealth::Failed => "Failed",
        }
    }
}

/// The state that a code stands for. A code that stands for none is a failure.
pub open spec fn health_of(code: u8) -> DispatcherHealth {
    if code == 0 {
        DispatcherHealth::Healthy
    } else if code == 1 {
        DispatcherHealth::Stopping
    } else if code == 2 {
        DispatcherHealth::Stopped
    } else {
        DispatcherHealth::Failed
    }
}

/// The state that a code stands for.
pub fn decode_health(value: u8) -> (health: DispatcherHealth)
    ensures
        health == health_of(value),
{
    match value {
        0 => DispatcherHealth::Healthy,
        1 => DispatcherHealth::Stopping,
        2 => DispatcherHealth::Stopped,
        _ => DispatcherHealth::Failed,
    }
}

/// Reading a state back from its code gives the state.
pub proof fn codes_keep_the_state(health: DispatcherHealth)
    ensures
        health_of(health.encoded()) == health,
{
}

/// What an observer reads of a dispatcher.
#[derive(Clone, Copy, Debug, PartialEq, Eq, Structural)]
pub struct DispatcherProbe {
    pub health: u8,
    pub undelivered_commands: usize,
}

impl DispatcherProbe {
    /// The state of the dispatcher.
    pub fn health(&self) -> (health: DispatcherHealth)
        ensures
            health == health_of(self.health),
    {
        decode_health(self.health)
    }

    /// How many messages found their recipient gone.
    pub fn undelivered_commands(&self) -> (count: usize)
        ensures
            count == self.undelivered_commands,
    {
        self.undelivered_commands
    }
}

/// What a message says.
#[derive(Clone, Copy, Debug, PartialEq, Eq, Structural)]
pub enum MessageKind {
    /// A holder is done with its buffer.
    Release,
    /// A holder is gone.
    Abandoned,
}

impl MessageKind {
    /// The tag of the message.
    pub fn tag(self) -> (tag: &'static str)
        ensures
            tag@ == (match self {
                MessageKind::Release => "video_interop_release"@,
                MessageKind::Abandoned => "video_interop_abandoned"@,
            }),
    {
        match self {
            MessageKind::Release => "video_interop_release",
            MessageKind::Abandoned => "video_interop_abandoned",
        }
    }
}

/// A message to the owner of a lease.
#[derive(Debug, PartialEq, Eq)]
pub struct DispatchCommand<C> {
    pub kind: MessageKind,
    pub message: C,
}

/// What the worker is told to do.
#[derive(Debug, PartialEq, Eq)]
pub enum WorkerCommand<C> {
    Dispatch(DispatchCommand<C>),
    Stop,
}

/// The right to send one message. The dispatcher does not stop while there are any.
#[derive(Debug)]
pub struct DispatcherClient {
    pub admitted: bool,
}

/// A dispatcher: its state, its clients, and the messages that its worker has not taken yet.
///
/// Only a healthy dispatcher admits clients. Closing it stops admission for good; when the last
/// client has sent its message the worker is told to stop, and the dispatcher has stopped when the
/// worker has been joined.
#[derive(Debug)]
pub struct ReleaseDispatcher<C> {
    pub health: DispatcherHealth,
    pub active_clients: usize,
    pub undelivered_commands: usize,
    /// Messages in the order in which they leave.
    pub queue: Vec<WorkerCommand<C>>,
    /// The worker has not been handed to anybody for joining.
    pub has_worker: bool,
    pub joining: bool,
    pub stop_enqueued: bool,
}

/// What somebody who closes a dispatcher waits for.
#[derive(Clone, Copy, Debug, PartialEq, Eq, Structural)]
pub enum CloseWait {
    Clients,
    Ownership,
    Worker,
}

impl CloseWait {
    /// What is missing.
    pub open spec fn timeout_text(self) -> Seq<char> {
        match self {
            CloseWait::Clients => "timed out waiting for dispatcher clients to retire"@,
            CloseWait::Ownership => "timed out waiting for dispatcher close ownership"@,
            CloseWait::Worker => "timed out waiting for dispatcher worker to drain"@,
        }
    }

    /// The error for a wait that took too long.
    pub fn timed_out(self) -> (error: DispatcherError)
        ensures
            error.message@ == self.timeout_text(),
    {
        match self {
            CloseWait::Clients => DispatcherError::new(
                "timed out waiting for dispatcher clients to retire",
            ),
            CloseWait::Ownership => DispatcherError::new(
                "timed out waiting for dispatcher close ownership",
            ),
            CloseWait::Worker => DispatcherError::new(
                "timed out waiting for dispatcher worker to drain",
            ),
        }
    }
}

/// How long to sleep at most before another look, in nanoseconds.
pub const RETRY_NANOSECONDS: u128 = 1_000_000;

/// How long somebody who closes a dispatcher sleeps before another look, where so many nanoseconds
/// are left of the time for closing, if any: what is left, but no longer than
/// `RETRY_NANOSECONDS`. There is no other look once the time has run out.
pub fn retry_delay(remaining: Option<u128>) -> (delay: Option<u128>)
    ensures
        delay == (match remaining {
            Some(left) => if left == 0 {
                None
            } else if left < RETRY_NANOSECONDS {
                Some(left)
            } else {
                Some(RETRY_NANOSECONDS)
            },
            None => None,
        }),
{
    match remaining {
        Some(left) => {
            if left == 0 {
                None
            } else if left < RETRY_NANOSECONDS {
                Some(left)
            } else {
                Some(RETRY_NANOSECONDS)
            }
        },
        None => None,
    }
}

/// What to do about the worker of a dispatcher that is being closed.
#[derive(Clone, Copy, Debug, PartialEq, Eq, Structural)]
pub enum JoinStep {
    /// The dispatcher has stopped.
    Done,
    /// The worker has finished and is the caller's to join.
    Join,
    /// The worker has not finished, or somebody else joins it.
    Wait,
}

/// What somebody who closes a dispatcher does next.
#[derive(Clone, Copy, Debug, PartialEq, Eq, Structural)]
pub enum CloseStep {
    Wait(CloseWait),
    /// The worker has finished and is the caller's to join.
    Join,
    /// The dispatcher has stopped.
    Done,
}

/// What became of the message of a guard.
#[derive(Clone, Copy, Debug, PartialEq, Eq, Structural)]
pub enum AbandonOutcome {
    /// There was no message left.
    Spent,
    /// The message is on its way.
    Queued,
    /// The dispatcher was closed after every holder had retired, so that the message is moot.
    Inert,
    /// The dispatcher has failed, and the message is lost.
    Corrupt,
}

/// The commands hold no order to stop.
pub open spec fn has_no_stop<C>(queue: Seq<WorkerCommand<C>>) -> bool {
    forall|index: int| 0 <= index < queue.len() ==> (#[trigger] queue[index]) is Dispatch
}

impl<C> ReleaseDispatcher<C> {
    /// The order to stop is given once, after the last client, and nothing follows it; a dispatcher
    /// has stopped only when its worker was handed over for joining.
    pub open spec fn well_formed(self) -> bool {
        &&& self.health is Healthy ==> self.has_worker && !self.stop_enqueued
        &&& self.stop_enqueued ==> self.active_clients == 0
        &&& !self.stop_enqueued ==> has_no_stop(self.queue@)
        &&& self.queue.len() > 0 ==> has_no_stop(self.queue@.drop_last())
        &&& self.joining == !self.has_worker
        &&& self.joining ==> self.stop_enqueued && self.queue.len() == 0
        &&& self.health is Stopped ==> self.joining
    }

    /// Nothing but the state and the clients may differ.
    pub open spec fn same_work(self, other: ReleaseDispatcher<C>) -> bool {
        &&& self.queue@ == other.queue@
        &&& self.undelivered_commands == other.undelivered_commands
        &&& self.has_worker == other.has_worker
        &&& self.joining == other.joining
        &&& self.stop_enqueued == other.stop_enqueued
    }

    /// A dispatcher that was closed does not open again, and admits nobody.
    pub open spec fn follows(self, earlier: ReleaseDispatcher<C>) -> bool {
        &&& !(earlier.health is Healthy) ==> !(self.health is Healthy)
        &&& !(earlier.health is Healthy) ==> self.active_clients <= earlier.active_clients
        &&& earlier.stop_enqueued ==> self.stop_enqueued
        &&& earlier.joining ==> self.joining
    }

    /// A dispatcher whose worker has been started, or the error that kept it from starting.
    pub fn start(started: Result<(), String>) -> (result: Result<
        ReleaseDispatcher<C>,
        DispatcherError,
    >)
        ensures
            match started {
                Ok(()) => {
                    &&& result matches Ok(dispatcher)
                    &&& dispatcher.well_formed()
                    &&& dispatcher.health is Healthy
                    &&& dispatcher.active_clients == 0
                    &&& dispatcher.undelivered_commands == 0
                    &&& dispatcher.queue.len() == 0
                },
                Err(cause) => result matches Err(error) && error.message@ == cause@,
            },
    {
        match started {
            Ok(()) => Ok(
                ReleaseDispatcher {
                    health: DispatcherHealth::Healthy,
                    active_clients: 0,
                    undelivered_commands: 0,
                    queue: Vec::new(),
                    has_worker: true,
                    joining: false,
                    stop_enqueued: false,
                },
            ),
            Err(cause) => Err(DispatcherError { message: cause }),
        }
    }

    /// The state of the dispatcher.
    pub fn health(&self) -> (health: DispatcherHealth)
        ensures
            health == self.health,
    {
        self.health
    }

    /// What an observer reads.
    pub fn probe(&self) -> (probe: DispatcherProbe)
        ensures
            health_of(probe.health) == self.health,
            probe.undelivered_commands == self.undelivered_commands,
    {
        DispatcherProbe {
            health: self.health.code(),
            undelivered_commands: self.undelivered_commands,
        }
    }

    /// Stops admission. A dispatcher that is being closed may be closed again.
    pub fn begin_close(&mut self) -> (result: Result<(), DispatcherError>)
        requires
            old(self).well_formed(),
        ensures
            final(self).well_formed(),
            final(self).follows(*old(self)),
            final(self).same_work(*old(self)),
            final(self).active_clients == old(self).active_clients,
            final(self).health == (if old(self).health is Healthy {
                DispatcherHealth::Stopping
            } else {
                old(self).health
            }),
            match result {
                Ok(()) => !(old(self).health is Failed),
                Err(error) => old(self).health is Failed && error.message@
                    == "dispatcher is Failed"@,
            },
    {
        match self.health {
            DispatcherHealth::Healthy => {
                self.health = DispatcherHealth::Stopping;
                Ok(())
            },
            DispatcherHealth::Stopping | DispatcherHealth::Stopped => Ok(()),
            DispatcherHealth::Failed => Err(DispatcherError::new("dispatcher is Failed")),
        }
    }

    /// Tests that every client has sent its message or gone.
    pub fn clients_drained(&self) -> (drained: bool)
        ensures
            drained == (self.active_clients == 0),
    {
        self.active_clients == 0
    }

    /// Tells the worker to stop once it has sent everything, and only once.
    pub fn enqueue_stop_once(&mut self) -> (result: Result<(), DispatcherError>)
        requires
            old(self).well_formed(),
            !(old(self).health is Healthy),
            old(self).active_clients == 0,
        ensures
            final(self).well_formed(),
            final(self).follows(*old(self)),
            final(self).health == old(self).health,
            final(self).active_clients == old(self).active_clients,
            final(self).undelivered_commands == old(self).undelivered_commands,
            final(self).has_worker == old(self).has_worker,
            final(self).joining == old(self).joining,
            result is Ok,
            final(self).stop_enqueued,
            final(self).queue@ == (if old(self).stop_enqueued {
                old(self).queue@
            } else {
                old(self).queue@.push(WorkerCommand::Stop)
            }),
    {
        if self.stop_enqueued {
            return Ok(());
        }
        if !self.has_worker {
            return Err(DispatcherError::new("dispatcher worker is unavailable"));
        }
        self.queue.push(WorkerCommand::Stop);
        self.stop_enqueued = true;
        assert(self.queue@.drop_last() =~= old(self).queue@);
        Ok(())
    }

    /// What to do about the worker, given whether its thread has finished. The caller that is told
    /// to join is the only one.
    pub fn join_step(&mut self, worker_finished: bool) -> (result: Result<
        JoinStep,
        DispatcherError,
    >)
        requires
            old(self).well_formed(),
            worker_finished ==> old(self).stop_enqueued && old(self).queue.len() == 0,
        ensures
            final(self).well_formed(),
            final(self).follows(*old(self)),
            final(self).health == old(self).health,
            final(self).active_clients == old(self).active_clients,
            final(self).undelivered_commands == old(self).undelivered_commands,
            final(self).queue@ == old(self).queue@,
            final(self).stop_enqueued == old(self).stop_enqueued,
            match old(self).health {
                DispatcherHealth::Stopped => result == Ok::<_, DispatcherError>(JoinStep::Done)
                    && final(self).joining == old(self).joining,
                DispatcherHealth::Failed => {
                    &&& result matches Err(error) && error.message@ == "dispatcher is Failed"@
                    &&& final(self).joining == old(self).joining
                },
                _ => if worker_finished && !old(self).joining {
                    result == Ok::<_, DispatcherError>(JoinStep::Join) && final(self).joining
                } else {
                    result == Ok::<_, DispatcherError>(JoinStep::Wait) && final(self).joining
                        == old(self).joining
                },
            },
    {
        match self.health {
            DispatcherHealth::Stopped => return Ok(JoinStep::Done),
            DispatcherHealth::Failed => return Err(DispatcherError::new("dispatcher is Failed")),
            _ => {},
        }
        if worker_finished && !self.joining {
            self.joining = true;
            self.has_worker = false;
            return Ok(JoinStep::Join);
        }
        Ok(JoinStep::Wait)
    }

    /// One attempt at closing: stops admission where `begin` says so, and as soon as the clients
    /// are gone tells the worker to stop and joins it. The dispatcher stays as far as it got, so
    /// that closing can go on later.
    pub fn close_and_join(&mut self, begin: bool, worker_finished: bool) -> (result: Result<
        CloseStep,
        DispatcherError,
    >)
        requires
            old(self).well_formed(),
            !begin ==> !(old(self).health is Healthy),
            worker_finished ==> old(self).stop_enqueued && old(self).queue.len() == 0,
        ensures
            final(self).well_formed(),
            final(self).follows(*old(self)),
            !(final(self).health is Healthy),
            final(self).health == (if old(self).health is Healthy {
                DispatcherHealth::Stopping
            } else {
                old(self).health
            }),
            final(self).active_clients == old(self).active_clients,
            final(self).undelivered_commands == old(self).undelivered_commands,
            if begin && old(self).health is Failed {
                &&& result matches Err(error) && error.message@ == "dispatcher is Failed"@
                &&& final(self).same_work(*old(self))
            } else if old(self).active_clients != 0 {
                &&& result == Ok::<_, DispatcherError>(CloseStep::Wait(CloseWait::Clients))
                &&& final(self).same_work(*old(self))
            } else {
                &&& final(self).stop_enqueued
                &&& final(self).queue@ == (if old(self).stop_enqueued {
                    old(self).queue@
                } else {
                    old(self).queue@.push(WorkerCommand::Stop)
                })
                &&& match old(self).health {
                    DispatcherHealth::Stopped => result == Ok::<_, DispatcherError>(
                        CloseStep::Done,
                    ),
                    DispatcherHealth::Failed => result matches Err(error) && error.message@
                        == "dispatcher is Failed"@,
                    _ => if worker_finished && !old(self).joining {
                        result == Ok::<_, DispatcherError>(CloseStep::Join) && final(self).joining
                    } else {
                        result == Ok::<_, DispatcherError>(CloseStep::Wait(CloseWait::Worker))
                            && final(self).joining == old(self).joining
                    },
                }
            },
    {
        if begin {
            match self.begin_close() {
                Ok(()) => {},
                Err(error) => return Err(error),
            }
        }
        if !self.clients_drained() {
            return Ok(CloseStep::Wait(CloseWait::Clients));
        }
        match self.enqueue_stop_once() {
            Ok(()) => {},
            Err(error) => return Err(error),
        }
        match self.join_step(worker_finished) {
            Ok(JoinStep::Done) => Ok(CloseStep::Done),
            Ok(JoinStep::Join) => Ok(CloseStep::Join),
            Ok(JoinStep::Wait) => Ok(CloseStep::Wait(CloseWait::Worker)),
            Err(error) => Err(error),
        }
    }

    /// The worker has been joined: the dispatcher has stopped.
    pub fn worker_joined(&mut self)
        requires
            old(self).well_formed(),
            old(self).joining,
        ensures
            final(self).well_formed(),
            final(self).follows(*old(self)),
            final(self).health is Stopped,
            final(self).active_clients == old(self).active_clients,
            final(self).same_work(*old(self)),
    {
        self.health = DispatcherHealth::Stopped;
    }

    /// Admits a client, where the dispatcher is healthy.
    pub fn acquire_client(&mut self) -> (result: Result<DispatcherClient, DispatcherError>)
        requires
            old(self).well_formed(),
            old(self).active_clients < usize::MAX,
        ensures
            final(self).well_formed(),
            final(self).follows(*old(self)),
            final(self).health == old(self).health,
            final(self).same_work(*old(self)),
            if old(self).health is Healthy {
                &&& result matches Ok(client) && client.admitted
                &&& final(self).active_clients == old(self).active_clients + 1
            } else {
                &&& result matches Err(error) && error.message@ == "dispatcher is "@ + old(
                    self,
                ).health.name_text()
                &&& final(self).active_clients == old(self).active_clients
            },
    {
        match self.health {
            DispatcherHealth::Healthy => {
                self.active_clients = self.active_clients + 1;
                Ok(DispatcherClient { admitted: true })
            },
            _ => Err(
                DispatcherError {
                    message: Message::new("dispatcher is ").text(self.health.name()).done(),
                },
            ),
        }
    }

    /// A client goes without sending anything.
    pub fn release_client(&mut self, client: DispatcherClient)
        requires
            old(self).well_formed(),
            old(self).active_clients > 0,
        ensures
            final(self).well_formed(),
            final(self).follows(*old(self)),
            final(self).health == old(self).health,
            final(self).same_work(*old(self)),
            final(self).active_clients == old(self).active_clients - 1,
    {
        let _ = client;
        self.active_clients = self.active_clients - 1;
    }

    /// A client sends its message, and goes.
    pub fn dispatch(&mut self, client: DispatcherClient, command: DispatchCommand<C>)
        requires
            old(self).well_formed(),
            old(self).active_clients > 0,
        ensures
            final(self).well_formed(),
            final(self).follows(*old(self)),
            final(self).health == old(self).health,
            final(self).active_clients == old(self).active_clients - 1,
            final(self).undelivered_commands == old(self).undelivered_commands,
            final(self).has_worker == old(self).has_worker,
            final(self).joining == old(self).joining,
            final(self).stop_enqueued == old(self).stop_enqueued,
            final(self).queue@ == old(self).queue@.push(WorkerCommand::Dispatch(command)),
    {
        self.queue.push(WorkerCommand::Dispatch(command));
        assert(self.queue@.drop_last() =~= old(self).queue@);
        self.release_client(client);
    }

    /// The message of a guard whose holder is gone. A dispatcher that is being closed drops it: it
    /// is closed only after every holder has retired.
    pub fn dispatch_abandoned(&mut self, command: DispatchCommand<C>) -> (outcome: AbandonOutcome)
        requires
            old(self).well_formed(),
            old(self).active_clients < usize::MAX,
        ensures
            final(self).well_formed(),
            final(self).follows(*old(self)),
            final(self).health == old(self).health,
            final(self).active_clients == old(self).active_clients,
            final(self).undelivered_commands == old(self).undelivered_commands,
            final(self).has_worker == old(self).has_worker,
            final(self).joining == old(self).joining,
            final(self).stop_enqueued == old(self).stop_enqueued,
            outcome == (match old(self).health {
                DispatcherHealth::Healthy => AbandonOutcome::Queued,
                DispatcherHealth::Failed => AbandonOutcome::Corrupt,
                _ => AbandonOutcome::Inert,
            }),
            final(self).queue@ == (if old(self).health is Healthy {
                old(self).queue@.push(WorkerCommand::Dispatch(command))
            } else {
                old(self).queue@
            }),
    {
        match self.acquire_client() {
            Ok(client) => {
                self.dispatch(client, command);
                AbandonOutcome::Queued
            },
            Err(_) => match self.health {
                DispatcherHealth::Stopping | DispatcherHealth::Stopped => AbandonOutcome::Inert,
                _ => AbandonOutcome::Corrupt,
            },
        }
    }

    /// The worker takes the next command. Once it takes the order to stop, nothing is left.
    pub fn take_command(&mut self) -> (command: Option<WorkerCommand<C>>)
        requires
            old(self).well_formed(),
        ensures
            final(self).well_formed(),
            final(self).follows(*old(self)),
            final(self).health == old(self).health,
            final(self).active_clients == old(self).active_clients,
            final(self).undelivered_commands == old(self).undelivered_commands,
            final(self).has_worker == old(self).has_worker,
            final(self).joining == old(self).joining,
            final(self).stop_enqueued == old(self).stop_enqueued,
            match command {
                Some(command) => old(self).queue.len() > 0 && command == old(self).queue@[0]
                    && final(self).queue@ == old(self).queue@.remove(0),
                None => old(self).queue.len() == 0 && final(self).queue@ == old(self).queue@,
            },
            command == Some(WorkerCommand::<C>::Stop) ==> final(self).queue.len() == 0
                && final(self).stop_enqueued,
    {
        if self.queue.len() == 0 {
            return None;
        }
        let command = self.queue.remove(0);
        proof {
            let before = old(self).queue@;
            assert forall|index: int| 0 <= index < before.remove(0).len() implies before.remove(
                0,
            )[index] == before[index + 1] by {}
            if before.len() > 1 {
                assert(before.drop_last()[0] == before[0]);
                assert forall|index: int|
                    0 <= index < self.queue@.drop_last().len() implies (
                #[trigger] self.queue@.drop_last()[index]) is Dispatch by {
                    assert(before.drop_last()[index + 1] is Dispatch);
                }
            }
        }
        Some(command)
    }

    /// The worker sent a message, or found that its recipient is gone, which is no failure of the
    /// dispatcher. The count wraps.
    pub fn command_sent(&mut self, delivered: bool)
        requires
            old(self).well_formed(),
        ensures
            final(self).well_formed(),
            final(self).follows(*old(self)),
            *final(self) == (ReleaseDispatcher {
                undelivered_commands: if delivered {
                    old(self).undelivered_commands
                } else {
                    old(self).undelivered_commands.wrapping_add(1)
                },
                ..*old(self)
            }),
    {
        if !delivered {
            self.undelivered_commands = self.undelivered_commands.wrapping_add(1);
        }
    }

    /// The worker panicked.
    pub fn worker_panicked(&mut self)
        requires
            old(self).well_formed(),
        ensures
            final(self).well_formed(),
            final(self).follows(*old(self)),
            final(self).health is Failed,
            final(self).active_clients == old(self).active_clients,
            final(self).same_work(*old(self)),
    {
        self.health = DispatcherHealth::Failed;
    }

    /// Tests that the dispatcher may go: its worker has been joined.
    pub fn may_drop(&self) -> (may: bool)
        ensures
            may == self.health is Stopped,
    {
        match self.health {
            DispatcherHealth::Stopped => true,
            _ => false,
        }
    }
}

/// In no history of a dispatcher does it open again or admit anybody after it was closed, is the
/// order to stop taken back, or the worker handed over twice.
pub proof fn closing_is_for_good<C>(history: Seq<ReleaseDispatcher<C>>, from: int, to: int)
    requires
        0 <= from <= to < history.len(),
        forall|index: int|
            0 <= index < history.len() - 1 ==> (#[trigger] history[index + 1]).follows(
                history[index],
            ),
    ensures
        history[to].follows(history[from]),
    decreases to - from,
{
    if from < to {
        closing_is_for_good(history, from, to - 1);
        assert(history[to - 1 + 1].follows(history[to - 1]));
    }
}

/// A dispatcher that has stopped has sent or dropped nothing too early: its worker was told to stop
/// after the last client, and had taken every command.
pub proof fn a_stopped_dispatcher_is_drained<C>(dispatcher: ReleaseDispatcher<C>)
    requires
        dispatcher.well_formed(),
        dispatcher.health is Stopped,
    ensures
        dispatcher.stop_enqueued,
        dispatcher.active_clients == 0,
        dispatcher.queue.len() == 0,
        !dispatcher.has_worker,
{
}

/// What remains of a holder that goes without releasing: one message.
#[derive(Debug)]
pub struct AbandonmentGuard<C> {
    pub command: Option<DispatchCommand<C>>,
}

/// A guard with its message, where the dispatcher is healthy.
pub fn new_abandonment_guard<C>(dispatcher: &mut ReleaseDispatcher<C>, message: C) -> (result: Result<
    AbandonmentGuard<C>,
    DispatcherError,
>)
    requires
        old(dispatcher).well_formed(),
        old(dispatcher).active_clients < usize::MAX,
    ensures
        final(dispatcher).well_formed(),
        final(dispatcher).follows(*old(dispatcher)),
        final(dispatcher).health == old(dispatcher).health,
        final(dispatcher).active_clients == old(dispatcher).active_clients,
        final(dispatcher).same_work(*old(dispatcher)),
        if old(dispatcher).health is Healthy {
            result matches Ok(guard) && guard.command == Some(
                DispatchCommand { kind: MessageKind::Abandoned, message },
            )
        } else {
            result matches Err(error) && error.message@ == "dispatcher is "@ + old(
                dispatcher,
            ).health.name_text()
        },
{
    match dispatcher.acquire_client() {
        Ok(client) => {
            dispatcher.release_client(client);
            Ok(
                AbandonmentGuard {
                    command: Some(DispatchCommand { kind: MessageKind::Abandoned, message }),
                },
            )
        },
        Err(error) => Err(error),
    }
}

impl<C> AbandonmentGuard<C> {
    /// The guard goes: its message is sent, once.
    pub fn abandon(&mut self, dispatcher: &mut ReleaseDispatcher<C>) -> (outcome: AbandonOutcome)
        requires
            old(dispatcher).well_formed(),
            old(dispatcher).active_clients < usize::MAX,
        ensures
            final(dispatcher).well_formed(),
            final(dispatcher).follows(*old(dispatcher)),
            final(dispatcher).health == old(dispatcher).health,
            final(dispatcher).active_clients == old(dispatcher).active_clients,
            final(dispatcher).undelivered_commands == old(dispatcher).undelivered_commands,
            final(dispatcher).has_worker == old(dispatcher).has_worker,
            final(dispatcher).joining == old(dispatcher).joining,
            final(dispatcher).stop_enqueued == old(dispatcher).stop_enqueued,
            final(self).command is None,
            match old(self).command {
                None => outcome is Spent && final(dispatcher).queue@ == old(dispatcher).queue@,
                Some(command) => {
                    &&& outcome == (match old(dispatcher).health {
                        DispatcherHealth::Healthy => AbandonOutcome::Queued,
                        DispatcherHealth::Failed => AbandonOutcome::Corrupt,
                        _ => AbandonOutcome::Inert,
                    })
                    &&& final(dispatcher).queue@ == (if old(dispatcher).health is Healthy {
                        old(dispatcher).queue@.push(WorkerCommand::Dispatch(command))
                    } else {
                        old(dispatcher).queue@
                    })
                },
            },
    {
        match self.command.take() {
            Some(command) => dispatcher.dispatch_abandoned(command),
            None => AbandonOutcome::Spent,
        }
    }
}

/// A lease that has not been claimed: its release message, the guard that it keeps alive, and the
/// right to send the message.
#[derive(Debug)]
pub struct PreparedLease<C, G> {
    pub command: DispatchCommand<C>,
    pub guard: G,
    pub client: DispatcherClient,
}

/// A lease whose release the holder owes. It has everything until the message is sent, and nothing
/// afterwards.
#[derive(Debug)]
pub struct ClaimedLease<C, G> {
    pub pending: Option<PreparedLease<C, G>>,
}

/// A frame with descriptors of its own, before the consumer accepts it.
#[derive(Debug)]
pub struct PreparedVideoFrame<H, C, G> {
    pub frame: OwnedFrame<H>,
    pub lease: Option<PreparedLease<C, G>>,
}

/// A frame that the consumer accepted, with the release that it owes.
#[derive(Debug)]
pub struct ClaimedVideoFrame<H, C, G> {
    pub frame: OwnedFrame<H>,
    pub lease: Option<ClaimedLease<C, G>>,
}

/// What of a lease travels with a frame: the release message and the guard.
#[derive(Debug)]
pub struct Lease<C, G> {
    pub message: C,
    pub guard: G,
}

/// A frame as its producer sends it: with a lease, where its storage is borrowed.
#[derive(Debug)]
pub struct Frame<C, G> {
    pub coded_width: u32,
    pub coded_height: u32,
    pub visible_rect: Rect,
    pub storage: Storage,
    pub acquire_sync: AcquireSync,
    pub lease: Option<Lease<C, G>>,
}

impl<C, G> Frame<C, G> {
    /// The frame without its lease.
    pub open spec fn descriptor(self) -> FrameDescriptor {
        FrameDescriptor {
            coded_width: self.coded_width,
            coded_height: self.coded_height,
            visible_rect: self.visible_rect,
            storage: self.storage,
            acquire_sync: self.acquire_sync,
        }
    }

    /// The storage belongs to the producer.
    pub open spec fn is_borrowed(self) -> bool {
        self.storage is DmaBuf
    }

    /// The fault of a frame that carries a lease where it must not, or none where it has to.
    pub open spec fn lease_fault(self) -> Option<PrepareError> {
        if self.is_borrowed() && self.lease is None {
            Some(PrepareError::MissingLease)
        } else if !self.is_borrowed() && self.lease is Some {
            Some(PrepareError::UnexpectedLease)
        } else {
            None
        }
    }

    /// What has been prepared holds the lease of the frame and the right to release it.
    pub open spec fn keeps_lease(self, kept: Option<PreparedLease<C, G>>) -> bool {
        match self.lease {
            None => kept is None,
            Some(lease) => {
                &&& kept matches Some(kept)
                &&& kept.command == (DispatchCommand {
                    kind: MessageKind::Release,
                    message: lease.message,
                })
                &&& kept.guard == lease.guard
                &&& kept.client.admitted
            },
        }
    }

    /// Prepares the frame for a native consumer. Bytes are copied, without a client of the
    /// dispatcher; borrowed descriptors are duplicated with `duplicate`, and the release of their
    /// lease stays with the caller until the frame is claimed.
    pub fn prepare_cloexec<H, D>(self, dispatcher: &mut ReleaseDispatcher<C>, duplicate: D) -> (result:
        Result<PreparedVideoFrame<H, C, G>, PrepareError>) where
        D: Fn(i32) -> Result<H, std::io::Error> + Copy,

        requires
            old(dispatcher).well_formed(),
            old(dispatcher).active_clients < usize::MAX,
            self.descriptor().admits(duplicate),
        ensures
            final(dispatcher).well_formed(),
            final(dispatcher).follows(*old(dispatcher)),
            final(dispatcher).health == old(dispatcher).health,
            final(dispatcher).same_work(*old(dispatcher)),
            final(dispatcher).active_clients == old(dispatcher).active_clients + (if result is Ok
                && self.is_borrowed() {
                1int
            } else {
                0
            }),
            match self.lease_fault() {
                Some(fault) => result == Err::<PreparedVideoFrame<H, C, G>, _>(fault),
                None => if self.is_borrowed() && !(old(dispatcher).health is Healthy) {
                    result matches Err(PrepareError::Dispatcher(error)) && error.message@
                        == "dispatcher is "@ + old(dispatcher).health.name_text()
                } else {
                    match result {
                        Ok(prepared) => {
                            &&& self.descriptor().duplication_outcome(
                                duplicate,
                                Ok(prepared.frame),
                            )
                            &&& self.keeps_lease(prepared.lease)
                        },
                        Err(PrepareError::Duplicate(error)) =>
                            self.descriptor().duplication_outcome(
                            duplicate,
                            Err::<OwnedFrame<H>, _>(error),
                        ),
                        Err(_) => false,
                    }
                },
            },
    {
        let borrowed = match &self.storage {
            Storage::DmaBuf(_) => true,
            Storage::Binary(_) => false,
        };
        let lease = self.lease;
        let descriptor = FrameDescriptor {
            coded_width: self.coded_width,
            coded_height: self.coded_height,
            visible_rect: self.visible_rect,
            storage: self.storage,
            acquire_sync: self.acquire_sync,
        };
        if !borrowed {
            if lease.is_some() {
                return Err(PrepareError::UnexpectedLease);
            }
            return match descriptor.duplicate_cloexec(duplicate) {
                Ok(owned) => Ok(PreparedVideoFrame { frame: owned, lease: None }),
                Err(error) => Err(PrepareError::Duplicate(error)),
            };
        }
        let lease = match lease {
            Some(lease) => lease,
            None => return Err(PrepareError::MissingLease),
        };
        let client = match dispatcher.acquire_client() {
            Ok(client) => client,
            Err(error) => return Err(PrepareError::Dispatcher(error)),
        };
        match descriptor.duplicate_cloexec(duplicate) {
            Ok(owned) => Ok(
                PreparedVideoFrame {
                    frame: owned,
                    lease: Some(
                        PreparedLease {
                            command: DispatchCommand {
                                kind: MessageKind::Release,
                                message: lease.message,
                            },
                            guard: lease.guard,
                            client,
                        },
                    ),
                },
            ),
            Err(error) => {
                dispatcher.release_client(client);
                Err(PrepareError::Duplicate(error))
            },
        }
    }
}

impl<H, C, G> PreparedVideoFrame<H, C, G> {
    /// The frame.
    pub fn frame(&self) -> (frame: &OwnedFrame<H>)
        ensures
            *frame == self.frame,
    {
        &self.frame
    }

    /// The consumer accepts the frame, and owes the release of its lease from now on.
    pub fn claim(self) -> (claimed: ClaimedVideoFrame<H, C, G>)
        ensures
            claimed.frame == self.frame,
            match self.lease {
                Some(lease) => claimed.lease == Some(ClaimedLease { pending: Some(lease) }),
                None => claimed.lease is None,
            },
    {
        ClaimedVideoFrame {
            frame: self.frame,
            lease: match self.lease {
                Some(lease) => Some(ClaimedLease { pending: Some(lease) }),
                None => None,
            },
        }
    }

    /// The consumer does not accept the frame. No message is sent, because the release is still the
    /// caller's; the descriptors of the frame go with it.
    pub fn discard(self, dispatcher: &mut ReleaseDispatcher<C>) -> (frame: OwnedFrame<H>)
        requires
            old(dispatcher).well_formed(),
            self.lease is Some ==> old(dispatcher).active_clients > 0,
        ensures
            final(dispatcher).well_formed(),
            final(dispatcher).follows(*old(dispatcher)),
            final(dispatcher).health == old(dispatcher).health,
            final(dispatcher).same_work(*old(dispatcher)),
            final(dispatcher).active_clients == old(dispatcher).active_clients - (if self.lease
                is Some {
                1int
            } else {
                0
            }),
            frame == self.frame,
    {
        match self.lease {
            Some(lease) => dispatcher.release_client(lease.client),
            None => {},
        }
        self.frame
    }
}

impl<H, C, G> ClaimedVideoFrame<H, C, G> {
    /// The frame and its lease.
    pub fn into_parts(self) -> (parts: (OwnedFrame<H>, Option<ClaimedLease<C, G>>))
        ensures
            parts == (self.frame, self.lease),
    {
        (self.frame, self.lease)
    }
}

impl<C, G> ClaimedLease<C, G> {
    /// The queue after the lease has been released.
    pub open spec fn queue_after(self, queue: Seq<WorkerCommand<C>>) -> Seq<WorkerCommand<C>> {
        match self.pending {
            Some(lease) => queue.push(WorkerCommand::Dispatch(lease.command)),
            None => queue,
        }
    }

    /// Sends the release, once. Returns the guard, which may go now that the message is queued.
    pub fn dispatch_release(&mut self, dispatcher: &mut ReleaseDispatcher<C>) -> (guard: Option<G>)
        requires
            old(dispatcher).well_formed(),
            old(self).pending is Some ==> old(dispatcher).active_clients > 0,
        ensures
            final(dispatcher).well_formed(),
            final(dispatcher).follows(*old(dispatcher)),
            final(dispatcher).health == old(dispatcher).health,
            final(dispatcher).undelivered_commands == old(dispatcher).undelivered_commands,
            final(dispatcher).has_worker == old(dispatcher).has_worker,
            final(dispatcher).joining == old(dispatcher).joining,
            final(dispatcher).stop_enqueued == old(dispatcher).stop_enqueued,
            final(self).pending is None,
            final(dispatcher).queue@ == old(self).queue_after(old(dispatcher).queue@),
            final(dispatcher).active_clients == old(dispatcher).active_clients - (if old(
                self,
            ).pending is Some {
                1int
            } else {
                0
            }),
            guard == (match old(self).pending {
                Some(lease) => Some(lease.guard),
                None => None,
            }),
    {
        match self.pending.take() {
            Some(lease) => {
                dispatcher.dispatch(lease.client, lease.command);
                Some(lease.guard)
            },
            None => None,
        }
    }

    /// The holder is done: sends the release, where it has not been sent.
    pub fn retire(self, dispatcher: &mut ReleaseDispatcher<C>) -> (guard: Option<G>)
        requires
            old(dispatcher).well_formed(),
            self.pending is Some ==> old(dispatcher).active_clients > 0,
        ensures
            final(dispatcher).well_formed(),
            final(dispatcher).follows(*old(dispatcher)),
            final(dispatcher).health == old(dispatcher).health,
            final(dispatcher).undelivered_commands == old(dispatcher).undelivered_commands,
            final(dispatcher).has_worker == old(dispatcher).has_worker,
            final(dispatcher).joining == old(dispatcher).joining,
            final(dispatcher).stop_enqueued == old(dispatcher).stop_enqueued,
            final(dispatcher).queue@ == self.queue_after(old(dispatcher).queue@),
            final(dispatcher).active_clients == old(dispatcher).active_clients - (if self.pending
                is Some {
                1int
            } else {
                0
            }),
            guard == (match self.pending {
                Some(lease) => Some(lease.guard),
                None => None,
            }),
    {
        let mut lease = self;
        lease.dispatch_release(dispatcher)
    }
}

/// However often a claimed lease is released, its message is queued once.
pub proof fn a_claimed_lease_is_released_once<C, G>(
    lease: ClaimedLease<C, G>,
    queue: Seq<WorkerCommand<C>>,
)
    ensures
        ({
            let spent = ClaimedLease::<C, G> { pending: None };
            spent.queue_after(lease.queue_after(queue)) == lease.queue_after(queue)
        }),
        lease.pending is Some ==> lease.queue_after(queue).len() == queue.len() + 1,
{
}

} // verus!
