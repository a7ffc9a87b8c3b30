use std::io;

use video_interop::dispatcher::{
    decode_health, retry_delay, AbandonOutcome, CloseStep, CloseWait, DispatchCommand, JoinStep,
    MessageKind, WorkerCommand,
};
use video_interop::schema::{
    admits_another_entry, decode_modifier, decode_modifier_policy, encode_modifier,
    encode_modifier_policy, SchemaValue,
};
use video_interop::{
    new_abandonment_guard, AbandonmentGuard, AcquireSync, BinaryPlane, BinaryStorage, Descriptor,
    DispatcherHealth, DuplicateError, Frame, Layer, Lease, Modifier, ModifierPolicy, Object, Plane,
    PrepareError, PreparedVideoFrame, Rect, ReleaseDispatcher, Storage,
};

type Dispatcher = ReleaseDispatcher<&'static str>;

fn started() -> Dispatcher {
    ReleaseDispatcher::start(Ok(())).unwrap()
}

fn duplicate(fd: i32) -> Result<i32, io::Error> {
    if fd == 99 {
        Err(io::Error::other("refused"))
    } else {
        Ok(fd + 100)
    }
}

fn borrowed(fd: i32, lease: Option<Lease<&'static str, u8>>) -> Frame<&'static str, u8> {
    Frame {
        coded_width: 64,
        coded_height: 16,
        visible_rect: Rect { x: 0, y: 0, width: 64, height: 16 },
        storage: Storage::DmaBuf(Descriptor {
            version: 1,
            objects: vec![Object { fd, size: 4096, modifier: Modifier::Implicit }],
            layers: vec![Layer {
                fourcc: u32::from_le_bytes(*b"XR24"),
                planes: vec![Plane { object_index: 0, offset: 0, pitch: 256 }],
            }],
        }),
        acquire_sync: AcquireSync::Implicit,
        lease,
    }
}

fn lease() -> Option<Lease<&'static str, u8>> {
    Some(Lease { message: "first", guard: 7 })
}

fn prepare(
    frame: Frame<&'static str, u8>,
    dispatcher: &mut Dispatcher,
) -> Result<PreparedVideoFrame<i32, &'static str, u8>, PrepareError> {
    frame.prepare_cloexec(dispatcher, duplicate)
}

fn release(message: &'static str) -> WorkerCommand<&'static str> {
    WorkerCommand::Dispatch(DispatchCommand { kind: MessageKind::Release, message })
}

#[test]
fn codes_stand_for_states() {
    for health in [
        DispatcherHealth::Healthy,
        DispatcherHealth::Stopping,
        DispatcherHealth::Stopped,
        DispatcherHealth::Failed,
    ] {
        assert_eq!(decode_health(health.code()), health);
    }
    assert_eq!(decode_health(200), DispatcherHealth::Failed);
    assert_eq!(MessageKind::Release.tag(), "video_interop_release");
    assert_eq!(MessageKind::Abandoned.tag(), "video_interop_abandoned");
}

#[test]
fn a_dispatcher_that_did_not_start_says_why() {
    let error = Dispatcher::start(Err("no thread".to_string())).unwrap_err();
    assert_eq!(error.message(), "video-interop release dispatcher unavailable: no thread");
}

#[test]
fn messages_leave_in_order_and_the_worker_stops_last() {
    let mut dispatcher = started();
    let first = dispatcher.acquire_client().unwrap();
    let second = dispatcher.acquire_client().unwrap();
    let third = dispatcher.acquire_client().unwrap();
    dispatcher.dispatch(
        second,
        DispatchCommand { kind: MessageKind::Release, message: "second" },
    );
    assert_eq!(
        dispatcher.close_and_join(true, false).unwrap(),
        CloseStep::Wait(CloseWait::Clients)
    );
    assert_eq!(dispatcher.health(), DispatcherHealth::Stopping);
    assert_eq!(
        dispatcher.acquire_client().unwrap_err().message(),
        "video-interop release dispatcher unavailable: dispatcher is Stopping"
    );
    dispatcher.dispatch(first, DispatchCommand { kind: MessageKind::Release, message: "first" });
    dispatcher.release_client(third);
    assert!(dispatcher.clients_drained());
    assert_eq!(
        dispatcher.close_and_join(true, false).unwrap(),
        CloseStep::Wait(CloseWait::Worker)
    );
    assert_eq!(
        dispatcher.close_and_join(false, false).unwrap(),
        CloseStep::Wait(CloseWait::Worker)
    );
    assert_eq!(dispatcher.take_command(), Some(release("second")));
    dispatcher.command_sent(true);
    assert_eq!(dispatcher.take_command(), Some(release("first")));
    dispatcher.command_sent(false);
    assert_eq!(dispatcher.take_command(), Some(WorkerCommand::Stop));
    assert_eq!(dispatcher.take_command(), None);
    assert_eq!(dispatcher.probe().undelivered_commands(), 1);
    assert!(!dispatcher.may_drop());
    assert_eq!(dispatcher.close_and_join(false, true).unwrap(), CloseStep::Join);
    assert_eq!(
        dispatcher.close_and_join(false, true).unwrap(),
        CloseStep::Wait(CloseWait::Worker)
    );
    dispatcher.worker_joined();
    assert_eq!(dispatcher.close_and_join(true, true).unwrap(), CloseStep::Done);
    assert_eq!(dispatcher.probe().health(), DispatcherHealth::Stopped);
    assert!(dispatcher.may_drop());
}

#[test]
fn a_failed_dispatcher_serves_nobody() {
    let mut dispatcher = started();
    dispatcher.worker_panicked();
    assert_eq!(dispatcher.health(), DispatcherHealth::Failed);
    let text = "video-interop release dispatcher unavailable: dispatcher is Failed";
    assert_eq!(dispatcher.begin_close().unwrap_err().message(), text);
    assert_eq!(dispatcher.close_and_join(true, false).unwrap_err().message(), text);
    assert_eq!(dispatcher.acquire_client().unwrap_err().message(), text);
    assert_eq!(dispatcher.join_step(false).unwrap_err().message(), text);
    let mut guard = AbandonmentGuard {
        command: Some(DispatchCommand { kind: MessageKind::Abandoned, message: "gone" }),
    };
    assert_eq!(guard.abandon(&mut dispatcher), AbandonOutcome::Corrupt);
    assert!(new_abandonment_guard(&mut dispatcher, "late").is_err());
    assert!(!dispatcher.may_drop());
}

#[test]
fn waiting_too_long_has_an_error_for_each_wait() {
    let prefix = "video-interop release dispatcher unavailable: ";
    for (wait, text) in [
        (CloseWait::Clients, "timed out waiting for dispatcher clients to retire"),
        (CloseWait::Ownership, "timed out waiting for dispatcher close ownership"),
        (CloseWait::Worker, "timed out waiting for dispatcher worker to drain"),
    ] {
        assert_eq!(wait.timed_out().message(), format!("{prefix}{text}"));
    }
}

#[test]
fn guards_report_a_lost_holder_once() {
    let mut dispatcher = started();
    let mut guard = new_abandonment_guard(&mut dispatcher, "gone").unwrap();
    let mut late = new_abandonment_guard(&mut dispatcher, "late").unwrap();
    assert!(dispatcher.clients_drained());
    assert_eq!(guard.abandon(&mut dispatcher), AbandonOutcome::Queued);
    assert_eq!(guard.abandon(&mut dispatcher), AbandonOutcome::Spent);
    assert_eq!(
        dispatcher.take_command(),
        Some(WorkerCommand::Dispatch(DispatchCommand {
            kind: MessageKind::Abandoned,
            message: "gone"
        }))
    );
    dispatcher.begin_close().unwrap();
    assert_eq!(late.abandon(&mut dispatcher), AbandonOutcome::Inert);
    dispatcher.enqueue_stop_once().unwrap();
    dispatcher.enqueue_stop_once().unwrap();
    assert_eq!(dispatcher.queue.len(), 1);
    assert_eq!(dispatcher.join_step(false).unwrap(), JoinStep::Wait);
}

#[test]
fn claimed_leases_are_released_once() {
    let mut dispatcher = started();
    let prepared = prepare(borrowed(4, lease()), &mut dispatcher).unwrap();
    assert_eq!(prepared.frame().coded_width, 64);
    assert_eq!(dispatcher.active_clients, 1);
    let (frame, lease) = prepared.claim().into_parts();
    assert_eq!(frame.coded_height, 16);
    let mut lease = lease.unwrap();
    assert_eq!(lease.dispatch_release(&mut dispatcher), Some(7));
    assert_eq!(lease.dispatch_release(&mut dispatcher), None);
    assert_eq!(lease.retire(&mut dispatcher), None);
    assert_eq!(dispatcher.active_clients, 0);
    assert_eq!(dispatcher.take_command(), Some(release("first")));
    assert_eq!(dispatcher.take_command(), None);
}

#[test]
fn retiring_a_claimed_lease_releases_it() {
    let mut dispatcher = started();
    let claimed = prepare(borrowed(4, lease()), &mut dispatcher).unwrap().claim();
    let (_, lease) = claimed.into_parts();
    dispatcher.begin_close().unwrap();
    assert_eq!(lease.unwrap().retire(&mut dispatcher), Some(7));
    assert_eq!(dispatcher.take_command(), Some(release("first")));
}

#[test]
fn frames_that_are_not_claimed_send_nothing() {
    let mut dispatcher = started();
    let prepared = prepare(borrowed(4, lease()), &mut dispatcher).unwrap();
    let frame = prepared.discard(&mut dispatcher);
    assert_eq!(frame.coded_width, 64);
    assert_eq!(dispatcher.active_clients, 0);
    assert_eq!(dispatcher.take_command(), None);

    let error = prepare(borrowed(99, lease()), &mut dispatcher).err().unwrap();
    assert!(matches!(
        error,
        PrepareError::Duplicate(DuplicateError::DuplicateObjectFd { index: 0, fd: 99, .. })
    ));
    assert_eq!(dispatcher.active_clients, 0);
    assert_eq!(dispatcher.take_command(), None);
}

#[test]
fn leases_go_with_borrowed_storage_alone() {
    let mut dispatcher = started();
    let error = prepare(borrowed(4, None), &mut dispatcher).err().unwrap();
    assert!(matches!(error, PrepareError::MissingLease));
    assert_eq!(error.message(""), "borrowed video frame storage requires a lease");

    let binary = |lease| Frame {
        coded_width: 1,
        coded_height: 1,
        visible_rect: Rect { x: 0, y: 0, width: 1, height: 1 },
        storage: Storage::Binary(BinaryStorage {
            data: vec![1],
            planes: vec![BinaryPlane { offset: 0, stride: 1 }],
        }),
        acquire_sync: AcquireSync::Implicit,
        lease,
    };
    let error = prepare(binary(lease()), &mut dispatcher).err().unwrap();
    assert!(matches!(error, PrepareError::UnexpectedLease));
    assert_eq!(error.message(""), "owned binary video frame storage must not carry a lease");

    dispatcher.begin_close().unwrap();
    let prepared = prepare(binary(None), &mut dispatcher).unwrap();
    assert!(prepared.lease.is_none());
    assert_eq!(dispatcher.active_clients, 0);
    let error = prepare(borrowed(4, lease()), &mut dispatcher).err().unwrap();
    assert!(matches!(error, PrepareError::Dispatcher(_)));
    assert_eq!(
        error.message(""),
        "video-interop release dispatcher unavailable: dispatcher is Stopping"
    );
}

#[test]
fn modifiers_are_read_as_they_were_written() {
    for modifier in [Modifier::Implicit, Modifier::Explicit(0), Modifier::Explicit(u64::MAX)] {
        assert_eq!(decode_modifier(&encode_modifier(modifier)), Some(modifier));
    }
    for policy in [
        ModifierPolicy::PerBuffer,
        ModifierPolicy::Implicit,
        ModifierPolicy::Explicit(3),
    ] {
        assert_eq!(decode_modifier_policy(&encode_modifier_policy(policy)), Some(policy));
    }
    assert_eq!(
        encode_modifier_policy(ModifierPolicy::PerBuffer),
        SchemaValue::Atom("per_buffer".to_string())
    );
    let other = SchemaValue::Atom("per_buffer".to_string());
    assert_eq!(decode_modifier(&other), None);
    assert_eq!(decode_modifier_policy(&SchemaValue::Atom("linear".to_string())), None);
    assert!(admits_another_entry(3));
    assert!(!admits_another_entry(4));
}

#[test]
fn closing_looks_again_until_its_time_is_over() {
    assert_eq!(retry_delay(Some(5_000_000)), Some(1_000_000));
    assert_eq!(retry_delay(Some(1_000_000)), Some(1_000_000));
    assert_eq!(retry_delay(Some(999_999)), Some(999_999));
    assert_eq!(retry_delay(Some(0)), None);
    assert_eq!(retry_delay(None), None);
}
