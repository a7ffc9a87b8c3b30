use std::cell::Cell;
use std::io;
use std::time::Duration;

use video_interop::egl::{
    has_extension, poll_sync_file, poll_timeout, Attrib, ClientWaitOutcome, CreateCall,
    FenceDuplicateError, Function, NativeFenceFunctionLoader, NativeFenceFunctions,
    ServerWaitOutcome, SyncAbi, SyncCreateError, SyncFilePollOutcome, SyncHandle,
    CONDITION_SATISFIED, FALSE, FOREVER, NONE, POLLERR, POLLIN, POLLNVAL, SUCCESS,
    SYNC_NATIVE_FENCE_ANDROID, SYNC_NATIVE_FENCE_FD_ANDROID, TIMEOUT_EXPIRED,
};

const DISPLAY: usize = 0;

/// The addresses of a library that has every entry point.
fn address(name: &str) -> Function {
    match name {
        "eglCreateSyncKHR" => 0x10,
        "eglDestroySyncKHR" => 0x11,
        "eglClientWaitSyncKHR" => 0x12,
        "eglWaitSyncKHR" => 0x13,
        "eglCreateSync" => 0x20,
        "eglDestroySync" => 0x21,
        "eglClientWaitSync" => 0x22,
        "eglWaitSync" => 0x23,
        "eglDupNativeFenceFDANDROID" => 0x30,
        "eglGetError" => 0x31,
        _ => 0,
    }
}

fn loader_with(symbols: &[&str]) -> NativeFenceFunctionLoader {
    NativeFenceFunctions::load_with(|name| if symbols.contains(&name) { address(name) } else { 0 })
}

/// An implementation that answers as it is told.
struct Library {
    create_result: usize,
    create_fd: Cell<i32>,
    khr_server_result: i32,
    core_server_result: u32,
    khr_server_calls: Cell<usize>,
    core_server_calls: Cell<usize>,
    client_wait_result: Cell<i32>,
    client_wait_timeout: Cell<u64>,
}

impl Library {
    fn new() -> Self {
        Library {
            create_result: 1,
            create_fd: Cell::new(-2),
            khr_server_result: 1,
            core_server_result: 1,
            khr_server_calls: Cell::new(0),
            core_server_calls: Cell::new(0),
            client_wait_result: Cell::new(CONDITION_SATISFIED),
            client_wait_timeout: Cell::new(0),
        }
    }

    fn create(&self, call: CreateCall) -> Result<SyncHandle, SyncCreateError> {
        assert_eq!(call.kind, SYNC_NATIVE_FENCE_ANDROID);
        let expected = match call.abi {
            SyncAbi::Khr => "eglCreateSyncKHR",
            SyncAbi::Core15 => "eglCreateSync",
        };
        assert_eq!(call.function, address(expected));
        let fd = if call.attributes[0] == NONE as Attrib {
            assert_eq!(call.attributes.len(), 1);
            -1
        } else {
            assert_eq!(call.attributes[0], SYNC_NATIVE_FENCE_FD_ANDROID as Attrib);
            assert_eq!(call.attributes[2], NONE as Attrib);
            call.attributes[1] as i32
        };
        self.create_fd.set(fd);
        NativeFenceFunctions::created(call.display, self.create_result, SUCCESS)
    }

    fn export(&self, functions: &NativeFenceFunctions) -> SyncHandle {
        self.create(functions.create_export_fence(DISPLAY).expect("call")).expect("create")
    }

    fn wait_server(
        &self,
        functions: &NativeFenceFunctions,
        handle: &SyncHandle,
    ) -> ServerWaitOutcome {
        let planned = match functions.wait_server(handle) {
            Ok(planned) => planned,
            Err(outcome) => return outcome,
        };
        assert_eq!(planned.flags, 0);
        let call = planned.call;
        assert_eq!((call.display, call.sync), (handle.display(), handle.as_raw()));
        let value = match call.abi {
            SyncAbi::Khr => {
                assert_eq!(call.function, address("eglWaitSyncKHR"));
                self.khr_server_calls.set(self.khr_server_calls.get() + 1);
                i64::from(self.khr_server_result)
            }
            SyncAbi::Core15 => {
                assert_eq!(call.function, address("eglWaitSync"));
                self.core_server_calls.set(self.core_server_calls.get() + 1);
                i64::from(self.core_server_result)
            }
        };
        NativeFenceFunctions::server_waited(value, SUCCESS)
    }

    fn wait_client(
        &self,
        functions: &NativeFenceFunctions,
        handle: &SyncHandle,
        timeout: Duration,
    ) -> ClientWaitOutcome {
        match functions.wait_client(handle, timeout.as_nanos()) {
            Ok(call) => {
                assert_eq!(call.flags, 0);
                self.client_wait_timeout.set(call.timeout);
                NativeFenceFunctions::client_waited(self.client_wait_result.get(), SUCCESS)
            }
            Err(outcome) => outcome,
        }
    }

    fn destroy(&self, functions: &NativeFenceFunctions, handle: SyncHandle) {
        let call = functions.destroy(&handle).expect("destroy");
        assert_eq!(call.sync, handle.as_raw());
        NativeFenceFunctions::destroyed(handle, Some(1), SUCCESS).expect("destroy");
    }
}

fn khr_consumer() -> NativeFenceFunctions {
    loader_with(&[
        "eglCreateSyncKHR",
        "eglDestroySyncKHR",
        "eglClientWaitSyncKHR",
        "eglWaitSyncKHR",
    ])
    .select_consumer(
        "EGL_ANDROID_native_fence_sync EGL_KHR_fence_sync EGL_KHR_wait_sync",
        "GL_OES_EGL_sync",
        false,
        false,
    )
    .expect("KHR consumer")
}

fn khr_producer() -> NativeFenceFunctions {
    loader_with(&["eglCreateSyncKHR", "eglDestroySyncKHR", "eglDupNativeFenceFDANDROID"])
        .select_producer("EGL_ANDROID_native_fence_sync EGL_KHR_fence_sync")
        .expect("KHR producer")
}

fn all() -> NativeFenceFunctionLoader {
    loader_with(&[
        "eglCreateSyncKHR",
        "eglDestroySyncKHR",
        "eglClientWaitSyncKHR",
        "eglWaitSyncKHR",
        "eglCreateSync",
        "eglDestroySync",
        "eglClientWaitSync",
        "eglWaitSync",
    ])
}

#[test]
fn extension_matching_requires_complete_tokens() {
    let extensions = "EGL_KHR_fence_sync EGL_ANDROID_native_fence_sync";
    assert!(has_extension(extensions, "EGL_KHR_fence_sync"));
    assert!(!has_extension(extensions, "EGL_KHR_fence"));
    assert!(!has_extension(extensions, ""));
}

#[test]
fn extensions_are_separated_by_any_white_space() {
    assert!(has_extension("\tEGL_A\n\u{c}EGL_B\r", "EGL_B"));
    assert!(has_extension("EGL_B", "EGL_B"));
    assert!(!has_extension("EGL_A EGL_B", "EGL_A EGL_B"));
    assert!(!has_extension("EGL_ABC EGL_XEGL_B", "EGL_B"));
    assert!(!has_extension("", "EGL_B"));
}

#[test]
fn selection_rejects_missing_and_mixed_symbol_bundles() {
    let mixed = loader_with(&[
        "eglCreateSyncKHR",
        "eglDestroySync",
        "eglClientWaitSync",
        "eglWaitSync",
    ]);
    assert!(mixed
        .select_consumer(
            "EGL_ANDROID_native_fence_sync EGL_KHR_fence_sync",
            "GL_OES_EGL_sync",
            false,
            false,
        )
        .is_none());

    let core_missing_client = loader_with(&["eglCreateSync", "eglDestroySync", "eglWaitSync"]);
    assert!(core_missing_client
        .select_consumer("EGL_ANDROID_native_fence_sync", "", true, true)
        .is_none());

    let incomplete_khr_complete_core = loader_with(&[
        "eglCreateSyncKHR",
        "eglCreateSync",
        "eglDestroySync",
        "eglClientWaitSync",
        "eglWaitSync",
    ]);
    let selected = incomplete_khr_complete_core
        .select_consumer(
            "EGL_ANDROID_native_fence_sync EGL_KHR_fence_sync EGL_KHR_wait_sync",
            "GL_OES_EGL_sync",
            true,
            true,
        )
        .expect("complete core fallback");
    assert_eq!(selected.sync_abi(), SyncAbi::Core15);
}

#[test]
fn selection_obeys_extension_and_version_gates() {
    let all = all();
    let khr = all
        .select_consumer(
            "EGL_ANDROID_native_fence_sync EGL_KHR_fence_sync EGL_KHR_wait_sync",
            "GL_OES_EGL_sync",
            true,
            true,
        )
        .expect("KHR preferred");
    assert_eq!(khr.sync_abi(), SyncAbi::Khr);
    assert!(khr.capabilities().server_wait);

    let khr_without_server_extensions = all
        .select_consumer("EGL_ANDROID_native_fence_sync EGL_KHR_fence_sync", "", true, true)
        .expect("KHR base bundle remains selected");
    assert_eq!(khr_without_server_extensions.sync_abi(), SyncAbi::Khr);
    assert!(!khr_without_server_extensions.capabilities().server_wait);
    let handle = NativeFenceFunctions::created(DISPLAY, 1, SUCCESS).expect("create");
    let library = Library::new();
    assert_eq!(
        library.wait_server(&khr_without_server_extensions, &handle),
        ServerWaitOutcome::Unsupported
    );
    library.destroy(&khr_without_server_extensions, handle);

    let core_without_client_support = all
        .select_consumer("EGL_ANDROID_native_fence_sync", "", true, false)
        .expect("core 1.5 client-wait fallback");
    assert_eq!(core_without_client_support.sync_abi(), SyncAbi::Core15);
    assert!(!core_without_client_support.capabilities().server_wait);

    let core = all
        .select_consumer("EGL_ANDROID_native_fence_sync", "", true, true)
        .expect("core 1.5");
    assert_eq!(core.sync_abi(), SyncAbi::Core15);
    assert!(core.capabilities().server_wait);
    assert!(all.select_consumer("EGL_ANDROID_native_fence_sync", "", false, false).is_none());
    assert!(all
        .select_consumer("EGL_KHR_fence_sync", "GL_OES_EGL_sync", true, true)
        .is_none());
}

#[test]
fn server_wait_never_crosses_the_selected_abi() {
    let mut library = Library::new();
    library.khr_server_result = 7;
    library.core_server_result = 1;
    let loader = all();

    let khr = loader
        .select_consumer(
            "EGL_ANDROID_native_fence_sync EGL_KHR_fence_sync EGL_KHR_wait_sync",
            "GL_OES_EGL_sync",
            true,
            true,
        )
        .expect("KHR");
    let handle = NativeFenceFunctions::created(DISPLAY, 1, SUCCESS).expect("create");
    assert_eq!(library.wait_server(&khr, &handle), ServerWaitOutcome::Queued);
    assert_eq!(library.khr_server_calls.get(), 1);
    assert_eq!(library.core_server_calls.get(), 0);
    library.destroy(&khr, handle);

    let core = loader
        .select_consumer("EGL_ANDROID_native_fence_sync", "", true, true)
        .expect("core");
    let handle = NativeFenceFunctions::created(DISPLAY, 1, SUCCESS).expect("create");
    assert_eq!(library.wait_server(&core, &handle), ServerWaitOutcome::Queued);
    assert_eq!(library.khr_server_calls.get(), 1);
    assert_eq!(library.core_server_calls.get(), 1);
    library.destroy(&core, handle);
}

#[test]
fn server_wait_uses_each_abis_false_return_semantics() {
    let loader = all();
    let mut library = Library::new();
    library.khr_server_result = FALSE as i32;
    let khr = loader
        .select_consumer(
            "EGL_ANDROID_native_fence_sync EGL_KHR_fence_sync EGL_KHR_wait_sync",
            "GL_OES_EGL_sync",
            true,
            true,
        )
        .expect("KHR");
    let handle = NativeFenceFunctions::created(DISPLAY, 1, SUCCESS).expect("create");
    assert!(matches!(library.wait_server(&khr, &handle), ServerWaitOutcome::Failed { .. }));
    library.destroy(&khr, handle);

    library.core_server_result = FALSE;
    let core = loader
        .select_consumer("EGL_ANDROID_native_fence_sync", "", true, true)
        .expect("core");
    let handle = NativeFenceFunctions::created(DISPLAY, 1, SUCCESS).expect("create");
    assert!(matches!(library.wait_server(&core, &handle), ServerWaitOutcome::Failed { .. }));
    library.destroy(&core, handle);
}

#[test]
fn producer_requires_complete_khr_android_path() {
    let extensions = "EGL_ANDROID_native_fence_sync EGL_KHR_fence_sync";
    let core_only = loader_with(&["eglCreateSync", "eglDestroySync", "eglDupNativeFenceFDANDROID"]);
    assert!(core_only.select_producer(extensions).is_none());
    let no_duplicate = loader_with(&["eglCreateSyncKHR", "eglDestroySyncKHR"]);
    assert!(no_duplicate.select_producer(extensions).is_none());
    assert!(loader_with(&[
        "eglCreateSyncKHR",
        "eglDestroySyncKHR",
        "eglDupNativeFenceFDANDROID",
    ])
    .select_producer("EGL_ANDROID_native_fence_sync")
    .is_none());
    let producer = khr_producer();
    assert!(producer.capabilities().producer_export);
    let library = Library::new();
    let handle = library.export(&producer);
    assert_eq!(library.wait_server(&producer, &handle), ServerWaitOutcome::Unsupported);
    library.destroy(&producer, handle);
}

#[test]
fn import_transfers_fd_before_successful_create() {
    let library = Library::new();
    let functions = khr_consumer();
    let raw = 17;
    let call = functions.import_sync_file(DISPLAY, raw).expect("call");
    let handle = library.create(call).expect("create");
    assert_eq!(library.create_fd.get(), raw);
    library.destroy(&functions, handle);
}

#[test]
fn import_does_not_reclaim_fd_when_create_fails() {
    let mut library = Library::new();
    library.create_result = 0;
    let raw = 17;
    let call = khr_consumer().import_sync_file(DISPLAY, raw).expect("call");
    let error = library.create(call).expect_err("create should fail");
    assert!(matches!(error, SyncCreateError::Failed { .. }));
    assert_eq!(library.create_fd.get(), raw);
    assert_eq!(error.message(), "EGL native-fence creation failed (EGL error 0x3000)");
}

#[test]
fn destroy_failure_returns_handle_for_retry() {
    let functions = khr_producer();
    let library = Library::new();
    let handle = library.export(&functions);
    assert!(functions.destroy(&handle).is_some());
    let error = NativeFenceFunctions::destroyed(handle, Some(0), 0x3008)
        .expect_err("destroy should fail");
    assert_eq!(error.message(), "EGL sync destruction failed (EGL error 0x3008)");
    let retry = khr_producer();
    library.destroy(&retry, error.handle);
}

#[test]
fn wait_outcomes_are_typed() {
    let library = Library::new();
    let functions = khr_consumer();
    let handle = NativeFenceFunctions::created(DISPLAY, 1, SUCCESS).expect("create");

    assert_eq!(library.wait_server(&functions, &handle), ServerWaitOutcome::Queued);
    library.client_wait_result.set(TIMEOUT_EXPIRED);
    assert_eq!(
        library.wait_client(&functions, &handle, Duration::from_millis(1)),
        ClientWaitOutcome::Timeout
    );
    library.client_wait_result.set(CONDITION_SATISFIED);
    assert_eq!(
        library.wait_client(&functions, &handle, Duration::from_millis(1)),
        ClientWaitOutcome::Satisfied
    );
    assert_eq!(library.client_wait_timeout.get(), 1_000_000);
    assert_eq!(
        library.wait_client(&functions, &handle, Duration::MAX),
        ClientWaitOutcome::Satisfied
    );
    assert_eq!(library.client_wait_timeout.get(), FOREVER - 1);
    library.client_wait_result.set(0);
    assert_eq!(
        library.wait_client(&functions, &handle, Duration::ZERO),
        ClientWaitOutcome::Failed { status: 0, egl_error: SUCCESS }
    );
    assert_eq!(
        library.wait_client(&khr_producer(), &handle, Duration::ZERO),
        ClientWaitOutcome::Unsupported
    );
    library.destroy(&functions, handle);
}

#[test]
fn duplicated_native_fence_is_cloexec() {
    let functions = khr_producer();
    let library = Library::new();
    let handle = library.export(&functions);
    let call = functions.duplicate_fence(&handle).expect("duplicate");
    assert_eq!(call.function, address("eglDupNativeFenceFDANDROID"));
    assert_eq!(call.sync, handle.as_raw());
    assert_eq!(call.display, handle.display());
    let fd = NativeFenceFunctions::duplicated(21, SUCCESS).expect("duplicate");
    assert_eq!(NativeFenceFunctions::cloexec_set(fd, Ok(())).expect("close on exec"), 21);
    let error = NativeFenceFunctions::cloexec_set(fd, Err(io::Error::other("refused")))
        .expect_err("without close on exec");
    assert!(matches!(error, FenceDuplicateError::Cloexec(_)));
    let error = NativeFenceFunctions::duplicated(-1, 0x3008).expect_err("no fence");
    assert!(matches!(error, FenceDuplicateError::Failed { egl_error: 0x3008 }));
    assert!(matches!(
        khr_consumer().duplicate_fence(&handle),
        Err(FenceDuplicateError::Unsupported)
    ));
    library.destroy(&functions, handle);
}

#[test]
fn poll_is_finite_and_observes_signal() {
    assert_eq!(poll_timeout(1), 1);
    assert_eq!(poll_timeout(0), 0);
    assert_eq!(poll_timeout(Duration::MAX.as_millis()), i32::MAX);
    assert!(matches!(poll_sync_file(Ok((0, 0))), Ok(SyncFilePollOutcome::Timeout)));
    assert!(matches!(poll_sync_file(Ok((1, POLLIN))), Ok(SyncFilePollOutcome::Signaled)));
    assert!(matches!(
        poll_sync_file(Err(io::Error::other("interrupted"))),
        Ok(SyncFilePollOutcome::Error(_))
    ));
    assert!(poll_sync_file(Ok((1, POLLERR))).is_err());
    assert!(poll_sync_file(Ok((1, POLLIN | POLLNVAL))).is_err());
}

#[test]
fn unsupported_calls_are_refused() {
    let functions = NativeFenceFunctionLoader {
        khr: loader_with(&[]).khr,
        core: loader_with(&[]).core,
        duplicate: None,
        get_error: None,
    };
    assert!(functions.select_producer("EGL_ANDROID_native_fence_sync").is_none());
    let consumer = khr_consumer();
    assert!(matches!(consumer.create_export_fence(DISPLAY), Err(SyncCreateError::Unsupported)));
    assert!(matches!(
        khr_producer().import_sync_file(DISPLAY, 3),
        Err(SyncCreateError::Unsupported)
    ));
    assert_eq!(NativeFenceFunctions::error_of(None), SUCCESS);
    assert_eq!(NativeFenceFunctions::error_of(Some(0x3008)), 0x3008);
}
