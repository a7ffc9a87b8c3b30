//! What holds of native fences, whatever the display offers.

use vstd::prelude::*;

use crate::egl::{
    has_extension, poll_sync_file, poll_timeout, ClientWaitCall, ClientWaitOutcome, CreateCall,
    DestroyError, FenceDuplicateError, NativeFenceCapabilities, NativeFenceFunctionLoader,
    NativeFenceFunctions, ServerWaitCall, ServerWaitOutcome, SyncAbi, SyncCall, SyncCreateError,
    SyncFilePollOutcome, SyncHandle,
};

verus! {

/// The characters that stand between the names of an extension string.
pub open spec fn is_blank(c: char) -> bool {
    c == ' ' || c == '\t' || c == '\n' || c == '\x0c' || c == '\r'
}

/// An extension is found if and only if the string is made of something that is empty or ends with a
/// blank, the name, and something that is empty or begins with a blank, and the name is not empty
/// and holds no blank.
pub proof fn extensions_are_whole_names(extensions: &str, wanted: &str, found: bool)
    requires
        call_ensures(has_extension, (extensions, wanted), found),
    ensures
        found <==> {
            &&& wanted@.len() > 0
            &&& forall|index: int|
                0 <= index < wanted@.len() ==> !is_blank(#[trigger] wanted@[index])
            &&& exists|before: Seq<char>, after: Seq<char>|
                #![trigger before + wanted@ + after]
                extensions@ == before + wanted@ + after && (before.len() == 0 || is_blank(
                    before.last(),
                )) && (after.len() == 0 || is_blank(after[0]))
        },
{
    if found {
        let start = choose|start: int| #[trigger]
            crate::egl::token_at(extensions@, wanted@, start);
        let end = start + wanted@.len();
        let before = extensions@.subrange(0, start);
        let after = extensions@.subrange(end, extensions@.len() as int);
        assert(extensions@ =~= before + wanted@ + after);
        assert forall|index: int| 0 <= index < wanted@.len() implies !is_blank(
            #[trigger] wanted@[index],
        ) by {}
    }
    if exists|before: Seq<char>, after: Seq<char>|
        #![trigger before + wanted@ + after]
        extensions@ == before + wanted@ + after && (before.len() == 0 || is_blank(before.last()))
            && (after.len() == 0 || is_blank(after[0])) {
        let (before, after) = choose|before: Seq<char>, after: Seq<char>|
            #![trigger before + wanted@ + after]
            extensions@ == before + wanted@ + after && (before.len() == 0 || is_blank(
                before.last(),
            )) && (after.len() == 0 || is_blank(after[0]));
        let start = before.len() as int;
        let end = start + wanted@.len();
        assert(extensions@.subrange(start, end) =~= wanted@);
        assert(start == 0 || extensions@[start - 1] == before.last());
        assert(end == extensions@.len() || extensions@[end] == after[0]);
        assert(crate::egl::token_at(extensions@, wanted@, start));
        if wanted@.len() > 0 && forall|index: int|
            0 <= index < wanted@.len() ==> !is_blank(#[trigger] wanted@[index]) {
            assert forall|index: int| 0 <= index < wanted@.len() implies !crate::egl::is_separator(
                #[trigger] wanted@[index],
            ) by {
                assert(!is_blank(wanted@[index]));
            }
        }
    }
}

/// A consumer gets the extension's own family wherever the display has the fence extensions and the
/// family can make, destroy and wait for fences, and else the core family, where the display has the
/// native fences and EGL 1.5 and that family can.
pub proof fn consumers_get_one_complete_family(
    loader: NativeFenceFunctionLoader,
    egl_extensions: &str,
    gl_extensions: &str,
    egl_15_or_newer: bool,
    core_server_wait_supported: bool,
    selected: Option<NativeFenceFunctions>,
    native: bool,
    fences: bool,
)
    requires
        call_ensures(
            NativeFenceFunctionLoader::select_consumer,
            (
                &loader,
                egl_extensions,
                gl_extensions,
                egl_15_or_newer,
                core_server_wait_supported,
            ),
            selected,
        ),
        call_ensures(has_extension, (egl_extensions, "EGL_ANDROID_native_fence_sync"), native),
        call_ensures(has_extension, (egl_extensions, "EGL_KHR_fence_sync"), fences),
    ensures
        ({
            let khr = native && fences && loader.khr.create is Some && loader.khr.destroy is Some
                && loader.khr.client_wait is Some;
            let core = native && egl_15_or_newer && loader.core.create is Some
                && loader.core.destroy is Some && loader.core.client_wait is Some;
            &&& selected is Some <==> khr || core
            &&& selected matches Some(functions) ==> {
                &&& functions.abi is Khr <==> khr
                &&& functions.get_error == loader.get_error
                &&& functions.capabilities.consumer_import
                &&& !functions.capabilities.producer_export
                &&& khr ==> functions.functions.create == loader.khr.create
                    && functions.functions.destroy == loader.khr.destroy
                    && functions.functions.client_wait == loader.khr.client_wait
                &&& !khr ==> functions.functions.create == loader.core.create
                    && functions.functions.destroy == loader.core.destroy
                    && functions.functions.client_wait == loader.core.client_wait
                &&& functions.duplicate == if khr {
                    loader.duplicate
                } else {
                    None
                }
            }
        }),
{
}

/// A consumer may let the GPU wait, with the extension's own family, if and only if the entry point
/// is there, `EGL_KHR_wait_sync` is among the extensions of the display and `GL_OES_EGL_sync` among
/// those of GL; with the core family, if and only if the entry point is there and the client API
/// supports it. Where it may not, it has no entry point to do so with.
pub proof fn consumers_wait_on_the_server_only_where_both_sides_can(
    loader: NativeFenceFunctionLoader,
    egl_extensions: &str,
    gl_extensions: &str,
    egl_15_or_newer: bool,
    core_server_wait_supported: bool,
    selected: NativeFenceFunctions,
    waits: bool,
    gl_waits: bool,
)
    requires
        call_ensures(
            NativeFenceFunctionLoader::select_consumer,
            (
                &loader,
                egl_extensions,
                gl_extensions,
                egl_15_or_newer,
                core_server_wait_supported,
            ),
            Some(selected),
        ),
        call_ensures(has_extension, (egl_extensions, "EGL_KHR_wait_sync"), waits),
        call_ensures(has_extension, (gl_extensions, "GL_OES_EGL_sync"), gl_waits),
    ensures
        match selected.abi {
            SyncAbi::Khr => {
                &&& selected.capabilities.server_wait <==> waits && gl_waits
                    && loader.khr.server_wait is Some
                &&& selected.capabilities.server_wait ==> selected.functions.server_wait
                    == loader.khr.server_wait
            },
            SyncAbi::Core15 => {
                &&& selected.capabilities.server_wait <==> core_server_wait_supported
                    && loader.core.server_wait is Some
                &&& selected.capabilities.server_wait ==> selected.functions.server_wait
                    == loader.core.server_wait
            },
        },
        selected.capabilities.server_wait <==> selected.functions.server_wait is Some,
{
}

/// A producer gets the extension's own family, to export with and for nothing else, if and only if
/// the display has both fence extensions and the family can make, destroy and duplicate fences.
pub proof fn producers_export_through_the_extension(
    loader: NativeFenceFunctionLoader,
    egl_extensions: &str,
    selected: Option<NativeFenceFunctions>,
    native: bool,
    fences: bool,
)
    requires
        call_ensures(
            NativeFenceFunctionLoader::select_producer,
            (&loader, egl_extensions),
            selected,
        ),
        call_ensures(has_extension, (egl_extensions, "EGL_ANDROID_native_fence_sync"), native),
        call_ensures(has_extension, (egl_extensions, "EGL_KHR_fence_sync"), fences),
    ensures
        selected is Some <==> native && fences && loader.khr.create is Some
            && loader.khr.destroy is Some && loader.duplicate is Some,
        selected matches Some(functions) ==> {
            &&& functions.abi is Khr
            &&& functions.functions == loader.khr
            &&& functions.duplicate == loader.duplicate
            &&& functions.get_error == loader.get_error
            &&& functions.capabilities.producer_export
            &&& !functions.capabilities.consumer_import
            &&& !functions.capabilities.server_wait
        },
{
}

/// The entry point is the one at the address; there is none at zero.
pub open spec fn stands_at(found: Option<usize>, address: usize) -> bool {
    &&& found is None <==> address == 0
    &&& found matches Some(entry) ==> entry == address
}

/// Every entry point is the one that was loaded under its own name, and none is there where the
/// address is zero.
pub proof fn entry_points_are_loaded_under_their_names<F: Fn(&'static str) -> usize>(
    load: F,
    loader: NativeFenceFunctionLoader,
    address: spec_fn(Seq<char>) -> usize,
)
    requires
        call_ensures(NativeFenceFunctions::load_with::<F>, (load,), loader),
        forall|name: &'static str, found: usize| #[trigger]
            call_ensures(load, (name,), found) ==> found == address(name@),
    ensures
        stands_at(loader.khr.create, address("eglCreateSyncKHR"@)),
        stands_at(loader.khr.destroy, address("eglDestroySyncKHR"@)),
        stands_at(loader.khr.client_wait, address("eglClientWaitSyncKHR"@)),
        stands_at(loader.khr.server_wait, address("eglWaitSyncKHR"@)),
        stands_at(loader.core.create, address("eglCreateSync"@)),
        stands_at(loader.core.destroy, address("eglDestroySync"@)),
        stands_at(loader.core.client_wait, address("eglClientWaitSync"@)),
        stands_at(loader.core.server_wait, address("eglWaitSync"@)),
        stands_at(loader.duplicate, address("eglDupNativeFenceFDANDROID"@)),
        stands_at(loader.get_error, address("eglGetError"@)),
{
}

/// A fence for export is asked for without a file descriptor, and one for import with exactly the
/// one that was handed in; both by the family's own entry point, on the given display.
pub proof fn fences_are_asked_for_as_meant(
    functions: NativeFenceFunctions,
    display: usize,
    fd: i32,
    exported: Result<CreateCall, SyncCreateError>,
    imported: Result<CreateCall, SyncCreateError>,
)
    requires
        call_ensures(NativeFenceFunctions::create_export_fence, (&functions, display), exported),
        call_ensures(NativeFenceFunctions::import_sync_file, (&functions, display, fd), imported),
    ensures
        exported is Ok <==> functions.capabilities.producer_export && functions.functions.create
            is Some,
        imported is Ok <==> functions.capabilities.consumer_import && functions.functions.create
            is Some,
        exported matches Err(error) ==> error is Unsupported,
        imported matches Err(error) ==> error is Unsupported,
        exported matches Ok(call) ==> {
            &&& call.attributes@ == seq![0x3038isize]
            &&& call.kind == 0x3144 && call.display == display && call.abi == functions.abi
            &&& functions.functions.create == Some(call.function)
        },
        imported matches Ok(call) ==> {
            &&& call.attributes@ == seq![0x3145isize, fd as isize, 0x3038isize]
            &&& call.kind == 0x3144 && call.display == display && call.abi == functions.abi
            &&& functions.functions.create == Some(call.function)
        },
{
}

/// Calls with a sync object go to the entry point that is meant, with the object and the display of
/// the handle, and only where the entry point is there and the selection may use it.
pub proof fn calls_name_the_sync_object(
    functions: NativeFenceFunctions,
    handle: SyncHandle,
    nanoseconds: u128,
    duplicated: Result<SyncCall, FenceDuplicateError>,
    destroyed: Option<SyncCall>,
    server: Result<ServerWaitCall, ServerWaitOutcome>,
    client: Result<ClientWaitCall, ClientWaitOutcome>,
)
    requires
        call_ensures(NativeFenceFunctions::duplicate_fence, (&functions, &handle), duplicated),
        call_ensures(NativeFenceFunctions::destroy, (&functions, &handle), destroyed),
        call_ensures(NativeFenceFunctions::wait_server, (&functions, &handle), server),
        call_ensures(
            NativeFenceFunctions::wait_client,
            (&functions, &handle, nanoseconds),
            client,
        ),
    ensures
        duplicated is Ok <==> functions.capabilities.producer_export && functions.duplicate is Some,
        duplicated matches Err(error) ==> error is Unsupported,
        duplicated matches Ok(call) ==> call.abi == functions.abi && call.display == handle.display
            && call.sync == handle.raw && functions.duplicate == Some(call.function),
        destroyed is Some <==> functions.functions.destroy is Some,
        destroyed matches Some(call) ==> call.abi == functions.abi && call.display
            == handle.display && call.sync == handle.raw && functions.functions.destroy == Some(
            call.function,
        ),
        server is Ok <==> functions.capabilities.server_wait && functions.functions.server_wait
            is Some,
        server matches Err(outcome) ==> outcome is Unsupported,
        server matches Ok(wait) ==> wait.flags == 0 && wait.call.abi == functions.abi
            && wait.call.display == handle.display && wait.call.sync == handle.raw
            && functions.functions.server_wait == Some(wait.call.function),
        client is Ok <==> functions.functions.client_wait is Some,
        client matches Err(outcome) ==> outcome is Unsupported,
        client matches Ok(wait) ==> wait.flags == 0 && wait.call.abi == functions.abi
            && wait.call.display == handle.display && wait.call.sync == handle.raw
            && functions.functions.client_wait == Some(wait.call.function),
{
}

/// A wait on the client is never longer than asked for and never without an end; it is shorter only
/// where the time does not fit, and then as long as can be.
pub proof fn client_waits_end(
    functions: NativeFenceFunctions,
    handle: SyncHandle,
    nanoseconds: u128,
    longer: u128,
    wait: ClientWaitCall,
    longer_wait: ClientWaitCall,
)
    requires
        call_ensures(
            NativeFenceFunctions::wait_client,
            (&functions, &handle, nanoseconds),
            Ok(wait),
        ),
        call_ensures(
            NativeFenceFunctions::wait_client,
            (&functions, &handle, longer),
            Ok(longer_wait),
        ),
        nanoseconds <= longer,
    ensures
        wait.timeout <= nanoseconds,
        wait.timeout <= longer_wait.timeout,
        wait.timeout < 0xffff_ffff_ffff_ffff,
        wait.timeout == nanoseconds || wait.timeout == 0xffff_ffff_ffff_fffe,
{
}

/// A poll is never longer than asked for and never without an end; it is shorter only where the time
/// does not fit, and then as long as can be.
pub proof fn polls_end(milliseconds: u128, longer: u128, timeout: i32, longer_timeout: i32)
    requires
        call_ensures(poll_timeout, (milliseconds,), timeout),
        call_ensures(poll_timeout, (longer,), longer_timeout),
        milliseconds <= longer,
    ensures
        0 <= timeout <= milliseconds,
        timeout <= longer_timeout,
        timeout == milliseconds || timeout == 0x7fff_ffff,
{
}

/// What the calls return is taken for what EGL says it means: no sync object, no file descriptor, a
/// false and a zero are failures, with the error that was read.
pub proof fn answers_of_egl_are_taken_as_meant(
    display: usize,
    raw: usize,
    fd: i32,
    handle: SyncHandle,
    gone: Option<u32>,
    value: i64,
    status: i32,
    egl_error: i32,
    created: Result<SyncHandle, SyncCreateError>,
    duplicated: Result<i32, FenceDuplicateError>,
    destroyed: Result<(), DestroyError>,
    server: ServerWaitOutcome,
    client: ClientWaitOutcome,
)
    requires
        call_ensures(NativeFenceFunctions::created, (display, raw, egl_error), created),
        call_ensures(NativeFenceFunctions::duplicated, (fd, egl_error), duplicated),
        call_ensures(NativeFenceFunctions::destroyed, (handle, gone, egl_error), destroyed),
        call_ensures(NativeFenceFunctions::server_waited, (value, egl_error), server),
        call_ensures(NativeFenceFunctions::client_waited, (status, egl_error), client),
    ensures
        created is Ok <==> raw != 0,
        created matches Ok(made) ==> made.raw == raw && made.display == display,
        created matches Err(error) ==> error == (SyncCreateError::Failed { egl_error }),
        duplicated is Ok <==> fd >= 0,
        duplicated matches Ok(owned) ==> owned == fd,
        duplicated matches Err(error) ==> error == (FenceDuplicateError::Failed { egl_error }),
        destroyed is Ok <==> (gone matches Some(returned) && returned != 0),
        destroyed matches Err(error) ==> error.handle == handle && error.egl_error == egl_error,
        server is Queued <==> value != 0,
        server is Queued || server == (ServerWaitOutcome::Failed { egl_error }),
        client is Satisfied <==> status == 0x30F6,
        client is Timeout <==> status == 0x30F5,
        client is Satisfied || client is Timeout || client == (ClientWaitOutcome::Failed {
            status,
            egl_error,
        }),
{
}

/// Where no error can be read, the error is EGL's success; else it is what was read.
pub proof fn errors_are_those_that_were_read(taken: Option<i32>, error: i32)
    requires
        call_ensures(NativeFenceFunctions::error_of, (taken,), error),
    ensures
        taken is None ==> error == 0x3000,
        taken matches Some(code) ==> error == code,
{
}

/// A duplicate counts only once it is closed on exec.
pub proof fn duplicates_are_closed_on_exec(
    fd: i32,
    set: Result<(), std::io::Error>,
    result: Result<i32, FenceDuplicateError>,
)
    requires
        call_ensures(NativeFenceFunctions::cloexec_set, (fd, set), result),
    ensures
        result is Ok <==> set is Ok,
        result matches Ok(kept) ==> kept == fd,
        result matches Err(error) ==> (error matches FenceDuplicateError::Cloexec(cause) && set
            == Err::<(), _>(cause)),
{
}

/// A sync file is taken for signaled only where it can be read and neither of the two fault events
/// came, for late only where nothing is ready, and a failed poll is handed on.
pub proof fn signals_are_seen_where_there_are_any(
    polled: Result<(i32, u16), std::io::Error>,
    result: Result<SyncFilePollOutcome, String>,
)
    requires
        call_ensures(poll_sync_file, (polled,), result),
    ensures
        result matches Ok(SyncFilePollOutcome::Error(error)) ==> polled == Err::<(i32, u16), _>(
            error,
        ),
        polled matches Err(error) ==> result == Ok::<_, String>(SyncFilePollOutcome::Error(error)),
        polled matches Ok((ready, events)) ==> {
            &&& (result matches Ok(SyncFilePollOutcome::Timeout)) <==> ready == 0
            &&& (result matches Ok(SyncFilePollOutcome::Signaled)) <==> ready != 0 && events & 0x1
                != 0 && events & 0x8 == 0 && events & 0x20 == 0
        },
{
    if let Ok((ready, events)) = polled {
        assert((events & (0x8u16 | 0x20u16) != 0) <==> (events & 0x8 != 0 || events & 0x20 != 0))
            by (bit_vector);
    }
}

/// What a handle and a selection tell about themselves is what they hold.
pub proof fn selections_tell_what_they_hold(
    handle: SyncHandle,
    display: usize,
    raw: usize,
    functions: NativeFenceFunctions,
    abi: SyncAbi,
    capabilities: NativeFenceCapabilities,
)
    requires
        call_ensures(SyncHandle::display, (&handle,), display),
        call_ensures(SyncHandle::as_raw, (&handle,), raw),
        call_ensures(NativeFenceFunctions::sync_abi, (&functions,), abi),
        call_ensures(NativeFenceFunctions::capabilities, (&functions,), capabilities),
    ensures
        display == handle.display && raw == handle.raw,
        abi == functions.abi && capabilities == functions.capabilities,
{
}

} // verus!
