//! EGL native-fence synchronization: which entry points are used, what they are called with, and
//! what their results mean. The entry points are addresses that somebody else loads and calls.

use vstd::prelude::*;

use crate::text::{bits_from_i32, bits_of_i32, hexadecimal, Message};

verus! {

/// The address of a display.
pub type Display = usize;

/// The address of a sync object.
pub type Sync = usize;

/// The address of an entry point.
pub type Function = usize;

pub type Boolean = u32;

pub type Enum = u32;

pub type Int = i32;

pub type Attrib = isize;

pub type Time = u64;

pub const FALSE: Boolean = 0;

pub const NONE: Int = 0x3038;

pub const SUCCESS: Int = 0x3000;

pub const SYNC_NATIVE_FENCE_ANDROID: Enum = 0x3144;

pub const SYNC_NATIVE_FENCE_FD_ANDROID: Int = 0x3145;

pub const NO_NATIVE_FENCE_FD_ANDROID: Int = -1;

pub const CONDITION_SATISFIED: Int = 0x30F6;

pub const TIMEOUT_EXPIRED: Int = 0x30F5;

pub const FOREVER: Time = 0xffff_ffff_ffff_ffff;

/// Which family of entry points is used.
#[derive(Clone, Copy, Debug, PartialEq, Eq, Structural)]
pub enum SyncAbi {
    Khr,
    Core15,
}

/// The character separates the names in an extension string.
pub open spec fn is_separator(c: char) -> bool {
    c == ' ' || c == '\t' || c == '\n' || c == '\x0c' || c == '\r'
}

/// `wanted` stands in `text` at `start` as a whole token.
pub open spec fn token_at(text: Seq<char>, wanted: Seq<char>, start: int) -> bool {
    let end = start + wanted.len();
    &&& 0 <= start
    &&& end <= text.len()
    &&& text.subrange(start, end) == wanted
    &&& start == 0 || is_separator(text[start - 1])
    &&& end == text.len() || is_separator(text[end])
}

/// `wanted` is one of the tokens of `text`.
pub open spec fn is_token(text: Seq<char>, wanted: Seq<char>) -> bool {
    &&& wanted.len() > 0
    &&& forall|index: int|
        0 <= index < wanted.len() ==> !is_separator(#[trigger] wanted[index])
    &&& exists|start: int| #[trigger] token_at(text, wanted, start)
}

fn separates(c: char) -> (separates: bool)
    ensures
        separates == is_separator(c),
{
    c == ' ' || c == '\t' || c == '\n' || c == '\x0c' || c == '\r'
}

fn characters(text: &str) -> (characters: Vec<char>)
    ensures
        characters@ == text@,
{
    let mut characters: Vec<char> = Vec::new();
    for c in iter: text.chars()
        invariant
            iter.seq() == text@,
            characters@ == text@.take(iter.index()),
    {
        characters.push(c);
        assert(characters@ =~= text@.take(iter.index() + 1));
    }
    assert(characters@ =~= text@);
    characters
}

fn stands_at(text: &Vec<char>, wanted: &Vec<char>, start: usize) -> (stands: bool)
    requires
        start + wanted.len() <= text.len(),
    ensures
        stands == token_at(text@, wanted@, start as int),
{
    let end: usize = start + wanted.len();
    if start > 0 && !separates(text[start - 1]) {
        return false;
    }
    if end < text.len() && !separates(text[end]) {
        return false;
    }
    let mut index: usize = 0;
    while index < wanted.len()
        invariant
            index <= wanted.len(),
            end == start + wanted.len(),
            end <= text.len(),
            forall|before: int| 0 <= before < index ==> text[start + before] == wanted[before],
        decreases wanted.len() - index,
    {
        if text[start + index] != wanted[index] {
            assert(text@.subrange(start as int, end as int)[index as int] != wanted@[index as int]);
            return false;
        }
        index += 1;
    }
    assert(text@.subrange(start as int, end as int) =~= wanted@);
    true
}

/// Tests that an extension is one of the tokens of an extension string. A prefix of a token is not
/// one.
pub fn has_extension(extensions: &str, wanted: &str) -> (found: bool)
    ensures
        found == is_token(extensions@, wanted@),
{
    let text = characters(extensions);
    let name = characters(wanted);
    if name.len() == 0 || name.len() > text.len() {
        assert forall|start: int| name.len() > text.len() implies !(#[trigger] token_at(
            text@,
            name@,
            start,
        )) by {}
        return false;
    }
    let mut index: usize = 0;
    while index < name.len()
        invariant
            index <= name.len(),
            name@ == wanted@,
            forall|before: int|
                0 <= before < index ==> !is_separator(#[trigger] name@[before]),
        decreases name.len() - index,
    {
        if separates(name[index]) {
            assert(is_separator(name@[index as int]));
            return false;
        }
        index += 1;
    }
    let last: usize = text.len() - name.len();
    let mut start: usize = 0;
    while start <= last
        invariant
            start <= last + 1,
            last == text.len() - name.len(),
            text@ == extensions@,
            name@ == wanted@,
            name.len() > 0,
            forall|at: int| 0 <= at < name.len() ==> !is_separator(#[trigger] name@[at]),
            forall|before: int| before < start ==> !(#[trigger] token_at(text@, name@, before)),
        decreases last + 1 - start,
    {
        if stands_at(&text, &name, start) {
            return true;
        }
        start += 1;
    }
    false
}

/// The entry points of one family. Zero stands for none: an address is never zero.
#[derive(Clone, Copy, Debug, PartialEq, Eq)]
pub struct FunctionBundle {
    pub create: Option<Function>,
    pub destroy: Option<Function>,
    pub client_wait: Option<Function>,
    pub server_wait: Option<Function>,
}

impl FunctionBundle {
    /// Fences can be made, destroyed and waited for.
    pub open spec fn is_complete(self) -> bool {
        self.create is Some && self.destroy is Some && self.client_wait is Some
    }

    /// The bundle with or without the wait on the server.
    pub open spec fn limited(self, server_wait: bool) -> FunctionBundle {
        if server_wait {
            self
        } else {
            FunctionBundle { server_wait: None, ..self }
        }
    }
}

/// Entry points before one family is selected. The families stay apart.
#[derive(Clone, Copy, Debug, PartialEq, Eq)]
pub struct NativeFenceFunctionLoader {
    pub khr: FunctionBundle,
    pub core: FunctionBundle,
    pub duplicate: Option<Function>,
    pub get_error: Option<Function>,
}

/// What can be done with native fences.
#[derive(Clone, Copy, Debug, PartialEq, Eq, Structural)]
pub struct NativeFenceCapabilities {
    pub producer_export: bool,
    pub consumer_import: bool,
    pub server_wait: bool,
}

impl Default for NativeFenceCapabilities {
    fn default() -> (capabilities: NativeFenceCapabilities)
        ensures
            !capabilities.producer_export,
            !capabilities.consumer_import,
            !capabilities.server_wait,
    {
        NativeFenceCapabilities { producer_export: false, consumer_import: false, server_wait: false }
    }
}

/// Entry points of one family, with what they can be used for.
#[derive(Clone, Copy, Debug, PartialEq, Eq)]
pub struct NativeFenceFunctions {
    pub abi: SyncAbi,
    pub functions: FunctionBundle,
    pub duplicate: Option<Function>,
    pub get_error: Option<Function>,
    pub capabilities: NativeFenceCapabilities,
}

/// Why a fence could not be made.
#[derive(Clone, Copy, Debug, PartialEq, Eq, Structural)]
pub enum SyncCreateError {
    Unsupported,
    Failed { egl_error: Int },
}

impl SyncCreateError {
    /// The diagnostic that `message` returns.
    pub open spec fn text(self) -> Seq<char> {
        match self {
            SyncCreateError::Unsupported => "EGL native-fence creation is unsupported"@,
            SyncCreateError::Failed { egl_error } =>
                "EGL native-fence creation failed (EGL error 0x"@ + hexadecimal(
                bits_of_i32(egl_error),
            ) + ")"@,
        }
    }

    /// The diagnostic.
    pub fn message(&self) -> (message: String)
        ensures
            message@ == self.text(),
    {
        match self {
            SyncCreateError::Unsupported => "EGL native-fence creation is unsupported".to_owned(),
            SyncCreateError::Failed { egl_error } => Message::new(
                "EGL native-fence creation failed (EGL error 0x",
            ).hex(bits_from_i32(*egl_error) as u64).text(")").done(),
        }
    }
}

/// Why a fence could not be duplicated.
#[derive(Debug)]
pub enum FenceDuplicateError {
    Unsupported,
    Failed { egl_error: Int },
    Cloexec(std::io::Error),
}

impl FenceDuplicateError {
    /// The diagnostic that `message` returns, given that of the system.
    pub open spec fn text(self, cause: Seq<char>) -> Seq<char> {
        match self {
            FenceDuplicateError::Unsupported => "EGL native-fence duplication is unsupported"@,
            FenceDuplicateError::Failed { egl_error } =>
                "EGL native-fence duplication failed (EGL error 0x"@ + hexadecimal(
                bits_of_i32(egl_error),
            ) + ")"@,
            FenceDuplicateError::Cloexec(_) =>
                "failed to set FD_CLOEXEC on duplicated native fence: "@ + cause,
        }
    }

    /// The diagnostic. `cause` is what the system says about its error.
    pub fn message(&self, cause: &str) -> (message: String)
        ensures
            message@ == self.text(cause@),
    {
        match self {
            FenceDuplicateError::Unsupported =>
                "EGL native-fence duplication is unsupported".to_owned(),
            FenceDuplicateError::Failed { egl_error } => Message::new(
                "EGL native-fence duplication failed (EGL error 0x",
            ).hex(bits_from_i32(*egl_error) as u64).text(")").done(),
            FenceDuplicateError::Cloexec(_) => Message::new(
                "failed to set FD_CLOEXEC on duplicated native fence: ",
            ).text(cause).done(),
        }
    }
}

/// A sync object. It has to be destroyed, or kept until its display goes.
#[must_use]
#[derive(Debug, PartialEq, Eq)]
pub struct SyncHandle {
    pub display: Display,
    pub raw: Sync,
}

impl SyncHandle {
    /// The display that the sync object belongs to.
    pub fn display(&self) -> (display: Display)
        ensures
            display == self.display,
    {
        self.display
    }

    /// The address of the sync object.
    pub fn as_raw(&self) -> (raw: Sync)
        ensures
            raw == self.raw,
    {
        self.raw
    }
}

/// A sync object that could not be destroyed. The handle is still good for another attempt.
#[derive(Debug)]
pub struct DestroyError {
    pub handle: SyncHandle,
    pub egl_error: Int,
}

impl DestroyError {
    /// The diagnostic.
    pub fn message(&self) -> (message: String)
        ensures
            message@ == "EGL sync destruction failed (EGL error 0x"@ + hexadecimal(
                bits_of_i32(self.egl_error),
            ) + ")"@,
    {
        Message::new("EGL sync destruction failed (EGL error 0x").hex(
            bits_from_i32(self.egl_error) as u64,
        ).text(")").done()
    }
}

/// What became of a wait on the server.
#[derive(Clone, Copy, Debug, PartialEq, Eq, Structural)]
pub enum ServerWaitOutcome {
    Queued,
    Unsupported,
    Failed { egl_error: Int },
}

/// What became of a wait on the client.
#[derive(Clone, Copy, Debug, PartialEq, Eq, Structural)]
pub enum ClientWaitOutcome {
    Satisfied,
    Timeout,
    Unsupported,
    Failed { status: Int, egl_error: Int },
}

/// What became of a poll.
#[derive(Debug)]
pub enum SyncFilePollOutcome {
    Signaled,
    Timeout,
    Error(std::io::Error),
}

/// A call that makes a fence. The attributes end with `NONE`.
#[derive(Debug, PartialEq, Eq)]
pub struct CreateCall {
    pub abi: SyncAbi,
    pub function: Function,
    pub display: Display,
    pub kind: Enum,
    pub attributes: Vec<Attrib>,
}

/// A call with a sync object.
#[derive(Clone, Copy, Debug, PartialEq, Eq, Structural)]
pub struct SyncCall {
    pub abi: SyncAbi,
    pub function: Function,
    pub display: Display,
    pub sync: Sync,
}

/// A wait on the server.
#[derive(Clone, Copy, Debug, PartialEq, Eq, Structural)]
pub struct ServerWaitCall {
    pub call: SyncCall,
    pub flags: Int,
}

/// A bounded wait on the client.
#[derive(Clone, Copy, Debug, PartialEq, Eq, Structural)]
pub struct ClientWaitCall {
    pub call: SyncCall,
    pub flags: Int,
    pub timeout: Time,
}

/// The entry point at an address, where there is one.
pub open spec fn entry_point(address: usize) -> Option<Function> {
    if address == 0 {
        None
    } else {
        Some(address)
    }
}

/// `found` is what `load` gave for `name`.
pub open spec fn is_loaded<F: Fn(&'static str) -> usize>(
    load: F,
    name: &'static str,
    found: Option<Function>,
) -> bool {
    exists|address: usize| #[trigger]
        call_ensures(load, (name,), address) && found == entry_point(address)
}

fn load_function<F: Fn(&'static str) -> usize>(load: &F, name: &'static str) -> (found: Option<
    Function,
>)
    requires
        call_requires(*load, (name,)),
    ensures
        is_loaded(*load, name, found),
{
    let address: usize = load(name);
    if address == 0 {
        None
    } else {
        Some(address)
    }
}

impl NativeFenceFunctions {
    /// Loads the entry points of both families. `load` gives the address of a symbol, or zero.
    /// Nothing is selected or mixed yet.
    pub fn load_with<F: Fn(&'static str) -> usize>(load: F) -> (loader: NativeFenceFunctionLoader)
        requires
            forall|name: &'static str| call_requires(load, (name,)),
        ensures
            is_loaded(load, "eglCreateSyncKHR", loader.khr.create),
            is_loaded(load, "eglDestroySyncKHR", loader.khr.destroy),
            is_loaded(load, "eglClientWaitSyncKHR", loader.khr.client_wait),
            is_loaded(load, "eglWaitSyncKHR", loader.khr.server_wait),
            is_loaded(load, "eglCreateSync", loader.core.create),
            is_loaded(load, "eglDestroySync", loader.core.destroy),
            is_loaded(load, "eglClientWaitSync", loader.core.client_wait),
            is_loaded(load, "eglWaitSync", loader.core.server_wait),
            is_loaded(load, "eglDupNativeFenceFDANDROID", loader.duplicate),
            is_loaded(load, "eglGetError", loader.get_error),
    {
        NativeFenceFunctionLoader {
            khr: FunctionBundle {
                create: load_function(&load, "eglCreateSyncKHR"),
                destroy: load_function(&load, "eglDestroySyncKHR"),
                client_wait: load_function(&load, "eglClientWaitSyncKHR"),
                server_wait: load_function(&load, "eglWaitSyncKHR"),
            },
            core: FunctionBundle {
                create: load_function(&load, "eglCreateSync"),
                destroy: load_function(&load, "eglDestroySync"),
                client_wait: load_function(&load, "eglClientWaitSync"),
                server_wait: load_function(&load, "eglWaitSync"),
            },
            duplicate: load_function(&load, "eglDupNativeFenceFDANDROID"),
            get_error: load_function(&load, "eglGetError"),
        }
    }

    /// The selected family.
    pub fn sync_abi(&self) -> (abi: SyncAbi)
        ensures
            abi == self.abi,
    {
        self.abi
    }

    /// What the entry points can be used for.
    pub fn capabilities(&self) -> (capabilities: NativeFenceCapabilities)
        ensures
            capabilities == self.capabilities,
    {
        self.capabilities
    }

    /// The call that makes a fence: one that can be exported, or one from a file descriptor.
    pub open spec fn create_verdict(self, display: Display, fence_fd: Option<Int>) -> Result<
        (SyncAbi, Function, Display, Seq<Attrib>),
        SyncCreateError,
    > {
        match self.functions.create {
            None => Err(SyncCreateError::Unsupported),
            Some(function) => Ok(
                (
                    self.abi,
                    function,
                    display,
                    match fence_fd {
                        Some(fd) => seq![
                            SYNC_NATIVE_FENCE_FD_ANDROID as isize,
                            fd as isize,
                            NONE as isize,
                        ],
                        None => seq![NONE as isize],
                    },
                ),
            ),
        }
    }

    /// The result is what `expected` says, and makes a native fence.
    pub open spec fn plans_create(
        result: Result<CreateCall, SyncCreateError>,
        expected: Result<(SyncAbi, Function, Display, Seq<Attrib>), SyncCreateError>,
    ) -> bool {
        match (result, expected) {
            (Ok(call), Ok((abi, function, display, attributes))) => {
                &&& call.abi == abi
                &&& call.function == function
                &&& call.display == display
                &&& call.kind == SYNC_NATIVE_FENCE_ANDROID
                &&& call.attributes@ == attributes
            },
            (Err(error), Err(wanted)) => error == wanted,
            _ => false,
        }
    }

    fn create(&self, display: Display, fence_fd: Option<Int>) -> (result: Result<
        CreateCall,
        SyncCreateError,
    >)
        ensures
            Self::plans_create(result, self.create_verdict(display, fence_fd)),
    {
        let function: usize = match self.functions.create {
            Some(function) => function,
            None => return Err(SyncCreateError::Unsupported),
        };
        let mut attributes: Vec<Attrib> = Vec::new();
        match fence_fd {
            Some(fd) => {
                attributes.push(SYNC_NATIVE_FENCE_FD_ANDROID as isize);
                attributes.push(fd as isize);
            },
            None => {},
        }
        attributes.push(NONE as isize);
        let ghost expected = match fence_fd {
            Some(fd) => seq![SYNC_NATIVE_FENCE_FD_ANDROID as isize, fd as isize, NONE as isize],
            None => seq![NONE as isize],
        };
        assert(attributes@ =~= expected);
        Ok(
            CreateCall {
                abi: self.abi,
                function,
                display,
                kind: SYNC_NATIVE_FENCE_ANDROID,
                attributes,
            },
        )
    }

    /// The call that makes a fence for export. No file descriptor is handed over.
    pub fn create_export_fence(&self, display: Display) -> (result: Result<
        CreateCall,
        SyncCreateError,
    >)
        ensures
            Self::plans_create(
                result,
                if self.capabilities.producer_export {
                    self.create_verdict(display, None)
                } else {
                    Err(SyncCreateError::Unsupported)
                },
            ),
    {
        if !self.capabilities.producer_export {
            return Err(SyncCreateError::Unsupported);
        }
        self.create(display, None)
    }

    /// The call that makes a fence from a file descriptor. The descriptor belongs to EGL from the
    /// call on, also where the call fails; it stays the caller's where there is no call.
    pub fn import_sync_file(&self, display: Display, fence_fd: Int) -> (result: Result<
        CreateCall,
        SyncCreateError,
    >)
        ensures
            Self::plans_create(
                result,
                if self.capabilities.consumer_import {
                    self.create_verdict(display, Some(fence_fd))
                } else {
                    Err(SyncCreateError::Unsupported)
                },
            ),
    {
        if !self.capabilities.consumer_import {
            return Err(SyncCreateError::Unsupported);
        }
        self.create(display, Some(fence_fd))
    }

    /// The error of a call that failed: what the error entry point returned, where there is one.
    pub fn error_of(taken: Option<Int>) -> (error: Int)
        ensures
            error == (match taken {
                Some(code) => code,
                None => SUCCESS,
            }),
    {
        match taken {
            Some(code) => code,
            None => SUCCESS,
        }
    }

    /// A fence was asked for, and the call returned `raw`.
    pub fn created(display: Display, raw: Sync, egl_error: Int) -> (result: Result<
        SyncHandle,
        SyncCreateError,
    >)
        ensures
            result == (if raw == 0 {
                Err(SyncCreateError::Failed { egl_error })
            } else {
                Ok(SyncHandle { display, raw })
            }),
    {
        if raw == 0 {
            Err(SyncCreateError::Failed { egl_error })
        } else {
            Ok(SyncHandle { display, raw })
        }
    }

    /// A call with a handle.
    pub open spec fn call_on(self, function: Function, handle: SyncHandle) -> SyncCall {
        SyncCall { abi: self.abi, function, display: handle.display, sync: handle.raw }
    }

    /// The call that duplicates the descriptor of a fence, where fences can be exported.
    pub fn duplicate_fence(&self, handle: &SyncHandle) -> (result: Result<
        SyncCall,
        FenceDuplicateError,
    >)
        ensures
            match result {
                Ok(call) => {
                    &&& self.capabilities.producer_export
                    &&& self.duplicate matches Some(function)
                    &&& call == self.call_on(function, *handle)
                },
                Err(error) => error is Unsupported && (!self.capabilities.producer_export
                    || self.duplicate is None),
            },
    {
        if !self.capabilities.producer_export {
            return Err(FenceDuplicateError::Unsupported);
        }
        match self.duplicate {
            Some(function) => Ok(
                SyncCall { abi: self.abi, function, display: handle.display, sync: handle.raw },
            ),
            None => Err(FenceDuplicateError::Unsupported),
        }
    }

    /// A duplicate was asked for, and the call returned `fd`. It is the caller's.
    pub fn duplicated(fd: Int, egl_error: Int) -> (result: Result<Int, FenceDuplicateError>)
        ensures
            match result {
                Ok(owned) => fd >= 0 && owned == fd,
                Err(error) => fd < 0 && error == (FenceDuplicateError::Failed { egl_error }),
            },
    {
        if fd < 0 {
            return Err(FenceDuplicateError::Failed { egl_error });
        }
        Ok(fd)
    }

    /// The duplicate was set to be closed on exec, or the system refused.
    pub fn cloexec_set(fd: Int, set: Result<(), std::io::Error>) -> (result: Result<
        Int,
        FenceDuplicateError,
    >)
        ensures
            result == (match set {
                Ok(()) => Ok(fd),
                Err(error) => Err(FenceDuplicateError::Cloexec(error)),
            }),
    {
        match set {
            Ok(()) => Ok(fd),
            Err(error) => Err(FenceDuplicateError::Cloexec(error)),
        }
    }

    /// The call that destroys a sync object, where there is one.
    pub fn destroy(&self, handle: &SyncHandle) -> (call: Option<SyncCall>)
        ensures
            call == (match self.functions.destroy {
                Some(function) => Some(self.call_on(function, *handle)),
                None => None,
            }),
    {
        match self.functions.destroy {
            Some(function) => Some(
                SyncCall { abi: self.abi, function, display: handle.display, sync: handle.raw },
            ),
            None => None,
        }
    }

    /// The call that destroys a sync object returned `destroyed`, or there was none. A failure gives
    /// the handle back.
    pub fn destroyed(handle: SyncHandle, destroyed: Option<Boolean>, egl_error: Int) -> (result:
        Result<(), DestroyError>)
        ensures
            match result {
                Ok(()) => destroyed matches Some(value) && value != FALSE,
                Err(error) => {
                    &&& destroyed is None || destroyed == Some(FALSE)
                    &&& error.handle == handle
                    &&& error.egl_error == egl_error
                },
            },
    {
        let succeeded = match destroyed {
            Some(value) => value != FALSE,
            None => false,
        };
        if succeeded {
            Ok(())
        } else {
            Err(DestroyError { handle, egl_error })
        }
    }

    /// The call that lets the GPU wait for a fence, where that is supported. No flag is set.
    pub fn wait_server(&self, handle: &SyncHandle) -> (call: Result<
        ServerWaitCall,
        ServerWaitOutcome,
    >)
        ensures
            call == (match self.functions.server_wait {
                Some(function) if self.capabilities.server_wait => Ok(
                    ServerWaitCall { call: self.call_on(function, *handle), flags: 0 },
                ),
                _ => Err(ServerWaitOutcome::Unsupported),
            }),
    {
        if !self.capabilities.server_wait {
            return Err(ServerWaitOutcome::Unsupported);
        }
        match self.functions.server_wait {
            Some(function) => Ok(
                ServerWaitCall {
                    call: SyncCall {
                        abi: self.abi,
                        function,
                        display: handle.display,
                        sync: handle.raw,
                    },
                    flags: 0,
                },
            ),
            None => Err(ServerWaitOutcome::Unsupported),
        }
    }

    /// The wait on the server returned a value. Both families return zero where it was not queued.
    pub fn server_waited(value: i64, egl_error: Int) -> (outcome: ServerWaitOutcome)
        ensures
            outcome == (if value != 0 {
                ServerWaitOutcome::Queued
            } else {
                ServerWaitOutcome::Failed { egl_error }
            }),
    {
        if value != 0 {
            ServerWaitOutcome::Queued
        } else {
            ServerWaitOutcome::Failed { egl_error }
        }
    }

    /// The timeout that `wait_client` hands to EGL: as long as asked for, but never forever.
    pub open spec fn bounded_timeout(nanoseconds: u128) -> Time {
        if nanoseconds < FOREVER {
            nanoseconds as u64
        } else {
            (FOREVER - 1) as u64
        }
    }

    /// The call that waits for a fence for at most so many nanoseconds. No flag is set.
    pub fn wait_client(&self, handle: &SyncHandle, nanoseconds: u128) -> (call: Result<
        ClientWaitCall,
        ClientWaitOutcome,
    >)
        ensures
            call == (match self.functions.client_wait {
                Some(function) => Ok(
                    ClientWaitCall {
                        call: self.call_on(function, *handle),
                        flags: 0,
                        timeout: Self::bounded_timeout(nanoseconds),
                    },
                ),
                None => Err(ClientWaitOutcome::Unsupported),
            }),
    {
        let timeout: u64 = if nanoseconds < FOREVER as u128 {
            nanoseconds as u64
        } else {
            FOREVER - 1
        };
        match self.functions.client_wait {
            Some(function) => Ok(
                ClientWaitCall {
                    call: SyncCall {
                        abi: self.abi,
                        function,
                        display: handle.display,
                        sync: handle.raw,
                    },
                    flags: 0,
                    timeout,
                },
            ),
            None => Err(ClientWaitOutcome::Unsupported),
        }
    }

    /// The wait on the client returned a status.
    pub fn client_waited(status: Int, egl_error: Int) -> (outcome: ClientWaitOutcome)
        ensures
            outcome == (if status == CONDITION_SATISFIED {
                ClientWaitOutcome::Satisfied
            } else if status == TIMEOUT_EXPIRED {
                ClientWaitOutcome::Timeout
            } else {
                ClientWaitOutcome::Failed { status, egl_error }
            }),
    {
        if status == CONDITION_SATISFIED {
            ClientWaitOutcome::Satisfied
        } else if status == TIMEOUT_EXPIRED {
            ClientWaitOutcome::Timeout
        } else {
            ClientWaitOutcome::Failed { status, egl_error }
        }
    }
}

impl NativeFenceFunctionLoader {
    /// The display and the entry points can export native fences.
    pub open spec fn can_export(self, egl_extensions: Seq<char>) -> bool {
        &&& is_token(egl_extensions, "EGL_ANDROID_native_fence_sync"@)
        &&& is_token(egl_extensions, "EGL_KHR_fence_sync"@)
        &&& self.khr.create is Some
        &&& self.khr.destroy is Some
        &&& self.duplicate is Some
    }

    /// Selects the entry points for export. Only the extension's own family can export.
    pub fn select_producer(&self, egl_extensions: &str) -> (selected: Option<NativeFenceFunctions>)
        ensures
            selected == (if self.can_export(egl_extensions@) {
                Some(
                    NativeFenceFunctions {
                        abi: SyncAbi::Khr,
                        functions: self.khr,
                        duplicate: self.duplicate,
                        get_error: self.get_error,
                        capabilities: NativeFenceCapabilities {
                            producer_export: true,
                            consumer_import: false,
                            server_wait: false,
                        },
                    },
                )
            } else {
                None
            }),
    {
        let extensions_ok = has_extension(egl_extensions, "EGL_ANDROID_native_fence_sync")
            && has_extension(egl_extensions, "EGL_KHR_fence_sync");
        let complete = self.khr.create.is_some() && self.khr.destroy.is_some()
            && self.duplicate.is_some();
        if !extensions_ok || !complete {
            return None;
        }
        Some(
            NativeFenceFunctions {
                abi: SyncAbi::Khr,
                functions: self.khr,
                duplicate: self.duplicate,
                get_error: self.get_error,
                capabilities: NativeFenceCapabilities {
                    producer_export: true,
                    consumer_import: false,
                    server_wait: false,
                },
            },
        )
    }

    /// What `select_consumer` returns.
    pub open spec fn consumer(
        self,
        egl_extensions: Seq<char>,
        gl_extensions: Seq<char>,
        egl_15_or_newer: bool,
        core_server_wait_supported: bool,
    ) -> Option<NativeFenceFunctions> {
        let native = is_token(egl_extensions, "EGL_ANDROID_native_fence_sync"@);
        let khr_wait = self.khr.server_wait is Some && is_token(
            egl_extensions,
            "EGL_KHR_wait_sync"@,
        ) && is_token(gl_extensions, "GL_OES_EGL_sync"@);
        let core_wait = self.core.server_wait is Some && core_server_wait_supported;
        if native && is_token(egl_extensions, "EGL_KHR_fence_sync"@) && self.khr.is_complete() {
            Some(
                NativeFenceFunctions {
                    abi: SyncAbi::Khr,
                    functions: self.khr.limited(khr_wait),
                    duplicate: self.duplicate,
                    get_error: self.get_error,
                    capabilities: NativeFenceCapabilities {
                        producer_export: false,
                        consumer_import: true,
                        server_wait: khr_wait,
                    },
                },
            )
        } else if native && egl_15_or_newer && self.core.is_complete() {
            Some(
                NativeFenceFunctions {
                    abi: SyncAbi::Core15,
                    functions: self.core.limited(core_wait),
                    duplicate: None,
                    get_error: self.get_error,
                    capabilities: NativeFenceCapabilities {
                        producer_export: false,
                        consumer_import: true,
                        server_wait: core_wait,
                    },
                },
            )
        } else {
            None
        }
    }

    /// Selects the entry points for import: the extension's own family where the display has it and
    /// it is complete, else the core family, which needs EGL 1.5. Whether the core family can wait
    /// on the server depends on the client API and not only on the symbol.
    pub fn select_consumer(
        &self,
        egl_extensions: &str,
        gl_extensions: &str,
        egl_15_or_newer: bool,
        core_server_wait_supported: bool,
    ) -> (selected: Option<NativeFenceFunctions>)
        ensures
            selected == self.consumer(
                egl_extensions@,
                gl_extensions@,
                egl_15_or_newer,
                core_server_wait_supported,
            ),
    {
        let native = has_extension(egl_extensions, "EGL_ANDROID_native_fence_sync");
        let khr_extensions = native && has_extension(egl_extensions, "EGL_KHR_fence_sync");
        let khr_complete = self.khr.create.is_some() && self.khr.destroy.is_some()
            && self.khr.client_wait.is_some();
        if khr_extensions && khr_complete {
            let server_wait = self.khr.server_wait.is_some() && has_extension(
                egl_extensions,
                "EGL_KHR_wait_sync",
            ) && has_extension(gl_extensions, "GL_OES_EGL_sync");
            let mut functions = self.khr;
            if !server_wait {
                functions.server_wait = None;
            }
            return Some(
                NativeFenceFunctions {
                    abi: SyncAbi::Khr,
                    functions,
                    duplicate: self.duplicate,
                    get_error: self.get_error,
                    capabilities: NativeFenceCapabilities {
                        producer_export: false,
                        consumer_import: true,
                        server_wait,
                    },
                },
            );
        }
        let core_complete = self.core.create.is_some() && self.core.destroy.is_some()
            && self.core.client_wait.is_some();
        if native && egl_15_or_newer && core_complete {
            let server_wait = self.core.server_wait.is_some() && core_server_wait_supported;
            let mut functions = self.core;
            if !server_wait {
                functions.server_wait = None;
            }
            return Some(
                NativeFenceFunctions {
                    abi: SyncAbi::Core15,
                    functions,
                    duplicate: None,
                    get_error: self.get_error,
                    capabilities: NativeFenceCapabilities {
                        producer_export: false,
                        consumer_import: true,
                        server_wait,
                    },
                },
            );
        }
        None
    }
}

/// Everything that selected entry points can do goes through one family: fences are made, destroyed
/// and waited for with the functions of the selected family alone, and a capability is claimed only
/// where its function is there.
pub proof fn a_selection_never_mixes_families(
    loader: NativeFenceFunctionLoader,
    egl_extensions: Seq<char>,
    gl_extensions: Seq<char>,
    egl_15_or_newer: bool,
    core_server_wait_supported: bool,
)
    ensures
        loader.consumer(
            egl_extensions,
            gl_extensions,
            egl_15_or_newer,
            core_server_wait_supported,
        ) matches Some(selected) ==> {
            let family = match selected.abi {
                SyncAbi::Khr => loader.khr,
                SyncAbi::Core15 => loader.core,
            };
            &&& selected.functions.is_complete()
            &&& selected.functions == family.limited(selected.capabilities.server_wait)
            &&& selected.capabilities.server_wait == selected.functions.server_wait is Some
            &&& selected.capabilities.consumer_import
            &&& !selected.capabilities.producer_export
        },
{
}

/// Data can be read.
pub const POLLIN: u16 = 0x1;

/// An error happened.
pub const POLLERR: u16 = 0x8;

/// The descriptor is not open.
pub const POLLNVAL: u16 = 0x20;

/// The timeout that the system is given for a poll of so many milliseconds.
pub fn poll_timeout(milliseconds: u128) -> (timeout: i32)
    ensures
        timeout == (if milliseconds < i32::MAX {
            milliseconds as int
        } else {
            i32::MAX as int
        }),
{
    if milliseconds < i32::MAX as u128 {
        milliseconds as i32
    } else {
        i32::MAX
    }
}

/// A poll returned: `Ok` with how many descriptors are ready and what is ready on the sync file, or
/// `Err` with the error of the system. `Err` in the result is the diagnostic for events that a sync
/// file does not have.
pub fn poll_sync_file(polled: Result<(i32, u16), std::io::Error>) -> (result: Result<
    SyncFilePollOutcome,
    String,
>)
    requires
        polled matches Ok((ready, _)) ==> ready >= 0,
    ensures
        match polled {
            Err(error) => result == Ok::<_, String>(SyncFilePollOutcome::Error(error)),
            Ok((ready, events)) => if ready == 0 {
                result == Ok::<_, String>(SyncFilePollOutcome::Timeout)
            } else if events & (POLLERR | POLLNVAL) != 0 {
                result matches Err(message) && message@ == "sync-file poll returned revents=0x"@
                    + hexadecimal(events as nat)
            } else if events & POLLIN != 0 {
                result == Ok::<_, String>(SyncFilePollOutcome::Signaled)
            } else {
                result matches Err(message) && message@
                    == "sync-file poll returned unexpected revents=0x"@ + hexadecimal(
                    events as nat,
                )
            },
        },
{
    let (ready, events): (i32, u16) = match polled {
        Err(error) => return Ok(SyncFilePollOutcome::Error(error)),
        Ok(ready) => ready,
    };
    if ready == 0 {
        return Ok(SyncFilePollOutcome::Timeout);
    }
    if events & (POLLERR | POLLNVAL) != 0 {
        return Err(
            Message::new("sync-file poll returned revents=0x").hex(events as u64).done(),
        );
    }
    if events & POLLIN != 0 {
        Ok(SyncFilePollOutcome::Signaled)
    } else {
        Err(
            Message::new("sync-file poll returned unexpected revents=0x").hex(
                events as u64,
            ).done(),
        )
    }
}

} // verus!
