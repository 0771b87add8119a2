//! The process-wide loader state and the lifecycle of the payload.
//!
//! The state records at most one payload. Opening and closing native
//! modules, and calling into them, is done by the caller: each operation
//! here updates the record and tells the caller which module to tear down
//! or to initialise. A load is made in two steps, so that the payload in
//! place is released before the new one is opened.

use crate::text::{from_chars, push_str_chars};
use vstd::prelude::*;

verus! {

/// One loaded native module.
#[derive(Debug, Clone, Copy, PartialEq, Eq)]
pub struct PayloadHandle {
    /// The number under which the caller keeps the open module.
    pub native_handle: u64,
    /// The module exports the entry point to call right after loading.
    pub has_init_symbol: bool,
    /// The module exports the entry point to call right before unloading.
    pub has_cleanup_symbol: bool,
}

/// The loader's state. It lives as long as the process.
#[derive(Debug)]
pub struct ProcessState {
    running: bool,
    loaded_payload: Option<PayloadHandle>,
    signal_handler_installed: bool,
}

/// What a `ProcessState` holds.
pub struct ProcessStateView {
    pub running: bool,
    pub loaded_payload: Option<PayloadHandle>,
    pub signal_handler_installed: bool,
}

impl View for ProcessState {
    type V = ProcessStateView;

    closed spec fn view(&self) -> ProcessStateView {
        ProcessStateView {
            running: self.running,
            loaded_payload: self.loaded_payload,
            signal_handler_installed: self.signal_handler_installed,
        }
    }
}

/// What the caller has to do after an unload.
#[derive(Debug, Clone, Copy, PartialEq, Eq)]
pub enum UnloadOutcome {
    /// Nothing was loaded, so there is nothing to do.
    NothingLoaded,
    /// This payload is no longer recorded. The caller invokes its cleanup
    /// entry point if it has one, then closes the module.
    Released(PayloadHandle),
}

/// What became of the attempt to open a payload.
#[derive(Debug, Clone, Copy, PartialEq, Eq)]
pub enum OpenOutcome {
    /// No file exists at the path.
    PathMissing,
    /// The file exists but could not be opened as a native module.
    OpenFailed,
    /// The module is open.
    Opened(PayloadHandle),
}

/// Why a load failed. Each variant carries the path that was tried.
#[derive(Debug, PartialEq, Eq)]
pub enum LoadError {
    PathMissing(String),
    OpenFailed(String),
}

/// What a `LoadError` holds.
pub enum LoadErrorView {
    PathMissing(Seq<char>),
    OpenFailed(Seq<char>),
}

impl View for LoadError {
    type V = LoadErrorView;

    open spec fn view(&self) -> LoadErrorView {
        match self {
            LoadError::PathMissing(path) => LoadErrorView::PathMissing(path@),
            LoadError::OpenFailed(path) => LoadErrorView::OpenFailed(path@),
        }
    }
}

/// The text that `LoadError::message` gives.
pub open spec fn load_error_text(error: LoadErrorView) -> Seq<char> {
    match error {
        LoadErrorView::PathMissing(path) => "Client library does not exist at path: "@ + path,
        LoadErrorView::OpenFailed(path) => "Client library could not be opened at path: "@ + path,
    }
}

impl LoadError {
    /// A line for the log, with the path that was tried.
    pub fn message(&self) -> (text: String)
        ensures
            text@ == load_error_text(self@),
    {
        let mut out: Vec<char> = Vec::new();
        match self {
            LoadError::PathMissing(path) => {
                push_str_chars(&mut out, "Client library does not exist at path: ");
                push_str_chars(&mut out, path.as_str());
            },
            LoadError::OpenFailed(path) => {
                push_str_chars(&mut out, "Client library could not be opened at path: ");
                push_str_chars(&mut out, path.as_str());
            },
        }
        let n = out.len();
        let text = from_chars(&out, 0, n);
        assert(out@.subrange(0, n as int) == out@);
        text
    }
}

/// A load that has released the payload in place and waits for the new
/// module to be opened. Only `ProcessState::begin_load` makes one.
#[derive(Debug)]
pub struct PendingLoad {
    path: String,
}

impl PendingLoad {
    /// The path that the load was asked for.
    pub closed spec fn path(&self) -> Seq<char> {
        self.path@
    }

    /// The path to open.
    pub fn target(&self) -> (path: &str)
        ensures
            path@ == self.path(),
    {
        self.path.as_str()
    }
}

/// What the caller has to do after a load has succeeded.
#[derive(Debug, Clone, Copy, PartialEq, Eq)]
pub struct Loaded {
    /// The payload that is now recorded. The caller invokes its
    /// initialisation entry point if it has one.
    pub handle: PayloadHandle,
    /// A payload that had appeared in the record since the load began.
    /// The caller closes it without calling into it.
    pub displaced: Option<PayloadHandle>,
}

/// What the caller has to do after a shutdown.
#[derive(Debug, Clone, Copy, PartialEq, Eq)]
pub enum ShutdownOutcome {
    /// Shutdown had already happened: there is nothing to do.
    AlreadyStopped,
    /// The process is now stopping, and the payload, if there was one, is
    /// to be torn down as after an unload.
    Stopped(UnloadOutcome),
}

/// `state` with nothing loaded.
pub open spec fn without_payload(state: ProcessStateView) -> ProcessStateView {
    ProcessStateView { loaded_payload: None, ..state }
}

/// What an unload hands to the caller.
pub open spec fn release_of(state: ProcessStateView) -> UnloadOutcome {
    match state.loaded_payload {
        Some(handle) => UnloadOutcome::Released(handle),
        None => UnloadOutcome::NothingLoaded,
    }
}

/// The state after a load has ended with `outcome`: a module that was
/// opened is recorded, and a failure touches nothing.
pub open spec fn after_open(state: ProcessStateView, outcome: OpenOutcome) -> ProcessStateView {
    match outcome {
        OpenOutcome::PathMissing => state,
        OpenOutcome::OpenFailed => state,
        OpenOutcome::Opened(handle) => ProcessStateView { loaded_payload: Some(handle), ..state },
    }
}

/// The state after a shutdown, and what it hands to the caller.
pub open spec fn after_shutdown(state: ProcessStateView) -> (ProcessStateView, ShutdownOutcome) {
    if state.running {
        (
            ProcessStateView { running: false, loaded_payload: None, ..state },
            ShutdownOutcome::Stopped(release_of(state)),
        )
    } else {
        (state, ShutdownOutcome::AlreadyStopped)
    }
}

impl ProcessState {
    /// The state at attach: running, nothing loaded, no handler installed.
    pub fn new() -> (state: ProcessState)
        ensures
            state@ == (ProcessStateView {
                running: true,
                loaded_payload: None,
                signal_handler_installed: false,
            }),
    {
        ProcessState { running: true, loaded_payload: None, signal_handler_installed: false }
    }

    /// Whether shutdown has not happened yet.
    pub fn is_running(&self) -> (running: bool)
        ensures
            running == self@.running,
    {
        self.running
    }

    /// The payload that is recorded as loaded, if any.
    pub fn loaded_payload(&self) -> (payload: Option<PayloadHandle>)
        ensures
            payload == self@.loaded_payload,
    {
        self.loaded_payload
    }

    /// Whether the termination handlers have been installed.
    pub fn signal_handler_installed(&self) -> (installed: bool)
        ensures
            installed == self@.signal_handler_installed,
    {
        self.signal_handler_installed
    }

    /// Marks the termination handlers as installed. Returns `true` to the
    /// one caller that has to install them: the first.
    pub fn claim_signal_handlers(&mut self) -> (install_now: bool)
        ensures
            install_now == !old(self)@.signal_handler_installed,
            final(self)@ == (ProcessStateView { signal_handler_installed: true, ..old(self)@ }),
    {
        let install_now = !self.signal_handler_installed;
        self.signal_handler_installed = true;
        install_now
    }

    /// Clears the record of the loaded payload and hands the payload to
    /// the caller for teardown. With nothing loaded this changes nothing;
    /// it never fails.
    pub fn unload(&mut self) -> (outcome: UnloadOutcome)
        ensures
            final(self)@ == without_payload(old(self)@),
            outcome == release_of(old(self)@),
            old(self)@.loaded_payload is None ==> final(self)@ == old(self)@,
    {
        match self.loaded_payload.take() {
            Some(handle) => UnloadOutcome::Released(handle),
            None => UnloadOutcome::NothingLoaded,
        }
    }

    /// The first step of a load: unloads whatever is loaded, and notes the
    /// path to open. The caller tears down the released payload, then
    /// opens the module at the path and reports with `finish_load`.
    pub fn begin_load(&mut self, path: &str) -> (started: (UnloadOutcome, PendingLoad))
        ensures
            final(self)@ == without_payload(old(self)@),
            started.0 == release_of(old(self)@),
            started.1.path() == path@,
    {
        let released = self.unload();
        (released, PendingLoad { path: path.to_owned() })
    }

    /// The second step of a load: records the module that was opened, or
    /// reports why there is none, with the path that was tried.
    ///
    /// The load succeeds exactly when a module was opened. A failure
    /// leaves the state as the first step left it: with nothing loaded.
    pub fn finish_load(&mut self, pending: PendingLoad, outcome: OpenOutcome) -> (result: Result<
        Loaded,
        LoadError,
    >)
        ensures
            final(self)@ == after_open(old(self)@, outcome),
            match outcome {
                OpenOutcome::PathMissing => result matches Err(e) && e@
                    == LoadErrorView::PathMissing(pending.path()),
                OpenOutcome::OpenFailed => result matches Err(e) && e@ == LoadErrorView::OpenFailed(
                    pending.path(),
                ),
                OpenOutcome::Opened(handle) => result == Ok::<Loaded, LoadError>(
                    Loaded { handle, displaced: old(self)@.loaded_payload },
                ),
            },
    {
        match outcome {
            OpenOutcome::PathMissing => Err(LoadError::PathMissing(pending.path)),
            OpenOutcome::OpenFailed => Err(LoadError::OpenFailed(pending.path)),
            OpenOutcome::Opened(handle) => {
                let displaced = self.loaded_payload;
                self.loaded_payload = Some(handle);
                Ok(Loaded { handle, displaced })
            },
        }
    }

    /// Stops the loader, once. The first call clears the running flag and
    /// unloads the payload; every later call changes nothing and hands out
    /// nothing to tear down.
    pub fn shutdown(&mut self) -> (outcome: ShutdownOutcome)
        ensures
            (final(self)@, outcome) == after_shutdown(old(self)@),
            !final(self)@.running,
    {
        if !self.running {
            return ShutdownOutcome::AlreadyStopped;
        }
        self.running = false;
        let released = self.unload();
        ShutdownOutcome::Stopped(released)
    }
}

/// One call of the loader, with what the outside world answered to it.
pub enum LoaderCall {
    Unload,
    Load(OpenOutcome),
}

/// The state after one call.
pub open spec fn after_call(state: ProcessStateView, call: LoaderCall) -> ProcessStateView {
    match call {
        LoaderCall::Unload => without_payload(state),
        LoaderCall::Load(outcome) => after_open(without_payload(state), outcome),
    }
}

/// The native modules that a caller who follows the outcomes holds open.
pub open spec fn recorded(state: ProcessStateView) -> Set<u64> {
    match state.loaded_payload {
        Some(handle) => set![handle.native_handle],
        None => Set::empty(),
    }
}

/// The modules held open after one call, by a caller who closes what the
/// loader releases and keeps what it opened.
pub open spec fn open_after_call(state: ProcessStateView, open: Set<u64>, call: LoaderCall) -> Set<
    u64,
> {
    let released = match state.loaded_payload {
        Some(handle) => open.remove(handle.native_handle),
        None => open,
    };
    match call {
        LoaderCall::Load(OpenOutcome::Opened(handle)) => released.insert(handle.native_handle),
        _ => released,
    }
}

/// The state and the open modules after a sequence of calls.
pub open spec fn after_calls(state: ProcessStateView, open: Set<u64>, calls: Seq<LoaderCall>) -> (
    ProcessStateView,
    Set<u64>,
)
    decreases calls.len(),
{
    if calls.len() == 0 {
        (state, open)
    } else {
        let (s, o) = after_calls(state, open, calls.drop_last());
        (after_call(s, calls.last()), open_after_call(s, o, calls.last()))
    }
}

/// Whatever sequence of loads and unloads is made, after each call the
/// modules held open are exactly the one that is recorded, if any: never
/// two at once, and none that the loader has forgotten.
pub proof fn at_most_one_payload(state: ProcessStateView, open: Set<u64>, calls: Seq<LoaderCall>)
    requires
        open == recorded(state),
    ensures
        after_calls(state, open, calls).1 == recorded(after_calls(state, open, calls).0),
        after_calls(state, open, calls).1.len() <= 1,
        after_calls(state, open, calls).1.finite(),
    decreases calls.len(),
{
    if calls.len() == 0 {
        recorded_is_small(state);
    } else {
        at_most_one_payload(state, open, calls.drop_last());
        let (s, o) = after_calls(state, open, calls.drop_last());
        let s2 = after_call(s, calls.last());
        let o2 = open_after_call(s, o, calls.last());
        assert(o2 =~= recorded(s2));
        recorded_is_small(s2);
    }
}

proof fn recorded_is_small(state: ProcessStateView)
    ensures
        recorded(state).finite(),
        recorded(state).len() <= 1,
{
    match state.loaded_payload {
        Some(handle) => {
            assert(recorded(state) =~= Set::empty().insert(handle.native_handle));
        },
        None => {},
    }
}

/// Shutting down twice ends in the same state as shutting down once, and
/// the second call hands out nothing to tear down.
pub proof fn shutdown_is_idempotent(state: ProcessStateView)
    ensures
        after_shutdown(after_shutdown(state).0) == (
            after_shutdown(state).0,
            ShutdownOutcome::AlreadyStopped,
        ),
{
}

} // verus!
