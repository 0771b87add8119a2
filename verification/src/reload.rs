//! Replacing the payload while its file may still be held open.
//!
//! A reload never loads the file it was asked for. It copies the file to a
//! fresh name, orders the copy to be deleted after a grace period, and loads
//! the copy by its absolute path. The copying, the deleting and the waiting
//! are done by the caller; the steps here decide what is to be done next.

use crate::payload::{
    after_open, release_of, without_payload, LoadError, LoadErrorView, Loaded, OpenOutcome,
    PendingLoad, ProcessState, UnloadOutcome, load_error_text,
};
use crate::text::{decimal, from_chars, push_decimal, push_str_chars};
use vstd::prelude::*;

verus! {

/// How long a staged copy is kept before it is deleted, in seconds.
pub const STAGED_FILE_GRACE_SECONDS: u64 = 5;

/// How long a reload waits after the load before it returns, in
/// milliseconds, so that what the unload released can settle.
pub const SETTLE_DELAY_MILLIS: u64 = 100;

/// A temporary copy of a payload file that awaits deletion.
#[derive(Debug, PartialEq, Eq)]
pub struct StagedFile {
    /// Where the copy lies.
    pub path: String,
    /// When the reload was asked for, in seconds since the Unix epoch.
    pub created_at: u64,
}

/// What a `StagedFile` holds.
pub struct StagedFileView {
    pub path: Seq<char>,
    pub created_at: u64,
}

impl View for StagedFile {
    type V = StagedFileView;

    open spec fn view(&self) -> StagedFileView {
        StagedFileView { path: self.path@, created_at: self.created_at }
    }
}

impl StagedFile {
    /// Whether the grace period of this copy is over at `now`.
    pub open spec fn due_at(self, now: u64) -> bool {
        now >= self.created_at && now - self.created_at >= STAGED_FILE_GRACE_SECONDS
    }

    /// Whether the copy may be deleted at `now`, in seconds since the Unix
    /// epoch.
    pub fn is_due(&self, now: u64) -> (due: bool)
        ensures
            due == self.due_at(now),
    {
        now >= self.created_at && now - self.created_at >= STAGED_FILE_GRACE_SECONDS
    }
}

/// What became of the attempt to copy the payload file.
#[derive(Debug, Clone, Copy, PartialEq, Eq)]
pub enum CopyOutcome {
    /// The copy was made.
    Copied,
    /// There is no file to copy at the path.
    SourceMissing,
    /// The file is there and could not be copied.
    Failed,
}

/// Why a reload failed.
#[derive(Debug, PartialEq, Eq)]
pub enum ReloadError {
    /// The path names no file. Carries the path.
    InvalidFileName(String),
    /// There is no file at the path. Carries the path.
    SourceMissing(String),
    /// The file could not be copied. Carries the path.
    CopyFailed(String),
    /// The staged copy has no absolute path. Carries the copy's path.
    PathUnresolved(String),
    /// The staged copy could not be loaded.
    Load(LoadError),
}

/// What a `ReloadError` holds.
pub enum ReloadErrorView {
    InvalidFileName(Seq<char>),
    SourceMissing(Seq<char>),
    CopyFailed(Seq<char>),
    PathUnresolved(Seq<char>),
    Load(LoadErrorView),
}

impl View for ReloadError {
    type V = ReloadErrorView;

    open spec fn view(&self) -> ReloadErrorView {
        match self {
            ReloadError::InvalidFileName(path) => ReloadErrorView::InvalidFileName(path@),
            ReloadError::SourceMissing(path) => ReloadErrorView::SourceMissing(path@),
            ReloadError::CopyFailed(path) => ReloadErrorView::CopyFailed(path@),
            ReloadError::PathUnresolved(path) => ReloadErrorView::PathUnresolved(path@),
            ReloadError::Load(error) => ReloadErrorView::Load(error@),
        }
    }
}

/// The text that `ReloadError::message` gives: the cause, and for all
/// but a path without a file name the path it concerns.
pub open spec fn reload_error_text(error: ReloadErrorView) -> Seq<char> {
    match error {
        ReloadErrorView::InvalidFileName(_) => "Invalid file name"@,
        ReloadErrorView::SourceMissing(path) => "Client library does not exist at path: "@ + path,
        ReloadErrorView::CopyFailed(path) => "Client library could not be copied from: "@ + path,
        ReloadErrorView::PathUnresolved(path) => "Unable to get absolute path: "@ + path,
        ReloadErrorView::Load(error) => load_error_text(error),
    }
}

/// The reload error that a copy which was not made ends in.
pub open spec fn copy_error(outcome: CopyOutcome, source: Seq<char>) -> ReloadErrorView {
    match outcome {
        CopyOutcome::SourceMissing => ReloadErrorView::SourceMissing(source),
        _ => ReloadErrorView::CopyFailed(source),
    }
}

impl ReloadError {
    /// A line for the log that names the cause.
    pub fn message(&self) -> (text: String)
        ensures
            text@ == reload_error_text(self@),
    {
        let mut out: Vec<char> = Vec::new();
        match self {
            ReloadError::InvalidFileName(_) => {
                push_str_chars(&mut out, "Invalid file name");
            },
            ReloadError::SourceMissing(path) => {
                push_str_chars(&mut out, "Client library does not exist at path: ");
                push_str_chars(&mut out, path.as_str());
            },
            ReloadError::CopyFailed(path) => {
                push_str_chars(&mut out, "Client library could not be copied from: ");
                push_str_chars(&mut out, path.as_str());
            },
            ReloadError::PathUnresolved(path) => {
                push_str_chars(&mut out, "Unable to get absolute path: ");
                push_str_chars(&mut out, path.as_str());
            },
            ReloadError::Load(error) => {
                return error.message();
            },
        }
        let n = out.len();
        let text = from_chars(&out, 0, n);
        assert(out@.subrange(0, n as int) == out@);
        text
    }
}

/// The name of the staged copy of a file: `temp_`, the timestamp in
/// decimal, `_`, and the file's own name.
pub open spec fn staged_name(file_name: Seq<char>, timestamp: u64) -> Seq<char> {
    "temp_"@ + decimal(timestamp as nat) + "_"@ + file_name
}

/// Builds the name of the staged copy.
pub fn staged_file_name(file_name: &str, timestamp: u64) -> (name: String)
    ensures
        name@ == staged_name(file_name@, timestamp),
{
    let mut out: Vec<char> = Vec::new();
    push_str_chars(&mut out, "temp_");
    push_decimal(&mut out, timestamp);
    push_str_chars(&mut out, "_");
    push_str_chars(&mut out, file_name);
    let n = out.len();
    let name = from_chars(&out, 0, n);
    assert(out@.subrange(0, n as int) == out@);
    assert(out@ =~= staged_name(file_name@, timestamp));
    name
}

/// The final component of a path, as `std::path::Path::file_name` tells
/// it: the name of the file or directory that the path ends in, and none
/// for a path that ends in `..` or has no component at all.
pub uninterp spec fn path_file_name(path: Seq<char>) -> Option<Seq<char>>;

/// Calls `Path::file_name` on `path` and hands the component back as a
/// string. The call reads nothing but the path, so its result is the
/// named one.
#[verifier::external_body]
fn file_name_of(path: &str) -> (name: Option<String>)
    ensures
        match name {
            Some(text) => path_file_name(path@) == Some(text@),
            None => path_file_name(path@) is None,
        },
{
    match std::path::Path::new(path).file_name() {
        Some(name) => Some(name.to_string_lossy().into_owned()),
        None => None,
    }
}

/// Calls `std::path::absolute` on `path`. The answer depends on the
/// working directory, so nothing is claimed of the result.
#[verifier::external_body]
fn absolute_path(path: &str) -> (resolved: Option<String>) {
    match std::path::absolute(path) {
        Ok(resolved) => Some(resolved.to_string_lossy().into_owned()),
        Err(_) => None,
    }
}

/// A reload whose copy has been planned and not yet made.
#[derive(Debug)]
pub struct Staging {
    /// The file to copy.
    pub source: String,
    /// The copy to make.
    pub staged: StagedFile,
}

/// What the caller has to do once the copy has been attempted.
#[derive(Debug)]
pub struct AfterCopy {
    /// The copy to delete once `STAGED_FILE_GRACE_SECONDS` have passed,
    /// whatever becomes of the load.
    pub deletion: Option<StagedFile>,
    /// The payload to tear down and the load to carry on with, or the
    /// reason why the reload ends here.
    pub next: Result<(UnloadOutcome, PendingLoad), ReloadError>,
}

/// What the caller has to do once the reload is over.
#[derive(Debug, Clone, Copy, PartialEq, Eq)]
pub struct Reloaded {
    /// The payload that has been loaded, to be initialised.
    pub loaded: Loaded,
    /// How long to wait before returning, in milliseconds.
    pub settle_millis: u64,
}

/// Plans the staged copy for a file whose name has been taken from its
/// path. Without a file name there is nothing to stage.
pub fn stage(path: &str, file_name: Option<String>, now: u64) -> (staging: Result<
    Staging,
    ReloadError,
>)
    ensures
        match file_name {
            Some(name) => staging matches Ok(s) && s.source@ == path@ && s.staged@ == (
            StagedFileView { path: staged_name(name@, now), created_at: now }),
            None => staging matches Err(e) && e@ == ReloadErrorView::InvalidFileName(path@),
        },
{
    match file_name {
        Some(name) => Ok(
            Staging {
                source: path.to_owned(),
                staged: StagedFile { path: staged_file_name(name.as_str(), now), created_at: now },
            },
        ),
        None => Err(ReloadError::InvalidFileName(path.to_owned())),
    }
}

/// The first step of a reload: plans the staged copy of the file at
/// `path`, at the time `now` in seconds since the Unix epoch. The caller
/// copies `source` to `staged.path` and reports with `copy_finished`.
///
/// The step succeeds exactly when the path has a file name. The copy is
/// then named after it and stamped with `now`; nothing else is done.
pub fn begin_reload(path: &str, now: u64) -> (staging: Result<Staging, ReloadError>)
    ensures
        match path_file_name(path@) {
            Some(name) => staging matches Ok(s) && s.source@ == path@ && s.staged@ == (
            StagedFileView { path: staged_name(name, now), created_at: now }),
            None => staging matches Err(e) && e@ == ReloadErrorView::InvalidFileName(path@),
        },
{
    stage(path, file_name_of(path), now)
}

/// The second step of a reload, for a copy whose absolute path has been
/// looked up.
///
/// A copy that was not made ends the reload and leaves the loader's state
/// untouched; the error tells a missing file from one that could not be
/// copied. A copy that was made is ordered to be deleted, before anything
/// is loaded. If the copy has no absolute path the reload ends there,
/// again with the state untouched; otherwise the payload in place is
/// unloaded and the load of the copy begins, by its absolute path.
pub fn proceed_after_copy(
    state: &mut ProcessState,
    staging: Staging,
    copy: CopyOutcome,
    absolute: Option<String>,
) -> (step: AfterCopy)
    ensures
        copy != CopyOutcome::Copied ==> {
            &&& final(state)@ == old(state)@
            &&& step.deletion is None
            &&& step.next matches Err(e) && e@ == copy_error(copy, staging.source@)
        },
        copy == CopyOutcome::Copied ==> (step.deletion matches Some(file) && file@
            == staging.staged@),
        copy == CopyOutcome::Copied && absolute is None ==> {
            &&& final(state)@ == old(state)@
            &&& step.next matches Err(e) && e@ == ReloadErrorView::PathUnresolved(
                staging.staged.path@,
            )
        },
        copy == CopyOutcome::Copied && absolute is Some ==> {
            &&& final(state)@ == without_payload(old(state)@)
            &&& step.next matches Ok(started) && started.0 == release_of(old(state)@)
                && started.1.path() == absolute->0@
        },
{
    match copy {
        CopyOutcome::SourceMissing => {
            return AfterCopy {
                deletion: None,
                next: Err(ReloadError::SourceMissing(staging.source)),
            };
        },
        CopyOutcome::Failed => {
            return AfterCopy { deletion: None, next: Err(ReloadError::CopyFailed(staging.source)) };
        },
        CopyOutcome::Copied => {},
    }
    match absolute {
        None => {
            let path = staging.staged.path.clone();
            AfterCopy {
                deletion: Some(staging.staged),
                next: Err(ReloadError::PathUnresolved(path)),
            }
        },
        Some(target) => {
            let started = state.begin_load(target.as_str());
            AfterCopy { deletion: Some(staging.staged), next: Ok(started) }
        },
    }
}

/// The second step of a reload: takes note of what became of the copy.
/// The caller schedules the deletion that is ordered, tears down the
/// payload that was released, opens the module at the pending load's
/// target and reports with `open_finished`.
///
/// The working directory decides whether the copy has an absolute path,
/// and which. Whatever it is: a copy that was not made changes nothing
/// and orders no deletion; a copy that was made is always ordered to be
/// deleted; and the state is either untouched, with the reload at its
/// end, or unloaded, with the load begun.
pub fn copy_finished(state: &mut ProcessState, staging: Staging, copy: CopyOutcome) -> (step:
    AfterCopy)
    ensures
        copy != CopyOutcome::Copied ==> {
            &&& final(state)@ == old(state)@
            &&& step.deletion is None
            &&& step.next matches Err(e) && e@ == copy_error(copy, staging.source@)
        },
        copy == CopyOutcome::Copied ==> (step.deletion matches Some(file) && file@
            == staging.staged@),
        copy == CopyOutcome::Copied ==> match step.next {
            Ok(started) => final(state)@ == without_payload(old(state)@) && started.0
                == release_of(old(state)@),
            Err(e) => final(state)@ == old(state)@ && e@ == ReloadErrorView::PathUnresolved(
                staging.staged.path@,
            ),
        },
{
    let absolute = match copy {
        CopyOutcome::Copied => absolute_path(staging.staged.path.as_str()),
        _ => None,
    };
    proceed_after_copy(state, staging, copy, absolute)
}

/// The last step of a reload: records the module that was opened, or
/// reports why the copy could not be loaded. The caller initialises the
/// payload, then waits for the settle delay.
pub fn open_finished(state: &mut ProcessState, pending: PendingLoad, outcome: OpenOutcome) -> (result:
    Result<Reloaded, ReloadError>)
    ensures
        final(state)@ == after_open(old(state)@, outcome),
        match outcome {
            OpenOutcome::PathMissing => result matches Err(e) && e@ == ReloadErrorView::Load(
                LoadErrorView::PathMissing(pending.path()),
            ),
            OpenOutcome::OpenFailed => result matches Err(e) && e@ == ReloadErrorView::Load(
                LoadErrorView::OpenFailed(pending.path()),
            ),
            OpenOutcome::Opened(handle) => result == Ok::<Reloaded, ReloadError>(
                Reloaded {
                    loaded: Loaded { handle, displaced: old(state)@.loaded_payload },
                    settle_millis: SETTLE_DELAY_MILLIS,
                },
            ),
        },
{
    match state.finish_load(pending, outcome) {
        Ok(loaded) => Ok(Reloaded { loaded, settle_millis: SETTLE_DELAY_MILLIS }),
        Err(error) => Err(ReloadError::Load(error)),
    }
}

} // verus!
