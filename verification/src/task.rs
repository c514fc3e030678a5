use vstd::prelude::*;

use crate::dialog::multi_buttons;
use crate::dialog::one_button;
use crate::dialog::DialogRequest;
use crate::dialog::DialogResponse;
use crate::fs_path::FsPath;
use crate::listing::FileKind;

verus! {

/// What went wrong, for one entry or for a whole operation.
#[derive(Clone, Copy, PartialEq, Eq, Structural, Debug)]
pub enum ErrorKind {
    /// An entry's kind could not be read.
    StatFailed,
    /// A target exists with another kind than its source.
    TypeMismatch,
    /// A directory could not be created.
    CreateFailed,
    /// A file's bytes could not be copied.
    CopyFailed,
    /// A file or directory could not be removed.
    RemoveFailed,
    /// A directory's children could not be listed.
    ReadDirFailed,
    /// A rename call failed.
    RenameFailed,
    /// An operation could not start at all.
    PreconditionFailed,
}

/// How a finished operation ended.
pub struct TaskOutcome {
    /// Whether the user dismissed the operation midway.
    pub cancelled: bool,
    /// Whether every entry the walk took on was handled.
    pub complete: bool,
    /// The sources that could not be placed at the destination.
    pub failed: Vec<FsPath>,
}

/// What an engine asks its driver to do next.  The driver performs exactly
/// the requested call and answers with the matching `TaskEvent` variant.
pub enum TaskAction {
    /// Look whether an answer nobody asked for is waiting: the user dismissed
    /// the whole operation.  Answer with `CancelPending`.
    PollCancel,
    /// Read the kind of the entry, without following a final symlink.
    /// Answer with `Stat`.
    Stat(FsPath),
    /// Report whether the target exists and, where it does, its kind.
    /// Answer with `TargetStat`.
    StatTarget(FsPath),
    /// Show the question and wait for its one answer.  Answer with `Answer`.
    Ask(DialogRequest),
    /// Show the error and wait until it is acknowledged.  Answer with
    /// `Answer`.
    Tell(ErrorKind, DialogRequest),
    /// Show the progress message if the throttle allows; nothing is awaited.
    /// Answer with `Ack`.
    Progress(Vec<u8>),
    /// List the directory's immediate children as full paths.  Answer with
    /// `Listing`.
    ReadDir(FsPath),
    /// Remove the file or symlink.  Answer with `Done`.
    RemoveFile(FsPath),
    /// Remove the now-empty directory.  Answer with `Done`.
    RemoveDir(FsPath),
    /// Create the directory.  Answer with `Done`.
    CreateDir(FsPath),
    /// Make the second path a hard link to the first.  Answer with
    /// `LinkDone`.
    HardLink(FsPath, FsPath),
    /// Copy the first path's bytes to the second.  Answer with `Done`.
    CopyFile(FsPath, FsPath),
    /// Rename the first path to the second.  Answer with `Done`.
    Rename(FsPath, FsPath),
    /// The operation is over; nothing more will be asked.
    Finished(TaskOutcome),
}

/// The driver's answer to the one action the engine asked for.
pub enum TaskEvent {
    /// Whether an answer nobody asked for was waiting; it is consumed.
    CancelPending(bool),
    /// The entry's kind, or `None` where it could not be read.
    Stat(Option<FileKind>),
    /// `None`: the target does not exist.  `Some(None)`: it exists but its
    /// kind could not be read.  `Some(Some(k))`: it exists with kind `k`.
    TargetStat(Option<Option<FileKind>>),
    /// The user's answer to the question shown.
    Answer(DialogResponse),
    /// The progress message was taken.
    Ack,
    /// The children as full paths, or `None` where the listing failed.
    Listing(Option<Vec<FsPath>>),
    /// `None` where the filesystem call succeeded, else what it reported.
    Done(Option<Vec<u8>>),
    /// Whether the hard link was made.
    LinkDone(bool),
}

/// The action is the four-button question with exactly this message.
pub open spec fn asked(r: TaskAction, msg: Seq<u8>) -> bool {
    &&& r matches TaskAction::Ask(req) ==> req.msg@ == msg && multi_buttons(req.actions@)
        && req.sel_option is None && req.options@.len() == 0
    &&& r is Ask
}

/// The action shows exactly this error, under its kind, with one button.
pub open spec fn told(r: TaskAction, kind: ErrorKind, msg: Seq<u8>) -> bool {
    &&& r matches TaskAction::Tell(k, req) ==> k == kind && req.msg@ == msg && one_button(
        req.actions@,
    ) && req.sel_option is None && req.options@.len() == 0
    &&& r is Tell
}

} // verus!
