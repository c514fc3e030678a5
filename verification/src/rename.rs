use vstd::prelude::*;
use vstd::string::*;

use crate::bytes::note_with;
use crate::fs_path::last_name;
use crate::dialog::DialogAction;
use crate::dialog::DialogRequest;
use crate::fs_path::display_name;
use crate::fs_path::FsPath;
use crate::task::ErrorKind;
use crate::task::TaskAction;
use crate::task::TaskEvent;
use crate::task::TaskOutcome;

verus! {

/// What the rename operation waits for after its last action.
#[derive(Clone, Copy, PartialEq, Eq, Structural, Debug)]
pub enum RenameWaiting {
    /// The one rename call.
    Rename,
    /// The acknowledgement of the failure message.
    ErrorAck,
    /// Nothing: the operation is over.
    Done,
}

/// The report when the rename call fails.
pub open spec fn rename_failed_msg(name: Seq<u8>, detail: Seq<u8>) -> Seq<u8> {
    "Cannot rename ".spec_bytes() + name + ", ".spec_bytes() + detail
}

/// Which answer fits the rename operation's pending wait.
pub open spec fn rename_event_matches(w: RenameWaiting, ev: TaskEvent) -> bool {
    match w {
        RenameWaiting::Rename => ev is Done,
        RenameWaiting::ErrorAck => ev is Answer,
        RenameWaiting::Done => false,
    }
}

/// The rename operation: one filesystem rename, reported and given up at
/// once when it fails — unlike the walks there is no partial progress to
/// keep.
pub struct RenameOp {
    /// The entry to rename.
    pub src: FsPath,
    /// Its new path.
    pub target: FsPath,
    /// What the last action awaits.
    pub waiting: RenameWaiting,
    /// Whether the rename call went through.
    pub renamed: bool,
}

impl RenameOp {
    /// The operation is over; no further action follows.
    pub open spec fn finished(&self) -> bool {
        self.waiting is Done
    }

    /// A sound operation state: the call succeeds at most once, at the end.
    pub open spec fn wf(&self) -> bool {
        !(self.waiting is Done) ==> !self.renamed
    }

    /// What each emitted action says about the operation.
    pub open spec fn emits(&self, r: TaskAction) -> bool {
        match r {
            TaskAction::Rename(a, b) => self.waiting is Rename && a@ == self.src@ && b@
                == self.target@,
            TaskAction::Tell(k, _) => self.waiting is ErrorAck && k == ErrorKind::RenameFailed
                && !self.renamed,
            TaskAction::Finished(o) => self.waiting is Done && !o.cancelled && o.complete
                == self.renamed,
            _ => false,
        }
    }

    /// Begins the rename.  Returns the operation and its one action.
    pub fn begin(src: FsPath, target: FsPath) -> (r: (RenameOp, TaskAction))
        ensures
            r.0.wf(),
            r.0.emits(r.1),
            r.0.src == src,
            r.0.target == target,
            r.0.waiting is Rename,
            !r.0.finished(),
    {
        let a = TaskAction::Rename(src.duplicate(), target.duplicate());
        let op = RenameOp { src, target, waiting: RenameWaiting::Rename, renamed: false };
        (op, a)
    }

    /// Feeds the operation the answer to its last action and takes the next
    /// one: success ends it at once as complete; failure is shown once and
    /// ends it as failed.
    pub fn step(&mut self, event: TaskEvent) -> (r: TaskAction)
        requires
            old(self).wf(),
            !old(self).finished(),
            rename_event_matches(old(self).waiting, event),
        ensures
            final(self).wf(),
            final(self).emits(r),
            final(self).src == old(self).src,
            final(self).target == old(self).target,
            final(self).finished() <==> r is Finished,
            old(self).waiting is Rename && event == TaskEvent::Done(None::<Vec<u8>>) ==> (
            r matches TaskAction::Finished(o) && o.complete),
            old(self).waiting is Rename ==> (event matches TaskEvent::Done(e) ==> (
            e matches Some(detail) ==> crate::task::told(
                r,
                ErrorKind::RenameFailed,
                rename_failed_msg(last_name(old(self).src@), detail@),
            ) && final(self).waiting is ErrorAck && !final(self).renamed)),
            old(self).waiting is ErrorAck ==> (r matches TaskAction::Finished(o) && !o.complete),
    {
        match event {
            TaskEvent::Done(err) => {
                match err {
                    None => {
                        self.renamed = true;
                        self.waiting = RenameWaiting::Done;
                        TaskAction::Finished(
                            TaskOutcome { cancelled: false, complete: true, failed: Vec::new() },
                        )
                    },
                    Some(detail) => {
                        self.waiting = RenameWaiting::ErrorAck;
                        let shown = display_name(&Vec::new(), &self.src);
                        TaskAction::Tell(
                            ErrorKind::RenameFailed,
                            DialogRequest::new(
                                note_with("Cannot rename ", &shown, ", ", &detail),
                                DialogAction::ok_only(),
                            ),
                        )
                    },
                }
            },
            _ => {
                // Only the acknowledgement of the failure message remains.
                self.waiting = RenameWaiting::Done;
                TaskAction::Finished(
                    TaskOutcome { cancelled: false, complete: false, failed: Vec::new() },
                )
            },
        }
    }
}

} // verus!
