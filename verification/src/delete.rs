use vstd::prelude::*;
use vstd::string::*;

use crate::bytes::clone_bytes;
use crate::bytes::note;
use crate::bytes::note_name;
use crate::bytes::note_with;
use crate::dialog::DialogAction;
use crate::dialog::DialogRequest;
use crate::fs_path::display_name;
use crate::fs_path::path_contains;
use crate::fs_path::path_in;
use crate::fs_path::FsPath;
use crate::policy::confirms;
use crate::policy::policy_update;
use crate::task::asked;
use crate::task::told;
use crate::task::ErrorKind;
use crate::task::TaskAction;
use crate::task::TaskEvent;
use crate::task::TaskOutcome;

verus! {

/// One level of the recursive walk: the entries still to handle, how far the
/// level came, how many entries it removed, and the directory that may be
/// removed once every child of it is gone.
pub struct DeleteFrame {
    /// The entries of this level, in listing order.
    pub items: Vec<FsPath>,
    /// How many entries were taken on (the current one included once its
    /// handling began and ended).
    pub idx: usize,
    /// The readable path prefix for messages about this level's entries.
    pub prefix: Vec<u8>,
    /// How many entries of this level are gone.
    pub deleted: usize,
    /// The directory this level descended into, if any: it is removed only
    /// when every child was removed.
    pub dir: Option<FsPath>,
    /// The readable name of that directory.
    pub dir_name: Vec<u8>,
}

/// What the delete engine waits for after its last action.
#[derive(Clone, Copy, PartialEq, Eq, Structural, Debug)]
pub enum DeleteWaiting {
    /// The cancellation poll made before the current entry.
    Cancel,
    /// The current entry's kind.
    Stat,
    /// The answer whether to delete the current directory recursively.
    DirAsk,
    /// The answer whether to delete the current file.
    FileAsk,
    /// The current directory's children.
    ReadDir,
    /// The progress message being taken.
    Progress,
    /// The removal of the current file.
    RemoveFile,
    /// The removal of a directory whose children are all gone.
    RemoveDir,
    /// The acknowledgement of an error message.
    ErrorAck,
    /// Nothing: the walk is over.
    Done,
}

/// Which answer fits the delete engine's pending wait.
pub open spec fn delete_event_matches(w: DeleteWaiting, ev: TaskEvent) -> bool {
    match w {
        DeleteWaiting::Cancel => ev is CancelPending,
        DeleteWaiting::Stat => ev is Stat,
        DeleteWaiting::DirAsk => ev is Answer,
        DeleteWaiting::FileAsk => ev is Answer,
        DeleteWaiting::ErrorAck => ev is Answer,
        DeleteWaiting::ReadDir => ev is Listing,
        DeleteWaiting::Progress => ev is Ack,
        DeleteWaiting::RemoveFile => ev is Done,
        DeleteWaiting::RemoveDir => ev is Done,
        DeleteWaiting::Done => false,
    }
}

/// A sound level of the walk.  A level that still has a directory to remove
/// below it (every level but the deepest) has taken on more entries than it
/// counted as deleted: its own directory entry is still open.
pub open spec fn frame_wf(f: DeleteFrame, last: bool, exceptions: Seq<FsPath>) -> bool {
    &&& f.idx <= f.items@.len()
    &&& f.deleted <= f.idx
    &&& (!last ==> f.deleted < f.idx)
    &&& (f.dir matches Some(p) ==> !path_in(exceptions, p@))
}

/// The question before one file is deleted.
pub open spec fn delete_file_msg(name: Seq<u8>) -> Seq<u8> {
    "Delete ".spec_bytes() + name + "?".spec_bytes()
}

/// The question before one directory is deleted recursively.
pub open spec fn delete_dir_msg(name: Seq<u8>) -> Seq<u8> {
    "Recursive delete directory ".spec_bytes() + name + "?".spec_bytes()
}

/// The progress line while one file is deleted.
pub open spec fn deleting_msg(name: Seq<u8>) -> Seq<u8> {
    "Deleting ".spec_bytes() + name
}

/// The report when an entry's kind cannot be read.
pub open spec fn stat_failed_msg(name: Seq<u8>) -> Seq<u8> {
    "Cannot read metadata of ".spec_bytes() + name
}

/// The report when a directory's children cannot be listed.
pub open spec fn read_dir_failed_msg(name: Seq<u8>) -> Seq<u8> {
    "Cannot read dir ".spec_bytes() + name + ".".spec_bytes()
}

/// The report when a file cannot be removed.
pub open spec fn remove_file_failed_msg(name: Seq<u8>, detail: Seq<u8>) -> Seq<u8> {
    "Cannot remove file ".spec_bytes() + name + ", ".spec_bytes() + detail
}

/// The report when a directory cannot be removed.
pub open spec fn remove_dir_failed_msg(name: Seq<u8>, detail: Seq<u8>) -> Seq<u8> {
    "Cannot remove dir ".spec_bytes() + name + ". ".spec_bytes() + detail
}

/// The recursive delete engine: walks the given entries and their
/// descendants, asks once per kind (file or directory) unless the cached
/// decision already answers, removes files first and a directory only when
/// every child of it was removed, skips excepted paths, and stops at once
/// when the user dismisses the operation.
pub struct DeleteEngine {
    /// The levels of the walk, outermost first.
    pub stack: Vec<DeleteFrame>,
    /// The cached decision for "delete this file".
    pub file_policy: Option<bool>,
    /// The cached decision for "recursively delete this directory".
    pub dir_policy: Option<bool>,
    /// Paths that are never removed.
    pub exceptions: Vec<FsPath>,
    /// Whether the user dismissed the operation.
    pub cancelled: bool,
    /// What the last action awaits.
    pub waiting: DeleteWaiting,
    /// The entry the walk handles at the moment.
    pub cur_path: FsPath,
    /// Its readable name, for messages.
    pub cur_name: Vec<u8>,
}

impl DeleteEngine {
    /// The walk is over; no further action follows.
    pub open spec fn finished(&self) -> bool {
        self.waiting is Done
    }

    /// Under these waits the engine handles one current entry.
    pub open spec fn at_entry(&self) -> bool {
        match self.waiting {
            DeleteWaiting::Cancel => true,
            DeleteWaiting::Stat => true,
            DeleteWaiting::DirAsk => true,
            DeleteWaiting::FileAsk => true,
            DeleteWaiting::ReadDir => true,
            DeleteWaiting::Progress => true,
            DeleteWaiting::RemoveFile => true,
            _ => false,
        }
    }

    /// Under these waits the current path has passed the exception check.
    pub open spec fn past_exception_check(&self) -> bool {
        match self.waiting {
            DeleteWaiting::Stat => true,
            DeleteWaiting::DirAsk => true,
            DeleteWaiting::FileAsk => true,
            DeleteWaiting::ReadDir => true,
            DeleteWaiting::Progress => true,
            DeleteWaiting::RemoveFile => true,
            DeleteWaiting::RemoveDir => true,
            _ => false,
        }
    }

    /// Every level of the walk is sound.
    pub open spec fn frames_wf(&self) -> bool {
        forall|i: int|
            0 <= i < self.stack@.len() ==> frame_wf(
                #[trigger] self.stack@[i],
                i == self.stack@.len() - 1,
                self.exceptions@,
            )
    }

    /// A sound engine state: the levels are sound, the current entry is the
    /// top level's next item, a question is pending only while its decision
    /// is open, no excepted path is ever past the exception check, and a
    /// dismissed walk is over.
    pub open spec fn wf(&self) -> bool {
        &&& self.stack@.len() > 0
        &&& self.frames_wf()
        &&& (self.at_entry() ==> {
            &&& self.stack@.last().idx < self.stack@.last().items@.len()
            &&& self.cur_path@ == self.stack@.last().items@[self.stack@.last().idx as int]@
        })
        &&& (self.waiting is RemoveDir ==> {
            &&& self.stack@.len() >= 2
            &&& self.stack@.last().idx == self.stack@.last().items@.len()
            &&& self.stack@.last().deleted == self.stack@.last().items@.len()
            &&& (self.stack@.last().dir matches Some(d) && d@ == self.cur_path@)
        })
        &&& (self.past_exception_check() ==> !path_in(self.exceptions@, self.cur_path@))
        &&& (self.waiting is DirAsk ==> self.dir_policy is None)
        &&& (self.waiting is FileAsk ==> self.file_policy is None)
        &&& (self.cancelled ==> self.waiting is Done)
    }

    /// What each emitted action says about the engine that emitted it.  In
    /// particular a removal is requested only for the current entry, which is
    /// never an excepted path.
    pub open spec fn emits(&self, r: TaskAction) -> bool {
        match r {
            TaskAction::PollCancel => self.waiting is Cancel,
            TaskAction::Stat(p) => self.waiting is Stat && p@ == self.cur_path@,
            TaskAction::Ask(_) => self.waiting is DirAsk || self.waiting is FileAsk,
            TaskAction::Tell(_, _) => self.waiting is ErrorAck,
            TaskAction::Progress(_) => self.waiting is Progress,
            TaskAction::ReadDir(p) => self.waiting is ReadDir && p@ == self.cur_path@,
            TaskAction::RemoveFile(p) => self.waiting is RemoveFile && p@ == self.cur_path@
                && !path_in(self.exceptions@, p@),
            TaskAction::RemoveDir(p) => {
                // The directory goes only when the level that walked its
                // children counted every one of them as removed.
                &&& self.waiting is RemoveDir
                &&& p@ == self.cur_path@
                &&& !path_in(self.exceptions@, p@)
                &&& self.stack@.len() >= 2
                &&& self.stack@.last().deleted == self.stack@.last().items@.len()
                &&& self.stack@.last().idx == self.stack@.last().items@.len()
                &&& (self.stack@.last().dir matches Some(d) && d@ == p@)
            },
            TaskAction::Finished(o) => {
                // What the walk reports: whether it was dismissed, and
                // whether the outermost level counted every entry removed.
                &&& self.waiting is Done
                &&& o.cancelled == self.cancelled
                &&& o.failed@.len() == 0
                &&& (o.cancelled ==> !o.complete)
                &&& (!o.cancelled ==> self.stack@.len() == 1 && o.complete == (
                    self.stack@[0].deleted == self.stack@[0].items@.len()))
            },
            _ => false,
        }
    }

    /// The current entry was passed over: its level moved one entry on
    /// without counting it as deleted, and no other level changed.
    pub open spec fn entry_passed(pre: DeleteEngine, post: DeleteEngine) -> bool {
        &&& post.stack@.len() == pre.stack@.len()
        &&& post.stack@.last().idx == pre.stack@.last().idx + 1
        &&& post.stack@.last().deleted == pre.stack@.last().deleted
        &&& post.stack@.last().items == pre.stack@.last().items
        &&& forall|i: int|
            0 <= i < pre.stack@.len() - 1 ==> #[trigger] post.stack@[i] == pre.stack@[i]
    }

    /// Takes the current entry on without counting it as deleted.
    fn skip_current(&mut self)
        requires
            old(self).frames_wf(),
            old(self).stack@.len() > 0,
            old(self).stack@.last().idx < old(self).stack@.last().items@.len(),
        ensures
            final(self).frames_wf(),
            final(self).stack@.len() == old(self).stack@.len(),
            final(self).stack@.last().idx == old(self).stack@.last().idx + 1,
            final(self).stack@.last().deleted == old(self).stack@.last().deleted,
            final(self).stack@.last().items == old(self).stack@.last().items,
            forall|i: int|
                0 <= i < old(self).stack@.len() - 1 ==> final(self).stack@[i] == old(
                    self,
                ).stack@[i],
            final(self).file_policy == old(self).file_policy,
            final(self).dir_policy == old(self).dir_policy,
            final(self).exceptions == old(self).exceptions,
            final(self).cancelled == old(self).cancelled,
            final(self).waiting == old(self).waiting,
            final(self).cur_path == old(self).cur_path,
            final(self).cur_name == old(self).cur_name,
    {
        let n = self.stack.len();
        let mut f = match self.stack.pop() {
            Some(f) => f,
            None => {
                proof {
                    assert(false);
                }
                return ;
            },
        };
        proof {
            assert(f == old(self).stack@.last());
            assert(f.idx < f.items.len());
        }
        f.idx = f.idx + 1;
        self.stack.push(f);
        proof {
            assert forall|i: int| 0 <= i < self.stack@.len() implies frame_wf(
                self.stack@[i],
                i == self.stack@.len() - 1,
                self.exceptions@,
            ) by {
                if i < self.stack@.len() - 1 {
                    assert(self.stack@[i] == old(self).stack@[i]);
                    assert(frame_wf(
                        old(self).stack@[i],
                        i == old(self).stack@.len() - 1,
                        old(self).exceptions@,
                    ));
                }
            }
        }
    }

    /// Counts the current entry as deleted and takes it on.
    fn count_current(&mut self)
        requires
            old(self).frames_wf(),
            old(self).stack@.len() > 0,
            old(self).stack@.last().idx < old(self).stack@.last().items@.len(),
        ensures
            final(self).frames_wf(),
            final(self).stack@.len() == old(self).stack@.len(),
            final(self).file_policy == old(self).file_policy,
            final(self).dir_policy == old(self).dir_policy,
            final(self).exceptions == old(self).exceptions,
            final(self).cancelled == old(self).cancelled,
            final(self).waiting == old(self).waiting,
    {
        let mut f = match self.stack.pop() {
            Some(f) => f,
            None => {
                proof {
                    assert(false);
                }
                return ;
            },
        };
        proof {
            assert(f == old(self).stack@.last());
            assert(f.idx < f.items.len());
            assert(f.deleted <= f.idx);
        }
        f.deleted = f.deleted + 1;
        f.idx = f.idx + 1;
        self.stack.push(f);
        proof {
            assert forall|i: int| 0 <= i < self.stack@.len() implies frame_wf(
                self.stack@[i],
                i == self.stack@.len() - 1,
                self.exceptions@,
            ) by {
                if i < self.stack@.len() - 1 {
                    assert(self.stack@[i] == old(self).stack@[i]);
                    assert(frame_wf(
                        old(self).stack@[i],
                        i == old(self).stack@.len() - 1,
                        old(self).exceptions@,
                    ));
                }
            }
        }
    }

    /// Counts the directory the walk just left as deleted on its own level.
    fn count_parent(&mut self)
        requires
            old(self).frames_wf(),
            old(self).stack@.len() > 0,
            old(self).stack@.last().deleted < old(self).stack@.last().idx,
        ensures
            final(self).frames_wf(),
            final(self).stack@.len() == old(self).stack@.len(),
            final(self).file_policy == old(self).file_policy,
            final(self).dir_policy == old(self).dir_policy,
            final(self).exceptions == old(self).exceptions,
            final(self).cancelled == old(self).cancelled,
            final(self).waiting == old(self).waiting,
    {
        let mut f = match self.stack.pop() {
            Some(f) => f,
            None => {
                proof {
                    assert(false);
                }
                return ;
            },
        };
        proof {
            assert(f == old(self).stack@.last());
            assert(f.deleted < f.idx);
            assert(f.idx <= usize::MAX);
        }
        f.deleted = f.deleted + 1;
        self.stack.push(f);
        proof {
            assert forall|i: int| 0 <= i < self.stack@.len() implies frame_wf(
                self.stack@[i],
                i == self.stack@.len() - 1,
                self.exceptions@,
            ) by {
                if i < self.stack@.len() - 1 {
                    assert(self.stack@[i] == old(self).stack@[i]);
                    assert(frame_wf(
                        old(self).stack@[i],
                        i == old(self).stack@.len() - 1,
                        old(self).exceptions@,
                    ));
                }
            }
        }
    }

    /// Moves the walk to its next suspension point: polls before the next
    /// entry, asks to remove a directory whose children were all counted
    /// removed, or ends the walk at the outermost level.  A dismissed walk
    /// ends at once, removing nothing further.
    fn advance(&mut self) -> (r: TaskAction)
        requires
            old(self).frames_wf(),
            old(self).stack@.len() > 0,
        ensures
            final(self).wf(),
            final(self).emits(r),
            final(self).file_policy == old(self).file_policy,
            final(self).dir_policy == old(self).dir_policy,
            final(self).exceptions == old(self).exceptions,
            final(self).cancelled == old(self).cancelled,
            old(self).cancelled ==> r is Finished,
            final(self).finished() <==> r is Finished,
            r is PollCancel || r is RemoveDir || r is Finished,
            final(self).stack@.len() <= old(self).stack@.len(),
            forall|i: int|
                0 <= i < final(self).stack@.len() ==> #[trigger] final(self).stack@[i]
                    == old(self).stack@[i],
    {
        proof {
            assert(self.stack@ =~= old(self).stack@.subrange(0, self.stack@.len() as int));
        }
        loop
            invariant
                self.frames_wf(),
                self.stack@.len() > 0,
                self.stack@.len() <= old(self).stack@.len(),
                self.stack@ == old(self).stack@.subrange(0, self.stack@.len() as int),
                self.file_policy == old(self).file_policy,
                self.dir_policy == old(self).dir_policy,
                self.exceptions == old(self).exceptions,
                self.cancelled == old(self).cancelled,
            decreases self.stack.len(),
        {
            if self.cancelled {
                self.waiting = DeleteWaiting::Done;
                return TaskAction::Finished(
                    TaskOutcome { cancelled: true, complete: false, failed: Vec::new() },
                );
            }
            let n = self.stack.len();
            let top_idx = self.stack[n - 1].idx;
            let top_len = self.stack[n - 1].items.len();
            if top_idx < top_len {
                self.cur_path = self.stack[n - 1].items[top_idx].duplicate();
                self.cur_name = display_name(&self.stack[n - 1].prefix, &self.stack[n - 1].items[top_idx]);
                self.waiting = DeleteWaiting::Cancel;
                return TaskAction::PollCancel;
            }
            // This level is exhausted.
            let all = self.stack[n - 1].deleted == top_len;
            if n == 1 {
                // The outermost level decides what the walk reports.
                self.waiting = DeleteWaiting::Done;
                return TaskAction::Finished(
                    TaskOutcome { cancelled: false, complete: all, failed: Vec::new() },
                );
            }
            if all {
                let dir_path = match &self.stack[n - 1].dir {
                    Some(p) => Some(p.duplicate()),
                    None => None,
                };
                match dir_path {
                    Some(p) => {
                        // The level stays until the removal is answered: it
                        // records that every child of the directory went.
                        self.cur_name = clone_bytes(&self.stack[n - 1].dir_name);
                        self.cur_path = p;
                        self.waiting = DeleteWaiting::RemoveDir;
                        return TaskAction::RemoveDir(self.cur_path.duplicate());
                    },
                    None => {},
                }
            }
            // Not every child is gone (or there is no directory to remove):
            // the level above carries on.
            let ghost pre_stack = self.stack@;
            let _ = self.stack.pop();
            proof {
                assert(self.stack@ =~= pre_stack.subrange(0, pre_stack.len() - 1));
                assert(self.stack@ =~= old(self).stack@.subrange(0, self.stack@.len() as int));
                assert forall|i: int| 0 <= i < self.stack@.len() implies frame_wf(
                    self.stack@[i],
                    i == self.stack@.len() - 1,
                    self.exceptions@,
                ) by {
                    assert(self.stack@[i] == pre_stack[i]);
                    assert(frame_wf(pre_stack[i], i == pre_stack.len() - 1, self.exceptions@));
                }
            }
        }
    }

    /// Begins a walk over exactly the given entries, with the given
    /// excepted paths and the given starting decisions (a move's delete
    /// pass presets both to yes).  Returns the engine, holding one level
    /// with the entries untouched, and its first action: the poll before
    /// the first entry, or the finished report where there are none.
    pub fn begin(
        items: Vec<FsPath>,
        exceptions: Vec<FsPath>,
        file_policy: Option<bool>,
        dir_policy: Option<bool>,
    ) -> (r: (DeleteEngine, TaskAction))
        ensures
            r.0.wf(),
            r.0.emits(r.1),
            r.0.file_policy == file_policy,
            r.0.dir_policy == dir_policy,
            r.0.exceptions == exceptions,
            !r.0.cancelled,
            r.0.stack@.len() == 1,
            r.0.stack@[0].items == items,
            r.0.stack@[0].idx == 0,
            r.0.stack@[0].deleted == 0,
            r.0.stack@[0].dir is None,
            r.0.stack@[0].prefix@.len() == 0,
            items@.len() > 0 ==> r.1 is PollCancel && !r.0.finished() && r.0.cur_path@
                == items@[0]@ && r.0.cur_name@ == crate::fs_path::last_name(items@[0]@),
            items@.len() == 0 ==> (r.1 matches TaskAction::Finished(o) && o.complete
                && !o.cancelled),
            r.0.finished() <==> r.1 is Finished,
    {
        let count = items.len();
        let root = DeleteFrame {
            items,
            idx: 0,
            prefix: Vec::new(),
            deleted: 0,
            dir: None,
            dir_name: Vec::new(),
        };
        let mut stack: Vec<DeleteFrame> = Vec::new();
        stack.push(root);
        let mut eng = DeleteEngine {
            stack,
            file_policy,
            dir_policy,
            exceptions,
            cancelled: false,
            waiting: DeleteWaiting::Done,
            cur_path: FsPath::root(),
            cur_name: Vec::new(),
        };
        if count > 0 {
            eng.cur_path = eng.stack[0].items[0].duplicate();
            eng.cur_name = display_name(&eng.stack[0].prefix, &eng.stack[0].items[0]);
            eng.waiting = DeleteWaiting::Cancel;
            proof {
                assert(eng.cur_name@ =~= crate::fs_path::last_name(eng.stack@[0].items@[0]@));
            }
            (eng, TaskAction::PollCancel)
        } else {
            let first = TaskAction::Finished(
                TaskOutcome { cancelled: false, complete: true, failed: Vec::new() },
            );
            (eng, first)
        }
    }

    /// Everything one `step` of the delete engine promises, over the state
    /// before (`pre`), the answer fed in, the state after (`post`) and the
    /// action taken.  Beside soundness and the cached-decision rules, each
    /// decision point is pinned: which question or call follows which
    /// answer, with which message, and what the level bookkeeping does.
    pub open spec fn step_sound(
        pre: DeleteEngine,
        event: TaskEvent,
        post: DeleteEngine,
        r: TaskAction,
    ) -> bool {
        &&& post.wf()
        &&& post.emits(r)
        &&& post.exceptions == pre.exceptions
        // a cached decision is never dropped nor changed
        &&& (pre.file_policy is Some ==> post.file_policy == pre.file_policy)
        &&& (pre.dir_policy is Some ==> post.dir_policy == pre.dir_policy)
        // a question is asked only while its decision is open
        &&& (post.waiting is FileAsk ==> pre.file_policy is None && post.file_policy is None)
        &&& (post.waiting is DirAsk ==> pre.dir_policy is None && post.dir_policy is None)
        // a dismissal ends the walk at once, and nothing else counts as one
        &&& (event == TaskEvent::CancelPending(true) ==> r is Finished)
        &&& (post.cancelled <==> event == TaskEvent::CancelPending(true))
        &&& (post.finished() <==> r is Finished)
        // an entry that is not excepted is examined; an excepted one is
        // passed over without a word
        &&& (event == TaskEvent::CancelPending(false) && !path_in(pre.exceptions@, pre.cur_path@)
            ==> (r matches TaskAction::Stat(p) && p@ == pre.cur_path@) && post.cur_path@
            == pre.cur_path@ && post.cur_name@ == pre.cur_name@)
        &&& (event == TaskEvent::CancelPending(false) && path_in(pre.exceptions@, pre.cur_path@)
            ==> (r is PollCancel || r is RemoveDir || r is Finished))
        // what the entry's kind and the cached decisions lead to
        &&& (pre.waiting is Stat ==> (event matches TaskEvent::Stat(k) ==> match k {
            None => told(r, ErrorKind::StatFailed, stat_failed_msg(pre.cur_name@))
                && DeleteEngine::entry_passed(pre, post),
            Some(kk) => if kk is Directory {
                match pre.dir_policy {
                    Some(true) => (r matches TaskAction::ReadDir(p) && p@ == pre.cur_path@)
                        && post.cur_path@ == pre.cur_path@ && post.cur_name@ == pre.cur_name@,
                    Some(false) => r is PollCancel || r is RemoveDir || r is Finished,
                    None => asked(r, delete_dir_msg(pre.cur_name@)) && post.waiting is DirAsk
                        && post.cur_path@ == pre.cur_path@ && post.cur_name@ == pre.cur_name@,
                }
            } else {
                match pre.file_policy {
                    Some(true) => (r matches TaskAction::Progress(m) && m@ == deleting_msg(
                        pre.cur_name@,
                    )) && post.cur_path@ == pre.cur_path@ && post.cur_name@ == pre.cur_name@,
                    Some(false) => r is PollCancel || r is RemoveDir || r is Finished,
                    None => asked(r, delete_file_msg(pre.cur_name@)) && post.waiting is FileAsk
                        && post.cur_path@ == pre.cur_path@ && post.cur_name@ == pre.cur_name@,
                }
            },
        }))
        // what each answer to a question leads to
        &&& (pre.waiting is DirAsk ==> (event matches TaskEvent::Answer(resp)
            ==> post.dir_policy == crate::policy::policy_after(resp.action) && (
        if confirms(resp.action) {
            (r matches TaskAction::ReadDir(p) && p@ == pre.cur_path@) && post.cur_path@
                == pre.cur_path@ && post.cur_name@ == pre.cur_name@
        } else {
            r is PollCancel || r is RemoveDir || r is Finished
        })))
        &&& (pre.waiting is FileAsk ==> (event matches TaskEvent::Answer(resp)
            ==> post.file_policy == crate::policy::policy_after(resp.action) && (
        if confirms(resp.action) {
            (r matches TaskAction::Progress(m) && m@ == deleting_msg(pre.cur_name@))
                && post.cur_path@ == pre.cur_path@ && post.cur_name@ == pre.cur_name@
        } else {
            r is PollCancel || r is RemoveDir || r is Finished
        })))
        // the confirmed file is removed right after its progress line
        &&& (pre.waiting is Progress && event == TaskEvent::Ack ==> (
        r matches TaskAction::RemoveFile(p) && p@ == pre.cur_path@) && post.cur_path@
            == pre.cur_path@ && post.cur_name@ == pre.cur_name@)
        // the removal's outcome: counted when it went, told when it failed
        &&& (pre.waiting is RemoveFile ==> (event matches TaskEvent::Done(e) ==> match e {
            None => r is PollCancel || r is RemoveDir || r is Finished,
            Some(detail) => told(
                r,
                ErrorKind::RemoveFailed,
                remove_file_failed_msg(pre.cur_name@, detail@),
            ) && DeleteEngine::entry_passed(pre, post),
        }))
        // the walk descends with exactly the children it was handed, under
        // the readable prefix, and an empty directory goes at once
        &&& (pre.waiting is ReadDir ==> (event matches TaskEvent::Listing(ch) ==> match ch {
            None => told(r, ErrorKind::ReadDirFailed, read_dir_failed_msg(pre.cur_name@))
                && DeleteEngine::entry_passed(pre, post),
            Some(items) => {
                &&& post.stack@.len() == pre.stack@.len() + 1
                &&& post.stack@.last().items == items
                &&& post.stack@.last().idx == 0
                &&& post.stack@.last().deleted == 0
                &&& (post.stack@.last().dir matches Some(d) && d@ == pre.cur_path@)
                &&& post.stack@.last().prefix@ == pre.cur_name@ + seq![47u8]
                &&& (items@.len() > 0 ==> r is PollCancel && post.cur_path@ == items@[0]@)
                &&& (items@.len() == 0 ==> (r matches TaskAction::RemoveDir(p) && p@
                    == pre.cur_path@))
            },
        }))
        // a directory removal ends its level either way; a failure is told
        &&& (pre.waiting is RemoveDir ==> (event matches TaskEvent::Done(e) ==> match e {
            None => r is PollCancel || r is RemoveDir || r is Finished,
            Some(detail) => post.stack@.len() == pre.stack@.len() - 1 && told(
                r,
                ErrorKind::RemoveFailed,
                remove_dir_failed_msg(pre.cur_name@, detail@),
            ),
        }))
        // after an acknowledged error the walk carries on
        &&& (pre.waiting is ErrorAck ==> (r is PollCancel || r is RemoveDir || r is Finished))
        // an entry is counted as deleted only by a removal that went
        // through: under every other answer the levels' counts stand
        &&& ((match event {
            TaskEvent::Done(e) => !(e is None) || !(pre.waiting is RemoveFile || pre.waiting
                is RemoveDir),
            _ => true,
        }) ==> forall|i: int|
            0 <= i < post.stack@.len() && i < pre.stack@.len() ==> (
            #[trigger] post.stack@[i]).deleted == pre.stack@[i].deleted)
    }

    /// Feeds the engine the answer to its last action and takes the next
    /// one, as `step_sound` states: a cached decision is never dropped, a
    /// question is asked only while its decision is open, a dismissal ends
    /// the walk at once, and a removal is never requested for an excepted
    /// path.
    pub fn step(&mut self, event: TaskEvent) -> (r: TaskAction)
        requires
            old(self).wf(),
            !old(self).finished(),
            delete_event_matches(old(self).waiting, event),
        ensures
            DeleteEngine::step_sound(*old(self), event, *final(self), r),
    {
        match event {
            TaskEvent::CancelPending(stop) => {
                if stop {
                    self.cancelled = true;
                    self.advance()
                } else {
                    if path_contains(&self.exceptions, &self.cur_path) {
                        self.skip_current();
                        self.advance()
                    } else {
                        self.waiting = DeleteWaiting::Stat;
                        TaskAction::Stat(self.cur_path.duplicate())
                    }
                }
            },
            TaskEvent::Stat(kind) => {
                match kind {
                    None => {
                        self.skip_current();
                        self.waiting = DeleteWaiting::ErrorAck;
                        TaskAction::Tell(
                            ErrorKind::StatFailed,
                            DialogRequest::new(
                                note_name("Cannot read metadata of ", &self.cur_name),
                                DialogAction::ok_only(),
                            ),
                        )
                    },
                    Some(k) => {
                        if k.is_dir() {
                            match self.dir_policy {
                                Some(true) => {
                                    self.waiting = DeleteWaiting::ReadDir;
                                    TaskAction::ReadDir(self.cur_path.duplicate())
                                },
                                Some(false) => {
                                    self.skip_current();
                                    self.advance()
                                },
                                None => {
                                    self.waiting = DeleteWaiting::DirAsk;
                                    TaskAction::Ask(
                                        DialogRequest::new(
                                            note(
                                                "Recursive delete directory ",
                                                &self.cur_name,
                                                "?",
                                            ),
                                            DialogAction::multi_yes_no(),
                                        ),
                                    )
                                },
                            }
                        } else {
                            match self.file_policy {
                                Some(true) => {
                                    self.waiting = DeleteWaiting::Progress;
                                    TaskAction::Progress(note_name("Deleting ", &self.cur_name))
                                },
                                Some(false) => {
                                    self.skip_current();
                                    self.advance()
                                },
                                None => {
                                    self.waiting = DeleteWaiting::FileAsk;
                                    TaskAction::Ask(
                                        DialogRequest::new(
                                            note("Delete ", &self.cur_name, "?"),
                                            DialogAction::multi_yes_no(),
                                        ),
                                    )
                                },
                            }
                        }
                    },
                }
            },
            TaskEvent::Answer(resp) => {
                match self.waiting {
                    DeleteWaiting::DirAsk => {
                        let yes = policy_update(&mut self.dir_policy, resp.action);
                        if yes {
                            self.waiting = DeleteWaiting::ReadDir;
                            TaskAction::ReadDir(self.cur_path.duplicate())
                        } else {
                            self.skip_current();
                            self.advance()
                        }
                    },
                    DeleteWaiting::FileAsk => {
                        let yes = policy_update(&mut self.file_policy, resp.action);
                        if yes {
                            self.waiting = DeleteWaiting::Progress;
                            TaskAction::Progress(note_name("Deleting ", &self.cur_name))
                        } else {
                            self.skip_current();
                            self.advance()
                        }
                    },
                    _ => {
                        // Only an error acknowledgement remains.
                        self.advance()
                    },
                }
            },
            TaskEvent::Ack => {
                self.waiting = DeleteWaiting::RemoveFile;
                TaskAction::RemoveFile(self.cur_path.duplicate())
            },
            TaskEvent::Listing(children) => {
                match children {
                    None => {
                        self.skip_current();
                        self.waiting = DeleteWaiting::ErrorAck;
                        TaskAction::Tell(
                            ErrorKind::ReadDirFailed,
                            DialogRequest::new(
                                note("Cannot read dir ", &self.cur_name, "."),
                                DialogAction::ok_only(),
                            ),
                        )
                    },
                    Some(items) => {
                        let mut child_prefix = clone_bytes(&self.cur_name);
                        child_prefix.push(47u8);  // '/'
                        proof {
                            assert(child_prefix@ =~= old(self).cur_name@ + seq![47u8]);
                        }
                        let dir_path = self.cur_path.duplicate();
                        let dir_name = clone_bytes(&self.cur_name);
                        self.skip_current();
                        let descend = items.len() > 0;
                        if descend {
                            self.cur_path = items[0].duplicate();
                            self.cur_name = display_name(&child_prefix, &items[0]);
                        }
                        self.stack.push(
                            DeleteFrame {
                                items,
                                idx: 0,
                                prefix: child_prefix,
                                deleted: 0,
                                dir: Some(dir_path),
                                dir_name,
                            },
                        );
                        proof {
                            assert forall|i: int| 0 <= i < self.stack@.len() implies frame_wf(
                                self.stack@[i],
                                i == self.stack@.len() - 1,
                                self.exceptions@,
                            ) by {
                                if i < self.stack@.len() - 1 {
                                    assert(frame_wf(
                                        old(self).stack@[i],
                                        i == old(self).stack@.len() - 1,
                                        self.exceptions@,
                                    ));
                                }
                            }
                        }
                        if descend {
                            self.waiting = DeleteWaiting::Cancel;
                            TaskAction::PollCancel
                        } else {
                            // The directory has no children: it may go at
                            // once, its level recording that nothing is left.
                            self.waiting = DeleteWaiting::RemoveDir;
                            TaskAction::RemoveDir(self.cur_path.duplicate())
                        }
                    },
                }
            },
            TaskEvent::Done(err) => {
                match self.waiting {
                    DeleteWaiting::RemoveFile => {
                        match err {
                            None => {
                                self.count_current();
                                self.advance()
                            },
                            Some(detail) => {
                                self.skip_current();
                                self.waiting = DeleteWaiting::ErrorAck;
                                TaskAction::Tell(
                                    ErrorKind::RemoveFailed,
                                    DialogRequest::new(
                                        note_with(
                                            "Cannot remove file ",
                                            &self.cur_name,
                                            ", ",
                                            &detail,
                                        ),
                                        DialogAction::ok_only(),
                                    ),
                                )
                            },
                        }
                    },
                    _ => {
                        // Only the removal of a directory remains.  The
                        // completed level leaves the walk either way.
                        let ghost pre_stack = self.stack@;
                        let _ = self.stack.pop();
                        proof {
                            assert(self.stack@ =~= pre_stack.subrange(0, pre_stack.len() - 1));
                            assert forall|i: int| 0 <= i < self.stack@.len() implies frame_wf(
                                self.stack@[i],
                                i == self.stack@.len() - 1,
                                self.exceptions@,
                            ) by {
                                assert(self.stack@[i] == pre_stack[i]);
                                assert(frame_wf(
                                    pre_stack[i],
                                    i == pre_stack.len() - 1,
                                    self.exceptions@,
                                ));
                            }
                            assert(frame_wf(
                                pre_stack[pre_stack.len() - 2],
                                false,
                                self.exceptions@,
                            ));
                        }
                        match err {
                            None => {
                                self.count_parent();
                                self.advance()
                            },
                            Some(detail) => {
                                self.waiting = DeleteWaiting::ErrorAck;
                                TaskAction::Tell(
                                    ErrorKind::RemoveFailed,
                                    DialogRequest::new(
                                        note_with(
                                            "Cannot remove dir ",
                                            &self.cur_name,
                                            ". ",
                                            &detail,
                                        ),
                                        DialogAction::ok_only(),
                                    ),
                                )
                            },
                        }
                    },
                }
            },
            TaskEvent::TargetStat(_) => {
                // These answers belong to the paste walk: no wait of the
                // delete walk takes them.
                proof {
                    assert(false);
                }
                TaskAction::PollCancel
            },
            TaskEvent::LinkDone(_) => {
                proof {
                    assert(false);
                }
                TaskAction::PollCancel
            },
        }
    }
}

} // verus!
