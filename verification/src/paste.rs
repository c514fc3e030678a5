use vstd::prelude::*;
use vstd::string::*;

use crate::bytes::clone_bytes;
use crate::bytes::note;
use crate::bytes::note_after;
use crate::bytes::note_name;
use crate::bytes::note_with;
use crate::delete::delete_event_matches;
use crate::delete::DeleteEngine;
use crate::dialog::DialogAction;
use crate::dialog::DialogRequest;
use crate::fs_path::clone_paths;
use crate::fs_path::display_name;
use crate::fs_path::last_name;
use crate::fs_path::lemma_paths_match_in;
use crate::fs_path::path_in;
use crate::fs_path::paths_match;
use crate::fs_path::FsPath;
use crate::listing::FileKind;
use crate::policy::confirms;
use crate::policy::policy_update;
use crate::task::asked;
use crate::task::told;
use crate::task::ErrorKind;
use crate::task::TaskAction;
use crate::task::TaskEvent;
use crate::task::TaskOutcome;

verus! {

/// One level of the copy walk: the source entries still to handle, how far
/// the level came, the readable prefix, and the directory the level's
/// entries are reproduced under.
pub struct PasteFrame {
    /// The source entries of this level, in listing order.
    pub items: Vec<FsPath>,
    /// How many entries were taken on.
    pub idx: usize,
    /// The readable path prefix for messages about this level's entries.
    pub prefix: Vec<u8>,
    /// The directory this level's entries are placed in.
    pub dest: FsPath,
}

/// What the paste engine waits for after its last action.
#[derive(Clone, Copy, PartialEq, Eq, Structural, Debug)]
pub enum PasteWaiting {
    /// The cancellation poll made before the current entry.
    Cancel,
    /// The current source entry's kind.
    Stat,
    /// Whether the target exists, and its kind.
    TargetStat,
    /// The answer whether to overwrite the existing target.
    OverwriteAsk,
    /// The progress message being taken.
    Progress,
    /// The creation of the target directory.
    CreateDir,
    /// The current source directory's children.
    ReadDir,
    /// The hard-link attempt.
    Link,
    /// The byte copy.
    Copy,
    /// The acknowledgement of an error message.
    ErrorAck,
    /// Nothing: the walk is over.
    Done,
}

/// Which answer fits the paste engine's pending wait.
pub open spec fn paste_event_matches(w: PasteWaiting, ev: TaskEvent) -> bool {
    match w {
        PasteWaiting::Cancel => ev is CancelPending,
        PasteWaiting::Stat => ev is Stat,
        PasteWaiting::TargetStat => ev is TargetStat,
        PasteWaiting::OverwriteAsk => ev is Answer,
        PasteWaiting::ErrorAck => ev is Answer,
        PasteWaiting::Progress => ev is Ack,
        PasteWaiting::CreateDir => ev is Done,
        PasteWaiting::ReadDir => ev is Listing,
        PasteWaiting::Link => ev is LinkDone,
        PasteWaiting::Copy => ev is Done,
        PasteWaiting::Done => false,
    }
}

/// The question before an existing file is overwritten.
pub open spec fn overwrite_msg(name: Seq<u8>) -> Seq<u8> {
    "Overwrite existing file ".spec_bytes() + name + "?".spec_bytes()
}

/// The progress line while one source is placed.
pub open spec fn placing_msg(should_move: bool, name: Seq<u8>) -> Seq<u8> {
    if should_move {
        "Moving ".spec_bytes() + name
    } else {
        "Copying ".spec_bytes() + name
    }
}

/// The report when a target exists but its kind cannot be read.
pub open spec fn target_unreadable_msg(name: Seq<u8>) -> Seq<u8> {
    name + " exists but cannot read its metadata".spec_bytes()
}

/// The report when a target exists with another kind than its source.
pub open spec fn mismatch_msg(name: Seq<u8>) -> Seq<u8> {
    name + " has different type than its original".spec_bytes()
}

/// The report when a target directory cannot be created.
pub open spec fn create_failed_msg(name: Seq<u8>, detail: Seq<u8>) -> Seq<u8> {
    "Cannot create ".spec_bytes() + name + ", ".spec_bytes() + detail
}

/// The report when a file's bytes cannot be copied.
pub open spec fn copy_failed_msg(name: Seq<u8>, detail: Seq<u8>) -> Seq<u8> {
    "Cannot copy ".spec_bytes() + name + ", ".spec_bytes() + detail
}

/// The report when a source directory's children cannot be listed.
pub open spec fn read_source_failed_msg(name: Seq<u8>) -> Seq<u8> {
    "Cannot read original dir ".spec_bytes() + name
}

/// The target of the current source is pinned: it lands in the level's
/// destination directory under its own name, and its kind is remembered.
pub open spec fn target_pinned(pre: PasteEngine, r: TaskAction, kk: FileKind, post: PasteEngine) -> bool {
    &&& r matches TaskAction::StatTarget(t) ==> t@.rooted == pre.stack@.last().dest@.rooted
        && t@.parts == pre.stack@.last().dest@.parts.push(last_name(pre.cur_path@))
    &&& r is StatTarget
    &&& post.cur_kind == kk
}

/// One more source was recorded as failed: the current one.
pub open spec fn failed_grew(pre: PasteEngine, post: PasteEngine) -> bool {
    &&& post.fail@.len() == pre.fail@.len() + 1
    &&& post.fail@.last()@ == pre.cur_path@
}

/// The recursive paste engine: reproduces the source trees under the
/// destination, asks before overwriting an existing file (one cached
/// decision for the whole operation), reports a type mismatch instead of
/// replacing an entry of another kind, tries a hard link first on a move
/// until one attempt fails, and records every source it could not place.
pub struct PasteEngine {
    /// The levels of the walk, outermost first.
    pub stack: Vec<PasteFrame>,
    /// The cached decision for "overwrite this existing file".
    pub overwrite_policy: Option<bool>,
    /// Whether hard links are still tried for files (a move starts with
    /// true; the first failed attempt clears it for good).
    pub try_link: bool,
    /// Whether this paste is a move.
    pub should_move: bool,
    /// The sources that could not be placed.
    pub fail: Vec<FsPath>,
    /// Whether the user dismissed the operation.
    pub cancelled: bool,
    /// What the last action awaits.
    pub waiting: PasteWaiting,
    /// The source entry the walk handles at the moment.
    pub cur_path: FsPath,
    /// Its readable name, for messages.
    pub cur_name: Vec<u8>,
    /// Where the current entry is placed.
    pub cur_target: FsPath,
    /// The current source entry's kind.
    pub cur_kind: FileKind,
    /// Whether the target existed when it was examined.
    pub target_exists: bool,
}

impl PasteEngine {
    /// The walk is over; no further action follows.
    pub open spec fn finished(&self) -> bool {
        self.waiting is Done
    }

    /// Under these waits the engine handles one current source entry.
    pub open spec fn at_entry(&self) -> bool {
        !(self.waiting is ErrorAck) && !(self.waiting is Done)
    }

    /// Every level of the walk is sound.
    pub open spec fn frames_wf(&self) -> bool {
        forall|i: int|
            0 <= i < self.stack@.len() ==> (#[trigger] self.stack@[i]).idx
                <= self.stack@[i].items@.len()
    }

    /// A sound engine state.
    pub open spec fn wf(&self) -> bool {
        &&& self.frames_wf()
        &&& (self.at_entry() ==> {
            &&& self.stack@.len() > 0
            &&& self.stack@.last().idx < self.stack@.last().items@.len()
            &&& self.cur_path@ == self.stack@.last().items@[self.stack@.last().idx as int]@
        })
        &&& (self.waiting is OverwriteAsk ==> self.overwrite_policy is None)
        &&& (self.waiting is Link ==> self.try_link)
        &&& (self.cancelled ==> self.waiting is Done)
    }

    /// What each emitted action says about the engine that emitted it.  The
    /// paste engine never asks for a removal: what a move deletes is decided
    /// by the delete pass that follows it.
    pub open spec fn emits(&self, r: TaskAction) -> bool {
        match r {
            TaskAction::PollCancel => self.waiting is Cancel,
            TaskAction::Stat(p) => self.waiting is Stat && p@ == self.cur_path@,
            TaskAction::StatTarget(p) => self.waiting is TargetStat && p@ == self.cur_target@,
            TaskAction::Ask(_) => self.waiting is OverwriteAsk,
            TaskAction::Tell(_, _) => self.waiting is ErrorAck,
            TaskAction::Progress(_) => self.waiting is Progress,
            TaskAction::CreateDir(p) => self.waiting is CreateDir && p@ == self.cur_target@,
            TaskAction::ReadDir(p) => self.waiting is ReadDir && p@ == self.cur_path@,
            TaskAction::HardLink(a, b) => self.waiting is Link && a@ == self.cur_path@ && b@
                == self.cur_target@,
            TaskAction::CopyFile(a, b) => self.waiting is Copy && a@ == self.cur_path@ && b@
                == self.cur_target@,
            TaskAction::Finished(o) => {
                // What the walk reports: whether it was dismissed, whether
                // every source was placed, and the sources that were not.
                &&& self.waiting is Done
                &&& o.cancelled == self.cancelled
                &&& paths_match(o.failed@, self.fail@)
                &&& (o.cancelled ==> !o.complete)
                &&& (!o.cancelled ==> o.complete == (self.fail@.len() == 0))
            },
            _ => false,
        }
    }

    /// The current entry was passed over: its level moved one entry on, and
    /// no other level changed.
    pub open spec fn entry_passed(pre: PasteEngine, post: PasteEngine) -> bool {
        &&& post.stack@.len() == pre.stack@.len()
        &&& post.stack@.last().idx == pre.stack@.last().idx + 1
        &&& post.stack@.last().items == pre.stack@.last().items
        &&& post.stack@.last().dest == pre.stack@.last().dest
        &&& forall|i: int|
            0 <= i < pre.stack@.len() - 1 ==> #[trigger] post.stack@[i] == pre.stack@[i]
    }

    /// Takes the current entry on.
    fn skip_current(&mut self)
        requires
            old(self).frames_wf(),
            old(self).stack@.len() > 0,
            old(self).stack@.last().idx < old(self).stack@.last().items@.len(),
        ensures
            final(self).frames_wf(),
            final(self).stack@.len() == old(self).stack@.len(),
            final(self).stack@.last().idx == old(self).stack@.last().idx + 1,
            final(self).stack@.last().items == old(self).stack@.last().items,
            final(self).stack@.last().dest == old(self).stack@.last().dest,
            forall|i: int|
                0 <= i < old(self).stack@.len() - 1 ==> final(self).stack@[i] == old(
                    self,
                ).stack@[i],
            final(self).overwrite_policy == old(self).overwrite_policy,
            final(self).try_link == old(self).try_link,
            final(self).should_move == old(self).should_move,
            final(self).fail == old(self).fail,
            final(self).cancelled == old(self).cancelled,
            final(self).waiting == old(self).waiting,
            final(self).cur_path == old(self).cur_path,
            final(self).cur_name == old(self).cur_name,
            final(self).cur_target == old(self).cur_target,
            final(self).cur_kind == old(self).cur_kind,
            final(self).target_exists == old(self).target_exists,
    {
        let mut f = match self.stack.pop() {
            Some(f) => f,
            None => {
                proof {
                    assert(false);
                }
                return ;
            },
        };
        proof {
            assert(f == old(self).stack@.last());
            assert(f.idx < f.items.len());
        }
        f.idx = f.idx + 1;
        self.stack.push(f);
        proof {
            assert forall|i: int| 0 <= i < self.stack@.len() implies (#[trigger] self.stack@[i]).idx
                <= self.stack@[i].items@.len() by {
                if i < self.stack@.len() - 1 {
                    assert(self.stack@[i] == old(self).stack@[i]);
                }
            }
        }
    }

    /// Records the current source as one that could not be placed.
    fn record_failure(&mut self)
        ensures
            final(self).fail@ == old(self).fail@.push(final(self).fail@.last()),
            final(self).fail@.last()@ == old(self).cur_path@,
            old(self).fail@.is_prefix_of(final(self).fail@),
            final(self).stack == old(self).stack,
            final(self).overwrite_policy == old(self).overwrite_policy,
            final(self).try_link == old(self).try_link,
            final(self).should_move == old(self).should_move,
            final(self).cancelled == old(self).cancelled,
            final(self).waiting == old(self).waiting,
            final(self).cur_path == old(self).cur_path,
            final(self).cur_name == old(self).cur_name,
            final(self).cur_target == old(self).cur_target,
            final(self).cur_kind == old(self).cur_kind,
            final(self).target_exists == old(self).target_exists,
    {
        let p = self.cur_path.duplicate();
        self.fail.push(p);
        proof {
            assert(old(self).fail@.is_prefix_of(self.fail@)) by {
                assert(self.fail@.subrange(0, old(self).fail@.len() as int) =~= old(self).fail@);
            }
        }
    }

    /// Moves the walk to its next suspension point: polls before the next
    /// entry or ends the walk.  A dismissed walk ends at once.
    fn advance(&mut self) -> (r: TaskAction)
        requires
            old(self).frames_wf(),
        ensures
            final(self).wf(),
            final(self).emits(r),
            final(self).overwrite_policy == old(self).overwrite_policy,
            final(self).try_link == old(self).try_link,
            final(self).should_move == old(self).should_move,
            final(self).fail == old(self).fail,
            final(self).cancelled == old(self).cancelled,
            old(self).cancelled ==> r is Finished,
            final(self).finished() <==> r is Finished,
            r is PollCancel || r is Finished,
    {
        loop
            invariant
                self.frames_wf(),
                self.overwrite_policy == old(self).overwrite_policy,
                self.try_link == old(self).try_link,
                self.should_move == old(self).should_move,
                self.fail == old(self).fail,
                self.cancelled == old(self).cancelled,
            decreases self.stack.len(),
        {
            let ghost pre_stack = self.stack@;
            if self.cancelled {
                self.waiting = PasteWaiting::Done;
                let failed = clone_paths(&self.fail);
                return TaskAction::Finished(
                    TaskOutcome { cancelled: true, complete: false, failed },
                );
            }
            let f = match self.stack.pop() {
                None => {
                    self.waiting = PasteWaiting::Done;
                    let failed = clone_paths(&self.fail);
                    let complete = self.fail.len() == 0;
                    return TaskAction::Finished(
                        TaskOutcome { cancelled: false, complete, failed },
                    );
                },
                Some(f) => f,
            };
            if f.idx < f.items.len() {
                self.cur_path = f.items[f.idx].duplicate();
                self.cur_name = display_name(&f.prefix, &f.items[f.idx]);
                self.stack.push(f);
                self.waiting = PasteWaiting::Cancel;
                proof {
                    assert(self.stack@ =~= pre_stack);
                }
                return TaskAction::PollCancel;
            }
            // This level is exhausted: the level above carries on.
            let left = self.stack.len();
            if left == 0 {
                self.waiting = PasteWaiting::Done;
                let failed = clone_paths(&self.fail);
                let complete = self.fail.len() == 0;
                return TaskAction::Finished(TaskOutcome { cancelled: false, complete, failed });
            }
            proof {
                assert(self.stack@ =~= pre_stack.subrange(0, pre_stack.len() - 1));
                assert forall|i: int| 0 <= i < self.stack@.len() implies (
                #[trigger] self.stack@[i]).idx <= self.stack@[i].items@.len() by {
                    assert(self.stack@[i] == pre_stack[i]);
                }
            }
        }
    }

    /// The progress step: tells the driver what is being moved or copied.
    fn to_progress(&mut self) -> (r: TaskAction)
        ensures
            final(self).waiting is Progress,
            final(self).stack == old(self).stack,
            final(self).overwrite_policy == old(self).overwrite_policy,
            final(self).try_link == old(self).try_link,
            final(self).should_move == old(self).should_move,
            final(self).fail == old(self).fail,
            final(self).cancelled == old(self).cancelled,
            final(self).cur_path == old(self).cur_path,
            final(self).cur_name == old(self).cur_name,
            final(self).cur_target == old(self).cur_target,
            final(self).cur_kind == old(self).cur_kind,
            final(self).target_exists == old(self).target_exists,
            r matches TaskAction::Progress(m) && m@ == placing_msg(
                old(self).should_move,
                old(self).cur_name@,
            ),
    {
        self.waiting = PasteWaiting::Progress;
        if self.should_move {
            TaskAction::Progress(note_name("Moving ", &self.cur_name))
        } else {
            TaskAction::Progress(note_name("Copying ", &self.cur_name))
        }
    }

    /// Begins a copy or move of exactly the given sources into the
    /// destination directory.  Returns the engine, holding one level with
    /// the sources untouched, and its first action: the poll before the
    /// first source, or the finished report where there are none.
    pub fn begin(sources: Vec<FsPath>, dest: FsPath, should_move: bool) -> (r: (
        PasteEngine,
        TaskAction,
    ))
        ensures
            r.0.wf(),
            r.0.emits(r.1),
            r.0.overwrite_policy is None,
            r.0.try_link == should_move,
            r.0.should_move == should_move,
            r.0.fail@.len() == 0,
            !r.0.cancelled,
            r.0.stack@.len() == 1,
            r.0.stack@[0].items == sources,
            r.0.stack@[0].idx == 0,
            r.0.stack@[0].dest == dest,
            r.0.stack@[0].prefix@.len() == 0,
            sources@.len() > 0 ==> r.1 is PollCancel && !r.0.finished() && r.0.cur_path@
                == sources@[0]@ && r.0.cur_name@ == last_name(sources@[0]@),
            sources@.len() == 0 ==> (r.1 matches TaskAction::Finished(o) && o.complete
                && !o.cancelled && o.failed@.len() == 0),
            r.0.finished() <==> r.1 is Finished,
    {
        let count = sources.len();
        let root = PasteFrame { items: sources, idx: 0, prefix: Vec::new(), dest };
        let mut stack: Vec<PasteFrame> = Vec::new();
        stack.push(root);
        let mut eng = PasteEngine {
            stack,
            overwrite_policy: None,
            try_link: should_move,
            should_move,
            fail: Vec::new(),
            cancelled: false,
            waiting: PasteWaiting::Done,
            cur_path: FsPath::root(),
            cur_name: Vec::new(),
            cur_target: FsPath::root(),
            cur_kind: FileKind::Unknown,
            target_exists: false,
        };
        if count > 0 {
            eng.cur_path = eng.stack[0].items[0].duplicate();
            eng.cur_name = display_name(&eng.stack[0].prefix, &eng.stack[0].items[0]);
            eng.waiting = PasteWaiting::Cancel;
            proof {
                assert(eng.cur_name@ =~= last_name(eng.stack@[0].items@[0]@));
            }
            (eng, TaskAction::PollCancel)
        } else {
            let first = TaskAction::Finished(
                TaskOutcome { cancelled: false, complete: true, failed: Vec::new() },
            );
            proof {
                assert(paths_match(Seq::<FsPath>::empty(), eng.fail@));
            }
            (eng, first)
        }
    }

    /// Everything one `step` of the paste engine promises, over the state
    /// before (`pre`), the answer fed in, the state after (`post`) and the
    /// action taken.  Beside soundness and the cached-decision rules, each
    /// decision point is pinned: where the source lands, when the overwrite
    /// question is asked, when the fast path is tried, which failures are
    /// recorded with which message, and that the failed set grows only by
    /// the entry that failed.
    pub open spec fn step_sound(
        pre: PasteEngine,
        event: TaskEvent,
        post: PasteEngine,
        r: TaskAction,
    ) -> bool {
        &&& post.wf()
        &&& post.emits(r)
        &&& post.should_move == pre.should_move
        // the cached overwrite decision is never dropped nor changed, and
        // its question stands only while it is open
        &&& (pre.overwrite_policy is Some ==> post.overwrite_policy == pre.overwrite_policy)
        &&& (post.waiting is OverwriteAsk ==> pre.overwrite_policy is None
            && post.overwrite_policy is None)
        // a failed hard link disables the fast path for good
        &&& (!pre.try_link ==> !post.try_link)
        &&& (r matches TaskAction::HardLink(a, b) ==> pre.try_link)
        &&& (pre.waiting is Link && event == TaskEvent::LinkDone(false) ==> !post.try_link)
        // the failed set only grows, and only by the entry that failed
        &&& pre.fail@.is_prefix_of(post.fail@)
        &&& (post.fail@ == pre.fail@ || failed_grew(pre, post))
        // a dismissal ends the walk at once, and nothing else counts as one
        &&& (event == TaskEvent::CancelPending(true) ==> r is Finished)
        &&& (post.cancelled <==> event == TaskEvent::CancelPending(true))
        &&& (post.finished() <==> r is Finished)
        // every entry is examined
        &&& (event == TaskEvent::CancelPending(false) ==> (r matches TaskAction::Stat(p) && p@
            == pre.cur_path@) && post.cur_path@ == pre.cur_path@ && post.cur_name@
            == pre.cur_name@ && post.fail@ == pre.fail@)
        // the source's kind decides the target to examine
        &&& (pre.waiting is Stat ==> (event matches TaskEvent::Stat(k) ==> match k {
            None => told(r, ErrorKind::StatFailed, crate::delete::stat_failed_msg(pre.cur_name@))
                && failed_grew(pre, post) && PasteEngine::entry_passed(pre, post),
            Some(kk) => target_pinned(pre, r, kk, post) && post.cur_path@ == pre.cur_path@
                && post.cur_name@ == pre.cur_name@ && post.fail@ == pre.fail@,
        }))
        // what the target's state leads to
        &&& (pre.waiting is TargetStat ==> (event matches TaskEvent::TargetStat(f) ==> match f {
            None => r is Progress && !post.target_exists && post.cur_path@ == pre.cur_path@
                && post.cur_target@ == pre.cur_target@ && post.cur_name@ == pre.cur_name@
                && post.fail@ == pre.fail@,
            Some(inner) => match inner {
                None => told(r, ErrorKind::StatFailed, target_unreadable_msg(pre.cur_name@))
                    && failed_grew(pre, post) && PasteEngine::entry_passed(pre, post),
                Some(tk) => if tk != pre.cur_kind {
                    told(r, ErrorKind::TypeMismatch, mismatch_msg(pre.cur_name@)) && failed_grew(
                        pre,
                        post,
                    ) && PasteEngine::entry_passed(pre, post)
                } else if !(tk is Directory) {
                    match pre.overwrite_policy {
                        Some(true) => r is Progress && post.cur_path@ == pre.cur_path@
                            && post.cur_target@ == pre.cur_target@ && post.cur_name@
                            == pre.cur_name@ && post.fail@ == pre.fail@,
                        Some(false) => failed_grew(pre, post) && (r is PollCancel
                            || r is Finished),
                        None => asked(r, overwrite_msg(pre.cur_name@)) && post.waiting
                            is OverwriteAsk && post.cur_path@ == pre.cur_path@ && post.cur_target@
                            == pre.cur_target@ && post.cur_name@ == pre.cur_name@ && post.fail@
                            == pre.fail@,
                    }
                } else {
                    r is Progress && post.cur_path@ == pre.cur_path@ && post.cur_target@
                        == pre.cur_target@ && post.cur_name@ == pre.cur_name@ && post.fail@
                        == pre.fail@
                },
            },
        }))
        // what the overwrite answer leads to
        &&& (pre.waiting is OverwriteAsk ==> (event matches TaskEvent::Answer(resp)
            ==> post.overwrite_policy == crate::policy::policy_after(resp.action) && (
        if confirms(resp.action) {
            r is Progress && post.cur_path@ == pre.cur_path@ && post.cur_target@
                == pre.cur_target@ && post.cur_name@ == pre.cur_name@ && post.fail@ == pre.fail@
        } else {
            failed_grew(pre, post) && (r is PollCancel || r is Finished)
        })))
        // every progress line names what is placed
        &&& (r matches TaskAction::Progress(m) ==> m@ == placing_msg(
            pre.should_move,
            pre.cur_name@,
        ))
        // after the progress line: a directory is entered or created, a
        // file is linked while the fast path stands, else copied
        &&& (pre.waiting is Progress && event == TaskEvent::Ack ==> (post.cur_path@
            == pre.cur_path@ && post.cur_target@ == pre.cur_target@ && post.cur_name@
            == pre.cur_name@ && post.fail@ == pre.fail@ && (
        if pre.cur_kind is Directory {
            if pre.target_exists {
                r matches TaskAction::ReadDir(p) && p@ == pre.cur_path@
            } else {
                r matches TaskAction::CreateDir(t) && t@ == pre.cur_target@
            }
        } else {
            if pre.try_link {
                r matches TaskAction::HardLink(a, b) && a@ == pre.cur_path@ && b@
                    == pre.cur_target@
            } else {
                r matches TaskAction::CopyFile(a, b) && a@ == pre.cur_path@ && b@
                    == pre.cur_target@
            }
        })))
        // a failed link falls back to the copy of the same file, at once
        &&& (pre.waiting is Link ==> (event matches TaskEvent::LinkDone(made) ==> (
        if made {
            (r is PollCancel || r is Finished) && post.fail@ == pre.fail@
        } else {
            (r matches TaskAction::CopyFile(a, b) && a@ == pre.cur_path@ && b@
                == pre.cur_target@) && post.cur_path@ == pre.cur_path@ && post.cur_target@
                == pre.cur_target@ && post.cur_name@ == pre.cur_name@ && post.fail@ == pre.fail@
        })))
        // a created directory is entered; a failure is told and recorded
        &&& (pre.waiting is CreateDir ==> (event matches TaskEvent::Done(e) ==> match e {
            None => (r matches TaskAction::ReadDir(p) && p@ == pre.cur_path@) && post.cur_path@
                == pre.cur_path@ && post.cur_target@ == pre.cur_target@ && post.cur_name@
                == pre.cur_name@ && post.fail@ == pre.fail@,
            Some(detail) => told(
                r,
                ErrorKind::CreateFailed,
                create_failed_msg(pre.cur_name@, detail@),
            ) && failed_grew(pre, post) && PasteEngine::entry_passed(pre, post),
        }))
        // a finished copy moves on; a failure is told and recorded
        &&& (pre.waiting is Copy ==> (event matches TaskEvent::Done(e) ==> match e {
            None => (r is PollCancel || r is Finished) && post.fail@ == pre.fail@,
            Some(detail) => told(r, ErrorKind::CopyFailed, copy_failed_msg(pre.cur_name@, detail@))
                && failed_grew(pre, post) && PasteEngine::entry_passed(pre, post),
        }))
        // the walk descends with exactly the children it was handed, under
        // the directory's own target and readable prefix
        &&& (pre.waiting is ReadDir ==> (event matches TaskEvent::Listing(ch) ==> match ch {
            None => told(
                r,
                ErrorKind::ReadDirFailed,
                read_source_failed_msg(pre.cur_name@),
            ) && failed_grew(pre, post) && PasteEngine::entry_passed(pre, post),
            Some(items) => post.fail@ == pre.fail@ && (items@.len() > 0 ==> {
                &&& post.stack@.len() == pre.stack@.len() + 1
                &&& post.stack@.last().items == items
                &&& post.stack@.last().idx == 0
                &&& post.stack@.last().dest@ == pre.cur_target@
                &&& post.stack@.last().prefix@ == pre.cur_name@ + seq![47u8]
                &&& r is PollCancel
                &&& post.cur_path@ == items@[0]@
            }) && (items@.len() == 0 ==> (r is PollCancel || r is Finished)),
        }))
        // after an acknowledged error the walk carries on
        &&& (pre.waiting is ErrorAck ==> (r is PollCancel || r is Finished) && post.fail@
            == pre.fail@)
    }

    /// Feeds the engine the answer to its last action and takes the next
    /// one, as `step_sound` states: the overwrite decision is asked only
    /// while open and never dropped, a failed hard link disables the fast
    /// path for the remainder, a dismissal ends the walk at once, the set
    /// of failed sources grows only by entries that failed, and the engine
    /// never asks for a removal.
    #[verifier::rlimit(100)]
    pub fn step(&mut self, event: TaskEvent) -> (r: TaskAction)
        requires
            old(self).wf(),
            !old(self).finished(),
            paste_event_matches(old(self).waiting, event),
        ensures
            PasteEngine::step_sound(*old(self), event, *final(self), r),
    {
        proof {
            assert(old(self).fail@.is_prefix_of(old(self).fail@)) by {
                assert(old(self).fail@.subrange(0, old(self).fail@.len() as int) =~= old(
                    self,
                ).fail@);
            }
        }
        match event {
            TaskEvent::CancelPending(stop) => {
                if stop {
                    self.cancelled = true;
                    self.advance()
                } else {
                    self.waiting = PasteWaiting::Stat;
                    TaskAction::Stat(self.cur_path.duplicate())
                }
            },
            TaskEvent::Stat(kind) => {
                match kind {
                    None => {
                        self.record_failure();
                        self.skip_current();
                        self.waiting = PasteWaiting::ErrorAck;
                        TaskAction::Tell(
                            ErrorKind::StatFailed,
                            DialogRequest::new(
                                note_name("Cannot read metadata of ", &self.cur_name),
                                DialogAction::ok_only(),
                            ),
                        )
                    },
                    Some(k) => {
                        self.cur_kind = k;
                        let name_part = match self.cur_path.file_name() {
                            Some(n) => clone_bytes(n),
                            None => Vec::new(),
                        };
                        let n = self.stack.len();
                        proof {
                            assert(n > 0);
                        }
                        self.cur_target = self.stack[n - 1].dest.child(&name_part);
                        self.waiting = PasteWaiting::TargetStat;
                        TaskAction::StatTarget(self.cur_target.duplicate())
                    },
                }
            },
            TaskEvent::TargetStat(found) => {
                match found {
                    None => {
                        self.target_exists = false;
                        self.to_progress()
                    },
                    Some(None) => {
                        self.record_failure();
                        self.skip_current();
                        self.waiting = PasteWaiting::ErrorAck;
                        TaskAction::Tell(
                            ErrorKind::StatFailed,
                            DialogRequest::new(
                                note_after(&self.cur_name, " exists but cannot read its metadata"),
                                DialogAction::ok_only(),
                            ),
                        )
                    },
                    Some(Some(target_kind)) => {
                        self.target_exists = true;
                        if !(target_kind == self.cur_kind) {
                            self.record_failure();
                            self.skip_current();
                            self.waiting = PasteWaiting::ErrorAck;
                            TaskAction::Tell(
                                ErrorKind::TypeMismatch,
                                DialogRequest::new(
                                    note_after(&self.cur_name, " has different type than its original"),
                                    DialogAction::ok_only(),
                                ),
                            )
                        } else if !target_kind.is_dir() {
                            match self.overwrite_policy {
                                Some(true) => self.to_progress(),
                                Some(false) => {
                                    self.record_failure();
                                    self.skip_current();
                                    self.advance()
                                },
                                None => {
                                    self.waiting = PasteWaiting::OverwriteAsk;
                                    TaskAction::Ask(
                                        DialogRequest::new(
                                            note("Overwrite existing file ", &self.cur_name, "?"),
                                            DialogAction::multi_yes_no(),
                                        ),
                                    )
                                },
                            }
                        } else {
                            self.to_progress()
                        }
                    },
                }
            },
            TaskEvent::Answer(resp) => {
                match self.waiting {
                    PasteWaiting::OverwriteAsk => {
                        let yes = policy_update(&mut self.overwrite_policy, resp.action);
                        if yes {
                            self.to_progress()
                        } else {
                            self.record_failure();
                            self.skip_current();
                            self.advance()
                        }
                    },
                    _ => {
                        // Only an error acknowledgement remains.
                        self.advance()
                    },
                }
            },
            TaskEvent::Ack => {
                if self.cur_kind.is_dir() {
                    if self.target_exists {
                        self.waiting = PasteWaiting::ReadDir;
                        TaskAction::ReadDir(self.cur_path.duplicate())
                    } else {
                        self.waiting = PasteWaiting::CreateDir;
                        TaskAction::CreateDir(self.cur_target.duplicate())
                    }
                } else {
                    if self.try_link {
                        self.waiting = PasteWaiting::Link;
                        TaskAction::HardLink(
                            self.cur_path.duplicate(),
                            self.cur_target.duplicate(),
                        )
                    } else {
                        self.waiting = PasteWaiting::Copy;
                        TaskAction::CopyFile(
                            self.cur_path.duplicate(),
                            self.cur_target.duplicate(),
                        )
                    }
                }
            },
            TaskEvent::Done(err) => {
                match self.waiting {
                    PasteWaiting::CreateDir => {
                        match err {
                            None => {
                                self.waiting = PasteWaiting::ReadDir;
                                TaskAction::ReadDir(self.cur_path.duplicate())
                            },
                            Some(detail) => {
                                self.record_failure();
                                self.skip_current();
                                self.waiting = PasteWaiting::ErrorAck;
                                TaskAction::Tell(
                                    ErrorKind::CreateFailed,
                                    DialogRequest::new(
                                        note_with("Cannot create ", &self.cur_name, ", ", &detail),
                                        DialogAction::ok_only(),
                                    ),
                                )
                            },
                        }
                    },
                    _ => {
                        // Only the byte copy remains.
                        match err {
                            None => {
                                self.skip_current();
                                self.advance()
                            },
                            Some(detail) => {
                                self.record_failure();
                                self.skip_current();
                                self.waiting = PasteWaiting::ErrorAck;
                                TaskAction::Tell(
                                    ErrorKind::CopyFailed,
                                    DialogRequest::new(
                                        note_with("Cannot copy ", &self.cur_name, ", ", &detail),
                                        DialogAction::ok_only(),
                                    ),
                                )
                            },
                        }
                    },
                }
            },
            TaskEvent::Listing(children) => {
                match children {
                    None => {
                        self.record_failure();
                        self.skip_current();
                        self.waiting = PasteWaiting::ErrorAck;
                        TaskAction::Tell(
                            ErrorKind::ReadDirFailed,
                            DialogRequest::new(
                                note_name("Cannot read original dir ", &self.cur_name),
                                DialogAction::ok_only(),
                            ),
                        )
                    },
                    Some(items) => {
                        let mut child_prefix = clone_bytes(&self.cur_name);
                        child_prefix.push(47u8);  // '/'
                        proof {
                            assert(child_prefix@ =~= old(self).cur_name@ + seq![47u8]);
                        }
                        let dest = self.cur_target.duplicate();
                        self.skip_current();
                        let descend = items.len() > 0;
                        if descend {
                            self.cur_path = items[0].duplicate();
                            self.cur_name = display_name(&child_prefix, &items[0]);
                        }
                        self.stack.push(PasteFrame { items, idx: 0, prefix: child_prefix, dest });
                        proof {
                            assert forall|i: int| 0 <= i < self.stack@.len() implies (
                            #[trigger] self.stack@[i]).idx <= self.stack@[i].items@.len() by {
                                if i < self.stack@.len() - 1 {
                                    assert(self.stack@[i] == old(self).stack@[i]
                                        || self.stack@[i].idx <= self.stack@[i].items@.len());
                                }
                            }
                        }
                        if descend {
                            self.waiting = PasteWaiting::Cancel;
                            TaskAction::PollCancel
                        } else {
                            self.advance()
                        }
                    },
                }
            },
            TaskEvent::LinkDone(made) => {
                if made {
                    self.skip_current();
                    self.advance()
                } else {
                    // The fast path failed once: fall back to plain copies
                    // for the remainder of this operation.
                    self.try_link = false;
                    self.waiting = PasteWaiting::Copy;
                    TaskAction::CopyFile(self.cur_path.duplicate(), self.cur_target.duplicate())
                }
            },
        }
    }
}

/// A whole paste operation: the copy walk and, for a move the user did not
/// dismiss, the delete pass over the original sources that follows it.  The
/// delete pass excepts exactly the sources the copy walk could not place,
/// and runs with both of its decisions preset to yes: a successful move
/// deletes its sources without asking again.
pub struct PasteOperation {
    /// The copy walk.
    pub copy: PasteEngine,
    /// The delete pass, once a move's copy walk has ended.
    pub del: Option<DeleteEngine>,
    /// Whether the operation is a move.
    pub should_move: bool,
    /// The original sources, kept for the delete pass.
    pub sources: Vec<FsPath>,
}

impl PasteOperation {
    /// The operation is over; no further action follows.
    pub open spec fn finished(&self) -> bool {
        match self.del {
            Some(d) => d.finished(),
            None => self.copy.finished(),
        }
    }

    /// A sound operation state: the delete pass, once it runs, excepts
    /// exactly what the copy walk recorded as failed.
    pub open spec fn wf(&self) -> bool {
        &&& self.should_move == self.copy.should_move
        &&& match self.del {
            Some(d) => {
                &&& d.wf()
                &&& self.copy.finished()
                &&& !self.copy.cancelled
                &&& self.should_move
                &&& paths_match(d.exceptions@, self.copy.fail@)
                &&& d.file_policy == Some(true)
                &&& d.dir_policy == Some(true)
            },
            None => self.copy.wf(),
        }
    }

    /// Which answer fits the operation's pending wait.
    pub open spec fn expects(&self, ev: TaskEvent) -> bool {
        match self.del {
            Some(d) => delete_event_matches(d.waiting, ev),
            None => paste_event_matches(self.copy.waiting, ev),
        }
    }

    /// What each emitted action says about the operation.
    pub open spec fn emits(&self, r: TaskAction) -> bool {
        match self.del {
            Some(d) => match r {
                TaskAction::Finished(o) => d.finished() && o.cancelled == d.cancelled
                    && paths_match(o.failed@, self.copy.fail@),
                _ => d.emits(r),
            },
            None => self.copy.emits(r),
        }
    }

    /// Replaces a delete-pass outcome with the operation's own: what the
    /// operation reports as failed is what the copy walk could not place.
    fn map_outcome(&self, r: TaskAction) -> (mapped: TaskAction)
        ensures
            (r is Finished) == (mapped is Finished),
            mapped matches TaskAction::Finished(o) ==> paths_match(o.failed@, self.copy.fail@)
                && (r matches TaskAction::Finished(inner) ==> o.cancelled == inner.cancelled
                && o.complete == inner.complete),
            !(r is Finished) ==> mapped == r,
    {
        match r {
            TaskAction::Finished(o) => {
                let failed = clone_paths(&self.copy.fail);
                TaskAction::Finished(
                    TaskOutcome { cancelled: o.cancelled, complete: o.complete, failed },
                )
            },
            other => other,
        }
    }

    /// Routes an action of the copy walk: when the walk has ended and the
    /// operation is a move the user did not dismiss, the delete pass begins
    /// at once; a dismissed or plain copy ends the operation.
    fn on_copy_action(&mut self, a: TaskAction) -> (r: TaskAction)
        requires
            old(self).del is None,
            old(self).copy.wf(),
            old(self).copy.emits(a),
            old(self).should_move == old(self).copy.should_move,
        ensures
            final(self).wf(),
            final(self).emits(r),
            final(self).copy == old(self).copy,
            final(self).should_move == old(self).should_move,
            final(self).finished() <==> r is Finished,
            final(self).sources == old(self).sources,
            a is Finished && final(self).copy.cancelled ==> r is Finished,
            a is Finished && final(self).sources@.len() == 0 ==> r is Finished,
            !(a is Finished) ==> r == a && final(self).del is None,
            r matches TaskAction::RemoveFile(p) ==> !path_in(final(self).copy.fail@, p@),
            r matches TaskAction::RemoveDir(p) ==> !path_in(final(self).copy.fail@, p@),
            // where the delete pass begins, it holds exactly the kept
            // sources, excepts exactly the copy walk's failed set, and has
            // both decisions preset to yes
            final(self).del matches Some(d) ==> {
                &&& a is Finished
                &&& d.stack@.len() == 1
                &&& paths_match(d.stack@[0].items@, final(self).sources@)
                &&& d.stack@[0].idx == 0
                &&& d.stack@[0].deleted == 0
                &&& d.stack@[0].dir is None
                &&& d.file_policy == Some(true)
                &&& d.dir_policy == Some(true)
                &&& paths_match(d.exceptions@, final(self).copy.fail@)
            },
            r matches TaskAction::Finished(o) ==> paths_match(o.failed@, final(self).copy.fail@)
                && o.cancelled == final(self).copy.cancelled,
    {
        match a {
            TaskAction::Finished(o) => {
                if self.should_move && !o.cancelled {
                    let items = clone_paths(&self.sources);
                    let (d, first) = DeleteEngine::begin(items, o.failed, Some(true), Some(true));
                    proof {
                        assert(paths_match(d.exceptions@, self.copy.fail@));
                    }
                    self.del = Some(d);
                    let mapped = self.map_outcome(first);
                    proof {
                        assert(paths_match(self.copy.fail@, d.exceptions@));
                        match &mapped {
                            TaskAction::RemoveFile(p) => {
                                if path_in(self.copy.fail@, p@) {
                                    lemma_paths_match_in(self.copy.fail@, d.exceptions@, p@);
                                }
                            },
                            TaskAction::RemoveDir(p) => {
                                if path_in(self.copy.fail@, p@) {
                                    lemma_paths_match_in(self.copy.fail@, d.exceptions@, p@);
                                }
                            },
                            _ => {},
                        }
                    }
                    mapped
                } else {
                    TaskAction::Finished(o)
                }
            },
            other => {
                proof {
                    assert(!(other is Finished));
                }
                other
            },
        }
    }

    /// Begins a paste of the given sources into the destination directory.
    /// Returns the operation and its first action.
    pub fn begin(sources: Vec<FsPath>, dest: FsPath, should_move: bool) -> (r: (
        PasteOperation,
        TaskAction,
    ))
        ensures
            r.0.wf(),
            r.0.emits(r.1),
            r.0.should_move == should_move,
            r.0.finished() <==> r.1 is Finished,
            paths_match(r.0.sources@, sources@),
            r.0.copy.should_move == should_move,
            r.0.copy.overwrite_policy is None,
            r.0.copy.try_link == should_move,
            r.0.copy.fail@.len() == 0,
            sources@.len() > 0 ==> {
                &&& r.0.del is None
                &&& r.1 is PollCancel
                &&& r.0.copy.stack@.len() == 1
                &&& r.0.copy.stack@[0].items == sources
                &&& r.0.copy.stack@[0].idx == 0
                &&& r.0.copy.stack@[0].dest == dest
                &&& r.0.copy.cur_path@ == sources@[0]@
            },
            sources@.len() == 0 ==> r.1 is Finished,
    {
        let kept = clone_paths(&sources);
        let (copy, first) = PasteEngine::begin(sources, dest, should_move);
        let mut op = PasteOperation { copy, del: None, should_move, sources: kept };
        let a = op.on_copy_action(first);
        (op, a)
    }

    /// Feeds the operation the answer to its last action and takes the next
    /// one.  A removal is never requested for a source the copy walk could
    /// not place; a dismissal ends the operation at once, and a dismissed
    /// copy walk runs no delete pass at all.
    pub fn step(&mut self, event: TaskEvent) -> (r: TaskAction)
        requires
            old(self).wf(),
            !old(self).finished(),
            old(self).expects(event),
        ensures
            final(self).wf(),
            final(self).emits(r),
            final(self).should_move == old(self).should_move,
            final(self).sources == old(self).sources,
            old(self).copy.fail@.is_prefix_of(final(self).copy.fail@),
            r matches TaskAction::RemoveFile(p) ==> !path_in(final(self).copy.fail@, p@),
            r matches TaskAction::RemoveDir(p) ==> !path_in(final(self).copy.fail@, p@),
            event == TaskEvent::CancelPending(true) ==> r is Finished,
            final(self).finished() <==> r is Finished,
            // while the copy walk runs, the operation does exactly what the
            // copy engine's step relation says
            old(self).del is None && final(self).del is None ==> PasteEngine::step_sound(
                old(self).copy,
                event,
                final(self).copy,
                r,
            ),
            // where this step started the delete pass, the pass holds
            // exactly the kept sources, excepts exactly the failed set, and
            // has both decisions preset to yes
            old(self).del is None && final(self).del is Some ==> {
                &&& (exists|a: TaskAction| #[trigger] PasteEngine::step_sound(
                    old(self).copy,
                    event,
                    final(self).copy,
                    a,
                ) && a is Finished)
                &&& final(self).copy.finished()
                &&& !final(self).copy.cancelled
                &&& final(self).should_move
                &&& (final(self).del matches Some(d) ==> {
                    &&& d.stack@.len() == 1
                    &&& paths_match(d.stack@[0].items@, final(self).sources@)
                    &&& d.stack@[0].idx == 0
                    &&& d.stack@[0].deleted == 0
                    &&& d.stack@[0].dir is None
                    &&& d.file_policy == Some(true)
                    &&& d.dir_policy == Some(true)
                    &&& paths_match(d.exceptions@, final(self).copy.fail@)
                })
            },
            // while the delete pass runs, the operation does exactly what
            // the delete engine's step relation says, with the operation's
            // own finished report
            old(self).del matches Some(d0) ==> {
                &&& final(self).copy == old(self).copy
                &&& (final(self).del matches Some(d1) ==> {
                    &&& (!(r is Finished) ==> DeleteEngine::step_sound(d0, event, d1, r))
                    &&& (r is Finished ==> exists|a: TaskAction|
                        #[trigger] DeleteEngine::step_sound(d0, event, d1, a) && a is Finished)
                    &&& (r matches TaskAction::Finished(o) ==> {
                        &&& d1.finished()
                        &&& o.cancelled == d1.cancelled
                        &&& paths_match(o.failed@, final(self).copy.fail@)
                        &&& (!o.cancelled ==> d1.stack@.len() == 1 && o.complete == (
                            d1.stack@[0].deleted == d1.stack@[0].items@.len()))
                    })
                })
                &&& final(self).del is Some
            },
    {
        let del = self.del.take();
        match del {
            Some(mut d) => {
                let a = d.step(event);
                self.del = Some(d);
                let r = self.map_outcome(a);
                proof {
                    match &self.del {
                        Some(dd) => {
                            assert(paths_match(self.copy.fail@, dd.exceptions@));
                            match &r {
                                TaskAction::RemoveFile(p) => {
                                    if path_in(self.copy.fail@, p@) {
                                        lemma_paths_match_in(self.copy.fail@, dd.exceptions@, p@);
                                    }
                                },
                                TaskAction::RemoveDir(p) => {
                                    if path_in(self.copy.fail@, p@) {
                                        lemma_paths_match_in(self.copy.fail@, dd.exceptions@, p@);
                                    }
                                },
                                _ => {},
                            }
                        },
                        None => {},
                    }
                }
                r
            },
            None => {
                let a = self.copy.step(event);
                self.on_copy_action(a)
            },
        }
    }
}

} // verus!
