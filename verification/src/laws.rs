use vstd::prelude::*;

use crate::delete::DeleteEngine;
use crate::fs_path::lemma_paths_match_in;
use crate::fs_path::path_in;
use crate::paste::PasteEngine;
use crate::paste::PasteOperation;
use crate::task::TaskAction;
use crate::task::TaskEvent;

verus! {

/// What every `DeleteEngine::step` promises of the states around it: a
/// cached decision is kept for the remainder of the walk, and a question
/// stands only while its decision is still open.
pub open spec fn delete_policies_kept(pre: DeleteEngine, post: DeleteEngine) -> bool {
    &&& (pre.file_policy is Some ==> post.file_policy == pre.file_policy)
    &&& (pre.dir_policy is Some ==> post.dir_policy == pre.dir_policy)
    &&& (post.waiting is FileAsk ==> pre.file_policy is None)
    &&& (post.waiting is DirAsk ==> pre.dir_policy is None)
}

/// Every step of the delete engine keeps the cached decisions, as its
/// contract states: the runs the asked-once laws speak of are exactly the
/// runs the engine can take.
pub proof fn lemma_delete_step_keeps_policies(
    pre: DeleteEngine,
    event: TaskEvent,
    post: DeleteEngine,
    r: TaskAction,
)
    requires
        DeleteEngine::step_sound(pre, event, post, r),
    ensures
        delete_policies_kept(pre, post),
{
}

/// Once the file decision of a delete walk is cached, every later state of
/// the walk still holds it, and none of them asks the question again.
pub proof fn lemma_delete_file_policy_asked_once(run: Seq<DeleteEngine>, v: bool)
    requires
        run.len() > 0,
        forall|t: int|
            0 <= t < run.len() - 1 ==> delete_policies_kept(#[trigger] run[t], run[t + 1]),
        run[0].file_policy == Some(v),
    ensures
        forall|t: int| 0 <= t < run.len() ==> (#[trigger] run[t]).file_policy == Some(v),
        forall|t: int| 1 <= t < run.len() ==> !((#[trigger] run[t]).waiting is FileAsk),
    decreases run.len(),
{
    if run.len() > 1 {
        lemma_delete_file_policy_asked_once(run.drop_last(), v);
        assert forall|t: int|
            0 <= t < run.len() - 2 implies delete_policies_kept(
            #[trigger] run.drop_last()[t],
            run.drop_last()[t + 1],
        ) by {
            assert(run.drop_last()[t] == run[t]);
            assert(run.drop_last()[t + 1] == run[t + 1]);
        }
        assert forall|t: int| 0 <= t < run.len() implies (#[trigger] run[t]).file_policy == Some(
            v,
        ) by {
            if t < run.len() - 1 {
                assert(run.drop_last()[t] == run[t]);
            } else {
                assert(run.drop_last()[t - 1] == run[t - 1]);
                assert(run[t - 1].file_policy == Some(v));
                assert(delete_policies_kept(run[t - 1], run[t]));
            }
        }
        assert forall|t: int| 1 <= t < run.len() implies !((#[trigger] run[t]).waiting
            is FileAsk) by {
            assert(run[t - 1].file_policy == Some(v));
            assert(delete_policies_kept(run[t - 1], run[t]));
        }
    }
}

/// Once the directory decision of a delete walk is cached, every later
/// state of the walk still holds it, and none of them asks the question
/// again.
pub proof fn lemma_delete_dir_policy_asked_once(run: Seq<DeleteEngine>, v: bool)
    requires
        run.len() > 0,
        forall|t: int|
            0 <= t < run.len() - 1 ==> delete_policies_kept(#[trigger] run[t], run[t + 1]),
        run[0].dir_policy == Some(v),
    ensures
        forall|t: int| 0 <= t < run.len() ==> (#[trigger] run[t]).dir_policy == Some(v),
        forall|t: int| 1 <= t < run.len() ==> !((#[trigger] run[t]).waiting is DirAsk),
    decreases run.len(),
{
    if run.len() > 1 {
        lemma_delete_dir_policy_asked_once(run.drop_last(), v);
        assert forall|t: int|
            0 <= t < run.len() - 2 implies delete_policies_kept(
            #[trigger] run.drop_last()[t],
            run.drop_last()[t + 1],
        ) by {
            assert(run.drop_last()[t] == run[t]);
            assert(run.drop_last()[t + 1] == run[t + 1]);
        }
        assert forall|t: int| 0 <= t < run.len() implies (#[trigger] run[t]).dir_policy == Some(
            v,
        ) by {
            if t < run.len() - 1 {
                assert(run.drop_last()[t] == run[t]);
            } else {
                assert(run.drop_last()[t - 1] == run[t - 1]);
                assert(run[t - 1].dir_policy == Some(v));
                assert(delete_policies_kept(run[t - 1], run[t]));
            }
        }
        assert forall|t: int| 1 <= t < run.len() implies !((#[trigger] run[t]).waiting
            is DirAsk) by {
            assert(run[t - 1].dir_policy == Some(v));
            assert(delete_policies_kept(run[t - 1], run[t]));
        }
    }
}

/// What every `PasteEngine::step` promises of the states around it: the
/// overwrite decision is kept, its question stands only while open, and a
/// cleared hard-link flag stays cleared.
pub open spec fn paste_policies_kept(pre: PasteEngine, post: PasteEngine) -> bool {
    &&& (pre.overwrite_policy is Some ==> post.overwrite_policy == pre.overwrite_policy)
    &&& (post.waiting is OverwriteAsk ==> pre.overwrite_policy is None)
    &&& (!pre.try_link ==> !post.try_link)
}

/// Every step of the paste engine keeps the cached decision and the
/// cleared fast path, as its contract states.
pub proof fn lemma_paste_step_keeps_policies(
    pre: PasteEngine,
    event: TaskEvent,
    post: PasteEngine,
    r: TaskAction,
)
    requires
        PasteEngine::step_sound(pre, event, post, r),
    ensures
        paste_policies_kept(pre, post),
{
}

/// Once the overwrite decision of a paste walk is cached, every later state
/// still holds it, and none of them asks the question again.
pub proof fn lemma_overwrite_policy_asked_once(run: Seq<PasteEngine>, v: bool)
    requires
        run.len() > 0,
        forall|t: int|
            0 <= t < run.len() - 1 ==> paste_policies_kept(#[trigger] run[t], run[t + 1]),
        run[0].overwrite_policy == Some(v),
    ensures
        forall|t: int| 0 <= t < run.len() ==> (#[trigger] run[t]).overwrite_policy == Some(v),
        forall|t: int| 1 <= t < run.len() ==> !((#[trigger] run[t]).waiting is OverwriteAsk),
    decreases run.len(),
{
    if run.len() > 1 {
        lemma_overwrite_policy_asked_once(run.drop_last(), v);
        assert forall|t: int|
            0 <= t < run.len() - 2 implies paste_policies_kept(
            #[trigger] run.drop_last()[t],
            run.drop_last()[t + 1],
        ) by {
            assert(run.drop_last()[t] == run[t]);
            assert(run.drop_last()[t + 1] == run[t + 1]);
        }
        assert forall|t: int| 0 <= t < run.len() implies (#[trigger] run[t]).overwrite_policy
            == Some(v) by {
            if t < run.len() - 1 {
                assert(run.drop_last()[t] == run[t]);
            } else {
                assert(run.drop_last()[t - 1] == run[t - 1]);
                assert(run[t - 1].overwrite_policy == Some(v));
                assert(paste_policies_kept(run[t - 1], run[t]));
            }
        }
        assert forall|t: int| 1 <= t < run.len() implies !((#[trigger] run[t]).waiting
            is OverwriteAsk) by {
            assert(run[t - 1].overwrite_policy == Some(v));
            assert(paste_policies_kept(run[t - 1], run[t]));
        }
    }
}

/// Once one hard-link attempt of a move has failed, no later state of the
/// walk holds the fast path open, and none of them can ask for another
/// hard link.
pub proof fn lemma_hard_link_not_retried(run: Seq<PasteEngine>)
    requires
        run.len() > 0,
        forall|t: int|
            0 <= t < run.len() - 1 ==> paste_policies_kept(#[trigger] run[t], run[t + 1]),
        !run[0].try_link,
    ensures
        forall|t: int| 0 <= t < run.len() ==> !((#[trigger] run[t]).try_link),
        forall|t: int, a: FsPath, b: FsPath|
            0 <= t < run.len() && run[t].wf() ==> !(#[trigger] run[t].emits(
                TaskAction::HardLink(a, b),
            )),
    decreases run.len(),
{
    if run.len() > 1 {
        lemma_hard_link_not_retried(run.drop_last());
        assert forall|t: int|
            0 <= t < run.len() - 2 implies paste_policies_kept(
            #[trigger] run.drop_last()[t],
            run.drop_last()[t + 1],
        ) by {
            assert(run.drop_last()[t] == run[t]);
            assert(run.drop_last()[t + 1] == run[t + 1]);
        }
        assert forall|t: int| 0 <= t < run.len() implies !((#[trigger] run[t]).try_link) by {
            if t < run.len() - 1 {
                assert(run.drop_last()[t] == run[t]);
            } else {
                assert(run.drop_last()[t - 1] == run[t - 1]);
                assert(!run[t - 1].try_link);
                assert(paste_policies_kept(run[t - 1], run[t]));
            }
        }
    }
}

use crate::fs_path::FsPath;

/// A dismissed delete walk is over: it can only report that it finished,
/// never examine or remove anything further.
pub proof fn lemma_cancelled_delete_removes_nothing(e: DeleteEngine, a: TaskAction)
    requires
        e.wf(),
        e.cancelled,
        e.emits(a),
    ensures
        a is Finished,
{
}

/// A dismissed paste walk is over in the same way.
pub proof fn lemma_cancelled_paste_copies_nothing(e: PasteEngine, a: TaskAction)
    requires
        e.wf(),
        e.cancelled,
        e.emits(a),
    ensures
        a is Finished,
{
}

/// A move's delete pass never asks anything: both of its decisions are
/// preset to yes and stay so, so no step of it can put a question.
pub proof fn lemma_move_delete_pass_asks_nothing(
    d0: DeleteEngine,
    event: TaskEvent,
    d1: DeleteEngine,
    r: TaskAction,
)
    requires
        d0.file_policy == Some(true),
        d0.dir_policy == Some(true),
        DeleteEngine::step_sound(d0, event, d1, r),
    ensures
        !(r is Ask),
        d1.file_policy == Some(true),
        d1.dir_policy == Some(true),
{
}

/// A move never deletes a source whose copy did not land: any removal its
/// delete pass asks for names a path outside the copy walk's failed set.
pub proof fn lemma_move_spares_failed_sources(op: PasteOperation, a: TaskAction)
    requires
        op.wf(),
        op.emits(a),
    ensures
        a matches TaskAction::RemoveFile(p) ==> !path_in(op.copy.fail@, p@),
        a matches TaskAction::RemoveDir(p) ==> !path_in(op.copy.fail@, p@),
{
    match op.del {
        Some(d) => {
            assert(crate::fs_path::paths_match(op.copy.fail@, d.exceptions@));
            match a {
                TaskAction::RemoveFile(p) => {
                    if path_in(op.copy.fail@, p@) {
                        lemma_paths_match_in(op.copy.fail@, d.exceptions@, p@);
                    }
                },
                TaskAction::RemoveDir(p) => {
                    if path_in(op.copy.fail@, p@) {
                        lemma_paths_match_in(op.copy.fail@, d.exceptions@, p@);
                    }
                },
                _ => {},
            }
        },
        None => {},
    }
}

} // verus!
