use forg_core::dialog::DialogResponse;
use forg_core::fs_path::FsPath;
use forg_core::listing::FileKind;
use forg_core::paste::{PasteEngine, PasteOperation};
use forg_core::task::{ErrorKind, TaskAction, TaskEvent};

fn abs(parts: &[&str]) -> FsPath {
    FsPath {
        rooted: true,
        parts: parts.iter().map(|p| p.as_bytes().to_vec()).collect(),
    }
}

fn answer(action: usize) -> TaskEvent {
    TaskEvent::Answer(DialogResponse::new(action, None))
}

fn shown(p: &FsPath) -> String {
    String::from_utf8(p.render()).unwrap()
}

#[test]
fn a_target_of_another_kind_is_reported_and_skipped() {
    // Pasting a file where a same-named directory stands: the engine
    // reports the mismatch, touches neither side, and records the source.
    let sources = vec![abs(&["src", "name"])];
    let (mut op, first) = PasteOperation::begin(sources, abs(&["dst"]), false);
    assert!(matches!(first, TaskAction::PollCancel));
    let a = op.step(TaskEvent::CancelPending(false));
    assert!(matches!(a, TaskAction::Stat(_)));
    let a = op.step(TaskEvent::Stat(Some(FileKind::File)));
    match a {
        TaskAction::StatTarget(t) => assert_eq!(shown(&t), "/dst/name"),
        _ => panic!("expected the target to be examined"),
    }
    let a = op.step(TaskEvent::TargetStat(Some(Some(FileKind::Directory))));
    match a {
        TaskAction::Tell(kind, req) => {
            assert_eq!(kind, ErrorKind::TypeMismatch);
            assert_eq!(req.msg, b"name has different type than its original".to_vec());
        },
        _ => panic!("expected the mismatch to be told"),
    }
    let a = op.step(answer(0));
    match a {
        TaskAction::Finished(o) => {
            assert!(!o.cancelled);
            assert_eq!(o.failed.len(), 1);
            assert_eq!(shown(&o.failed[0]), "/src/name");
        },
        _ => panic!("expected the copy to end"),
    }
}

#[test]
fn one_failed_hard_link_turns_the_rest_into_plain_copies() {
    let sources = vec![abs(&["s", "one"]), abs(&["s", "two"])];
    let (mut eng, _) = PasteEngine::begin(sources, abs(&["d"]), true);
    let _ = eng.step(TaskEvent::CancelPending(false));
    let _ = eng.step(TaskEvent::Stat(Some(FileKind::File)));
    let a = eng.step(TaskEvent::TargetStat(None));
    assert!(matches!(a, TaskAction::Progress(_)));
    let a = eng.step(TaskEvent::Ack);
    match a {
        TaskAction::HardLink(s, t) => {
            assert_eq!(shown(&s), "/s/one");
            assert_eq!(shown(&t), "/d/one");
        },
        _ => panic!("a move tries the hard link first"),
    }
    let a = eng.step(TaskEvent::LinkDone(false));
    match a {
        TaskAction::CopyFile(s, _) => assert_eq!(shown(&s), "/s/one"),
        _ => panic!("a failed link falls back to a copy"),
    }
    let _ = eng.step(TaskEvent::Done(None));
    let _ = eng.step(TaskEvent::CancelPending(false));
    let _ = eng.step(TaskEvent::Stat(Some(FileKind::File)));
    let _ = eng.step(TaskEvent::TargetStat(None));
    // The second file goes straight to a copy: the fast path stays off.
    let a = eng.step(TaskEvent::Ack);
    match a {
        TaskAction::CopyFile(s, _) => assert_eq!(shown(&s), "/s/two"),
        _ => panic!("no second hard link may be tried"),
    }
}

#[test]
fn a_working_hard_link_finishes_the_file() {
    let sources = vec![abs(&["s", "one"])];
    let (mut eng, _) = PasteEngine::begin(sources, abs(&["d"]), true);
    let _ = eng.step(TaskEvent::CancelPending(false));
    let _ = eng.step(TaskEvent::Stat(Some(FileKind::File)));
    let _ = eng.step(TaskEvent::TargetStat(None));
    let a = eng.step(TaskEvent::Ack);
    assert!(matches!(a, TaskAction::HardLink(_, _)));
    let a = eng.step(TaskEvent::LinkDone(true));
    match a {
        TaskAction::Finished(o) => assert!(o.failed.is_empty()),
        _ => panic!("a linked file needs no copy"),
    }
}

#[test]
fn a_plain_copy_never_links() {
    let sources = vec![abs(&["s", "one"])];
    let (mut eng, _) = PasteEngine::begin(sources, abs(&["d"]), false);
    let _ = eng.step(TaskEvent::CancelPending(false));
    let _ = eng.step(TaskEvent::Stat(Some(FileKind::File)));
    let _ = eng.step(TaskEvent::TargetStat(None));
    let a = eng.step(TaskEvent::Ack);
    assert!(matches!(a, TaskAction::CopyFile(_, _)));
}

#[test]
fn declining_an_overwrite_records_the_source() {
    let sources = vec![abs(&["s", "a"])];
    let (mut eng, _) = PasteEngine::begin(sources, abs(&["d"]), false);
    let _ = eng.step(TaskEvent::CancelPending(false));
    let _ = eng.step(TaskEvent::Stat(Some(FileKind::File)));
    let a = eng.step(TaskEvent::TargetStat(Some(Some(FileKind::File))));
    match a {
        TaskAction::Ask(req) => assert_eq!(req.msg, b"Overwrite existing file a?".to_vec()),
        _ => panic!("an existing file asks before being overwritten"),
    }
    let a = eng.step(answer(2));  // No
    match a {
        TaskAction::Finished(o) => {
            assert_eq!(o.failed.len(), 1);
            assert_eq!(shown(&o.failed[0]), "/s/a");
        },
        _ => panic!("expected the copy to end"),
    }
}

#[test]
fn a_failing_directory_creation_is_reported() {
    let sources = vec![abs(&["s", "sub"])];
    let (mut eng, _) = PasteEngine::begin(sources, abs(&["d"]), false);
    let _ = eng.step(TaskEvent::CancelPending(false));
    let _ = eng.step(TaskEvent::Stat(Some(FileKind::Directory)));
    let _ = eng.step(TaskEvent::TargetStat(None));
    let a = eng.step(TaskEvent::Ack);
    assert!(matches!(a, TaskAction::CreateDir(_)));
    let a = eng.step(TaskEvent::Done(Some(b"read-only".to_vec())));
    match a {
        TaskAction::Tell(kind, req) => {
            assert_eq!(kind, ErrorKind::CreateFailed);
            assert_eq!(req.msg, b"Cannot create sub, read-only".to_vec());
        },
        _ => panic!("expected the creation failure to be told"),
    }
}

#[test]
fn a_move_spares_what_could_not_be_copied() {
    // Move a directory of three files where the second copy fails: the
    // first and third sources are deleted, the second stays, and the
    // directory that still holds it stays too.
    let sources = vec![abs(&["src", "dir"])];
    let (mut op, first) = PasteOperation::begin(sources, abs(&["dst"]), true);
    assert!(matches!(first, TaskAction::PollCancel));
    let _ = op.step(TaskEvent::CancelPending(false));
    let _ = op.step(TaskEvent::Stat(Some(FileKind::Directory)));
    let a = op.step(TaskEvent::TargetStat(None));
    assert!(matches!(a, TaskAction::Progress(_)));
    let a = op.step(TaskEvent::Ack);
    assert!(matches!(a, TaskAction::CreateDir(_)));
    let a = op.step(TaskEvent::Done(None));
    assert!(matches!(a, TaskAction::ReadDir(_)));
    let children = vec![
        abs(&["src", "dir", "a"]),
        abs(&["src", "dir", "b"]),
        abs(&["src", "dir", "c"]),
    ];
    let mut a = op.step(TaskEvent::Listing(Some(children)));
    // The three files: a copies, b fails, c copies (links are declined).
    for (name, fails) in [("a", false), ("b", true), ("c", false)] {
        assert!(matches!(a, TaskAction::PollCancel));
        let _ = op.step(TaskEvent::CancelPending(false));
        let _ = op.step(TaskEvent::Stat(Some(FileKind::File)));
        let _ = op.step(TaskEvent::TargetStat(None));
        let b = op.step(TaskEvent::Ack);
        match b {
            TaskAction::HardLink(_, _) => {
                let b = op.step(TaskEvent::LinkDone(false));
                assert!(matches!(b, TaskAction::CopyFile(_, _)));
            },
            TaskAction::CopyFile(_, _) => {},
            _ => panic!("a file is linked or copied"),
        }
        if fails {
            let b = op.step(TaskEvent::Done(Some(b"no space".to_vec())));
            match b {
                TaskAction::Tell(kind, req) => {
                    assert_eq!(kind, ErrorKind::CopyFailed);
                    assert_eq!(req.msg, format!("Cannot copy dir/{}, no space", name).into_bytes());
                },
                _ => panic!("expected the copy failure to be told"),
            }
            a = op.step(answer(0));
        } else {
            a = op.step(TaskEvent::Done(None));
        }
    }
    // The copy walk is over; the delete pass runs without asking and must
    // spare /src/dir/b and, with it, /src/dir itself.
    let mut removed: Vec<String> = Vec::new();
    let outcome = loop {
        match a {
            TaskAction::PollCancel => a = op.step(TaskEvent::CancelPending(false)),
            TaskAction::Stat(p) => {
                let kind = if p.parts.len() == 2 { FileKind::Directory } else { FileKind::File };
                a = op.step(TaskEvent::Stat(Some(kind)));
            },
            TaskAction::ReadDir(_) => {
                a = op.step(TaskEvent::Listing(Some(vec![
                    abs(&["src", "dir", "a"]),
                    abs(&["src", "dir", "b"]),
                    abs(&["src", "dir", "c"]),
                ])));
            },
            TaskAction::Progress(_) => a = op.step(TaskEvent::Ack),
            TaskAction::RemoveFile(p) | TaskAction::RemoveDir(p) => {
                removed.push(shown(&p));
                a = op.step(TaskEvent::Done(None));
            },
            TaskAction::Finished(o) => break o,
            _ => panic!("the delete pass asks no questions"),
        }
    };
    assert_eq!(removed, vec!["/src/dir/a", "/src/dir/c"]);
    assert_eq!(outcome.failed.len(), 1);
    assert_eq!(shown(&outcome.failed[0]), "/src/dir/b");
    assert!(!outcome.cancelled);
}

#[test]
fn a_dismissed_move_runs_no_delete_pass() {
    let sources = vec![abs(&["s", "x"]), abs(&["s", "y"])];
    let (mut op, _) = PasteOperation::begin(sources, abs(&["d"]), true);
    let _ = op.step(TaskEvent::CancelPending(false));
    let _ = op.step(TaskEvent::Stat(Some(FileKind::File)));
    let _ = op.step(TaskEvent::TargetStat(None));
    let a = op.step(TaskEvent::Ack);
    assert!(matches!(a, TaskAction::HardLink(_, _)));
    let a = op.step(TaskEvent::LinkDone(true));
    assert!(matches!(a, TaskAction::PollCancel));
    // The dismissal ends the whole operation: the copied source is not
    // deleted either.
    let a = op.step(TaskEvent::CancelPending(true));
    match a {
        TaskAction::Finished(o) => assert!(o.cancelled),
        _ => panic!("a dismissal ends the operation at once"),
    }
}

#[test]
fn an_unreadable_source_is_recorded_and_reported() {
    let sources = vec![abs(&["s", "ghost"])];
    let (mut eng, _) = PasteEngine::begin(sources, abs(&["d"]), false);
    let _ = eng.step(TaskEvent::CancelPending(false));
    let a = eng.step(TaskEvent::Stat(None));
    match a {
        TaskAction::Tell(kind, req) => {
            assert_eq!(kind, ErrorKind::StatFailed);
            assert_eq!(req.msg, b"Cannot read metadata of ghost".to_vec());
        },
        _ => panic!("expected the stat failure to be told"),
    }
    let a = eng.step(answer(0));
    match a {
        TaskAction::Finished(o) => assert_eq!(o.failed.len(), 1),
        _ => panic!("expected the copy to end"),
    }
}

#[test]
fn an_unreadable_target_is_recorded_with_its_message() {
    let sources = vec![abs(&["s", "odd"])];
    let (mut eng, _) = PasteEngine::begin(sources, abs(&["d"]), false);
    let _ = eng.step(TaskEvent::CancelPending(false));
    let _ = eng.step(TaskEvent::Stat(Some(FileKind::File)));
    let a = eng.step(TaskEvent::TargetStat(Some(None)));
    match a {
        TaskAction::Tell(kind, req) => {
            assert_eq!(kind, ErrorKind::StatFailed);
            assert_eq!(req.msg, b"odd exists but cannot read its metadata".to_vec());
        },
        _ => panic!("expected the target stat failure to be told"),
    }
}
