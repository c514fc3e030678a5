use forg_core::delete::DeleteEngine;
use forg_core::dialog::DialogResponse;
use forg_core::fs_path::FsPath;
use forg_core::listing::FileKind;
use forg_core::task::{ErrorKind, TaskAction, TaskEvent};

fn abs(parts: &[&str]) -> FsPath {
    FsPath {
        rooted: true,
        parts: parts.iter().map(|p| p.as_bytes().to_vec()).collect(),
    }
}

fn answer(action: usize) -> TaskEvent {
    TaskEvent::Answer(DialogResponse::new(action, None))
}

#[test]
fn all_deletes_the_rest_without_a_second_question() {
    // Delete a.txt and b.txt with no prior decision: the engine asks once,
    // "All" answers for the remainder, and both files go.
    let items = vec![abs(&["d", "a.txt"]), abs(&["d", "b.txt"])];
    let (mut eng, first) = DeleteEngine::begin(items, Vec::new(), None, None);
    assert!(matches!(first, TaskAction::PollCancel));

    let a = eng.step(TaskEvent::CancelPending(false));
    match a {
        TaskAction::Stat(p) => assert_eq!(p.parts[1], b"a.txt".to_vec()),
        _ => panic!("expected a stat of the first entry"),
    }
    let a = eng.step(TaskEvent::Stat(Some(FileKind::File)));
    match a {
        TaskAction::Ask(req) => assert_eq!(req.msg, b"Delete a.txt?".to_vec()),
        _ => panic!("expected the one question"),
    }
    let a = eng.step(answer(0));  // All
    match a {
        TaskAction::Progress(msg) => assert_eq!(msg, b"Deleting a.txt".to_vec()),
        _ => panic!("expected a progress message"),
    }
    let a = eng.step(TaskEvent::Ack);
    match a {
        TaskAction::RemoveFile(p) => assert_eq!(p.parts[1], b"a.txt".to_vec()),
        _ => panic!("expected the first removal"),
    }
    let a = eng.step(TaskEvent::Done(None));
    assert!(matches!(a, TaskAction::PollCancel));
    let a = eng.step(TaskEvent::CancelPending(false));
    assert!(matches!(a, TaskAction::Stat(_)));
    // The decision is cached: no question, straight to progress.
    let a = eng.step(TaskEvent::Stat(Some(FileKind::File)));
    match a {
        TaskAction::Progress(msg) => assert_eq!(msg, b"Deleting b.txt".to_vec()),
        _ => panic!("expected no second question"),
    }
    let a = eng.step(TaskEvent::Ack);
    match a {
        TaskAction::RemoveFile(p) => assert_eq!(p.parts[1], b"b.txt".to_vec()),
        _ => panic!("expected the second removal"),
    }
    let a = eng.step(TaskEvent::Done(None));
    match a {
        TaskAction::Finished(o) => {
            assert!(!o.cancelled);
            assert!(o.complete);
        },
        _ => panic!("expected the walk to end"),
    }
}

#[test]
fn cancellation_stops_before_the_next_entry() {
    // The first entry goes; the dismissal delivered before the second stops
    // the walk, and nothing beyond the first is removed.
    let items = vec![abs(&["d", "a"]), abs(&["d", "b"]), abs(&["d", "c"])];
    let (mut eng, _) = DeleteEngine::begin(items, Vec::new(), Some(true), Some(true));
    let _ = eng.step(TaskEvent::CancelPending(false));
    let _ = eng.step(TaskEvent::Stat(Some(FileKind::File)));
    let a = eng.step(TaskEvent::Ack);
    assert!(matches!(a, TaskAction::RemoveFile(_)));
    let a = eng.step(TaskEvent::Done(None));
    assert!(matches!(a, TaskAction::PollCancel));
    let a = eng.step(TaskEvent::CancelPending(true));
    match a {
        TaskAction::Finished(o) => assert!(o.cancelled),
        _ => panic!("a dismissal must end the walk at once"),
    }
}

#[test]
fn a_directory_is_removed_only_when_all_children_went() {
    let items = vec![abs(&["top"])];
    let (mut eng, _) = DeleteEngine::begin(items, Vec::new(), None, None);
    let _ = eng.step(TaskEvent::CancelPending(false));
    let a = eng.step(TaskEvent::Stat(Some(FileKind::Directory)));
    match a {
        TaskAction::Ask(req) => {
            assert_eq!(req.msg, b"Recursive delete directory top?".to_vec())
        },
        _ => panic!("expected the directory question"),
    }
    let a = eng.step(answer(1));  // Yes, this one
    match a {
        TaskAction::ReadDir(p) => assert_eq!(p.parts[0], b"top".to_vec()),
        _ => panic!("expected the listing of the directory"),
    }
    let children = vec![abs(&["top", "one"]), abs(&["top", "two"])];
    let a = eng.step(TaskEvent::Listing(Some(children)));
    assert!(matches!(a, TaskAction::PollCancel));
    let _ = eng.step(TaskEvent::CancelPending(false));
    let a = eng.step(TaskEvent::Stat(Some(FileKind::File)));
    match a {
        TaskAction::Ask(req) => assert_eq!(req.msg, b"Delete top/one?".to_vec()),
        _ => panic!("expected the file question with the readable prefix"),
    }
    let _ = eng.step(answer(1));  // Yes
    let _ = eng.step(TaskEvent::Ack);
    let a = eng.step(TaskEvent::Done(None));
    assert!(matches!(a, TaskAction::PollCancel));
    let _ = eng.step(TaskEvent::CancelPending(false));
    // Declining the second child leaves the directory standing.
    let a = eng.step(TaskEvent::Stat(Some(FileKind::File)));
    assert!(matches!(a, TaskAction::Ask(_)));
    let a = eng.step(answer(2));  // No
    match a {
        TaskAction::Finished(o) => assert!(!o.complete),
        _ => panic!("the directory must not be removed"),
    }
}

#[test]
fn an_empty_directory_is_removed_after_its_listing() {
    let items = vec![abs(&["empty"])];
    let (mut eng, _) = DeleteEngine::begin(items, Vec::new(), None, Some(true));
    let _ = eng.step(TaskEvent::CancelPending(false));
    let a = eng.step(TaskEvent::Stat(Some(FileKind::Directory)));
    assert!(matches!(a, TaskAction::ReadDir(_)));
    let a = eng.step(TaskEvent::Listing(Some(Vec::new())));
    match a {
        TaskAction::RemoveDir(p) => assert_eq!(p.parts[0], b"empty".to_vec()),
        _ => panic!("an empty directory is removed at once"),
    }
    let a = eng.step(TaskEvent::Done(None));
    match a {
        TaskAction::Finished(o) => assert!(o.complete),
        _ => panic!("expected the walk to end"),
    }
}

#[test]
fn excepted_paths_are_passed_over_silently() {
    let keep = abs(&["d", "keep"]);
    let items = vec![abs(&["d", "keep"]), abs(&["d", "go"])];
    let (mut eng, _) = DeleteEngine::begin(items, vec![keep], Some(true), Some(true));
    // The excepted entry asks for nothing: the next poll is for "go".
    let a = eng.step(TaskEvent::CancelPending(false));
    assert!(matches!(a, TaskAction::PollCancel));
    let a = eng.step(TaskEvent::CancelPending(false));
    match a {
        TaskAction::Stat(p) => assert_eq!(p.parts[1], b"go".to_vec()),
        _ => panic!("the excepted entry must be skipped"),
    }
    let _ = eng.step(TaskEvent::Stat(Some(FileKind::File)));
    let a = eng.step(TaskEvent::Ack);
    match a {
        TaskAction::RemoveFile(p) => assert_eq!(p.parts[1], b"go".to_vec()),
        _ => panic!("only the other entry is removed"),
    }
    let a = eng.step(TaskEvent::Done(None));
    // One of two entries was counted: not complete.
    match a {
        TaskAction::Finished(o) => assert!(!o.complete),
        _ => panic!("expected the walk to end"),
    }
}

#[test]
fn a_failing_stat_is_reported_and_the_walk_goes_on() {
    let items = vec![abs(&["d", "gone"]), abs(&["d", "still"])];
    let (mut eng, _) = DeleteEngine::begin(items, Vec::new(), Some(true), Some(true));
    let _ = eng.step(TaskEvent::CancelPending(false));
    let a = eng.step(TaskEvent::Stat(None));
    match a {
        TaskAction::Tell(kind, req) => {
            assert_eq!(kind, ErrorKind::StatFailed);
            assert_eq!(req.msg, b"Cannot read metadata of gone".to_vec());
        },
        _ => panic!("expected the stat failure to be told"),
    }
    let a = eng.step(answer(0));
    assert!(matches!(a, TaskAction::PollCancel));
}

#[test]
fn a_failing_removal_is_reported_and_counted_as_kept() {
    let items = vec![abs(&["d", "locked"])];
    let (mut eng, _) = DeleteEngine::begin(items, Vec::new(), Some(true), Some(true));
    let _ = eng.step(TaskEvent::CancelPending(false));
    let _ = eng.step(TaskEvent::Stat(Some(FileKind::File)));
    let _ = eng.step(TaskEvent::Ack);
    let a = eng.step(TaskEvent::Done(Some(b"busy".to_vec())));
    match a {
        TaskAction::Tell(kind, req) => {
            assert_eq!(kind, ErrorKind::RemoveFailed);
            assert_eq!(req.msg, b"Cannot remove file locked, busy".to_vec());
        },
        _ => panic!("expected the removal failure to be told"),
    }
    let a = eng.step(answer(0));
    match a {
        TaskAction::Finished(o) => assert!(!o.complete),
        _ => panic!("expected the walk to end"),
    }
}

#[test]
fn a_failing_listing_is_reported_with_its_kind() {
    let items = vec![abs(&["d"])];
    let (mut eng, _) = DeleteEngine::begin(items, Vec::new(), Some(true), Some(true));
    let _ = eng.step(TaskEvent::CancelPending(false));
    let _ = eng.step(TaskEvent::Stat(Some(FileKind::Directory)));
    let a = eng.step(TaskEvent::Listing(None));
    match a {
        TaskAction::Tell(kind, req) => {
            assert_eq!(kind, ErrorKind::ReadDirFailed);
            assert_eq!(req.msg, b"Cannot read dir d.".to_vec());
        },
        _ => panic!("expected the listing failure to be told"),
    }
}
