use forg_core::delete::DeleteEngine;
use forg_core::dialog::DialogResponse;
use forg_core::fs_path::FsPath;
use forg_core::listing::FileKind;
use forg_core::paste::PasteEngine;
use forg_core::task::{TaskAction, TaskEvent};

fn abs(parts: &[&str]) -> FsPath {
    FsPath {
        rooted: true,
        parts: parts.iter().map(|p| p.as_bytes().to_vec()).collect(),
    }
}

fn answer(action: usize) -> TaskEvent {
    TaskEvent::Answer(DialogResponse::new(action, None))
}

fn shown(p: &FsPath) -> String {
    String::from_utf8(p.render()).unwrap()
}

#[test]
fn a_nested_delete_removes_leaves_first_and_directories_last() {
    // /top holds a file and /top/sub holds another: the files go first,
    // then sub, then top — each directory only after everything below it.
    let (mut eng, _) = DeleteEngine::begin(vec![abs(&["top"])], Vec::new(), Some(true), Some(true));
    let mut removed: Vec<String> = Vec::new();
    let mut a = eng.step(TaskEvent::CancelPending(false));
    let outcome = loop {
        match a {
            TaskAction::PollCancel => a = eng.step(TaskEvent::CancelPending(false)),
            TaskAction::Stat(p) => {
                let kind = if p.parts.last().unwrap().starts_with(b"f") {
                    FileKind::File
                } else {
                    FileKind::Directory
                };
                a = eng.step(TaskEvent::Stat(Some(kind)));
            },
            TaskAction::ReadDir(p) => {
                let children = if p.parts.len() == 1 {
                    vec![abs(&["top", "f1"]), abs(&["top", "sub"])]
                } else {
                    vec![abs(&["top", "sub", "f2"])]
                };
                a = eng.step(TaskEvent::Listing(Some(children)));
            },
            TaskAction::Progress(_) => a = eng.step(TaskEvent::Ack),
            TaskAction::RemoveFile(p) | TaskAction::RemoveDir(p) => {
                removed.push(shown(&p));
                a = eng.step(TaskEvent::Done(None));
            },
            TaskAction::Finished(o) => break o,
            other => panic!("unexpected request: {:?}", std::mem::discriminant(&other)),
        }
    };
    assert_eq!(removed, vec!["/top/f1", "/top/sub/f2", "/top/sub", "/top"]);
    assert!(outcome.complete);
}

#[test]
fn the_deeper_question_carries_the_whole_readable_path() {
    let (mut eng, _) = DeleteEngine::begin(vec![abs(&["top"])], Vec::new(), None, Some(true));
    let _ = eng.step(TaskEvent::CancelPending(false));
    let _ = eng.step(TaskEvent::Stat(Some(FileKind::Directory)));
    let _ = eng.step(TaskEvent::Listing(Some(vec![abs(&["top", "sub"])])));
    let _ = eng.step(TaskEvent::CancelPending(false));
    let _ = eng.step(TaskEvent::Stat(Some(FileKind::Directory)));
    let _ = eng.step(TaskEvent::Listing(Some(vec![abs(&["top", "sub", "deep.txt"])])));
    let _ = eng.step(TaskEvent::CancelPending(false));
    let a = eng.step(TaskEvent::Stat(Some(FileKind::File)));
    match a {
        TaskAction::Ask(req) => assert_eq!(req.msg, b"Delete top/sub/deep.txt?".to_vec()),
        _ => panic!("expected the file question"),
    }
}

#[test]
fn a_paste_into_an_existing_directory_creates_nothing() {
    let (mut eng, _) = PasteEngine::begin(vec![abs(&["s", "sub"])], abs(&["d"]), false);
    let _ = eng.step(TaskEvent::CancelPending(false));
    let _ = eng.step(TaskEvent::Stat(Some(FileKind::Directory)));
    let a = eng.step(TaskEvent::TargetStat(Some(Some(FileKind::Directory))));
    assert!(matches!(a, TaskAction::Progress(_)));
    let a = eng.step(TaskEvent::Ack);
    match a {
        TaskAction::ReadDir(p) => assert_eq!(shown(&p), "/s/sub"),
        _ => panic!("an existing directory is entered, not created"),
    }
}

#[test]
fn a_nested_paste_lands_children_under_the_new_target() {
    let (mut eng, _) = PasteEngine::begin(vec![abs(&["s", "sub"])], abs(&["d"]), false);
    let _ = eng.step(TaskEvent::CancelPending(false));
    let _ = eng.step(TaskEvent::Stat(Some(FileKind::Directory)));
    let _ = eng.step(TaskEvent::TargetStat(None));
    let a = eng.step(TaskEvent::Ack);
    match a {
        TaskAction::CreateDir(t) => assert_eq!(shown(&t), "/d/sub"),
        _ => panic!("a fresh directory is created first"),
    }
    let _ = eng.step(TaskEvent::Done(None));
    let _ = eng.step(TaskEvent::Listing(Some(vec![abs(&["s", "sub", "f"])])));
    let _ = eng.step(TaskEvent::CancelPending(false));
    let _ = eng.step(TaskEvent::Stat(Some(FileKind::File)));
    let _ = eng.step(TaskEvent::TargetStat(None));
    let a = eng.step(TaskEvent::Ack);
    match a {
        TaskAction::CopyFile(s, t) => {
            assert_eq!(shown(&s), "/s/sub/f");
            assert_eq!(shown(&t), "/d/sub/f");
        },
        _ => panic!("the child lands under the new target"),
    }
}

#[test]
fn overwrite_all_answers_for_the_remaining_files() {
    let (mut eng, _) = PasteEngine::begin(
        vec![abs(&["s", "x"]), abs(&["s", "y"])],
        abs(&["d"]),
        false,
    );
    let _ = eng.step(TaskEvent::CancelPending(false));
    let _ = eng.step(TaskEvent::Stat(Some(FileKind::File)));
    let a = eng.step(TaskEvent::TargetStat(Some(Some(FileKind::File))));
    match a {
        TaskAction::Ask(req) => assert_eq!(req.msg, b"Overwrite existing file x?".to_vec()),
        _ => panic!("the first collision asks"),
    }
    let a = eng.step(answer(0));  // All
    assert!(matches!(a, TaskAction::Progress(_)));
    let _ = eng.step(TaskEvent::Ack);
    let _ = eng.step(TaskEvent::Done(None));
    let _ = eng.step(TaskEvent::CancelPending(false));
    let _ = eng.step(TaskEvent::Stat(Some(FileKind::File)));
    // The second collision asks nothing.
    let a = eng.step(TaskEvent::TargetStat(Some(Some(FileKind::File))));
    assert!(matches!(a, TaskAction::Progress(_)));
}
