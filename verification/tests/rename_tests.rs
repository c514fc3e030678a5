use forg_core::dialog::{DialogOption, DialogResponse};
use forg_core::fs_path::FsPath;
use forg_core::open_with::{
    default_selection, open_file_outcome, open_with_request, OpenWithDecision,
};
use forg_core::rename::RenameOp;
use forg_core::task::{ErrorKind, TaskAction, TaskEvent};

fn abs(parts: &[&str]) -> FsPath {
    FsPath {
        rooted: true,
        parts: parts.iter().map(|p| p.as_bytes().to_vec()).collect(),
    }
}

#[test]
fn a_rename_that_works_ends_complete() {
    let (mut op, first) = RenameOp::begin(abs(&["d", "old"]), abs(&["d", "new"]));
    match first {
        TaskAction::Rename(s, t) => {
            assert_eq!(s.render(), b"/d/old".to_vec());
            assert_eq!(t.render(), b"/d/new".to_vec());
        },
        _ => panic!("the rename is the one action"),
    }
    let a = op.step(TaskEvent::Done(None));
    match a {
        TaskAction::Finished(o) => {
            assert!(o.complete);
            assert!(!o.cancelled);
        },
        _ => panic!("a worked rename ends at once"),
    }
}

#[test]
fn a_rename_that_fails_is_told_once_and_ends_failed() {
    let (mut op, _) = RenameOp::begin(abs(&["d", "old"]), abs(&["d", "new"]));
    let a = op.step(TaskEvent::Done(Some(b"exists".to_vec())));
    match a {
        TaskAction::Tell(kind, req) => {
            assert_eq!(kind, ErrorKind::RenameFailed);
            assert_eq!(req.msg, b"Cannot rename old, exists".to_vec());
        },
        _ => panic!("the failure is told"),
    }
    let a = op.step(TaskEvent::Answer(DialogResponse::new(0, None)));
    match a {
        TaskAction::Finished(o) => assert!(!o.complete),
        _ => panic!("a failed rename ends failed"),
    }
}

#[test]
fn the_open_with_question_carries_its_options() {
    let options = vec![
        DialogOption { text: "Editor".to_string(), icon_name: "editor".to_string() },
        DialogOption { text: "Viewer".to_string(), icon_name: "viewer".to_string() },
    ];
    let req = open_with_request(options, Some(1));
    assert_eq!(req.msg, b"Open file with:".to_vec());
    assert_eq!(req.actions.len(), 3);
    assert_eq!(req.actions[0].text, "Default");
    assert_eq!(req.sel_option, Some(1));
    assert_eq!(req.options.len(), 2);
}

#[test]
fn the_default_application_is_found_or_put_first() {
    let mut all = vec![4usize, 7, 9];
    assert_eq!(default_selection(&mut all, Some(7)), Some(1));
    assert_eq!(all, vec![4, 7, 9]);
    assert_eq!(default_selection(&mut all, Some(5)), Some(0));
    assert_eq!(all, vec![5, 4, 7, 9]);
    assert_eq!(default_selection(&mut all, None), None);
    assert_eq!(all, vec![5, 4, 7, 9]);
}

#[test]
fn the_open_with_answer_decides_what_launches() {
    let dismiss = open_file_outcome(&DialogResponse::new(2, Some(0)), 3);
    assert!(matches!(dismiss, OpenWithDecision::Dismiss));
    let none = open_file_outcome(&DialogResponse::new(1, None), 3);
    assert!(matches!(none, OpenWithDecision::NoSelection));
    let plain = open_file_outcome(&DialogResponse::new(1, Some(2)), 3);
    assert!(matches!(
        plain,
        OpenWithDecision::Launch { option: 2, set_default: false }
    ));
    let as_default = open_file_outcome(&DialogResponse::new(0, Some(1)), 3);
    assert!(matches!(
        as_default,
        OpenWithDecision::Launch { option: 1, set_default: true }
    ));
}
