use forg_core::dir_model::{DirModel, OpenDirResult, Stash};
use forg_core::fs_path::FsPath;
use forg_core::listing::{Entry, FileKind};
use forg_core::task::ErrorKind;

fn abs(parts: &[&str]) -> FsPath {
    FsPath {
        rooted: true,
        parts: parts.iter().map(|p| p.as_bytes().to_vec()).collect(),
    }
}

fn entry(name: &str, kind: FileKind) -> Entry {
    Entry { name: name.as_bytes().to_vec(), kind }
}

fn model(names: &[&str]) -> DirModel {
    let entries = names.iter().map(|n| entry(n, FileKind::File)).collect();
    DirModel::new(abs(&["home"]), entries, false)
}

#[test]
fn focus_walks_down_and_stops_at_the_last_entry() {
    let mut m = model(&["a", "b", "c"]);
    assert_eq!(m.current, None);
    m.move_next();
    assert_eq!(m.current, Some(0));
    m.move_next();
    m.move_next();
    assert_eq!(m.current, Some(2));
    m.move_next();
    assert_eq!(m.current, Some(2));
}

#[test]
fn focus_walks_up_and_stops_at_the_first_entry() {
    let mut m = model(&["a", "b"]);
    m.move_prev();
    assert_eq!(m.current, None);
    m.move_end();
    assert_eq!(m.current, Some(1));
    m.move_prev();
    assert_eq!(m.current, Some(0));
    m.move_prev();
    assert_eq!(m.current, Some(0));
    m.move_home();
    assert_eq!(m.current, Some(0));
}

#[test]
fn marking_toggles_and_moves_on() {
    let mut m = model(&["a", "b", "c"]);
    m.move_next();
    m.toggle_mark();
    assert_eq!(m.marked, vec![0]);
    assert_eq!(m.current, Some(1));
    m.toggle_mark();
    assert_eq!(m.marked, vec![0, 1]);
    m.move_prev();
    m.move_prev();
    m.toggle_mark();
    assert_eq!(m.marked, vec![1]);
}

#[test]
fn operations_take_the_marks_or_else_the_focus() {
    let mut m = model(&["a", "b", "c"]);
    m.move_next();
    let items = m.operate_items();
    assert_eq!(items, vec![0]);
    m.toggle_mark();
    m.toggle_mark();
    let items = m.operate_items();
    assert_eq!(items, vec![0, 1]);
}

#[test]
fn the_search_wraps_around_the_focus() {
    let mut m = model(&["ab", "ba", "ax", "aa"]);
    m.start_with = b"a".to_vec();
    m.move_next();  // focus "ab"
    assert!(m.search_next());
    assert_eq!(m.current, Some(2));  // "ax" comes next
    assert!(m.search_next());
    assert_eq!(m.current, Some(3));  // then "aa"
    assert!(m.search_next());
    assert_eq!(m.current, Some(0));  // and around to "ab"
    m.start_with = b"zz".to_vec();
    assert!(!m.search_next());
    assert_eq!(m.current, Some(0));
    m.search_clear();
    assert!(m.start_with.is_empty());
}

#[test]
fn toggling_hidden_keeps_the_focused_name() {
    let mut m = model(&["docs", "notes"]);
    m.move_next();
    m.move_next();  // focus "notes"
    let fresh = vec![
        entry(".hidden", FileKind::File),
        entry("docs", FileKind::File),
        entry("notes", FileKind::File),
    ];
    m.toggle_hidden(fresh);
    assert!(m.show_hidden);
    assert_eq!(m.current, Some(2));
    assert!(m.marked.is_empty());
}

#[test]
fn opening_pushes_history_and_back_pops_it() {
    let mut m = model(&["sub"]);
    m.move_next();
    let listed = OpenDirResult {
        path: abs(&["home", "sub"]),
        entries: vec![entry("inner.txt", FileKind::File)],
        current: None,
    };
    m.open_with_result(listed);
    assert_eq!(m.history.len(), 1);
    assert_eq!(m.dir_path.render(), b"/home/sub".to_vec());

    let (back_path, focus) = m.back().unwrap();
    assert_eq!(back_path.render(), b"/home".to_vec());
    assert_eq!(focus, Some(b"sub".to_vec()));
    let listed = OpenDirResult {
        path: back_path,
        entries: vec![entry("sub", FileKind::Directory)],
        current: focus,
    };
    m.back_with_result(listed);
    assert_eq!(m.history.len(), 0);
    assert_eq!(m.current, Some(0));
}

#[test]
fn back_with_no_history_cannot_start() {
    let m = model(&["a"]);
    let err = m.back().unwrap_err();
    assert_eq!(err.kind, ErrorKind::PreconditionFailed);
    assert_eq!(err.msg, b"History empty".to_vec());
}

#[test]
fn up_leads_to_the_parent_and_fails_at_the_root() {
    let m = model(&["a"]);
    let up = m.up().unwrap();
    assert_eq!(up.render(), b"/".to_vec());

    let root = DirModel::new(abs(&[]), Vec::new(), false);
    let err = root.up().unwrap_err();
    assert_eq!(err.kind, ErrorKind::PreconditionFailed);
    assert_eq!(err.msg, b"Cannot go to the parent dir. /".to_vec());
}

#[test]
fn delete_with_nothing_selected_cannot_start() {
    let m = model(&["a"]);
    let err = m.delete().unwrap_err();
    assert_eq!(err.kind, ErrorKind::PreconditionFailed);
    assert_eq!(err.msg, b"Nothing to delete".to_vec());
}

#[test]
fn delete_takes_the_full_paths_of_the_marks() {
    let mut m = model(&["a", "b"]);
    m.move_next();
    m.toggle_mark();
    m.toggle_mark();
    let paths = m.delete().unwrap();
    assert_eq!(paths.len(), 2);
    assert_eq!(paths[0].render(), b"/home/a".to_vec());
    assert_eq!(paths[1].render(), b"/home/b".to_vec());
}

#[test]
fn rename_needs_a_focus_and_builds_both_paths() {
    let mut m = model(&["old.txt"]);
    let err = m.rename(&b"new.txt".to_vec()).unwrap_err();
    assert_eq!(err.kind, ErrorKind::PreconditionFailed);
    assert_eq!(err.msg, b"Nothing selected.".to_vec());
    m.move_next();
    let (src, target) = m.rename(&b"new.txt".to_vec()).unwrap();
    assert_eq!(src.render(), b"/home/old.txt".to_vec());
    assert_eq!(target.render(), b"/home/new.txt".to_vec());
}

#[test]
fn the_stash_hands_its_paths_out_once() {
    let mut m = model(&["a", "b"]);
    m.move_next();
    let mut stash = Stash::new();
    m.copy_or_move(&mut stash, true);
    assert!(stash.is_stash_move());
    let taken = stash.take_stash();
    assert_eq!(taken.len(), 1);
    assert_eq!(taken[0].render(), b"/home/a".to_vec());
    assert!(stash.take_stash().is_empty());
}

#[test]
fn should_open_dir_reads_the_focused_kind() {
    let mut m = DirModel::new(
        abs(&["home"]),
        vec![entry("sub", FileKind::Directory), entry("f", FileKind::File)],
        false,
    );
    assert_eq!(m.should_open_dir(), None);
    m.move_next();
    assert_eq!(m.should_open_dir(), Some(true));
    m.move_next();
    assert_eq!(m.should_open_dir(), Some(false));
}

#[test]
fn refresh_drops_marks_and_focuses_the_requested_name() {
    let mut m = model(&["a", "b"]);
    m.move_next();
    m.toggle_mark();
    let listed = OpenDirResult {
        path: abs(&["home"]),
        entries: vec![entry("a", FileKind::File), entry("b", FileKind::File)],
        current: Some(b"b".to_vec()),
    };
    m.refresh_with_result(listed);
    assert!(m.marked.is_empty());
    assert_eq!(m.current, Some(1));
}

#[test]
fn opening_a_resolved_entry_decides_what_to_list() {
    let dir = DirModel::open_resolved(abs(&["data"]), Some(FileKind::Directory)).unwrap();
    assert_eq!(dir.0.render(), b"/data".to_vec());
    assert_eq!(dir.1, None);

    let file = DirModel::open_resolved(abs(&["data", "x.txt"]), Some(FileKind::File)).unwrap();
    assert_eq!(file.0.render(), b"/data".to_vec());
    assert_eq!(file.1, Some(b"x.txt".to_vec()));

    let gone = DirModel::open_resolved(abs(&["no", "such"]), None).unwrap_err();
    assert_eq!(gone.kind, ErrorKind::PreconditionFailed);
    assert_eq!(gone.msg, b"Cannot follow /no/such".to_vec());

    let odd = DirModel::open_resolved(abs(&["dev", "pipe"]), Some(FileKind::Unknown)).unwrap_err();
    assert_eq!(odd.msg, b"Do not know how to handle this item".to_vec());
}
