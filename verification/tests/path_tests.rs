use forg_core::bytes::{bytes_starts_with, note, note_with};
use forg_core::fs_path::{display_name, path_contains, resolved_link, FsPath};

fn abs(parts: &[&str]) -> FsPath {
    FsPath {
        rooted: true,
        parts: parts.iter().map(|p| p.as_bytes().to_vec()).collect(),
    }
}

fn rel(parts: &[&str]) -> FsPath {
    FsPath {
        rooted: false,
        parts: parts.iter().map(|p| p.as_bytes().to_vec()).collect(),
    }
}

#[test]
fn child_appends_one_component() {
    let home = abs(&["home", "user"]);
    let file = home.child(&b"notes.txt".to_vec());
    assert!(file.rooted);
    assert_eq!(file.parts.len(), 3);
    assert_eq!(file.parts[2], b"notes.txt".to_vec());
}

#[test]
fn parent_drops_the_last_component() {
    let file = abs(&["home", "user", "notes.txt"]);
    let dir = file.parent().unwrap();
    assert_eq!(dir.parts.len(), 2);
    assert_eq!(dir.parts[1], b"user".to_vec());
    let root = abs(&[]);
    assert!(root.parent().is_none());
}

#[test]
fn file_name_is_the_last_component() {
    let file = abs(&["tmp", "a.txt"]);
    assert_eq!(file.file_name().unwrap(), &b"a.txt".to_vec());
    assert!(abs(&[]).file_name().is_none());
}

#[test]
fn same_as_compares_by_value() {
    let a = abs(&["x", "y"]);
    let b = abs(&["x", "y"]);
    let c = abs(&["x", "z"]);
    assert!(a.same_as(&b));
    assert!(!a.same_as(&c));
    assert!(!a.same_as(&rel(&["x", "y"])));
}

#[test]
fn containment_goes_by_value_too() {
    let set = vec![abs(&["a"]), abs(&["b", "c"])];
    assert!(path_contains(&set, &abs(&["b", "c"])));
    assert!(!path_contains(&set, &abs(&["b"])));
}

#[test]
fn rendering_joins_with_slashes() {
    assert_eq!(abs(&["home", "user"]).render(), b"/home/user".to_vec());
    assert_eq!(abs(&[]).render(), b"/".to_vec());
    assert_eq!(rel(&["a", "b"]).render(), b"a/b".to_vec());
}

#[test]
fn absolute_link_targets_stand_as_they_are() {
    let link = abs(&["dir", "link"]);
    let target = abs(&["etc", "passwd"]);
    let resolved = resolved_link(&link, &target);
    assert!(resolved.rooted);
    assert_eq!(resolved.render(), b"/etc/passwd".to_vec());
}

#[test]
fn relative_link_targets_resolve_against_the_parent() {
    let link = abs(&["dir", "sub", "link"]);
    let target = rel(&["other", "file"]);
    let resolved = resolved_link(&link, &target);
    assert_eq!(resolved.render(), b"/dir/sub/other/file".to_vec());
}

#[test]
fn display_names_carry_the_walk_prefix() {
    let p = abs(&["top", "inner", "leaf.txt"]);
    assert_eq!(display_name(&b"inner/".to_vec(), &p), b"inner/leaf.txt".to_vec());
    assert_eq!(display_name(&Vec::new(), &p), b"leaf.txt".to_vec());
}

#[test]
fn notes_wrap_names_and_details() {
    assert_eq!(
        note("Delete ", &b"a.txt".to_vec(), "?"),
        b"Delete a.txt?".to_vec()
    );
    assert_eq!(
        note_with("Cannot copy ", &b"a".to_vec(), ", ", &b"denied".to_vec()),
        b"Cannot copy a, denied".to_vec()
    );
}

#[test]
fn prefix_check_is_exact() {
    assert!(bytes_starts_with(&b"abcd".to_vec(), &b"ab".to_vec()));
    assert!(bytes_starts_with(&b"ab".to_vec(), &b"".to_vec()));
    assert!(!bytes_starts_with(&b"ab".to_vec(), &b"abc".to_vec()));
    assert!(!bytes_starts_with(&b"ba".to_vec(), &b"ab".to_vec()));
}
