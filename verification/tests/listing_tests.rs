use forg_core::listing::{list, Entry, FileKind};

fn entry(name: &str, kind: FileKind) -> Entry {
    Entry { name: name.as_bytes().to_vec(), kind }
}

fn names(entries: &[Entry]) -> Vec<String> {
    entries.iter().map(|e| String::from_utf8(e.name.clone()).unwrap()).collect()
}

#[test]
fn directories_come_first_each_group_by_name() {
    let raw = vec![
        entry("zeta", FileKind::File),
        entry("beta", FileKind::Directory),
        entry("alpha", FileKind::File),
        entry("delta", FileKind::Directory),
    ];
    let out = list(raw, true);
    assert_eq!(names(&out), vec!["beta", "delta", "alpha", "zeta"]);
    assert!(out[0].kind == FileKind::Directory);
    assert!(out[1].kind == FileKind::Directory);
    assert!(out[2].kind == FileKind::File);
    assert!(out[3].kind == FileKind::File);
}

#[test]
fn symlinks_sort_with_files() {
    let raw = vec![
        entry("link", FileKind::Symlink),
        entry("dir", FileKind::Directory),
        entry("file", FileKind::File),
    ];
    let out = list(raw, true);
    assert_eq!(names(&out), vec!["dir", "file", "link"]);
}

#[test]
fn hidden_entries_are_left_out_unless_asked_for() {
    let raw = vec![
        entry(".config", FileKind::Directory),
        entry("music", FileKind::Directory),
        entry(".bashrc", FileKind::File),
        entry("notes.txt", FileKind::File),
    ];
    let shown = list(
        raw.iter().map(|e| Entry { name: e.name.clone(), kind: e.kind }).collect(),
        false,
    );
    assert_eq!(names(&shown), vec!["music", "notes.txt"]);
    let all = list(raw, true);
    assert_eq!(names(&all), vec![".config", "music", ".bashrc", "notes.txt"]);
}

#[test]
fn listing_twice_gives_the_same_listing() {
    let raw = vec![
        entry("b", FileKind::File),
        entry(".h", FileKind::File),
        entry("a", FileKind::Directory),
        entry("c", FileKind::File),
    ];
    let once = list(raw, false);
    let again = list(
        once.iter().map(|e| Entry { name: e.name.clone(), kind: e.kind }).collect(),
        false,
    );
    assert_eq!(names(&once), names(&again));
    assert_eq!(names(&once), vec!["a", "b", "c"]);
}

#[test]
fn byte_order_decides_ties_of_kind() {
    let raw = vec![
        entry("b.txt", FileKind::File),
        entry("a.txt", FileKind::File),
        entry("ab", FileKind::File),
        entry("a", FileKind::File),
    ];
    let out = list(raw, true);
    assert_eq!(names(&out), vec!["a", "a.txt", "ab", "b.txt"]);
}

#[test]
fn equal_entries_stay_together() {
    let raw = vec![
        entry("same", FileKind::File),
        entry("same", FileKind::File),
    ];
    let out = list(raw, true);
    assert_eq!(out.len(), 2);
    assert_eq!(names(&out), vec!["same", "same"]);
}
