use http_horse::fs::exclude::{exclude, is_excluded};
use http_horse::fs::project_dir::{scan_project_dir, Error, RawEntry};

fn file(name: &[u8]) -> RawEntry {
    RawEntry::RawFile { name: name.to_vec() }
}

fn dir(name: &[u8], entries: Vec<RawEntry>) -> RawEntry {
    RawEntry::RawDir { name: name.to_vec(), entries }
}

fn link(name: &[u8]) -> RawEntry {
    RawEntry::RawLink { name: name.to_vec() }
}

fn unreadable(name: &[u8]) -> RawEntry {
    RawEntry::RawUnreadable { name: name.to_vec() }
}

#[test]
fn excluded_names_match_exactly() {
    let t = exclude();
    assert!(is_excluded(&t, b".git"));
    assert!(is_excluded(&t, b".DS_Store"));
    assert!(is_excluded(&t, b".htaccess"));
    assert!(is_excluded(&t, b".gitignore"));
    assert!(!is_excluded(&t, b"git"));
    assert!(!is_excluded(&t, b".git2"));
    assert!(!is_excluded(&t, b".gitignor"));
    assert!(!is_excluded(&t, b"readme.txt"));
    assert!(!is_excluded(&t, b""));
    assert!(!is_excluded(&t, b".DS_STORE"));
}

#[test]
fn scan_yields_readme_only() {
    // A root like /tmp/proj holding readme.txt and .git/config: exactly one
    // file node, and .git entirely absent.
    let t = exclude();
    let entries = vec![file(b"readme.txt"), dir(b".git", vec![file(b"config")])];
    let tree = scan_project_dir(&t, &entries).unwrap();
    assert_eq!(tree.tracked_files.len(), 1);
    assert_eq!(tree.tracked_files[0].name, b"readme.txt".to_vec());
    assert_eq!(tree.tracked_files[0].fpath, b"readme.txt".to_vec());
    assert_eq!(tree.tracked_dirs.len(), 0);
}

#[test]
fn excluded_names_absent_at_any_depth() {
    let t = exclude();
    let entries = vec![
        file(b".DS_Store"),
        dir(
            b"src",
            vec![
                file(b".gitignore"),
                file(b"main.rs"),
                dir(b"nested", vec![file(b".htaccess"), file(b"ok.txt")]),
            ],
        ),
        dir(b".git", vec![dir(b"objects", vec![file(b"aa")])]),
    ];
    let tree = scan_project_dir(&t, &entries).unwrap();
    assert_eq!(tree.tracked_files.len(), 0);
    assert_eq!(tree.tracked_dirs.len(), 1);
    let src = &tree.tracked_dirs[0];
    assert_eq!(src.name, b"src".to_vec());
    assert_eq!(src.dpath, b"src".to_vec());
    assert_eq!(src.tracked_files.len(), 1);
    assert_eq!(src.tracked_files[0].fpath, b"src/main.rs".to_vec());
    assert_eq!(src.tracked_dirs.len(), 1);
    let nested = &src.tracked_dirs[0];
    assert_eq!(nested.dpath, b"src/nested".to_vec());
    assert_eq!(nested.tracked_files.len(), 1);
    assert_eq!(nested.tracked_files[0].fpath, b"src/nested/ok.txt".to_vec());
}

#[test]
fn symlinks_never_tracked() {
    let t = exclude();
    let entries = vec![
        link(b"link-to-file"),
        dir(b"docs", vec![link(b"link-to-dir"), file(b"index.html")]),
        link(b"dangling"),
    ];
    let tree = scan_project_dir(&t, &entries).unwrap();
    assert_eq!(tree.tracked_files.len(), 0);
    assert_eq!(tree.tracked_dirs.len(), 1);
    let docs = &tree.tracked_dirs[0];
    assert_eq!(docs.tracked_files.len(), 1);
    assert_eq!(docs.tracked_files[0].fpath, b"docs/index.html".to_vec());
    assert_eq!(docs.tracked_dirs.len(), 0);
}

#[test]
fn unreadable_entry_aborts_whole_scan() {
    let t = exclude();
    let entries = vec![
        file(b"fine.txt"),
        dir(b"sub", vec![unreadable(b"locked")]),
        file(b"also-fine.txt"),
    ];
    let r = scan_project_dir(&t, &entries);
    assert_eq!(r, Err(Error::IO(b"locked".to_vec())));
}

#[test]
fn unreadable_under_excluded_name_is_skipped() {
    let t = exclude();
    let entries = vec![unreadable(b".git"), dir(b".git", vec![]), file(b"x")];
    let tree = scan_project_dir(&t, &entries).unwrap();
    assert_eq!(tree.tracked_files.len(), 1);
    assert_eq!(tree.tracked_dirs.len(), 0);
}

#[test]
fn scanning_twice_yields_identical_trees() {
    let t = exclude();
    let entries = vec![
        file(b"a.txt"),
        dir(b"d", vec![file(b"b.txt"), link(b"s"), dir(b"e", vec![])]),
        file(b".DS_Store"),
    ];
    let one = scan_project_dir(&t, &entries).unwrap();
    let two = scan_project_dir(&t, &entries).unwrap();
    assert_eq!(one, two);
}

#[test]
fn empty_root_scans_to_empty_tree() {
    let t = exclude();
    let entries: Vec<RawEntry> = vec![];
    let tree = scan_project_dir(&t, &entries).unwrap();
    assert_eq!(tree.name, Vec::<u8>::new());
    assert_eq!(tree.dpath, Vec::<u8>::new());
    assert!(tree.tracked_files.is_empty());
    assert!(tree.tracked_dirs.is_empty());
}
