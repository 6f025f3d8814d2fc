use gallium::error::ErrorKind;
use gallium::repository::Repository;
use gallium::tree::{octal_mode_string, split_path, Tree, TreeEntry, TreeItem};

fn blob(name: &str, mode: u32) -> TreeEntry {
    TreeEntry {
        id: format!("id-{}", name),
        name: name.to_string(),
        filemode: mode,
        item: TreeItem::Blob,
    }
}

fn subtree(name: &str, entries: Vec<TreeEntry>) -> TreeEntry {
    TreeEntry {
        id: format!("id-{}", name),
        name: name.to_string(),
        filemode: 0o040000,
        item: TreeItem::Subtree(Tree { entries }),
    }
}

fn sample() -> Tree {
    Tree {
        entries: vec![
            blob("README", 0o100644),
            subtree("src", vec![blob("main.rs", 0o100644), blob("run", 0o100755)]),
        ],
    }
}

fn handle() -> Repository {
    Repository { path: "root/alice/demo".to_string() }
}

#[test]
fn filemodes_are_six_octal_digits() {
    assert_eq!(octal_mode_string(0o100644), "100644");
    assert_eq!(octal_mode_string(0o100755), "100755");
    assert_eq!(octal_mode_string(0o040000), "040000");
    assert_eq!(octal_mode_string(0), "000000");
}

#[test]
fn shallow_walk_reports_subtrees_as_single_entries() {
    let objects = handle().list_tree(&sample(), None, false).unwrap();
    assert_eq!(objects.len(), 2);
    assert_eq!(objects[0].kind, "blob");
    assert_eq!(objects[0].name, "README");
    assert_eq!(objects[0].path, "README");
    assert_eq!(objects[0].filemode, "100644");
    assert_eq!(objects[1].kind, "tree");
    assert_eq!(objects[1].name, "src");
    assert_eq!(objects[1].path, "src");
    assert_eq!(objects[1].filemode, "040000");
}

#[test]
fn recursive_walk_reaches_only_blobs_with_full_paths() {
    let objects = handle().list_tree(&sample(), None, true).unwrap();
    assert_eq!(objects.len(), 3);
    assert_eq!(objects[0].path, "README");
    assert_eq!(objects[1].path, "src/main.rs");
    assert_eq!(objects[1].kind, "blob");
    assert_eq!(objects[2].path, "src/run");
    assert_eq!(objects[2].filemode, "100755");
}

#[test]
fn path_filter_walks_the_named_level() {
    let objects = handle().list_tree(&sample(), Some("src"), false).unwrap();
    assert_eq!(objects.len(), 2);
    assert_eq!(objects[0].name, "main.rs");
    assert_eq!(objects[0].path, "src/main.rs");
}

#[test]
fn path_filter_tolerates_extra_slashes() {
    let objects = handle().list_tree(&sample(), Some("src/"), false).unwrap();
    assert_eq!(objects.len(), 2);
}

#[test]
fn path_filter_that_names_nothing_is_not_found() {
    let err = handle().list_tree(&sample(), Some("does-not-exist"), false).unwrap_err();
    assert_eq!(err.status, 404);
    assert_eq!(err.kind, ErrorKind::NotFound);
}

#[test]
fn path_filter_that_names_a_blob_is_not_found() {
    assert!(handle().list_tree(&sample(), Some("README"), false).is_err());
}

#[test]
fn unsupported_kinds_fail_the_walk() {
    let tree = Tree {
        entries: vec![
            blob("ok", 0o100644),
            TreeEntry {
                id: "id-strange".to_string(),
                name: "strange".to_string(),
                filemode: 0o160000,
                item: TreeItem::Unsupported,
            },
        ],
    };
    let err = handle().list_tree(&tree, None, false).unwrap_err();
    assert_eq!(err.status, 500);
    assert_eq!(err.kind, ErrorKind::UpstreamFailure);
}

#[test]
fn empty_trees_walk_to_nothing() {
    let objects = handle().list_tree(&Tree { entries: Vec::new() }, None, true).unwrap();
    assert!(objects.is_empty());
}

#[test]
fn paths_split_on_slashes_dropping_empties() {
    assert_eq!(split_path("a/b/c"), vec!["a", "b", "c"]);
    assert_eq!(split_path("a//b/"), vec!["a", "b"]);
    assert_eq!(split_path(""), Vec::<String>::new());
    assert_eq!(split_path("/"), Vec::<String>::new());
}

#[test]
fn blobs_encode_to_base64_records() {
    let record = handle().encode_blob("abc123", Some(b"hello".to_vec())).unwrap();
    assert_eq!(record.sha, "abc123");
    assert_eq!(record.encoding, "base64");
    assert_eq!(record.content, "aGVsbG8=");
    assert_eq!(record.size, 8);
}

#[test]
fn missing_blobs_are_not_found() {
    let err = handle().encode_blob("abc123", None).unwrap_err();
    assert_eq!(err.status, 404);
}
