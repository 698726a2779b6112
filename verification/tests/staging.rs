use git2::{ObjectType, Oid, Repository};
use std::io::Write;
use std::path::Path;
use tuicr::staging::{
    stage_file, stage_in_index, unstage_file, unstage_in_index, unstage_with_head, HeadFile,
    HeadLookup,
};

fn write_file(path: &Path, contents: &str) {
    let dir = path.parent().unwrap();
    let mut file = tempfile::NamedTempFile::new_in(dir).unwrap();
    file.write_all(contents.as_bytes()).unwrap();
    file.persist(path).unwrap();
}

#[test]
fn stage_file_adds_to_index() {
    let temp_dir = tempfile::tempdir().expect("failed to create temp dir");
    let repo = Repository::init(temp_dir.path()).expect("failed to init repo");

    let file_path = temp_dir.path().join("test.txt");
    write_file(&file_path, "hello\n");

    stage_file(&repo, "test.txt").unwrap();

    let index = repo.index().unwrap();
    assert!(index.get_path(Path::new("test.txt"), 0).is_some());
}

#[test]
fn unstage_file_removes_from_index_for_new_file() {
    let temp_dir = tempfile::tempdir().expect("failed to create temp dir");
    let repo = Repository::init(temp_dir.path()).expect("failed to init repo");

    let file_path = temp_dir.path().join("new.txt");
    write_file(&file_path, "content\n");

    stage_file(&repo, "new.txt").unwrap();
    let index = repo.index().unwrap();
    assert!(index.get_path(Path::new("new.txt"), 0).is_some());
    drop(index);

    unstage_file(&repo, "new.txt").unwrap();

    let index = repo.index().unwrap();
    assert!(index.get_path(Path::new("new.txt"), 0).is_none());
}

#[test]
fn unstage_file_resets_tracked_file_to_head() {
    let temp_dir = tempfile::tempdir().expect("failed to create temp dir");
    let repo = Repository::init(temp_dir.path()).expect("failed to init repo");
    let file_path = temp_dir.path().join("tracked.txt");
    write_file(&file_path, "original\n");

    let mut cfg = repo.config().unwrap();
    cfg.set_str("user.name", "test").unwrap();
    cfg.set_str("user.email", "test@test").unwrap();
    drop(cfg);

    let sig = repo.signature().unwrap();
    let mut index = repo.index().unwrap();
    index.add_path(Path::new("tracked.txt")).unwrap();
    let tree_id = index.write_tree().unwrap();
    let tree = repo.find_tree(tree_id).unwrap();
    repo.commit(Some("HEAD"), &sig, &sig, "initial", &tree, &[])
        .unwrap();
    drop(index);

    let head_tree = repo.head().unwrap().peel_to_tree().unwrap();
    let head_blob_id = head_tree.get_path(Path::new("tracked.txt")).unwrap().id();

    write_file(&file_path, "modified\n");
    stage_file(&repo, "tracked.txt").unwrap();
    let index = repo.index().unwrap();
    let staged_entry = index.get_path(Path::new("tracked.txt"), 0).unwrap();
    assert_ne!(staged_entry.id, head_blob_id);
    drop(index);

    unstage_file(&repo, "tracked.txt").unwrap();

    let index = repo.index().unwrap();
    let entry = index.get_path(Path::new("tracked.txt"), 0).unwrap();
    assert_eq!(
        entry.id, head_blob_id,
        "index entry blob id should match HEAD blob"
    );
    let wt_content = Oid::hash_file(ObjectType::Blob, &file_path).unwrap();
    let modified = Oid::hash_object(ObjectType::Blob, b"modified\n").unwrap();
    assert_eq!(wt_content, modified);
}

#[test]
fn staging_errors_are_git_errors() {
    let temp_dir = tempfile::tempdir().expect("failed to create temp dir");
    let repo = Repository::init(temp_dir.path()).expect("failed to init repo");
    let missing = stage_file(&repo, "missing.txt");
    assert!(matches!(missing, Err(tuicr::error::TuicrError::Git(_))));
    let absolute = unstage_file(&repo, "/etc/passwd");
    assert!(matches!(absolute, Err(tuicr::error::TuicrError::Git(_))));
}

#[test]
fn unstage_untracked_file_in_unborn_repository() {
    let temp_dir = tempfile::tempdir().expect("failed to create temp dir");
    let repo = Repository::init(temp_dir.path()).expect("failed to init repo");
    write_file(&temp_dir.path().join("a.txt"), "a\n");
    unstage_file(&repo, "a.txt").unwrap();
    let index = repo.index().unwrap();
    assert!(index.get_path(Path::new("a.txt"), 0).is_none());
}

#[test]
fn paths_outside_the_working_directory_are_refused() {
    let temp_dir = tempfile::tempdir().expect("failed to create temp dir");
    let repo = Repository::init(temp_dir.path()).expect("failed to init repo");
    write_file(&temp_dir.path().join("a.txt"), "a\n");
    for path in ["", "/a.txt", ".", "./a.txt", "..", "../a.txt", "a\0.txt"] {
        assert!(
            matches!(stage_file(&repo, path), Err(tuicr::error::TuicrError::Git(_))),
            "stage {path:?}"
        );
        assert!(
            matches!(unstage_file(&repo, path), Err(tuicr::error::TuicrError::Git(_))),
            "unstage {path:?}"
        );
    }
    stage_file(&repo, "a.txt").unwrap();
    unstage_file(&repo, "a.txt").unwrap();
}

#[test]
fn unstage_in_index_puts_head_version_back() {
    let temp_dir = tempfile::tempdir().expect("failed to create temp dir");
    let repo = Repository::init(temp_dir.path()).expect("failed to init repo");
    write_file(&temp_dir.path().join("a.txt"), "staged\n");
    write_file(&temp_dir.path().join("b.txt"), "other\n");
    stage_file(&repo, "a.txt").unwrap();
    stage_file(&repo, "b.txt").unwrap();
    let other = repo.index().unwrap().get_path(Path::new("b.txt"), 0).unwrap();

    let mut index = repo.index().unwrap();
    let head_id = Oid::hash_object(ObjectType::Blob, b"from head\n").unwrap();
    let head = HeadFile { mode: 0o100755, id: head_id, content: b"from head\n" };
    unstage_in_index(&mut index, "a.txt", Some(head)).unwrap();
    let entry = index.get_path(Path::new("a.txt"), 0).unwrap();
    assert_eq!(entry.id, head_id);
    assert_eq!(entry.mode, 0o100755);
    let kept = index.get_path(Path::new("b.txt"), 0).unwrap();
    assert_eq!(kept.id, other.id);
    assert_eq!(kept.mode, other.mode);
    assert_eq!(index.len(), 2);

    unstage_in_index(&mut index, "a.txt", None).unwrap();
    assert!(index.get_path(Path::new("a.txt"), 0).is_none());
    assert_eq!(index.get_path(Path::new("b.txt"), 0).unwrap().id, other.id);
    assert_eq!(index.len(), 1);

    unstage_in_index(&mut index, "a.txt", None).unwrap();
    assert_eq!(index.len(), 1);
}

#[test]
fn unstage_in_index_refuses_a_directory_mode() {
    let temp_dir = tempfile::tempdir().expect("failed to create temp dir");
    let repo = Repository::init(temp_dir.path()).expect("failed to init repo");
    let mut index = repo.index().unwrap();
    let id = Oid::hash_object(ObjectType::Blob, b"x").unwrap();
    let head = HeadFile { mode: 0o040000, id, content: b"x" };
    assert!(matches!(
        unstage_in_index(&mut index, "dir", Some(head)),
        Err(tuicr::error::TuicrError::Git(_))
    ));
    assert!(matches!(
        unstage_in_index(&mut index, "/abs", None),
        Err(tuicr::error::TuicrError::Git(_))
    ));
}

#[test]
fn unstage_with_head_follows_the_lookup() {
    let temp_dir = tempfile::tempdir().expect("failed to create temp dir");
    let repo = Repository::init(temp_dir.path()).expect("failed to init repo");
    write_file(&temp_dir.path().join("a.txt"), "staged\n");
    let mut index = repo.index().unwrap();
    stage_in_index(&mut index, "a.txt").unwrap();
    let staged = index.get_path(Path::new("a.txt"), 0).unwrap();

    let id = Oid::hash_object(ObjectType::Blob, b"head\n").unwrap();
    let missing = HeadLookup { mode: 0o100644, id, blob: Err(git2::Error::from_str("no blob")) };
    let failed = unstage_with_head(&mut index, "a.txt", Some(missing));
    assert!(matches!(failed, Err(tuicr::error::TuicrError::Git(_))));
    assert_eq!(index.get_path(Path::new("a.txt"), 0).unwrap().id, staged.id);

    let found = HeadLookup { mode: 0o100644, id, blob: Ok(b"head\n") };
    unstage_with_head(&mut index, "a.txt", Some(found)).unwrap();
    let entry = index.get_path(Path::new("a.txt"), 0).unwrap();
    assert_eq!(entry.id, id);
    assert_eq!(entry.mode, 0o100644);

    unstage_with_head(&mut index, "a.txt", None).unwrap();
    assert!(index.get_path(Path::new("a.txt"), 0).is_none());
    assert_eq!(index.len(), 0);
}

#[test]
fn stage_in_index_adds_the_file() {
    let temp_dir = tempfile::tempdir().expect("failed to create temp dir");
    let repo = Repository::init(temp_dir.path()).expect("failed to init repo");
    write_file(&temp_dir.path().join("s.txt"), "staged\n");
    let mut index = repo.index().unwrap();
    stage_in_index(&mut index, "s.txt").unwrap();
    let entry = index.get_path(Path::new("s.txt"), 0).unwrap();
    assert_eq!(entry.id, Oid::hash_object(ObjectType::Blob, b"staged\n").unwrap());
    assert!(matches!(
        stage_in_index(&mut index, "../s.txt"),
        Err(tuicr::error::TuicrError::Git(_))
    ));
}
