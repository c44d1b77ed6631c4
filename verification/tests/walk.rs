use std::io::Write;
use std::path::PathBuf;

use ripper::{find_files, find_files_with_options, DirWalk, SearchError, SearchOptions, WalkStep};
use rustix::fs::{open, symlink, Mode, OFlags};
use tempfile::{tempdir, Builder};

fn make_file(dir: &std::path::Path, name: &str, content: &[u8]) -> tempfile::NamedTempFile {
    let mut file = Builder::new().prefix(name).rand_bytes(0).tempfile_in(dir).unwrap();
    file.write_all(content).unwrap();
    file
}

#[test]
fn test_find_files_does_not_follow_symlinked_directories_by_default() {
    let dir = tempdir().unwrap();
    let external_dir = tempdir().unwrap();
    let external_file = make_file(external_dir.path(), "external.txt", b"external");

    let linked_dir = dir.path().join("linked");
    symlink(external_dir.path(), &linked_dir).unwrap();

    let results = find_files(r"\.txt$", dir.path().to_path_buf()).unwrap();

    assert!(!results.iter().any(|file| file.path == external_file.path()));
}

#[test]
fn test_find_files_can_follow_symlinked_directories_when_enabled() {
    let dir = tempdir().unwrap();
    let external_dir = tempdir().unwrap();
    let _external_file = make_file(external_dir.path(), "external.txt", b"external");

    let linked_dir = dir.path().join("linked");
    symlink(external_dir.path(), &linked_dir).unwrap();
    let linked_file = linked_dir.join("external.txt");

    let results = find_files_with_options(
        r"\.txt$",
        dir.path().to_path_buf(),
        SearchOptions { follow_links: true },
    )
    .unwrap();

    assert!(results.iter().any(|file| file.path == linked_file));
}

#[test]
fn test_following_broken_symlink_returns_error() {
    let dir = tempdir().unwrap();
    let missing_target = dir.path().join("missing");
    let broken_link = dir.path().join("broken");
    symlink(&missing_target, &broken_link).unwrap();

    let result =
        find_files_with_options(r".*", dir.path().to_path_buf(), SearchOptions { follow_links: true });

    assert!(result.is_err());
}

#[test]
fn test_find_files_matches_non_utf8_filenames() {
    let dir = tempdir().unwrap();
    let file_name: Vec<u8> = vec![b'f', b'o', 0x80, b'.', b't', b'x', b't'];
    let mut file_path: Vec<u8> = dir.path().as_os_str().as_encoded_bytes().to_vec();
    file_path.push(b'/');
    file_path.extend_from_slice(&file_name);
    let created = open(
        file_path.as_slice(),
        OFlags::CREATE | OFlags::WRONLY,
        Mode::RUSR | Mode::WUSR,
    );
    assert!(created.is_ok());
    drop(created);

    let results = find_files(r"\.txt$", dir.path().to_path_buf()).unwrap();

    assert!(results.iter().any(|file| file.path.as_os_str().as_encoded_bytes() == file_path.as_slice()));
}

#[test]
fn broken_symlink_is_a_plain_entry_when_links_are_not_followed() {
    let dir = tempdir().unwrap();
    symlink(dir.path().join("missing"), dir.path().join("broken.txt")).unwrap();
    let results = find_files(r"\.txt$", dir.path().to_path_buf()).unwrap();
    assert_eq!(results.len(), 1);
    assert_eq!(results[0].path, dir.path().join("broken.txt"));
}

#[test]
fn missing_start_is_reported_with_its_path() {
    let dir = tempdir().unwrap();
    let missing = dir.path().join("nonexistent");
    match find_files_with_options(".*", missing.clone(), SearchOptions::default()) {
        Err(error) => {
            assert!(matches!(error, SearchError::WalkFailed { .. }));
            assert_eq!(error.message(), format!("Failed to walk {}", missing.display()));
        }
        Ok(_) => panic!("expected a walk failure"),
    }
}

#[test]
fn a_file_as_start_is_its_own_only_candidate() {
    let dir = tempdir().unwrap();
    let file = make_file(dir.path(), "only.txt", b"x");
    let results = find_files(r"\.txt$", file.path().to_path_buf()).unwrap();
    assert_eq!(results.len(), 1);
    assert_eq!(results[0].path, file.path());
}

#[test]
fn dir_walk_reports_root_then_entries_then_end() {
    let dir = tempdir().unwrap();
    let _file = make_file(dir.path(), "a.txt", b"x");
    let mut walk = DirWalk::start(dir.path().to_path_buf(), false);
    assert_eq!(walk.root_dir(), &dir.path().to_path_buf());

    let mut entries = Vec::new();
    while let Some(step) = walk.next_step() {
        match step {
            WalkStep::Entry(entry) => entries.push(entry),
            WalkStep::Failed { .. } => panic!("unexpected failure"),
        }
    }
    assert_eq!(entries.len(), 2);
    assert_eq!(entries[0].path, dir.path());
    assert!(entries[0].is_dir);
    assert_eq!(entries[1].path, PathBuf::from(dir.path().join("a.txt")));
    assert_eq!(entries[1].file_name, b"a.txt".to_vec());
    assert!(!entries[1].is_dir);
    assert!(walk.next_step().is_none());
}

#[test]
fn dir_walk_reports_missing_root_as_failure() {
    let dir = tempdir().unwrap();
    let missing = dir.path().join("nothing");
    let mut walk = DirWalk::start(missing.clone(), true);
    match walk.next_step() {
        Some(WalkStep::Failed { path, detail }) => {
            assert_eq!(path, Some(missing));
            assert!(!detail.is_empty());
        }
        _ => panic!("expected a failure"),
    }
}

#[test]
fn pattern_is_tried_on_the_file_name_not_the_directory() {
    let dir = Builder::new().prefix(".hiddenroot").tempdir().unwrap();
    let _visible = make_file(dir.path(), "visible.txt", b"x");
    let hidden = make_file(dir.path(), ".hidden", b"x");
    let results = find_files(r"^\.", dir.path().to_path_buf()).unwrap();
    assert_eq!(results.len(), 1);
    assert_eq!(results[0].path, hidden.path());
}

#[test]
fn first_step_is_the_root_entry() {
    let dir = tempdir().unwrap();
    let file = make_file(dir.path(), "root.txt", b"x");
    let mut walk = DirWalk::start(file.path().to_path_buf(), false);
    match walk.next_step() {
        Some(WalkStep::Entry(entry)) => {
            assert_eq!(entry.path, file.path());
            assert_eq!(entry.file_name, b"root.txt".to_vec());
            assert!(!entry.is_dir);
        }
        _ => panic!("expected the root entry"),
    }
    assert!(walk.next_step().is_none());
}
