use std::io::Write;
use std::path::PathBuf;

use ripper::{
    collect_entry, find_files, find_files_with_options, search_steps, take_step, walk_error,
    FilenameMatcher, FoundFile, SearchError, SearchOptions, WalkEntry, WalkStep,
};
use tempfile::{tempdir, Builder, NamedTempFile, TempDir};

fn make_file(dir: &std::path::Path, prefix: &str, suffix: &str, content: &[u8]) -> NamedTempFile {
    let mut file = Builder::new()
        .prefix(prefix)
        .suffix(suffix)
        .rand_bytes(0)
        .tempfile_in(dir)
        .unwrap();
    file.write_all(content).unwrap();
    file
}

fn make_dir(dir: &std::path::Path, name: &str) -> TempDir {
    Builder::new().prefix(name).rand_bytes(0).tempdir_in(dir).unwrap()
}

#[test]
fn test_error_handling_invalid_regex() {
    let result = find_files(r"[", PathBuf::from("."));
    assert!(result.is_err());

    let error_message = result.unwrap_err().message();
    assert!(error_message.contains("Invalid regex pattern"));
}

#[test]
fn invalid_pattern_with_options_reports_pattern_error() {
    let result = find_files_with_options(r"(unclosed", PathBuf::from("."), SearchOptions { follow_links: true });
    match result {
        Err(SearchError::InvalidPattern { detail }) => assert!(!detail.is_empty()),
        _ => panic!("expected an invalid pattern error"),
    }
}

#[test]
fn test_find_files() {
    let dir = tempdir().unwrap();

    let file1 = make_file(dir.path(), "test1", ".txt", b"");
    let file2 = make_file(dir.path(), "test2", ".txt", b"");
    let file3 = make_file(dir.path(), "other", ".log", b"");

    let results = find_files(r"\.txt$", dir.path().to_path_buf()).unwrap();

    assert_eq!(results.len(), 2);
    assert!(results.iter().any(|f| f.path == file1.path()));
    assert!(results.iter().any(|f| f.path == file2.path()));
    assert!(!results.iter().any(|f| f.path == file3.path()));
}

#[test]
fn test_end_to_end_file_finding() {
    let dir = tempdir().unwrap();

    let txt_file = make_file(dir.path(), "document", ".txt", b"text content");
    let _log_file = make_file(dir.path(), "server", ".log", b"log content");
    let _cfg_file = make_file(dir.path(), "config", ".cfg", b"config content");
    let ds_store = make_file(dir.path(), ".DS_Store", "", b"DS_Store content");

    let subdir = make_dir(dir.path(), "subdir");
    let subdir_txt = make_file(subdir.path(), "nested", ".txt", b"nested content");
    let subdir_ds_store = make_file(subdir.path(), ".DS_Store", "", b"nested DS_Store");

    let txt_files = find_files(r"\.txt$", dir.path().to_path_buf()).unwrap();
    assert_eq!(txt_files.len(), 2);
    assert!(txt_files.iter().any(|file| file.path == txt_file.path()));
    assert!(txt_files.iter().any(|file| file.path == subdir_txt.path()));

    let ds_files = find_files(r"\.DS_Store$", dir.path().to_path_buf()).unwrap();
    assert_eq!(ds_files.len(), 2);
    assert!(ds_files.iter().any(|file| file.path == ds_store.path()));
    assert!(ds_files.iter().any(|file| file.path == subdir_ds_store.path()));

    let all_files_with_ext = find_files(r"\.\w+$", dir.path().to_path_buf()).unwrap();
    assert_eq!(all_files_with_ext.len(), 6);

    let hidden_files = find_files(r"^\.", dir.path().to_path_buf()).unwrap();
    assert_eq!(hidden_files.len(), 2);
}

#[test]
fn directories_are_never_found() {
    let dir = tempdir().unwrap();
    let _sub = make_dir(dir.path(), "folder.txt");
    let results = find_files(r"\.txt$", dir.path().to_path_buf()).unwrap();
    assert!(results.is_empty());
}

#[test]
fn missing_start_directory_is_a_walk_failure() {
    let dir = tempdir().unwrap();
    let missing = dir.path().join("missing");
    match find_files(r".*", missing.clone()) {
        Err(SearchError::WalkFailed { path, .. }) => assert_eq!(path, missing),
        _ => panic!("expected a walk failure"),
    }
}

#[test]
fn collect_entry_keeps_matching_files() {
    let mut found = Vec::new();
    collect_entry(
        &mut found,
        &WalkEntry { path: PathBuf::from("a/b.txt"), file_name: b"b.txt".to_vec(), is_dir: false },
        true,
    );
    assert_eq!(found, vec![FoundFile::new(PathBuf::from("a/b.txt"))]);
}

#[test]
fn collect_entry_skips_directories_and_non_matches() {
    let mut found = vec![FoundFile::new(PathBuf::from("first"))];
    collect_entry(
        &mut found,
        &WalkEntry { path: PathBuf::from("d.txt"), file_name: b"d.txt".to_vec(), is_dir: true },
        true,
    );
    collect_entry(
        &mut found,
        &WalkEntry { path: PathBuf::from("e.log"), file_name: b"e.log".to_vec(), is_dir: false },
        false,
    );
    assert_eq!(found, vec![FoundFile::new(PathBuf::from("first"))]);
}

#[test]
fn walk_error_names_failed_path_or_start() {
    let start = PathBuf::from("/start");
    match walk_error(&start, Some(PathBuf::from("/start/locked")), "denied".to_string()) {
        SearchError::WalkFailed { path, detail } => {
            assert_eq!(path, PathBuf::from("/start/locked"));
            assert_eq!(detail, "denied");
        }
        _ => panic!("expected a walk failure"),
    }
    match walk_error(&start, None, "gone".to_string()) {
        SearchError::WalkFailed { path, detail } => {
            assert_eq!(path, start);
            assert_eq!(detail, "gone");
        }
        _ => panic!("expected a walk failure"),
    }
}

#[test]
fn error_messages() {
    let walk = SearchError::WalkFailed { path: PathBuf::from("/some/dir"), detail: "x".to_string() };
    assert_eq!(walk.message(), "Failed to walk /some/dir");
    assert_eq!(walk.detail(), Some("x".to_string()));
    let pattern = SearchError::InvalidPattern { detail: "bad".to_string() };
    assert_eq!(pattern.message(), "Invalid regex pattern");
    assert_eq!(pattern.detail(), Some("bad".to_string()));
    assert_eq!(SearchError::TooManyEntries.message(), "Too many directory entries");
    assert_eq!(SearchError::TooManyEntries.detail(), None);
}

fn entry(path: &str, name: &str, is_dir: bool) -> WalkStep {
    WalkStep::Entry(WalkEntry { path: PathBuf::from(path), file_name: name.as_bytes().to_vec(), is_dir })
}

#[test]
fn search_steps_keeps_matching_files_in_walk_order() {
    let root = PathBuf::from("/d");
    let steps = vec![
        entry("/d", "d", true),
        entry("/d/test1.txt", "test1.txt", false),
        entry("/d/sub.txt", "sub.txt", true),
        entry("/d/other.log", "other.log", false),
        entry("/d/sub.txt/test2.txt", "test2.txt", false),
    ];
    let files = search_steps(r"\.txt$", &root, &steps).unwrap();
    assert_eq!(
        files,
        vec![
            FoundFile::new(PathBuf::from("/d/test1.txt")),
            FoundFile::new(PathBuf::from("/d/sub.txt/test2.txt")),
        ]
    );
}

#[test]
fn search_steps_matches_the_file_name_not_the_path() {
    let root = PathBuf::from("/.hidden");
    let steps = vec![entry("/.hidden", ".hidden", true), entry("/.hidden/a", "a", false)];
    assert!(search_steps(r"^\.", &root, &steps).unwrap().is_empty());
}

#[test]
fn search_steps_stops_at_the_first_failure() {
    let root = PathBuf::from("/d");
    let steps = vec![
        entry("/d/a.txt", "a.txt", false),
        WalkStep::Failed { path: Some(PathBuf::from("/d/locked")), detail: "denied".to_string() },
        entry("/d/b.txt", "b.txt", false),
        WalkStep::Failed { path: None, detail: "later".to_string() },
    ];
    match search_steps(r"\.txt$", &root, &steps) {
        Err(SearchError::WalkFailed { path, detail }) => {
            assert_eq!(path, PathBuf::from("/d/locked"));
            assert_eq!(detail, "denied");
        }
        _ => panic!("expected the first failure"),
    }
}

#[test]
fn search_steps_failure_without_path_names_the_root() {
    let root = PathBuf::from("/d");
    let steps = vec![WalkStep::Failed { path: None, detail: "gone".to_string() }];
    match search_steps(r".*", &root, &steps) {
        Err(error) => assert_eq!(error.message(), "Failed to walk /d"),
        Ok(_) => panic!("expected a failure"),
    }
}

#[test]
fn search_steps_rejects_invalid_pattern_first() {
    let steps = vec![WalkStep::Failed { path: None, detail: "x".to_string() }];
    assert!(matches!(
        search_steps("[", &PathBuf::from("/d"), &steps),
        Err(SearchError::InvalidPattern { .. })
    ));
}

#[test]
fn take_step_moves_the_search_on() {
    let matcher = FilenameMatcher::new(r"\.log$").unwrap();
    let root = PathBuf::from("/r");
    let kept = take_step(&matcher, &root, Vec::new(), &entry("/r/x.log", "x.log", false)).unwrap();
    assert_eq!(kept, vec![FoundFile::new(PathBuf::from("/r/x.log"))]);
    let same = take_step(&matcher, &root, kept.clone(), &entry("/r/y.txt", "y.txt", false)).unwrap();
    assert_eq!(same, kept);
    let failed = take_step(
        &matcher,
        &root,
        kept,
        &WalkStep::Failed { path: None, detail: "d".to_string() },
    );
    assert!(matches!(failed, Err(SearchError::WalkFailed { path, .. }) if path == root));
}

#[test]
fn invalid_pattern_detail_is_the_regex_error_text() {
    match find_files("(", PathBuf::from(".")) {
        Err(SearchError::InvalidPattern { detail }) => assert!(detail.contains("regex parse error")),
        _ => panic!("expected an invalid pattern error"),
    }
}
