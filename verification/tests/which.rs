use svgwatch::which::{
    find_in_dir, find_in_path, which, DirScan, Listed, PathScan, WhichError, WhichStep,
};

fn file(path: &str) -> Listed {
    Listed::Entry { path: path.to_string(), is_file: true }
}

fn other(path: &str) -> Listed {
    Listed::Entry { path: path.to_string(), is_file: false }
}

fn found(path: &str) -> WhichStep {
    WhichStep::Done(Ok(Some(path.to_string())))
}

#[test]
fn literal_file_wins_without_a_scan() {
    assert_eq!(which("./tools/inkscape", true, None), found("./tools/inkscape"));
}

#[test]
fn literal_file_wins_over_any_scan() {
    let empty = PathScan::Scanned(vec![]);
    assert_eq!(which("ink", true, Some(&empty)), found("ink"));
    let elsewhere = PathScan::Scanned(vec![DirScan::Entries(vec![file("/bin/ink")])]);
    assert_eq!(which("ink", true, Some(&elsewhere)), found("ink"));
    let broken = PathScan::Unavailable("not set".to_string());
    assert_eq!(which("ink", true, Some(&broken)), found("ink"));
}

#[test]
fn search_path_is_asked_for_when_the_name_is_no_file() {
    assert_eq!(which("inkscape", false, None), WhichStep::ScanPath);
}

#[test]
fn missing_search_path_is_an_environment_failure() {
    let scan = PathScan::Unavailable("environment variable not found".to_string());
    assert_eq!(
        which("inkscape", false, Some(&scan)),
        WhichStep::Done(Err(WhichError::VarError("environment variable not found".to_string())))
    );
}

#[test]
fn first_directory_with_a_match_wins() {
    let scan = PathScan::Scanned(vec![
        DirScan::Entries(vec![file("/a/other")]),
        DirScan::Entries(vec![file("/b/inkscape")]),
        DirScan::Entries(vec![file("/c/inkscape")]),
    ]);
    assert_eq!(which("inkscape", false, Some(&scan)), found("/b/inkscape"));
}

#[test]
fn first_entry_with_a_match_wins() {
    let entries = vec![file("/a/x"), file("/a/sub/../inkscape"), file("/a/inkscape")];
    assert_eq!(find_in_dir(&entries, "inkscape"), Some("/a/sub/../inkscape".to_string()));
}

#[test]
fn name_must_match_exactly() {
    let entries = vec![file("/a/inkscape.exe"), file("/a/Inkscape"), file("/a/inkscape-1.2")];
    assert_eq!(find_in_dir(&entries, "inkscape"), None);
}

#[test]
fn only_regular_files_match() {
    let entries = vec![other("/a/inkscape"), file("/b/inkscape")];
    assert_eq!(find_in_dir(&entries, "inkscape"), Some("/b/inkscape".to_string()));
}

#[test]
fn unreadable_entry_is_passed_over() {
    let entries = vec![Listed::Failed, file("/a/inkscape")];
    assert_eq!(find_in_dir(&entries, "inkscape"), Some("/a/inkscape".to_string()));
}

#[test]
fn unreadable_directory_is_passed_over() {
    let dirs = vec![DirScan::Unreadable, DirScan::Entries(vec![file("/b/inkscape")])];
    assert_eq!(find_in_path(&dirs, "inkscape"), Some("/b/inkscape".to_string()));
}

#[test]
fn nothing_found_is_no_failure() {
    let scan = PathScan::Scanned(vec![
        DirScan::Unreadable,
        DirScan::Entries(vec![]),
        DirScan::Entries(vec![file("/b/gimp"), Listed::Failed]),
    ]);
    assert_eq!(which("inkscape", false, Some(&scan)), WhichStep::Done(Ok(None)));
}

#[test]
fn empty_search_path_finds_nothing() {
    let scan = PathScan::Scanned(vec![]);
    assert_eq!(which("inkscape", false, Some(&scan)), WhichStep::Done(Ok(None)));
}
