use tuilibre::clock::Timestamp;
use tuilibre::history::{HistoryFile, LibraryEntry, LibraryHistory};
use tuilibre::ui::selector::{
    HistoryProbe, LibraryInfo, LibrarySelector, Platform, ScanCandidate, SearchRoot,
};

fn stored(path: &str, name: Option<&str>, secs: i64, books: Option<i32>) -> LibraryEntry {
    LibraryEntry {
        path: path.to_string(),
        name: name.map(|n| n.to_string()),
        last_used: Timestamp { secs, nanos: 0 },
        use_count: 1,
        book_count: books,
    }
}

fn probe(is_library: bool, file_name: Option<&str>, canonical: Option<&str>) -> HistoryProbe {
    HistoryProbe {
        is_library,
        file_name: file_name.map(|n| n.to_string()),
        canonical: canonical.map(|n| n.to_string()),
    }
}

fn dir(path: &str, marker: bool, books: Option<i32>) -> ScanCandidate {
    ScanCandidate {
        path: path.to_string(),
        is_dir: true,
        canonical: Some(path.to_string()),
        has_marker: marker,
        file_name: path.rsplit('/').next().map(|n| n.to_string()),
        book_count: books,
    }
}

fn summary(list: &[LibraryInfo]) -> Vec<(String, bool)> {
    list.iter().map(|l| (l.path.clone(), l.from_history)).collect()
}

#[test]
fn fresh_history_and_one_library_on_disk() {
    let mut selector = LibrarySelector::new(HistoryFile::Missing);
    assert!(!selector.has_libraries());
    selector.discover_libraries(&vec![], &vec![vec![dir("/lib/A", true, Some(3))]]);
    let found = selector.get_libraries();
    assert_eq!(found.len(), 1);
    assert_eq!(found[0].path, "/lib/A");
    assert_eq!(found[0].name, "A");
    assert!(!found[0].from_history);
    assert_eq!(found[0].book_count, Some(3));
    assert_eq!(found[0].last_used, None);
    assert!(selector.has_libraries());
    assert_eq!(selector.get_filtered_libraries().len(), 1);
}

#[test]
fn unreadable_history_counts_as_empty() {
    let selector = LibrarySelector::new(HistoryFile::Malformed);
    assert!(!selector.get_history().has_libraries());
}

#[test]
fn history_libraries_come_first_in_history_order() {
    let history = LibraryHistory::from_entries(vec![
        stored("/old", Some("Old"), 100, Some(5)),
        stored("/new", None, 1431648000, None),
    ]);
    let mut selector = LibrarySelector::with_history(history);
    let probes = vec![probe(true, Some("new"), Some("/new")), probe(true, Some("old"), None)];
    let scans = vec![vec![dir("/scan/X", true, Some(1))], vec![dir("/scan/Y", true, None)]];
    selector.discover_libraries(&probes, &scans);
    assert_eq!(
        summary(selector.get_libraries()),
        vec![
            ("/new".to_string(), true),
            ("/old".to_string(), true),
            ("/scan/X".to_string(), false),
            ("/scan/Y".to_string(), false),
        ]
    );
    let first = selector.get_library(0).unwrap();
    assert_eq!(first.name, "new");
    assert_eq!(first.book_count, None);
    assert_eq!(first.last_used.as_deref(), Some("2015-05-15 00:00"));
    let second = selector.get_library(1).unwrap();
    assert_eq!(second.name, "Old");
    assert_eq!(second.book_count, Some(5));
    assert_eq!(second.last_used.as_deref(), Some("1970-01-01 00:01"));
    assert_eq!(selector.get_library(3).unwrap().book_count, None);
    assert!(selector.get_library(4).is_none());
}

#[test]
fn history_library_reached_by_scan_appears_once() {
    let history = LibraryHistory::from_entries(vec![stored("/lib/A", None, 50, Some(3))]);
    let mut selector = LibrarySelector::with_history(history);
    let probes = vec![probe(true, Some("A"), Some("/lib/A"))];
    let scans = vec![
        vec![dir("/lib/A", true, Some(3)), dir("/lib/B", true, Some(1))],
        vec![ScanCandidate {
            path: "./A".to_string(),
            is_dir: true,
            canonical: Some("/lib/A".to_string()),
            has_marker: true,
            file_name: Some("A".to_string()),
            book_count: Some(3),
        }],
    ];
    selector.discover_libraries(&probes, &scans);
    assert_eq!(
        summary(selector.get_libraries()),
        vec![("/lib/A".to_string(), true), ("/lib/B".to_string(), false)]
    );
}

#[test]
fn history_entries_that_are_gone_are_left_out() {
    let history = LibraryHistory::from_entries(vec![
        stored("/gone", None, 30, None),
        stored("/here", None, 20, None),
        stored("/unprobed", None, 10, None),
    ]);
    let mut selector = LibrarySelector::with_history(history);
    let probes = vec![probe(false, Some("gone"), Some("/gone")), probe(true, None, None)];
    selector.discover_libraries(&probes, &vec![vec![dir("/gone", true, Some(2))]]);
    assert_eq!(
        summary(selector.get_libraries()),
        vec![("/here".to_string(), true), ("/gone".to_string(), false)]
    );
    assert_eq!(selector.get_library(0).unwrap().name, "Unknown");
}

#[test]
fn scan_skips_files_and_directories_without_marker() {
    let mut selector = LibrarySelector::new(HistoryFile::Missing);
    let mut file = dir("/lib/file", true, None);
    file.is_dir = false;
    let mut nameless = dir("/lib/raw", true, Some(9));
    nameless.file_name = None;
    nameless.canonical = None;
    selector.discover_libraries(
        &vec![],
        &vec![vec![file, dir("/lib/plain", false, None), nameless], vec![]],
    );
    let found = selector.get_libraries();
    assert_eq!(found.len(), 1);
    assert_eq!(found[0].path, "/lib/raw");
    assert_eq!(found[0].name, "/lib/raw");
}

#[test]
fn rediscovery_starts_over() {
    let mut selector = LibrarySelector::new(HistoryFile::Missing);
    selector.discover_libraries(&vec![], &vec![vec![dir("/a", true, None)]]);
    selector.discover_libraries(&vec![], &vec![vec![dir("/b", true, None)]]);
    assert_eq!(summary(selector.get_libraries()), vec![("/b".to_string(), false)]);
}

#[test]
fn query_filters_by_name_or_path_letter_case_aside() {
    let mut selector = LibrarySelector::new(HistoryFile::Missing);
    let mut odd = dir("/data/x1", true, None);
    odd.file_name = Some("My CALIBRE".to_string());
    selector.discover_libraries(
        &vec![],
        &vec![vec![dir("/home/u/Books", true, None), odd, dir("/srv/Comics", true, None)]],
    );
    assert_eq!(selector.get_filtered_libraries().len(), 3);
    selector.set_search_query("calibre".to_string());
    assert_eq!(selector.get_search_query(), "calibre");
    assert_eq!(summary(selector.get_filtered_libraries()), vec![("/data/x1".to_string(), false)]);
    selector.set_search_query("BOOKS".to_string());
    assert_eq!(
        summary(selector.get_filtered_libraries()),
        vec![("/home/u/Books".to_string(), false)]
    );
    selector.set_search_query("/s".to_string());
    assert_eq!(
        summary(selector.get_filtered_libraries()),
        vec![("/srv/Comics".to_string(), false)]
    );
    assert_eq!(selector.get_filtered_library(0).unwrap().name, "Comics");
    assert!(selector.get_filtered_library(1).is_none());
    selector.set_search_query("nothing".to_string());
    assert!(!selector.has_filtered_libraries());
    assert_eq!(selector.get_libraries().len(), 3);
    selector.set_search_query(String::new());
    assert_eq!(selector.get_filtered_libraries().len(), 3);
    assert!(selector.has_filtered_libraries());
}

#[test]
fn discovery_keeps_the_query() {
    let mut selector = LibrarySelector::new(HistoryFile::Missing);
    selector.set_search_query("b".to_string());
    selector.discover_libraries(&vec![], &vec![vec![dir("/a", true, None), dir("/b", true, None)]]);
    assert_eq!(selector.get_libraries().len(), 2);
    assert_eq!(summary(selector.get_filtered_libraries()), vec![("/b".to_string(), false)]);
}

#[test]
fn chosen_library_is_written_into_the_history() {
    let mut selector = LibrarySelector::new(HistoryFile::Missing);
    selector.save_to_history(
        &"/lib/A".to_string(),
        Some("/lib/A".to_string()),
        Some("A".to_string()),
        Some(3),
    );
    selector.save_to_history(&"/lib/A".to_string(), Some("/lib/A".to_string()), None, None);
    let history = selector.get_history();
    assert_eq!(history.get_libraries().len(), 1);
    let e = history.get_library(0).unwrap();
    assert_eq!(e.use_count, 2);
    assert_eq!(e.name.as_deref(), Some("A"));
    assert_eq!(e.book_count, Some(3));
}

#[test]
fn last_used_outside_the_calendar_has_no_text() {
    let history = LibraryHistory::from_entries(vec![stored("/far", None, i64::MAX, None)]);
    let mut selector = LibrarySelector::with_history(history);
    selector.discover_libraries(&vec![probe(true, Some("far"), None)], &vec![]);
    assert_eq!(selector.get_library(0).unwrap().last_used, None);
}

fn root_text(root: &SearchRoot) -> String {
    match root {
        SearchRoot::Current => ".".to_string(),
        SearchRoot::Home => "~".to_string(),
        SearchRoot::HomeChild(name) => format!("~/{}", name),
        SearchRoot::System(path) => path.clone(),
    }
}

#[test]
fn search_roots_per_platform() {
    let selector = LibrarySelector::new(HistoryFile::Missing);
    let texts = |home, platform| -> Vec<String> {
        selector.get_common_search_paths(home, platform).iter().map(root_text).collect()
    };
    assert_eq!(
        texts(true, Platform::Linux),
        vec![
            ".",
            "~",
            "~/Documents",
            "~/Calibre Libraries",
            "~/Books",
            "~/Library",
            "/home",
            "/media",
            "/mnt"
        ]
    );
    assert_eq!(texts(false, Platform::MacOs), vec![".", "/Users", "/Volumes"]);
    assert_eq!(texts(false, Platform::Windows), vec![".", "C:/", "D:/", "E:/", "F:/"]);
    assert_eq!(texts(false, Platform::Other), vec!["."]);
}

#[test]
fn a_use_stamped_now_has_a_last_used_text() {
    let mut history = LibraryHistory::new();
    history.add_library(&"/lib/A".to_string(), None, None, Some(1));
    let mut selector = LibrarySelector::with_history(history);
    selector.discover_libraries(&vec![probe(true, Some("A"), None)], &vec![]);
    let text = selector.get_library(0).unwrap().last_used.clone().unwrap();
    assert_eq!(text.chars().count(), 16);
    assert!(text.as_str() >= "2024-01-01 00:00");
}
