use tuilibre::clock::Timestamp;
use tuilibre::history::{
    save_library_to_history, HistoryError, HistoryFile, LibraryEntry, LibraryHistory, MAX_ENTRIES,
};

fn at(secs: i64) -> Timestamp {
    Timestamp { secs, nanos: 0 }
}

fn entry(path: &str, secs: i64, use_count: u32) -> LibraryEntry {
    LibraryEntry {
        path: path.to_string(),
        name: None,
        last_used: at(secs),
        use_count,
        book_count: None,
    }
}

fn paths(history: &LibraryHistory) -> Vec<String> {
    history.get_libraries().iter().map(|e| e.path.clone()).collect()
}

fn is_well_formed(history: &LibraryHistory) -> bool {
    let list = history.get_libraries();
    let ranked = list.windows(2).all(|w| {
        let (a, b) = (&w[0], &w[1]);
        let (ka, kb) = (
            (a.last_used.secs, a.last_used.nanos, a.use_count),
            (b.last_used.secs, b.last_used.nanos, b.use_count),
        );
        ka >= kb
    });
    let mut seen = std::collections::HashSet::new();
    let distinct = list.iter().all(|e| seen.insert(e.path.clone()));
    ranked && distinct && list.len() <= MAX_ENTRIES
}

#[test]
fn new_history_is_empty() {
    let history = LibraryHistory::new();
    assert!(!history.has_libraries());
    assert!(history.get_libraries().is_empty());
    assert!(history.get_library(0).is_none());
}

#[test]
fn load_missing_file_gives_empty_history() {
    let history = LibraryHistory::load(HistoryFile::Missing).unwrap();
    assert!(!history.has_libraries());
}

#[test]
fn load_malformed_file_is_a_parse_error() {
    let result = LibraryHistory::load(HistoryFile::Malformed);
    assert_eq!(result.err(), Some(HistoryError::Parse));
    assert_eq!(HistoryError::Parse.message(), "Failed to parse history file");
}

#[test]
fn load_cleans_the_stored_entries() {
    let stored = vec![
        entry("/a", 10, 1),
        entry("/b", 30, 1),
        entry("/a", 99, 5),
        entry("/c", 30, 4),
        entry("/d", 20, 1),
    ];
    let history = LibraryHistory::load(HistoryFile::Parsed(stored)).unwrap();
    assert_eq!(paths(&history), vec!["/c", "/b", "/d", "/a"]);
    assert_eq!(history.get_library(3).unwrap().use_count, 1);
    assert_eq!(history.get_library(3).unwrap().last_used, at(10));
    assert!(is_well_formed(&history));
}

#[test]
fn clean_keeps_equals_in_their_order() {
    let stored = vec![entry("/x", 5, 2), entry("/y", 5, 2), entry("/z", 5, 2), entry("/w", 6, 0)];
    let history = LibraryHistory::from_entries(stored).clean();
    assert_eq!(paths(&history), vec!["/w", "/x", "/y", "/z"]);
}

#[test]
fn clean_orders_by_nanoseconds_within_a_second() {
    let mut early = entry("/early", 7, 9);
    early.last_used = Timestamp { secs: 7, nanos: 1 };
    let mut late = entry("/late", 7, 1);
    late.last_used = Timestamp { secs: 7, nanos: 2 };
    let history = LibraryHistory::from_entries(vec![early, late]);
    assert_eq!(paths(&history), vec!["/late", "/early"]);
}

#[test]
fn clean_truncates_to_twenty() {
    let stored: Vec<LibraryEntry> =
        (0..25).map(|i| entry(&format!("/lib/{}", i), i as i64, 1)).collect();
    let history = LibraryHistory::from_entries(stored);
    assert_eq!(history.get_libraries().len(), 20);
    assert_eq!(history.get_library(0).unwrap().path, "/lib/24");
    assert_eq!(history.get_library(19).unwrap().path, "/lib/5");
    assert!(is_well_formed(&history));
}

#[test]
fn first_use_makes_an_entry_with_count_one() {
    let mut history = LibraryHistory::new();
    history.add_library_at(
        &"/lib/A".to_string(),
        None,
        Some("A".to_string()),
        Some(3),
        at(100),
    );
    let list = history.get_libraries();
    assert_eq!(list.len(), 1);
    assert_eq!(list[0].path, "/lib/A");
    assert_eq!(list[0].name.as_deref(), Some("A"));
    assert_eq!(list[0].use_count, 1);
    assert_eq!(list[0].book_count, Some(3));
    assert_eq!(list[0].last_used, at(100));
}

#[test]
fn same_path_twice_gives_one_entry_used_twice() {
    let mut history = LibraryHistory::new();
    let path = "/lib/A".to_string();
    history.add_library_at(&path, Some("/real/A".to_string()), None, None, at(100));
    history.add_library_at(&path, Some("/real/A".to_string()), None, None, at(200));
    let list = history.get_libraries();
    assert_eq!(list.len(), 1);
    assert_eq!(list[0].path, "/real/A");
    assert_eq!(list[0].use_count, 2);
    assert_eq!(list[0].last_used, at(200));
}

#[test]
fn known_path_twice_counts_two_more() {
    let mut history = LibraryHistory::from_entries(vec![entry("/a", 50, 7), entry("/b", 40, 1)]);
    history.add_library_at(&"/b".to_string(), None, None, None, at(60));
    history.add_library_at(&"/b".to_string(), None, None, None, at(70));
    assert_eq!(paths(&history), vec!["/b", "/a"]);
    assert_eq!(history.get_library(0).unwrap().use_count, 3);
    assert_eq!(history.get_library(1).unwrap().use_count, 7);
}

#[test]
fn canonical_path_is_the_key_and_literal_the_fallback() {
    let mut history = LibraryHistory::new();
    history.add_library_at(&"./a".to_string(), Some("/home/u/a".to_string()), None, None, at(1));
    history.add_library_at(&"/home/u/a".to_string(), None, None, None, at(2));
    history.add_library_at(&"./broken".to_string(), None, None, None, at(3));
    assert_eq!(paths(&history), vec!["./broken", "/home/u/a"]);
    assert_eq!(history.get_library(1).unwrap().use_count, 2);
}

#[test]
fn update_keeps_name_and_count_unless_given() {
    let mut history = LibraryHistory::new();
    let path = "/a".to_string();
    history.add_library_at(&path, None, Some("First".to_string()), Some(10), at(1));
    history.add_library_at(&path, None, None, None, at(2));
    assert_eq!(history.get_library(0).unwrap().name.as_deref(), Some("First"));
    assert_eq!(history.get_library(0).unwrap().book_count, Some(10));
    history.add_library_at(&path, None, Some("Second".to_string()), None, at(3));
    assert_eq!(history.get_library(0).unwrap().name.as_deref(), Some("Second"));
    assert_eq!(history.get_library(0).unwrap().book_count, Some(10));
    history.add_library_at(&path, None, None, Some(12), at(4));
    assert_eq!(history.get_library(0).unwrap().name.as_deref(), Some("Second"));
    assert_eq!(history.get_library(0).unwrap().book_count, Some(12));
    assert_eq!(history.get_library(0).unwrap().use_count, 4);
}

#[test]
fn most_recently_used_comes_first() {
    let mut history = LibraryHistory::new();
    for (i, p) in ["/a", "/b", "/c"].iter().enumerate() {
        history.add_library_at(&p.to_string(), None, None, None, at(10 + i as i64));
    }
    assert_eq!(paths(&history), vec!["/c", "/b", "/a"]);
    history.add_library_at(&"/a".to_string(), None, None, None, at(20));
    assert_eq!(paths(&history), vec!["/a", "/c", "/b"]);
}

#[test]
fn equal_instants_are_ordered_by_use_count() {
    let mut history = LibraryHistory::from_entries(vec![entry("/a", 9, 1), entry("/b", 9, 1)]);
    assert_eq!(paths(&history), vec!["/a", "/b"]);
    history.add_library_at(&"/b".to_string(), None, None, None, at(9));
    assert_eq!(paths(&history), vec!["/b", "/a"]);
    assert_eq!(history.get_library(0).unwrap().use_count, 2);
}

#[test]
fn many_uses_keep_the_history_well_formed() {
    let mut history = LibraryHistory::new();
    for i in 0..60u32 {
        let path = format!("/lib/{}", (i * 7) % 27);
        history.add_library_at(&path, None, None, Some(i as i32), at(((i * 13) % 17) as i64));
        assert!(is_well_formed(&history));
    }
    assert_eq!(history.get_libraries().len(), 20);
}

#[test]
fn full_history_drops_a_new_entry_that_ranks_last() {
    let stored: Vec<LibraryEntry> =
        (0..20).map(|i| entry(&format!("/lib/{}", i), 100 + i as i64, 1)).collect();
    let mut history = LibraryHistory::from_entries(stored);
    history.add_library_at(&"/old".to_string(), None, None, None, at(1));
    assert_eq!(history.get_libraries().len(), 20);
    assert!(!paths(&history).contains(&"/old".to_string()));
    history.add_library_at(&"/new".to_string(), None, None, None, at(500));
    assert_eq!(history.get_library(0).unwrap().path, "/new");
    assert!(!paths(&history).contains(&"/lib/0".to_string()));
}

#[test]
fn add_library_stamps_the_current_time() {
    let mut history = LibraryHistory::new();
    history.add_library(&"/a".to_string(), None, None, None);
    history.add_library(&"/a".to_string(), None, None, None);
    let list = history.get_libraries();
    assert_eq!(list.len(), 1);
    assert_eq!(list[0].use_count, 2);
    assert!(list[0].last_used.secs > 1_600_000_000);
    assert!(list[0].last_used.nanos < 2_000_000_000);
}

#[test]
fn remove_library_takes_out_the_entry_at_the_index() {
    let mut history =
        LibraryHistory::from_entries(vec![entry("/a", 3, 1), entry("/b", 2, 1), entry("/c", 1, 1)]);
    assert!(history.remove_library(1));
    assert_eq!(paths(&history), vec!["/a", "/c"]);
    assert!(!history.remove_library(2));
    assert_eq!(paths(&history), vec!["/a", "/c"]);
    assert!(history.remove_library(0));
    assert!(history.remove_library(0));
    assert!(!history.has_libraries());
    assert!(!history.remove_library(0));
}

#[test]
fn clone_of_a_history_holds_the_same_entries() {
    let history = LibraryHistory::from_entries(vec![entry("/a", 3, 1), entry("/b", 2, 4)]);
    let copy = history.clone();
    assert_eq!(paths(&copy), vec!["/a", "/b"]);
    assert_eq!(copy.get_library(1).unwrap().use_count, 4);
}

#[test]
fn opened_library_is_saved_with_its_book_count() {
    let mut history = LibraryHistory::new();
    save_library_to_history(
        &mut history,
        &"/lib/A".to_string(),
        Some("/lib/A".to_string()),
        Some("A".to_string()),
        3,
    );
    let e = history.get_library(0).unwrap();
    assert_eq!(e.path, "/lib/A");
    assert_eq!(e.name.as_deref(), Some("A"));
    assert_eq!(e.book_count, Some(3));
    assert_eq!(e.use_count, 1);
}

#[test]
fn timestamps_compare_by_seconds_then_nanoseconds() {
    let a = Timestamp { secs: 5, nanos: 10 };
    let b = Timestamp { secs: 5, nanos: 11 };
    let c = Timestamp { secs: 6, nanos: 0 };
    assert!(b.is_later_than(&a));
    assert!(!a.is_later_than(&b));
    assert!(c.is_later_than(&b));
    assert!(!a.is_later_than(&a));
}
