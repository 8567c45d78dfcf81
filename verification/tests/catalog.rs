use tuilibre::database::connection::{
    authors_of, book_from_row, books_from_rows, escape_text, search_pattern, tags_of, BookRow,
    ESCAPE, SEARCH_LIMIT,
};
use tuilibre::text::{contains, pop_char, split};
use tuilibre::database::models::Book;

fn row(id: i32, authors: &str, tags: &str) -> BookRow {
    BookRow {
        id,
        title: format!("Title {}", id),
        path: format!("Path/{}", id),
        has_cover: id % 2 == 0,
        timestamp: "2021-03-04".to_string(),
        format: "PDF".to_string(),
        filename: format!("file{}", id),
        authors: authors.to_string(),
        tags: tags.to_string(),
    }
}

#[test]
fn authors_are_split_at_comma_and_space() {
    assert_eq!(authors_of("J.R.R. Tolkien"), vec!["J.R.R. Tolkien"]);
    assert_eq!(authors_of("A One, B Two, C"), vec!["A One", "B Two", "C"]);
    assert_eq!(authors_of("Last,First, Other"), vec!["Last,First", "Other"]);
    assert_eq!(authors_of("A, "), vec!["A", ""]);
    assert_eq!(authors_of(", "), vec!["", ""]);
}

#[test]
fn a_row_without_authors_gets_unknown() {
    assert_eq!(authors_of(""), vec!["Unknown"]);
}

#[test]
fn tags_are_split_and_may_be_none() {
    assert!(tags_of("").is_empty());
    assert_eq!(tags_of("fantasy, classic"), vec!["fantasy", "classic"]);
    assert_eq!(tags_of("one"), vec!["one"]);
}

#[test]
fn a_row_becomes_a_book() {
    let book = book_from_row(row(4, "A, B", ""));
    assert_eq!(book.id, 4);
    assert_eq!(book.title, "Title 4");
    assert_eq!(book.path, "Path/4");
    assert!(book.has_cover);
    assert_eq!(book.timestamp, "2021-03-04");
    assert_eq!(book.format, "PDF");
    assert_eq!(book.filename, "file4");
    assert_eq!(book.authors, vec!["A", "B"]);
    assert!(book.tags.is_empty());
}

#[test]
fn rows_become_books_in_order() {
    let books = books_from_rows(vec![row(3, "", "t"), row(1, "X", ""), row(2, "Y, Z", "a, b")]);
    assert_eq!(books.iter().map(|b| b.id).collect::<Vec<_>>(), vec![3, 1, 2]);
    assert_eq!(books[0].authors, vec!["Unknown"]);
    assert_eq!(books[2].tags, vec!["a", "b"]);
    assert!(books_from_rows(vec![]).is_empty());
}

#[test]
fn search_pattern_wraps_the_query() {
    assert_eq!(search_pattern("tolkien"), "%tolkien%");
    assert_eq!(search_pattern(""), "%%");
    assert_eq!(SEARCH_LIMIT, 100);
}

fn plain(title: &str) -> Book {
    Book {
        id: 9,
        title: title.to_string(),
        authors: vec!["A".to_string(), "B".to_string()],
        path: "p".to_string(),
        has_cover: false,
        timestamp: "t".to_string(),
    }
}

#[test]
fn plain_book_lists_its_authors() {
    assert_eq!(plain("x").author_list(), "A, B");
    let copy = plain("x").clone();
    assert_eq!(copy.id, 9);
    assert_eq!(copy.authors, vec!["A", "B"]);
}

#[test]
fn plain_book_title_is_cut_by_bytes() {
    let short = "x".repeat(50);
    assert!(plain(&short).can_display_title());
    assert_eq!(plain(&short).display_title(), short);
    let long = "y".repeat(51);
    assert!(plain(&long).can_display_title());
    assert_eq!(plain(&long).display_title(), format!("{}...", "y".repeat(47)));
    let wide = format!("{}é{}", "a".repeat(45), "b".repeat(10));
    assert!(plain(&wide).can_display_title());
    assert_eq!(plain(&wide).display_title(), format!("{}é...", "a".repeat(45)));
}

#[test]
fn plain_book_title_cut_inside_a_character_is_refused() {
    let split = format!("{}é{}", "a".repeat(46), "b".repeat(10));
    assert!(!plain(&split).can_display_title());
    let short_wide = "é".repeat(25);
    assert!(plain(&short_wide).can_display_title());
    assert_eq!(plain(&short_wide).display_title(), short_wide);
}

#[test]
fn search_pattern_takes_wildcards_literally() {
    assert_eq!(ESCAPE, '\\');
    assert_eq!(search_pattern("100%"), "%100\\%%");
    assert_eq!(search_pattern("a_b"), "%a\\_b%");
    assert_eq!(search_pattern("back\\slash"), "%back\\\\slash%");
    assert_eq!(search_pattern("%_"), "%\\%\\_%");
    assert_eq!(search_pattern("J.R.R. Tolkien"), "%J.R.R. Tolkien%");
}

#[test]
fn escaped_text_keeps_plain_text() {
    assert_eq!(escape_text(""), "");
    assert_eq!(escape_text("plain text é"), "plain text é");
    assert_eq!(escape_text("50% _off_"), "50\\% \\_off\\_");
}

#[test]
fn split_cuts_at_every_separator() {
    assert_eq!(split("a, b, c", ", "), vec!["a", "b", "c"]);
    assert_eq!(split("", ", "), vec![""]);
    assert_eq!(split("x", ", "), vec!["x"]);
    assert_eq!(split(",", ", "), vec![","]);
    assert_eq!(split("aaa", "aa"), vec!["", "a"]);
    assert_eq!(split("é, ü", ", "), vec!["é", "ü"]);
}

#[test]
fn split_at_the_empty_separator_leaves_one_part() {
    assert_eq!(split("abc", ""), vec!["abc"]);
    assert_eq!(split("", ""), vec![""]);
}

#[test]
fn contains_finds_runs_of_characters() {
    assert!(contains("calibre library", "bre lib"));
    assert!(contains("abc", ""));
    assert!(contains("", ""));
    assert!(contains("abc", "abc"));
    assert!(contains("xxabc", "abc"));
    assert!(!contains("abc", "abcd"));
    assert!(!contains("abc", "ac"));
    assert!(!contains("", "a"));
}

#[test]
fn pop_char_takes_the_last_character() {
    let mut text = "aé".to_string();
    assert_eq!(pop_char(&mut text), Some('é'));
    assert_eq!(text, "a");
    assert_eq!(pop_char(&mut text), Some('a'));
    assert_eq!(text, "");
    assert_eq!(pop_char(&mut text), None);
    assert_eq!(text, "");
}
