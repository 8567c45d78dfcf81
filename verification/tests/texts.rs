use tuilibre::app::{library_argument, App, AppMode, Book, Fatal};
use tuilibre::text::{count_string, decimal_string, join_strings, signed_string};
use tuilibre::ui::components::UIComponents;
use tuilibre::ui::events::{Event, EventHandler, KeyCode, KeyEvent};
use tuilibre::ui::opener::OpenCommand;
use tuilibre::ui::selection::Content;
use tuilibre::ui::selector::{LibraryInfo, Platform};
use tuilibre::ui::UI;
use tuilibre::utils::events::EventUtils;

fn sample(title: &str, authors: &[&str], tags: &[&str]) -> Book {
    Book {
        id: 1,
        title: title.to_string(),
        authors: authors.iter().map(|a| a.to_string()).collect(),
        path: "Author/Title (1)".to_string(),
        has_cover: true,
        timestamp: "2020-02-02".to_string(),
        format: "EPUB".to_string(),
        filename: "Title - Author".to_string(),
        tags: tags.iter().map(|a| a.to_string()).collect(),
    }
}

fn app_with(books: Vec<Book>) -> App {
    let mut app = App::new("/lib".to_string());
    app.open_library("/lib".to_string(), books);
    app
}

#[test]
fn author_and_tag_lists_are_joined_by_comma_and_space() {
    let book = sample("T", &["A. One", "B. Two", "C. Three"], &["x", "y"]);
    assert_eq!(book.author_list(), "A. One, B. Two, C. Three");
    assert_eq!(book.tag_list(), "x, y");
    assert_eq!(sample("T", &["Solo"], &[]).author_list(), "Solo");
    assert_eq!(sample("T", &[], &[]).author_list(), "");
    assert_eq!(sample("T", &[], &[]).tag_list(), "");
    assert_eq!(join_strings(&vec!["a".to_string(), "".to_string()], "-"), "a-");
}

#[test]
fn display_title_cuts_after_fifty_characters() {
    let fifty = "x".repeat(50);
    assert_eq!(sample(&fifty, &[], &[]).display_title(), fifty);
    let longer = format!("{}{}", "a".repeat(47), "bcde");
    assert_eq!(sample(&longer, &[], &[]).display_title(), format!("{}...", "a".repeat(47)));
    let wide = "é".repeat(51);
    assert_eq!(sample(&wide, &[], &[]).display_title(), format!("{}...", "é".repeat(47)));
    assert_eq!(sample("", &[], &[]).display_title(), "");
}

#[test]
fn clone_of_a_book_holds_the_same_values() {
    let book = sample("T", &["A", "B"], &["x"]);
    let copy = book.clone();
    assert_eq!(copy.id, 1);
    assert_eq!(copy.title, "T");
    assert_eq!(copy.authors, vec!["A", "B"]);
    assert_eq!(copy.tags, vec!["x"]);
    assert_eq!(copy.path, book.path);
    assert_eq!(copy.filename, book.filename);
    assert_eq!(copy.format, "EPUB");
    assert!(copy.has_cover);
}

#[test]
fn numbers_in_decimal() {
    assert_eq!(decimal_string(0), "0");
    assert_eq!(decimal_string(7), "7");
    assert_eq!(decimal_string(10), "10");
    assert_eq!(decimal_string(1234567890), "1234567890");
    assert_eq!(decimal_string(u64::MAX), "18446744073709551615");
    assert_eq!(count_string(305), "305");
    assert_eq!(signed_string(0), "0");
    assert_eq!(signed_string(42), "42");
    assert_eq!(signed_string(-42), "-42");
    assert_eq!(signed_string(i32::MIN), "-2147483648");
    assert_eq!(signed_string(i32::MAX), "2147483647");
}

#[test]
fn title_bar_shows_count_or_query() {
    let components = UIComponents::new();
    let mut app = app_with(vec![sample("A", &["x"], &[]), sample("B", &["y"], &[])]);
    assert_eq!(components.render_title_bar(&app), "tuilibre - 2 books");
    app.mode = AppMode::Search;
    app.search_query = "tol".to_string();
    assert_eq!(components.render_title_bar(&app), "Search: tol");
    app.mode = AppMode::DetailsFromSearch;
    assert_eq!(components.render_title_bar(&app), "tuilibre - 2 books");
}

#[test]
fn book_list_lines() {
    let components = UIComponents::new();
    let mut long_path = sample("Dune", &["Frank Herbert"], &[]);
    long_path.path = "0123456789012345678901234567890".to_string();
    let app = app_with(vec![sample("Emma", &["Jane Austen", "Somebody"], &[]), long_path]);
    let lines = components.render_book_list(&app);
    assert_eq!(
        lines,
        vec![
            "Emma - Jane Austen, Somebody [Author/Title (1)]",
            "Dune - Frank Herbert [...456789012345678901234567890]",
        ]
    );
    assert_eq!(components.render_path("012345678901234567890123456789"), "012345678901234567890123456789");
}

#[test]
fn book_details_lines() {
    let components = UIComponents::new();
    let mut plain = sample("Plain", &["P"], &[]);
    plain.has_cover = false;
    let mut app = app_with(vec![sample("Emma", &["Jane Austen"], &["classic", "novel"]), plain]);
    let pairs = |app: &App| -> Vec<(String, String)> {
        components
            .render_book_details(app)
            .into_iter()
            .map(|d| (d.label, d.value))
            .collect()
    };
    let own = |v: Vec<(&str, &str)>| -> Vec<(String, String)> {
        v.into_iter().map(|(a, b)| (a.to_string(), b.to_string())).collect()
    };
    assert_eq!(
        pairs(&app),
        own(vec![
            ("Title: ", "Emma"),
            ("Authors: ", "Jane Austen"),
            ("Tags: ", "classic, novel"),
            ("Path: ", "Author/Title (1)"),
            ("Cover: ", "Yes"),
            ("Added: ", "2020-02-02"),
        ])
    );
    app.select_next();
    assert_eq!(
        pairs(&app),
        own(vec![
            ("Title: ", "Plain"),
            ("Authors: ", "P"),
            ("Path: ", "Author/Title (1)"),
            ("Cover: ", "No"),
            ("Added: ", "2020-02-02"),
        ])
    );
    assert!(pairs(&App::new("/lib".to_string())).is_empty());
}

#[test]
fn status_bar_per_mode() {
    let components = UIComponents::new();
    let mut app = App::new("/lib".to_string());
    let expected = [
        (AppMode::Normal, "↑↓ Navigate | Enter Details | / Search | ESC Library | q Quit"),
        (AppMode::Search, "ESC Back | Enter Select | q Quit"),
        (AppMode::Details, "ESC Back | Enter Open | q Quit"),
        (AppMode::DetailsFromSearch, "ESC Back to Search | Enter Open | q Quit"),
        (AppMode::LibrarySelection, "↑↓ Select | Enter Open | q Quit"),
    ];
    for (mode, text) in expected {
        app.mode = mode;
        assert_eq!(components.render_status_bar(&app), text);
    }
}

#[test]
fn library_lines() {
    let components = UIComponents::new();
    let known = LibraryInfo {
        path: "/lib/A".to_string(),
        name: "A".to_string(),
        book_count: Some(12),
        from_history: true,
        last_used: Some("2024-05-01 10:30".to_string()),
    };
    assert_eq!(
        components.render_library_line(&known),
        "⭐ A - /lib/A (12 本书) [上次使用: 2024-05-01 10:30]"
    );
    let found = LibraryInfo {
        path: "/lib/B".to_string(),
        name: "B".to_string(),
        book_count: None,
        from_history: false,
        last_used: None,
    };
    assert_eq!(components.render_library_line(&found), "B - /lib/B (0 本书)");
    let copy = found.clone();
    assert_eq!(copy.path, "/lib/B");
    assert_eq!(copy.book_count, None);
}

#[test]
fn no_libraries_message() {
    let lines = UIComponents::new().render_no_libraries();
    assert_eq!(lines.len(), 10);
    assert_eq!(lines[0], "❌ 未在任何常见位置找到 calibre 图书馆");
    assert_eq!(lines[1], "");
    assert_eq!(lines[3], "   tuilibre /path/to/your/calibre/library");
    assert_eq!(lines[9], "   当前目录");
}

#[test]
fn main_screen_follows_the_mode() {
    let ui = UI::new();
    let mut app = app_with(vec![sample("Emma", &["Jane Austen"], &[])]);
    let screen = ui.render(&app);
    assert_eq!(screen.title, "tuilibre - 1 books");
    assert!(matches!(screen.content, Content::BookList(ref lines) if lines.len() == 1));
    app.mode = AppMode::Details;
    assert!(matches!(ui.render(&app).content, Content::BookDetails(ref lines) if lines.len() == 5));
    app.mode = AppMode::LibrarySelection;
    assert!(matches!(ui.render(&app).content, Content::NoLibraries(_)));
    assert_eq!(ui.render(&app).status, "↑↓ Select | Enter Open | q Quit");
}

#[test]
fn book_file_location() {
    let ui = UI::new();
    let book = sample("Emma", &["Jane Austen"], &[]);
    let file = ui.open_book_file(&book).unwrap();
    assert_eq!(file.folder, "Author/Title (1)");
    assert_eq!(file.file_name, "Title - Author.epub");
    let mut no_name = sample("Emma", &[], &[]);
    no_name.filename = String::new();
    assert!(ui.open_book_file(&no_name).is_none());
    let mut no_format = sample("Emma", &[], &[]);
    no_format.format = String::new();
    assert!(ui.open_book_file(&no_format).is_none());
}

#[test]
fn open_commands_per_platform() {
    let parts = |c: Option<OpenCommand>| c.map(|c| (c.program, c.arguments));
    assert_eq!(
        parts(UI::open_command(Platform::Linux, "/l/b.epub")),
        Some(("xdg-open".to_string(), vec!["/l/b.epub".to_string()]))
    );
    assert_eq!(
        parts(UI::open_command(Platform::MacOs, "/l/b.epub")),
        Some(("open".to_string(), vec!["/l/b.epub".to_string()]))
    );
    assert_eq!(
        parts(UI::open_command(Platform::Windows, "C:/l/b.epub")),
        Some(("cmd".to_string(), vec!["/c start \"\" \"C:/l/b.epub\"".to_string()]))
    );
    assert_eq!(parts(UI::open_command(Platform::Other, "/l/b.epub")), None);
}

#[test]
fn key_groups() {
    let k = |code| KeyEvent { code, control: false };
    assert!(EventHandler::should_handle_key(k(KeyCode::Tab)));
    assert!(EventHandler::should_handle_key(k(KeyCode::Char('x'))));
    assert!(!EventHandler::should_handle_key(k(KeyCode::F(1))));
    assert!(!EventHandler::should_handle_key(k(KeyCode::Delete)));
    assert!(EventHandler::is_navigation_key(&k(KeyCode::Left)));
    assert!(!EventHandler::is_navigation_key(&k(KeyCode::Enter)));
    assert!(EventHandler::is_action_key(&k(KeyCode::Enter)));
    assert!(EventHandler::is_action_key(&k(KeyCode::Char(' '))));
    assert!(EventHandler::is_action_key(&k(KeyCode::Char('\r'))));
    assert!(!EventHandler::is_action_key(&k(KeyCode::Char('a'))));
    assert!(EventHandler::is_quit_key(&k(KeyCode::Char('q'))));
    assert!(EventHandler::is_quit_key(&k(KeyCode::Char('Q'))));
    assert!(!EventHandler::is_quit_key(&k(KeyCode::Esc)));
    assert!(EventHandler::is_search_trigger(&k(KeyCode::Char('/'))));
    assert!(!EventHandler::is_search_trigger(&k(KeyCode::Char('?'))));
    assert!(EventHandler::is_back_key(&k(KeyCode::Esc)));
    assert!(EventHandler::is_back_key(&k(KeyCode::Char('h'))));
    assert!(EventHandler::is_back_key(&k(KeyCode::Left)));
    assert!(!EventHandler::is_back_key(&k(KeyCode::Right)));
    assert_eq!(EventHandler::get_char(k(KeyCode::Char('z'))), Some('z'));
    assert_eq!(EventHandler::get_char(k(KeyCode::Enter)), None);
}

#[test]
fn key_names() {
    let k = |code| KeyEvent { code, control: false };
    assert_eq!(EventUtils::key_to_string(&k(KeyCode::Char('a'))), "Char('a')");
    assert_eq!(EventUtils::key_to_string(&k(KeyCode::Esc)), "Escape");
    assert_eq!(EventUtils::key_to_string(&k(KeyCode::F(12))), "F12");
    assert_eq!(EventUtils::key_to_string(&k(KeyCode::F(0))), "F0");
    assert_eq!(EventUtils::key_to_string(&k(KeyCode::BackTab)), "BackTab");
    assert_eq!(EventUtils::key_to_string(&k(KeyCode::KeypadBegin)), "KeypadBegin");
    assert_eq!(EventUtils::key_to_string(&k(KeyCode::Media)), "Media");
    assert_eq!(EventUtils::key_to_string(&k(KeyCode::Insert)), "Insert");
}

#[test]
fn key_events_among_events() {
    let key = KeyEvent { code: KeyCode::Enter, control: false };
    assert!(EventUtils::is_key_event(&Event::Key(key)));
    assert!(!EventUtils::is_key_event(&Event::Resize(80, 24)));
    assert!(!EventUtils::is_key_event(&Event::FocusLost));
    assert_eq!(EventUtils::get_key_event(&Event::Key(key)), Some(&key));
    assert_eq!(EventUtils::get_key_event(&Event::Mouse), None);
}

#[test]
fn fatal_endings_have_distinct_statuses() {
    assert_eq!(Fatal::EmptyLibrary.exit_status(), 0);
    assert_eq!(Fatal::NoLibrary.exit_status(), 1);
    assert_eq!(Fatal::DatabaseOpen.exit_status(), 2);
}

#[test]
fn positional_library_argument_wins() {
    assert_eq!(library_argument(".".to_string(), None), ".");
    assert_eq!(library_argument(".".to_string(), Some("/lib".to_string())), "/lib");
}
