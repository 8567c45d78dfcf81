use tuilibre::app::{App, AppMode, Book};

fn book(id: i32, title: &str, authors: &[&str]) -> Book {
    Book {
        id,
        title: title.to_string(),
        authors: authors.iter().map(|a| a.to_string()).collect(),
        path: format!("Author/{}", title),
        has_cover: false,
        timestamp: "2024-01-01".to_string(),
        format: "EPUB".to_string(),
        filename: title.to_string(),
        tags: vec![],
    }
}

#[test]
fn new_app_is_empty_and_normal() {
    let app = App::new("/lib".to_string());
    assert!(app.books.is_empty());
    assert!(app.all_books.is_empty());
    assert_eq!(app.selected_book_index, 0);
    assert_eq!(app.search_query, "");
    assert_eq!(app.mode, AppMode::Normal);
    assert_eq!(app.library_path, "/lib");
    assert!(app.get_selected_book().is_none());
}

#[test]
fn selection_is_clamped_at_both_ends() {
    let mut app = App::new("/lib".to_string());
    app.set_books(vec![book(1, "A", &["x"]), book(2, "B", &["y"]), book(3, "C", &["z"])]);
    app.select_previous();
    assert_eq!(app.selected_book_index, 0);
    app.select_next();
    app.select_next();
    assert_eq!(app.selected_book_index, 2);
    app.select_next();
    assert_eq!(app.selected_book_index, 2);
    assert_eq!(app.get_selected_book().map(|b| b.id), Some(3));
}
