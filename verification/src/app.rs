//! Application state: the navigation mode, the book lists and the selection.

use vstd::prelude::*;
use vstd::string::*;
use crate::text::{clone_strings, join_spec, join_strings, strings_view};

verus! {

/// The navigation mode the browser is in. Exactly one is active at a time.
#[derive(Debug, Clone, Copy, PartialEq, Eq, Structural)]
pub enum AppMode {
    /// Browsing the book list.
    Normal,
    /// Typing a search query; the list shows the matches.
    Search,
    /// Details of the selected book, entered from `Normal`.
    Details,
    /// Details of the selected book, entered from `Search`.
    DetailsFromSearch,
    /// The caller is asked to run library selection.
    LibrarySelection,
}

/// One book record of the catalog, as it was read.
#[derive(Debug)]
pub struct Book {
    pub id: i32,
    pub title: String,
    pub authors: Vec<String>,
    pub path: String,
    pub has_cover: bool,
    pub timestamp: String,
    pub format: String,
    pub filename: String,
    pub tags: Vec<String>,
}

/// What a [`Book`] holds, as mathematical values.
pub struct BookView {
    pub id: int,
    pub title: Seq<char>,
    pub authors: Seq<Seq<char>>,
    pub path: Seq<char>,
    pub has_cover: bool,
    pub timestamp: Seq<char>,
    pub format: Seq<char>,
    pub filename: Seq<char>,
    pub tags: Seq<Seq<char>>,
}

impl View for Book {
    type V = BookView;

    open spec fn view(&self) -> BookView {
        BookView {
            id: self.id as int,
            title: self.title@,
            authors: strings_view(self.authors@),
            path: self.path@,
            has_cover: self.has_cover,
            timestamp: self.timestamp@,
            format: self.format@,
            filename: self.filename@,
            tags: strings_view(self.tags@),
        }
    }
}

/// The views of a list of books, in order.
pub open spec fn books_view(v: Seq<Book>) -> Seq<BookView> {
    v.map_values(|b: Book| b@)
}

/// The longest title shown in full, in characters.
pub const TITLE_LIMIT: usize = 50;

/// The number of characters kept of a longer title, before the ellipsis.
pub const TITLE_KEPT: usize = 47;

/// The title as a list line shows it: whole when it has at most
/// `TITLE_LIMIT` characters, else its first `TITLE_KEPT` followed by `...`.
pub open spec fn display_title_spec(title: Seq<char>) -> Seq<char> {
    if title.len() > TITLE_LIMIT {
        title.subrange(0, TITLE_KEPT as int) + seq!['.', '.', '.']
    } else {
        title
    }
}

impl Clone for Book {
    fn clone(&self) -> (r: Self)
        ensures
            r@ == self@,
    {
        Book {
            id: self.id,
            title: self.title.clone(),
            authors: clone_strings(&self.authors),
            path: self.path.clone(),
            has_cover: self.has_cover,
            timestamp: self.timestamp.clone(),
            format: self.format.clone(),
            filename: self.filename.clone(),
            tags: clone_strings(&self.tags),
        }
    }
}

impl Book {
    /// The author names, separated by a comma and a space.
    pub fn author_list(&self) -> (r: String)
        ensures
            r@ == join_spec(self@.authors, seq![',', ' ']),
    {
        proof {
            reveal_strlit(", ");
            assert(", "@ =~= seq![',', ' ']);
        }
        join_strings(&self.authors, ", ")
    }

    /// The tag names, separated by a comma and a space.
    pub fn tag_list(&self) -> (r: String)
        ensures
            r@ == join_spec(self@.tags, seq![',', ' ']),
    {
        proof {
            reveal_strlit(", ");
            assert(", "@ =~= seq![',', ' ']);
        }
        join_strings(&self.tags, ", ")
    }

    /// The title, cut to fit a list line.
    pub fn display_title(&self) -> (r: String)
        ensures
            r@ == display_title_spec(self@.title),
    {
        let title = self.title.as_str();
        if title.unicode_len() > TITLE_LIMIT {
            proof {
                reveal_strlit("...");
                assert("..."@ =~= seq!['.', '.', '.']);
            }
            let head = String::from_str(title.substring_char(0, TITLE_KEPT));
            head.concat("...")
        } else {
            self.title.clone()
        }
    }
}

/// Copies a list of books.
pub fn clone_books(v: &Vec<Book>) -> (r: Vec<Book>)
    ensures
        books_view(r@) == books_view(v@),
        r@.len() == v@.len(),
{
    let mut out: Vec<Book> = Vec::new();
    let mut i: usize = 0;
    while i < v.len()
        invariant
            i <= v.len(),
            out@.len() == i,
            forall|k: int| 0 <= k < i ==> out@[k]@ == v@[k]@,
        decreases v.len() - i,
    {
        out.push(v[i].clone());
        i += 1;
    }
    assert(books_view(out@) =~= books_view(v@));
    out
}

/// The state of one browsing session.
#[derive(Debug)]
pub struct App {
    /// The list on screen: every book, or the matches of the query.
    pub books: Vec<Book>,
    /// Every book of the open library, kept to undo a search.
    pub all_books: Vec<Book>,
    /// The position of the selected book in `books`.
    pub selected_book_index: usize,
    /// The search text typed so far.
    pub search_query: String,
    pub mode: AppMode,
    /// The directory of the open library.
    pub library_path: String,
}

/// What an [`App`] holds, as mathematical values.
pub struct AppView {
    pub books: Seq<BookView>,
    pub all_books: Seq<BookView>,
    pub selected: int,
    pub query: Seq<char>,
    pub mode: AppMode,
    pub library_path: Seq<char>,
}

impl AppView {
    /// The selection points into the list on screen, or is 0 when that list
    /// is empty.
    pub open spec fn selection_valid(self) -> bool {
        if self.books.len() == 0 {
            self.selected == 0
        } else {
            0 <= self.selected < self.books.len()
        }
    }

    /// The query is empty in every mode but the two search modes.
    pub open spec fn query_valid(self) -> bool {
        self.mode == AppMode::Search || self.mode == AppMode::DetailsFromSearch
            || self.query.len() == 0
    }

    /// The invariant of a session's state.
    pub open spec fn wf(self) -> bool {
        self.selection_valid() && self.query_valid()
    }

    /// The selection one step down, staying on the last book.
    pub open spec fn next_index(self) -> int {
        if self.selected + 1 < self.books.len() {
            self.selected + 1
        } else {
            self.selected
        }
    }

    /// The selection one step up, staying on the first book.
    pub open spec fn previous_index(self) -> int {
        if self.selected > 0 {
            self.selected - 1
        } else {
            self.selected
        }
    }

    /// The state showing `books`, with the first one selected.
    pub open spec fn with_books(self, books: Seq<BookView>) -> AppView {
        AppView { books, selected: 0, ..self }
    }
}

impl View for App {
    type V = AppView;

    open spec fn view(&self) -> AppView {
        AppView {
            books: books_view(self.books@),
            all_books: books_view(self.all_books@),
            selected: self.selected_book_index as int,
            query: self.search_query@,
            mode: self.mode,
            library_path: self.library_path@,
        }
    }
}

impl App {
    /// A session on the library at `library_path`, with no book loaded yet.
    pub fn new(library_path: String) -> (r: Self)
        ensures
            r@ == (AppView {
                books: Seq::empty(),
                all_books: Seq::empty(),
                selected: 0,
                query: Seq::empty(),
                mode: AppMode::Normal,
                library_path: library_path@,
            }),
            r@.wf(),
    {
        let r = App {
            books: Vec::new(),
            all_books: Vec::new(),
            selected_book_index: 0,
            search_query: String::new(),
            mode: AppMode::Normal,
            library_path,
        };
        assert(r@.books =~= Seq::empty());
        assert(r@.all_books =~= Seq::empty());
        r
    }

    /// The selected book, or `None` when the selection is past the list.
    pub fn get_selected_book(&self) -> (r: Option<&Book>)
        ensures
            self.selected_book_index < self.books@.len() ==> r == Some(
                &self.books@[self.selected_book_index as int],
            ),
            self.selected_book_index >= self.books@.len() ==> r is None,
    {
        if self.selected_book_index < self.books.len() {
            Some(&self.books[self.selected_book_index])
        } else {
            None
        }
    }

    /// Moves the selection one book down; on the last book it stays.
    pub fn select_next(&mut self)
        ensures
            final(self)@ == (AppView { selected: old(self)@.next_index(), ..old(self)@ }),
            old(self)@.wf() ==> final(self)@.wf(),
    {
        let len = self.books.len();
        if len > 0 && self.selected_book_index < len - 1 {
            self.selected_book_index += 1;
        }
    }

    /// Moves the selection one book up; on the first book it stays.
    pub fn select_previous(&mut self)
        ensures
            final(self)@ == (AppView { selected: old(self)@.previous_index(), ..old(self)@ }),
            old(self)@.wf() ==> final(self)@.wf(),
    {
        if self.selected_book_index > 0 {
            self.selected_book_index -= 1;
        }
    }

    /// Shows `books` in place of the current list and selects the first one.
    pub fn set_books(&mut self, books: Vec<Book>)
        ensures
            final(self)@ == old(self)@.with_books(books_view(books@)),
            old(self)@.query_valid() ==> final(self)@.wf(),
    {
        self.selected_book_index = 0;
        self.books = books;
    }

    /// Shows every book of the library again and selects the first one.
    pub fn restore_all_books(&mut self)
        ensures
            final(self)@ == old(self)@.with_books(old(self)@.all_books),
            old(self)@.query_valid() ==> final(self)@.wf(),
    {
        self.books = clone_books(&self.all_books);
        self.selected_book_index = 0;
    }

    /// Opens another library in this session: `books` becomes both the list
    /// on screen and the full snapshot, the query is cleared and browsing
    /// starts over on the first book.
    pub fn open_library(&mut self, library_path: String, books: Vec<Book>)
        ensures
            final(self)@ == (AppView {
                books: books_view(books@),
                all_books: books_view(books@),
                selected: 0,
                query: Seq::empty(),
                mode: AppMode::Normal,
                library_path: library_path@,
            }),
            final(self)@.wf(),
    {
        self.all_books = clone_books(&books);
        self.books = books;
        self.selected_book_index = 0;
        self.search_query = String::new();
        self.mode = AppMode::Normal;
        self.library_path = library_path;
    }
}

/// Why a session cannot start or go on.
#[derive(Debug, Clone, Copy, PartialEq, Eq, Structural)]
pub enum Fatal {
    /// No library was named, found or chosen.
    NoLibrary,
    /// The library's catalog holds no book.
    EmptyLibrary,
    /// The library's catalog cannot be opened.
    DatabaseOpen,
}

impl Fatal {
    /// The status the process ends with: one for each reason.
    pub open spec fn status(self) -> i32 {
        match self {
            Fatal::EmptyLibrary => 0,
            Fatal::NoLibrary => 1,
            Fatal::DatabaseOpen => 2,
        }
    }

    /// The status the process ends with.
    pub fn exit_status(&self) -> (r: i32)
        ensures
            r == self.status(),
    {
        match self {
            Fatal::EmptyLibrary => 0,
            Fatal::NoLibrary => 1,
            Fatal::DatabaseOpen => 2,
        }
    }
}

/// Which library a session starts on: the positional argument where one
/// was given, else the value of the option.
pub fn library_argument(option: String, positional: Option<String>) -> (r: String)
    ensures
        r@ == (match positional {
            Some(p) => p@,
            None => option@,
        }),
{
    match positional {
        Some(p) => p,
        None => option,
    }
}

} // verus!
