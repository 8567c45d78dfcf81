//! The texts of the screen's parts, ready for a renderer to draw.

use vstd::prelude::*;
use vstd::string::*;
use crate::app::{display_title_spec, App, AppMode, AppView, Book, BookView};
use crate::text::{
    count_string, decimal, join_spec, signed_decimal, signed_string, strings_view,
};
use crate::ui::selector::{InfoView, LibraryInfo, LibrarySelector};

verus! {

/// The longest path shown in full in a list line, in characters.
pub const PATH_LIMIT: usize = 30;

/// The number of characters kept of a longer path, behind the ellipsis.
pub const PATH_KEPT: usize = 27;

/// One line of a book's details: what it tells, and the value.
#[derive(Debug)]
pub struct DetailLine {
    pub label: String,
    pub value: String,
}

/// What a [`DetailLine`] holds, as mathematical values.
pub struct DetailView {
    pub label: Seq<char>,
    pub value: Seq<char>,
}

impl View for DetailLine {
    type V = DetailView;

    open spec fn view(&self) -> DetailView {
        DetailView { label: self.label@, value: self.value@ }
    }
}

/// The views of a list of detail lines, in order.
pub open spec fn details_view(v: Seq<DetailLine>) -> Seq<DetailView> {
    v.map_values(|d: DetailLine| d@)
}

/// The text of the title bar: the query while one is typed, else the number
/// of books on screen.
pub open spec fn title_bar_text(app: AppView) -> Seq<char> {
    if app.mode == AppMode::Search {
        "Search: "@ + app.query
    } else {
        "tuilibre - "@ + decimal(app.books.len()) + " books"@
    }
}

/// A path as a list line shows it: whole when it has at most `PATH_LIMIT`
/// characters, else `...` followed by its last `PATH_KEPT`.
pub open spec fn path_display(path: Seq<char>) -> Seq<char> {
    if path.len() > PATH_LIMIT {
        "..."@ + path.subrange(path.len() - PATH_KEPT, path.len() as int)
    } else {
        path
    }
}

/// The list line of a book: title, authors, and the path in brackets.
pub open spec fn book_line(book: BookView) -> Seq<char> {
    display_title_spec(book.title) + " - "@ + join_spec(book.authors, seq![',', ' ']) + " ["@
        + path_display(book.path) + "]"@
}

/// The list lines of the books, in order.
pub open spec fn book_lines(books: Seq<BookView>) -> Seq<Seq<char>> {
    books.map_values(|b: BookView| book_line(b))
}

/// The detail lines of a book. The line of the tags is left out for a book
/// without tags.
pub open spec fn detail_lines(book: BookView) -> Seq<DetailView> {
    seq![
        DetailView { label: "Title: "@, value: book.title },
        DetailView { label: "Authors: "@, value: join_spec(book.authors, seq![',', ' ']) },
    ] + (if book.tags.len() > 0 {
        seq![DetailView { label: "Tags: "@, value: join_spec(book.tags, seq![',', ' ']) }]
    } else {
        Seq::empty()
    }) + seq![
        DetailView { label: "Path: "@, value: book.path },
        DetailView {
            label: "Cover: "@,
            value: if book.has_cover {
                "Yes"@
            } else {
                "No"@
            },
        },
        DetailView { label: "Added: "@, value: book.timestamp },
    ]
}

/// The help text of the status bar in a mode.
pub open spec fn status_text(mode: AppMode) -> Seq<char> {
    match mode {
        AppMode::Normal => "↑↓ Navigate | Enter Details | / Search | ESC Library | q Quit"@,
        AppMode::Search => "ESC Back | Enter Select | q Quit"@,
        AppMode::Details => "ESC Back | Enter Open | q Quit"@,
        AppMode::DetailsFromSearch => "ESC Back to Search | Enter Open | q Quit"@,
        AppMode::LibrarySelection => "↑↓ Select | Enter Open | q Quit"@,
    }
}

/// The line of a candidate library: a star for one that the history knows,
/// name, path, the number of books (0 where it is not known) and, where it
/// is known, when the library was last used.
pub open spec fn library_line(info: InfoView) -> Seq<char> {
    (if info.from_history {
        "⭐ "@
    } else {
        Seq::empty()
    }) + info.name + " - "@ + info.path + " ("@ + signed_decimal(
        match info.book_count {
            Some(n) => n as int,
            None => 0,
        },
    ) + " 本书)"@ + (match info.last_used {
        Some(t) => " [上次使用: "@ + t + "]"@,
        None => Seq::empty(),
    })
}

/// The lines of the candidate libraries, in order.
pub open spec fn library_lines(infos: Seq<InfoView>) -> Seq<Seq<char>> {
    infos.map_values(|i: InfoView| library_line(i))
}

/// The lines of the message shown when no library was found.
pub open spec fn no_libraries_message() -> Seq<Seq<char>> {
    seq![
        "❌ 未在任何常见位置找到 calibre 图书馆"@,
        ""@,
        "💡 请手动指定图书馆路径："@,
        "   tuilibre /path/to/your/calibre/library"@,
        ""@,
        "🔍 搜索位置："@,
        "   /home"@,
        "   /Users"@,
        "   /win/cloud/hecloud/library"@,
        "   当前目录"@,
    ]
}

/// Builds the texts that the screen shows.
#[derive(Debug, Clone, Copy)]
pub struct UIComponents;

impl UIComponents {
    pub fn new() -> (r: Self)
        ensures
            r == UIComponents,
    {
        UIComponents
    }

    /// The text of the title bar.
    pub fn render_title_bar(&self, app: &App) -> (r: String)
        ensures
            r@ == title_bar_text(app@),
    {
        match app.mode {
            AppMode::Search => String::from_str("Search: ").concat(app.search_query.as_str()),
            _ => {
                let count = count_string(app.books.len());
                String::from_str("tuilibre - ").concat(count.as_str()).concat(" books")
            },
        }
    }

    /// A path, cut to fit a list line.
    pub fn render_path(&self, path: &str) -> (r: String)
        ensures
            r@ == path_display(path@),
    {
        let len = path.unicode_len();
        if len > PATH_LIMIT {
            let tail = path.substring_char(len - PATH_KEPT, len);
            String::from_str("...").concat(tail)
        } else {
            String::from_str(path)
        }
    }

    /// The list line of a book.
    pub fn render_book_line(&self, book: &Book) -> (r: String)
        ensures
            r@ == book_line(book@),
    {
        let title = book.display_title();
        let authors = book.author_list();
        let path = self.render_path(book.path.as_str());
        title.concat(" - ").concat(authors.as_str()).concat(" [").concat(path.as_str()).concat("]")
    }

    /// The lines of the book list; the line at the session's selection is
    /// the one to highlight.
    pub fn render_book_list(&self, app: &App) -> (r: Vec<String>)
        ensures
            strings_view(r@) == book_lines(app@.books),
    {
        let mut lines: Vec<String> = Vec::new();
        let mut i: usize = 0;
        while i < app.books.len()
            invariant
                i <= app.books.len(),
                lines@.len() == i,
                forall|k: int| 0 <= k < i ==> lines@[k]@ == book_line(app.books@[k]@),
            decreases app.books.len() - i,
        {
            lines.push(self.render_book_line(&app.books[i]));
            i += 1;
        }
        assert(strings_view(lines@) =~= book_lines(app@.books));
        lines
    }

    /// The lines of the details of the selected book; none when the
    /// selection is past the list.
    pub fn render_book_details(&self, app: &App) -> (r: Vec<DetailLine>)
        ensures
            details_view(r@) == (if 0 <= app@.selected < app@.books.len() {
                detail_lines(app@.books[app@.selected])
            } else {
                Seq::empty()
            }),
    {
        let mut lines: Vec<DetailLine> = Vec::new();
        match app.get_selected_book() {
            Some(book) => {
                lines.push(
                    DetailLine { label: String::from_str("Title: "), value: book.title.clone() },
                );
                lines.push(
                    DetailLine { label: String::from_str("Authors: "), value: book.author_list() },
                );
                if book.tags.len() > 0 {
                    lines.push(
                        DetailLine { label: String::from_str("Tags: "), value: book.tag_list() },
                    );
                }
                lines.push(
                    DetailLine { label: String::from_str("Path: "), value: book.path.clone() },
                );
                lines.push(
                    DetailLine {
                        label: String::from_str("Cover: "),
                        value: if book.has_cover {
                            String::from_str("Yes")
                        } else {
                            String::from_str("No")
                        },
                    },
                );
                lines.push(
                    DetailLine {
                        label: String::from_str("Added: "),
                        value: book.timestamp.clone(),
                    },
                );
                assert(details_view(lines@) =~= detail_lines(book@));
                assert(app@.books[app@.selected] == book@);
            },
            None => {
                assert(details_view(lines@) =~= Seq::empty());
            },
        }
        lines
    }

    /// The help text of the status bar.
    pub fn render_status_bar(&self, app: &App) -> (r: String)
        ensures
            r@ == status_text(app@.mode),
    {
        match app.mode {
            AppMode::Normal => String::from_str(
                "↑↓ Navigate | Enter Details | / Search | ESC Library | q Quit",
            ),
            AppMode::Search => String::from_str("ESC Back | Enter Select | q Quit"),
            AppMode::Details => String::from_str("ESC Back | Enter Open | q Quit"),
            AppMode::DetailsFromSearch => String::from_str(
                "ESC Back to Search | Enter Open | q Quit",
            ),
            AppMode::LibrarySelection => String::from_str("↑↓ Select | Enter Open | q Quit"),
        }
    }

    /// The line of a candidate library.
    pub fn render_library_line(&self, info: &LibraryInfo) -> (r: String)
        ensures
            r@ == library_line(info@),
    {
        let count = signed_string(
            match info.book_count {
                Some(n) => n,
                None => 0,
            },
        );
        let mut line = if info.from_history {
            String::from_str("⭐ ")
        } else {
            String::new()
        };
        line.append(info.name.as_str());
        line.append(" - ");
        line.append(info.path.as_str());
        line.append(" (");
        line.append(count.as_str());
        line.append(" 本书)");
        match &info.last_used {
            Some(t) => {
                line.append(" [上次使用: ");
                line.append(t.as_str());
                line.append("]");
                assert(line@ =~= library_line(info@));
            },
            None => {
                assert(line@ =~= library_line(info@));
            },
        }
        line
    }

    /// The lines of the candidates that the query shows.
    pub fn render_library_selection(&self, selector: &LibrarySelector) -> (r: Vec<String>)
        ensures
            strings_view(r@) == library_lines(selector@.filtered),
    {
        self.render_library_lines(selector.get_filtered_libraries())
    }

    /// The lines of a list of candidates.
    pub fn render_library_lines(&self, infos: &[LibraryInfo]) -> (r: Vec<String>)
        ensures
            strings_view(r@) == library_lines(crate::ui::selector::infos_view(infos@)),
    {
        let mut lines: Vec<String> = Vec::new();
        let mut i: usize = 0;
        while i < infos.len()
            invariant
                i <= infos.len(),
                lines@.len() == i,
                forall|k: int| 0 <= k < i ==> lines@[k]@ == library_line(infos@[k]@),
            decreases infos.len() - i,
        {
            lines.push(self.render_library_line(&infos[i]));
            i += 1;
        }
        assert(strings_view(lines@) =~= library_lines(crate::ui::selector::infos_view(infos@)));
        lines
    }

    /// The title of the selection screen: the query where there is one.
    pub fn render_selection_title(&self, selector: &LibrarySelector) -> (r: String)
        ensures
            r@ == (if selector@.query.len() == 0 {
                "选择 calibre 图书馆"@
            } else {
                "搜索: "@ + selector@.query
            }),
    {
        let query = selector.get_search_query();
        if query.unicode_len() == 0 {
            String::from_str("选择 calibre 图书馆")
        } else {
            String::from_str("搜索: ").concat(query)
        }
    }

    /// The lines of the message shown when no library was found.
    pub fn render_no_libraries(&self) -> (r: Vec<String>)
        ensures
            strings_view(r@) == no_libraries_message(),
    {
        let mut lines: Vec<String> = Vec::new();
        lines.push(String::from_str("❌ 未在任何常见位置找到 calibre 图书馆"));
        lines.push(String::from_str(""));
        lines.push(String::from_str("💡 请手动指定图书馆路径："));
        lines.push(String::from_str("   tuilibre /path/to/your/calibre/library"));
        lines.push(String::from_str(""));
        lines.push(String::from_str("🔍 搜索位置："));
        lines.push(String::from_str("   /home"));
        lines.push(String::from_str("   /Users"));
        lines.push(String::from_str("   /win/cloud/hecloud/library"));
        lines.push(String::from_str("   当前目录"));
        assert(strings_view(lines@) =~= no_libraries_message());
        lines
    }
}

} // verus!
