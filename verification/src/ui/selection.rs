//! Choosing a library: what each key press does to the selection screen.
//! The caller draws the screen, reads the keys and acts on the choice.

use vstd::prelude::*;
use vstd::string::*;
use crate::app::{App, AppMode, AppView};
use crate::text::{pop_char, push_char, strings_view};
use crate::ui::components::{
    book_lines, detail_lines, details_view, library_lines, no_libraries_message, status_text,
    title_bar_text, DetailLine, DetailView,
};
use crate::ui::events::{KeyCode, KeyEvent};
use crate::ui::selector::{
    filtered, matching, InfoView, LibraryInfo, LibrarySelector, SelectorView,
};
use crate::ui::{Command, UI};

verus! {

/// Where the selection screen stands: the selected line, and whether a
/// query is being typed.
#[derive(Debug, Clone, Copy, PartialEq, Eq, Structural)]
pub struct SelectionState {
    pub selected_index: usize,
    pub in_search_mode: bool,
}

/// What the caller has to do after a key press on the selection screen.
#[derive(Debug, Clone, Copy, PartialEq, Eq, Structural)]
pub enum SelectionAction {
    /// Nothing: read the next key.
    Continue,
    /// Open the library that [`UI::selected_library`] gives.
    Open,
    /// Leave without a library.
    Quit,
}

/// The meaning of a key on the selection screen. While a query is typed,
/// characters are input, but for `j` and `k`, which move the selection.
pub open spec fn selection_command(in_search_mode: bool, key: KeyEvent) -> Command {
    match key.code {
        KeyCode::Esc | KeyCode::Left => Command::Back,
        KeyCode::Up => Command::SelectPrevious,
        KeyCode::Down => Command::SelectNext,
        KeyCode::Enter | KeyCode::Right => Command::Activate,
        KeyCode::Backspace => if in_search_mode {
            Command::Backspace
        } else {
            Command::Ignore
        },
        KeyCode::Char(c) => if c == '/' && !in_search_mode {
            Command::StartSearch
        } else if c == 'k' {
            Command::SelectPrevious
        } else if c == 'j' {
            Command::SelectNext
        } else if in_search_mode {
            Command::Input(c)
        } else if c == 'q' {
            Command::Quit
        } else {
            Command::Ignore
        },
        _ => Command::Ignore,
    }
}

/// The candidates of a session under another query.
pub open spec fn with_query(sel: SelectorView, query: Seq<char>) -> SelectorView {
    SelectorView { query, filtered: filtered(sel.known, query), ..sel }
}

/// The session after a command on the selection screen.
pub open spec fn selection_session(
    st: SelectionState,
    sel: SelectorView,
    cmd: Command,
) -> SelectorView {
    match cmd {
        Command::StartSearch => if !st.in_search_mode {
            with_query(sel, Seq::empty())
        } else {
            sel
        },
        Command::Back => if st.in_search_mode {
            with_query(sel, Seq::empty())
        } else {
            sel
        },
        Command::Input(c) => if st.in_search_mode {
            with_query(sel, sel.query.push(c))
        } else {
            sel
        },
        Command::Backspace => if st.in_search_mode {
            with_query(
                sel,
                if sel.query.len() > 0 {
                    sel.query.drop_last()
                } else {
                    sel.query
                },
            )
        } else {
            sel
        },
        _ => sel,
    }
}

/// The screen's state after a command: a change of the query, and entering
/// or leaving the search, put the selection on the first line; moving it
/// stops at the first and at the last line shown.
pub open spec fn selection_step(
    st: SelectionState,
    sel: SelectorView,
    cmd: Command,
) -> SelectionState {
    match cmd {
        Command::StartSearch => if !st.in_search_mode {
            SelectionState { selected_index: 0, in_search_mode: true }
        } else {
            st
        },
        Command::Back => if st.in_search_mode {
            SelectionState { selected_index: 0, in_search_mode: false }
        } else {
            st
        },
        Command::SelectPrevious => if st.selected_index > 0 {
            SelectionState { selected_index: (st.selected_index - 1) as usize, ..st }
        } else {
            st
        },
        Command::SelectNext => if st.selected_index + 1 < sel.filtered.len() {
            SelectionState { selected_index: (st.selected_index + 1) as usize, ..st }
        } else {
            st
        },
        Command::Input(_) | Command::Backspace => if st.in_search_mode {
            SelectionState { selected_index: 0, ..st }
        } else {
            st
        },
        _ => st,
    }
}

/// The library that the selection points at: a line of the shown
/// candidates while a query is typed, else a line of all candidates.
pub open spec fn selected_info(st: SelectionState, sel: SelectorView) -> Option<InfoView> {
    if st.in_search_mode {
        if st.selected_index < sel.filtered.len() {
            Some(sel.filtered[st.selected_index as int])
        } else {
            None
        }
    } else {
        if st.selected_index < sel.known.len() {
            Some(sel.known[st.selected_index as int])
        } else {
            None
        }
    }
}

/// What the caller owes after a command on the selection screen.
pub open spec fn selection_action(
    st: SelectionState,
    sel: SelectorView,
    cmd: Command,
) -> SelectionAction {
    match cmd {
        Command::Activate => if selected_info(st, sel) is Some {
            SelectionAction::Open
        } else {
            SelectionAction::Continue
        },
        Command::Quit => if !st.in_search_mode {
            SelectionAction::Quit
        } else {
            SelectionAction::Continue
        },
        _ => SelectionAction::Continue,
    }
}

/// The selection points at a shown candidate, or is 0 when none is shown.
pub open spec fn selection_in_view(st: SelectionState, sel: SelectorView) -> bool {
    if sel.filtered.len() == 0 {
        st.selected_index == 0
    } else {
        st.selected_index < sel.filtered.len()
    }
}

/// Every command leaves the selection on a shown candidate, or on 0 when
/// none is shown, also when the query's change made the list shorter.
pub proof fn lemma_selection_stays_in_view(st: SelectionState, sel: SelectorView, cmd: Command)
    requires
        selection_in_view(st, sel),
    ensures
        selection_in_view(selection_step(st, sel, cmd), selection_session(st, sel, cmd)),
{
}

impl SelectionState {
    /// The screen as it opens: first line selected, no query typed.
    pub fn new() -> (r: Self)
        ensures
            r == (SelectionState { selected_index: 0, in_search_mode: false }),
    {
        SelectionState { selected_index: 0, in_search_mode: false }
    }
}

impl UI {
    /// The meaning of `key` on the selection screen.
    pub fn decode_selection_key(in_search_mode: bool, key: KeyEvent) -> (r: Command)
        ensures
            r == selection_command(in_search_mode, key),
    {
        match key.code {
            KeyCode::Esc | KeyCode::Left => Command::Back,
            KeyCode::Up => Command::SelectPrevious,
            KeyCode::Down => Command::SelectNext,
            KeyCode::Enter | KeyCode::Right => Command::Activate,
            KeyCode::Backspace => {
                if in_search_mode {
                    Command::Backspace
                } else {
                    Command::Ignore
                }
            },
            KeyCode::Char(c) => {
                if c == '/' && !in_search_mode {
                    Command::StartSearch
                } else if c == 'k' {
                    Command::SelectPrevious
                } else if c == 'j' {
                    Command::SelectNext
                } else if in_search_mode {
                    Command::Input(c)
                } else if c == 'q' {
                    Command::Quit
                } else {
                    Command::Ignore
                }
            },
            _ => Command::Ignore,
        }
    }

    /// Reacts to a key press on the selection screen.
    pub fn select_library(
        &self,
        key: KeyEvent,
        state: &mut SelectionState,
        selector: &mut LibrarySelector,
    ) -> (r: SelectionAction)
        ensures
            *final(state) == selection_step(
                *old(state),
                old(selector)@,
                selection_command(old(state).in_search_mode, key),
            ),
            final(selector)@ == selection_session(
                *old(state),
                old(selector)@,
                selection_command(old(state).in_search_mode, key),
            ),
            r == selection_action(
                *old(state),
                old(selector)@,
                selection_command(old(state).in_search_mode, key),
            ),
            selection_in_view(*old(state), old(selector)@) ==> selection_in_view(
                *final(state),
                final(selector)@,
            ),
    {
        let cmd = Self::decode_selection_key(state.in_search_mode, key);
        self.selection_command(cmd, state, selector)
    }

    /// Carries out a command on the selection screen.
    pub fn selection_command(
        &self,
        cmd: Command,
        state: &mut SelectionState,
        selector: &mut LibrarySelector,
    ) -> (r: SelectionAction)
        ensures
            *final(state) == selection_step(*old(state), old(selector)@, cmd),
            final(selector)@ == selection_session(*old(state), old(selector)@, cmd),
            r == selection_action(*old(state), old(selector)@, cmd),
            selection_in_view(*old(state), old(selector)@) ==> selection_in_view(
                *final(state),
                final(selector)@,
            ),
    {
        proof {
            if selection_in_view(*old(state), old(selector)@) {
                lemma_selection_stays_in_view(*old(state), old(selector)@, cmd);
            }
        }
        match cmd {
            Command::StartSearch => {
                if !state.in_search_mode {
                    state.in_search_mode = true;
                    selector.set_search_query(String::new());
                    state.selected_index = 0;
                }
                SelectionAction::Continue
            },
            Command::Back => {
                if state.in_search_mode {
                    state.in_search_mode = false;
                    selector.set_search_query(String::new());
                    state.selected_index = 0;
                }
                SelectionAction::Continue
            },
            Command::SelectPrevious => {
                if state.selected_index > 0 {
                    state.selected_index -= 1;
                }
                SelectionAction::Continue
            },
            Command::SelectNext => {
                let shown = selector.get_filtered_libraries().len();
                if shown > 0 && state.selected_index < shown - 1 {
                    state.selected_index += 1;
                }
                SelectionAction::Continue
            },
            Command::Activate => {
                if Self::selected_library(state, selector).is_some() {
                    SelectionAction::Open
                } else {
                    SelectionAction::Continue
                }
            },
            Command::Input(c) => {
                if state.in_search_mode {
                    let mut query = String::from_str(selector.get_search_query());
                    push_char(&mut query, c);
                    selector.set_search_query(query);
                    state.selected_index = 0;
                }
                SelectionAction::Continue
            },
            Command::Backspace => {
                if state.in_search_mode {
                    let mut query = String::from_str(selector.get_search_query());
                    let _ = pop_char(&mut query);
                    selector.set_search_query(query);
                    state.selected_index = 0;
                }
                SelectionAction::Continue
            },
            Command::Quit => {
                if !state.in_search_mode {
                    SelectionAction::Quit
                } else {
                    SelectionAction::Continue
                }
            },
            Command::Ignore => SelectionAction::Continue,
        }
    }

    /// The library that the selection points at, or `None` when it points
    /// past the list.
    pub fn selected_library<'a>(state: &SelectionState, selector: &'a LibrarySelector) -> (r:
        Option<&'a LibraryInfo>)
        ensures
            match r {
                Some(info) => selected_info(*state, selector@) == Some(info@),
                None => selected_info(*state, selector@) is None,
            },
    {
        if state.in_search_mode {
            selector.get_filtered_library(state.selected_index)
        } else {
            selector.get_library(state.selected_index)
        }
    }
}

/// The texts of the selection screen.
#[derive(Debug)]
pub struct SelectionScreen {
    pub title: String,
    /// One line for each candidate shown.
    pub lines: Vec<String>,
    /// The position of the line to highlight.
    pub selected_index: usize,
    pub help: String,
}

/// The title of the selection screen.
pub open spec fn selection_title(st: SelectionState, sel: SelectorView) -> Seq<char> {
    if st.in_search_mode {
        "搜索: "@ + sel.query + " (按 ESC 退出搜索)"@
    } else {
        "选择 calibre 图书馆"@
    }
}

/// The help text of the selection screen.
pub open spec fn selection_help(st: SelectionState) -> Seq<char> {
    if st.in_search_mode {
        "输入搜索 | ↑↓/j/k 导航 | Enter 选择 | ESC 退出搜索 | q 退出"@
    } else {
        "↑↓/j/k 导航 | Enter 选择 | / 搜索 | q 退出 | ⭐ = 历史记录中的库"@
    }
}

/// The candidates that the selection screen lists: those that the query
/// shows while one is typed, else all.
pub open spec fn selection_listed(st: SelectionState, sel: SelectorView) -> Seq<InfoView> {
    if st.in_search_mode {
        sel.filtered
    } else {
        sel.known
    }
}

/// What the main screen shows between title bar and status bar.
#[derive(Debug)]
pub enum Content {
    /// The lines of the book list.
    BookList(Vec<String>),
    /// The detail lines of the selected book.
    BookDetails(Vec<DetailLine>),
    /// The message that no library was found.
    NoLibraries(Vec<String>),
}

/// The texts of the main screen.
#[derive(Debug)]
pub struct Screen {
    pub title: String,
    pub content: Content,
    pub status: String,
}

impl UI {
    /// The texts of the selection screen.
    pub fn render_library_selection_with_search(
        &self,
        selector: &LibrarySelector,
        state: &SelectionState,
    ) -> (r: SelectionScreen)
        ensures
            r.title@ == selection_title(*state, selector@),
            strings_view(r.lines@) == library_lines(selection_listed(*state, selector@)),
            r.selected_index == state.selected_index,
            r.help@ == selection_help(*state),
    {
        let components = self.get_components();
        if state.in_search_mode {
            SelectionScreen {
                title: String::from_str("搜索: ").concat(selector.get_search_query()).concat(
                    " (按 ESC 退出搜索)",
                ),
                lines: components.render_library_lines(selector.get_filtered_libraries()),
                selected_index: state.selected_index,
                help: String::from_str(
                    "输入搜索 | ↑↓/j/k 导航 | Enter 选择 | ESC 退出搜索 | q 退出",
                ),
            }
        } else {
            SelectionScreen {
                title: String::from_str("选择 calibre 图书馆"),
                lines: components.render_library_lines(selector.get_libraries()),
                selected_index: state.selected_index,
                help: String::from_str(
                    "↑↓/j/k 导航 | Enter 选择 | / 搜索 | q 退出 | ⭐ = 历史记录中的库",
                ),
            }
        }
    }

    /// The texts of the main screen: the book list while browsing or
    /// searching, a book's details in the two details modes.
    pub fn render(&self, app: &App) -> (r: Screen)
        ensures
            r.title@ == title_bar_text(app@),
            r.status@ == status_text(app@.mode),
            match app@.mode {
                AppMode::Normal | AppMode::Search => r.content matches Content::BookList(lines)
                    && strings_view(lines@) == book_lines(app@.books),
                AppMode::Details | AppMode::DetailsFromSearch => r.content matches Content::BookDetails(
                    lines,
                ) && details_view(lines@) == (if 0 <= app@.selected < app@.books.len() {
                    detail_lines(app@.books[app@.selected])
                } else {
                    Seq::empty()
                }),
                AppMode::LibrarySelection => r.content matches Content::NoLibraries(lines)
                    && strings_view(lines@) == no_libraries_message(),
            },
    {
        let components = self.get_components();
        let content = match app.mode {
            AppMode::Normal | AppMode::Search => Content::BookList(
                components.render_book_list(app),
            ),
            AppMode::Details | AppMode::DetailsFromSearch => Content::BookDetails(
                components.render_book_details(app),
            ),
            AppMode::LibrarySelection => Content::NoLibraries(components.render_no_libraries()),
        };
        Screen {
            title: components.render_title_bar(app),
            content,
            status: components.render_status_bar(app),
        }
    }
}

/// What a key press leads to in a selection session, whatever the
/// discovery found. Where no candidate is known, the screen only says so
/// and any key leaves without a library. Else the key means what
/// [`selection_command`] says.
pub open spec fn session_action(st: SelectionState, sel: SelectorView, key: KeyEvent) -> SelectionAction {
    if sel.known.len() == 0 {
        SelectionAction::Quit
    } else {
        selection_action(st, sel, selection_command(st.in_search_mode, key))
    }
}

/// The screen's state after a key press in a selection session.
pub open spec fn session_step(st: SelectionState, sel: SelectorView, key: KeyEvent) -> SelectionState {
    if sel.known.len() == 0 {
        st
    } else {
        selection_step(st, sel, selection_command(st.in_search_mode, key))
    }
}

/// The candidates after a key press in a selection session.
pub open spec fn session_selector(st: SelectionState, sel: SelectorView, key: KeyEvent) -> SelectorView {
    if sel.known.len() == 0 {
        sel
    } else {
        selection_session(st, sel, selection_command(st.in_search_mode, key))
    }
}

/// Every candidate that matches a term is a candidate.
pub proof fn lemma_matching_are_known(known: Seq<InfoView>, term: Seq<char>)
    ensures
        matching(known, term).len() <= known.len(),
        forall|i: int|
            0 <= i < matching(known, term).len() ==> known.contains(
                #[trigger] matching(known, term)[i],
            ),
    decreases known.len(),
{
    if known.len() > 0 {
        let head = known.drop_last();
        let rest = matching(head, term);
        let all = matching(known, term);
        lemma_matching_are_known(head, term);
        assert(known[known.len() - 1] == known.last());
        assert forall|i: int| 0 <= i < all.len() implies known.contains(#[trigger] all[i]) by {
            if i < rest.len() {
                assert(all[i] == rest[i]);
                assert(head.contains(rest[i]));
                let k = choose|k: int| 0 <= k < head.len() && head[k] == rest[i];
                assert(known[k] == rest[i]);
            }
        }
    }
}

/// A selection session with no candidate ends on the first key, whichever
/// it is, without a library and without a change.
pub proof fn lemma_nothing_found_leaves(st: SelectionState, sel: SelectorView, key: KeyEvent)
    requires
        sel.known.len() == 0,
    ensures
        session_action(st, sel, key) == SelectionAction::Quit,
        session_step(st, sel, key) == st,
        session_selector(st, sel, key) == sel,
{
}

/// A library is opened only when a key that activates is pressed while the
/// selection points at a listed candidate, and that candidate is one that
/// the discovery found. A session is left without a library only on the
/// first key where nothing was found, or on `q` while no query is typed.
pub proof fn lemma_session_endings(st: SelectionState, sel: SelectorView, key: KeyEvent)
    requires
        sel.filtered == filtered(sel.known, sel.query),
    ensures
        session_action(st, sel, key) == SelectionAction::Open ==> {
            &&& key.code == KeyCode::Enter || key.code == KeyCode::Right
            &&& selected_info(st, sel) is Some
            &&& sel.known.contains(selected_info(st, sel)->Some_0)
            &&& session_step(st, sel, key) == st
            &&& session_selector(st, sel, key) == sel
        },
        session_action(st, sel, key) == SelectionAction::Quit ==> sel.known.len() == 0 || (
        key.code == KeyCode::Char('q') && !st.in_search_mode),
{
    if session_action(st, sel, key) == SelectionAction::Open {
        if st.in_search_mode {
            if sel.query.len() > 0 {
                lemma_matching_are_known(sel.known, crate::text::lowercase_text(sel.query));
            }
            assert(sel.known.contains(sel.filtered[st.selected_index as int]));
        } else {
            assert(sel.known[st.selected_index as int] == selected_info(st, sel)->Some_0);
        }
    }
}

/// A key press keeps the shown candidates those that the query shows, and
/// the candidates themselves as they were found.
pub proof fn lemma_session_keeps_candidates(st: SelectionState, sel: SelectorView, key: KeyEvent)
    requires
        sel.filtered == filtered(sel.known, sel.query),
    ensures
        session_selector(st, sel, key).known == sel.known,
        session_selector(st, sel, key).history == sel.history,
        session_selector(st, sel, key).filtered == filtered(
            session_selector(st, sel, key).known,
            session_selector(st, sel, key).query,
        ),
{
}

/// What the selection screen shows.
#[derive(Debug)]
pub enum SelectionContent {
    /// The message that no library was found.
    NoLibraries(Vec<String>),
    /// The candidates to choose from.
    Candidates(SelectionScreen),
}

impl UI {
    /// Reacts to a key press in a selection session, whatever the discovery
    /// found. Where no candidate is known, any key leaves without a library
    /// and nothing changes; else the key acts as [`UI::select_library`] says.
    pub fn handle_selection_key(
        &self,
        key: KeyEvent,
        state: &mut SelectionState,
        selector: &mut LibrarySelector,
    ) -> (r: SelectionAction)
        ensures
            r == session_action(*old(state), old(selector)@, key),
            *final(state) == session_step(*old(state), old(selector)@, key),
            final(selector)@ == session_selector(*old(state), old(selector)@, key),
            selection_in_view(*old(state), old(selector)@) ==> selection_in_view(
                *final(state),
                final(selector)@,
            ),
    {
        if !selector.has_libraries() {
            SelectionAction::Quit
        } else {
            self.select_library(key, state, selector)
        }
    }

    /// The texts of the selection screen: the message that nothing was found
    /// where no candidate is known, else the candidates.
    pub fn render_selection(&self, selector: &LibrarySelector, state: &SelectionState) -> (r:
        SelectionContent)
        ensures
            selector@.known.len() == 0 ==> (r matches SelectionContent::NoLibraries(lines)
                && strings_view(lines@) == no_libraries_message()),
            selector@.known.len() > 0 ==> (r matches SelectionContent::Candidates(screen)
                && screen.title@ == selection_title(*state, selector@) && strings_view(
                screen.lines@,
            ) == library_lines(selection_listed(*state, selector@)) && screen.selected_index
                == state.selected_index && screen.help@ == selection_help(*state)),
    {
        if !selector.has_libraries() {
            SelectionContent::NoLibraries(self.get_components().render_no_libraries())
        } else {
            SelectionContent::Candidates(
                self.render_library_selection_with_search(selector, state),
            )
        }
    }
}

} // verus!
