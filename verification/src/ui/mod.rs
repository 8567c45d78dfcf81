//! The browser's reactions to key presses: which command a key means in
//! each mode, and what each command does to the session's state.

pub mod components;
pub mod events;
pub mod opener;
pub mod selection;
pub mod selector;

use vstd::prelude::*;
use crate::app::{books_view, App, AppMode, AppView, Book};
use crate::text::{pop_char, push_char};
use self::components::UIComponents;
use self::events::{KeyCode, KeyEvent};

verus! {

/// What a key press asks for, once the mode has given it a meaning.
#[derive(Debug, Clone, Copy, PartialEq, Eq, Structural)]
pub enum Command {
    SelectNext,
    SelectPrevious,
    /// Open what is selected.
    Activate,
    StartSearch,
    /// Leave the current mode.
    Back,
    Quit,
    /// Add a character to the query.
    Input(char),
    /// Remove the query's last character.
    Backspace,
    /// The key means nothing in this mode.
    Ignore,
}

/// What the caller has to do after a command was handled.
#[derive(Debug, Clone, Copy, PartialEq, Eq, Structural)]
pub enum Action {
    /// Nothing: read the next key.
    Continue,
    /// End the session.
    Quit,
    /// Run library selection.
    SelectLibrary,
    /// Query the data source with the session's query and hand the outcome
    /// to [`UI::apply_search_result`].
    RunSearch,
    /// Open the selected book's file.
    OpenBook,
}

/// The meaning of a key while browsing the list.
pub open spec fn normal_command(key: KeyEvent) -> Command {
    match key.code {
        KeyCode::Up => Command::SelectPrevious,
        KeyCode::Down => Command::SelectNext,
        KeyCode::Enter | KeyCode::Right => Command::Activate,
        KeyCode::Esc | KeyCode::Left => Command::Back,
        KeyCode::Char(c) => if c == 'k' {
            Command::SelectPrevious
        } else if c == 'j' {
            Command::SelectNext
        } else if c == '/' {
            Command::StartSearch
        } else if c == 'q' {
            Command::Quit
        } else {
            Command::Ignore
        },
        _ => Command::Ignore,
    }
}

/// The meaning of a key while typing a query: characters are input, unless
/// Control is held, which makes `j` and `k` move the selection.
pub open spec fn search_command(key: KeyEvent) -> Command {
    match key.code {
        KeyCode::Up => Command::SelectPrevious,
        KeyCode::Down => Command::SelectNext,
        KeyCode::Enter | KeyCode::Right => Command::Activate,
        KeyCode::Esc | KeyCode::Left => Command::Back,
        KeyCode::Backspace => Command::Backspace,
        KeyCode::Char(c) => if !key.control {
            Command::Input(c)
        } else if c == 'j' {
            Command::SelectNext
        } else if c == 'k' {
            Command::SelectPrevious
        } else {
            Command::Ignore
        },
        _ => Command::Ignore,
    }
}

/// The meaning of a key while a book's details are shown.
pub open spec fn details_command(key: KeyEvent) -> Command {
    match key.code {
        KeyCode::Enter | KeyCode::Right => Command::Activate,
        KeyCode::Esc | KeyCode::Left => Command::Back,
        KeyCode::Char(c) => if c == 'q' {
            Command::Quit
        } else {
            Command::Ignore
        },
        _ => Command::Ignore,
    }
}

/// The meaning of a key in a mode.
pub open spec fn command_for(mode: AppMode, key: KeyEvent) -> Command {
    match mode {
        AppMode::Normal => normal_command(key),
        AppMode::Search => search_command(key),
        AppMode::Details | AppMode::DetailsFromSearch => details_command(key),
        AppMode::LibrarySelection => Command::Ignore,
    }
}

/// The state after the query changed: an empty query shows every book
/// again, a non-empty one leaves the list until the search's outcome
/// arrives.
pub open spec fn query_changed(s: AppView) -> AppView {
    if s.query.len() == 0 {
        s.with_books(s.all_books)
    } else {
        s
    }
}

/// The state after a command given while browsing the list.
pub open spec fn normal_step(s: AppView, cmd: Command) -> AppView {
    match cmd {
        Command::SelectPrevious => AppView { selected: s.previous_index(), ..s },
        Command::SelectNext => AppView { selected: s.next_index(), ..s },
        Command::Activate => AppView { mode: AppMode::Details, ..s },
        Command::StartSearch => AppView {
            mode: AppMode::Search,
            query: Seq::empty(),
            selected: 0,
            ..s
        },
        Command::Back => AppView { mode: AppMode::LibrarySelection, ..s },
        _ => s,
    }
}

/// The state after a command given while typing a query.
pub open spec fn search_step(s: AppView, cmd: Command) -> AppView {
    match cmd {
        Command::SelectPrevious => AppView { selected: s.previous_index(), ..s },
        Command::SelectNext => AppView { selected: s.next_index(), ..s },
        Command::Activate => AppView {
            mode: if s.books.len() > 0 {
                AppMode::DetailsFromSearch
            } else {
                AppMode::Search
            },
            ..s
        },
        Command::Back => AppView {
            mode: AppMode::Normal,
            query: Seq::empty(),
            books: s.all_books,
            selected: 0,
            ..s
        },
        Command::Input(c) => query_changed(AppView { query: s.query.push(c), ..s }),
        Command::Backspace => query_changed(
            AppView {
                query: if s.query.len() > 0 {
                    s.query.drop_last()
                } else {
                    s.query
                },
                ..s
            },
        ),
        _ => s,
    }
}

/// The state after a command given while a book's details are shown.
pub open spec fn details_step(s: AppView, cmd: Command) -> AppView {
    match cmd {
        Command::Back => AppView {
            mode: if s.mode == AppMode::DetailsFromSearch {
                AppMode::Search
            } else {
                AppMode::Normal
            },
            ..s
        },
        _ => s,
    }
}

/// The state after a command, in whatever mode the session is.
pub open spec fn step(s: AppView, cmd: Command) -> AppView {
    match s.mode {
        AppMode::Normal => normal_step(s, cmd),
        AppMode::Search => search_step(s, cmd),
        AppMode::Details | AppMode::DetailsFromSearch => details_step(s, cmd),
        AppMode::LibrarySelection => s,
    }
}

/// What the caller owes after a command given while browsing the list.
pub open spec fn normal_action(cmd: Command) -> Action {
    match cmd {
        Command::Back => Action::SelectLibrary,
        Command::Quit => Action::Quit,
        _ => Action::Continue,
    }
}

/// What the caller owes after a command given while typing a query: a
/// search whenever the edited query is not empty.
pub open spec fn search_action(s: AppView, cmd: Command) -> Action {
    match cmd {
        Command::Input(_) => Action::RunSearch,
        Command::Backspace => if s.query.len() > 1 {
            Action::RunSearch
        } else {
            Action::Continue
        },
        _ => Action::Continue,
    }
}

/// What the caller owes after a command given while details are shown.
pub open spec fn details_action(s: AppView, cmd: Command) -> Action {
    match cmd {
        Command::Activate => if 0 <= s.selected < s.books.len() {
            Action::OpenBook
        } else {
            Action::Continue
        },
        Command::Quit => Action::Quit,
        _ => Action::Continue,
    }
}

/// What the caller owes after a command, in whatever mode the session is.
pub open spec fn action_for(s: AppView, cmd: Command) -> Action {
    match s.mode {
        AppMode::Normal => normal_action(cmd),
        AppMode::Search => search_action(s, cmd),
        AppMode::Details | AppMode::DetailsFromSearch => details_action(s, cmd),
        AppMode::LibrarySelection => Action::Continue,
    }
}

/// The state after a search's outcome arrived: the matches replace the list
/// and the first is selected; a failed search changes nothing.
pub open spec fn search_applied(s: AppView, outcome: Option<Seq<crate::app::BookView>>) -> AppView {
    match outcome {
        Some(found) => s.with_books(found),
        None => s,
    }
}

/// Every command keeps the session's invariant: afterwards the selection
/// still points into the list on screen, or is 0 when that list is empty,
/// and the query is still empty outside the search modes.
pub proof fn lemma_step_keeps_invariant(s: AppView, cmd: Command)
    requires
        s.wf(),
    ensures
        step(s, cmd).wf(),
        step(s, cmd).books.len() > 0 ==> 0 <= step(s, cmd).selected < step(s, cmd).books.len(),
        step(s, cmd).books.len() == 0 ==> step(s, cmd).selected == 0,
{
}

/// The outcome of a search keeps the session's invariant too, whether it
/// brought matches, none, or failed.
pub proof fn lemma_search_outcome_keeps_invariant(
    s: AppView,
    outcome: Option<Seq<crate::app::BookView>>,
)
    requires
        s.wf(),
    ensures
        search_applied(s, outcome).wf(),
{
}

/// The full snapshot is never touched: no command and no search outcome
/// changes it, nor the library's path.
pub proof fn lemma_snapshot_is_kept(
    s: AppView,
    cmd: Command,
    outcome: Option<Seq<crate::app::BookView>>,
)
    ensures
        step(s, cmd).all_books == s.all_books,
        step(s, cmd).library_path == s.library_path,
        search_applied(s, outcome).all_books == s.all_books,
        search_applied(s, outcome).library_path == s.library_path,
{
}

/// Whenever an edit in search mode leaves the query empty, the list on
/// screen is exactly the full snapshot again, with its first book selected
/// and no search asked for, whatever the list held before. Leaving search
/// mode does the same.
pub proof fn lemma_cleared_query_restores_snapshot(s: AppView, cmd: Command)
    requires
        s.mode == AppMode::Search,
        cmd is Input || cmd is Backspace || cmd is Back,
        step(s, cmd).query.len() == 0,
    ensures
        step(s, cmd).books == s.all_books,
        step(s, cmd).selected == 0,
        action_for(s, cmd) == Action::Continue,
{
    match cmd {
        Command::Input(c) => {
            assert(s.query.push(c).len() > 0);
        },
        _ => {},
    }
}

/// Handles the session's key presses.
#[derive(Debug, Clone, Copy)]
pub struct UI {
    components: UIComponents,
}

impl UI {
    pub fn new() -> (r: Self)
        ensures
            r.components() == UIComponents,
    {
        UI { components: UIComponents::new() }
    }

    /// The builder of the screen's texts.
    pub closed spec fn components(self) -> UIComponents {
        self.components
    }

    /// The builder of the screen's texts.
    pub fn get_components(&self) -> (r: UIComponents)
        ensures
            r == self.components(),
    {
        self.components
    }

    /// The meaning of `key` in `mode`.
    pub fn decode_key(mode: AppMode, key: KeyEvent) -> (r: Command)
        ensures
            r == command_for(mode, key),
    {
        match mode {
            AppMode::Normal => match key.code {
                KeyCode::Up => Command::SelectPrevious,
                KeyCode::Down => Command::SelectNext,
                KeyCode::Enter | KeyCode::Right => Command::Activate,
                KeyCode::Esc | KeyCode::Left => Command::Back,
                KeyCode::Char(c) => {
                    if c == 'k' {
                        Command::SelectPrevious
                    } else if c == 'j' {
                        Command::SelectNext
                    } else if c == '/' {
                        Command::StartSearch
                    } else if c == 'q' {
                        Command::Quit
                    } else {
                        Command::Ignore
                    }
                },
                _ => Command::Ignore,
            },
            AppMode::Search => match key.code {
                KeyCode::Up => Command::SelectPrevious,
                KeyCode::Down => Command::SelectNext,
                KeyCode::Enter | KeyCode::Right => Command::Activate,
                KeyCode::Esc | KeyCode::Left => Command::Back,
                KeyCode::Backspace => Command::Backspace,
                KeyCode::Char(c) => {
                    if !key.control {
                        Command::Input(c)
                    } else if c == 'j' {
                        Command::SelectNext
                    } else if c == 'k' {
                        Command::SelectPrevious
                    } else {
                        Command::Ignore
                    }
                },
                _ => Command::Ignore,
            },
            AppMode::Details | AppMode::DetailsFromSearch => match key.code {
                KeyCode::Enter | KeyCode::Right => Command::Activate,
                KeyCode::Esc | KeyCode::Left => Command::Back,
                KeyCode::Char(c) => {
                    if c == 'q' {
                        Command::Quit
                    } else {
                        Command::Ignore
                    }
                },
                _ => Command::Ignore,
            },
            AppMode::LibrarySelection => Command::Ignore,
        }
    }

    /// Reacts to a key press in the session's current mode.
    pub fn handle_key_event(&self, key: KeyEvent, app: &mut App) -> (r: Action)
        ensures
            final(app)@ == step(old(app)@, command_for(old(app)@.mode, key)),
            r == action_for(old(app)@, command_for(old(app)@.mode, key)),
            old(app)@.wf() ==> final(app)@.wf(),
    {
        let cmd = Self::decode_key(app.mode, key);
        self.handle_command(cmd, app)
    }

    /// Carries out a command in the session's current mode.
    pub fn handle_command(&self, cmd: Command, app: &mut App) -> (r: Action)
        ensures
            final(app)@ == step(old(app)@, cmd),
            r == action_for(old(app)@, cmd),
            old(app)@.wf() ==> final(app)@.wf(),
    {
        match app.mode {
            AppMode::Normal => self.normal_mode_command(cmd, app),
            AppMode::Search => self.search_mode_command(cmd, app),
            AppMode::Details | AppMode::DetailsFromSearch => self.details_mode_command(cmd, app),
            AppMode::LibrarySelection => Action::Continue,
        }
    }

    /// Reacts to a key press as list browsing does.
    pub fn handle_normal_mode(&self, key: KeyEvent, app: &mut App) -> (r: Action)
        ensures
            final(app)@ == normal_step(old(app)@, normal_command(key)),
            r == normal_action(normal_command(key)),
            old(app)@.wf() && old(app)@.mode == AppMode::Normal ==> final(app)@.wf(),
    {
        let cmd = Self::decode_key(AppMode::Normal, key);
        self.normal_mode_command(cmd, app)
    }

    /// Reacts to a key press as query typing does.
    pub fn handle_search_mode(&self, key: KeyEvent, app: &mut App) -> (r: Action)
        ensures
            final(app)@ == search_step(old(app)@, search_command(key)),
            r == search_action(old(app)@, search_command(key)),
            old(app)@.wf() && old(app)@.mode == AppMode::Search ==> final(app)@.wf(),
    {
        let cmd = Self::decode_key(AppMode::Search, key);
        self.search_mode_command(cmd, app)
    }

    /// Reacts to a key press as the details view does.
    pub fn handle_details_mode(&self, key: KeyEvent, app: &mut App) -> (r: Action)
        ensures
            final(app)@ == details_step(old(app)@, details_command(key)),
            r == details_action(old(app)@, details_command(key)),
            old(app)@.wf() && (old(app)@.mode == AppMode::Details || old(app)@.mode
                == AppMode::DetailsFromSearch) ==> final(app)@.wf(),
    {
        let cmd = Self::decode_key(AppMode::Details, key);
        self.details_mode_command(cmd, app)
    }

    /// Carries out a command as list browsing does.
    pub fn normal_mode_command(&self, cmd: Command, app: &mut App) -> (r: Action)
        ensures
            final(app)@ == normal_step(old(app)@, cmd),
            r == normal_action(cmd),
            old(app)@.wf() && old(app)@.mode == AppMode::Normal ==> final(app)@.wf(),
    {
        match cmd {
            Command::SelectPrevious => {
                app.select_previous();
                Action::Continue
            },
            Command::SelectNext => {
                app.select_next();
                Action::Continue
            },
            Command::Activate => {
                app.mode = AppMode::Details;
                Action::Continue
            },
            Command::StartSearch => {
                app.mode = AppMode::Search;
                app.search_query = String::new();
                app.selected_book_index = 0;
                Action::Continue
            },
            Command::Back => {
                app.mode = AppMode::LibrarySelection;
                Action::SelectLibrary
            },
            Command::Quit => Action::Quit,
            _ => Action::Continue,
        }
    }

    /// Carries out a command as query typing does.
    pub fn search_mode_command(&self, cmd: Command, app: &mut App) -> (r: Action)
        ensures
            final(app)@ == search_step(old(app)@, cmd),
            r == search_action(old(app)@, cmd),
            old(app)@.wf() && old(app)@.mode == AppMode::Search ==> final(app)@.wf(),
    {
        match cmd {
            Command::SelectPrevious => {
                app.select_previous();
                Action::Continue
            },
            Command::SelectNext => {
                app.select_next();
                Action::Continue
            },
            Command::Activate => {
                if app.books.len() > 0 {
                    app.mode = AppMode::DetailsFromSearch;
                } else {
                    app.mode = AppMode::Search;
                }
                Action::Continue
            },
            Command::Back => {
                app.search_query = String::new();
                app.restore_all_books();
                app.mode = AppMode::Normal;
                Action::Continue
            },
            Command::Input(c) => {
                push_char(&mut app.search_query, c);
                self.perform_realtime_search(app)
            },
            Command::Backspace => {
                let _ = pop_char(&mut app.search_query);
                self.perform_realtime_search(app)
            },
            _ => Action::Continue,
        }
    }

    /// Carries out a command as the details view does.
    pub fn details_mode_command(&self, cmd: Command, app: &mut App) -> (r: Action)
        ensures
            final(app)@ == details_step(old(app)@, cmd),
            r == details_action(old(app)@, cmd),
            old(app)@.wf() && (old(app)@.mode == AppMode::Details || old(app)@.mode
                == AppMode::DetailsFromSearch) ==> final(app)@.wf(),
    {
        match cmd {
            Command::Back => {
                if app.mode == AppMode::DetailsFromSearch {
                    app.mode = AppMode::Search;
                } else {
                    app.mode = AppMode::Normal;
                }
                Action::Continue
            },
            Command::Activate => {
                if app.selected_book_index < app.books.len() {
                    Action::OpenBook
                } else {
                    Action::Continue
                }
            },
            Command::Quit => Action::Quit,
            _ => Action::Continue,
        }
    }

    /// Brings the list in line with an edited query. An empty query shows
    /// every book again, with the first selected, and needs no search; any
    /// other query asks the caller for one search and leaves the list as it
    /// is until the outcome arrives.
    pub fn perform_realtime_search(&self, app: &mut App) -> (r: Action)
        ensures
            final(app)@ == query_changed(old(app)@),
            r == (if old(app)@.query.len() == 0 {
                Action::Continue
            } else {
                Action::RunSearch
            }),
    {
        if app.search_query.as_str().unicode_len() == 0 {
            app.restore_all_books();
            Action::Continue
        } else {
            Action::RunSearch
        }
    }

    /// Takes in the outcome of the search that [`Action::RunSearch`] asked
    /// for: the matches replace the list and the first is selected; after a
    /// failed search (`None`) list and selection stay as they are.
    pub fn apply_search_result(&self, app: &mut App, outcome: Option<Vec<Book>>)
        ensures
            final(app)@ == search_applied(
                old(app)@,
                match outcome {
                    Some(found) => Some(books_view(found@)),
                    None => None,
                },
            ),
            old(app)@.wf() ==> final(app)@.wf(),
    {
        match outcome {
            Some(found) => {
                app.set_books(found);
            },
            None => {},
        }
    }
}

} // verus!
