//! The history of used libraries: one entry per path, most recently used
//! first, at most [`MAX_ENTRIES`] of them.

use vstd::prelude::*;
use vstd::string::*;
use crate::clock::{now_utc, Timestamp};
use crate::ranking::{
    added, cleaned, dedup, entry_key, first_entries, has_path, lemma_cleaned,
    lemma_cleaned_of_well_formed, lemma_dedup,
    lemma_insert_position_is, lemma_position_of, position_of, ranks_before, sort_ranked,
    well_formed,
};

verus! {

/// The most entries a history keeps.
pub const MAX_ENTRIES: usize = 20;

/// One used library, as the history remembers it.
#[derive(Debug)]
pub struct LibraryEntry {
    /// The library's directory, resolved; it identifies the entry.
    pub path: String,
    pub name: Option<String>,
    pub last_used: Timestamp,
    /// How many times the library was opened.
    pub use_count: u32,
    /// The number of books counted when it was last opened.
    pub book_count: Option<i32>,
}

/// What a [`LibraryEntry`] holds, as mathematical values.
pub struct EntryView {
    pub path: Seq<char>,
    pub name: Option<Seq<char>>,
    pub last_used: Timestamp,
    pub use_count: nat,
    pub book_count: Option<i32>,
}

/// The characters of an optional string.
pub open spec fn option_text(o: Option<String>) -> Option<Seq<char>> {
    match o {
        Some(s) => Some(s@),
        None => None,
    }
}

impl View for LibraryEntry {
    type V = EntryView;

    open spec fn view(&self) -> EntryView {
        EntryView {
            path: self.path@,
            name: option_text(self.name),
            last_used: self.last_used,
            use_count: self.use_count as nat,
            book_count: self.book_count,
        }
    }
}

/// The views of a list of entries, in order.
pub open spec fn entries_view(v: Seq<LibraryEntry>) -> Seq<EntryView> {
    v.map_values(|e: LibraryEntry| e@)
}

/// Copies an optional string.
pub fn clone_option_text(o: &Option<String>) -> (r: Option<String>)
    ensures
        option_text(r) == option_text(*o),
{
    match o {
        Some(s) => Some(s.clone()),
        None => None,
    }
}

impl Clone for LibraryEntry {
    fn clone(&self) -> (r: Self)
        ensures
            r@ == self@,
    {
        LibraryEntry {
            path: self.path.clone(),
            name: clone_option_text(&self.name),
            last_used: self.last_used,
            use_count: self.use_count,
            book_count: self.book_count,
        }
    }
}

/// Copies a list of entries.
pub fn clone_entries(v: &Vec<LibraryEntry>) -> (r: Vec<LibraryEntry>)
    ensures
        entries_view(r@) == entries_view(v@),
{
    let mut out: Vec<LibraryEntry> = Vec::new();
    let mut i: usize = 0;
    while i < v.len()
        invariant
            i <= v.len(),
            out@.len() == i,
            forall|k: int| 0 <= k < i ==> out@[k]@ == v@[k]@,
        decreases v.len() - i,
    {
        out.push(v[i].clone());
        i += 1;
    }
    assert(entries_view(out@) =~= entries_view(v@));
    out
}

/// Whether `a` belongs strictly before `b` in a history.
pub fn entry_ranks_before(a: &LibraryEntry, b: &LibraryEntry) -> (r: bool)
    ensures
        r == ranks_before(a@, b@),
{
    a.last_used.is_later_than(&b.last_used) || (a.last_used.secs == b.last_used.secs
        && a.last_used.nanos == b.last_used.nanos && a.use_count > b.use_count)
}

/// The place of the first entry of `list` with the path `path`.
pub fn find_path(list: &Vec<LibraryEntry>, path: &String) -> (r: Option<usize>)
    ensures
        match r {
            Some(i) => i < list@.len() && i == position_of(entries_view(list@), path@),
            None => position_of(entries_view(list@), path@) == list@.len(),
        },
        r is Some <==> has_path(entries_view(list@), path@),
{
    let ghost s = entries_view(list@);
    let mut i: usize = 0;
    while i < list.len()
        invariant
            i <= list.len(),
            s == entries_view(list@),
            forall|j: int| 0 <= j < i ==> (#[trigger] s[j]).path != path@,
        decreases list.len() - i,
    {
        if list[i].path == *path {
            proof {
                lemma_position_of(s, path@);
                assert(s[i as int].path == path@);
            }
            return Some(i);
        }
        i += 1;
    }
    proof {
        lemma_position_of(s, path@);
    }
    None
}

/// Cleans a list of entries: later entries of a path already seen are
/// dropped, the rest is ranked, and what stands behind the first
/// [`MAX_ENTRIES`] is cut off.
pub fn clean_entries(list: Vec<LibraryEntry>) -> (r: Vec<LibraryEntry>)
    ensures
        entries_view(r@) == cleaned(entries_view(list@)),
        well_formed(entries_view(r@)),
{
    let ghost s = entries_view(list@);
    let mut unique: Vec<LibraryEntry> = Vec::new();
    let mut i: usize = 0;
    assert(s.subrange(0, 0) =~= Seq::empty());
    assert(entries_view(unique@) =~= Seq::empty());
    while i < list.len()
        invariant
            i <= list.len(),
            s == entries_view(list@),
            entries_view(unique@) == dedup(s.subrange(0, i as int)),
        decreases list.len() - i,
    {
        let ghost before = s.subrange(0, i as int);
        let ghost upto = s.subrange(0, i + 1);
        proof {
            assert(upto.drop_last() =~= before);
            assert(upto.last() == list@[i as int]@);
            lemma_dedup(before);
        }
        let seen = find_path(&unique, &list[i].path);
        proof {
            assert(has_path(dedup(before), upto.last().path) <==> has_path(
                before,
                upto.last().path,
            ));
            assert(upto.len() > 0);
            assert(dedup(upto) == if has_path(before, upto.last().path) {
                dedup(before)
            } else {
                dedup(before).push(upto.last())
            });
        }
        if seen.is_none() {
            let ghost shown = entries_view(unique@);
            unique.push(list[i].clone());
            assert(entries_view(unique@) =~= shown.push(list@[i as int]@));
        }
        i += 1;
    }
    assert(s.subrange(0, list.len() as int) =~= s);
    let ghost d = entries_view(unique@);
    let mut sorted: Vec<LibraryEntry> = Vec::new();
    let mut n: usize = 0;
    assert(d.subrange(0, 0) =~= Seq::empty());
    assert(entries_view(sorted@) =~= Seq::empty());
    while n < unique.len()
        invariant
            n <= unique.len(),
            d == entries_view(unique@),
            entries_view(sorted@) == sort_ranked(d.subrange(0, n as int)),
        decreases unique.len() - n,
    {
        let ghost head = entries_view(sorted@);
        let ghost upto = d.subrange(0, n + 1);
        proof {
            assert(upto.drop_last() =~= d.subrange(0, n as int));
            assert(upto.last() == unique@[n as int]@);
        }
        let mut k: usize = 0;
        let mut found = false;
        while k < sorted.len() && !found
            invariant
                k <= sorted.len(),
                n < unique.len(),
                head == entries_view(sorted@),
                forall|j: int| 0 <= j < k ==> !ranks_before(unique@[n as int]@, #[trigger] head[j]),
                found ==> k < sorted.len() && ranks_before(unique@[n as int]@, head[k as int]),
            decreases sorted.len() - k + (if found { 0int } else { 1int }),
        {
            if entry_ranks_before(&unique[n], &sorted[k]) {
                found = true;
            } else {
                k += 1;
            }
        }
        proof {
            lemma_insert_position_is(head, unique@[n as int]@, k as int);
        }
        sorted.insert(k, unique[n].clone());
        assert(entries_view(sorted@) =~= head.insert(k as int, unique@[n as int]@));
        n += 1;
    }
    assert(d.subrange(0, unique.len() as int) =~= d);
    let ghost ranked_all = entries_view(sorted@);
    sorted.truncate(MAX_ENTRIES);
    assert(entries_view(sorted@) =~= first_entries(ranked_all, MAX_ENTRIES as int));
    proof {
        lemma_cleaned(s);
    }
    sorted
}

/// What was found where the history is stored.
#[derive(Debug)]
pub enum HistoryFile {
    /// Nothing is stored yet.
    Missing,
    /// What is stored cannot be read as a history.
    Malformed,
    /// The entries that are stored, in the order they are stored in.
    Parsed(Vec<LibraryEntry>),
}

/// Why a history could not be loaded.
#[derive(Debug, Clone, Copy, PartialEq, Eq, Structural)]
pub enum HistoryError {
    /// What is stored cannot be read as a history.
    Parse,
}

impl HistoryError {
    /// The error in words.
    pub fn message(&self) -> (r: String)
        ensures
            r@ == "Failed to parse history file"@,
    {
        String::from_str("Failed to parse history file")
    }
}

/// The libraries used so far, most recently used first.
#[derive(Debug)]
pub struct LibraryHistory {
    libraries: Vec<LibraryEntry>,
}

impl View for LibraryHistory {
    type V = Seq<EntryView>;

    closed spec fn view(&self) -> Seq<EntryView> {
        entries_view(self.libraries@)
    }
}

impl Clone for LibraryHistory {
    fn clone(&self) -> (r: Self)
        ensures
            r@ == self@,
    {
        proof {
            use_type_invariant(self);
        }
        LibraryHistory { libraries: clone_entries(&self.libraries) }
    }
}

impl LibraryHistory {
    /// Every history is well-formed: one entry per path, most recently used
    /// first, no more than [`MAX_ENTRIES`].
    #[verifier::type_invariant]
    spec fn ranked_and_distinct(self) -> bool {
        well_formed(entries_view(self.libraries@))
    }

    /// An empty history.
    pub fn new() -> (r: Self)
        ensures
            r@ == Seq::<EntryView>::empty(),
            well_formed(r@),
    {
        let r = LibraryHistory { libraries: Vec::new() };
        assert(r@ =~= Seq::<EntryView>::empty());
        r
    }

    /// The history made of stored entries, cleaned.
    pub fn from_entries(entries: Vec<LibraryEntry>) -> (r: Self)
        ensures
            r@ == cleaned(entries_view(entries@)),
            well_formed(r@),
    {
        LibraryHistory { libraries: clean_entries(entries) }
    }

    /// Loads the history from what was found in its store: nothing stored
    /// gives an empty history, stored entries give the cleaned history, and
    /// unreadable content is reported and gives no history.
    pub fn load(file: HistoryFile) -> (r: Result<Self, HistoryError>)
        ensures
            match file {
                HistoryFile::Missing => r is Ok && r->Ok_0@ == Seq::<EntryView>::empty(),
                HistoryFile::Malformed => r == Err::<Self, HistoryError>(HistoryError::Parse),
                HistoryFile::Parsed(entries) => r is Ok && r->Ok_0@ == cleaned(
                    entries_view(entries@),
                ),
            },
            r is Ok ==> well_formed(r->Ok_0@),
    {
        match file {
            HistoryFile::Missing => Ok(Self::new()),
            HistoryFile::Malformed => Err(HistoryError::Parse),
            HistoryFile::Parsed(entries) => Ok(Self::from_entries(entries)),
        }
    }

    /// The history cleaned: one entry per path, ranked, cut to size. A
    /// well-formed history comes back as it is.
    pub fn clean(self) -> (r: Self)
        ensures
            r@ == cleaned(self@),
            r@ == self@,
            well_formed(r@),
    {
        proof {
            use_type_invariant(&self);
            lemma_cleaned_of_well_formed(self@);
        }
        LibraryHistory { libraries: clean_entries(self.libraries) }
    }

    /// Whether a use of `path` can be counted: its entry, if it has one, has
    /// not been used as often as the counter can hold.
    pub open spec fn can_count(self, path: Seq<char>) -> bool {
        position_of(self@, path) < self@.len() ==> self@[position_of(self@, path)].use_count
            < u32::MAX
    }

    /// Whether a use of the library can be counted, so that
    /// [`LibraryHistory::add_library`] can be called for it.
    pub fn can_add_library(&self, path: &String, canonical: &Option<String>) -> (r: bool)
        ensures
            r == self.can_count(entry_key(path@, option_text(*canonical))),
    {
        let found = match canonical {
            Some(c) => find_path(&self.libraries, c),
            None => find_path(&self.libraries, path),
        };
        match found {
            Some(i) => self.libraries[i].use_count < u32::MAX,
            None => true,
        }
    }

    /// Writes down one use of a library, now. `canonical` is the resolved
    /// form of `path`, or `None` where resolving it failed; the entry is kept
    /// under the resolved form where there is one. The instant that is
    /// stamped is the clock's reading, of which only this is known: it lies
    /// in the calendar. All else is as [`LibraryHistory::add_library_at`]
    /// does it with that instant.
    pub fn add_library(
        &mut self,
        path: &String,
        canonical: Option<String>,
        name: Option<String>,
        book_count: Option<i32>,
    )
        requires
            old(self).can_count(entry_key(path@, option_text(canonical))),
        ensures
            exists|now: Timestamp|
                now.in_calendar() && final(self)@ == #[trigger] added(
                    old(self)@,
                    entry_key(path@, option_text(canonical)),
                    option_text(name),
                    book_count,
                    now,
                ),
            well_formed(final(self)@),
    {
        let now = now_utc();
        self.add_library_at(path, canonical, name, book_count, now);
    }

    /// Writes down one use of a library at the instant `now`: the entry of
    /// the path is touched, or a first entry is made, and the history is
    /// cleaned.
    pub fn add_library_at(
        &mut self,
        path: &String,
        canonical: Option<String>,
        name: Option<String>,
        book_count: Option<i32>,
        now: Timestamp,
    )
        requires
            old(self).can_count(entry_key(path@, option_text(canonical))),
        ensures
            final(self)@ == added(
                old(self)@,
                entry_key(path@, option_text(canonical)),
                option_text(name),
                book_count,
                now,
            ),
            well_formed(final(self)@),
    {
        let key = match canonical {
            Some(c) => c,
            None => path.clone(),
        };
        let mut list = clone_entries(&self.libraries);
        let ghost shown = entries_view(list@);
        match find_path(&list, &key) {
            Some(i) => {
                let entry = LibraryEntry {
                    path: list[i].path.clone(),
                    name: if name.is_some() {
                        name
                    } else {
                        clone_option_text(&list[i].name)
                    },
                    last_used: now,
                    use_count: list[i].use_count + 1,
                    book_count: if book_count.is_some() {
                        book_count
                    } else {
                        list[i].book_count
                    },
                };
                let ghost touched_entry = entry@;
                list.set(i, entry);
                assert(entries_view(list@) =~= shown.update(i as int, touched_entry));
            },
            None => {
                let entry = LibraryEntry {
                    path: key,
                    name,
                    last_used: now,
                    use_count: 1,
                    book_count,
                };
                let ghost first = entry@;
                list.push(entry);
                assert(entries_view(list@) =~= shown.push(first));
            },
        }
        self.libraries = clean_entries(list);
    }

    /// The entries, most recently used first.
    pub fn get_libraries(&self) -> (r: &[LibraryEntry])
        ensures
            entries_view(r@) == self@,
            well_formed(self@),
    {
        proof {
            use_type_invariant(self);
        }
        self.libraries.as_slice()
    }

    /// The entry at `index`, or `None` past the end.
    pub fn get_library(&self, index: usize) -> (r: Option<&LibraryEntry>)
        ensures
            index < self@.len() ==> r is Some && r->Some_0@ == self@[index as int],
            index >= self@.len() ==> r is None,
    {
        if index < self.libraries.len() {
            Some(&self.libraries[index])
        } else {
            None
        }
    }

    /// Whether the history has any entry.
    pub fn has_libraries(&self) -> (r: bool)
        ensures
            r == (self@.len() > 0),
            self@.len() <= MAX_ENTRIES,
    {
        proof {
            use_type_invariant(self);
        }
        self.libraries.len() > 0
    }

    /// Removes the entry at `index` and says whether there was one, in which
    /// case the history is to be stored again. Past the end nothing changes.
    /// The entries that stay keep their order.
    pub fn remove_library(&mut self, index: usize) -> (r: bool)
        ensures
            r == (index < old(self)@.len()),
            r ==> final(self)@ == old(self)@.remove(index as int),
            !r ==> final(self)@ == old(self)@,
            final(self)@ == cleaned(final(self)@),
            well_formed(final(self)@),
    {
        proof {
            use_type_invariant(&*self);
        }
        if index < self.libraries.len() {
            let mut list = clone_entries(&self.libraries);
            let ghost before = entries_view(list@);
            let _ = list.remove(index);
            proof {
                assert(entries_view(list@) =~= before.remove(index as int));
                assert(well_formed(before.remove(index as int)));
                lemma_cleaned_of_well_formed(entries_view(list@));
            }
            self.libraries = list;
            true
        } else {
            proof {
                lemma_cleaned_of_well_formed(self@);
            }
            false
        }
    }
}

/// Writes into the history, now, that the library at `library_path` was
/// opened with `book_total` books, the count kept as a 32-bit number holds
/// it; the history is then to be stored.
/// `canonical` is the resolved form of the path, or `None` where resolving
/// it failed, and `library_name` the last component of the path, where it
/// has one.
pub fn save_library_to_history(
    history: &mut LibraryHistory,
    library_path: &String,
    canonical: Option<String>,
    library_name: Option<String>,
    book_total: usize,
)
    requires
        old(history).can_count(entry_key(library_path@, option_text(canonical))),
    ensures
        exists|now: Timestamp|
            now.in_calendar() && final(history)@ == #[trigger] added(
                old(history)@,
                entry_key(library_path@, option_text(canonical)),
                option_text(library_name),
                Some(book_total as i32),
                now,
            ),
        well_formed(final(history)@),
{
    let ghost before = history@;
    let ghost key = entry_key(library_path@, option_text(canonical));
    let ghost name = option_text(library_name);
    let book_count = Some(#[verifier::truncate] (book_total as i32));
    history.add_library(library_path, canonical, library_name, book_count);
    proof {
        let now = choose|now: Timestamp|
            now.in_calendar() && history@ == #[trigger] added(before, key, name, book_count, now);
        assert(now.in_calendar() && history@ == added(
            old(history)@,
            entry_key(library_path@, option_text(canonical)),
            option_text(library_name),
            Some(book_total as i32),
            now,
        ));
    }
}

} // verus!
