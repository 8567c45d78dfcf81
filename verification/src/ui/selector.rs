//! Library discovery: the candidate libraries of one selection session,
//! those of the history first, then those a scan of the disk found, and the
//! part of them that matches a search query.

use vstd::prelude::*;
use vstd::string::*;
use crate::clock::{format_minute, utc_minute_text};
use crate::history::{
    clone_option_text, entries_view, option_text, EntryView, HistoryFile, LibraryEntry,
    LibraryHistory,
};
use crate::ranking::{added, cleaned, entry_key, well_formed};
use crate::text::{
    contains, contains_text, lowercase_text, strings_view, to_lowercase, unknown_name,
};

verus! {

/// One candidate library, as the selection screen shows it.
#[derive(Debug)]
pub struct LibraryInfo {
    pub path: String,
    /// The name shown for it.
    pub name: String,
    pub book_count: Option<i32>,
    /// Whether the history knows it.
    pub from_history: bool,
    /// When it was last used, as text; only for one the history knows.
    pub last_used: Option<String>,
}

/// What a [`LibraryInfo`] holds, as mathematical values.
pub struct InfoView {
    pub path: Seq<char>,
    pub name: Seq<char>,
    pub book_count: Option<i32>,
    pub from_history: bool,
    pub last_used: Option<Seq<char>>,
}

impl View for LibraryInfo {
    type V = InfoView;

    open spec fn view(&self) -> InfoView {
        InfoView {
            path: self.path@,
            name: self.name@,
            book_count: self.book_count,
            from_history: self.from_history,
            last_used: option_text(self.last_used),
        }
    }
}

impl Clone for LibraryInfo {
    fn clone(&self) -> (r: Self)
        ensures
            r@ == self@,
    {
        LibraryInfo {
            path: self.path.clone(),
            name: self.name.clone(),
            book_count: self.book_count,
            from_history: self.from_history,
            last_used: clone_option_text(&self.last_used),
        }
    }
}

/// The views of a list of candidates, in order.
pub open spec fn infos_view(v: Seq<LibraryInfo>) -> Seq<InfoView> {
    v.map_values(|i: LibraryInfo| i@)
}

/// What a look at the disk told of one history entry.
#[derive(Debug)]
pub struct HistoryProbe {
    /// The entry's directory is still there and still holds the catalog's
    /// marker file.
    pub is_library: bool,
    /// The last component of the entry's path, where it has one that is
    /// text.
    pub file_name: Option<String>,
    /// The entry's path resolved, or `None` where resolving it failed.
    pub canonical: Option<String>,
}

/// What a [`HistoryProbe`] holds, as mathematical values.
pub struct ProbeView {
    pub is_library: bool,
    pub file_name: Option<Seq<char>>,
    pub canonical: Option<Seq<char>>,
}

impl View for HistoryProbe {
    type V = ProbeView;

    open spec fn view(&self) -> ProbeView {
        ProbeView {
            is_library: self.is_library,
            file_name: option_text(self.file_name),
            canonical: option_text(self.canonical),
        }
    }
}

/// The views of a list of probes, in order.
pub open spec fn probes_view(v: Seq<HistoryProbe>) -> Seq<ProbeView> {
    v.map_values(|p: HistoryProbe| p@)
}

/// One entry that a scan root lists, with what a look at it told.
#[derive(Debug)]
pub struct ScanCandidate {
    pub path: String,
    pub is_dir: bool,
    /// The path resolved, or `None` where resolving it failed.
    pub canonical: Option<String>,
    /// The directory holds the catalog's marker file.
    pub has_marker: bool,
    /// The last component of the path, where it has one that is text.
    pub file_name: Option<String>,
    /// The number of books counted in it, or `None` where counting failed.
    pub book_count: Option<i32>,
}

/// What a [`ScanCandidate`] holds, as mathematical values.
pub struct CandidateView {
    pub path: Seq<char>,
    pub is_dir: bool,
    pub canonical: Option<Seq<char>>,
    pub has_marker: bool,
    pub file_name: Option<Seq<char>>,
    pub book_count: Option<i32>,
}

impl View for ScanCandidate {
    type V = CandidateView;

    open spec fn view(&self) -> CandidateView {
        CandidateView {
            path: self.path@,
            is_dir: self.is_dir,
            canonical: option_text(self.canonical),
            has_marker: self.has_marker,
            file_name: option_text(self.file_name),
            book_count: self.book_count,
        }
    }
}

/// The views of the entries of one scan root, in order.
pub open spec fn candidates_view(v: Seq<ScanCandidate>) -> Seq<CandidateView> {
    v.map_values(|c: ScanCandidate| c@)
}

/// The views of the entries of every scan root, root by root.
pub open spec fn scans_view(v: Seq<Vec<ScanCandidate>>) -> Seq<Seq<CandidateView>> {
    v.map_values(|root: Vec<ScanCandidate>| candidates_view(root@))
}

/// A candidate together with the resolved path it is known under.
pub struct Found {
    pub info: InfoView,
    pub key: Seq<char>,
}

/// The candidates of a list of found libraries.
pub open spec fn found_infos(f: Seq<Found>) -> Seq<InfoView> {
    f.map_values(|x: Found| x.info)
}

/// The resolved paths of a list of found libraries.
pub open spec fn found_keys(f: Seq<Found>) -> Seq<Seq<char>> {
    f.map_values(|x: Found| x.key)
}

/// The candidate made of a history entry: it shows the entry's name, else
/// the last component of its path, else `Unknown`; it carries the entry's
/// book count and the minute it was last used.
pub open spec fn found_in_history(e: EntryView, p: ProbeView) -> Found {
    Found {
        info: InfoView {
            path: e.path,
            name: match e.name {
                Some(n) => n,
                None => match p.file_name {
                    Some(f) => f,
                    None => unknown_name(),
                },
            },
            book_count: e.book_count,
            from_history: true,
            last_used: utc_minute_text(e.last_used.secs, e.last_used.nanos),
        },
        key: entry_key(e.path, p.canonical),
    }
}

/// The candidates that the history gives: one for each entry whose probe
/// says that it is still a library, in the history's order. An entry
/// without a probe counts as gone.
pub open spec fn history_found(entries: Seq<EntryView>, probes: Seq<ProbeView>) -> Seq<Found>
    decreases entries.len(),
{
    if entries.len() == 0 {
        Seq::empty()
    } else {
        let rest = history_found(entries.drop_last(), probes);
        let i = entries.len() - 1;
        if i < probes.len() && probes[i].is_library {
            rest.push(found_in_history(entries[i], probes[i]))
        } else {
            rest
        }
    }
}

/// The candidate made of a directory that a scan found: it shows the last
/// component of its path, else the path itself.
pub open spec fn found_by_scan(c: CandidateView) -> Found {
    Found {
        info: InfoView {
            path: c.path,
            name: match c.file_name {
                Some(f) => f,
                None => c.path,
            },
            book_count: c.book_count,
            from_history: false,
            last_used: None,
        },
        key: entry_key(c.path, c.canonical),
    }
}

/// Whether a scan takes an entry of a root as a new candidate: it is a
/// directory with the marker file whose resolved path no candidate of the
/// history has.
pub open spec fn scan_accepts(history_keys: Seq<Seq<char>>, c: CandidateView) -> bool {
    c.is_dir && c.has_marker && !history_keys.contains(entry_key(c.path, c.canonical))
}

/// The candidates that the scan of one root adds, in the root's order.
pub open spec fn scan_found(history_keys: Seq<Seq<char>>, root: Seq<CandidateView>) -> Seq<Found>
    decreases root.len(),
{
    if root.len() == 0 {
        Seq::empty()
    } else {
        let rest = scan_found(history_keys, root.drop_last());
        if scan_accepts(history_keys, root.last()) {
            rest.push(found_by_scan(root.last()))
        } else {
            rest
        }
    }
}

/// The candidates that the scans of all roots add, root after root.
pub open spec fn scans_found(history_keys: Seq<Seq<char>>, roots: Seq<Seq<CandidateView>>) -> Seq<
    Found,
>
    decreases roots.len(),
{
    if roots.len() == 0 {
        Seq::empty()
    } else {
        scans_found(history_keys, roots.drop_last()) + scan_found(history_keys, roots.last())
    }
}

/// The result of one discovery pass: the candidates of the history in the
/// history's order, then those of the scans in the order they were found.
pub open spec fn discovered(
    entries: Seq<EntryView>,
    probes: Seq<ProbeView>,
    roots: Seq<Seq<CandidateView>>,
) -> Seq<Found> {
    let from_history = history_found(entries, probes);
    from_history + scans_found(found_keys(from_history), roots)
}

/// Whether a candidate matches a search term that is in lower case already:
/// its name or its path holds the term, letter case aside.
pub open spec fn matches_term(info: InfoView, term: Seq<char>) -> bool {
    contains_text(lowercase_text(info.name), term) || contains_text(
        lowercase_text(info.path),
        term,
    )
}

/// The candidates of `known` that match the term, in their order.
pub open spec fn matching(known: Seq<InfoView>, term: Seq<char>) -> Seq<InfoView>
    decreases known.len(),
{
    if known.len() == 0 {
        Seq::empty()
    } else {
        let rest = matching(known.drop_last(), term);
        if matches_term(known.last(), term) {
            rest.push(known.last())
        } else {
            rest
        }
    }
}

/// The candidates shown under a query: all of them under the empty query,
/// else those that match it.
pub open spec fn filtered(known: Seq<InfoView>, query: Seq<char>) -> Seq<InfoView> {
    if query.len() == 0 {
        known
    } else {
        matching(known, lowercase_text(query))
    }
}

/// No candidate of the history is tagged as found by a scan.
pub proof fn lemma_history_found(entries: Seq<EntryView>, probes: Seq<ProbeView>)
    ensures
        history_found(entries, probes).len() <= entries.len(),
        forall|i: int|
            0 <= i < history_found(entries, probes).len() ==> (#[trigger] history_found(
                entries,
                probes,
            )[i]).info.from_history,
    decreases entries.len(),
{
    if entries.len() > 0 {
        lemma_history_found(entries.drop_last(), probes);
    }
}

/// What the scan of one root adds is not tagged as known to the history,
/// and its resolved path is none that a candidate of the history has.
pub proof fn lemma_scan_found(history_keys: Seq<Seq<char>>, root: Seq<CandidateView>)
    ensures
        forall|i: int|
            0 <= i < scan_found(history_keys, root).len() ==> !(#[trigger] scan_found(
                history_keys,
                root,
            )[i]).info.from_history && !history_keys.contains(
                scan_found(history_keys, root)[i].key,
            ),
    decreases root.len(),
{
    if root.len() > 0 {
        lemma_scan_found(history_keys, root.drop_last());
    }
}

/// The same of what the scans of all roots add.
pub proof fn lemma_scans_found(history_keys: Seq<Seq<char>>, roots: Seq<Seq<CandidateView>>)
    ensures
        forall|i: int|
            0 <= i < scans_found(history_keys, roots).len() ==> !(#[trigger] scans_found(
                history_keys,
                roots,
            )[i]).info.from_history && !history_keys.contains(
                scans_found(history_keys, roots)[i].key,
            ),
    decreases roots.len(),
{
    if roots.len() > 0 {
        lemma_scans_found(history_keys, roots.drop_last());
        lemma_scan_found(history_keys, roots.last());
    }
}

/// A library that the history knows appears exactly once in the result of
/// a discovery pass, tagged as known to the history, however often the
/// scans reach it: no other candidate has its resolved path. This is stated
/// of a history whose candidates have resolved paths that differ from each
/// other; two entries that resolve to one directory are both shown.
pub proof fn lemma_history_library_appears_once(
    entries: Seq<EntryView>,
    probes: Seq<ProbeView>,
    roots: Seq<Seq<CandidateView>>,
    i: int,
)
    requires
        0 <= i < history_found(entries, probes).len(),
        forall|a: int, b: int|
            0 <= a < b < history_found(entries, probes).len() ==> (#[trigger] history_found(
                entries,
                probes,
            )[a]).key != (#[trigger] history_found(entries, probes)[b]).key,
    ensures
        i < discovered(entries, probes, roots).len(),
        discovered(entries, probes, roots)[i] == history_found(entries, probes)[i],
        discovered(entries, probes, roots)[i].info.from_history,
        forall|p: int|
            0 <= p < discovered(entries, probes, roots).len() && (#[trigger] discovered(
                entries,
                probes,
                roots,
            )[p]).key == history_found(entries, probes)[i].key ==> p == i,
{
    let h = history_found(entries, probes);
    let keys = found_keys(h);
    let sc = scans_found(keys, roots);
    let d = discovered(entries, probes, roots);
    lemma_history_found(entries, probes);
    lemma_scans_found(keys, roots);
    assert(keys[i] == h[i].key);
    assert(keys.contains(h[i].key));
    assert forall|p: int| 0 <= p < d.len() && (#[trigger] d[p]).key == h[i].key implies p == i by {
        if p < h.len() {
            assert(d[p] == h[p]);
        } else {
            assert(d[p] == sc[p - h.len()]);
        }
    }
}

/// In the result of a discovery pass the libraries that the history knows
/// come first: none stands behind one that a scan found.
pub proof fn lemma_history_comes_first(
    entries: Seq<EntryView>,
    probes: Seq<ProbeView>,
    roots: Seq<Seq<CandidateView>>,
)
    ensures
        forall|i: int, j: int|
            0 <= i < j < discovered(entries, probes, roots).len() && (#[trigger] discovered(
                entries,
                probes,
                roots,
            )[j]).info.from_history ==> (#[trigger] discovered(
                entries,
                probes,
                roots,
            )[i]).info.from_history,
{
    let h = history_found(entries, probes);
    let sc = scans_found(found_keys(h), roots);
    let d = discovered(entries, probes, roots);
    lemma_history_found(entries, probes);
    lemma_scans_found(found_keys(h), roots);
    assert forall|i: int, j: int|
        0 <= i < j < d.len() && (#[trigger] d[j]).info.from_history implies (#[trigger] d[i]).info.from_history by {
        if j >= h.len() {
            assert(d[j] == sc[j - h.len()]);
        }
        assert(d[i] == h[i]);
    }
}

/// The candidates of one selection session.
#[derive(Debug)]
pub struct LibrarySelector {
    known_libraries: Vec<LibraryInfo>,
    history_keys: Vec<String>,
    history: LibraryHistory,
    search_query: String,
    filtered_libraries: Vec<LibraryInfo>,
}

/// What a [`LibrarySelector`] holds, as mathematical values.
pub struct SelectorView {
    /// The candidates found so far.
    pub known: Seq<InfoView>,
    /// The resolved paths of the candidates that the history gave.
    pub history_keys: Seq<Seq<char>>,
    pub history: Seq<EntryView>,
    pub query: Seq<char>,
    /// The candidates shown under the query.
    pub filtered: Seq<InfoView>,
}

impl View for LibrarySelector {
    type V = SelectorView;

    closed spec fn view(&self) -> SelectorView {
        SelectorView {
            known: infos_view(self.known_libraries@),
            history_keys: strings_view(self.history_keys@),
            history: self.history@,
            query: self.search_query@,
            filtered: infos_view(self.filtered_libraries@),
        }
    }
}

/// Copies a list of candidates.
pub fn clone_infos(v: &Vec<LibraryInfo>) -> (r: Vec<LibraryInfo>)
    ensures
        infos_view(r@) == infos_view(v@),
{
    let mut out: Vec<LibraryInfo> = Vec::new();
    let mut i: usize = 0;
    while i < v.len()
        invariant
            i <= v.len(),
            out@.len() == i,
            forall|k: int| 0 <= k < i ==> out@[k]@ == v@[k]@,
        decreases v.len() - i,
    {
        out.push(v[i].clone());
        i += 1;
    }
    assert(infos_view(out@) =~= infos_view(v@));
    out
}

/// Whether `keys` holds `key`.
pub fn holds_key(keys: &Vec<String>, key: &String) -> (r: bool)
    ensures
        r == strings_view(keys@).contains(key@),
{
    let ghost s = strings_view(keys@);
    let mut i: usize = 0;
    while i < keys.len()
        invariant
            i <= keys.len(),
            s == strings_view(keys@),
            forall|j: int| 0 <= j < i ==> s[j] != key@,
        decreases keys.len() - i,
    {
        if keys[i] == *key {
            assert(s[i as int] == key@);
            return true;
        }
        i += 1;
    }
    false
}

/// The candidates of `known` that the query shows.
pub fn filter_infos(known: &Vec<LibraryInfo>, query: &String) -> (r: Vec<LibraryInfo>)
    ensures
        infos_view(r@) == filtered(infos_view(known@), query@),
{
    if query.as_str().unicode_len() == 0 {
        return clone_infos(known);
    }
    let term = to_lowercase(query.as_str());
    let ghost all = infos_view(known@);
    let mut out: Vec<LibraryInfo> = Vec::new();
    let mut i: usize = 0;
    assert(all.subrange(0, 0) =~= Seq::empty());
    assert(infos_view(out@) =~= Seq::empty());
    while i < known.len()
        invariant
            i <= known.len(),
            all == infos_view(known@),
            infos_view(out@) == matching(all.subrange(0, i as int), term@),
        decreases known.len() - i,
    {
        let ghost upto = all.subrange(0, i + 1);
        proof {
            assert(upto.drop_last() =~= all.subrange(0, i as int));
            assert(upto.last() == known@[i as int]@);
        }
        let name = to_lowercase(known[i].name.as_str());
        let path = to_lowercase(known[i].path.as_str());
        if contains(name.as_str(), term.as_str()) || contains(path.as_str(), term.as_str()) {
            let ghost shown = infos_view(out@);
            out.push(known[i].clone());
            assert(infos_view(out@) =~= shown.push(known@[i as int]@));
        }
        i += 1;
    }
    assert(all.subrange(0, known.len() as int) =~= all);
    out
}

impl LibrarySelector {
    /// A selection session on the history that was found in its store. A
    /// history that cannot be read counts as empty, as does one that is not
    /// there.
    pub fn new(file: HistoryFile) -> (r: Self)
        ensures
            r@ == (SelectorView {
                known: Seq::empty(),
                history_keys: Seq::empty(),
                history: match file {
                    HistoryFile::Parsed(entries) => cleaned(entries_view(entries@)),
                    _ => Seq::empty(),
                },
                query: Seq::empty(),
                filtered: Seq::empty(),
            }),
            well_formed(r@.history),
    {
        let history = match LibraryHistory::load(file) {
            Ok(h) => h,
            Err(_) => LibraryHistory::new(),
        };
        Self::with_history(history)
    }

    /// A selection session on a history.
    pub fn with_history(history: LibraryHistory) -> (r: Self)
        ensures
            r@ == (SelectorView {
                known: Seq::empty(),
                history_keys: Seq::empty(),
                history: history@,
                query: Seq::empty(),
                filtered: Seq::empty(),
            }),
    {
        let r = LibrarySelector {
            known_libraries: Vec::new(),
            history_keys: Vec::new(),
            history,
            search_query: String::new(),
            filtered_libraries: Vec::new(),
        };
        assert(r@.known =~= Seq::empty());
        assert(r@.history_keys =~= Seq::empty());
        assert(r@.filtered =~= Seq::empty());
        r
    }

    /// One discovery pass. `probes` tells of each history entry, in the
    /// history's order, what a look at the disk found; `scans` lists the
    /// entries of each scan root. Afterwards the candidates are those of the
    /// history, then those of the scans, and the query shows its part of
    /// them.
    pub fn discover_libraries(
        &mut self,
        probes: &Vec<HistoryProbe>,
        scans: &Vec<Vec<ScanCandidate>>,
    )
        ensures
            final(self)@.known == found_infos(
                discovered(old(self)@.history, probes_view(probes@), scans_view(scans@)),
            ),
            final(self)@.history_keys == found_keys(
                history_found(old(self)@.history, probes_view(probes@)),
            ),
            final(self)@.filtered == filtered(final(self)@.known, old(self)@.query),
            final(self)@.history == old(self)@.history,
            final(self)@.query == old(self)@.query,
    {
        self.known_libraries = Vec::new();
        self.history_keys = Vec::new();
        assert(infos_view(self.known_libraries@) =~= Seq::empty());
        assert(strings_view(self.history_keys@) =~= Seq::empty());
        self.add_history_libraries(probes);
        let ghost from_history = history_found(old(self)@.history, probes_view(probes@));
        let ghost keys = found_keys(from_history);
        let ghost roots = scans_view(scans@);
        assert(self@.known =~= found_infos(from_history));
        assert(self@.history_keys =~= keys);
        let mut i: usize = 0;
        assert(roots.subrange(0, 0) =~= Seq::empty());
        assert(found_infos(from_history + Seq::<Found>::empty()) =~= found_infos(from_history));
        while i < scans.len()
            invariant
                i <= scans.len(),
                roots == scans_view(scans@),
                keys == found_keys(from_history),
                self@.history_keys == keys,
                self@.history == old(self)@.history,
                self@.query == old(self)@.query,
                self@.known == found_infos(
                    from_history + scans_found(keys, roots.subrange(0, i as int)),
                ),
            decreases scans.len() - i,
        {
            let ghost upto = roots.subrange(0, i + 1);
            let ghost before = scans_found(keys, roots.subrange(0, i as int));
            proof {
                assert(upto.drop_last() =~= roots.subrange(0, i as int));
                assert(upto.last() == candidates_view(scans@[i as int]@));
            }
            self.search_directory(&scans[i]);
            assert(found_infos(from_history + before) + found_infos(
                scan_found(keys, upto.last()),
            ) =~= found_infos(from_history + (before + scan_found(keys, upto.last()))));
            i += 1;
        }
        assert(roots.subrange(0, scans.len() as int) =~= roots);
        self.update_filtered_libraries();
    }

    /// Adds the candidates that the history gives.
    pub fn add_history_libraries(&mut self, probes: &Vec<HistoryProbe>)
        ensures
            final(self)@.known == old(self)@.known + found_infos(
                history_found(old(self)@.history, probes_view(probes@)),
            ),
            final(self)@.history_keys == old(self)@.history_keys + found_keys(
                history_found(old(self)@.history, probes_view(probes@)),
            ),
            final(self)@.history == old(self)@.history,
            final(self)@.query == old(self)@.query,
            final(self)@.filtered == old(self)@.filtered,
    {
        let ghost entries = self.history@;
        let ghost shown = probes_view(probes@);
        let ghost known0 = self@.known;
        let ghost keys0 = self@.history_keys;
        let count = self.history.get_libraries().len();
        let mut i: usize = 0;
        assert(entries.subrange(0, 0) =~= Seq::empty());
        assert(known0 + found_infos(Seq::<Found>::empty()) =~= known0);
        assert(keys0 + found_keys(Seq::<Found>::empty()) =~= keys0);
        while i < count
            invariant
                i <= count,
                count == entries.len(),
                entries == self.history@,
                entries == old(self)@.history,
                shown == probes_view(probes@),
                self@.query == old(self)@.query,
                self@.filtered == old(self)@.filtered,
                self@.known == known0 + found_infos(
                    history_found(entries.subrange(0, i as int), shown),
                ),
                self@.history_keys == keys0 + found_keys(
                    history_found(entries.subrange(0, i as int), shown),
                ),
            decreases count - i,
        {
            let ghost upto = entries.subrange(0, i + 1);
            let ghost before = history_found(entries.subrange(0, i as int), shown);
            proof {
                assert(upto.drop_last() =~= entries.subrange(0, i as int));
                assert(upto.last() == entries[i as int]);
                assert(upto.len() - 1 == i);
            }
            if i < probes.len() && probes[i].is_library {
                match self.history.get_library(i) {
                    Some(entry) => {
                        let probe = &probes[i];
                        assert(probe@ == shown[i as int]);
                        let name = match &entry.name {
                            Some(n) => n.clone(),
                            None => match &probe.file_name {
                                Some(f) => f.clone(),
                                None => {
                                    proof {
                                        reveal_strlit("Unknown");
                                        assert("Unknown"@ =~= unknown_name());
                                    }
                                    String::from_str("Unknown")
                                },
                            },
                        };
                        let info = LibraryInfo {
                            path: entry.path.clone(),
                            name,
                            book_count: entry.book_count,
                            from_history: true,
                            last_used: format_minute(entry.last_used),
                        };
                        let key = match &probe.canonical {
                            Some(c) => c.clone(),
                            None => entry.path.clone(),
                        };
                        let ghost found = found_in_history(entries[i as int], shown[i as int]);
                        assert(info@ == found.info);
                        assert(key@ == found.key);
                        let ghost known1 = self@.known;
                        let ghost keys1 = self@.history_keys;
                        self.known_libraries.push(info);
                        self.history_keys.push(key);
                        proof {
                            assert(self@.known =~= known1.push(found.info));
                            assert(self@.history_keys =~= keys1.push(found.key));
                            assert(found_infos(before.push(found)) =~= found_infos(before).push(
                                found.info,
                            ));
                            assert(found_keys(before.push(found)) =~= found_keys(before).push(
                                found.key,
                            ));
                            assert(history_found(upto, shown) == before.push(found));
                        }
                        assert(self@.known =~= known0 + found_infos(before.push(found)));
                        assert(self@.history_keys =~= keys0 + found_keys(before.push(found)));
                    },
                    None => {},
                }
            }
            i += 1;
        }
        assert(entries.subrange(0, count as int) =~= entries);
    }

    /// Adds the candidates that the scan of one root gives: each directory
    /// with the marker file whose resolved path no candidate of the history
    /// has.
    pub fn search_directory(&mut self, candidates: &Vec<ScanCandidate>)
        ensures
            final(self)@.known == old(self)@.known + found_infos(
                scan_found(old(self)@.history_keys, candidates_view(candidates@)),
            ),
            final(self)@.history_keys == old(self)@.history_keys,
            final(self)@.history == old(self)@.history,
            final(self)@.query == old(self)@.query,
            final(self)@.filtered == old(self)@.filtered,
    {
        let ghost root = candidates_view(candidates@);
        let ghost known0 = self@.known;
        let ghost keys = self@.history_keys;
        let mut i: usize = 0;
        assert(root.subrange(0, 0) =~= Seq::empty());
        assert(known0 + found_infos(Seq::<Found>::empty()) =~= known0);
        while i < candidates.len()
            invariant
                i <= candidates.len(),
                root == candidates_view(candidates@),
                self@.history_keys == keys,
                keys == old(self)@.history_keys,
                self@.history == old(self)@.history,
                self@.query == old(self)@.query,
                self@.filtered == old(self)@.filtered,
                self@.known == known0 + found_infos(scan_found(keys, root.subrange(0, i as int))),
            decreases candidates.len() - i,
        {
            let ghost upto = root.subrange(0, i + 1);
            let ghost before = scan_found(keys, root.subrange(0, i as int));
            proof {
                assert(upto.drop_last() =~= root.subrange(0, i as int));
                assert(upto.last() == candidates@[i as int]@);
            }
            let c = &candidates[i];
            if c.is_dir && c.has_marker {
                let key = match &c.canonical {
                    Some(k) => k.clone(),
                    None => c.path.clone(),
                };
                if !holds_key(&self.history_keys, &key) {
                    let info = LibraryInfo {
                        path: c.path.clone(),
                        name: match &c.file_name {
                            Some(f) => f.clone(),
                            None => c.path.clone(),
                        },
                        book_count: c.book_count,
                        from_history: false,
                        last_used: None,
                    };
                    let ghost found = found_by_scan(c@);
                    assert(info@ == found.info);
                    let ghost known1 = self@.known;
                    self.known_libraries.push(info);
                    proof {
                        assert(self@.known =~= known1.push(found.info));
                        assert(found_infos(before.push(found)) =~= found_infos(before).push(
                            found.info,
                        ));
                    }
                    assert(self@.known =~= known0 + found_infos(before.push(found)));
                }
            }
            i += 1;
        }
        assert(root.subrange(0, candidates.len() as int) =~= root);
    }

    /// Brings the shown candidates in line with the query.
    pub fn update_filtered_libraries(&mut self)
        ensures
            final(self)@ == (SelectorView {
                filtered: filtered(old(self)@.known, old(self)@.query),
                ..old(self)@
            }),
    {
        self.filtered_libraries = filter_infos(&self.known_libraries, &self.search_query);
    }

    /// The candidates found, those of the history first.
    pub fn get_libraries(&self) -> (r: &[LibraryInfo])
        ensures
            infos_view(r@) == self@.known,
    {
        self.known_libraries.as_slice()
    }

    /// The candidate at `index`, or `None` past the end.
    pub fn get_library(&self, index: usize) -> (r: Option<&LibraryInfo>)
        ensures
            index < self@.known.len() ==> r is Some && r->Some_0@ == self@.known[index as int],
            index >= self@.known.len() ==> r is None,
    {
        if index < self.known_libraries.len() {
            Some(&self.known_libraries[index])
        } else {
            None
        }
    }

    /// Whether any candidate was found.
    pub fn has_libraries(&self) -> (r: bool)
        ensures
            r == (self@.known.len() > 0),
    {
        self.known_libraries.len() > 0
    }

    /// The history of this session.
    pub fn get_history(&self) -> (r: &LibraryHistory)
        ensures
            r@ == self@.history,
    {
        &self.history
    }

    /// Writes the use of the chosen library into the history, now; the
    /// history is then to be stored. `canonical` is the resolved form of
    /// `library_path`, or `None` where resolving it failed, and `book_count`
    /// the number of books counted in it, or `None` where counting failed.
    pub fn save_to_history(
        &mut self,
        library_path: &String,
        canonical: Option<String>,
        library_name: Option<String>,
        book_count: Option<i32>,
    )
        requires
            old(self).can_count(entry_key(library_path@, option_text(canonical))),
        ensures
            exists|now: crate::clock::Timestamp|
                now.in_calendar() && final(self)@.history == #[trigger] added(
                    old(self)@.history,
                    entry_key(library_path@, option_text(canonical)),
                    option_text(library_name),
                    book_count,
                    now,
                ),
            well_formed(final(self)@.history),
            final(self)@.known == old(self)@.known,
            final(self)@.history_keys == old(self)@.history_keys,
            final(self)@.query == old(self)@.query,
            final(self)@.filtered == old(self)@.filtered,
    {
        let ghost before = self.history@;
        let ghost key = entry_key(library_path@, option_text(canonical));
        let ghost name = option_text(library_name);
        self.history.add_library(library_path, canonical, library_name, book_count);
        proof {
            let now = choose|now: crate::clock::Timestamp|
                now.in_calendar() && self.history@ == #[trigger] added(
                    before,
                    key,
                    name,
                    book_count,
                    now,
                );
            assert(self@.history == added(before, key, name, book_count, now));
            assert(before == old(self)@.history);
            assert(now.in_calendar() && self@.history == added(
                old(self)@.history,
                entry_key(library_path@, option_text(canonical)),
                option_text(library_name),
                book_count,
                now,
            ));
        }
    }

    /// Whether a use of `path` can be counted in this session's history.
    pub closed spec fn can_count(self, path: Seq<char>) -> bool {
        self.history.can_count(path)
    }

    /// Whether [`LibrarySelector::save_to_history`] can count a use of the
    /// library.
    pub fn can_save_to_history(&self, library_path: &String, canonical: &Option<String>) -> (r:
        bool)
        ensures
            r == self.can_count(entry_key(library_path@, option_text(*canonical))),
    {
        self.history.can_add_library(library_path, canonical)
    }

    /// Sets the query and shows the candidates that match it.
    pub fn set_search_query(&mut self, query: String)
        ensures
            final(self)@ == (SelectorView {
                query: query@,
                filtered: filtered(old(self)@.known, query@),
                ..old(self)@
            }),
    {
        self.search_query = query;
        self.update_filtered_libraries();
    }

    /// The query.
    pub fn get_search_query(&self) -> (r: &str)
        ensures
            r@ == self@.query,
    {
        self.search_query.as_str()
    }

    /// The candidates that the query shows.
    pub fn get_filtered_libraries(&self) -> (r: &[LibraryInfo])
        ensures
            infos_view(r@) == self@.filtered,
    {
        self.filtered_libraries.as_slice()
    }

    /// The shown candidate at `index`, or `None` past the end.
    pub fn get_filtered_library(&self, index: usize) -> (r: Option<&LibraryInfo>)
        ensures
            index < self@.filtered.len() ==> r is Some && r->Some_0@ == self@.filtered[index as int],
            index >= self@.filtered.len() ==> r is None,
    {
        if index < self.filtered_libraries.len() {
            Some(&self.filtered_libraries[index])
        } else {
            None
        }
    }

    /// Whether the query shows any candidate.
    pub fn has_filtered_libraries(&self) -> (r: bool)
        ensures
            r == (self@.filtered.len() > 0),
    {
        self.filtered_libraries.len() > 0
    }
}

/// The kind of system the browser runs on, as far as the scan roots
/// depend on it.
#[derive(Debug, Clone, Copy, PartialEq, Eq, Structural)]
pub enum Platform {
    Linux,
    MacOs,
    Windows,
    Other,
}

/// A directory whose subdirectories a scan looks at.
#[derive(Debug)]
pub enum SearchRoot {
    /// The current directory.
    Current,
    /// The user's home directory.
    Home,
    /// The subdirectory of this name in the user's home directory.
    HomeChild(String),
    /// The directory at this absolute path.
    System(String),
}

/// What a [`SearchRoot`] holds, as mathematical values.
pub enum RootView {
    Current,
    Home,
    HomeChild(Seq<char>),
    System(Seq<char>),
}

impl View for SearchRoot {
    type V = RootView;

    open spec fn view(&self) -> RootView {
        match self {
            SearchRoot::Current => RootView::Current,
            SearchRoot::Home => RootView::Home,
            SearchRoot::HomeChild(name) => RootView::HomeChild(name@),
            SearchRoot::System(path) => RootView::System(path@),
        }
    }
}

/// The views of a list of scan roots, in order.
pub open spec fn roots_view(v: Seq<SearchRoot>) -> Seq<RootView> {
    v.map_values(|r: SearchRoot| r@)
}

/// The scan roots in the user's home directory: the directory itself and
/// the subdirectories where libraries are commonly kept.
pub open spec fn home_roots() -> Seq<RootView> {
    seq![
        RootView::Home,
        RootView::HomeChild("Documents"@),
        RootView::HomeChild("Calibre Libraries"@),
        RootView::HomeChild("Books"@),
        RootView::HomeChild("Library"@),
    ]
}

/// The scan roots that a kind of system adds.
pub open spec fn system_roots(platform: Platform) -> Seq<RootView> {
    match platform {
        Platform::Linux => seq![
            RootView::System("/home"@),
            RootView::System("/media"@),
            RootView::System("/mnt"@),
        ],
        Platform::MacOs => seq![RootView::System("/Users"@), RootView::System("/Volumes"@)],
        Platform::Windows => seq![
            RootView::System("C:/"@),
            RootView::System("D:/"@),
            RootView::System("E:/"@),
            RootView::System("F:/"@),
        ],
        Platform::Other => Seq::empty(),
    }
}

/// The scan roots, in the order they are scanned in: the current
/// directory, those in the home directory where one is known, then those of
/// the system.
pub open spec fn search_roots(home_known: bool, platform: Platform) -> Seq<RootView> {
    seq![RootView::Current] + (if home_known {
        home_roots()
    } else {
        Seq::empty()
    }) + system_roots(platform)
}

impl LibrarySelector {
    /// The directories to scan for libraries. Which of them exist is for the
    /// caller to find out; one that does not is scanned as empty.
    pub fn get_common_search_paths(&self, home_known: bool, platform: Platform) -> (r: Vec<
        SearchRoot,
    >)
        ensures
            roots_view(r@) == search_roots(home_known, platform),
    {
        let mut paths: Vec<SearchRoot> = Vec::new();
        paths.push(SearchRoot::Current);
        if home_known {
            paths.push(SearchRoot::Home);
            paths.push(SearchRoot::HomeChild(String::from_str("Documents")));
            paths.push(SearchRoot::HomeChild(String::from_str("Calibre Libraries")));
            paths.push(SearchRoot::HomeChild(String::from_str("Books")));
            paths.push(SearchRoot::HomeChild(String::from_str("Library")));
        }
        match platform {
            Platform::Linux => {
                paths.push(SearchRoot::System(String::from_str("/home")));
                paths.push(SearchRoot::System(String::from_str("/media")));
                paths.push(SearchRoot::System(String::from_str("/mnt")));
            },
            Platform::MacOs => {
                paths.push(SearchRoot::System(String::from_str("/Users")));
                paths.push(SearchRoot::System(String::from_str("/Volumes")));
            },
            Platform::Windows => {
                paths.push(SearchRoot::System(String::from_str("C:/")));
                paths.push(SearchRoot::System(String::from_str("D:/")));
                paths.push(SearchRoot::System(String::from_str("E:/")));
                paths.push(SearchRoot::System(String::from_str("F:/")));
            },
            Platform::Other => {},
        }
        assert(roots_view(paths@) =~= search_roots(home_known, platform));
        paths
    }
}

} // verus!
