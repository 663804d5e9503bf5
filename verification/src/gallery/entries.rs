//! Which canvases the home screen shows, and in which order.
use vstd::prelude::*;
use crate::browser::shelf::stem_in_format;
use crate::files::library::{
    COLLECTION_ALL, COLLECTION_RECENT, Entry, LibraryEntry, LibraryStore, entry_views, later,
    opened_later,
};
use crate::lists::at_most;
use crate::order::{
    in_order, law_ordered_is_kept, law_sorted_in_order, law_sorted_keeps_items, lemma_sorted_map,
    stable_sort, stable_sorted, weak_order,
};
use crate::paths::{file_stem_or, tells_stem_or};
use crate::text::{
    comes_before, contains_text, glue3, holds_text, is_blank, lemma_text_order, same_text,
    text_before, texts, trim, trimmed,
};

verus! {

/// What `str::to_lowercase` makes of a text: its characters with their small
/// letters by Unicode.
pub uninterp spec fn lowercase_text(s: Seq<char>) -> Seq<char>;

/// `str::to_lowercase`. What it gives is a function of the text; how Unicode
/// maps each character is not said here.
#[verifier::external_body]
fn to_lowercase(s: &str) -> (r: String)
    ensures
        r@ == lowercase_text(s@),
{
    s.to_lowercase()
}

/// How many canvases the collection of recent ones has.
pub const MAX_RECENT_CARDS: usize = 24;

#[derive(Clone, Copy, Debug, PartialEq, Eq, Structural)]
pub enum SortMode {
    Name,
    Modified,
    LastOpened,
    TimeSpent,
}

impl SortMode {
    pub fn label(self) -> (r: &'static str)
        ensures
            r@ == (match self {
                SortMode::Name => "По имени"@,
                SortMode::Modified => "По дате изменения"@,
                SortMode::LastOpened => "По последнему открытию"@,
                SortMode::TimeSpent => "По времени в холсте"@,
            }),
    {
        match self {
            SortMode::Name => "По имени",
            SortMode::Modified => "По дате изменения",
            SortMode::LastOpened => "По последнему открытию",
            SortMode::TimeSpent => "По времени в холсте",
        }
    }

    /// Whether an entry comes before another.
    pub open spec fn before(self, a: Entry, b: Entry) -> bool {
        match self {
            SortMode::Name => comes_before(lowercase_text(a.name), lowercase_text(b.name)),
            SortMode::Modified => a.modified > b.modified,
            SortMode::LastOpened => a.last_opened > b.last_opened,
            SortMode::TimeSpent => a.time_spent_secs > b.time_spent_secs,
        }
    }
}

fn copy_entries(list: &Vec<LibraryEntry>) -> (r: Vec<LibraryEntry>)
    ensures
        entry_views(r@) == entry_views(list@),
{
    let n: usize = list.len();
    let mut out: Vec<LibraryEntry> = Vec::new();
    let mut i: usize = 0;
    while i < n
        invariant
            i <= n,
            n == list.len(),
            out.len() == i,
            forall|j: int| 0 <= j < i ==> (#[trigger] out@[j])@ == list@[j]@,
        decreases n - i,
    {
        out.push(list[i].copy());
        i += 1;
    }
    assert(entry_views(out@) =~= entry_views(list@));
    out
}

fn sort_views<F: Fn(&LibraryEntry, &LibraryEntry) -> bool>(
    list: &mut Vec<LibraryEntry>,
    f: F,
    Ghost(before): Ghost<spec_fn(Entry, Entry) -> bool>,
)
    requires
        forall|a: &LibraryEntry, b: &LibraryEntry| #[trigger] f.requires((a, b)),
        forall|a: &LibraryEntry, b: &LibraryEntry, r: bool| #[trigger]
            f.ensures((a, b), r) ==> r == before(a@, b@),
    ensures
        entry_views(final(list)@) == stable_sorted(entry_views(old(list)@), before),
{
    let ghost start = list@;
    let ghost own = |a: LibraryEntry, b: LibraryEntry| before(a@, b@);
    stable_sort(list, f, Ghost(own));
    proof {
        lemma_sorted_map(start, |e: LibraryEntry| e@, own, before);
    }
}

fn named_first(a: &LibraryEntry, b: &LibraryEntry) -> (r: bool)
    ensures
        r == SortMode::Name.before(a@, b@),
{
    let x = to_lowercase(a.name.as_str());
    let y = to_lowercase(b.name.as_str());
    text_before(x.as_str(), y.as_str())
}

fn changed_later(a: &LibraryEntry, b: &LibraryEntry) -> (r: bool)
    ensures
        r == SortMode::Modified.before(a@, b@),
{
    a.modified > b.modified
}

fn seen_later(a: &LibraryEntry, b: &LibraryEntry) -> (r: bool)
    ensures
        r == SortMode::LastOpened.before(a@, b@),
{
    a.last_opened > b.last_opened
}

fn worked_longer(a: &LibraryEntry, b: &LibraryEntry) -> (r: bool)
    ensures
        r == SortMode::TimeSpent.before(a@, b@),
{
    a.time_spent_secs > b.time_spent_secs
}

/// Entries in the order of a mode; those that it does not tell apart stay as
/// they stood.
pub open spec fn sorted_by(entries: Seq<Entry>, mode: SortMode) -> Seq<Entry> {
    stable_sorted(entries, |a: Entry, b: Entry| mode.before(a, b))
}

/// Puts entries in the order of a mode.
pub fn sort_entries(entries: &mut Vec<LibraryEntry>, mode: SortMode)
    ensures
        entry_views(final(entries)@) == sorted_by(entry_views(old(entries)@), mode),
{
    let ghost before = |a: Entry, b: Entry| mode.before(a, b);
    match mode {
        SortMode::Name => sort_views(entries, named_first, Ghost(before)),
        SortMode::Modified => sort_views(entries, changed_later, Ghost(before)),
        SortMode::LastOpened => sort_views(entries, seen_later, Ghost(before)),
        SortMode::TimeSpent => sort_views(entries, worked_longer, Ghost(before)),
    }
}

/// The entries that are in a collection of the user's, in order.
pub open spec fn in_collection(entries: Seq<Entry>, collection: Seq<char>) -> Seq<Entry>
    decreases entries.len(),
{
    if entries.len() == 0 {
        Seq::empty()
    } else {
        let before = in_collection(entries.drop_last(), collection);
        if entries.last().collection == collection {
            before.push(entries.last())
        } else {
            before
        }
    }
}

/// The entries that are pinned, in order.
pub open spec fn pinned_among(entries: Seq<Entry>) -> Seq<Entry>
    decreases entries.len(),
{
    if entries.len() == 0 {
        Seq::empty()
    } else {
        let before = pinned_among(entries.drop_last());
        if entries.last().pinned {
            before.push(entries.last())
        } else {
            before
        }
    }
}

/// The canvases of a collection: of the recent ones the last opened, of all of
/// them every one, of the user's own those that are in it.
pub open spec fn collected(entries: Seq<Entry>, collection: Seq<char>) -> Seq<Entry> {
    if collection == COLLECTION_RECENT@ {
        at_most(
            stable_sorted(entries, |a: Entry, b: Entry| opened_later(a, b)),
            MAX_RECENT_CARDS as int,
        )
    } else if collection == COLLECTION_ALL@ {
        entries
    } else {
        in_collection(entries, collection)
    }
}

/// The canvases of a collection.
pub fn collection_entries(library: &LibraryStore, collection: &str) -> (r: Vec<LibraryEntry>)
    ensures
        entry_views(r@) == collected(library@.entries, collection@),
{
    if same_text(collection, COLLECTION_RECENT) {
        let mut list = copy_entries(&library.entries);
        sort_views(&mut list, later, Ghost(|a: Entry, b: Entry| opened_later(a, b)));
        let ghost all = entry_views(list@);
        assert(all.len() == list.len());
        if list.len() > MAX_RECENT_CARDS {
            list.truncate(MAX_RECENT_CARDS);
        }
        assert(entry_views(list@) =~= at_most(all, MAX_RECENT_CARDS as int));
        list
    } else if same_text(collection, COLLECTION_ALL) {
        copy_entries(&library.entries)
    } else {
        let n: usize = library.entries.len();
        let mut out: Vec<LibraryEntry> = Vec::new();
        let mut i: usize = 0;
        let ghost all = library@.entries;
        assert(all.take(0) =~= Seq::empty());
        assert(entry_views(out@) =~= Seq::empty());
        while i < n
            invariant
                i <= n,
                n == library.entries.len(),
                all == library@.entries,
                entry_views(out@) == in_collection(all.take(i as int), collection@),
            decreases n - i,
        {
            let ghost before = entry_views(out@);
            proof {
                let t = all.take(i + 1);
                assert(t.drop_last() =~= all.take(i as int));
                assert(t.last() == library.entries@[i as int]@);
            }
            if same_text(library.entries[i].collection.as_str(), collection) {
                let e = library.entries[i].copy();
                out.push(e);
                assert(entry_views(out@) =~= before.push(e@));
            }
            i += 1;
        }
        assert(all.take(n as int) =~= all);
        out
    }
}

/// The canvases that are pinned.
pub fn pinned_entries(library: &LibraryStore) -> (r: Vec<LibraryEntry>)
    ensures
        entry_views(r@) == pinned_among(library@.entries),
{
    let n: usize = library.entries.len();
    let mut out: Vec<LibraryEntry> = Vec::new();
    let mut i: usize = 0;
    let ghost all = library@.entries;
    assert(all.take(0) =~= Seq::empty());
    assert(entry_views(out@) =~= Seq::empty());
    while i < n
        invariant
            i <= n,
            n == library.entries.len(),
            all == library@.entries,
            entry_views(out@) == pinned_among(all.take(i as int)),
        decreases n - i,
    {
        let ghost before = entry_views(out@);
        proof {
            let t = all.take(i + 1);
            assert(t.drop_last() =~= all.take(i as int));
            assert(t.last() == library.entries@[i as int]@);
        }
        if library.entries[i].pinned {
            let e = library.entries[i].copy();
            out.push(e);
            assert(entry_views(out@) =~= before.push(e@));
        }
        i += 1;
    }
    assert(all.take(n as int) =~= all);
    out
}

/// Where the search looks.
#[derive(Clone, Copy, Debug, PartialEq, Eq, Structural)]
pub struct SearchIn {
    pub name: bool,
    pub format: bool,
    pub collection: bool,
}

/// Whether a query is found in texts, all in small letters, where it is looked
/// for. With no place to look, names are looked at.
pub open spec fn found_in(
    places: SearchIn,
    query: Seq<char>,
    name: Seq<char>,
    format: Seq<char>,
    collection: Seq<char>,
) -> bool {
    ||| places.name && holds_text(name, query)
    ||| places.format && holds_text(format, query)
    ||| places.collection && holds_text(collection, query)
    ||| !places.name && !places.format && !places.collection && holds_text(name, query)
}

/// Whether a query is found in an entry's texts, all in small letters.
pub fn query_matches(places: SearchIn, query: &str, name: &str, format: &str, collection: &str) -> (r:
    bool)
    ensures
        r == found_in(places, query@, name@, format@, collection@),
{
    (places.name && contains_text(name, query)) || (places.format && contains_text(format, query))
        || (places.collection && contains_text(collection, query)) || (!places.name
        && !places.format && !places.collection && contains_text(name, query))
}

/// The entries in which a query is found; all, where it is empty.
pub open spec fn matching(entries: Seq<Entry>, places: SearchIn, query: Seq<char>) -> Seq<Entry>
    decreases entries.len(),
{
    if entries.len() == 0 || query.len() == 0 {
        entries
    } else {
        let before = matching(entries.drop_last(), places, query);
        let e = entries.last();
        if found_in(
            places,
            query,
            lowercase_text(e.name),
            lowercase_text(e.format),
            lowercase_text(e.collection),
        ) {
            before.push(e)
        } else {
            before
        }
    }
}

/// The entries in which a search finds something.
pub fn filter_entries(entries: &Vec<LibraryEntry>, places: SearchIn, search: &str) -> (r: Vec<
    LibraryEntry,
>)
    ensures
        entry_views(r@) == matching(
            entry_views(entries@),
            places,
            lowercase_text(trimmed(search@)),
        ),
{
    let core = trim(search);
    let q = to_lowercase(core.as_str());
    if is_blank(q.as_str()) {
        return copy_entries(entries);
    }
    let n: usize = entries.len();
    let mut out: Vec<LibraryEntry> = Vec::new();
    let mut i: usize = 0;
    let ghost all = entry_views(entries@);
    assert(all.take(0) =~= Seq::empty());
    assert(entry_views(out@) =~= Seq::empty());
    while i < n
        invariant
            i <= n,
            n == entries.len(),
            q@.len() > 0,
            all == entry_views(entries@),
            entry_views(out@) == matching(all.take(i as int), places, q@),
        decreases n - i,
    {
        let ghost before = entry_views(out@);
        proof {
            let t = all.take(i + 1);
            assert(t.drop_last() =~= all.take(i as int));
            assert(t.last() == entries@[i as int]@);
        }
        let name = to_lowercase(entries[i].name.as_str());
        let format = to_lowercase(entries[i].format.as_str());
        let collection = to_lowercase(entries[i].collection.as_str());
        if query_matches(places, q.as_str(), name.as_str(), format.as_str(), collection.as_str()) {
            let e = entries[i].copy();
            out.push(e);
            assert(entry_views(out@) =~= before.push(e@));
        }
        i += 1;
    }
    assert(all.take(n as int) =~= all);
    out
}

/// Whether a name is that on a card: the file's stem with the entry's format.
pub open spec fn is_card_name(e: Entry, name: Seq<char>) -> bool {
    exists|stem: Seq<char>| #[trigger]
        tells_stem_or(e.path, e.name, stem) && name == stem_in_format(stem, e.format)
}

/// The name on a card.
pub fn display_name_format(e: &LibraryEntry) -> (r: String)
    ensures
        is_card_name(e@, r@),
{
    let stem = file_stem_or(e.path.as_str(), e.name.as_str());
    let ghost known = tells_stem_or(e@.path, e@.name, stem@);
    if is_blank(e.format.as_str()) {
        stem
    } else {
        glue3(stem.as_str(), ".", e.format.as_str())
    }
}

/// Sorting a gallery loses no canvas and repeats none, and no canvas comes
/// behind one that it is to come before.
pub proof fn law_sorted_gallery(entries: Seq<Entry>, mode: SortMode)
    ensures
        sorted_by(entries, mode).to_multiset() == entries.to_multiset(),
        in_order(sorted_by(entries, mode), |a: Entry, b: Entry| mode.before(a, b)),
        sorted_by(sorted_by(entries, mode), mode) == sorted_by(entries, mode),
{
    let before = |a: Entry, b: Entry| mode.before(a, b);
    law_sorted_keeps_items(entries, before);
    assert(weak_order(before)) by {
        assert forall|x: Entry, y: Entry, z: Entry|
            #![trigger before(x, y), before(y, z)]
            !before(x, y) && !before(y, z) implies !before(x, z) by {
            lemma_text_order(
                lowercase_text(x.name),
                lowercase_text(y.name),
                lowercase_text(z.name),
            );
        }
        assert forall|x: Entry| !#[trigger] before(x, x) by {
            lemma_text_order(
                lowercase_text(x.name),
                lowercase_text(x.name),
                lowercase_text(x.name),
            );
        }
        assert forall|x: Entry, y: Entry| #[trigger] before(x, y) implies !before(y, x) by {
            lemma_text_order(
                lowercase_text(x.name),
                lowercase_text(y.name),
                lowercase_text(x.name),
            );
        }
    }
    law_sorted_in_order(entries, before);
    law_ordered_is_kept(sorted_by(entries, mode), before);
}

/// An empty search shows everything, and a search shows only what was there.
pub proof fn law_search(entries: Seq<Entry>, places: SearchIn, query: Seq<char>)
    ensures
        query.len() == 0 ==> matching(entries, places, query) == entries,
        matching(entries, places, query).len() <= entries.len(),
        forall|e: Entry| #[trigger]
            matching(entries, places, query).contains(e) ==> entries.contains(e),
    decreases entries.len(),
{
    if entries.len() > 0 && query.len() > 0 {
        let t = entries.drop_last();
        law_search(t, places, query);
        let b = matching(t, places, query);
        let r = matching(entries, places, query);
        assert forall|e: Entry| #[trigger] r.contains(e) implies entries.contains(e) by {
            let k = choose|k: int| 0 <= k < r.len() && r[k] == e;
            if k < b.len() {
                assert(b[k] == e);
                assert(b.contains(e));
                let j = choose|j: int| 0 <= j < t.len() && t[j] == e;
                assert(entries[j] == e);
            } else {
                assert(entries[entries.len() - 1] == e);
            }
        }
    }
}

} // verus!
