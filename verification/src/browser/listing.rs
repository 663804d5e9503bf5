//! What the list shows: the files of a folder or the canvases of the library.
use vstd::prelude::*;
use crate::browser::filter::TypeFilters;
use crate::browser::state::{Browser, FileBrowser, Item, ListingItem, Thumbs, item_views};
use crate::order::{
    in_order, law_sorted_in_order, law_sorted_keeps_items, lemma_sorted_map, stable_sort,
    stable_sorted, weak_order,
};
use crate::paths::{format_of, format_text, tells_format};
use crate::paths::parts::{has_path, has_place, same_path, same_place};
use crate::paths::reading::{System, last_name, name_extension, names_file};
use crate::text::{
    ascii_lower, chars_of, comes_before, contains_text, holds_text, is_blank, lemma_text_order,
    lower, text_before, texts, trim, trimmed,
};

verus! {

/// What was found in a folder.
pub struct FoundEntry {
    pub name: String,
    pub path: String,
    pub is_dir: bool,
    pub is_file: bool,
    /// Whether the system marks it as hidden.
    pub hidden: bool,
}

/// Whether something is kept from view: marked as hidden, or named with a dot
/// in front.
pub open spec fn out_of_view(f: FoundEntry, filters: TypeFilters) -> bool {
    !filters.show_hidden && (f.hidden || f.name@.len() > 0 && f.name@[0] == '.')
}

/// Whether a folder is shown.
pub open spec fn shows_dir(f: FoundEntry, filters: TypeFilters) -> bool {
    !out_of_view(f, filters) && f.is_dir && filters.folders
}

/// Whether a file of that format is shown.
pub open spec fn shows_file(f: FoundEntry, format: Seq<char>, filters: TypeFilters) -> bool {
    !out_of_view(f, filters) && !f.is_dir && f.is_file && filters.accepts(format)
}

pub open spec fn found_item(f: FoundEntry) -> Item {
    Item { name: f.name@, path: f.path@, is_dir: f.is_dir }
}

/// The folders that are shown, in the order they were found.
pub open spec fn dirs_of(found: Seq<FoundEntry>, filters: TypeFilters) -> Seq<Item>
    decreases found.len(),
{
    if found.len() == 0 {
        Seq::empty()
    } else {
        let before = dirs_of(found.drop_last(), filters);
        if shows_dir(found.last(), filters) {
            before.push(found_item(found.last()))
        } else {
            before
        }
    }
}

/// The files that are shown, in the order they were found.
pub open spec fn files_of(
    found: Seq<FoundEntry>,
    formats: Seq<Seq<char>>,
    filters: TypeFilters,
) -> Seq<Item>
    decreases found.len(),
{
    if found.len() == 0 {
        Seq::empty()
    } else {
        let before = files_of(found.drop_last(), formats, filters);
        if shows_file(found.last(), formats[found.len() - 1], filters) {
            before.push(found_item(found.last()))
        } else {
            before
        }
    }
}

/// Whether an item's name comes first, whatever the case of its letters.
pub open spec fn named_before(a: Item, b: Item) -> bool {
    comes_before(lower(a.name), lower(b.name))
}

/// Items by their names.
pub open spec fn by_name(items: Seq<Item>) -> Seq<Item> {
    stable_sorted(items, |a: Item, b: Item| named_before(a, b))
}

/// The list of a folder: its folders by name, then its files by name.
pub open spec fn listed(
    found: Seq<FoundEntry>,
    formats: Seq<Seq<char>>,
    filters: TypeFilters,
) -> Seq<Item> {
    by_name(dirs_of(found, filters)) + by_name(files_of(found, formats, filters))
}

fn name_before(a: &ListingItem, b: &ListingItem) -> (r: bool)
    ensures
        r == named_before(a@, b@),
{
    let x = ascii_lower(a.name.as_str());
    let y = ascii_lower(b.name.as_str());
    text_before(x.as_str(), y.as_str())
}

fn sort_by_name(items: &mut Vec<ListingItem>)
    ensures
        item_views(final(items)@) == by_name(item_views(old(items)@)),
{
    let ghost before = |a: ListingItem, b: ListingItem| named_before(a@, b@);
    stable_sort(items, name_before, Ghost(before));
    proof {
        lemma_sorted_map(
            old(items)@,
            |i: ListingItem| i@,
            before,
            |a: Item, b: Item| named_before(a, b),
        );
    }
}

fn is_out_of_view(f: &FoundEntry, filters: TypeFilters) -> (r: bool)
    ensures
        r == out_of_view(*f, filters),
{
    if filters.show_hidden {
        return false;
    }
    if f.hidden {
        return true;
    }
    let c = chars_of(f.name.as_str());
    c.len() > 0 && c[0] == '.'
}

fn item_of(f: &FoundEntry) -> (r: ListingItem)
    ensures
        r@ == found_item(*f),
{
    ListingItem {
        name: f.name.as_str().to_owned(),
        path: f.path.as_str().to_owned(),
        is_dir: f.is_dir,
    }
}

/// The list of a folder, from what was found there and the format of each.
pub fn arrange(found: &Vec<FoundEntry>, formats: &Vec<String>, filters: TypeFilters) -> (r: Vec<
    ListingItem,
>)
    requires
        found.len() == formats.len(),
    ensures
        item_views(r@) == listed(found@, texts(formats@), filters),
{
    let n: usize = found.len();
    let mut dirs: Vec<ListingItem> = Vec::new();
    let mut files: Vec<ListingItem> = Vec::new();
    let mut i: usize = 0;
    assert(found@.take(0) =~= Seq::empty());
    assert(item_views(dirs@) =~= Seq::empty());
    assert(item_views(files@) =~= Seq::empty());
    while i < n
        invariant
            i <= n,
            n == found.len(),
            n == formats.len(),
            item_views(dirs@) == dirs_of(found@.take(i as int), filters),
            item_views(files@) == files_of(found@.take(i as int), texts(formats@), filters),
        decreases n - i,
    {
        let ghost d = item_views(dirs@);
        let ghost f = item_views(files@);
        proof {
            let t = found@.take(i + 1);
            assert(t.drop_last() =~= found@.take(i as int));
            assert(t.last() == found@[i as int]);
        }
        if !is_out_of_view(&found[i], filters) {
            if found[i].is_dir {
                if filters.folders {
                    let it = item_of(&found[i]);
                    dirs.push(it);
                    assert(item_views(dirs@) =~= d.push(it@));
                }
            } else if found[i].is_file && filters.accepts_format(formats[i].as_str()) {
                let it = item_of(&found[i]);
                files.push(it);
                assert(item_views(files@) =~= f.push(it@));
            }
        }
        i += 1;
    }
    assert(found@.take(n as int) =~= found@);
    sort_by_name(&mut dirs);
    sort_by_name(&mut files);
    let ghost d = item_views(dirs@);
    let ghost f = item_views(files@);
    dirs.append(&mut files);
    assert(item_views(dirs@) =~= d + f);
    dirs
}

/// The formats of files by their paths.
pub open spec fn path_formats(found: Seq<FoundEntry>) -> Seq<Seq<char>> {
    found.map_values(|f: FoundEntry| format_text(name_extension(last_name(f.path@))))
}

/// Whether formats are those of the files, each by its path.
pub open spec fn are_formats(found: Seq<FoundEntry>, formats: Seq<Seq<char>>) -> bool {
    &&& formats.len() == found.len()
    &&& forall|i: int|
        0 <= i < found.len() ==> tells_format(found[i].path@, #[trigger] formats[i])
}

/// The list of a folder, from what was found there.
pub fn scan_dir(found: &Vec<FoundEntry>, filters: TypeFilters) -> (r: Vec<ListingItem>)
    ensures
        (forall|i: int| 0 <= i < found.len() ==> names_file((#[trigger] found@[i]).path@))
            ==> item_views(r@) == listed(found@, path_formats(found@), filters),
        exists|formats: Seq<Seq<char>>|
            item_views(r@) == #[trigger] listed(found@, formats, filters) && are_formats(
                found@,
                formats,
            ),
{
    let n: usize = found.len();
    let mut formats: Vec<String> = Vec::new();
    let mut i: usize = 0;
    while i < n
        invariant
            i <= n,
            n == found.len(),
            formats.len() == i,
            forall|j: int|
                0 <= j < i ==> tells_format(found@[j].path@, (#[trigger] formats@[j])@),
        decreases n - i,
    {
        formats.push(format_of(found[i].path.as_str()));
        i += 1;
    }
    proof {
        if forall|i: int| 0 <= i < found.len() ==> names_file((#[trigger] found@[i]).path@) {
            assert forall|j: int| 0 <= j < n implies texts(formats@)[j] == path_formats(
                found@,
            )[j] by {
                assert(names_file(found@[j].path@));
                assert(tells_format(found@[j].path@, formats@[j]@));
            }
            assert(texts(formats@) =~= path_formats(found@));
        }
        assert forall|j: int| 0 <= j < n implies tells_format(
            found@[j].path@,
            #[trigger] texts(formats@)[j],
        ) by {
            assert(texts(formats@)[j] == formats@[j]@);
        }
        assert(are_formats(found@, texts(formats@)));
    }
    arrange(found, &formats, filters)
}

/// What the lister of a folder has to say.
pub enum ListEvent {
    Listed { gen: u64, cwd: String, entries: Vec<ListingItem> },
    Failed { gen: u64, cwd: String, message: String },
    /// It is still at work.
    Busy,
    /// It ended without an answer.
    Gone,
}

/// A queue with the items behind it that are files without a picture and
/// without one under way.
pub open spec fn queued(
    queue: Seq<Seq<char>>,
    items: Seq<Item>,
    ready: Seq<Seq<char>>,
    pending: Seq<Seq<char>>,
    system: System,
) -> Seq<Seq<char>>
    decreases items.len(),
{
    if items.len() == 0 {
        queue
    } else {
        let before = queued(queue, items.drop_last(), ready, pending, system);
        let it = items.last();
        if !it.is_dir && !has_place(ready, it.path, system) && !has_place(
            pending,
            it.path,
            system,
        ) {
            before.push(it.path)
        } else {
            before
        }
    }
}

fn fill_queue(
    queue: &mut Vec<String>,
    items: &Vec<ListingItem>,
    ready: &Vec<String>,
    pending: &Vec<String>,
    system: System,
)
    ensures
        texts(final(queue)@) == queued(
            texts(old(queue)@),
            item_views(items@),
            texts(ready@),
            texts(pending@),
            system,
        ),
{
    let n: usize = items.len();
    let mut i: usize = 0;
    let ghost all = item_views(items@);
    let ghost start = texts(queue@);
    assert(all.take(0) =~= Seq::empty());
    while i < n
        invariant
            i <= n,
            n == items.len(),
            all == item_views(items@),
            texts(queue@) == queued(
                start,
                all.take(i as int),
                texts(ready@),
                texts(pending@),
                system,
            ),
        decreases n - i,
    {
        let ghost before = texts(queue@);
        proof {
            let t = all.take(i + 1);
            assert(t.drop_last() =~= all.take(i as int));
            assert(t.last() == items@[i as int]@);
        }
        let p = items[i].path.as_str();
        if !items[i].is_dir && !has_path(ready, p, system) && !has_path(pending, p, system) {
            queue.push(p.to_owned());
            assert(texts(queue@) =~= before.push(p@));
        }
        i += 1;
    }
    assert(all.take(n as int) =~= all);
}

impl Browser {
    /// The list with these items, and their pictures asked for.
    pub open spec fn showing(self, items: Seq<Item>, queue: Seq<Seq<char>>) -> Browser {
        Browser {
            thumbs: Thumbs {
                queue: queued(
                    queue,
                    items,
                    self.thumbs.ready,
                    self.thumbs.pending,
                    self.system,
                ),
                ..self.thumbs
            },
            entries: items,
            loading: false,
            error: None,
            ..self
        }
    }

    /// An empty list, with why it is empty.
    pub open spec fn unlisted(self, message: Seq<char>) -> Browser {
        Browser { entries: Seq::empty(), loading: false, error: Some(message), ..self }
    }

    /// Whether a listing is of the folder that is shown, and the last that was
    /// asked for.
    pub open spec fn expects(self, gen: u64, cwd: Seq<char>) -> bool {
        gen == self.list_gen && same_place(cwd, self.cwd, self.system)
    }

    /// The state after a listing came.
    pub open spec fn with_list(self, gen: u64, cwd: Seq<char>, items: Seq<Item>) -> Browser {
        let b = Browser { listing: false, ..self };
        if self.expects(gen, cwd) {
            b.showing(items, self.thumbs.queue)
        } else {
            b
        }
    }

    /// The state after a listing failed.
    pub open spec fn with_list_error(self, gen: u64, cwd: Seq<char>, message: Seq<char>) -> Browser {
        let b = Browser { listing: false, ..self };
        if self.expects(gen, cwd) {
            b.unlisted(message)
        } else {
            b
        }
    }

    /// The items that the search finds, in order.
    pub open spec fn found_by(items: Seq<Item>, query: Seq<char>) -> Seq<Item>
        decreases items.len(),
    {
        if items.len() == 0 {
            items
        } else {
            let before = Browser::found_by(items.drop_last(), query);
            if query.len() == 0 || holds_text(lower(items.last().name), query) {
                before.push(items.last())
            } else {
                before
            }
        }
    }

    /// The list as far as the search finds it.
    pub open spec fn filtered(self) -> Seq<Item> {
        Browser::found_by(self.entries, lower(trimmed(self.search)))
    }
}

impl FileBrowser {
    pub(crate) fn show_items(&mut self, entries: Vec<ListingItem>)
        ensures
            final(self)@ == old(self)@.showing(item_views(entries@), old(self)@.thumbs.queue),
    {
        fill_queue(
            &mut self.thumbs.queue,
            &entries,
            &self.thumbs.ready,
            &self.thumbs.pending,
            self.system,
        );
        self.entries = entries;
        self.loading = false;
        self.error = None;
    }

    fn show_error(&mut self, message: String)
        ensures
            final(self)@ == old(self)@.unlisted(message@),
    {
        self.entries = Vec::new();
        assert(item_views(self.entries@) =~= Seq::empty());
        self.loading = false;
        self.error = Some(message);
    }

    fn list_came(&mut self, gen: u64, cwd: &str, entries: Vec<ListingItem>)
        ensures
            final(self)@ == old(self)@.with_list(gen, cwd@, item_views(entries@)),
    {
        self.listing = false;
        if gen == self.list_gen && same_path(cwd, self.cwd.as_str(), self.system) {
            self.show_items(entries);
        }
    }

    fn list_failed(&mut self, gen: u64, cwd: &str, message: String)
        ensures
            final(self)@ == old(self)@.with_list_error(gen, cwd@, message@),
    {
        self.listing = false;
        if gen == self.list_gen && same_path(cwd, self.cwd.as_str(), self.system) {
            self.show_error(message);
        }
    }

    /// Takes note of what the lister says. Only the last listing that was asked
    /// for counts.
    pub fn poll_list(&mut self, event: ListEvent)
        ensures
            final(self)@ == (if !old(self)@.listing {
                old(self)@
            } else {
                match event {
                    ListEvent::Listed { gen, cwd, entries } => old(self)@.with_list(
                        gen,
                        cwd@,
                        item_views(entries@),
                    ),
                    ListEvent::Failed { gen, cwd, message } => old(self)@.with_list_error(
                        gen,
                        cwd@,
                        message@,
                    ),
                    ListEvent::Busy => old(self)@,
                    ListEvent::Gone => Browser { listing: false, loading: false, ..old(self)@ },
                }
            }),
    {
        if !self.listing {
            return ;
        }
        match event {
            ListEvent::Listed { gen, cwd, entries } => {
                self.list_came(gen, cwd.as_str(), entries);
            },
            ListEvent::Failed { gen, cwd, message } => {
                self.list_failed(gen, cwd.as_str(), message);
            },
            ListEvent::Busy => {},
            ListEvent::Gone => {
                self.loading = false;
                self.listing = false;
            },
        }
    }

    /// The list as far as the search finds it.
    pub fn filtered_entries(&self) -> (r: Vec<ListingItem>)
        ensures
            item_views(r@) == self@.filtered(),
    {
        let q_text = trim(self.search.as_str());
        let q = ascii_lower(q_text.as_str());
        let n: usize = self.entries.len();
        let mut out: Vec<ListingItem> = Vec::new();
        let mut i: usize = 0;
        let ghost all = self@.entries;
        assert(all.take(0) =~= Seq::empty());
        assert(item_views(out@) =~= Browser::found_by(all.take(0), q@));
        while i < n
            invariant
                i <= n,
                n == self.entries.len(),
                all == self@.entries,
                item_views(out@) == Browser::found_by(all.take(i as int), q@),
            decreases n - i,
        {
            let ghost before = item_views(out@);
            proof {
                let t = all.take(i + 1);
                assert(t.drop_last() =~= all.take(i as int));
                assert(t.last() == self.entries@[i as int]@);
            }
            let name = ascii_lower(self.entries[i].name.as_str());
            if is_blank(q.as_str()) || contains_text(name.as_str(), q.as_str()) {
                let it = self.entries[i].copy();
                out.push(it);
                assert(item_views(out@) =~= before.push(it@));
            }
            i += 1;
        }
        assert(all.take(n as int) =~= all);
        out
    }
}

/// A list of a folder has what is to be shown and nothing else: all folders
/// come before all files, and each of the two stands in the order of names.
pub proof fn law_listed(found: Seq<FoundEntry>, formats: Seq<Seq<char>>, filters: TypeFilters)
    ensures
        ({
            let d = by_name(dirs_of(found, filters));
            let f = by_name(files_of(found, formats, filters));
            &&& listed(found, formats, filters) == d + f
            &&& d.to_multiset() == dirs_of(found, filters).to_multiset()
            &&& f.to_multiset() == files_of(found, formats, filters).to_multiset()
            &&& in_order(d, |a: Item, b: Item| named_before(a, b))
            &&& in_order(f, |a: Item, b: Item| named_before(a, b))
            &&& forall|i: int| 0 <= i < d.len() ==> (#[trigger] d[i]).is_dir
            &&& forall|i: int| 0 <= i < f.len() ==> !(#[trigger] f[i]).is_dir
        }),
{
    let before = |a: Item, b: Item| named_before(a, b);
    let ds = dirs_of(found, filters);
    let fs = files_of(found, formats, filters);
    law_sorted_keeps_items(ds, before);
    law_sorted_keeps_items(fs, before);
    assert(weak_order(before)) by {
        assert forall|x: Item, y: Item, z: Item|
            #![trigger before(x, y), before(y, z)]
            !before(x, y) && !before(y, z) implies !before(x, z) by {
            lemma_text_order(lower(x.name), lower(y.name), lower(z.name));
        }
        assert forall|x: Item| !#[trigger] before(x, x) by {
            lemma_text_order(lower(x.name), lower(x.name), lower(x.name));
        }
        assert forall|x: Item, y: Item| #[trigger] before(x, y) implies !before(y, x) by {
            lemma_text_order(lower(x.name), lower(y.name), lower(x.name));
        }
    }
    law_sorted_in_order(ds, before);
    law_sorted_in_order(fs, before);
    lemma_kinds(found, formats, filters);
    let d = by_name(ds);
    let f = by_name(fs);
    assert forall|i: int| 0 <= i < d.len() implies (#[trigger] d[i]).is_dir by {
        d.to_multiset_ensures();
        ds.to_multiset_ensures();
        assert(d.contains(d[i]));
        assert(ds.to_multiset().count(d[i]) > 0);
        assert(ds.contains(d[i]));
    }
    assert forall|i: int| 0 <= i < f.len() implies !(#[trigger] f[i]).is_dir by {
        f.to_multiset_ensures();
        fs.to_multiset_ensures();
        assert(f.contains(f[i]));
        assert(fs.to_multiset().count(f[i]) > 0);
        assert(fs.contains(f[i]));
    }
}

proof fn lemma_kinds(found: Seq<FoundEntry>, formats: Seq<Seq<char>>, filters: TypeFilters)
    ensures
        forall|i: int|
            0 <= i < dirs_of(found, filters).len() ==> (#[trigger] dirs_of(
                found,
                filters,
            )[i]).is_dir,
        forall|i: int|
            0 <= i < files_of(found, formats, filters).len() ==> !(#[trigger] files_of(
                found,
                formats,
                filters,
            )[i]).is_dir,
    decreases found.len(),
{
    if found.len() > 0 {
        let t = found.drop_last();
        lemma_kinds(t, formats, filters);
        let d = dirs_of(t, filters);
        let f = files_of(t, formats, filters);
        assert forall|i: int| 0 <= i < dirs_of(found, filters).len() implies (#[trigger] dirs_of(
            found,
            filters,
        )[i]).is_dir by {
            if i < d.len() {
                assert(dirs_of(found, filters)[i] == d[i]);
            }
        }
        assert forall|i: int| 0 <= i < files_of(found, formats, filters).len() implies !(
        #[trigger] files_of(found, formats, filters)[i]).is_dir by {
            if i < f.len() {
                assert(files_of(found, formats, filters)[i] == f[i]);
            }
        }
    }
}

} // verus!
