//! The state of the home screen.
use vstd::prelude::*;
use crate::files::library::{
    COLLECTION_ALL, COLLECTION_RECENT, LibraryEntry, LibraryStore, entry_views, tag_names,
};
use crate::gallery::entries::{
    SearchIn, SortMode, collected, collection_entries, filter_entries, lowercase_text, matching,
    pinned_among, pinned_entries, sort_entries, sorted_by,
};
use crate::paths::parts::{has_path, has_place, same_path, same_place, this_system};
use crate::paths::reading::System;
use crate::text::{
    is_blank, lemma_text_place_at, lemma_trimmed, same_text, text_place, texts, trim, trimmed,
};

verus! {

/// How many card pictures are made in a frame.
pub const MAX_PER_FRAME: u32 = 4;

/// How far a strip of cards scrolls at a click.
pub const SCROLL_STEP: i32 = 320;

pub struct GalleryState {
    pub search: String,
    pub search_in: SearchIn,
    pub show_filter: bool,
    /// The collection of the strip at the top.
    pub active_collection: String,
    /// The collection of the grid.
    pub grid_collection: String,
    pub sort: SortMode,
    pub new_collection_buf: String,
    pub show_new_collection: bool,
    /// The files whose picture was looked for, with the time of the file then.
    pub looked: Vec<(String, u64)>,
    /// The files whose picture is there.
    pub ready: Vec<String>,
    /// How many pictures were made in this frame.
    pub made: u32,
    /// Whether files without a picture have been looked at again.
    pub misses_cleared: bool,
    /// By which system paths are told apart.
    pub system: System,
}

/// The same as a value.
pub struct Gallery {
    pub search: Seq<char>,
    pub search_in: SearchIn,
    pub show_filter: bool,
    pub active_collection: Seq<char>,
    pub grid_collection: Seq<char>,
    pub sort: SortMode,
    pub new_collection_buf: Seq<char>,
    pub show_new_collection: bool,
    pub looked: Seq<(Seq<char>, u64)>,
    pub ready: Seq<Seq<char>>,
    pub made: u32,
    pub misses_cleared: bool,
    pub system: System,
}

pub open spec fn looked_views(v: Seq<(String, u64)>) -> Seq<(Seq<char>, u64)> {
    v.map_values(|p: (String, u64)| (p.0@, p.1))
}

impl View for GalleryState {
    type V = Gallery;

    open spec fn view(&self) -> Gallery {
        Gallery {
            search: self.search@,
            search_in: self.search_in,
            show_filter: self.show_filter,
            active_collection: self.active_collection@,
            grid_collection: self.grid_collection@,
            sort: self.sort,
            new_collection_buf: self.new_collection_buf@,
            show_new_collection: self.show_new_collection,
            looked: looked_views(self.looked@),
            ready: texts(self.ready@),
            made: self.made,
            misses_cleared: self.misses_cleared,
            system: self.system,
        }
    }
}

impl Default for GalleryState {
    fn default() -> (r: GalleryState)
        ensures
            r@.search.len() == 0,
            r@.search_in == (SearchIn { name: true, format: true, collection: true }),
            !r@.show_filter,
            r@.active_collection == COLLECTION_RECENT@,
            r@.grid_collection == COLLECTION_ALL@,
            r@.sort is LastOpened,
            r@.new_collection_buf.len() == 0,
            !r@.show_new_collection,
            r@.looked.len() == 0,
            r@.ready.len() == 0,
            r@.made == 0,
            !r@.misses_cleared,
    {
        GalleryState {
            search: String::new(),
            search_in: SearchIn { name: true, format: true, collection: true },
            show_filter: false,
            active_collection: COLLECTION_RECENT.to_owned(),
            grid_collection: COLLECTION_ALL.to_owned(),
            sort: SortMode::LastOpened,
            new_collection_buf: String::new(),
            show_new_collection: false,
            looked: Vec::new(),
            ready: Vec::new(),
            made: 0,
            misses_cleared: false,
            system: this_system(),
        }
    }
}

/// What to do about the picture of a card.
#[derive(Clone, Copy, Debug, PartialEq, Eq, Structural)]
pub enum CardStep {
    /// Nothing: it was looked for already, or there is no file.
    Keep,
    /// Enough were made in this frame: another frame is needed.
    Later,
    /// Make it.
    Load,
}

/// The time under which a path was last looked for.
pub open spec fn looked_at(
    list: Seq<(Seq<char>, u64)>,
    path: Seq<char>,
    system: System,
) -> Option<u64>
    decreases list.len(),
{
    if list.len() == 0 {
        None
    } else if same_place(list.last().0, path, system) {
        Some(list.last().1)
    } else {
        looked_at(list.drop_last(), path, system)
    }
}

/// The entries whose path is among some.
pub open spec fn looked_among(
    list: Seq<(Seq<char>, u64)>,
    ready: Seq<Seq<char>>,
    system: System,
) -> Seq<(Seq<char>, u64)>
    decreases list.len(),
{
    if list.len() == 0 {
        Seq::empty()
    } else {
        let before = looked_among(list.drop_last(), ready, system);
        if has_place(ready, list.last().0, system) {
            before.push(list.last())
        } else {
            before
        }
    }
}

impl Gallery {
    /// The state at the start of a frame. Once, files without a picture are
    /// forgotten, so that they are looked at again.
    pub open spec fn begun(self) -> Gallery {
        Gallery {
            made: 0,
            looked: if self.misses_cleared {
                self.looked
            } else {
                looked_among(self.looked, self.ready, self.system)
            },
            misses_cleared: true,
            ..self
        }
    }

    /// What to do about the picture of a file of that time.
    pub open spec fn step(self, path: Seq<char>, modified: u64, is_file: bool) -> CardStep {
        if looked_at(self.looked, path, self.system) == Some(modified) || !is_file {
            CardStep::Keep
        } else if self.made >= MAX_PER_FRAME {
            CardStep::Later
        } else {
            CardStep::Load
        }
    }

    /// The state after that.
    pub open spec fn stepped(self, path: Seq<char>, modified: u64, is_file: bool) -> Gallery {
        if looked_at(self.looked, path, self.system) == Some(modified) {
            self
        } else if !is_file {
            Gallery { looked: self.looked.push((path, modified)), ..self }
        } else if self.made >= MAX_PER_FRAME {
            self
        } else {
            Gallery {
                made: (self.made + 1) as u32,
                looked: self.looked.push((path, modified)),
                ..self
            }
        }
    }
}

fn find_looked(list: &Vec<(String, u64)>, path: &str, system: System) -> (r: Option<u64>)
    ensures
        r == looked_at(looked_views(list@), path@, system),
{
    let ghost all = looked_views(list@);
    let mut n: usize = list.len();
    assert(all.take(n as int) =~= all);
    while n > 0
        invariant
            n <= list.len(),
            all == looked_views(list@),
            looked_at(all, path@, system) == looked_at(all.take(n as int), path@, system),
        decreases n,
    {
        assert(all.take(n as int).last() == (list@[n - 1].0@, list@[n - 1].1));
        assert(all.take(n as int).drop_last() =~= all.take(n - 1));
        if same_path(list[n - 1].0.as_str(), path, system) {
            return Some(list[n - 1].1);
        }
        n -= 1;
    }
    None
}

fn keep_looked(list: &Vec<(String, u64)>, ready: &Vec<String>, system: System) -> (r: Vec<
    (String, u64),
>)
    ensures
        looked_views(r@) == looked_among(looked_views(list@), texts(ready@), system),
{
    let ghost all = looked_views(list@);
    let n: usize = list.len();
    let mut out: Vec<(String, u64)> = Vec::new();
    let mut i: usize = 0;
    assert(all.take(0) =~= Seq::empty());
    assert(looked_views(out@) =~= Seq::empty());
    while i < n
        invariant
            i <= n,
            n == list.len(),
            all == looked_views(list@),
            looked_views(out@) == looked_among(all.take(i as int), texts(ready@), system),
        decreases n - i,
    {
        let ghost before = looked_views(out@);
        proof {
            let t = all.take(i + 1);
            assert(t.drop_last() =~= all.take(i as int));
            assert(t.last() == (list@[i as int].0@, list@[i as int].1));
        }
        if has_path(ready, list[i].0.as_str(), system) {
            out.push((list[i].0.as_str().to_owned(), list[i].1));
            assert(looked_views(out@) =~= before.push((list@[i as int].0@, list@[i as int].1)));
        }
        i += 1;
    }
    assert(all.take(n as int) =~= all);
    out
}

impl GalleryState {
    /// Begins a frame.
    pub fn begin_frame(&mut self)
        ensures
            final(self)@ == old(self)@.begun(),
    {
        self.made = 0;
        if !self.misses_cleared {
            self.looked = keep_looked(&self.looked, &self.ready, self.system);
            self.misses_cleared = true;
        }
    }

    /// Decides about the picture of a card. `is_file` tells whether its file is
    /// there.
    pub fn card_step(&mut self, path: &str, modified: u64, is_file: bool) -> (r: CardStep)
        ensures
            r == old(self)@.step(path@, modified, is_file),
            final(self)@ == old(self)@.stepped(path@, modified, is_file),
    {
        if find_looked(&self.looked, path, self.system) == Some(modified) {
            return CardStep::Keep;
        }
        if !is_file {
            self.looked.push((path.to_owned(), modified));
            assert(looked_views(self.looked@) =~= old(self)@.looked.push((path@, modified)));
            return CardStep::Keep;
        }
        if self.made >= MAX_PER_FRAME {
            return CardStep::Later;
        }
        self.made = self.made + 1;
        self.looked.push((path.to_owned(), modified));
        assert(looked_views(self.looked@) =~= old(self)@.looked.push((path@, modified)));
        CardStep::Load
    }

    /// Takes note that the picture of a file is there.
    pub fn card_made(&mut self, path: &str)
        ensures
            final(self)@ == (Gallery {
                ready: if has_place(old(self)@.ready, path@, old(self)@.system) {
                    old(self)@.ready
                } else {
                    old(self)@.ready.push(path@)
                },
                ..old(self)@
            }),
    {
        if !has_path(&self.ready, path, self.system) {
            self.ready.push(path.to_owned());
            assert(texts(self.ready@) =~= old(self)@.ready.push(path@));
        }
    }

    /// The cards of the strip at the top.
    pub fn top_cards(&self, library: &LibraryStore) -> (r: Vec<LibraryEntry>)
        ensures
            entry_views(r@) == matching(
                collected(library@.entries, self@.active_collection),
                self@.search_in,
                lowercase_text(trimmed(self@.search)),
            ),
    {
        let list = collection_entries(library, self.active_collection.as_str());
        filter_entries(&list, self.search_in, self.search.as_str())
    }

    /// The cards of the strip of pinned canvases.
    pub fn pinned_cards(&self, library: &LibraryStore) -> (r: Vec<LibraryEntry>)
        ensures
            entry_views(r@) == matching(
                pinned_among(library@.entries),
                self@.search_in,
                lowercase_text(trimmed(self@.search)),
            ),
    {
        let list = pinned_entries(library);
        filter_entries(&list, self.search_in, self.search.as_str())
    }

    /// The cards of the grid.
    pub fn grid_cards(&self, library: &LibraryStore) -> (r: Vec<LibraryEntry>)
        ensures
            entry_views(r@) == sorted_by(
                matching(
                    collected(library@.entries, self@.grid_collection),
                    self@.search_in,
                    lowercase_text(trimmed(self@.search)),
                ),
                self@.sort,
            ),
    {
        let list = collection_entries(library, self.grid_collection.as_str());
        let mut shown = filter_entries(&list, self.search_in, self.search.as_str());
        sort_entries(&mut shown, self.sort);
        shown
    }

    /// Creates the collection whose name was typed and shows it; tells whether
    /// the library changed. Without a name nothing happens.
    pub fn create_collection(&mut self, library: &mut LibraryStore) -> (r: bool)
        ensures
            ({
                let name = trimmed(old(self)@.new_collection_buf);
                &&& final(library)@ == old(library)@.with_collection(name)
                &&& final(self)@ == (if name.len() == 0 {
                    old(self)@
                } else {
                    Gallery {
                        active_collection: name,
                        new_collection_buf: Seq::empty(),
                        show_new_collection: false,
                        ..old(self)@
                    }
                })
                &&& r == (final(library)@ != old(library)@)
            }),
    {
        let name = trim(self.new_collection_buf.as_str());
        proof {
            lemma_trimmed(self@.new_collection_buf);
        }
        if is_blank(name.as_str()) {
            return false;
        }
        let changed: bool = library.ensure_collection(name.as_str());
        proof {
            if changed {
                assert(library@.collections.len() == old(library)@.collections.len() + 1);
            }
        }
        self.active_collection = name;
        self.new_collection_buf = String::new();
        self.show_new_collection = false;
        changed
    }
}

/// The colour of a tag, where the library has it.
pub fn tag_color(library: &LibraryStore, tag: &str) -> (r: Option<[u8; 3]>)
    ensures
        ({
            let k = text_place(tag_names(library@.tags), tag@);
            if k < library@.tags.len() {
                r == Some(library@.tags[k].color)
            } else {
                r is None
            }
        }),
{
    let n: usize = library.tags.len();
    let mut i: usize = 0;
    while i < n && !same_text(library.tags[i].name.as_str(), tag)
        invariant
            i <= n,
            n == library.tags.len(),
            forall|j: int| 0 <= j < i ==> tag_names(library@.tags)[j] != tag@,
        decreases n - i,
    {
        i += 1;
    }
    proof {
        lemma_text_place_at(tag_names(library@.tags), tag@, i as int);
    }
    if i < n {
        Some(library.tags[i].color)
    } else {
        None
    }
}

/// In a frame no more pictures are made than there is room for, and none is
/// looked for twice while its file stays the same.
pub proof fn law_cards(g: Gallery, path: Seq<char>, modified: u64, is_file: bool)
    requires
        g.made <= MAX_PER_FRAME,
    ensures
        g.stepped(path, modified, is_file).made <= MAX_PER_FRAME,
        !(g.step(path, modified, is_file) is Later) ==> g.stepped(path, modified, is_file).step(
            path,
            modified,
            is_file,
        ) is Keep,
{
    let s = g.looked.push((path, modified));
    assert(s.last() == (path, modified));
}

} // verus!
