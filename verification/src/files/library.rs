//! The library of known canvases, with their collections, tags and times.
//!
//! Paths are texts in one normal form, so that two of them are the same path
//! when they are the same text.
use vstd::prelude::*;
use crate::order::{lemma_sorted_map, stable_sort, stable_sorted};
use crate::paths::{file_name_or, format_of, format_text, tells_format, tells_name_or};
use crate::paths::parts::{Part, parts, same_path};
use crate::paths::reading::{System, last_name, name_extension, names_file};
use crate::text::{
    copy_opt, copy_texts, has_text, is_blank, lemma_text_place, lemma_text_place_at, opt_view,
    place_of, same_text, text_place, texts, trim, trimmed,
};

verus! {

/// The collection that every canvas is in, by the time it was last opened.
pub const COLLECTION_RECENT: &'static str = "Недавние";

/// The collection that every canvas is in.
pub const COLLECTION_ALL: &'static str = "Все холсты";

/// A named tag with its colour.
#[verifier::ext_equal]
pub struct Tag {
    pub name: Seq<char>,
    pub color: [u8; 3],
}

pub struct LibraryTag {
    pub name: String,
    /// Red, green and blue.
    pub color: [u8; 3],
}

impl View for LibraryTag {
    type V = Tag;

    open spec fn view(&self) -> Tag {
        Tag { name: self.name@, color: self.color }
    }
}

/// The colour of a tag that has none of its own.
pub fn default_tag_color() -> (r: [u8; 3])
    ensures
        r@ == seq![255u8, 140, 66],
{
    let r: [u8; 3] = [255, 140, 66];
    assert(r@ =~= seq![255u8, 140, 66]);
    r
}

/// What the library knows of one canvas.
#[verifier::ext_equal]
pub struct Entry {
    pub path: Seq<char>,
    pub name: Seq<char>,
    pub format: Seq<char>,
    pub collection: Seq<char>,
    pub time_spent_secs: u64,
    pub modified: u64,
    pub last_opened: u64,
    pub pinned: bool,
    pub thumb_path: Option<Seq<char>>,
    pub tags: Seq<Seq<char>>,
    pub nsfw: bool,
}

pub struct LibraryEntry {
    pub path: String,
    pub name: String,
    pub format: String,
    /// The user's collection; empty where the canvas is in none.
    pub collection: String,
    pub time_spent_secs: u64,
    /// In seconds since 1970, as `last_opened`.
    pub modified: u64,
    pub last_opened: u64,
    pub pinned: bool,
    pub thumb_path: Option<String>,
    pub tags: Vec<String>,
    pub nsfw: bool,
}

impl View for LibraryEntry {
    type V = Entry;

    open spec fn view(&self) -> Entry {
        Entry {
            path: self.path@,
            name: self.name@,
            format: self.format@,
            collection: self.collection@,
            time_spent_secs: self.time_spent_secs,
            modified: self.modified,
            last_opened: self.last_opened,
            pinned: self.pinned,
            thumb_path: opt_view(self.thumb_path),
            tags: texts(self.tags@),
            nsfw: self.nsfw,
        }
    }
}

impl LibraryEntry {
    pub fn copy(&self) -> (r: LibraryEntry)
        ensures
            r@ == self@,
    {
        LibraryEntry {
            path: self.path.as_str().to_owned(),
            name: self.name.as_str().to_owned(),
            format: self.format.as_str().to_owned(),
            collection: self.collection.as_str().to_owned(),
            time_spent_secs: self.time_spent_secs,
            modified: self.modified,
            last_opened: self.last_opened,
            pinned: self.pinned,
            thumb_path: copy_opt(&self.thumb_path),
            tags: copy_texts(&self.tags),
            nsfw: self.nsfw,
        }
    }
}

pub open spec fn entry_views(v: Seq<LibraryEntry>) -> Seq<Entry> {
    v.map_values(|e: LibraryEntry| e@)
}

pub open spec fn tag_views(v: Seq<LibraryTag>) -> Seq<Tag> {
    v.map_values(|t: LibraryTag| t@)
}

/// The parts of the paths of entries, in order.
pub open spec fn entry_parts(entries: Seq<Entry>, system: System) -> Seq<Seq<Part>> {
    entries.map_values(|e: Entry| parts(e.path, system))
}

/// The names of tags, in order.
pub open spec fn tag_names(tags: Seq<Tag>) -> Seq<Seq<char>> {
    tags.map_values(|t: Tag| t.name)
}

/// The library as a value.
#[verifier::ext_equal]
pub struct Library {
    pub entries: Seq<Entry>,
    pub collections: Seq<Seq<char>>,
    pub tags: Seq<Tag>,
    pub total_app_secs: u64,
    pub system: System,
}

pub struct LibraryStore {
    pub entries: Vec<LibraryEntry>,
    /// The user's collections.
    pub collections: Vec<String>,
    pub tags: Vec<LibraryTag>,
    /// Seconds spent in the program over its whole life.
    pub total_app_secs: u64,
    /// By which system paths are told apart.
    pub system: System,
}

impl View for LibraryStore {
    type V = Library;

    open spec fn view(&self) -> Library {
        Library {
            entries: entry_views(self.entries@),
            collections: texts(self.collections@),
            tags: tag_views(self.tags@),
            total_app_secs: self.total_app_secs,
            system: self.system,
        }
    }
}

/// What a new canvas takes into the library when it is first saved.
#[verifier::ext_equal]
pub struct Meta {
    pub name: Seq<char>,
    pub collection: Seq<char>,
    pub tags: Seq<Seq<char>>,
    pub nsfw: bool,
}

pub struct PendingCanvasMeta {
    pub name: String,
    pub collection: String,
    pub tags: Vec<String>,
    pub nsfw: bool,
}

impl View for PendingCanvasMeta {
    type V = Meta;

    open spec fn view(&self) -> Meta {
        Meta {
            name: self.name@,
            collection: self.collection@,
            tags: texts(self.tags@),
            nsfw: self.nsfw,
        }
    }
}

pub open spec fn meta_view(m: Option<PendingCanvasMeta>) -> Option<Meta> {
    match m {
        Some(x) => Some(x@),
        None => None,
    }
}

/// One visit to a canvas: its file's name and format, the time, the file's own
/// time, what the canvas was created with and the time it took before.
#[verifier::ext_equal]
pub struct Visit {
    pub name: Seq<char>,
    pub format: Seq<char>,
    pub now: u64,
    pub modified: u64,
    pub meta: Option<Meta>,
    pub extra: u64,
}

/// The sum, or the largest number where it does not fit.
pub open spec fn sum_of(a: u64, b: u64) -> u64 {
    if a + b > u64::MAX {
        u64::MAX
    } else {
        (a + b) as u64
    }
}

/// The entry of a canvas that was not known before.
pub open spec fn fresh_entry(path: Seq<char>, v: Visit) -> Entry {
    Entry {
        path,
        name: v.name,
        format: v.format,
        collection: match v.meta {
            Some(m) => m.collection,
            None => Seq::empty(),
        },
        time_spent_secs: v.extra,
        modified: v.modified,
        last_opened: v.now,
        pinned: false,
        thumb_path: None,
        tags: match v.meta {
            Some(m) => m.tags,
            None => Seq::empty(),
        },
        nsfw: match v.meta {
            Some(m) => m.nsfw,
            None => false,
        },
    }
}

/// The entry of a known canvas after another visit. An empty collection or tag
/// list of the canvas leaves the entry's own.
pub open spec fn visited_entry(e: Entry, v: Visit) -> Entry {
    Entry {
        name: v.name,
        format: v.format,
        modified: v.modified,
        last_opened: v.now,
        thumb_path: None,
        time_spent_secs: sum_of(e.time_spent_secs, v.extra),
        collection: match v.meta {
            Some(m) if m.collection.len() > 0 => m.collection,
            _ => e.collection,
        },
        tags: match v.meta {
            Some(m) if m.tags.len() > 0 => m.tags,
            _ => e.tags,
        },
        nsfw: match v.meta {
            Some(m) => m.nsfw,
            None => e.nsfw,
        },
        ..e
    }
}

/// Whether the first of two canvases was opened after the second.
pub open spec fn opened_later(a: Entry, b: Entry) -> bool {
    a.last_opened > b.last_opened
}

/// Whether a name and a format are those under which a path is recorded.
pub open spec fn reads_as(path: Seq<char>, name: Seq<char>, format: Seq<char>) -> bool {
    tells_name_or(path, "Untitled"@, name) && tells_format(path, format)
}

impl Library {
    /// The place of a path's entry, or the number of entries.
    pub open spec fn place(self, path: Seq<char>) -> int {
        text_place(entry_parts(self.entries, self.system), parts(path, self.system))
    }

    pub open spec fn knows(self, path: Seq<char>) -> bool {
        self.place(path) < self.entries.len()
    }

    /// The library with a path's entry changed; as it is where there is none.
    pub open spec fn with_changed(self, path: Seq<char>, entry: Entry) -> Library {
        if self.knows(path) {
            Library { entries: self.entries.update(self.place(path), entry), ..self }
        } else {
            self
        }
    }

    /// The entry of a known path.
    pub open spec fn entry(self, path: Seq<char>) -> Entry {
        self.entries[self.place(path)]
    }

    /// The library after a visit, before its entries are ordered.
    pub open spec fn with_visit(self, path: Seq<char>, v: Visit) -> Library {
        if self.knows(path) {
            self.with_changed(path, visited_entry(self.entry(path), v))
        } else {
            Library { entries: seq![fresh_entry(path, v)] + self.entries, ..self }
        }
    }

    /// The library after a visit: what was opened last comes first.
    pub open spec fn visited(self, path: Seq<char>, v: Visit) -> Library {
        let l = self.with_visit(path, v);
        Library {
            entries: stable_sorted(l.entries, |a: Entry, b: Entry| opened_later(a, b)),
            ..l
        }
    }

    /// The library after a visit under another name and format.
    pub open spec fn visited_as(
        self,
        path: Seq<char>,
        v: Visit,
        name: Seq<char>,
        format: Seq<char>,
    ) -> Library {
        self.visited(path, Visit { name, format, ..v })
    }

    /// The library with an entry for the path, added in front where it was
    /// not known.
    pub open spec fn ensured(self, path: Seq<char>, v: Visit) -> Library {
        if self.knows(path) {
            self
        } else {
            Library { entries: seq![fresh_entry(path, v)] + self.entries, ..self }
        }
    }

    /// The same under another name and format.
    pub open spec fn ensured_as(
        self,
        path: Seq<char>,
        v: Visit,
        name: Seq<char>,
        format: Seq<char>,
    ) -> Library {
        self.ensured(path, Visit { name, format, ..v })
    }

    /// The library with one more collection. A name that is empty without its
    /// spaces, that of a built-in collection and one that is there are left
    /// out.
    pub open spec fn with_collection(self, name: Seq<char>) -> Library {
        if !own_collection(trimmed(name)) || self.collections.contains(trimmed(name)) {
            self
        } else {
            Library { collections: self.collections.push(trimmed(name)), ..self }
        }
    }

    /// The library with a tag in the colour, changed or added. One without a
    /// name is left out.
    pub open spec fn with_tag(self, name: Seq<char>, color: [u8; 3]) -> Library {
        let t = Tag { name: trimmed(name), color };
        let k = text_place(tag_names(self.tags), t.name);
        if t.name.len() == 0 {
            self
        } else if k < self.tags.len() {
            Library { tags: self.tags.update(k, t), ..self }
        } else {
            Library { tags: self.tags.push(t), ..self }
        }
    }
}

/// Whether a collection can be the user's own.
pub open spec fn own_collection(name: Seq<char>) -> bool {
    name.len() > 0 && name != COLLECTION_RECENT@ && name != COLLECTION_ALL@
}

/// The list with the text taken out at its first place, or added at the end.
pub open spec fn toggled(list: Seq<Seq<char>>, x: Seq<char>) -> Seq<Seq<char>> {
    if list.contains(x) {
        list.remove(text_place(list, x))
    } else {
        list.push(x)
    }
}

/// Whether a collection name can be the user's own.
pub fn is_own_collection(name: &str) -> (r: bool)
    ensures
        r == own_collection(name@),
{
    !is_blank(name) && !same_text(name, COLLECTION_RECENT) && !same_text(name, COLLECTION_ALL)
}

fn sum(a: u64, b: u64) -> (r: u64)
    ensures
        r == sum_of(a, b),
{
    a.saturating_add(b)
}

pub(crate) fn later(a: &LibraryEntry, b: &LibraryEntry) -> (r: bool)
    ensures
        r == opened_later(a@, b@),
{
    a.last_opened > b.last_opened
}

impl LibraryStore {
    /// The place of a path's entry, or the number of entries.
    pub fn find(&self, path: &str) -> (r: usize)
        ensures
            r == self@.place(path@),
            r <= self.entries.len(),
            r < self.entries.len() <==> self@.knows(path@),
    {
        let n: usize = self.entries.len();
        let mut i: usize = 0;
        while i < n && !same_path(self.entries[i].path.as_str(), path, self.system)
            invariant
                i <= n,
                n == self.entries.len(),
                forall|j: int|
                    0 <= j < i ==> entry_parts(self@.entries, self.system)[j] != parts(
                        path@,
                        self.system,
                    ),
            decreases n - i,
        {
            i += 1;
        }
        proof {
            lemma_text_place_at(
                entry_parts(self@.entries, self.system),
                parts(path@, self.system),
                i as int,
            );
        }
        i
    }

    /// Records that a canvas was opened or saved.
    pub fn record(
        &mut self,
        path: &str,
        name: String,
        format: String,
        now: u64,
        modified: u64,
        meta: Option<PendingCanvasMeta>,
        extra: u64,
    )
        ensures
            final(self)@ == old(self)@.visited(
                path@,
                Visit {
                    name: name@,
                    format: format@,
                    now,
                    modified,
                    meta: meta_view(meta),
                    extra,
                },
            ),
    {
        let ghost v = Visit {
            name: name@,
            format: format@,
            now,
            modified,
            meta: meta_view(meta),
            extra,
        };
        let ghost start = self@;
        let at: usize = self.find(path);
        if at < self.entries.len() {
            self.visit_entry(at, name, format, now, modified, meta, extra);
        } else {
            let (collection, tags, nsfw) = match meta {
                Some(m) => (m.collection, m.tags, m.nsfw),
                None => (String::new(), Vec::new(), false),
            };
            let e = LibraryEntry {
                path: path.to_owned(),
                name,
                format,
                collection,
                time_spent_secs: extra,
                modified,
                last_opened: now,
                pinned: false,
                thumb_path: None,
                tags,
                nsfw,
            };
            assert(e@ =~= fresh_entry(path@, v));
            self.entries.insert(0, e);
        }
        assert(self@ =~= start.with_visit(path@, v));
        self.order_entries();
    }

    fn visit_entry(
        &mut self,
        at: usize,
        name: String,
        format: String,
        now: u64,
        modified: u64,
        meta: Option<PendingCanvasMeta>,
        extra: u64,
    )
        requires
            at < old(self).entries.len(),
        ensures
            final(self)@ == (Library {
                entries: old(self)@.entries.update(
                    at as int,
                    visited_entry(
                        old(self)@.entries[at as int],
                        Visit {
                            name: name@,
                            format: format@,
                            now,
                            modified,
                            meta: meta_view(meta),
                            extra,
                        },
                    ),
                ),
                ..old(self)@
            }),
            final(self).entries.len() == old(self).entries.len(),
    {
        let ghost v = Visit {
            name: name@,
            format: format@,
            now,
            modified,
            meta: meta_view(meta),
            extra,
        };
        let mut e = self.entries[at].copy();
        e.name = name;
        e.format = format;
        e.modified = modified;
        e.last_opened = now;
        e.thumb_path = None;
        e.time_spent_secs = sum(e.time_spent_secs, extra);
        match meta {
            Some(m) => {
                if !is_blank(m.collection.as_str()) {
                    e.collection = m.collection;
                }
                if m.tags.len() > 0 {
                    e.tags = m.tags;
                }
                e.nsfw = m.nsfw;
            },
            None => {},
        }
        assert(e@ =~= visited_entry(self@.entries[at as int], v));
        self.put(at, e);
    }

    /// Replaces one entry.
    fn put(&mut self, at: usize, e: LibraryEntry)
        requires
            at < old(self).entries.len(),
        ensures
            final(self)@ == (Library {
                entries: old(self)@.entries.update(at as int, e@),
                ..old(self)@
            }),
            final(self).entries.len() == old(self).entries.len(),
    {
        self.entries.set(at, e);
        assert(self@.entries =~= old(self)@.entries.update(at as int, e@));
    }

    fn order_entries(&mut self)
        ensures
            final(self)@ == (Library {
                entries: stable_sorted(
                    old(self)@.entries,
                    |a: Entry, b: Entry| opened_later(a, b),
                ),
                ..old(self)@
            }),
    {
        let ghost start = self.entries@;
        let ghost before = |a: LibraryEntry, b: LibraryEntry| opened_later(a@, b@);
        stable_sort(&mut self.entries, later, Ghost(before));
        proof {
            lemma_sorted_map(
                start,
                |e: LibraryEntry| e@,
                before,
                |a: Entry, b: Entry| opened_later(a, b),
            );
        }
    }

    /// Records that a canvas was opened or saved, under the name and format of
    /// its file. `modified` is the time that the file gives, if it gives one.
    pub fn push_library(
        &mut self,
        path: &str,
        now: u64,
        modified: Option<u64>,
        meta: Option<PendingCanvasMeta>,
        extra: u64,
    )
        ensures
            names_file(path@) ==> final(self)@ == old(self)@.visited(
                path@,
                file_visit(path@, now, modified, meta_view(meta), extra),
            ),
            exists|name: Seq<char>, format: Seq<char>|
                final(self)@ == #[trigger] old(self)@.visited_as(
                    path@,
                    file_visit(path@, now, modified, meta_view(meta), extra),
                    name,
                    format,
                ) && reads_as(path@, name, format),
    {
        let name = file_name_or(path, "Untitled");
        let format = format_of(path);
        assert(reads_as(path@, name@, format@));
        let ghost old_time = modified;
        let modified: u64 = match modified {
            Some(m) => m,
            None => now,
        };
        let ghost v = file_visit(path@, now, old_time, meta_view(meta), extra);
        assert(self@.visited_as(path@, v, name@, format@) == self@.visited(
            path@,
            Visit { name: name@, format: format@, now, modified, meta: meta_view(meta), extra },
        ));
        self.record(path, name, format, now, modified, meta, extra);
    }

    /// Gives a file an entry where it has none: in front of the others, which
    /// keep their order. Whether there is such a file is `is_file`. Tells
    /// whether the library changed.
    pub fn ensure_library_entry(
        &mut self,
        path: &str,
        is_file: bool,
        now: u64,
        modified: Option<u64>,
    ) -> (r: bool)
        ensures
            names_file(path@) ==> final(self)@ == (if is_file {
                old(self)@.ensured(path@, file_visit(path@, now, modified, None, 0))
            } else {
                old(self)@
            }),
            !is_file || old(self)@.knows(path@) ==> final(self)@ == old(self)@,
            r ==> exists|name: Seq<char>, format: Seq<char>|
                final(self)@ == #[trigger] old(self)@.ensured_as(
                    path@,
                    file_visit(path@, now, modified, None, 0),
                    name,
                    format,
                ) && reads_as(path@, name, format),
            r == (is_file && !old(self)@.knows(path@)),
    {
        let ghost v = file_visit(path@, now, modified, None, 0);
        if !is_file || self.find(path) < self.entries.len() {
            return false;
        }
        let name = file_name_or(path, "Untitled");
        let format = format_of(path);
        assert(reads_as(path@, name@, format@));
        let modified: u64 = match modified {
            Some(m) => m,
            None => now,
        };
        assert(self@.ensured_as(path@, v, name@, format@) == self@.ensured(
            path@,
            Visit { name: name@, format: format@, ..v },
        ));
        self.add_entry(path, name, format, now, modified);
        true
    }

    /// Puts a new entry in front of the others.
    pub fn add_entry(&mut self, path: &str, name: String, format: String, now: u64, modified: u64)
        ensures
            final(self)@ == (Library {
                entries: seq![
                    fresh_entry(
                        path@,
                        Visit {
                            name: name@,
                            format: format@,
                            now,
                            modified,
                            meta: None,
                            extra: 0,
                        },
                    ),
                ] + old(self)@.entries,
                ..old(self)@
            }),
    {
        let ghost v = Visit {
            name: name@,
            format: format@,
            now,
            modified,
            meta: None,
            extra: 0,
        };
        let e = LibraryEntry {
            path: path.to_owned(),
            name,
            format,
            collection: String::new(),
            time_spent_secs: 0,
            modified,
            last_opened: now,
            pinned: false,
            thumb_path: None,
            tags: Vec::new(),
            nsfw: false,
        };
        assert(e@ =~= fresh_entry(path@, v));
        self.entries.insert(0, e);
        assert(self@.entries =~= seq![fresh_entry(path@, v)] + old(self)@.entries);
    }

    /// Adds seconds to the time of a canvas; tells whether it is known.
    pub fn add_time(&mut self, path: &str, secs: u64) -> (r: bool)
        ensures
            r == old(self)@.knows(path@),
            final(self)@ == old(self)@.with_changed(
                path@,
                Entry {
                    time_spent_secs: sum_of(old(self)@.entry(path@).time_spent_secs, secs),
                    ..old(self)@.entry(path@)
                },
            ),
    {
        let at: usize = self.find(path);
        if at < self.entries.len() {
            let mut e = self.entries[at].copy();
            e.time_spent_secs = sum(e.time_spent_secs, secs);
            self.put(at, e);
            true
        } else {
            false
        }
    }

    /// Adds seconds to the time of the whole program.
    pub fn add_total(&mut self, secs: u64)
        ensures
            final(self)@ == (Library {
                total_app_secs: sum_of(old(self)@.total_app_secs, secs),
                ..old(self)@
            }),
    {
        self.total_app_secs = sum(self.total_app_secs, secs);
    }

    /// Pins a known canvas, or unpins it; tells whether the library changed.
    pub fn toggle_pin(&mut self, path: &str) -> (r: bool)
        ensures
            r == old(self)@.knows(path@),
            final(self)@ == old(self)@.with_changed(
                path@,
                Entry {
                    pinned: !old(self)@.entry(path@).pinned,
                    ..old(self)@.entry(path@)
                },
            ),
    {
        let at: usize = self.find(path);
        if at < self.entries.len() {
            let mut e = self.entries[at].copy();
            e.pinned = !e.pinned;
            self.put(at, e);
            true
        } else {
            false
        }
    }

    /// Marks a known canvas as not safe for work, or takes the mark off; tells
    /// whether the library changed.
    pub fn toggle_entry_nsfw(&mut self, path: &str) -> (r: bool)
        ensures
            r == old(self)@.knows(path@),
            final(self)@ == old(self)@.with_changed(
                path@,
                Entry { nsfw: !old(self)@.entry(path@).nsfw, ..old(self)@.entry(path@) },
            ),
    {
        let at: usize = self.find(path);
        if at < self.entries.len() {
            let mut e = self.entries[at].copy();
            e.nsfw = !e.nsfw;
            self.put(at, e);
            true
        } else {
            false
        }
    }

    pub fn is_path_nsfw(&self, path: &str) -> (r: bool)
        ensures
            r == (self@.knows(path@) && self@.entry(path@).nsfw),
    {
        let at: usize = self.find(path);
        at < self.entries.len() && self.entries[at].nsfw
    }

    /// Puts a known canvas into a collection; tells whether it is known.
    pub fn set_entry_collection(&mut self, path: &str, collection: String) -> (r: bool)
        ensures
            r == old(self)@.knows(path@),
            final(self)@ == old(self)@.with_changed(
                path@,
                Entry { collection: collection@, ..old(self)@.entry(path@) },
            ),
    {
        let at: usize = self.find(path);
        if at < self.entries.len() {
            let mut e = self.entries[at].copy();
            e.collection = collection;
            self.put(at, e);
            true
        } else {
            false
        }
    }

    /// Gives a known canvas a tag, or takes it away; tells whether the library
    /// is to be written. A tag without a name changes nothing.
    pub fn toggle_entry_tag(&mut self, path: &str, tag: &str) -> (r: bool)
        ensures
            r == (trimmed(tag@).len() > 0 && old(self)@.knows(path@)),
            final(self)@ == (if trimmed(tag@).len() == 0 {
                old(self)@
            } else {
                old(self)@.with_changed(
                    path@,
                    Entry {
                        tags: toggled(old(self)@.entry(path@).tags, trimmed(tag@)),
                        ..old(self)@.entry(path@)
                    },
                )
            }),
    {
        let tag = trim(tag);
        if is_blank(tag.as_str()) {
            return false;
        }
        let at: usize = self.find(path);
        if at < self.entries.len() {
            let mut e = self.entries[at].copy();
            let ghost tags = texts(e.tags@);
            let k: usize = place_of(&e.tags, tag.as_str());
            proof {
                lemma_text_place(tags, tag@);
            }
            if k < e.tags.len() {
                e.tags.remove(k);
            } else {
                e.tags.push(tag);
            }
            assert(texts(e.tags@) =~= toggled(tags, tag@));
            self.put(at, e);
            true
        } else {
            false
        }
    }

    /// Adds a collection of the user's; tells whether it did.
    pub fn ensure_collection(&mut self, name: &str) -> (r: bool)
        ensures
            final(self)@ == old(self)@.with_collection(name@),
            r == (own_collection(trimmed(name@)) && !old(self)@.collections.contains(
                trimmed(name@),
            )),
    {
        let name = trim(name);
        if !is_own_collection(name.as_str()) || has_text(&self.collections, name.as_str()) {
            return false;
        }
        self.collections.push(name);
        assert(self@.collections =~= old(self)@.collections.push(name@));
        true
    }

    /// Adds a tag, or gives the tag of that name the colour; tells whether the
    /// library is to be written.
    pub fn ensure_tag(&mut self, name: &str, color: [u8; 3]) -> (r: bool)
        ensures
            final(self)@ == old(self)@.with_tag(name@, color),
            r == (trimmed(name@).len() > 0),
    {
        let name = trim(name);
        if is_blank(name.as_str()) {
            return false;
        }
        let n: usize = self.tags.len();
        let mut i: usize = 0;
        while i < n && !same_text(self.tags[i].name.as_str(), name.as_str())
            invariant
                i <= n,
                n == self.tags.len(),
                self@ == old(self)@,
                forall|j: int| 0 <= j < i ==> tag_names(self@.tags)[j] != name@,
            decreases n - i,
        {
            i += 1;
        }
        proof {
            lemma_text_place_at(tag_names(self@.tags), name@, i as int);
        }
        let t = LibraryTag { name, color };
        if i < n {
            self.tags.set(i, t);
            assert(self@.tags =~= old(self)@.tags.update(i as int, t@));
        } else {
            self.tags.push(t);
            assert(self@.tags =~= old(self)@.tags.push(t@));
        }
        true
    }
}

/// A visit of a file under its own name and format, at the file's own time
/// where it gives one.
pub open spec fn file_visit(
    path: Seq<char>,
    now: u64,
    modified: Option<u64>,
    meta: Option<Meta>,
    extra: u64,
) -> Visit {
    Visit {
        name: last_name(path),
        format: format_text(name_extension(last_name(path))),
        now,
        modified: match modified {
            Some(m) => m,
            None => now,
        },
        meta,
        extra,
    }
}

} // verus!
