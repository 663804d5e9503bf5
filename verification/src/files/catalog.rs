//! Reading the library: its collections, the canvases that are still there,
//! and what an older program left.
use vstd::prelude::*;
use crate::files::library::{
    COLLECTION_ALL, COLLECTION_RECENT, Entry, Library, LibraryEntry, LibraryStore, entry_views,
};
use crate::lists::{at_most, chosen};
use crate::paths::{format_of, tells_format};
use crate::paths::parts::{is_under, lies_under};
use crate::paths::reading::System;
use crate::text::{copy_texts, has_text, is_blank, texts};

verus! {

/// The names that the entries add to a list of collections: each one that is
/// not empty and not in the list yet, in order.
pub open spec fn names_with(names: Seq<Seq<char>>, entries: Seq<Entry>) -> Seq<Seq<char>>
    decreases entries.len(),
{
    if entries.len() == 0 {
        names
    } else {
        let before = names_with(names, entries.drop_last());
        let c = entries.last().collection;
        if c.len() > 0 && !before.contains(c) {
            before.push(c)
        } else {
            before
        }
    }
}

/// What the older list of recent canvases knew of one.
pub struct LegacyRecentEntry {
    pub path: String,
    pub name: String,
    pub modified: u64,
}

/// The entry of a canvas of the older list.
pub open spec fn migrated(path: Seq<char>, name: Seq<char>, modified: u64, format: Seq<char>) -> Entry {
    Entry {
        path,
        name,
        format,
        collection: Seq::empty(),
        time_spent_secs: 0,
        modified,
        last_opened: modified,
        pinned: false,
        thumb_path: None,
        tags: Seq::empty(),
        nsfw: false,
    }
}

/// The path and the name of each entry.
pub open spec fn path_names(entries: Seq<Entry>) -> Seq<(Seq<char>, Seq<char>)> {
    entries.map_values(|e: Entry| (e.path, e.name))
}

pub open spec fn pair_views(v: Seq<(String, String)>) -> Seq<(Seq<char>, Seq<char>)> {
    v.map_values(|p: (String, String)| (p.0@, p.1@))
}

impl LibraryStore {
    /// The names of all collections: the built-in ones, the user's, and those
    /// that only an entry names.
    pub fn collection_names(&self) -> (r: Vec<String>)
        ensures
            texts(r@) == names_with(
                seq![COLLECTION_RECENT@, COLLECTION_ALL@] + self@.collections,
                self@.entries,
            ),
    {
        let mut names = vec![COLLECTION_RECENT.to_owned(), COLLECTION_ALL.to_owned()];
        let mut own = copy_texts(&self.collections);
        names.append(&mut own);
        let ghost start = seq![COLLECTION_RECENT@, COLLECTION_ALL@] + self@.collections;
        assert(texts(names@) =~= start) by {
            assert forall|i: int| 0 <= i < texts(names@).len() implies texts(names@)[i]
                == start[i] by {
                if i >= 2 {
                    assert(texts(self.collections@)[i - 2] == start[i]);
                }
            }
        }
        let n: usize = self.entries.len();
        let mut i: usize = 0;
        assert(self@.entries.take(0) =~= Seq::empty());
        while i < n
            invariant
                i <= n,
                n == self.entries.len(),
                texts(names@) == names_with(start, self@.entries.take(i as int)),
            decreases n - i,
        {
            let c = self.entries[i].collection.as_str();
            let ghost before = texts(names@);
            proof {
                let t = self@.entries.take(i + 1);
                assert(t.drop_last() =~= self@.entries.take(i as int));
                assert(t.last() == self.entries@[i as int]@);
            }
            if !is_blank(c) && !has_text(&names, c) {
                names.push(c.to_owned());
                assert(texts(names@) =~= before.push(c@));
            }
            i += 1;
        }
        assert(self@.entries.take(n as int) =~= self@.entries);
        names
    }

    /// The paths and names of the first canvases that are still on disk.
    /// `is_file` tells of each entry, in order, whether it is.
    pub fn recent_paths(&self, is_file: &Vec<bool>, limit: usize) -> (r: Vec<(String, String)>)
        requires
            is_file.len() == self.entries.len(),
        ensures
            pair_views(r@) == at_most(
                path_names(chosen(self@.entries, is_file@)),
                limit as int,
            ),
    {
        let n: usize = self.entries.len();
        let mut out: Vec<(String, String)> = Vec::new();
        let mut i: usize = 0;
        assert(self@.entries.take(0) =~= Seq::empty());
        assert(pair_views(out@) =~= path_names(chosen(self@.entries.take(0), is_file@)));
        while i < n
            invariant
                i <= n,
                n == self.entries.len(),
                n == is_file.len(),
                pair_views(out@) == path_names(
                    chosen(self@.entries.take(i as int), is_file@),
                ),
            decreases n - i,
        {
            let ghost before = pair_views(out@);
            let ghost kept = chosen(self@.entries.take(i as int), is_file@);
            proof {
                let t = self@.entries.take(i + 1);
                assert(t.drop_last() =~= self@.entries.take(i as int));
                assert(t.last() == self.entries@[i as int]@);
            }
            if is_file[i] {
                let e = &self.entries[i];
                let ghost ge = e@;
                out.push((e.path.as_str().to_owned(), e.name.as_str().to_owned()));
                assert(pair_views(out@) =~= before.push((ge.path, ge.name)));
                assert(path_names(kept.push(ge)) =~= path_names(kept).push((ge.path, ge.name)));
            }
            i += 1;
        }
        assert(self@.entries.take(n as int) =~= self@.entries);
        let ghost all = pair_views(out@);
        assert(all.len() == out.len());
        if limit < out.len() {
            out.truncate(limit);
            assert(pair_views(out@) =~= all.take(limit as int));
        }
        out
    }

    /// Takes over the older list where the library is empty.
    pub fn migrate_recent(&mut self, legacy: Vec<LegacyRecentEntry>)
        ensures
            old(self).entries.len() > 0 ==> final(self)@ == old(self)@,
            old(self).entries.len() == 0 ==> {
                &&& final(self)@ == (Library { entries: final(self)@.entries, ..old(self)@ })
                &&& final(self)@.entries.len() == legacy@.len()
                &&& forall|i: int|
                    0 <= i < legacy@.len() ==> migrated_from(
                        #[trigger] final(self)@.entries[i],
                        legacy@[i],
                    )
            },
    {
        if self.entries.len() > 0 {
            return;
        }
        let n: usize = legacy.len();
        let mut i: usize = 0;
        while i < n
            invariant
                i <= n,
                n == legacy.len(),
                self@ == (Library { entries: self@.entries, ..old(self)@ }),
                self.entries.len() == i,
                forall|j: int|
                    0 <= j < i ==> migrated_from(#[trigger] self@.entries[j], legacy@[j]),
            decreases n - i,
        {
            let l = &legacy[i];
            let e = LibraryEntry {
                path: l.path.as_str().to_owned(),
                name: l.name.as_str().to_owned(),
                format: format_of(l.path.as_str()),
                collection: String::new(),
                time_spent_secs: 0,
                modified: l.modified,
                last_opened: l.modified,
                pinned: false,
                thumb_path: None,
                tags: Vec::new(),
                nsfw: false,
            };
            assert(texts(e.tags@) =~= Seq::empty());
            assert(migrated_from(e@, *l));
            let ghost before = self@.entries;
            self.entries.push(e);
            assert(self@.entries =~= before.push(e@));
            assert forall|j: int| 0 <= j < i + 1 implies migrated_from(
                #[trigger] self@.entries[j],
                legacy@[j],
            ) by {
                if j < i {
                    assert(self@.entries[j] == before[j]);
                }
            }
            i += 1;
        }
    }

    /// Drops the canvases that are not on disk and those that an older program
    /// saved by itself into its `documents` folder. `is_file` tells of each
    /// entry, in order, whether it is on disk. Tells whether any was dropped.
    pub fn retain_saved(
        &mut self,
        is_file: &Vec<bool>,
        documents: Option<&str>,
    ) -> (r: bool)
        requires
            is_file.len() == old(self).entries.len(),
        ensures
            final(self)@ == (Library {
                entries: chosen(
                    old(self)@.entries,
                    saved_flags(
                        old(self)@.entries,
                        is_file@,
                        str_view(documents),
                        old(self)@.system,
                    ),
                ),
                ..old(self)@
            }),
            r == (final(self)@.entries.len() != old(self)@.entries.len()),
    {
        let n: usize = self.entries.len();
        let mut kept: Vec<LibraryEntry> = Vec::new();
        let mut i: usize = 0;
        let ghost all = self@.entries;
        let ghost yes = saved_flags(all, is_file@, str_view(documents), self.system);
        assert(all.take(0) =~= Seq::empty());
        assert(entry_views(kept@) =~= chosen(all.take(0), yes));
        while i < n
            invariant
                i <= n,
                n == self.entries.len(),
                n == is_file.len(),
                self@ == old(self)@,
                all == self@.entries,
                yes == saved_flags(all, is_file@, str_view(documents), self.system),
                entry_views(kept@) == chosen(all.take(i as int), yes),
            decreases n - i,
        {
            let ghost before = entry_views(kept@);
            proof {
                let t = all.take(i + 1);
                assert(t.drop_last() =~= all.take(i as int));
                assert(t.last() == self.entries@[i as int]@);
            }
            let left = match documents {
                Some(d) => is_under(self.entries[i].path.as_str(), d, self.system),
                None => false,
            };
            if !left && is_file[i] {
                let e = self.entries[i].copy();
                kept.push(e);
                assert(entry_views(kept@) =~= before.push(e@));
            }
            i += 1;
        }
        assert(all.take(n as int) =~= all);
        let changed: bool = kept.len() != n;
        assert(entry_views(kept@).len() == kept@.len());
        self.entries = kept;
        changed
    }
}

/// Whether an entry is that of a canvas of the older list.
pub open spec fn migrated_from(e: Entry, l: LegacyRecentEntry) -> bool {
    &&& e == migrated(l.path@, l.name@, l.modified, e.format)
    &&& tells_format(l.path@, e.format)
}

pub open spec fn str_view(s: Option<&str>) -> Option<Seq<char>> {
    match s {
        Some(t) => Some(t@),
        None => None,
    }
}

/// Of each entry, whether it is on disk and was saved by the user.
pub open spec fn saved_flags(
    entries: Seq<Entry>,
    is_file: Seq<bool>,
    documents: Option<Seq<char>>,
    system: System,
) -> Seq<bool> {
    Seq::new(
        entries.len(),
        |i: int|
            is_file[i] && !(documents is Some && lies_under(
                entries[i].path,
                documents->Some_0,
                system,
            )),
    )
}

} // verus!
