//! The library as the open document's files see it. Where a function tells
//! whether the library is to be written, it is the caller that writes it.
use vstd::prelude::*;
use crate::files::catalog::{names_with, pair_views, path_names};
use crate::files::library::{
    COLLECTION_ALL, COLLECTION_RECENT, Entry, file_visit, own_collection, reads_as, toggled,
};
use crate::files::state::{FileState, Files};
use crate::lists::{at_most, chosen};
use crate::paths::reading::names_file;
use crate::text::{texts, trimmed};

verus! {

impl FileState {
    /// The names of all collections.
    pub fn collection_names(&self) -> (r: Vec<String>)
        ensures
            texts(r@) == names_with(
                seq![COLLECTION_RECENT@, COLLECTION_ALL@] + self@.library.collections,
                self@.library.entries,
            ),
    {
        self.library.collection_names()
    }

    /// The paths and names of the first canvases that are still on disk.
    pub fn recent_paths(&self, is_file: &Vec<bool>, limit: usize) -> (r: Vec<(String, String)>)
        requires
            is_file.len() == self.library.entries.len(),
        ensures
            pair_views(r@) == at_most(
                path_names(chosen(self@.library.entries, is_file@)),
                limit as int,
            ),
    {
        self.library.recent_paths(is_file, limit)
    }

    /// Adds a collection; tells whether the library is to be written.
    pub fn ensure_collection(&mut self, name: &str) -> (r: bool)
        ensures
            final(self)@ == (Files {
                library: old(self)@.library.with_collection(name@),
                ..old(self)@
            }),
            r == (own_collection(trimmed(name@)) && !old(self)@.library.collections.contains(
                trimmed(name@),
            )),
    {
        self.library.ensure_collection(name)
    }

    /// Gives a tag its colour; tells whether the library is to be written.
    pub fn ensure_tag(&mut self, name: &str, color: [u8; 3]) -> (r: bool)
        ensures
            final(self)@ == (Files {
                library: old(self)@.library.with_tag(name@, color),
                ..old(self)@
            }),
            r == (trimmed(name@).len() > 0),
    {
        self.library.ensure_tag(name, color)
    }

    /// Puts a canvas into a collection; tells whether the library is to be
    /// written.
    pub fn set_entry_collection(&mut self, path: &str, collection: String) -> (r: bool)
        ensures
            r == old(self)@.library.knows(path@),
            final(self)@ == (Files {
                library: old(self)@.library.with_changed(
                    path@,
                    Entry { collection: collection@, ..old(self)@.library.entry(path@) },
                ),
                ..old(self)@
            }),
    {
        self.library.set_entry_collection(path, collection)
    }

    /// Puts a tag on a canvas, or takes it off; tells whether the library is to
    /// be written.
    pub fn toggle_entry_tag(&mut self, path: &str, tag: &str) -> (r: bool)
        ensures
            r == (trimmed(tag@).len() > 0 && old(self)@.library.knows(path@)),
            final(self)@ == (if trimmed(tag@).len() == 0 {
                old(self)@
            } else {
                Files {
                    library: old(self)@.library.with_changed(
                        path@,
                        Entry {
                            tags: toggled(old(self)@.library.entry(path@).tags, trimmed(tag@)),
                            ..old(self)@.library.entry(path@)
                        },
                    ),
                    ..old(self)@
                }
            }),
    {
        self.library.toggle_entry_tag(path, tag)
    }

    /// Whether a canvas is one to be veiled.
    pub fn is_path_nsfw(&self, path: &str) -> (r: bool)
        ensures
            r == (self@.library.knows(path@) && self@.library.entry(path@).nsfw),
    {
        self.library.is_path_nsfw(path)
    }

    /// Gives a file an entry; tells whether the library is to be written.
    pub fn ensure_library_entry(
        &mut self,
        path: &str,
        is_file: bool,
        now: u64,
        modified: Option<u64>,
    ) -> (r: bool)
        ensures
            names_file(path@) && is_file ==> final(self)@ == (Files {
                library: old(self)@.library.ensured(
                    path@,
                    file_visit(path@, now, modified, None, 0),
                ),
                ..old(self)@
            }),
            !is_file || old(self)@.library.knows(path@) ==> final(self)@ == old(self)@,
            r ==> exists|name: Seq<char>, format: Seq<char>|
                final(self)@ == (Files {
                    library: #[trigger] old(self)@.library.ensured_as(
                        path@,
                        file_visit(path@, now, modified, None, 0),
                        name,
                        format,
                    ),
                    ..old(self)@
                }) && reads_as(path@, name, format),
            r == (is_file && !old(self)@.library.knows(path@)),
    {
        self.library.ensure_library_entry(path, is_file, now, modified)
    }
}

} // verus!
