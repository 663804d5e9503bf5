//! Time spent, on the canvas and in the program.
use vstd::prelude::*;
use crate::files::laws::{lemma_changed, lemma_place};
use crate::files::library::{Entry, Library, Visit, file_visit, reads_as, sum_of};
use crate::files::state::{FileState, Files};
use crate::paths::reading::names_file;

verus! {

/// Seconds of unwritten time after which the library is written.
pub const FLUSH_SECS: u64 = 15;

/// Milliseconds of unwritten time after which the library is written.
pub const FLUSH_MS: u64 = 15_000;

impl Files {
    /// What every operation keeps of the times that are being gathered: less
    /// than a second, and less than what makes the library be written.
    pub open spec fn steady(self) -> bool {
        &&& self.canvas_time_accum < 1000
        &&& self.app_time_accum < 1000
        &&& self.time_dirty_secs < FLUSH_SECS
        &&& self.app_time_dirty < FLUSH_MS
    }

    /// Whole seconds of canvas time that are complete with the milliseconds.
    pub open spec fn whole_canvas_secs(self, millis: i64) -> int {
        (self.canvas_time_accum + millis) / 1000
    }

    /// Whether the milliseconds make the library be written.
    pub open spec fn canvas_time_due(self, millis: i64) -> bool {
        self.time_dirty_secs + self.whole_canvas_secs(millis) >= FLUSH_SECS
    }

    /// The state after more time on the canvas. Whole seconds go to the
    /// document's entry, or wait for one.
    pub open spec fn with_canvas_time(self, millis: i64) -> Files {
        let whole = self.whole_canvas_secs(millis) as u64;
        if millis <= 0 {
            self
        } else if whole == 0 {
            Files { canvas_time_accum: (self.canvas_time_accum + millis) as u64, ..self }
        } else {
            let counted = Files {
                canvas_time_accum: ((self.canvas_time_accum + millis) % 1000) as u64,
                time_dirty_secs: if self.canvas_time_due(millis) {
                    0
                } else {
                    (self.time_dirty_secs + whole) as u64
                },
                ..self
            };
            match self.path {
                Some(p) if self.library.knows(p) => Files {
                    library: self.library.with_changed(
                        p,
                        Entry {
                            time_spent_secs: sum_of(self.library.entry(p).time_spent_secs, whole),
                            ..self.library.entry(p)
                        },
                    ),
                    ..counted
                },
                _ => Files { orphan_time_secs: sum_of(self.orphan_time_secs, whole), ..counted },
            }
        }
    }

    /// The state after more time in the program.
    pub open spec fn with_app_time(self, millis: i64) -> Files {
        if millis <= 0 {
            self
        } else {
            Files {
                library: Library {
                    total_app_secs: sum_of(
                        self.library.total_app_secs,
                        ((self.app_time_accum + millis) / 1000) as u64,
                    ),
                    ..self.library
                },
                app_time_accum: ((self.app_time_accum + millis) % 1000) as u64,
                app_time_dirty: if self.app_time_dirty + millis >= FLUSH_MS {
                    0
                } else {
                    (self.app_time_dirty + millis) as u64
                },
                ..self
            }
        }
    }

    /// The state after the document was opened or saved under a path: the
    /// library has the visit, and what waited for an entry is used up.
    pub open spec fn with_library_visit(self, path: Seq<char>, v: Visit) -> Files {
        Files {
            library: self.library.visited(path, v),
            pending_meta: None,
            orphan_time_secs: 0,
            ..self
        }
    }
}

impl FileState {
    /// Adds time to the open canvas; tells whether the library is to be
    /// written.
    pub fn add_time_spent(&mut self, millis: i64) -> (r: bool)
        requires
            old(self)@.steady(),
        ensures
            final(self)@ == old(self)@.with_canvas_time(millis),
            final(self)@.steady(),
            r == (millis > 0 && old(self)@.canvas_time_due(millis)),
    {
        if millis <= 0 {
            return false;
        }
        let gathered: u64 = self.canvas_time_accum + millis as u64;
        let whole: u64 = gathered / 1000;
        assert(whole as int == self@.whole_canvas_secs(millis));
        if whole == 0 {
            self.canvas_time_accum = gathered;
            return false;
        }
        self.canvas_time_accum = gathered % 1000;
        let due: bool = self.time_dirty_secs + whole >= FLUSH_SECS;
        self.time_dirty_secs =
        if due {
            0
        } else {
            self.time_dirty_secs + whole
        };
        let known: bool = match &self.path {
            Some(p) => self.library.add_time(p.as_str(), whole),
            None => false,
        };
        if !known {
            self.orphan_time_secs = self.orphan_time_secs.saturating_add(whole);
        }
        assert(self@ =~= old(self)@.with_canvas_time(millis));
        due
    }

    /// Adds time to the program's; tells whether the library is to be written.
    pub fn add_app_time(&mut self, millis: i64) -> (r: bool)
        requires
            old(self)@.steady(),
        ensures
            final(self)@ == old(self)@.with_app_time(millis),
            final(self)@.steady(),
            r == (millis > 0 && old(self)@.app_time_dirty + millis >= FLUSH_MS),
    {
        if millis <= 0 {
            return false;
        }
        let gathered: u64 = self.app_time_accum + millis as u64;
        self.library.add_total(gathered / 1000);
        self.app_time_accum = gathered % 1000;
        let dirty: u64 = self.app_time_dirty + millis as u64;
        let due: bool = dirty >= FLUSH_MS;
        self.app_time_dirty =
        if due {
            0
        } else {
            dirty
        };
        assert(self@ =~= old(self)@.with_app_time(millis));
        due
    }

    /// Forgets that time is unwritten; tells whether the library is to be
    /// written for it.
    pub fn flush_time(&mut self) -> (r: bool)
        ensures
            r == (old(self)@.time_dirty_secs > 0 || old(self)@.app_time_dirty > 0),
            final(self)@ == (Files { time_dirty_secs: 0, app_time_dirty: 0, ..old(self)@ }),
            old(self)@.steady() ==> final(self)@.steady(),
    {
        if self.time_dirty_secs > 0 || self.app_time_dirty > 0 {
            self.time_dirty_secs = 0;
            self.app_time_dirty = 0;
            true
        } else {
            false
        }
    }

    pub fn total_app_secs(&self) -> (r: u64)
        ensures
            r == self@.library.total_app_secs,
    {
        self.library.total_app_secs
    }

    /// Records the document in the library, with what waited for its entry.
    pub fn push_library(&mut self, path: &str, now: u64, modified: Option<u64>)
        ensures
            names_file(path@) ==> final(self)@ == old(self)@.with_library_visit(
                path@,
                file_visit(
                    path@,
                    now,
                    modified,
                    old(self)@.pending_meta,
                    old(self)@.orphan_time_secs,
                ),
            ),
            exists|name: Seq<char>, format: Seq<char>|
                final(self)@ == #[trigger] old(self)@.visited_as(
                    path@,
                    now,
                    modified,
                    name,
                    format,
                ) && reads_as(path@, name, format),
    {
        let meta = self.pending_meta.take();
        let extra: u64 = self.orphan_time_secs;
        self.orphan_time_secs = 0;
        let ghost start = self.library@;
        self.library.push_library(path, now, modified, meta, extra);
        proof {
            let v = file_visit(path@, now, modified, old(self)@.pending_meta, extra);
            let (name, format) = choose|name: Seq<char>, format: Seq<char>|
                self.library@ == #[trigger] start.visited_as(path@, v, name, format) && reads_as(
                    path@,
                    name,
                    format,
                );
            assert(self@ =~= old(self)@.visited_as(path@, now, modified, name, format));
        }
    }

    /// Pins or unpins a canvas, which gets an entry first where it is a file
    /// without one. Tells whether the library is to be written.
    pub fn toggle_pin(&mut self, path: &str, is_file: bool, now: u64, modified: Option<u64>) -> (r:
        bool)
        ensures
            names_file(path@) ==> final(self)@ == (Files {
                library: old(self)@.library.with_entry(path@, is_file, now, modified).with_pin(
                    path@,
                ),
                ..old(self)@
            }),
            old(self)@.library.knows(path@) || !is_file ==> final(self)@ == (Files {
                library: old(self)@.library.with_pin(path@),
                ..old(self)@
            }),
            is_file && !old(self)@.library.knows(path@) ==> exists|
                name: Seq<char>,
                format: Seq<char>,
            |
                final(self)@ == (Files {
                    library: (#[trigger] old(self)@.library.ensured_as(
                        path@,
                        file_visit(path@, now, modified, None, 0),
                        name,
                        format,
                    )).with_pin(path@),
                    ..old(self)@
                }) && reads_as(path@, name, format),
            r == (is_file || old(self)@.library.knows(path@)),
    {
        let added: bool = self.library.ensure_library_entry(path, is_file, now, modified);
        proof {
            self.lemma_added(*old(self), path@, is_file, now, modified, added);
        }
        let changed: bool = self.library.toggle_pin(path);
        added || changed
    }

    /// Marks a canvas as not safe for work, or takes the mark off; it gets an
    /// entry first where it is a file without one. Tells whether the library
    /// is to be written.
    pub fn toggle_entry_nsfw(
        &mut self,
        path: &str,
        is_file: bool,
        now: u64,
        modified: Option<u64>,
    ) -> (r: bool)
        ensures
            names_file(path@) ==> final(self)@ == (Files {
                library: old(self)@.library.with_entry(path@, is_file, now, modified).with_mark(
                    path@,
                ),
                ..old(self)@
            }),
            old(self)@.library.knows(path@) || !is_file ==> final(self)@ == (Files {
                library: old(self)@.library.with_mark(path@),
                ..old(self)@
            }),
            is_file && !old(self)@.library.knows(path@) ==> exists|
                name: Seq<char>,
                format: Seq<char>,
            |
                final(self)@ == (Files {
                    library: (#[trigger] old(self)@.library.ensured_as(
                        path@,
                        file_visit(path@, now, modified, None, 0),
                        name,
                        format,
                    )).with_mark(path@),
                    ..old(self)@
                }) && reads_as(path@, name, format),
            r == (is_file || old(self)@.library.knows(path@)),
    {
        let added: bool = self.library.ensure_library_entry(path, is_file, now, modified);
        proof {
            self.lemma_added(*old(self), path@, is_file, now, modified, added);
        }
        let changed: bool = self.library.toggle_entry_nsfw(path);
        added || changed
    }

    proof fn lemma_added(
        self,
        start: FileState,
        path: Seq<char>,
        is_file: bool,
        now: u64,
        modified: Option<u64>,
        added: bool,
    )
        requires
            added == (is_file && !start.library@.knows(path)),
            added ==> exists|name: Seq<char>, format: Seq<char>|
                self.library@ == #[trigger] start.library@.ensured_as(
                    path,
                    file_visit(path, now, modified, None, 0),
                    name,
                    format,
                ),
        ensures
            added ==> self.library@.knows(path),
    {
        if added {
            let v = file_visit(path, now, modified, None, 0);
            let (name, format) = choose|name: Seq<char>, format: Seq<char>|
                self.library@ == #[trigger] start.library@.ensured_as(path, v, name, format);
            let l = self.library@;
            assert(l.same(l.entries[0].path, path));
            lemma_place(l, path);
        }
    }
}

impl Files {
    /// The state after a visit under that name and format.
    pub open spec fn visited_as(
        self,
        path: Seq<char>,
        now: u64,
        modified: Option<u64>,
        name: Seq<char>,
        format: Seq<char>,
    ) -> Files {
        let v = file_visit(path, now, modified, self.pending_meta, self.orphan_time_secs);
        self.with_library_visit(path, Visit { name, format, ..v })
    }
}

impl Library {
    /// The library with an entry for a file.
    pub open spec fn with_entry(
        self,
        path: Seq<char>,
        is_file: bool,
        now: u64,
        modified: Option<u64>,
    ) -> Library {
        if is_file {
            self.ensured(path, file_visit(path, now, modified, None, 0))
        } else {
            self
        }
    }

    /// The library with a canvas pinned, or unpinned where it was.
    pub open spec fn with_pin(self, path: Seq<char>) -> Library {
        self.with_changed(path, Entry { pinned: !self.entry(path).pinned, ..self.entry(path) })
    }

    /// The library with a canvas marked, or the mark off where it was on.
    pub open spec fn with_mark(self, path: Seq<char>) -> Library {
        self.with_changed(path, Entry { nsfw: !self.entry(path).nsfw, ..self.entry(path) })
    }
}

/// No time is lost: what was given to the canvas is in the library, waits for
/// an entry or is not yet a whole second.
pub proof fn law_canvas_time_is_kept(f: Files, millis: i64)
    requires
        f.steady(),
        millis > 0,
        f.orphan_time_secs + f.whole_canvas_secs(millis) <= u64::MAX,
        f.path matches Some(p) ==> f.library.knows(p) ==> f.library.entry(p).time_spent_secs
            + f.whole_canvas_secs(millis) <= u64::MAX,
    ensures
        f.with_canvas_time(millis).canvas_total() == f.canvas_total() + millis,
        f.with_canvas_time(millis).steady(),
{
    let r = f.with_canvas_time(millis);
    if let Some(p) = f.path {
        lemma_place(f.library, p);
        if f.library.knows(p) {
            let e = Entry {
                time_spent_secs: sum_of(
                    f.library.entry(p).time_spent_secs,
                    f.whole_canvas_secs(millis) as u64,
                ),
                ..f.library.entry(p)
            };
            lemma_changed(f.library, p, e);
        }
    }
}

impl Files {
    /// Milliseconds spent on the open canvas, wherever they are counted.
    pub open spec fn canvas_total(self) -> int {
        self.canvas_time_accum + 1000 * self.orphan_time_secs + match self.path {
            Some(p) if self.library.knows(p) => 1000 * self.library.entry(p).time_spent_secs,
            _ => 0,
        }
    }
}

} // verus!
