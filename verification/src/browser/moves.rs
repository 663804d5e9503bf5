//! Going from folder to folder.
//!
//! Whether a path is a folder is asked by the caller and handed in.
use vstd::prelude::*;
use crate::browser::address::PathKind;
use crate::browser::section::{SideSection, moved, reorder_side_section};
use crate::browser::state::{
    Browser, BrowserLoc, Detail, FileBrowser, Loc, Place, SidePlace, Thumbs, Todo, item_views,
    loc_views, next_gen, nothing, place_views, step_gen, write_and_list, write_prefs,
};
use crate::lists::{at_most, keep_first};
use crate::paths::{file_name, file_name_or, is_parent, parent, tells_name_or};
use crate::paths::parts::{drop_path, same_path, same_place, without};
use crate::paths::reading::System;
use crate::text::{opt_view, texts};

verus! {

/// How many folders are remembered.
pub const MAX_RECENT: usize = 12;

/// A list with a path in front, once, and no longer than it may be.
pub open spec fn fronted(list: Seq<Seq<char>>, x: Seq<char>, system: System) -> Seq<Seq<char>> {
    at_most(seq![x] + without(list, x, system), MAX_RECENT as int)
}

/// The history after going somewhere: what came after the present place is
/// forgotten, and the place itself is not repeated.
pub open spec fn gone_to(history: Seq<Loc>, idx: int, loc: Loc, system: System) -> Seq<Loc> {
    let h = history.take(idx + 1);
    if h.last().same(loc, system) {
        h
    } else {
        h.push(loc)
    }
}

/// A list of places without those of a path.
pub open spec fn places_without(list: Seq<Place>, path: Seq<char>, system: System) -> Seq<Place>
    decreases list.len(),
{
    if list.len() == 0 {
        list
    } else {
        let before = places_without(list.drop_last(), path, system);
        if same_place(list.last().path, path, system) {
            before
        } else {
            before.push(list.last())
        }
    }
}

/// Whether a list of places has a path.
pub open spec fn is_marked(list: Seq<Place>, path: Seq<char>, system: System) -> bool {
    exists|i: int| 0 <= i < list.len() && same_place((#[trigger] list[i]).path, path, system)
}

impl Browser {
    /// No file has a large preview.
    pub open spec fn no_detail(self) -> Detail {
        Detail { path: None, ready: false, waiting: false, ..self.detail }
    }

    /// The list is being made anew. The gallery is not listed so.
    pub open spec fn relisted(self) -> Browser {
        if self.in_gallery {
            self
        } else {
            Browser {
                list_gen: next_gen(self.list_gen),
                listing: true,
                loading: true,
                error: None,
                entries: Seq::empty(),
                ..self
            }
        }
    }

    /// The history after going somewhere.
    pub open spec fn with_history(self, loc: Loc) -> Browser {
        Browser {
            history: gone_to(self.history, self.history_idx, loc, self.system),
            history_idx: gone_to(self.history, self.history_idx, loc, self.system).len() - 1,
            ..self
        }
    }

    pub open spec fn at_gallery(self, push: bool) -> Browser {
        let b = if push {
            self.with_history(Loc::Gallery)
        } else {
            self
        };
        Browser {
            in_gallery: true,
            selected: Seq::empty(),
            select_anchor: None,
            file_name: Seq::empty(),
            detail: self.no_detail(),
            thumbs: Thumbs { queue: Seq::empty(), pending: Seq::empty(), ..self.thumbs },
            entries: Seq::empty(),
            loading: false,
            error: None,
            path_edit_focused: false,
            path_edit: "Gallery"@,
            ..b
        }
    }

    pub open spec fn at_folder(self, path: Seq<char>, push: bool) -> Browser {
        let b = if push {
            self.with_history(Loc::Dir(path))
        } else {
            self
        };
        (Browser {
            in_gallery: false,
            selected: Seq::empty(),
            select_anchor: None,
            file_name: Seq::empty(),
            detail: self.no_detail(),
            recent_dirs: fronted(self.recent_dirs, path, self.system),
            cwd: path,
            path_edit: if self.path_edit_focused {
                self.path_edit
            } else {
                path
            },
            thumbs: Thumbs { queue: Seq::empty(), pending: Seq::empty(), ..self.thumbs },
            ..b
        }).relisted()
    }

    /// The browser at a place. A folder that is not there leaves it where it
    /// is.
    pub open spec fn at(self, loc: Loc, push: bool, is_dir: bool) -> Browser {
        match loc {
            Loc::Gallery => self.at_gallery(push),
            Loc::Dir(p) => if is_dir {
                self.at_folder(p, push)
            } else {
                self
            },
        }
    }

    /// What is to be done after going to a place.
    pub open spec fn todo_at(loc: Loc, is_dir: bool) -> Todo {
        match loc {
            Loc::Gallery => write_prefs(),
            Loc::Dir(_) => if is_dir {
                write_and_list()
            } else {
                nothing()
            },
        }
    }
}

fn put_history(history: &mut Vec<BrowserLoc>, idx: usize, loc: BrowserLoc, system: System) -> (r:
    usize)
    requires
        idx < old(history).len(),
    ensures
        loc_views(final(history)@) == gone_to(loc_views(old(history)@), idx as int, loc@, system),
        r == final(history).len() - 1,
        final(history).len() > 0,
{
    let ghost h = loc_views(old(history)@).take(idx + 1);
    history.truncate(idx + 1);
    assert(loc_views(history@) =~= h);
    assert(h.last() == history@[idx as int]@);
    if !history[idx].same(&loc, system) {
        history.push(loc);
        assert(loc_views(history@) =~= h.push(loc@));
    }
    history.len() - 1
}

/// Whether a path is there and is the same as another.
pub open spec fn is_that(p: Option<Seq<char>>, path: Seq<char>, system: System) -> bool {
    p matches Some(a) && same_place(a, path, system)
}

fn is_path(p: &Option<String>, path: &str, system: System) -> (r: bool)
    ensures
        r == is_that(opt_view(*p), path@, system),
{
    match p {
        Some(a) => same_path(a.as_str(), path, system),
        None => false,
    }
}

fn anchor_after(anchor: Option<String>, selected: &Vec<String>, path: &str, system: System) -> (r:
    Option<String>)
    ensures
        opt_view(r) == anchor_without(opt_view(anchor), texts(selected@), path@, system),
{
    if !is_path(&anchor, path, system) {
        return anchor;
    }
    let n: usize = selected.len();
    assert(texts(selected@).len() == n);
    if n > 0 {
        assert(texts(selected@).last() == selected@[n - 1]@);
        Some(selected[n - 1].as_str().to_owned())
    } else {
        None
    }
}

/// What is done to delete a path. A folder goes only where it is empty: what is
/// in it is never deleted along with it.
#[derive(Clone, Copy, PartialEq, Eq, Structural)]
pub enum Deletion {
    File,
    EmptyFolder,
    Nothing,
}

impl Browser {
    /// Whether going up leads from here to a folder above, if there is one.
    pub open spec fn went_up(
        self,
        parent: Option<Seq<char>>,
        is_dir: bool,
        after: Browser,
        todo: Todo,
    ) -> bool {
        match parent {
            Some(p) if !self.in_gallery => after == self.at(Loc::Dir(p), true, is_dir) && todo
                == Browser::todo_at(Loc::Dir(p), is_dir),
            _ => after == self && todo == nothing(),
        }
    }
}

impl FileBrowser {
    pub(crate) fn start_list(&mut self) -> (r: bool)
        ensures
            final(self)@ == old(self)@.relisted(),
            r == !old(self)@.in_gallery,
    {
        if self.in_gallery {
            return false;
        }
        self.list_gen = step_gen(self.list_gen);
        self.listing = true;
        self.loading = true;
        self.error = None;
        self.entries = Vec::new();
        assert(self@.entries =~= Seq::empty());
        true
    }

    /// Lists the folder anew; the gallery refreshes by itself.
    pub fn refresh(&mut self) -> (r: Todo)
        ensures
            final(self)@ == old(self)@.relisted(),
            r == (Todo { prefs: false, list: !old(self)@.in_gallery, detail: false }),
    {
        let list: bool = self.start_list();
        Todo { prefs: false, list, detail: false }
    }

    /// After the filter was changed.
    pub fn filter_changed(&mut self) -> (r: Todo)
        ensures
            final(self)@ == old(self)@.relisted(),
            r == (Todo { prefs: true, list: !old(self)@.in_gallery, detail: false }),
    {
        let list: bool = self.start_list();
        Todo { prefs: true, list, detail: false }
    }

    fn push_history(&mut self, loc: BrowserLoc)
        requires
            old(self)@.wf(),
        ensures
            final(self)@ == old(self)@.with_history(loc@),
            final(self)@.wf(),
    {
        self.history_idx = put_history(&mut self.history, self.history_idx, loc, self.system);
    }

    fn clear_selection(&mut self)
        ensures
            final(self)@ == (Browser {
                selected: Seq::empty(),
                select_anchor: None,
                file_name: Seq::empty(),
                detail: old(self)@.no_detail(),
                ..old(self)@
            }),
    {
        self.selected = Vec::new();
        assert(texts(self.selected@) =~= Seq::empty());
        self.select_anchor = None;
        self.file_name = String::new();
        self.detail.path = None;
        self.detail.ready = false;
        self.detail.waiting = false;
    }

    fn clear_thumb_work(&mut self)
        ensures
            final(self)@ == (Browser {
                thumbs: Thumbs {
                    queue: Seq::empty(),
                    pending: Seq::empty(),
                    ..old(self)@.thumbs
                },
                ..old(self)@
            }),
    {
        self.thumbs.queue = Vec::new();
        self.thumbs.pending = Vec::new();
        assert(texts(self.thumbs.queue@) =~= Seq::empty());
        assert(texts(self.thumbs.pending@) =~= Seq::empty());
    }

    fn push_recent_dir(&mut self, path: &str)
        ensures
            final(self)@ == (Browser {
                recent_dirs: fronted(old(self)@.recent_dirs, path@, old(self)@.system),
                ..old(self)@
            }),
    {
        drop_path(&mut self.recent_dirs, path, self.system);
        let ghost rest = texts(self.recent_dirs@);
        self.recent_dirs.insert(0, path.to_owned());
        assert(texts(self.recent_dirs@) =~= seq![path@] + rest);
        keep_first(&mut self.recent_dirs, MAX_RECENT);
    }

    fn show_gallery(&mut self, push: bool)
        requires
            old(self)@.wf(),
        ensures
            final(self)@ == old(self)@.at_gallery(push),
            final(self)@.wf(),
    {
        if push {
            self.push_history(BrowserLoc::Gallery);
        }
        self.in_gallery = true;
        self.clear_selection();
        self.clear_thumb_work();
        self.entries = Vec::new();
        assert(item_views(self.entries@) =~= Seq::empty());
        self.loading = false;
        self.error = None;
        self.path_edit_focused = false;
        self.path_edit = "Gallery".to_owned();
    }

    /// Goes to a folder, if it is one.
    #[verifier::rlimit(60)]
    #[verifier::spinoff_prover]
    pub fn navigate_to(&mut self, path: String, push: bool, is_dir: bool) -> (r: Todo)
        requires
            old(self)@.wf(),
        ensures
            final(self)@ == old(self)@.at(Loc::Dir(path@), push, is_dir),
            final(self)@.wf(),
            r == Browser::todo_at(Loc::Dir(path@), is_dir),
    {
        if !is_dir {
            return nothing();
        }
        if push {
            self.push_history(BrowserLoc::Dir(path.as_str().to_owned()));
        }
        self.in_gallery = false;
        self.clear_selection();
        self.push_recent_dir(path.as_str());
        if !self.path_edit_focused {
            self.path_edit = path.as_str().to_owned();
        }
        self.cwd = path;
        self.clear_thumb_work();
        self.start_list();
        write_and_list()
    }

    /// Goes to a place, if it is there.
    pub fn apply_loc(&mut self, loc: BrowserLoc, push: bool, is_dir: bool) -> (r: Todo)
        requires
            old(self)@.wf(),
        ensures
            final(self)@ == old(self)@.at(loc@, push, is_dir),
            final(self)@.wf(),
            r == Browser::todo_at(loc@, is_dir),
    {
        match loc {
            BrowserLoc::Gallery => {
                self.show_gallery(push);
                write_prefs()
            },
            BrowserLoc::Dir(p) => self.navigate_to(p, push, is_dir),
        }
    }

    /// The place that going back leads to.
    pub fn back_target(&self) -> (r: Option<BrowserLoc>)
        requires
            self@.wf(),
        ensures
            match r {
                Some(l) => self@.history_idx > 0 && l@ == self@.history[self@.history_idx - 1],
                None => self@.history_idx == 0,
            },
    {
        if self.history_idx > 0 {
            let l = self.history[self.history_idx - 1].copy();
            assert(self@.history[self@.history_idx - 1] == self.history@[self.history_idx - 1]@);
            Some(l)
        } else {
            None
        }
    }

    /// The place that going forward leads to.
    pub fn forward_target(&self) -> (r: Option<BrowserLoc>)
        requires
            self@.wf(),
        ensures
            match r {
                Some(l) => self@.history_idx + 1 < self@.history.len() && l@
                    == self@.history[self@.history_idx + 1],
                None => self@.history_idx + 1 == self@.history.len(),
            },
    {
        let n: usize = self.history.len();
        assert(self@.history.len() == n);
        if self.history_idx < n && n - self.history_idx > 1 {
            let l = self.history[self.history_idx + 1].copy();
            assert(self@.history[self@.history_idx + 1] == self.history@[self.history_idx + 1]@);
            Some(l)
        } else {
            None
        }
    }

    /// Goes one place back in the history. `is_dir` tells of the place it leads
    /// to whether it is still a folder.
    #[verifier::rlimit(40)]
    pub fn go_back(&mut self, is_dir: bool) -> (r: Todo)
        requires
            old(self)@.wf(),
        ensures
            final(self)@.wf(),
            old(self)@.history_idx == 0 ==> final(self)@ == old(self)@ && r == nothing(),
            old(self)@.history_idx > 0 ==> {
                let loc = old(self)@.history[old(self)@.history_idx - 1];
                let b = Browser { history_idx: old(self)@.history_idx - 1, ..old(self)@ };
                final(self)@ == b.at(loc, false, is_dir) && r == Browser::todo_at(loc, is_dir)
            },
    {
        match self.back_target() {
            Some(loc) => {
                self.history_idx = self.history_idx - 1;
                self.apply_loc(loc, false, is_dir)
            },
            None => nothing(),
        }
    }

    /// Goes one place forward in the history.
    pub fn go_forward(&mut self, is_dir: bool) -> (r: Todo)
        requires
            old(self)@.wf(),
        ensures
            final(self)@.wf(),
            old(self)@.history_idx + 1 == old(self)@.history.len() ==> final(self)@ == old(self)@
                && r == nothing(),
            old(self)@.history_idx + 1 < old(self)@.history.len() ==> {
                let loc = old(self)@.history[old(self)@.history_idx + 1];
                let b = Browser { history_idx: old(self)@.history_idx + 1, ..old(self)@ };
                final(self)@ == b.at(loc, false, is_dir) && r == Browser::todo_at(loc, is_dir)
            },
    {
        match self.forward_target() {
            Some(loc) => {
                assert(self@.history.len() == self.history.len());
                let n: usize = self.history.len();
                assert(self.history_idx < n);
                self.history_idx = self.history_idx + 1;
                self.apply_loc(loc, false, is_dir)
            },
            None => nothing(),
        }
    }

    /// The folder above the one that is shown, which the gallery does not have.
    pub fn up_target(&self) -> (r: Option<String>)
        ensures
            if self@.in_gallery {
                r is None
            } else {
                is_parent(self@.cwd, opt_view(r))
            },
    {
        if self.in_gallery {
            None
        } else {
            parent(self.cwd.as_str())
        }
    }

    /// Goes to the folder above, which the gallery does not have. `is_dir` tells
    /// whether it is still a folder.
    pub fn go_up(&mut self, is_dir: bool) -> (r: Todo)
        requires
            old(self)@.wf(),
        ensures
            final(self)@.wf(),
            exists|p: Option<Seq<char>>| #[trigger]
                is_parent(old(self)@.cwd, p) && old(self)@.went_up(p, is_dir, final(self)@, r)
                || old(self)@.in_gallery && final(self)@ == old(self)@ && r == nothing(),
    {
        let up = self.up_target();
        let ghost known = is_parent(self@.cwd, opt_view(up));
        self.go_up_to(up, is_dir)
    }

    /// Goes to the folder above, which is given.
    pub fn go_up_to(&mut self, parent: Option<String>, is_dir: bool) -> (r: Todo)
        requires
            old(self)@.wf(),
        ensures
            final(self)@.wf(),
            old(self)@.went_up(opt_view(parent), is_dir, final(self)@, r),
    {
        if self.in_gallery {
            return nothing();
        }
        match parent {
            Some(p) => self.navigate_to(p, true, is_dir),
            None => nothing(),
        }
    }

    /// Opens a path that the address bar named.
    pub fn go_address(&mut self, path: String, is_dir: bool) -> (r: Todo)
        requires
            old(self)@.wf(),
        ensures
            final(self)@ == (Browser { path_edit_focused: false, ..old(self)@ }).at(
                Loc::Dir(path@),
                true,
                is_dir,
            ),
            final(self)@.wf(),
            r == Browser::todo_at(Loc::Dir(path@), is_dir),
    {
        self.path_edit_focused = false;
        self.navigate_to(path, true, is_dir)
    }

    fn is_bookmarked(&self, path: &str) -> (r: bool)
        ensures
            r == is_marked(self@.bookmarks, path@, self.system),
    {
        let n: usize = self.bookmarks.len();
        let mut i: usize = 0;
        while i < n
            invariant
                i <= n,
                n == self.bookmarks.len(),
                forall|j: int|
                    0 <= j < i ==> !same_place(
                        (#[trigger] self@.bookmarks[j]).path,
                        path@,
                        self.system,
                    ),
            decreases n - i,
        {
            if same_path(self.bookmarks[i].path.as_str(), path, self.system) {
                assert(same_place(self@.bookmarks[i as int].path, path@, self.system));
                return true;
            }
            i += 1;
        }
        false
    }

    /// Marks the folder that is shown, under a label, unless it is marked.
    pub fn add_bookmark(&mut self, label: String) -> (r: Todo)
        ensures
            ({
                let skip = old(self)@.in_gallery || is_marked(
                    old(self)@.bookmarks,
                    old(self)@.cwd,
                    old(self)@.system,
                );
                &&& r == (if skip {
                    nothing()
                } else {
                    write_prefs()
                })
                &&& final(self)@ == (if skip {
                    old(self)@
                } else {
                    Browser {
                        bookmarks: old(self)@.bookmarks.push(
                            Place { label: label@, path: old(self)@.cwd },
                        ),
                        ..old(self)@
                    }
                })
            }),
    {
        if self.in_gallery || self.is_bookmarked(self.cwd.as_str()) {
            return nothing();
        }
        let p = SidePlace { label, path: self.cwd.as_str().to_owned() };
        self.bookmarks.push(p);
        assert(place_views(self.bookmarks@) =~= old(self)@.bookmarks.push(p@));
        write_prefs()
    }

    /// Marks the folder that is shown, under its name.
    pub fn add_bookmark_cwd(&mut self) -> (r: Todo)
        ensures
            ({
                let skip = old(self)@.in_gallery || is_marked(
                    old(self)@.bookmarks,
                    old(self)@.cwd,
                    old(self)@.system,
                );
                &&& r == (if skip {
                    nothing()
                } else {
                    write_prefs()
                })
                &&& skip ==> final(self)@ == old(self)@
                &&& !skip ==> exists|label: Seq<char>|
                    final(self)@ == #[trigger] old(self)@.with_bookmark(label) && tells_name_or(
                        old(self)@.cwd,
                        old(self)@.cwd,
                        label,
                    )
            }),
    {
        let label = folder_label(self.cwd.as_str());
        assert(self@.with_bookmark(label@).bookmarks == self@.bookmarks.push(
            Place { label: label@, path: self@.cwd },
        ));
        self.add_bookmark(label)
    }

    /// Takes a folder off the marked ones.
    pub fn remove_bookmark(&mut self, path: &str) -> (r: Todo)
        ensures
            final(self)@ == (Browser {
                bookmarks: places_without(old(self)@.bookmarks, path@, old(self)@.system),
                ..old(self)@
            }),
            r == write_prefs(),
    {
        let n: usize = self.bookmarks.len();
        let mut out: Vec<SidePlace> = Vec::new();
        let mut i: usize = 0;
        let ghost all = self@.bookmarks;
        assert(all.take(0) =~= Seq::empty());
        assert(place_views(out@) =~= Seq::empty());
        while i < n
            invariant
                i <= n,
                n == self.bookmarks.len(),
                self@ == old(self)@,
                all == self@.bookmarks,
                place_views(out@) == places_without(all.take(i as int), path@, self.system),
            decreases n - i,
        {
            let ghost before = place_views(out@);
            proof {
                let t = all.take(i + 1);
                assert(t.drop_last() =~= all.take(i as int));
                assert(t.last() == self.bookmarks@[i as int]@);
            }
            if !same_path(self.bookmarks[i].path.as_str(), path, self.system) {
                let p = SidePlace {
                    label: self.bookmarks[i].label.as_str().to_owned(),
                    path: self.bookmarks[i].path.as_str().to_owned(),
                };
                out.push(p);
                assert(place_views(out@) =~= before.push(p@));
            }
            i += 1;
        }
        assert(all.take(n as int) =~= all);
        self.bookmarks = out;
        write_prefs()
    }

    /// How a path is deleted, by what is there.
    pub fn delete_path(kind: PathKind) -> (r: Deletion)
        ensures
            r == (match kind {
                PathKind::File => Deletion::File,
                PathKind::Folder => Deletion::EmptyFolder,
                PathKind::Nothing => Deletion::Nothing,
            }),
    {
        match kind {
            PathKind::File => Deletion::File,
            PathKind::Folder => Deletion::EmptyFolder,
            PathKind::Nothing => Deletion::Nothing,
        }
    }

    #[verifier::spinoff_prover]
    #[verifier::rlimit(60)]
    fn unselect_gone(&mut self, path: &str)
        ensures
            final(self)@ == old(self)@.unselected(path@),
    {
        drop_path(&mut self.selected, path, self.system);
        self.select_anchor =
        anchor_after(self.select_anchor.take(), &self.selected, path, self.system);
    }

    #[verifier::spinoff_prover]
    #[verifier::rlimit(60)]
    fn forget_gone(&mut self, path: &str)
        ensures
            final(self)@ == old(self)@.undetailed(path@),
    {
        if is_path(&self.detail.path, path, self.system) {
            self.file_name = String::new();
            self.detail.path = None;
            self.detail.ready = false;
        }
    }

    #[verifier::spinoff_prover]
    #[verifier::rlimit(60)]
    fn drop_picture(&mut self, path: &str)
        ensures
            final(self)@ == old(self)@.undrawn(path@),
    {
        drop_path(&mut self.thumbs.ready, path, self.system);
    }

    /// After a file or folder was deleted.
    #[verifier::rlimit(60)]
    #[verifier::spinoff_prover]
    pub fn path_deleted(&mut self, path: &str) -> (r: Todo)
        ensures
            final(self)@ == old(self)@.with_deleted(path@).relisted(),
            r == (Todo { prefs: false, list: !old(self)@.in_gallery, detail: false }),
    {
        self.unselect_gone(path);
        self.forget_gone(path);
        self.drop_picture(path);
        self.refresh()
    }

    /// Unfolds a block of the side bar, or folds it.
    #[verifier::rlimit(60)]
    #[verifier::spinoff_prover]
    pub fn toggle_section(&mut self, section: SideSection)
        ensures
            final(self)@ == (match section {
                SideSection::Bookmarks => Browser {
                    sec_bookmarks: !old(self)@.sec_bookmarks,
                    ..old(self)@
                },
                SideSection::System => Browser { sec_system: !old(self)@.sec_system, ..old(self)@ },
                SideSection::Volumes => Browser {
                    sec_volumes: !old(self)@.sec_volumes,
                    ..old(self)@
                },
                SideSection::Recent => Browser { sec_recent: !old(self)@.sec_recent, ..old(self)@ },
            }),
    {
        match section {
            SideSection::Bookmarks => {
                self.sec_bookmarks = !self.sec_bookmarks;
            },
            SideSection::System => {
                self.sec_system = !self.sec_system;
            },
            SideSection::Volumes => {
                self.sec_volumes = !self.sec_volumes;
            },
            SideSection::Recent => {
                self.sec_recent = !self.sec_recent;
            },
        }
    }

    /// After one block was dropped on another.
    pub fn drop_section(&mut self, from: SideSection, to: SideSection) -> (r: Todo)
        ensures
            final(self)@ == (Browser {
                section_order: moved(old(self)@.section_order, from, to),
                ..old(self)@
            }),
            r == (Todo {
                prefs: from != to && old(self)@.section_order.contains(from) && old(
                    self,
                )@.section_order.contains(to),
                list: false,
                detail: false,
            }),
    {
        let prefs: bool = reorder_side_section(&mut self.section_order, from, to);
        Todo { prefs, list: false, detail: false }
    }

    /// Closes the browser; after a cancel the next one opens files again.
    pub fn close(&mut self, cancel: bool) -> (r: Todo)
        ensures
            final(self)@ == (Browser {
                open: false,
                save_mode: old(self)@.save_mode && !cancel,
                ..old(self)@
            }),
            r == (Todo { prefs: old(self)@.open, list: false, detail: false }),
    {
        let was: bool = self.open;
        self.open = false;
        if cancel {
            self.save_mode = false;
        }
        Todo { prefs: was, list: false, detail: false }
    }
}

impl Browser {
    /// The folder that is shown marked under a label.
    pub open spec fn with_bookmark(self, label: Seq<char>) -> Browser {
        Browser { bookmarks: self.bookmarks.push(Place { label, path: self.cwd }), ..self }
    }

    /// Without a path in the selection.
    pub open spec fn unselected(self, path: Seq<char>) -> Browser {
        let selected = without(self.selected, path, self.system);
        Browser {
            selected,
            select_anchor: anchor_without(self.select_anchor, selected, path, self.system),
            ..self
        }
    }

    /// Without the details of a path.
    pub open spec fn undetailed(self, path: Seq<char>) -> Browser {
        if is_that(self.detail.path, path, self.system) {
            Browser {
                file_name: Seq::empty(),
                detail: Detail { path: None, ready: false, ..self.detail },
                ..self
            }
        } else {
            self
        }
    }

    /// Without the small picture of a path.
    pub open spec fn undrawn(self, path: Seq<char>) -> Browser {
        Browser {
            thumbs: Thumbs { ready: without(self.thumbs.ready, path, self.system), ..self.thumbs },
            ..self
        }
    }

    /// Without what was at a path.
    pub open spec fn with_deleted(self, path: Seq<char>) -> Browser {
        self.unselected(path).undetailed(path).undrawn(path)
    }
}

/// Where a range begins once a path is gone: at the last of what is still
/// selected, if it began there.
pub open spec fn anchor_without(
    anchor: Option<Seq<char>>,
    selected: Seq<Seq<char>>,
    path: Seq<char>,
    system: System,
) -> Option<Seq<char>> {
    if !is_that(anchor, path, system) {
        anchor
    } else if selected.len() > 0 {
        Some(selected.last())
    } else {
        None
    }
}

/// The label of a folder: its name, or the whole path where it has none.
pub fn folder_label(path: &str) -> (r: String)
    ensures
        tells_name_or(path@, path@, r@),
{
    file_name_or(path, path)
}

} // verus!
