//! Selecting files and confirming the choice.
//!
//! What is at a path is asked by the caller and handed in.
use vstd::prelude::*;
use crate::browser::address::PathKind;
use crate::browser::state::{
    Browser, FileBrowser, Item, ListingItem, Loc, Todo, item_views, nothing, write_prefs,
};
use crate::files::format::law_plain_extension;
use crate::files::naming::with_format;
use crate::paths::{
    ensure_extension, file_name, file_name_or, join, joined_by, joins, lemma_with_extension,
    path_in, takes_extension, tells_ensured, tells_name, tells_name_or, with_extension,
};
use crate::paths::parts::{all_parts, has_place, parts, path_place, place_in, same_path};
use crate::paths::reading::{System, last_name, names_file};
use crate::text::{is_blank, lemma_text_place_at, opt_view, texts, trim, trimmed};

verus! {

/// The paths of items, in order.
pub open spec fn item_paths(items: Seq<Item>) -> Seq<Seq<char>> {
    items.map_values(|i: Item| i.path)
}

fn item_place(items: &Vec<ListingItem>, path: &str, system: System) -> (r: usize)
    ensures
        r == place_in(item_paths(item_views(items@)), path@, system),
        r <= items.len(),
{
    let n: usize = items.len();
    let ghost paths = item_paths(item_views(items@));
    let mut i: usize = 0;
    while i < n && !same_path(items[i].path.as_str(), path, system)
        invariant
            i <= n,
            n == items.len(),
            paths == item_paths(item_views(items@)),
            forall|j: int|
                0 <= j < i ==> all_parts(paths, system)[j] != parts(path@, system),
        decreases n - i,
    {
        i += 1;
    }
    proof {
        lemma_text_place_at(all_parts(paths, system), parts(path@, system), i as int);
    }
    i
}

/// The texts between two places, both included, whichever comes first.
pub open spec fn between(list: Seq<Seq<char>>, a: int, b: int) -> Seq<Seq<char>> {
    if a <= b {
        list.subrange(a, b + 1)
    } else {
        list.subrange(b, a + 1)
    }
}

impl Browser {
    /// Exactly one path selected, from which a range begins.
    pub open spec fn only(self, path: Seq<char>) -> Browser {
        Browser { selected: seq![path], select_anchor: Some(path), ..self }
    }

    /// A range selected, from where the last selection began to the path, as
    /// the list shows it. Where either is not in the list, only the path.
    pub open spec fn ranged(self, path: Seq<char>) -> Browser {
        let paths = item_paths(self.filtered());
        let anchor = match self.select_anchor {
            Some(a) => a,
            None => path,
        };
        let a = place_in(paths, anchor, self.system);
        let b = place_in(paths, path, self.system);
        if a < paths.len() && b < paths.len() {
            Browser { selected: between(paths, a, b), ..self }
        } else {
            self.only(path)
        }
    }

    /// The path added to the selection, or taken out.
    pub open spec fn switched(self, path: Seq<char>) -> Browser {
        Browser {
            selected: if has_place(self.selected, path, self.system) {
                self.selected.remove(place_in(self.selected, path, self.system))
            } else {
                self.selected.push(path)
            },
            select_anchor: Some(path),
            ..self
        }
    }

    /// The selection after a click on a path, with or without the keys that
    /// add to it or extend it.
    pub open spec fn clicked(self, path: Seq<char>, add: bool, range: bool) -> Browser {
        if range {
            self.ranged(path)
        } else if add {
            self.switched(path)
        } else {
            self.only(path)
        }
    }
}

impl FileBrowser {
    fn select_only(&mut self, path: &str)
        ensures
            final(self)@ == old(self)@.only(path@),
    {
        self.selected = vec![path.to_owned()];
        assert(texts(self.selected@) =~= seq![path@]);
        self.select_anchor = Some(path.to_owned());
    }

    #[verifier::rlimit(60)]
    #[verifier::spinoff_prover]
    fn select_range(&mut self, path: &str)
        ensures
            final(self)@ == old(self)@.ranged(path@),
    {
        let items = self.filtered_entries();
        let anchor = match &self.select_anchor {
            Some(a) => a.as_str().to_owned(),
            None => path.to_owned(),
        };
        let a: usize = item_place(&items, anchor.as_str(), self.system);
        let b: usize = item_place(&items, path, self.system);
        let ghost paths = item_paths(item_views(items@));
        assert(paths.len() == items.len());
        if a < items.len() && b < items.len() {
            let (lo, hi): (usize, usize) = if a <= b {
                (a, b)
            } else {
                (b, a)
            };
            self.selected = paths_between(&items, lo, hi);
        } else {
            self.select_only(path);
        }
    }

    fn switch_path(&mut self, path: &str)
        ensures
            final(self)@ == old(self)@.switched(path@),
    {
        toggle_path(&mut self.selected, path, self.system);
        self.select_anchor = Some(path.to_owned());
    }

    /// Selects by a click, with or without the keys that add to the selection
    /// or extend it.
    pub fn select(&mut self, path: &str, add: bool, range: bool)
        ensures
            final(self)@ == old(self)@.clicked(path@, add, range),
    {
        if range {
            self.select_range(path);
        } else if add {
            self.switch_path(path);
        } else {
            self.select_only(path);
        }
    }
}

fn paths_between(items: &Vec<ListingItem>, lo: usize, hi: usize) -> (r: Vec<String>)
    requires
        lo <= hi < items.len(),
    ensures
        texts(r@) == item_paths(item_views(items@)).subrange(lo as int, hi + 1),
{
    let ghost paths = item_paths(item_views(items@));
    let mut out: Vec<String> = Vec::new();
    let mut i: usize = lo;
    while i <= hi
        invariant
            lo <= i <= hi + 1,
            hi < items.len(),
            paths == item_paths(item_views(items@)),
            out.len() == i - lo,
            forall|j: int| 0 <= j < i - lo ==> (#[trigger] out@[j])@ == paths[lo + j],
        decreases hi + 1 - i,
    {
        out.push(items[i].path.as_str().to_owned());
        i += 1;
    }
    assert(texts(out@) =~= paths.subrange(lo as int, hi + 1));
    out
}

fn toggle_path(list: &mut Vec<String>, path: &str, system: System)
    ensures
        texts(final(list)@) == (if has_place(texts(old(list)@), path@, system) {
            texts(old(list)@).remove(place_in(texts(old(list)@), path@, system))
        } else {
            texts(old(list)@).push(path@)
        }),
{
    let ghost before = texts(list@);
    let k: usize = path_place(list, path, system);
    if k < list.len() {
        list.remove(k);
        assert(texts(list@) =~= before.remove(k as int));
    } else {
        list.push(path.to_owned());
        assert(texts(list@) =~= before.push(path@));
    }
}

/// The place of the last file among kinds, or -1.
pub open spec fn last_file(kinds: Seq<PathKind>) -> int
    decreases kinds.len(),
{
    if kinds.len() == 0 {
        -1
    } else if kinds.last() is File {
        kinds.len() - 1
    } else {
        last_file(kinds.drop_last())
    }
}

/// The file whose details show after a selection: the one that was clicked,
/// else the last file that is selected. A single folder has none.
pub open spec fn focus_of(
    selected: Seq<Seq<char>>,
    kinds: Seq<PathKind>,
    path: Seq<char>,
    is_file: bool,
) -> Option<Seq<char>> {
    if is_file {
        Some(path)
    } else if selected.len() == 1 && kinds[0] is Folder {
        None
    } else if last_file(kinds) >= 0 {
        Some(selected[last_file(kinds)])
    } else {
        None
    }
}

pub(crate) fn find_last_file(kinds: &Vec<PathKind>) -> (r: Option<usize>)
    ensures
        match r {
            Some(k) => k == last_file(kinds@) && k < kinds.len(),
            None => last_file(kinds@) < 0,
        },
{
    let mut n: usize = kinds.len();
    assert(kinds@.take(n as int) =~= kinds@);
    while n > 0
        invariant
            n <= kinds.len(),
            last_file(kinds@) == last_file(kinds@.take(n as int)),
        decreases n,
    {
        assert(kinds@.take(n as int).last() == kinds@[n - 1]);
        assert(kinds@.take(n as int).drop_last() =~= kinds@.take(n - 1));
        if kinds[n - 1] == PathKind::File {
            return Some(n - 1);
        }
        n -= 1;
    }
    None
}

/// How many of the kinds are files.
pub open spec fn count_files(kinds: Seq<PathKind>) -> int
    decreases kinds.len(),
{
    if kinds.len() == 0 {
        0
    } else {
        count_files(kinds.drop_last()) + if kinds.last() is File {
            1int
        } else {
            0
        }
    }
}

/// How many of the kinds are files.
pub fn selected_files(kinds: &Vec<PathKind>) -> (r: usize)
    ensures
        r == count_files(kinds@),
{
    let n: usize = kinds.len();
    let mut i: usize = 0;
    let mut c: usize = 0;
    assert(kinds@.take(0) =~= Seq::empty());
    while i < n
        invariant
            i <= n,
            n == kinds.len(),
            c <= i,
            c == count_files(kinds@.take(i as int)),
        decreases n - i,
    {
        assert(kinds@.take(i + 1).drop_last() =~= kinds@.take(i as int));
        assert(kinds@.take(i + 1).last() == kinds@[i as int]);
        if kinds[i] == PathKind::File {
            c += 1;
        }
        i += 1;
    }
    assert(kinds@.take(n as int) =~= kinds@);
    c
}

/// The paths that are files, in order.
pub open spec fn files_among(paths: Seq<Seq<char>>, kinds: Seq<PathKind>) -> Seq<Seq<char>>
    decreases paths.len(),
{
    if paths.len() == 0 {
        Seq::empty()
    } else {
        let before = files_among(paths.drop_last(), kinds);
        if kinds[paths.len() - 1] is File {
            before.push(paths.last())
        } else {
            before
        }
    }
}

fn keep_files(paths: &Vec<String>, kinds: &Vec<PathKind>) -> (r: Vec<String>)
    requires
        paths.len() == kinds.len(),
    ensures
        texts(r@) == files_among(texts(paths@), kinds@),
{
    let n: usize = paths.len();
    let mut out: Vec<String> = Vec::new();
    let mut i: usize = 0;
    let ghost all = texts(paths@);
    assert(all.take(0) =~= Seq::empty());
    assert(texts(out@) =~= Seq::empty());
    while i < n
        invariant
            i <= n,
            n == paths.len(),
            n == kinds.len(),
            all == texts(paths@),
            texts(out@) == files_among(all.take(i as int), kinds@),
        decreases n - i,
    {
        let ghost before = texts(out@);
        assert(all.take(i + 1).drop_last() =~= all.take(i as int));
        if kinds[i] == PathKind::File {
            out.push(paths[i].as_str().to_owned());
            assert(texts(out@) =~= before.push(paths@[i as int]@));
        }
        i += 1;
    }
    assert(all.take(n as int) =~= all);
    out
}

/// The name of a file, empty where its path has none.
fn name_of(path: &str) -> (r: String)
    ensures
        tells_name_or(path@, Seq::empty(), r@),
{
    let n = file_name(path);
    let ghost known = tells_name(path@, opt_view(n));
    match n {
        Some(n) => n,
        None => String::new(),
    }
}

impl Browser {
    /// The details of a file shown, under a name.
    pub open spec fn focused(self, path: Seq<char>, name: Seq<char>) -> Browser {
        Browser { file_name: name, detail: self.detail.asked(path), ..self }
    }

    /// No file's details shown.
    pub open spec fn unfocused(self) -> Browser {
        Browser { file_name: Seq::empty(), detail: self.no_detail(), ..self }
    }

    /// The choice made: the browser closes with these paths.
    pub open spec fn chose(self, paths: Seq<Seq<char>>) -> Browser {
        Browser { picked: paths, open: false, ..self }
    }
}

/// What confirming leads to.
pub enum Confirm {
    /// It is done.
    Done(Todo),
    /// It goes on to a folder, whose name is the path.
    Enter(String),
    /// A name was typed: what is at its path decides.
    Typed(String),
}

impl FileBrowser {
    /// Shows the details of a file, under its name.
    fn focus(&mut self, path: &str) -> (r: bool)
        ensures
            exists|name: Seq<char>|
                final(self)@ == #[trigger] old(self)@.focused(path@, name) && tells_name_or(
                    path@,
                    Seq::empty(),
                    name,
                ),
            r == !old(self)@.detail.kept(path@),
    {
        let name = name_of(path);
        let ghost gn = name@;
        self.file_name = name;
        let r: bool = self.detail.ask(path);
        assert(self@ == old(self)@.focused(path@, gn));
        r
    }

    fn unfocus(&mut self)
        ensures
            final(self)@ == old(self)@.unfocused(),
    {
        self.file_name = String::new();
        self.detail.path = None;
        self.detail.ready = false;
        self.detail.waiting = false;
    }

    /// After a click on a path: shows the details of a file. `kinds` tells of
    /// each selected path what it is.
    pub fn after_selection(&mut self, path: &str, is_file: bool, kinds: &Vec<PathKind>) -> (r: Todo)
        requires
            kinds.len() == old(self).selected.len(),
        ensures
            match focus_of(old(self)@.selected, kinds@, path@, is_file) {
                Some(p) => {
                    &&& exists|name: Seq<char>|
                        final(self)@ == #[trigger] old(self)@.focused(p, name) && tells_name_or(
                            p,
                            Seq::empty(),
                            name,
                        )
                    &&& r == (Todo {
                        prefs: false,
                        list: false,
                        detail: !old(self)@.detail.kept(p),
                    })
                },
                None => final(self)@ == old(self)@.unfocused() && r == nothing(),
            },
    {
        assert(self@.selected.len() == self.selected.len());
        let target: Option<String> = if is_file {
            Some(path.to_owned())
        } else if self.selected.len() == 1 && kinds[0] == PathKind::Folder {
            None
        } else {
            match find_last_file(kinds) {
                Some(k) => Some(self.selected[k].as_str().to_owned()),
                None => None,
            }
        };
        assert(opt_view(target) == focus_of(self@.selected, kinds@, path@, is_file));
        match target {
            Some(p) => {
                let detail: bool = self.focus(p.as_str());
                Todo { prefs: false, list: false, detail }
            },
            None => {
                self.unfocus();
                nothing()
            },
        }
    }

    fn choose_paths(&mut self, paths: Vec<String>)
        ensures
            final(self)@ == old(self)@.chose(texts(paths@)),
    {
        self.picked = paths;
        self.open = false;
    }

    /// Confirms the choice of files to open: the files that are selected, else
    /// the one folder, else the name that was typed.
    pub fn confirm_files(&mut self, kinds: &Vec<PathKind>) -> (r: Confirm)
        requires
            kinds.len() == old(self).selected.len(),
        ensures
            confirmed(old(self)@, kinds@, final(self)@, r),
    {
        assert(self@.selected.len() == self.selected.len());
        let files = keep_files(&self.selected, kinds);
        assert(texts(files@).len() == files.len());
        if files.len() > 0 {
            self.choose_paths(files);
            return Confirm::Done(write_prefs());
        }
        if self.selected.len() == 1 && kinds[0] == PathKind::Folder {
            assert(self@.selected[0] == self.selected@[0]@);
            return Confirm::Enter(self.selected[0].as_str().to_owned());
        }
        let name = trim(self.file_name.as_str());
        if is_blank(name.as_str()) {
            return Confirm::Done(nothing());
        }
        Confirm::Typed(join(self.cwd.as_str(), name.as_str()))
    }

    /// Confirms the choice: of files to open, or of a place to save to.
    pub fn confirm_open(&mut self, kinds: &Vec<PathKind>) -> (r: Confirm)
        requires
            kinds.len() == old(self).selected.len(),
        ensures
            !old(self)@.save_mode ==> confirmed(old(self)@, kinds@, final(self)@, r),
            old(self)@.save_mode ==> {
                &&& r matches Confirm::Done(todo)
                &&& exists|name: Seq<char>| #[trigger]
                    is_save_name(old(self)@, kinds@, name) && save_confirmed(
                        old(self)@,
                        name,
                        final(self)@,
                        todo,
                    )
            },
    {
        if self.save_mode {
            let name = self.save_file_name(kinds);
            assert(is_save_name(self@, kinds@, name@));
            let todo = self.confirm_save(name.as_str());
            assert(save_confirmed(old(self)@, name@, self@, todo));
            Confirm::Done(todo)
        } else {
            self.confirm_files(kinds)
        }
    }

    /// Confirms a name that was typed, by what is at its path.
    pub fn confirm_typed(&mut self, path: String, kind: PathKind) -> (r: Todo)
        requires
            old(self)@.wf(),
        ensures
            final(self)@.wf(),
            match kind {
                PathKind::File => final(self)@ == old(self)@.chose(seq![path@]) && r
                    == write_prefs(),
                PathKind::Folder => final(self)@ == old(self)@.at(Loc::Dir(path@), true, true) && r
                    == Browser::todo_at(Loc::Dir(path@), true),
                PathKind::Nothing => final(self)@ == old(self)@ && r == nothing(),
            },
    {
        match kind {
            PathKind::File => {
                let paths = vec![path];
                assert(texts(paths@) =~= seq![path@]);
                self.choose_paths(paths);
                write_prefs()
            },
            PathKind::Folder => self.navigate_to(path, true, true),
            PathKind::Nothing => nothing(),
        }
    }

    /// The name to save under: the one that was typed, else that of the first
    /// file that is selected.
    pub fn save_file_name(&self, kinds: &Vec<PathKind>) -> (r: String)
        requires
            kinds.len() == self.selected.len(),
        ensures
            is_save_name(self@, kinds@, r@),
    {
        let name = trim(self.file_name.as_str());
        if !is_blank(name.as_str()) {
            return name;
        }
        let files = keep_files(&self.selected, kinds);
        assert(texts(files@).len() == files.len());
        if files.len() > 0 {
            assert(texts(files@)[0] == files@[0]@);
            name_of(files[0].as_str())
        } else {
            name
        }
    }

    /// Takes a path to save to, with the format's extension, and shows its
    /// name.
    pub fn save_at(&mut self, path: String) -> (r: Todo)
        ensures
            r == write_prefs(),
            saved_at(old(self)@, final(self)@, path@),
    {
        proof {
            law_plain_extension(self.save_format);
            if names_file(path@) {
                lemma_with_extension(path@, self.save_format.extension_text());
            }
        }
        let ghost from = path@;
        let to = ensure_extension(path, self.save_format.extension());
        let ghost gt = to@;
        let shown = file_name_or(to.as_str(), self.file_name.as_str());
        let ghost gs = shown@;
        self.show_chosen(to, shown);
        proof {
            assert(tells_name_or(gt, old(self)@.file_name, gs));
            assert(tells_ensured(from, old(self)@.save_format.extension_text(), gt));
            assert(self@ == old(self)@.saves_as(gt, gs));
        }
        write_prefs()
    }

    fn show_chosen(&mut self, path: String, shown: String)
        ensures
            final(self)@ == old(self)@.saves_as(path@, shown@),
    {
        let ghost gp = path@;
        self.file_name = shown;
        let paths = vec![path];
        assert(texts(paths@) =~= seq![gp]);
        self.choose_paths(paths);
    }

    /// Confirms the place to save to, under a name. It must be a folder on
    /// disk, and the name not empty. A name that names no file is joined to
    /// the folder before it gets the extension.
    pub fn confirm_save(&mut self, name: &str) -> (r: Todo)
        ensures
            save_confirmed(old(self)@, name@, final(self)@, r),
    {
        if self.in_gallery {
            self.error = Some("Выберите папку на диске для сохранения".to_owned());
            return nothing();
        }
        if is_blank(name) {
            self.error = Some("Введите имя файла".to_owned());
            return nothing();
        }
        let own = file_name(name);
        let ghost known = tells_name(name@, opt_view(own));
        if own.is_none() {
            let full = join(self.cwd.as_str(), name);
            let ghost gf = full@;
            let r = self.save_at(full);
            assert(path_in(old(self)@.cwd, name@, gf));
            return r;
        }
        let ghost ext = self.save_format.extension_text();
        proof {
            law_plain_extension(self.save_format);
            if names_file(name@) {
                lemma_with_extension(name@, ext);
                lemma_in_folder(self@.cwd, name@, with_extension(name@, ext));
            }
        }
        let to = ensure_extension(name.to_owned(), self.save_format.extension());
        let shown = file_name_or(to.as_str(), self.file_name.as_str());
        let full = join(self.cwd.as_str(), to.as_str());
        let ghost gt = to@;
        let ghost gs = shown@;
        let ghost gf = full@;
        self.show_chosen(full, shown);
        proof {
            assert(self@ == old(self)@.saves_as(gf, gs));
            assert(tells_ensured(name@, ext, gt));
            assert(tells_name_or(gt, old(self)@.file_name, gs));
            assert(path_in(old(self)@.cwd, gt, gf));
        }
        write_prefs()
    }
}

proof fn lemma_in_folder(dir: Seq<char>, name: Seq<char>, to: Seq<char>)
    requires
        names_file(name),
        names_file(to),
        to[0] == name[0],
    ensures
        joins(dir, name) ==> joins(dir, to),
{
    if to.len() > 1 {
        assert(to.contains(to[1]));
    }
}

/// What confirming files leads to: those that are selected, else the one
/// folder, else the name that was typed.
pub open spec fn confirmed(before: Browser, kinds: Seq<PathKind>, after: Browser, r: Confirm) -> bool {
    let files = files_among(before.selected, kinds);
    let name = trimmed(before.file_name);
    if files.len() > 0 {
        after == before.chose(files) && r == Confirm::Done(write_prefs())
    } else {
        &&& after == before
        &&& if before.selected.len() == 1 && kinds[0] is Folder {
            r matches Confirm::Enter(p) && p@ == before.selected[0]
        } else if name.len() == 0 {
            r == Confirm::Done(nothing())
        } else {
            r matches Confirm::Typed(p) && path_in(before.cwd, name, p@)
        }
    }
}

/// What confirming a place to save to leads to, under a name.
pub open spec fn save_confirmed(before: Browser, name: Seq<char>, after: Browser, r: Todo) -> bool {
    if before.in_gallery {
        r == nothing() && after == before.refused("Выберите папку на диске для сохранения"@)
    } else if name.len() == 0 {
        r == nothing() && after == before.refused("Введите имя файла"@)
    } else {
        &&& r == write_prefs()
        &&& exists|own: Option<Seq<char>>| #[trigger]
            tells_name(name, own) && (if own is None {
                saved_beside(before, name, after)
            } else {
                saved_under(before, name, after)
            })
        &&& takes_extension(name) && joins(before.cwd, name) ==> {
            let to = with_format(name, before.save_format);
            ||| after == before.saves_as(joined_by(before.cwd, '/', to), last_name(to))
            ||| after == before.saves_as(joined_by(before.cwd, '\\', to), last_name(to))
        }
    }
}

/// Whether a name is the one to save under: the one that was typed, else that
/// of the first file that is selected.
pub open spec fn is_save_name(b: Browser, kinds: Seq<PathKind>, name: Seq<char>) -> bool {
    let files = files_among(b.selected, kinds);
    if trimmed(b.file_name).len() > 0 {
        name == trimmed(b.file_name)
    } else if files.len() == 0 {
        name.len() == 0
    } else {
        tells_name_or(files[0], Seq::empty(), name)
    }
}

/// Whether the browser has closed with a path in the chosen format.
pub open spec fn saved_at(before: Browser, after: Browser, path: Seq<char>) -> bool {
    &&& exists|to: Seq<char>, shown: Seq<char>|
        after == #[trigger] before.saves_as(to, shown) && tells_ensured(
            path,
            before.save_format.extension_text(),
            to,
        ) && tells_name_or(to, before.file_name, shown)
    &&& takes_extension(path) ==> after == before.saves_under(with_format(path, before.save_format))
}

/// Whether the browser has closed with what is at a name in its folder.
pub open spec fn saved_beside(before: Browser, name: Seq<char>, after: Browser) -> bool {
    exists|full: Seq<char>| #[trigger]
        path_in(before.cwd, name, full) && saved_at(before, after, full)
}

/// Whether the browser has closed with a name in the chosen format in its
/// folder.
pub open spec fn saved_under(before: Browser, name: Seq<char>, after: Browser) -> bool {
    exists|full: Seq<char>, shown: Seq<char>, to: Seq<char>|
        after == #[trigger] before.saves_as(full, shown) && #[trigger] path_in(
            before.cwd,
            to,
            full,
        ) && tells_ensured(name, before.save_format.extension_text(), to) && tells_name_or(
            to,
            before.file_name,
            shown,
        )
}

impl Browser {
    /// The state with an error shown.
    pub open spec fn refused(self, why: Seq<char>) -> Browser {
        Browser { error: Some(why), ..self }
    }

    /// A path chosen to save to, with a name shown.
    pub open spec fn saves_as(self, path: Seq<char>, shown: Seq<char>) -> Browser {
        (Browser { file_name: shown, ..self }).chose(seq![path])
    }

    /// A path chosen to save to, with its name shown.
    pub open spec fn saves_under(self, path: Seq<char>) -> Browser {
        self.saves_as(path, last_name(path))
    }
}

} // verus!
