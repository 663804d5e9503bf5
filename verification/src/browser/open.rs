//! Opening the browser and what it remembers.
use vstd::prelude::*;
use crate::browser::filter::TypeFilters;
use crate::browser::moves::MAX_RECENT;
use crate::browser::section::{SideSection, completed};
use crate::browser::state::{
    Browser, BrowserLoc, Detail, DetailPreview, FileBrowser, Loc, Place, SidePlace, Thumbnails,
    Thumbs, Todo, item_views, loc_views, nothing, place_views,
};
use crate::files::format::{ExportFormat, FormatFlags};
use crate::lists::{at_most, choose_texts, chosen, keep_first};
use crate::paths::{extension, tells_extension};
use crate::paths::parts::this_system;
use crate::paths::reading::System;
use crate::text::{copy_texts, glue3, is_blank, opt_view, texts, trim, trimmed};

verus! {

/// What the browser remembers.
pub struct BrowserPrefs {
    pub bookmarks: Vec<SidePlace>,
    pub last_cwd: Option<String>,
    pub last_gallery: bool,
    pub type_filters: Option<TypeFilters>,
    pub recent_dirs: Vec<String>,
    pub section_order: Vec<SideSection>,
}

/// The same as a value.
pub struct Prefs {
    pub bookmarks: Seq<Place>,
    pub last_cwd: Option<Seq<char>>,
    pub last_gallery: bool,
    pub type_filters: Option<TypeFilters>,
    pub recent_dirs: Seq<Seq<char>>,
    pub section_order: Seq<SideSection>,
}

impl View for BrowserPrefs {
    type V = Prefs;

    open spec fn view(&self) -> Prefs {
        Prefs {
            bookmarks: place_views(self.bookmarks@),
            last_cwd: opt_view(self.last_cwd),
            last_gallery: self.last_gallery,
            type_filters: self.type_filters,
            recent_dirs: texts(self.recent_dirs@),
            section_order: self.section_order@,
        }
    }
}

impl BrowserPrefs {
    /// What is remembered where nothing was written yet.
    pub fn empty() -> (r: BrowserPrefs)
        ensures
            r@.bookmarks.len() == 0,
            r@.last_cwd is None,
            !r@.last_gallery,
            r@.type_filters is None,
            r@.recent_dirs.len() == 0,
            r@.section_order.len() == 0,
    {
        BrowserPrefs {
            bookmarks: Vec::new(),
            last_cwd: None,
            last_gallery: false,
            type_filters: None,
            recent_dirs: Vec::new(),
            section_order: Vec::new(),
        }
    }
}

/// A copy of places.
pub fn copy_places(list: &Vec<SidePlace>) -> (r: Vec<SidePlace>)
    ensures
        place_views(r@) == place_views(list@),
{
    let n: usize = list.len();
    let mut out: Vec<SidePlace> = Vec::new();
    let mut i: usize = 0;
    while i < n
        invariant
            i <= n,
            n == list.len(),
            out.len() == i,
            forall|j: int| 0 <= j < i ==> (#[trigger] out@[j])@ == list@[j]@,
        decreases n - i,
    {
        out.push(
            SidePlace {
                label: list[i].label.as_str().to_owned(),
                path: list[i].path.as_str().to_owned(),
            },
        );
        i += 1;
    }
    assert(place_views(out@) =~= place_views(list@));
    out
}

/// The marked folders that are still there. `exists_at` tells of each whether
/// it is.
pub fn bookmarks_from_prefs(prefs: &BrowserPrefs, exists_at: &Vec<bool>) -> (r: Vec<SidePlace>)
    requires
        exists_at.len() == prefs.bookmarks.len(),
    ensures
        place_views(r@) == chosen(prefs@.bookmarks, exists_at@),
{
    let list = &prefs.bookmarks;
    let n: usize = list.len();
    let mut out: Vec<SidePlace> = Vec::new();
    let mut i: usize = 0;
    let ghost all = prefs@.bookmarks;
    assert(all.take(0) =~= Seq::empty());
    assert(place_views(out@) =~= Seq::empty());
    while i < n
        invariant
            i <= n,
            n == list.len(),
            n == exists_at.len(),
            all == place_views(list@),
            place_views(out@) == chosen(all.take(i as int), exists_at@),
        decreases n - i,
    {
        let ghost before = place_views(out@);
        proof {
            let t = all.take(i + 1);
            assert(t.drop_last() =~= all.take(i as int));
            assert(t.last() == list@[i as int]@);
        }
        if exists_at[i] {
            let p = SidePlace {
                label: list[i].label.as_str().to_owned(),
                path: list[i].path.as_str().to_owned(),
            };
            out.push(p);
            assert(place_views(out@) =~= before.push(p@));
        }
        i += 1;
    }
    assert(all.take(n as int) =~= all);
    out
}

/// The remembered folders that are still there, as many as are remembered.
pub open spec fn still_there(recent: Seq<Seq<char>>, is_dir: Seq<bool>) -> Seq<Seq<char>> {
    at_most(chosen(recent, is_dir), MAX_RECENT as int)
}

fn keep_recent(recent: &Vec<String>, is_dir: &Vec<bool>) -> (r: Vec<String>)
    requires
        recent.len() == is_dir.len(),
    ensures
        texts(r@) == still_there(texts(recent@), is_dir@),
{
    let mut r = choose_texts(recent, is_dir);
    keep_first(&mut r, MAX_RECENT);
    r
}

/// The remembered folders, where there are any, else the present ones.
pub open spec fn recent_with(prefs: Prefs, is_dir: Seq<bool>, present: Seq<Seq<char>>) -> Seq<
    Seq<char>,
> {
    if prefs.recent_dirs.len() > 0 {
        still_there(prefs.recent_dirs, is_dir)
    } else {
        present
    }
}

/// The remembered filter, where there is one, else the present one, without
/// what the settings switch off.
pub open spec fn filters_with(prefs: Prefs, formats: FormatFlags, present: TypeFilters) -> TypeFilters {
    match prefs.type_filters {
        Some(f) => f.clamped(formats),
        None => present.clamped(formats),
    }
}

fn recent_from_prefs(prefs: &BrowserPrefs, is_dir: &Vec<bool>, present: &Vec<String>) -> (r: Vec<
    String,
>)
    requires
        is_dir.len() == prefs.recent_dirs.len(),
    ensures
        texts(r@) == recent_with(prefs@, is_dir@, texts(present@)),
{
    assert(prefs@.recent_dirs.len() == prefs.recent_dirs.len());
    if prefs.recent_dirs.len() > 0 {
        keep_recent(&prefs.recent_dirs, is_dir)
    } else {
        copy_texts(present)
    }
}

fn filters_from_prefs(prefs: &BrowserPrefs, formats: &FormatFlags, present: TypeFilters) -> (r:
    TypeFilters)
    ensures
        r == filters_with(prefs@, *formats, present),
{
    match prefs.type_filters {
        Some(f) => f.clamp_to_enabled(formats),
        None => present.clamp_to_enabled(formats),
    }
}

/// What the caller found out on disk about what is remembered.
pub struct PrefsOnDisk {
    /// Of each marked folder, whether it is there.
    pub bookmarks: Vec<bool>,
    /// Of each remembered folder, whether it is a folder.
    pub recent_dirs: Vec<bool>,
}

impl PrefsOnDisk {
    pub open spec fn fits(self, prefs: Prefs) -> bool {
        &&& self.bookmarks@.len() == prefs.bookmarks.len()
        &&& self.recent_dirs@.len() == prefs.recent_dirs.len()
    }
}

/// No small pictures and no work on any.
pub open spec fn no_thumbs(gen: u64, system: System) -> Thumbs {
    Thumbs {
        ready: Seq::empty(),
        pending: Seq::empty(),
        queue: Seq::empty(),
        inflight: 0,
        gen,
        listening: false,
        system,
    }
}

fn fresh_thumbs(gen: u64, system: System) -> (r: Thumbnails)
    ensures
        r@ == no_thumbs(gen, system),
{
    let r = Thumbnails {
        ready: Vec::new(),
        pending: Vec::new(),
        queue: Vec::new(),
        inflight: 0,
        gen,
        listening: false,
        system,
    };
    assert(texts(r.ready@) =~= Seq::empty());
    r
}

impl Browser {
    /// The place that the browser starts at.
    pub open spec fn start_loc(gallery: bool, folder: Seq<char>) -> Loc {
        if gallery {
            Loc::Gallery
        } else {
            Loc::Dir(folder)
        }
    }

    /// The browser with what is remembered taken over, and everything else as
    /// at its start.
    pub open spec fn reset(
        self,
        formats: FormatFlags,
        prefs: Prefs,
        disk: PrefsOnDisk,
        system_places: Seq<Place>,
        volumes: Seq<Place>,
    ) -> Browser {
        (Browser { system_places, volumes, ..self.with_prefs(formats, prefs, disk) }).cleared()
    }

    /// The browser with what is remembered taken over.
    pub open spec fn with_prefs(self, formats: FormatFlags, prefs: Prefs, disk: PrefsOnDisk) -> Browser {
        Browser {
            enabled_formats: formats,
            bookmarks: chosen(prefs.bookmarks, disk.bookmarks@),
            recent_dirs: recent_with(prefs, disk.recent_dirs@, self.recent_dirs),
            type_filters: filters_with(prefs, formats, self.type_filters),
            ..self
        }
    }

    /// The browser open, with nothing selected, searched or picked.
    pub open spec fn cleared(self) -> Browser {
        Browser {
            search: Seq::empty(),
            file_name: Seq::empty(),
            picked: Seq::empty(),
            selected: Seq::empty(),
            select_anchor: None,
            error: None,
            thumbs: no_thumbs(self.thumbs.gen, self.system),
            detail: self.no_detail(),
            open: true,
            ..self
        }
    }

    /// The browser at its first place.
    pub open spec fn begun(self, gallery: bool, folder: Seq<char>) -> Browser {
        let b = Browser {
            cwd: folder,
            path_edit_focused: false,
            in_gallery: gallery,
            path_edit: if gallery {
                "Gallery"@
            } else {
                folder
            },
            history: seq![Browser::start_loc(gallery, folder)],
            history_idx: 0,
            ..self
        };
        if gallery {
            Browser { entries: Seq::empty(), loading: false, ..b }
        } else {
            b.relisted()
        }
    }
}

impl FileBrowser {
    /// The browser before it was ever opened, with what is remembered. The
    /// folder is the last one, or the one to start in.
    pub fn new(
        prefs: BrowserPrefs,
        disk: &PrefsOnDisk,
        flags: FormatFlags,
        folder: String,
        system_places: Vec<SidePlace>,
        volumes: Vec<SidePlace>,
    ) -> (r: FileBrowser)
        requires
            disk.fits(prefs@),
        ensures
            r@.wf(),
            !r@.open && !r@.open_as_sheet && !r@.save_mode,
            r@.save_format is Txmh,
            r@.title == "Open"@,
            r@.cwd == folder@,
            r@.in_gallery == prefs@.last_gallery,
            r@.history == seq![Browser::start_loc(prefs@.last_gallery, folder@)],
            r@.history_idx == 0,
            r@.entries.len() == 0 && r@.selected.len() == 0 && r@.picked.len() == 0,
            r@.select_anchor is None,
            r@.file_name.len() == 0 && r@.search.len() == 0 && r@.path_edit.len() == 0,
            r@.type_filters == (match prefs@.type_filters {
                Some(f) => f,
                None => TypeFilters::enabled(flags),
            }).clamped(flags),
            r@.enabled_formats == flags,
            !r@.path_edit_focused && !r@.loading && !r@.listing,
            r@.error is None,
            r@.list_gen == 0,
            r@.thumbs == no_thumbs(0, r@.system),
            r@.system_places == place_views(system_places@),
            r@.volumes == place_views(volumes@),
            r@.bookmarks == chosen(prefs@.bookmarks, disk.bookmarks@),
            r@.recent_dirs == still_there(prefs@.recent_dirs, disk.recent_dirs@),
            r@.sec_bookmarks && r@.sec_system && r@.sec_volumes && r@.sec_recent,
            r@.section_order == completed(prefs@.section_order),
            r@.detail == (Detail {
                path: None,
                ready: false,
                waiting: false,
                gen: 0,
                system: r@.system,
            }),
    {
        assert(prefs@.bookmarks.len() == prefs.bookmarks.len());
        assert(prefs@.recent_dirs.len() == prefs.recent_dirs.len());
        let bookmarks = bookmarks_from_prefs(&prefs, &disk.bookmarks);
        let recent_dirs = keep_recent(&prefs.recent_dirs, &disk.recent_dirs);
        let filters = match prefs.type_filters {
            Some(f) => f,
            None => TypeFilters::from_enabled(&flags),
        };
        let loc = if prefs.last_gallery {
            BrowserLoc::Gallery
        } else {
            BrowserLoc::Dir(folder.as_str().to_owned())
        };
        let ghost gl = loc@;
        let system: System = this_system();
        let r = FileBrowser {
            open: false,
            open_as_sheet: false,
            save_mode: false,
            save_format: ExportFormat::Txmh,
            title: "Open".to_owned(),
            cwd: folder,
            in_gallery: prefs.last_gallery,
            history: vec![loc],
            history_idx: 0,
            entries: Vec::new(),
            selected: Vec::new(),
            select_anchor: None,
            file_name: String::new(),
            type_filters: filters.clamp_to_enabled(&flags),
            enabled_formats: flags,
            search: String::new(),
            path_edit: String::new(),
            path_edit_focused: false,
            error: None,
            loading: false,
            list_gen: 0,
            listing: false,
            thumbs: fresh_thumbs(0, system),
            system_places,
            volumes,
            bookmarks,
            recent_dirs,
            sec_bookmarks: true,
            sec_system: true,
            sec_volumes: true,
            sec_recent: true,
            section_order: SideSection::sanitize_order(prefs.section_order),
            picked: Vec::new(),
            detail: DetailPreview { path: None, ready: false, waiting: false, gen: 0, system },
            system,
        };
        assert(r@.history =~= seq![gl]);
        r
    }

    #[verifier::rlimit(60)]
    #[verifier::spinoff_prover]
    fn take_prefs(&mut self, formats: &FormatFlags, prefs: &BrowserPrefs, disk: &PrefsOnDisk)
        requires
            disk.fits(prefs@),
        ensures
            final(self)@ == old(self)@.with_prefs(*formats, prefs@, *disk),
            old(self)@.recent_dirs.len() <= MAX_RECENT ==> final(self)@.recent_dirs.len()
                <= MAX_RECENT,
    {
        assert(prefs@.bookmarks.len() == prefs.bookmarks.len());
        assert(prefs@.recent_dirs.len() == prefs.recent_dirs.len());
        let bookmarks = bookmarks_from_prefs(prefs, &disk.bookmarks);
        let recent = recent_from_prefs(prefs, &disk.recent_dirs, &self.recent_dirs);
        let filters = filters_from_prefs(prefs, formats, self.type_filters);
        self.enabled_formats = *formats;
        self.bookmarks = bookmarks;
        self.recent_dirs = recent;
        self.type_filters = filters;
    }

    fn clear(&mut self)
        ensures
            final(self)@ == old(self)@.cleared(),
    {
        self.search = String::new();
        self.file_name = String::new();
        self.picked = Vec::new();
        self.selected = Vec::new();
        assert(texts(self.picked@) =~= Seq::empty());
        assert(texts(self.selected@) =~= Seq::empty());
        self.select_anchor = None;
        self.error = None;
        self.thumbs = fresh_thumbs(self.thumbs.gen, self.system);
        self.detail.path = None;
        self.detail.ready = false;
        self.detail.waiting = false;
        self.open = true;
    }

    fn take_over(
        &mut self,
        formats: &FormatFlags,
        prefs: &BrowserPrefs,
        disk: &PrefsOnDisk,
        system_places: Vec<SidePlace>,
        volumes: Vec<SidePlace>,
    )
        requires
            disk.fits(prefs@),
        ensures
            final(self)@ == old(self)@.reset(
                *formats,
                prefs@,
                *disk,
                place_views(system_places@),
                place_views(volumes@),
            ),
            old(self)@.recent_dirs.len() <= MAX_RECENT ==> final(self)@.recent_dirs.len()
                <= MAX_RECENT,
    {
        self.take_prefs(formats, prefs, disk);
        self.system_places = system_places;
        self.volumes = volumes;
        self.clear();
    }

    fn begin(&mut self, gallery: bool, folder: String) -> (r: bool)
        ensures
            final(self)@ == old(self)@.begun(gallery, folder@),
            old(self)@.recent_dirs.len() <= MAX_RECENT ==> final(self)@.wf(),
            r == !gallery,
    {
        self.path_edit_focused = false;
        self.in_gallery = gallery;
        let loc = if gallery {
            self.path_edit = "Gallery".to_owned();
            BrowserLoc::Gallery
        } else {
            self.path_edit = folder.as_str().to_owned();
            BrowserLoc::Dir(folder.as_str().to_owned())
        };
        let ghost gl = loc@;
        self.cwd = folder;
        self.history = vec![loc];
        assert(loc_views(self.history@) =~= seq![gl]);
        self.history_idx = 0;
        if gallery {
            self.entries = Vec::new();
            assert(item_views(self.entries@) =~= Seq::empty());
            self.loading = false;
            false
        } else {
            self.start_list()
        }
    }

    /// Opens the browser at what is remembered. `folder` is the folder to
    /// start in.
    pub fn begin_open(
        &mut self,
        formats: &FormatFlags,
        prefs: &BrowserPrefs,
        disk: &PrefsOnDisk,
        folder: String,
        system_places: Vec<SidePlace>,
        volumes: Vec<SidePlace>,
    ) -> (r: Todo)
        requires
            disk.fits(prefs@),
            old(self)@.wf(),
        ensures
            final(self)@ == old(self)@.reset(
                *formats,
                prefs@,
                *disk,
                place_views(system_places@),
                place_views(volumes@),
            ).begun(prefs@.last_gallery, folder@),
            final(self)@.wf(),
            r == (Todo { prefs: false, list: !prefs@.last_gallery, detail: false }),
    {
        self.take_over(formats, prefs, disk, system_places, volumes);
        let list: bool = self.begin(prefs.last_gallery, folder);
        Todo { prefs: false, list, detail: false }
    }

    /// Opens the browser for files that become canvases of their own.
    pub fn open_for_canvas(
        &mut self,
        formats: &FormatFlags,
        prefs: &BrowserPrefs,
        disk: &PrefsOnDisk,
        folder: String,
        system_places: Vec<SidePlace>,
        volumes: Vec<SidePlace>,
    ) -> (r: Todo)
        requires
            disk.fits(prefs@),
            old(self)@.wf(),
        ensures
            final(self)@ == old(self)@.for_canvas().reset(
                *formats,
                prefs@,
                *disk,
                place_views(system_places@),
                place_views(volumes@),
            ).begun(prefs@.last_gallery, folder@),
            final(self)@.wf(),
            r == (Todo { prefs: false, list: !prefs@.last_gallery, detail: false }),
    {
        self.open_as_sheet = false;
        self.save_mode = false;
        self.title = "Open canvas".to_owned();
        self.begin_open(formats, prefs, disk, folder, system_places, volumes)
    }

    /// Opens the browser for files that become sheets of the current canvas.
    pub fn open_for_sheet(
        &mut self,
        formats: &FormatFlags,
        prefs: &BrowserPrefs,
        disk: &PrefsOnDisk,
        folder: String,
        system_places: Vec<SidePlace>,
        volumes: Vec<SidePlace>,
    ) -> (r: Todo)
        requires
            disk.fits(prefs@),
            old(self)@.wf(),
        ensures
            final(self)@ == old(self)@.for_sheet().reset(
                *formats,
                prefs@,
                *disk,
                place_views(system_places@),
                place_views(volumes@),
            ).begun(prefs@.last_gallery, folder@),
            final(self)@.wf(),
            r == (Todo { prefs: false, list: !prefs@.last_gallery, detail: false }),
    {
        self.open_as_sheet = true;
        self.save_mode = false;
        self.title = "Открыть как подвкладку".to_owned();
        self.begin_open(formats, prefs, disk, folder, system_places, volumes)
    }

    /// Opens the browser for a place to save to, in a format. The folder and
    /// the name are offered by `enter_save_folder` and `offer_save_name`.
    pub fn open_for_save(
        &mut self,
        formats: &FormatFlags,
        prefs: &BrowserPrefs,
        disk: &PrefsOnDisk,
        folder: String,
        system_places: Vec<SidePlace>,
        volumes: Vec<SidePlace>,
        format: ExportFormat,
    ) -> (r: Todo)
        requires
            disk.fits(prefs@),
            old(self)@.wf(),
        ensures
            final(self)@ == old(self)@.for_save(format).reset(
                *formats,
                prefs@,
                *disk,
                place_views(system_places@),
                place_views(volumes@),
            ).begun(prefs@.last_gallery, folder@),
            final(self)@.wf(),
            r == (Todo { prefs: false, list: !prefs@.last_gallery, detail: false }),
    {
        self.open_as_sheet = false;
        self.save_mode = true;
        self.save_format = format;
        self.title = "Сохранить как".to_owned();
        self.begin_open(formats, prefs, disk, folder, system_places, volumes)
    }

    /// After the browser was opened for a save: goes to the preferred folder
    /// where it is one, and leaves the gallery. `cwd_is_dir` tells whether the
    /// folder behind the gallery is one. Tells whether the folder is listed
    /// anew.
    pub fn enter_save_folder(
        &mut self,
        preferred: Option<String>,
        preferred_is_dir: bool,
        cwd_is_dir: bool,
    ) -> (r: bool)
        requires
            old(self)@.wf(),
        ensures
            final(self)@.wf(),
            final(self)@ == old(self)@.at_preferred(
                opt_view(preferred),
                preferred_is_dir,
            ).out_of_gallery(cwd_is_dir),
            r == (preferred is Some && preferred_is_dir || old(self)@.at_preferred(
                opt_view(preferred),
                preferred_is_dir,
            ).in_gallery && cwd_is_dir),
    {
        let mut moved: bool = false;
        match preferred {
            Some(p) => {
                self.navigate_to(p, false, preferred_is_dir);
                moved = preferred_is_dir;
            },
            None => {},
        }
        if self.in_gallery {
            let folder = self.cwd.as_str().to_owned();
            self.navigate_to(folder, false, cwd_is_dir);
            moved = moved || cwd_is_dir;
        }
        moved
    }

    /// Offers a name to save under, with nothing selected.
    pub fn offer_save_name(&mut self, suggested: &str)
        ensures
            exists|name: Seq<char>|
                final(self)@ == #[trigger] old(self)@.offering(name) && is_offered(
                    suggested@,
                    old(self)@.save_format.extension_text(),
                    name,
                ),
    {
        let name = offered_name(suggested, self.save_format.extension());
        let ghost gn = name@;
        self.file_name = name;
        self.selected = Vec::new();
        assert(texts(self.selected@) =~= Seq::empty());
        self.select_anchor = None;
        assert(self@ == old(self)@.offering(gn));
    }

    pub fn is_save_mode(&self) -> (r: bool)
        ensures
            r == self@.save_mode,
    {
        self.save_mode
    }

    pub fn take_save_format(&self) -> (r: ExportFormat)
        ensures
            r == self@.save_format,
    {
        self.save_format
    }

    /// What was picked, once; none while nothing is.
    pub fn take_picked(&mut self) -> (r: Option<Vec<String>>)
        ensures
            if old(self)@.picked.len() == 0 {
                r is None && final(self)@ == old(self)@
            } else {
                &&& r matches Some(v)
                &&& texts(v@) == old(self)@.picked
                &&& final(self)@ == (Browser { picked: Seq::empty(), ..old(self)@ })
            },
    {
        assert(self@.picked.len() == self.picked.len());
        if self.picked.len() == 0 {
            return None;
        }
        let v = copy_texts(&self.picked);
        self.picked = Vec::new();
        assert(texts(self.picked@) =~= Seq::empty());
        Some(v)
    }

    /// What to remember.
    pub fn prefs(&self) -> (r: BrowserPrefs)
        ensures
            r@.bookmarks == self@.bookmarks,
            r@.last_cwd == Some(self@.cwd),
            r@.last_gallery == self@.in_gallery,
            r@.type_filters == Some(self@.type_filters),
            r@.recent_dirs == self@.recent_dirs,
            r@.section_order == self@.section_order,
    {
        let n: usize = self.section_order.len();
        let mut order: Vec<SideSection> = Vec::new();
        let mut i: usize = 0;
        while i < n
            invariant
                i <= n,
                n == self.section_order.len(),
                order@ == self.section_order@.take(i as int),
            decreases n - i,
        {
            order.push(self.section_order[i]);
            i += 1;
            assert(order@ =~= self.section_order@.take(i as int));
        }
        assert(order@ =~= self.section_order@);
        BrowserPrefs {
            bookmarks: copy_places(&self.bookmarks),
            last_cwd: Some(self.cwd.as_str().to_owned()),
            last_gallery: self.in_gallery,
            type_filters: Some(self.type_filters),
            recent_dirs: copy_texts(&self.recent_dirs),
            section_order: order,
        }
    }
}

impl Browser {
    /// Meant for files that become canvases of their own.
    pub open spec fn for_canvas(self) -> Browser {
        Browser { open_as_sheet: false, save_mode: false, title: "Open canvas"@, ..self }
    }

    /// Meant for files that become sheets of the current canvas.
    pub open spec fn for_sheet(self) -> Browser {
        Browser { open_as_sheet: true, save_mode: false, title: "Открыть как подвкладку"@, ..self }
    }

    /// Meant for a place to save to.
    pub open spec fn for_save(self, format: ExportFormat) -> Browser {
        Browser {
            open_as_sheet: false,
            save_mode: true,
            save_format: format,
            title: "Сохранить как"@,
            ..self
        }
    }

    /// The browser in the preferred folder, where there is one.
    pub open spec fn at_preferred(self, preferred: Option<Seq<char>>, is_dir: bool) -> Browser {
        match preferred {
            Some(p) => self.at(Loc::Dir(p), false, is_dir),
            None => self,
        }
    }

    /// The browser in the folder behind the gallery, where it shows that.
    pub open spec fn out_of_gallery(self, is_dir: bool) -> Browser {
        if self.in_gallery {
            self.at(Loc::Dir(self.cwd), false, is_dir)
        } else {
            self
        }
    }

    /// A name offered, with nothing selected.
    pub open spec fn offering(self, name: Seq<char>) -> Browser {
        Browser { file_name: name, selected: Seq::empty(), select_anchor: None, ..self }
    }
}

/// Whether a name is the one offered for a suggestion: the suggestion with the
/// extension where it has none, or `untitled` where it is empty.
pub open spec fn is_offered(suggested: Seq<char>, ext: Seq<char>, name: Seq<char>) -> bool {
    let s = trimmed(suggested);
    if s.len() == 0 {
        name == "untitled"@ + "."@ + ext
    } else {
        exists|e: Option<Seq<char>>| #[trigger]
            tells_extension(s, e) && name == (if e is None {
                s + "."@ + ext
            } else {
                s
            })
    }
}

fn offered_name(suggested: &str, ext: &str) -> (r: String)
    ensures
        is_offered(suggested@, ext@, r@),
{
    let name = trim(suggested);
    if is_blank(name.as_str()) {
        return glue3("untitled", ".", ext);
    }
    let e = extension(name.as_str());
    let ghost known = tells_extension(name@, opt_view(e));
    match e {
        Some(_) => name,
        None => glue3(name.as_str(), ".", ext),
    }
}

/// What is remembered comes back: the folder, the marks, the order and the
/// filters of a browser are those of the one that was closed, as far as disk
/// and settings still have them.
pub proof fn law_prefs_come_back(
    b: Browser,
    p: Prefs,
    disk: PrefsOnDisk,
    formats: FormatFlags,
    system_places: Seq<Place>,
    volumes: Seq<Place>,
    next: Browser,
)
    requires
        p.bookmarks == b.bookmarks,
        p.last_cwd == Some(b.cwd),
        p.last_gallery == b.in_gallery,
        p.type_filters == Some(b.type_filters),
        p.recent_dirs == b.recent_dirs,
        p.section_order == b.section_order,
        disk.fits(p),
        b.recent_dirs.len() <= MAX_RECENT,
        b.recent_dirs.len() > 0,
        forall|i: int| 0 <= i < disk.bookmarks@.len() ==> disk.bookmarks@[i],
        forall|i: int| 0 <= i < disk.recent_dirs@.len() ==> disk.recent_dirs@[i],
        b.type_filters.clamped(formats) == b.type_filters,
    ensures
        ({
            let r = next.reset(formats, p, disk, system_places, volumes).begun(
                p.last_gallery,
                b.cwd,
            );
            &&& r.bookmarks == b.bookmarks
            &&& r.recent_dirs == b.recent_dirs
            &&& r.type_filters == b.type_filters
            &&& r.cwd == b.cwd
            &&& r.in_gallery == b.in_gallery
        }),
{
    lemma_all_chosen(p.bookmarks, disk.bookmarks@);
    lemma_all_chosen(p.recent_dirs, disk.recent_dirs@);
}

proof fn lemma_all_chosen<A>(list: Seq<A>, yes: Seq<bool>)
    requires
        list.len() <= yes.len(),
        forall|i: int| 0 <= i < yes.len() ==> yes[i],
    ensures
        chosen(list, yes) == list,
    decreases list.len(),
{
    if list.len() > 0 {
        lemma_all_chosen(list.drop_last(), yes);
        assert(list.drop_last().push(list.last()) =~= list);
    } else {
        assert(list =~= Seq::empty());
    }
}

} // verus!
