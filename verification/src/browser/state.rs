//! The state of the file browser.
use vstd::prelude::*;
use crate::browser::filter::TypeFilters;
use crate::browser::section::SideSection;
use crate::files::format::{ExportFormat, FormatFlags};
use crate::paths::parts::{same_path, same_place};
use crate::paths::reading::System;
use crate::text::{opt_view, texts};

verus! {

/// A file or folder in the list.
pub struct ListingItem {
    pub name: String,
    pub path: String,
    pub is_dir: bool,
}

#[verifier::ext_equal]
pub struct Item {
    pub name: Seq<char>,
    pub path: Seq<char>,
    pub is_dir: bool,
}

impl View for ListingItem {
    type V = Item;

    open spec fn view(&self) -> Item {
        Item { name: self.name@, path: self.path@, is_dir: self.is_dir }
    }
}

impl ListingItem {
    pub fn copy(&self) -> (r: ListingItem)
        ensures
            r@ == self@,
    {
        ListingItem {
            name: self.name.as_str().to_owned(),
            path: self.path.as_str().to_owned(),
            is_dir: self.is_dir,
        }
    }
}

pub open spec fn item_views(v: Seq<ListingItem>) -> Seq<Item> {
    v.map_values(|i: ListingItem| i@)
}

/// A folder in the side bar.
pub struct SidePlace {
    pub label: String,
    pub path: String,
}

#[verifier::ext_equal]
pub struct Place {
    pub label: Seq<char>,
    pub path: Seq<char>,
}

impl View for SidePlace {
    type V = Place;

    open spec fn view(&self) -> Place {
        Place { label: self.label@, path: self.path@ }
    }
}

pub open spec fn place_views(v: Seq<SidePlace>) -> Seq<Place> {
    v.map_values(|p: SidePlace| p@)
}

/// What the browser shows: a folder, or the canvases of the library.
pub enum BrowserLoc {
    Dir(String),
    Gallery,
}

pub enum Loc {
    Dir(Seq<char>),
    Gallery,
}

impl View for BrowserLoc {
    type V = Loc;

    open spec fn view(&self) -> Loc {
        match self {
            BrowserLoc::Dir(p) => Loc::Dir(p@),
            BrowserLoc::Gallery => Loc::Gallery,
        }
    }
}

impl Loc {
    /// Whether two places are the same.
    pub open spec fn same(self, other: Loc, system: System) -> bool {
        match (self, other) {
            (Loc::Dir(a), Loc::Dir(b)) => same_place(a, b, system),
            (Loc::Gallery, Loc::Gallery) => true,
            _ => false,
        }
    }
}

impl BrowserLoc {
    pub fn copy(&self) -> (r: BrowserLoc)
        ensures
            r@ == self@,
    {
        match self {
            BrowserLoc::Dir(p) => BrowserLoc::Dir(p.as_str().to_owned()),
            BrowserLoc::Gallery => BrowserLoc::Gallery,
        }
    }

    pub fn same(&self, other: &BrowserLoc, system: System) -> (r: bool)
        ensures
            r == self@.same(other@, system),
    {
        match (self, other) {
            (BrowserLoc::Dir(a), BrowserLoc::Dir(b)) => same_path(a.as_str(), b.as_str(), system),
            (BrowserLoc::Gallery, BrowserLoc::Gallery) => true,
            _ => false,
        }
    }
}

pub open spec fn loc_views(v: Seq<BrowserLoc>) -> Seq<Loc> {
    v.map_values(|l: BrowserLoc| l@)
}

/// The large preview of one file.
pub struct DetailPreview {
    pub path: Option<String>,
    /// Whether its picture is there.
    pub ready: bool,
    /// Whether its picture is being made.
    pub waiting: bool,
    /// Counts the pictures that were asked for.
    pub gen: u64,
    /// By which system paths are told apart.
    pub system: System,
}

pub struct Detail {
    pub path: Option<Seq<char>>,
    pub ready: bool,
    pub waiting: bool,
    pub gen: u64,
    pub system: System,
}

impl View for DetailPreview {
    type V = Detail;

    open spec fn view(&self) -> Detail {
        Detail {
            path: opt_view(self.path),
            ready: self.ready,
            waiting: self.waiting,
            gen: self.gen,
            system: self.system,
        }
    }
}

/// The small pictures of the files in the list.
pub struct Thumbnails {
    /// The files whose picture is there.
    pub ready: Vec<String>,
    /// The files whose picture is being made.
    pub pending: Vec<String>,
    /// The files whose picture is still to be made.
    pub queue: Vec<String>,
    /// How many pictures are being made.
    pub inflight: usize,
    /// Counts the pictures that were asked for.
    pub gen: u64,
    /// Whether answers are being listened for.
    pub listening: bool,
    /// By which system paths are told apart.
    pub system: System,
}

pub struct Thumbs {
    pub ready: Seq<Seq<char>>,
    pub pending: Seq<Seq<char>>,
    pub queue: Seq<Seq<char>>,
    pub inflight: usize,
    pub gen: u64,
    pub listening: bool,
    pub system: System,
}

impl View for Thumbnails {
    type V = Thumbs;

    open spec fn view(&self) -> Thumbs {
        Thumbs {
            ready: texts(self.ready@),
            pending: texts(self.pending@),
            queue: texts(self.queue@),
            inflight: self.inflight,
            gen: self.gen,
            listening: self.listening,
            system: self.system,
        }
    }
}

/// The state as a value.
pub struct Browser {
    pub open: bool,
    pub open_as_sheet: bool,
    pub save_mode: bool,
    pub save_format: ExportFormat,
    pub title: Seq<char>,
    pub cwd: Seq<char>,
    pub in_gallery: bool,
    pub history: Seq<Loc>,
    pub history_idx: int,
    pub entries: Seq<Item>,
    pub selected: Seq<Seq<char>>,
    pub select_anchor: Option<Seq<char>>,
    pub file_name: Seq<char>,
    pub type_filters: TypeFilters,
    pub enabled_formats: FormatFlags,
    pub search: Seq<char>,
    pub path_edit: Seq<char>,
    pub path_edit_focused: bool,
    pub error: Option<Seq<char>>,
    pub loading: bool,
    pub list_gen: u64,
    pub listing: bool,
    pub thumbs: Thumbs,
    pub system_places: Seq<Place>,
    pub volumes: Seq<Place>,
    pub bookmarks: Seq<Place>,
    pub recent_dirs: Seq<Seq<char>>,
    pub sec_bookmarks: bool,
    pub sec_system: bool,
    pub sec_volumes: bool,
    pub sec_recent: bool,
    pub section_order: Seq<SideSection>,
    pub picked: Seq<Seq<char>>,
    pub detail: Detail,
    pub system: System,
}

pub struct FileBrowser {
    pub open: bool,
    /// Whether what is picked opens as a sheet of the current canvas.
    pub open_as_sheet: bool,
    /// Whether a place to save to is being picked.
    pub save_mode: bool,
    pub save_format: ExportFormat,
    pub title: String,
    pub cwd: String,
    pub in_gallery: bool,
    pub history: Vec<BrowserLoc>,
    pub history_idx: usize,
    pub entries: Vec<ListingItem>,
    pub selected: Vec<String>,
    /// Where a range of the selection begins.
    pub select_anchor: Option<String>,
    pub file_name: String,
    pub type_filters: TypeFilters,
    pub enabled_formats: FormatFlags,
    pub search: String,
    pub path_edit: String,
    pub path_edit_focused: bool,
    pub error: Option<String>,
    pub loading: bool,
    /// Counts the listings that were asked for.
    pub list_gen: u64,
    /// Whether a listing is being listened for.
    pub listing: bool,
    pub thumbs: Thumbnails,
    pub system_places: Vec<SidePlace>,
    pub volumes: Vec<SidePlace>,
    pub bookmarks: Vec<SidePlace>,
    pub recent_dirs: Vec<String>,
    /// Whether each block of the side bar is unfolded.
    pub sec_bookmarks: bool,
    pub sec_system: bool,
    pub sec_volumes: bool,
    pub sec_recent: bool,
    pub section_order: Vec<SideSection>,
    pub picked: Vec<String>,
    pub detail: DetailPreview,
    /// By which system paths are told apart.
    pub system: System,
}

impl View for FileBrowser {
    type V = Browser;

    open spec fn view(&self) -> Browser {
        Browser {
            open: self.open,
            open_as_sheet: self.open_as_sheet,
            save_mode: self.save_mode,
            save_format: self.save_format,
            title: self.title@,
            cwd: self.cwd@,
            in_gallery: self.in_gallery,
            history: loc_views(self.history@),
            history_idx: self.history_idx as int,
            entries: item_views(self.entries@),
            selected: texts(self.selected@),
            select_anchor: opt_view(self.select_anchor),
            file_name: self.file_name@,
            type_filters: self.type_filters,
            enabled_formats: self.enabled_formats,
            search: self.search@,
            path_edit: self.path_edit@,
            path_edit_focused: self.path_edit_focused,
            error: opt_view(self.error),
            loading: self.loading,
            list_gen: self.list_gen,
            listing: self.listing,
            thumbs: self.thumbs@,
            system_places: place_views(self.system_places@),
            volumes: place_views(self.volumes@),
            bookmarks: place_views(self.bookmarks@),
            recent_dirs: texts(self.recent_dirs@),
            sec_bookmarks: self.sec_bookmarks,
            sec_system: self.sec_system,
            sec_volumes: self.sec_volumes,
            sec_recent: self.sec_recent,
            section_order: self.section_order@,
            picked: texts(self.picked@),
            detail: self.detail@,
            system: self.system,
        }
    }
}

/// What is to be done after a step.
#[derive(Clone, Copy, Debug, PartialEq, Eq, Structural)]
pub struct Todo {
    /// Write the preferences.
    pub prefs: bool,
    /// List the folder.
    pub list: bool,
    /// Make the large preview.
    pub detail: bool,
}

#[verifier::allow_in_spec]
pub fn nothing() -> (r: Todo)
    returns
        (Todo { prefs: false, list: false, detail: false }),
{
    Todo { prefs: false, list: false, detail: false }
}

#[verifier::allow_in_spec]
pub fn write_prefs() -> (r: Todo)
    returns
        (Todo { prefs: true, list: false, detail: false }),
{
    Todo { prefs: true, list: false, detail: false }
}

#[verifier::allow_in_spec]
pub fn write_and_list() -> (r: Todo)
    returns
        (Todo { prefs: true, list: true, detail: false }),
{
    Todo { prefs: true, list: true, detail: false }
}

/// The counter after one more step.
pub open spec fn next_gen(n: u64) -> u64 {
    if n == u64::MAX {
        0
    } else {
        (n + 1) as u64
    }
}

pub fn step_gen(n: u64) -> (r: u64)
    ensures
        r == next_gen(n),
{
    n.wrapping_add(1)
}

impl Browser {
    /// What every operation keeps: the history holds the place that is shown.
    pub open spec fn wf(self) -> bool {
        &&& 0 <= self.history_idx < self.history.len()
        &&& self.recent_dirs.len() <= 12
    }
}

} // verus!
