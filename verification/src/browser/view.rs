//! What the browser's window shows and how it takes input.
use vstd::prelude::*;
use crate::browser::address::{AddressBarAction, PathKind};
use crate::browser::moves::folder_label;
use crate::browser::section::SideSection;
use crate::browser::select::{count_files, find_last_file, last_file, selected_files};
use crate::browser::state::{Browser, FileBrowser, SidePlace};
use crate::files::format::ExportFormat;
use crate::files::library::LibraryStore;
use crate::gallery::hover::{collection_line, collection_text};
use crate::lists::{at_most, choose_texts, chosen, keep_first};
use crate::order::{lemma_sorted_map, stable_sort, stable_sorted};
use crate::paths::{
    extension, file_name, file_name_or, file_stem_or, tells_extension, tells_name_or,
    tells_stem_or,
};
use crate::paths::parts::{has_path, has_place, is_under, lies_under, same_path, same_place};
use crate::paths::reading::{System, last_name, lemma_stem_not_empty, name_stem, names_file};
use crate::text::{
    ascii_lower, copy_texts, decimal, decimal_text, glue, glue3, is_blank, lower, opt_view,
    same_text, texts,
};

verus! {

/// What happened in the address bar during a frame.
#[derive(Clone, Copy, Debug, PartialEq, Eq, Structural)]
pub struct AddressInput {
    pub gained_focus: bool,
    pub has_focus: bool,
    pub lost_focus: bool,
    pub enter: bool,
    /// Its text changed by a paste.
    pub pasted: bool,
    /// The button beside it was clicked.
    pub go: bool,
}

/// What the address bar leads to.
pub struct AddressOrders {
    pub gallery: bool,
    pub navigate: Option<String>,
    pub open_file: Option<String>,
}

/// What the user asked for during a frame.
pub struct FrameEvents {
    pub drop_section: Option<(SideSection, SideSection)>,
    /// The window was closed by its frame.
    pub closed: bool,
    /// The window was left by a cancel.
    pub cancel: bool,
    pub filter_changed: bool,
    pub go_back: bool,
    pub go_forward: bool,
    pub go_up: bool,
    pub refresh: bool,
    pub add_bookmark: bool,
    pub new_folder: bool,
    pub delete: bool,
    pub remove_bookmark: bool,
    pub open_gallery: bool,
    pub place: bool,
    pub address_folder: bool,
    pub address_file: bool,
    pub select: bool,
    pub activate: bool,
    pub confirm: bool,
}

/// One thing to carry out.
#[derive(Clone, Copy, Debug, PartialEq, Eq, Structural)]
pub enum Step {
    DropSection,
    Close,
    FilterChanged,
    Back,
    Forward,
    Up,
    Refresh,
    AddBookmark,
    NewFolder,
    Delete,
    RemoveBookmark,
    OpenGallery,
    GoPlace,
    GoAddress,
    OpenAddressFile,
    Select,
    Activate,
    Confirm,
}

pub open spec fn step_if(on: bool, step: Step) -> Seq<Step> {
    if on {
        seq![step]
    } else {
        Seq::empty()
    }
}

/// What is asked for about the window, the history and the folder.
pub open spec fn window_steps(e: FrameEvents) -> Seq<Step> {
    step_if(e.drop_section is Some, Step::DropSection) + step_if(
        e.closed || e.cancel,
        Step::Close,
    ) + step_if(e.filter_changed, Step::FilterChanged) + step_if(e.go_back, Step::Back) + step_if(
        e.go_forward,
        Step::Forward,
    ) + step_if(e.go_up, Step::Up) + step_if(e.refresh, Step::Refresh)
}

/// What is asked for about marks, files and the gallery.
pub open spec fn file_steps(e: FrameEvents) -> Seq<Step> {
    step_if(e.add_bookmark, Step::AddBookmark) + step_if(e.new_folder, Step::NewFolder) + step_if(
        e.delete,
        Step::Delete,
    ) + step_if(e.remove_bookmark, Step::RemoveBookmark) + step_if(
        e.open_gallery,
        Step::OpenGallery,
    ) + step_if(e.place, Step::GoPlace)
}

/// What is asked for about paths and the choice.
pub open spec fn choice_steps(e: FrameEvents) -> Seq<Step> {
    step_if(e.address_folder, Step::GoAddress) + step_if(e.address_file, Step::OpenAddressFile)
        + step_if(e.select, Step::Select) + step_if(e.activate, Step::Activate) + step_if(
        e.confirm,
        Step::Confirm,
    )
}

/// What a frame's events ask for, in the order in which it is carried out.
pub open spec fn steps_of(e: FrameEvents) -> Seq<Step> {
    window_steps(e) + file_steps(e) + choice_steps(e)
}

fn put_step(list: &mut Vec<Step>, on: bool, step: Step)
    ensures
        final(list)@ == old(list)@ + step_if(on, step),
{
    if on {
        list.push(step);
    }
    assert(list@ =~= old(list)@ + step_if(on, step));
}

fn window_list(e: &FrameEvents) -> (r: Vec<Step>)
    ensures
        r@ == window_steps(*e),
{
    let mut list: Vec<Step> = Vec::new();
    put_step(&mut list, e.drop_section.is_some(), Step::DropSection);
    assert(list@ =~= step_if(e.drop_section is Some, Step::DropSection));
    put_step(&mut list, e.closed || e.cancel, Step::Close);
    put_step(&mut list, e.filter_changed, Step::FilterChanged);
    put_step(&mut list, e.go_back, Step::Back);
    put_step(&mut list, e.go_forward, Step::Forward);
    put_step(&mut list, e.go_up, Step::Up);
    put_step(&mut list, e.refresh, Step::Refresh);
    list
}

fn file_list(e: &FrameEvents) -> (r: Vec<Step>)
    ensures
        r@ == file_steps(*e),
{
    let mut list: Vec<Step> = Vec::new();
    put_step(&mut list, e.add_bookmark, Step::AddBookmark);
    assert(list@ =~= step_if(e.add_bookmark, Step::AddBookmark));
    put_step(&mut list, e.new_folder, Step::NewFolder);
    put_step(&mut list, e.delete, Step::Delete);
    put_step(&mut list, e.remove_bookmark, Step::RemoveBookmark);
    put_step(&mut list, e.open_gallery, Step::OpenGallery);
    put_step(&mut list, e.place, Step::GoPlace);
    list
}

fn choice_list(e: &FrameEvents) -> (r: Vec<Step>)
    ensures
        r@ == choice_steps(*e),
{
    let mut list: Vec<Step> = Vec::new();
    put_step(&mut list, e.address_folder, Step::GoAddress);
    assert(list@ =~= step_if(e.address_folder, Step::GoAddress));
    put_step(&mut list, e.address_file, Step::OpenAddressFile);
    put_step(&mut list, e.select, Step::Select);
    put_step(&mut list, e.activate, Step::Activate);
    put_step(&mut list, e.confirm, Step::Confirm);
    list
}

/// What a frame's events ask for, in the order in which it is carried out.
pub fn frame_steps(e: &FrameEvents) -> (r: Vec<Step>)
    ensures
        r@ == steps_of(*e),
{
    let mut list = window_list(e);
    let mut files = file_list(e);
    let mut choice = choice_list(e);
    list.append(&mut files);
    list.append(&mut choice);
    list
}

impl Browser {
    /// The address bar showing the place, unless it is being edited.
    pub open spec fn address_synced(self) -> Browser {
        Browser {
            path_edit: if self.path_edit_focused {
                self.path_edit
            } else if self.in_gallery {
                "Gallery"@
            } else {
                self.cwd
            },
            ..self
        }
    }

    /// Whether the address bar was being edited at some time in the frame.
    pub open spec fn edited(self, i: AddressInput) -> bool {
        self.path_edit_focused || i.gained_focus || i.has_focus
    }

    /// Whether a place of the side bar is the one that is shown.
    pub open spec fn is_here(self, path: Seq<char>) -> bool {
        !self.in_gallery && same_place(self.cwd, path, self.system)
    }

    /// Whether a place of the side bar holds the folder that is shown.
    pub open spec fn is_within(self, path: Seq<char>) -> bool {
        !self.in_gallery && lies_under(self.cwd, path, self.system)
    }

    /// The file whose details show: the one that was asked for, else the last
    /// file that is selected, else the last of the selection.
    pub open spec fn shown_path(self, kinds: Seq<PathKind>) -> Option<Seq<char>> {
        if self.detail.path is Some {
            self.detail.path
        } else if last_file(kinds) >= 0 {
            Some(self.selected[last_file(kinds)])
        } else if self.selected.len() > 0 {
            Some(self.selected.last())
        } else {
            None
        }
    }
}

/// The icon of a folder of the home.
pub open spec fn icon_of(label: Seq<char>) -> Seq<char> {
    if label == "Home"@ {
        "🏠"@
    } else if label == "Desktop"@ {
        "🖥"@
    } else if label == "Documents"@ {
        "📄"@
    } else if label == "Downloads"@ {
        "⬇"@
    } else if label == "Music"@ {
        "🎵"@
    } else if label == "Pictures"@ {
        "🖼"@
    } else if label == "Videos"@ {
        "🎬"@
    } else {
        "📁"@
    }
}

/// The icon of a folder of the home, by its label.
pub fn place_icon(label: &str) -> (r: &'static str)
    ensures
        r@ == icon_of(label@),
{
    if same_text(label, "Home") {
        "🏠"
    } else if same_text(label, "Desktop") {
        "🖥"
    } else if same_text(label, "Documents") {
        "📄"
    } else if same_text(label, "Downloads") {
        "⬇"
    } else if same_text(label, "Music") {
        "🎵"
    } else if same_text(label, "Pictures") {
        "🖼"
    } else if same_text(label, "Videos") {
        "🎬"
    } else {
        "📁"
    }
}

/// How many folders the menu of the address bar offers.
pub const MENU_RECENT: usize = 10;

impl FileBrowser {
    /// Shows the place in the address bar, unless that is being edited.
    pub fn sync_address(&mut self)
        ensures
            final(self)@ == old(self)@.address_synced(),
    {
        if !self.path_edit_focused {
            self.path_edit =
            if self.in_gallery {
                "Gallery".to_owned()
            } else {
                self.cwd.as_str().to_owned()
            };
        }
    }

    /// Takes the input of a frame in the address bar; tells whether the text is
    /// to be followed: after Enter, after the button, or after a paste of
    /// something that leads somewhere.
    #[verifier::rlimit(60)]
    #[verifier::spinoff_prover]
    pub fn address_input(&mut self, input: AddressInput, leads_somewhere: bool) -> (r: bool)
        ensures
            r == (input.enter && (input.lost_focus || old(self)@.edited(input)) || input.pasted
                && leads_somewhere || input.go),
            final(self)@ == (Browser {
                path_edit_focused: old(self)@.edited(input) && !(input.lost_focus
                    && !input.enter),
                ..old(self)@
            }),
    {
        if input.gained_focus || input.has_focus {
            self.path_edit_focused = true;
        }
        let mut follow: bool = input.enter && (input.has_focus || input.lost_focus
            || self.path_edit_focused);
        if input.pasted && leads_somewhere {
            follow = true;
        }
        if input.lost_focus && !input.enter {
            self.path_edit_focused = false;
        }
        if input.go {
            follow = true;
        }
        follow
    }

    /// Empties the address bar, to be edited.
    pub fn clear_address(&mut self)
        ensures
            final(self)@ == (Browser {
                path_edit: Seq::empty(),
                path_edit_focused: true,
                ..old(self)@
            }),
    {
        self.path_edit = String::new();
        self.path_edit_focused = true;
    }

    /// What following the address bar leads to. `parent` is the folder of a
    /// file. What is not found shows as an error.
    pub fn follow_address(
        &mut self,
        action: Result<AddressBarAction, String>,
        parent: Option<String>,
    ) -> (r: AddressOrders)
        ensures
            final(self)@ == (match action {
                Result::Ok(_) => old(self)@,
                Result::Err(e) => Browser { error: Some(e@), ..old(self)@ },
            }),
            r.gallery == (action matches Result::Ok(AddressBarAction::Gallery)),
            opt_view(r.navigate) == (match action {
                Result::Ok(AddressBarAction::Dir(p)) => Some(p@),
                Result::Ok(AddressBarAction::File(_)) => opt_view(parent),
                _ => None,
            }),
            opt_view(r.open_file) == (match action {
                Result::Ok(AddressBarAction::File(p)) => Some(p@),
                _ => None,
            }),
    {
        match action {
            Result::Ok(AddressBarAction::Gallery) => AddressOrders {
                gallery: true,
                navigate: None,
                open_file: None,
            },
            Result::Ok(AddressBarAction::Dir(p)) => AddressOrders {
                gallery: false,
                navigate: Some(p),
                open_file: None,
            },
            Result::Ok(AddressBarAction::File(p)) => AddressOrders {
                gallery: false,
                navigate: parent,
                open_file: Some(p),
            },
            Result::Err(e) => {
                self.error = Some(e);
                AddressOrders { gallery: false, navigate: None, open_file: None }
            },
        }
    }

    /// Takes a file that the address bar named: a save takes its name over.
    /// Tells whether to select it, and whether to confirm it then.
    pub fn open_address_file(&mut self, path: &str, is_file: bool) -> (r: (bool, bool))
        ensures
            r == (old(self)@.save_mode || is_file, !old(self)@.save_mode && is_file),
            exists|name: Seq<char>| #[trigger]
                old(self)@.addressed(path@, name) == final(self)@ && (if old(self)@.save_mode {
                    tells_name_or(path@, old(self)@.file_name, name)
                } else {
                    name == old(self)@.file_name
                }),
    {
        self.path_edit = path.to_owned();
        if self.save_mode {
            self.file_name = file_name_or(path, self.file_name.as_str());
        }
        assert(old(self)@.addressed(path@, self@.file_name) == self@);
        (self.save_mode || is_file, !self.save_mode && is_file)
    }

    /// The folders that the address bar's menu offers. `is_dir` tells of each
    /// remembered folder whether it is one.
    pub fn recent_menu(&self, is_dir: &Vec<bool>) -> (r: Vec<String>)
        requires
            is_dir.len() == self.recent_dirs.len(),
        ensures
            texts(r@) == at_most(chosen(self@.recent_dirs, is_dir@), MENU_RECENT as int),
    {
        let mut r = choose_texts(&self.recent_dirs, is_dir);
        keep_first(&mut r, MENU_RECENT);
        r
    }

    /// Whether a marked or remembered folder is the one that is shown.
    pub fn place_on(&self, path: &str) -> (r: bool)
        ensures
            r == self@.is_here(path@),
    {
        !self.in_gallery && same_path(self.cwd.as_str(), path, self.system)
    }

    /// Whether a folder of the home is lit up: the one that is shown, or the
    /// home around it.
    pub fn system_on(&self, place: &SidePlace) -> (r: bool)
        ensures
            r == (self@.is_here(place@.path) || place@.label == "Home"@ && self@.is_within(
                place@.path,
            )),
    {
        !self.in_gallery && (same_path(self.cwd.as_str(), place.path.as_str(), self.system) || (
        same_text(place.label.as_str(), "Home") && is_under(
            self.cwd.as_str(),
            place.path.as_str(),
            self.system,
        )))
    }

    /// Whether a drive is lit up: the one that holds the folder.
    pub fn volume_on(&self, path: &str) -> (r: bool)
        ensures
            r == self@.is_within(path@),
    {
        !self.in_gallery && is_under(self.cwd.as_str(), path, self.system)
    }

    /// The name of what is shown, for the search field.
    pub fn folder_name(&self) -> (r: String)
        ensures
            self@.in_gallery ==> r@ == "Gallery"@,
            !self@.in_gallery ==> tells_name_or(self@.cwd, self@.cwd, r@),
    {
        if self.in_gallery {
            "Gallery".to_owned()
        } else {
            folder_label(self.cwd.as_str())
        }
    }

    /// What is said in place of an empty list; nothing while it is being made.
    pub fn empty_text(&self, shown: usize) -> (r: Option<&'static str>)
        ensures
            match r {
                Some(t) => shown == 0 && !self@.loading && t@ == (if self@.in_gallery {
                    "  Gallery is empty"@
                } else {
                    "  No matches"@
                }),
                None => shown > 0 || self@.loading,
            },
    {
        if shown > 0 || self.loading {
            None
        } else if self.in_gallery {
            Some("  Gallery is empty")
        } else {
            Some("  No matches")
        }
    }

    /// What the confirming button says. `kinds` tells of each selected path
    /// what it is.
    pub fn action_label(&self, kinds: &Vec<PathKind>) -> (r: String)
        ensures
            r@ == (if self@.save_mode {
                "Сохранить"@
            } else if count_files(kinds@) > 1 {
                "Open ("@ + decimal(count_files(kinds@) as nat) + ")"@
            } else {
                "Open"@
            }),
    {
        if self.save_mode {
            return "Сохранить".to_owned();
        }
        let n: usize = selected_files(kinds);
        if n > 1 {
            let t = decimal_text(n as u64);
            glue3("Open (", t.as_str(), ")")
        } else {
            "Open".to_owned()
        }
    }

    /// Takes another format to save in; the name that stands there gets its
    /// extension.
    pub fn set_save_format(&mut self, format: ExportFormat)
        ensures
            format == old(self)@.save_format ==> final(self)@ == old(self)@,
            format != old(self)@.save_format ==> exists|stem: Seq<char>|
                final(self)@ == #[trigger] old(self)@.reformatted(format, stem)
                    && is_new_stem(old(self)@.file_name, stem),
    {
        if format == self.save_format {
            return ;
        }
        let found = file_stem_or(self.file_name.as_str(), "");
        let ghost known = found@;
        proof {
            reveal_strlit("untitled");
            reveal_strlit("");
            assert(""@ =~= Seq::empty());
            if names_file(self@.file_name) {
                lemma_stem_not_empty(last_name(self@.file_name));
            }
            assert(tells_stem_or(self@.file_name, Seq::empty(), known));
        }
        let stem = if is_blank(found.as_str()) {
            "untitled".to_owned()
        } else {
            found
        };
        self.save_format = format;
        self.file_name = glue3(stem.as_str(), ".", format.extension());
        assert(self@ == old(self)@.reformatted(format, stem@));
    }

    /// The file whose details show.
    pub fn preview_focus(&self, kinds: &Vec<PathKind>) -> (r: Option<String>)
        requires
            kinds.len() == self.selected.len(),
        ensures
            opt_view(r) == self@.shown_path(kinds@),
    {
        assert(self@.selected.len() == self.selected.len());
        match &self.detail.path {
            Some(p) => Some(p.as_str().to_owned()),
            None => match find_last_file(kinds) {
                Some(k) => Some(self.selected[k].as_str().to_owned()),
                None => {
                    let n: usize = self.selected.len();
                    if n > 0 {
                        assert(self@.selected.last() == self.selected@[n - 1]@);
                        Some(self.selected[n - 1].as_str().to_owned())
                    } else {
                        None
                    }
                },
            },
        }
    }
}

impl Browser {
    /// A file that the address bar named, with the name that stands there.
    pub open spec fn addressed(self, path: Seq<char>, name: Seq<char>) -> Browser {
        Browser { path_edit: path, file_name: name, ..self }
    }

    /// Another format to save in, under a stem.
    pub open spec fn reformatted(self, format: ExportFormat, stem: Seq<char>) -> Browser {
        Browser {
            save_format: format,
            file_name: stem + "."@ + format.extension_text(),
            ..self
        }
    }
}

/// The folder of a canvas, on its way into the side bar.
pub struct CanvasFolder {
    pub last_opened: u64,
    pub folder: Option<String>,
    pub is_dir: bool,
}

/// The same as a value.
pub struct OneFolder {
    pub last_opened: u64,
    pub folder: Option<Seq<char>>,
    pub is_dir: bool,
}

impl View for CanvasFolder {
    type V = OneFolder;

    open spec fn view(&self) -> OneFolder {
        OneFolder {
            last_opened: self.last_opened,
            folder: opt_view(self.folder),
            is_dir: self.is_dir,
        }
    }
}

pub open spec fn canvas_folders(v: Seq<CanvasFolder>) -> Seq<OneFolder> {
    v.map_values(|c: CanvasFolder| c@)
}

pub open spec fn visited_later(a: OneFolder, b: OneFolder) -> bool {
    a.last_opened > b.last_opened
}

/// The folders of canvases from place `i` on, each once, until there are
/// enough.
pub open spec fn gathered(
    list: Seq<OneFolder>,
    i: int,
    have: Seq<Seq<char>>,
    system: System,
) -> Seq<Seq<char>>
    decreases list.len() - i,
{
    if i < 0 || i >= list.len() {
        have
    } else {
        let c = list[i];
        let more = if c.is_dir && c.folder is Some && !has_place(have, c.folder->Some_0, system) {
            have.push(c.folder->Some_0)
        } else {
            have
        };
        if more.len() >= MENU_RECENT {
            more
        } else {
            gathered(list, i + 1, more, system)
        }
    }
}

/// The folders in the side bar's block of recent ones: the remembered ones, or
/// those of the canvases opened last.
pub open spec fn recent_block(
    remembered: Seq<Seq<char>>,
    canvases: Seq<OneFolder>,
    system: System,
) -> Seq<Seq<char>> {
    at_most(
        if remembered.len() > 0 {
            remembered
        } else {
            gathered(
                stable_sorted(canvases, |a: OneFolder, b: OneFolder| visited_later(a, b)),
                0,
                Seq::empty(),
                system,
            )
        },
        12,
    )
}

fn later_folder(a: &CanvasFolder, b: &CanvasFolder) -> (r: bool)
    ensures
        r == visited_later(a@, b@),
{
    a.last_opened > b.last_opened
}

fn gather(list: &Vec<CanvasFolder>, system: System) -> (r: Vec<String>)
    ensures
        texts(r@) == gathered(canvas_folders(list@), 0, Seq::empty(), system),
{
    let n: usize = list.len();
    let ghost all = canvas_folders(list@);
    let mut out: Vec<String> = Vec::new();
    let mut i: usize = 0;
    assert(texts(out@) =~= Seq::empty());
    while i < n
        invariant
            i <= n,
            n == list.len(),
            all == canvas_folders(list@),
            gathered(all, i as int, texts(out@), system) == gathered(
                all,
                0,
                Seq::empty(),
                system,
            ),
        decreases n - i,
    {
        let ghost have = texts(out@);
        assert(all[i as int] == list@[i as int]@);
        match &list[i].folder {
            Some(f) => {
                if list[i].is_dir && !has_path(&out, f.as_str(), system) {
                    out.push(f.as_str().to_owned());
                    assert(texts(out@) =~= have.push(f@));
                }
            },
            None => {},
        }
        assert(texts(out@).len() == out.len());
        if out.len() >= MENU_RECENT {
            return out;
        }
        i += 1;
    }
    out
}

impl FileBrowser {
    /// The folders in the side bar's block of recent ones. `canvases` are the
    /// folders of the library's canvases, in its order.
    pub fn recent_rows(&self, canvases: Vec<CanvasFolder>) -> (r: Vec<String>)
        ensures
            texts(r@) == recent_block(
                self@.recent_dirs,
                canvas_folders(canvases@),
                self@.system,
            ),
    {
        assert(self@.recent_dirs.len() == self.recent_dirs.len());
        let mut r = if self.recent_dirs.len() > 0 {
            copy_texts(&self.recent_dirs)
        } else {
            let mut list = canvases;
            let ghost start = list@;
            let ghost before = |a: CanvasFolder, b: CanvasFolder| visited_later(a@, b@);
            stable_sort(&mut list, later_folder, Ghost(before));
            proof {
                lemma_sorted_map(
                    start,
                    |c: CanvasFolder| c@,
                    before,
                    |a: OneFolder, b: OneFolder| visited_later(a, b),
                );
            }
            gather(&list, self.system)
        };
        keep_first(&mut r, 12);
        r
    }
}

/// What the preview pane says of a file.
pub struct PreviewInfo {
    pub name: String,
    pub format: String,
    /// The collection's line, where the library knows the file.
    pub collection: Option<String>,
    pub tags: Vec<String>,
    pub nsfw: bool,
    pub pinned: bool,
}

/// Whether a stem is that of a name in another format: its own, or `untitled`
/// where it has none.
pub open spec fn is_new_stem(name: Seq<char>, stem: Seq<char>) -> bool {
    &&& exists|s: Seq<char>| #[trigger]
        tells_stem_or(name, Seq::empty(), s) && stem == (if s.len() == 0 {
            "untitled"@
        } else {
            s
        })
    &&& stem.len() > 0
    &&& names_file(name) ==> stem == name_stem(last_name(name))
}

/// What the preview pane says of a format that the path tells.
pub open spec fn path_format_line(ext: Option<Seq<char>>) -> Seq<char> {
    "Формат: ."@ + (match ext {
        Some(x) => lower(x),
        None => "?"@,
    })
}

/// What the preview pane says of a file: what the library has, else what the
/// path tells.
pub fn preview_info(library: &LibraryStore, path: &str) -> (r: PreviewInfo)
    ensures
        library@.knows(path@) ==> {
            let e = library@.entry(path@);
            &&& r.name@ == e.name
            &&& e.format.len() > 0 ==> r.format@ == "Формат: ."@ + e.format
            &&& opt_view(r.collection) == Some(collection_line(e.collection))
            &&& texts(r.tags@) == e.tags
            &&& r.nsfw == e.nsfw
            &&& r.pinned == e.pinned
        },
        !library@.knows(path@) ==> {
            &&& r.collection is None
            &&& r.tags@.len() == 0
            &&& !r.nsfw
            &&& !r.pinned
            &&& tells_stem_or(path@, path@, r.name@)
        },
        (library@.knows(path@) ==> library@.entry(path@).format.len() == 0) ==> exists|
            e: Option<Seq<char>>,
        | #[trigger] tells_extension(path@, e) && r.format@ == path_format_line(e),
{
    let at: usize = library.find(path);
    let known: bool = at < library.entries.len();
    let ext = extension(path);
    let ghost known_ext = tells_extension(path@, opt_view(ext));
    let from_path = match ext {
        Some(x) => ascii_lower(x.as_str()),
        None => "?".to_owned(),
    };
    if known {
        let e = &library.entries[at];
        assert(library@.entry(path@) == library.entries@[at as int]@);
        let format = if is_blank(e.format.as_str()) {
            from_path
        } else {
            e.format.as_str().to_owned()
        };
        PreviewInfo {
            name: e.name.as_str().to_owned(),
            format: glue("Формат: .", format.as_str()),
            collection: Some(collection_text(e.collection.as_str())),
            tags: copy_texts(&e.tags),
            nsfw: e.nsfw,
            pinned: e.pinned,
        }
    } else {
        PreviewInfo {
            name: file_stem_or(path, path),
            format: glue("Формат: .", from_path.as_str()),
            collection: None,
            tags: Vec::new(),
            nsfw: false,
            pinned: false,
        }
    }
}

} // verus!
