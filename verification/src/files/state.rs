//! The state of the open document: its path, its status line and what is
//! asked of the user before it closes.
//!
//! Times of day are seconds since 1970, the clock that toasts go by counts
//! milliseconds, and time spent is counted in milliseconds.
use vstd::prelude::*;
use crate::files::format::ExportFormat;
use crate::files::library::{Library, LibraryStore, Meta, PendingCanvasMeta, meta_view};
use crate::paths::{file_stem_or, path_is_native_project, tells_native, tells_stem_or};
use crate::text::{is_blank, opt_view, trim, trimmed};

verus! {

/// What waits until the user has said what becomes of unsaved changes.
#[derive(Clone, Copy, Debug, PartialEq, Eq, Structural)]
pub enum ClosePrompt {
    /// Leaving the editor for the gallery.
    ToGallery,
    /// Quitting the program.
    Quit,
}

/// What is done with a document once it is read.
#[derive(Debug)]
pub enum OpenIntent {
    ReplaceActive,
    NewCanvas,
    NewSheet,
    Recover { title: String },
}

/// A message in the middle of the window.
#[verifier::ext_equal]
pub struct Toast {
    pub msg: Seq<char>,
    pub error: bool,
    pub started: u64,
}

pub struct StatusToast {
    pub msg: String,
    pub error: bool,
    /// The clock when it appeared.
    pub started: u64,
}

pub open spec fn toast_view(t: Option<StatusToast>) -> Option<Toast> {
    match t {
        Some(x) => Some(Toast { msg: x.msg@, error: x.error, started: x.started }),
        None => None,
    }
}

/// A document being read.
#[verifier::ext_equal]
pub struct Opening {
    pub path: Seq<char>,
    pub intent: OpenIntent,
}

pub struct OpenJob {
    pub path: String,
    pub intent: OpenIntent,
}

pub open spec fn opening_view(j: Option<OpenJob>) -> Option<Opening> {
    match j {
        Some(x) => Some(Opening { path: x.path@, intent: x.intent }),
        None => None,
    }
}

/// A document being written.
#[verifier::ext_equal]
pub struct Saving {
    pub path: Seq<char>,
    pub format: ExportFormat,
    pub edit_gen: u64,
}

pub struct SaveJob {
    pub path: String,
    pub format: ExportFormat,
    /// The document's edit count when it was handed over.
    pub edit_gen: u64,
}

pub open spec fn saving_view(j: Option<SaveJob>) -> Option<Saving> {
    match j {
        Some(x) => Some(Saving { path: x.path@, format: x.format, edit_gen: x.edit_gen }),
        None => None,
    }
}

/// The pixels of a copied selection and where they came from.
pub struct SelectionClipboard {
    pub width: u32,
    pub height: u32,
    pub rgba: Vec<u8>,
    pub origin_x: i32,
    pub origin_y: i32,
}

#[verifier::ext_equal]
pub struct Clip {
    pub width: u32,
    pub height: u32,
    pub rgba: Seq<u8>,
    pub origin_x: i32,
    pub origin_y: i32,
}

impl View for SelectionClipboard {
    type V = Clip;

    open spec fn view(&self) -> Clip {
        Clip {
            width: self.width,
            height: self.height,
            rgba: self.rgba@,
            origin_x: self.origin_x,
            origin_y: self.origin_y,
        }
    }
}

pub open spec fn clip_view(c: Option<SelectionClipboard>) -> Option<Clip> {
    match c {
        Some(x) => Some(x@),
        None => None,
    }
}

pub open spec fn export_view(e: Option<(String, ExportFormat)>) -> Option<
    (Seq<char>, ExportFormat),
> {
    match e {
        Some((p, f)) => Some((p@, f)),
        None => None,
    }
}

/// The state as a value.
#[verifier::ext_equal]
pub struct Files {
    pub path: Option<Seq<char>>,
    pub show_new_dialog: bool,
    pub show_save_as: bool,
    pub show_save_root_prompt: bool,
    pub save_root_prompt_path: Seq<char>,
    pub save_as_format: ExportFormat,
    pub status: Option<Seq<char>>,
    pub status_is_error: bool,
    pub toast: Option<Toast>,
    pub library: Library,
    pub pending_meta: Option<Meta>,
    pub time_dirty_secs: u64,
    pub canvas_time_accum: u64,
    pub orphan_time_secs: u64,
    pub app_time_accum: u64,
    pub app_time_dirty: u64,
    pub pending_open: Option<Opening>,
    pub pending_save: Option<Saving>,
    pub saved_edit_gen: u64,
    pub close_prompt: Option<ClosePrompt>,
    pub leave_after_prompt: Option<ClosePrompt>,
    pub close_after_save: Option<ClosePrompt>,
    pub pending_raster_export: Option<(Seq<char>, ExportFormat)>,
    pub pending_enter_editor: bool,
    pub pending_new_document: Option<u64>,
    pub want_save: bool,
    pub selection_clipboard: Option<Clip>,
    pub clipboard_seq: Option<u32>,
}

pub struct FileState {
    pub path: Option<String>,
    pub show_new_dialog: bool,
    pub show_save_as: bool,
    /// Whether the first save asks for a folder to keep documents in.
    pub show_save_root_prompt: bool,
    pub save_root_prompt_path: String,
    pub save_as_format: ExportFormat,
    pub status: Option<String>,
    pub status_is_error: bool,
    pub toast: Option<StatusToast>,
    pub library: LibraryStore,
    /// What a new canvas takes into the library when it is first saved.
    pub pending_meta: Option<PendingCanvasMeta>,
    /// Seconds of canvas time since the library was last written.
    pub time_dirty_secs: u64,
    /// Milliseconds of canvas time that make no whole second yet.
    pub canvas_time_accum: u64,
    /// Seconds spent on a canvas that has no entry yet.
    pub orphan_time_secs: u64,
    /// Milliseconds of program time that make no whole second yet.
    pub app_time_accum: u64,
    /// Milliseconds of program time since the library was last written.
    pub app_time_dirty: u64,
    pub pending_open: Option<OpenJob>,
    pub pending_save: Option<SaveJob>,
    /// The document's edit count when it was last saved or opened.
    pub saved_edit_gen: u64,
    pub close_prompt: Option<ClosePrompt>,
    /// Where to leave for, once the user has agreed.
    pub leave_after_prompt: Option<ClosePrompt>,
    /// Where to leave for, once the document is saved.
    pub close_after_save: Option<ClosePrompt>,
    /// A PNG or JPEG whose options are still to be chosen.
    pub pending_raster_export: Option<(String, ExportFormat)>,
    pub pending_enter_editor: bool,
    /// The number of a new document that waits for its tab.
    pub pending_new_document: Option<u64>,
    pub want_save: bool,
    pub selection_clipboard: Option<SelectionClipboard>,
    /// The system clipboard's count after the last copy.
    pub clipboard_seq: Option<u32>,
}

impl View for FileState {
    type V = Files;

    open spec fn view(&self) -> Files {
        Files {
            path: opt_view(self.path),
            show_new_dialog: self.show_new_dialog,
            show_save_as: self.show_save_as,
            show_save_root_prompt: self.show_save_root_prompt,
            save_root_prompt_path: self.save_root_prompt_path@,
            save_as_format: self.save_as_format,
            status: opt_view(self.status),
            status_is_error: self.status_is_error,
            toast: toast_view(self.toast),
            library: self.library@,
            pending_meta: meta_view(self.pending_meta),
            time_dirty_secs: self.time_dirty_secs,
            canvas_time_accum: self.canvas_time_accum,
            orphan_time_secs: self.orphan_time_secs,
            app_time_accum: self.app_time_accum,
            app_time_dirty: self.app_time_dirty,
            pending_open: opening_view(self.pending_open),
            pending_save: saving_view(self.pending_save),
            saved_edit_gen: self.saved_edit_gen,
            close_prompt: self.close_prompt,
            leave_after_prompt: self.leave_after_prompt,
            close_after_save: self.close_after_save,
            pending_raster_export: export_view(self.pending_raster_export),
            pending_enter_editor: self.pending_enter_editor,
            pending_new_document: self.pending_new_document,
            want_save: self.want_save,
            selection_clipboard: clip_view(self.selection_clipboard),
            clipboard_seq: self.clipboard_seq,
        }
    }
}

/// Milliseconds that a toast stays.
pub const TOAST_MS: u64 = 1250;

impl Files {
    /// The state after a message in the status line. An error also shows as a
    /// toast.
    pub open spec fn told(self, msg: Seq<char>, error: bool, now: u64) -> Files {
        Files {
            status: Some(msg),
            status_is_error: error,
            toast: if error {
                Some(Toast { msg, error: true, started: now })
            } else {
                self.toast
            },
            ..self
        }
    }

    /// What is known of whether the path can be overwritten as a project.
    pub open spec fn tells_saves_native(self, r: bool) -> bool {
        match self.path {
            Some(p) => tells_native(p, r),
            None => !r,
        }
    }

    /// The state with a toast that is no error.
    pub open spec fn with_toast(self, msg: Seq<char>, now: u64) -> Files {
        Files { toast: Some(Toast { msg, error: false, started: now }), ..self }
    }

    /// The name of a document that has no path.
    pub open spec fn untitled_name(self) -> Seq<char> {
        match self.pending_meta {
            Some(m) => if trimmed(m.name).len() == 0 {
                "Новый холст"@
            } else {
                trimmed(m.name)
            },
            None => "Untitled"@,
        }
    }
}

/// The state at the start, with the library that was read.
pub open spec fn initial(library: Library) -> Files {
    Files {
        path: None,
        show_new_dialog: false,
        show_save_as: false,
        show_save_root_prompt: false,
        save_root_prompt_path: Seq::empty(),
        save_as_format: ExportFormat::Txmh,
        status: None,
        status_is_error: false,
        toast: None,
        library,
        pending_meta: None,
        time_dirty_secs: 0,
        canvas_time_accum: 0,
        orphan_time_secs: 0,
        app_time_accum: 0,
        app_time_dirty: 0,
        pending_open: None,
        pending_save: None,
        saved_edit_gen: 0,
        close_prompt: None,
        leave_after_prompt: None,
        close_after_save: None,
        pending_raster_export: None,
        pending_enter_editor: false,
        pending_new_document: None,
        want_save: false,
        selection_clipboard: None,
        clipboard_seq: None,
    }
}

impl FileState {
    pub fn new(library: LibraryStore) -> (r: FileState)
        ensures
            r@ == initial(library@),
    {
        let r = FileState {
            path: None,
            show_new_dialog: false,
            show_save_as: false,
            show_save_root_prompt: false,
            save_root_prompt_path: String::new(),
            save_as_format: ExportFormat::Txmh,
            status: None,
            status_is_error: false,
            toast: None,
            library,
            pending_meta: None,
            time_dirty_secs: 0,
            canvas_time_accum: 0,
            orphan_time_secs: 0,
            app_time_accum: 0,
            app_time_dirty: 0,
            pending_open: None,
            pending_save: None,
            saved_edit_gen: 0,
            close_prompt: None,
            leave_after_prompt: None,
            close_after_save: None,
            pending_raster_export: None,
            pending_enter_editor: false,
            pending_new_document: None,
            want_save: false,
            selection_clipboard: None,
            clipboard_seq: None,
        };
        assert(r@ =~= initial(library@));
        r
    }

    /// Puts a message into the status line; an error also shows as a toast.
    pub fn set_status(&mut self, msg: String, error: bool, now: u64)
        ensures
            final(self)@ == old(self)@.told(msg@, error, now),
    {
        if error {
            self.toast = Some(
                StatusToast { msg: msg.as_str().to_owned(), error: true, started: now },
            );
        }
        self.status = Some(msg);
        self.status_is_error = error;
    }

    /// The toast to show now, with whether it is an error. One that has stayed
    /// its time is gone.
    pub fn show_center_toast(&mut self, now: u64) -> (r: Option<(String, bool)>)
        ensures
            match old(self)@.toast {
                Some(t) => if now - t.started > TOAST_MS {
                    r is None && final(self)@ == (Files { toast: None, ..old(self)@ })
                } else {
                    r matches Some((m, e)) && m@ == t.msg && e == t.error && final(self)@ == old(
                        self,
                    )@
                },
                None => r is None && final(self)@ == old(self)@,
            },
    {
        let shown = match &self.toast {
            Some(t) => {
                if now > t.started && now - t.started > TOAST_MS {
                    None
                } else {
                    Some((t.msg.as_str().to_owned(), t.error))
                }
            },
            None => None,
        };
        if shown.is_none() {
            self.toast = None;
        }
        shown
    }

    pub fn is_opening(&self) -> (r: bool)
        ensures
            r == self@.pending_open is Some,
    {
        self.pending_open.is_some()
    }

    pub fn is_saving(&self) -> (r: bool)
        ensures
            r == self@.pending_save is Some,
    {
        self.pending_save.is_some()
    }

    /// Whether a document of that edit count has unsaved changes.
    pub fn is_dirty(&self, edit_generation: u64) -> (r: bool)
        ensures
            r == (edit_generation != self@.saved_edit_gen),
    {
        edit_generation != self.saved_edit_gen
    }

    pub fn mark_clean(&mut self, edit_generation: u64)
        ensures
            final(self)@ == (Files { saved_edit_gen: edit_generation, ..old(self)@ }),
    {
        self.saved_edit_gen = edit_generation;
    }

    pub fn saved_edit_gen(&self) -> (r: u64)
        ensures
            r == self@.saved_edit_gen,
    {
        self.saved_edit_gen
    }

    pub fn set_saved_edit_gen(&mut self, gen: u64)
        ensures
            final(self)@ == (Files { saved_edit_gen: gen, ..old(self)@ }),
    {
        self.saved_edit_gen = gen;
    }

    /// Whether saving can overwrite the path as a project.
    pub fn can_native_save(&self) -> (r: bool)
        ensures
            self@.tells_saves_native(r),
    {
        match &self.path {
            Some(p) => path_is_native_project(p.as_str()),
            None => false,
        }
    }

    /// Whether something is under way that a close must wait for.
    pub fn close_blocked(&self) -> (r: bool)
        ensures
            r == (self@.close_prompt is Some || self@.close_after_save is Some
                || self@.pending_save is Some || self@.show_save_as
                || self@.show_save_root_prompt),
    {
        self.close_prompt.is_some() || self.close_after_save.is_some()
            || self.pending_save.is_some() || self.show_save_as || self.show_save_root_prompt
    }

    /// The document's name: its file's without the extension, or that of the
    /// new canvas.
    pub fn display_name(&self) -> (r: String)
        ensures
            match self@.path {
                Some(p) => tells_stem_or(p, "Untitled"@, r@),
                None => r@ == self@.untitled_name(),
            },
    {
        match &self.path {
            Some(p) => file_stem_or(p.as_str(), "Untitled"),
            None => match &self.pending_meta {
                Some(m) => {
                    let n = trim(m.name.as_str());
                    if is_blank(n.as_str()) {
                        "Новый холст".to_owned()
                    } else {
                        n
                    }
                },
                None => "Untitled".to_owned(),
            },
        }
    }

    /// Makes the document an untitled one of that name.
    pub fn set_untitled_name_hint(&mut self, name: String)
        ensures
            final(self)@ == (Files {
                path: None,
                pending_meta: Some(
                    Meta {
                        name: name@,
                        collection: Seq::empty(),
                        tags: Seq::empty(),
                        nsfw: false,
                    },
                ),
                ..old(self)@
            }),
    {
        self.path = None;
        let m = PendingCanvasMeta {
            name,
            collection: String::new(),
            tags: Vec::new(),
            nsfw: false,
        };
        assert(m@ =~= Meta {
            name: name@,
            collection: Seq::empty(),
            tags: Seq::empty(),
            nsfw: false,
        });
        self.pending_meta = Some(m);
    }

    pub fn pending_nsfw(&self) -> (r: bool)
        ensures
            r == (self@.pending_meta matches Some(m) && m.nsfw),
    {
        match &self.pending_meta {
            Some(m) => m.nsfw,
            None => false,
        }
    }

    pub fn open_new_dialog(&mut self)
        ensures
            final(self)@ == (Files { show_new_dialog: true, ..old(self)@ }),
    {
        self.show_new_dialog = true;
    }

    /// Whether to enter the editor; yes is told once.
    pub fn take_enter_editor(&mut self) -> (r: bool)
        ensures
            r == old(self)@.pending_enter_editor,
            final(self)@ == (Files { pending_enter_editor: false, ..old(self)@ }),
    {
        let v = self.pending_enter_editor;
        self.pending_enter_editor = false;
        v
    }

    /// The new document that waits for its tab; it is given once.
    pub fn take_pending_new_document(&mut self) -> (r: Option<u64>)
        ensures
            r == old(self)@.pending_new_document,
            final(self)@ == (Files { pending_new_document: None, ..old(self)@ }),
    {
        let v: Option<u64> = self.pending_new_document;
        self.pending_new_document = None;
        v
    }

    /// Forgets the document, for the gallery.
    pub fn clear_home_state(&mut self)
        ensures
            final(self)@ == (Files {
                path: None,
                pending_meta: None,
                status: None,
                status_is_error: false,
                pending_enter_editor: false,
                pending_new_document: None,
                ..old(self)@
            }),
    {
        self.path = None;
        self.pending_meta = None;
        self.status = None;
        self.status_is_error = false;
        self.pending_enter_editor = false;
        self.pending_new_document = None;
    }

    /// The status line and whether it is an error.
    pub fn status_bar_hint(&self) -> (r: Option<(&str, bool)>)
        ensures
            match self@.status {
                Some(s) => r matches Some((t, e)) && t@ == s && e == self@.status_is_error,
                None => r is None,
            },
    {
        match &self.status {
            Some(s) => Some((s.as_str(), self.status_is_error)),
            None => None,
        }
    }
}

} // verus!
