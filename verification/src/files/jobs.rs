//! Opening and saving: what starts, what its end means, and what the user is
//! asked on the way.
use vstd::prelude::*;
use crate::files::format::ExportFormat;
use crate::files::library::{Meta, PendingCanvasMeta, file_visit, reads_as};
use crate::files::state::{
    ClosePrompt, FileState, Files, OpenIntent, OpenJob, Opening, SaveJob, Saving, StatusToast,
};
use crate::paths::{format_of, tells_format};
use crate::paths::reading::names_file;
use crate::text::{glue, glue3, is_blank, same_text, texts, trim, trimmed};

verus! {

/// What the reader of a document has to say.
pub enum OpenEvent {
    /// The document is there.
    Loaded,
    Failed(String),
    /// It is still reading.
    Reading,
    /// It ended without an answer.
    Gone,
}

/// What the writer of a document has to say.
pub enum SaveEvent {
    Written,
    Failed(String),
    /// It is still writing.
    Writing,
    /// It ended without an answer.
    Gone,
}

/// The user's answer about unsaved changes.
#[derive(Clone, Copy, Debug, PartialEq, Eq, Structural)]
pub enum CloseAnswer {
    Save,
    Discard,
    Cancel,
}

/// Whether a file of this format holds a whole workspace.
pub open spec fn workspace_format(format: Seq<char>) -> bool {
    format == "txmh"@ || format == "beautiful"@
}

/// Whether the file is read as a whole workspace, by its extension.
pub fn opens_workspace(path: &str) -> (r: bool)
    ensures
        exists|f: Seq<char>| #[trigger] tells_format(path@, f) && r == workspace_format(f),
{
    let f = format_of(path);
    let ghost known = tells_format(path@, f@);
    same_text(f.as_str(), "txmh") || same_text(f.as_str(), "beautiful")
}

/// What became of a read: `None` where the reader crashed.
pub fn open_outcome(result: Option<Result<(), String>>) -> (r: OpenEvent)
    ensures
        match result {
            Some(Result::Ok(_)) => r is Loaded,
            Some(Result::Err(e)) => r == OpenEvent::Failed(e),
            None => r matches OpenEvent::Failed(m) && m@ == "Open crashed while reading file"@,
        },
{
    match result {
        Some(Result::Ok(_)) => OpenEvent::Loaded,
        Some(Result::Err(e)) => OpenEvent::Failed(e),
        None => OpenEvent::Failed("Open crashed while reading file".to_owned()),
    }
}

/// What became of a write: `None` where the writer crashed. A write counts
/// only where the file is there afterwards and not empty.
pub fn save_outcome(result: Option<Result<(), String>>, file_len: Result<u64, String>) -> (r:
    SaveEvent)
    ensures
        match result {
            Some(Result::Ok(_)) => match file_len {
                Result::Ok(n) => if n > 0 {
                    r is Written
                } else {
                    r matches SaveEvent::Failed(m) && m@ == "Save wrote an empty file"@
                },
                Result::Err(e) => r matches SaveEvent::Failed(m) && m@
                    == "Save finished but file missing: "@ + e@,
            },
            Some(Result::Err(e)) => r == SaveEvent::Failed(e),
            None => r matches SaveEvent::Failed(m) && m@ == "Save crashed while writing file"@,
        },
{
    match result {
        Some(Result::Ok(_)) => match file_len {
            Result::Ok(n) => {
                if n > 0 {
                    SaveEvent::Written
                } else {
                    SaveEvent::Failed("Save wrote an empty file".to_owned())
                }
            },
            Result::Err(e) => SaveEvent::Failed(
                glue("Save finished but file missing: ", e.as_str()),
            ),
        },
        Some(Result::Err(e)) => SaveEvent::Failed(e),
        None => SaveEvent::Failed("Save crashed while writing file".to_owned()),
    }
}

impl Files {
    /// The state after a save was asked for. Where the path is no project, the
    /// user is asked for one.
    pub open spec fn asked_save(self, native: bool) -> Files {
        Files {
            want_save: true,
            save_as_format: if native {
                self.save_as_format
            } else {
                ExportFormat::Txmh
            },
            show_save_as: self.show_save_as || !native,
            ..self
        }
    }

    /// The state after a close waits for a save that failed.
    pub open spec fn close_asked_again(self) -> Files {
        match self.close_after_save {
            Some(p) => Files { close_after_save: None, close_prompt: Some(p), ..self },
            None => self,
        }
    }

    /// The state after a project was written to a path.
    pub open spec fn project_saved(self, job: Saving, now: u64) -> Files {
        let s = (Files {
            path: Some(job.path),
            saved_edit_gen: job.edit_gen,
            ..self
        }).told("Saved "@ + job.path, false, now).with_toast("Saved "@ + job.path, now);
        match self.close_after_save {
            Some(p) => Files { close_after_save: None, leave_after_prompt: Some(p), ..s },
            None => s,
        }
    }

    /// The state after a picture was written to a path: the project itself is
    /// still unsaved, and a close goes on asking for a project.
    pub open spec fn picture_saved(self, job: Saving, now: u64) -> Files {
        let s = self.told(
            "Exported "@ + job.path + " (project still unsaved)"@,
            false,
            now,
        ).with_toast("Exported "@ + job.path, now);
        if self.close_after_save is Some {
            Files { save_as_format: ExportFormat::Txmh, show_save_as: true, ..s }
        } else {
            s
        }
    }

    /// The state after a write that the library has recorded.
    pub open spec fn saved(self, job: Saving, now: u64) -> Files {
        if job.format is Txmh {
            self.project_saved(job, now)
        } else {
            self.picture_saved(job, now)
        }
    }
}

impl FileState {
    fn toast_text(&mut self, msg: String, now: u64)
        ensures
            final(self)@ == old(self)@.with_toast(msg@, now),
    {
        self.toast = Some(StatusToast { msg, error: false, started: now });
    }

    /// Begins to read a document; tells whether to start the reader. While one
    /// is being read no other is.
    pub fn start_open(&mut self, path: &str, intent: OpenIntent, now: u64) -> (r: bool)
        ensures
            r == old(self)@.pending_open is None,
            final(self)@ == (if r {
                (Files {
                    pending_open: Some(Opening { path: path@, intent }),
                    ..old(self)@
                }).told("Opening "@ + path@ + "…"@, false, now)
            } else {
                old(self)@.told("Already opening a document"@, true, now)
            }),
    {
        if self.pending_open.is_some() {
            self.set_status("Already opening a document".to_owned(), true, now);
            return false;
        }
        self.pending_open = Some(OpenJob { path: path.to_owned(), intent });
        self.set_status(glue3("Opening ", path, "…"), false, now);
        true
    }

    /// Begins to read a document in place of the open one.
    pub fn open_path(&mut self, path: &str, now: u64) -> (r: bool)
        ensures
            r == old(self)@.pending_open is None,
            final(self)@ == (if r {
                (Files {
                    pending_open: Some(
                        Opening { path: path@, intent: OpenIntent::ReplaceActive },
                    ),
                    ..old(self)@
                }).told("Opening "@ + path@ + "…"@, false, now)
            } else {
                old(self)@.told("Already opening a document"@, true, now)
            }),
    {
        self.start_open(path, OpenIntent::ReplaceActive, now)
    }

    /// Takes note of what the reader says. Gives the job back when its document
    /// is there.
    pub fn poll_open(&mut self, event: OpenEvent, now: u64) -> (r: Option<OpenJob>)
        ensures
            ({
                let done = Files { pending_open: None, ..old(self)@ };
                match old(self)@.pending_open {
                    None => r is None && final(self)@ == old(self)@,
                    Some(job) => match event {
                        OpenEvent::Loaded => {
                            &&& r matches Some(j)
                            &&& (Opening { path: j.path@, intent: j.intent }) == job
                            &&& final(self)@ == done
                        },
                        OpenEvent::Failed(e) => r is None && final(self)@ == done.told(
                            "Open failed: "@ + e@,
                            true,
                            now,
                        ),
                        OpenEvent::Reading => r is None && final(self)@ == old(self)@.told(
                            "Opening "@ + job.path + "…"@,
                            false,
                            now,
                        ),
                        OpenEvent::Gone => r is None && final(self)@ == done.told(
                            "Open failed: background loader stopped"@,
                            true,
                            now,
                        ),
                    },
                }
            }),
    {
        let line = match &self.pending_open {
            Some(j) => glue3("Opening ", j.path.as_str(), "…"),
            None => {
                return None;
            },
        };
        match event {
            OpenEvent::Loaded => self.pending_open.take(),
            OpenEvent::Failed(e) => {
                self.pending_open = None;
                self.set_status(glue("Open failed: ", e.as_str()), true, now);
                None
            },
            OpenEvent::Reading => {
                self.set_status(line, false, now);
                None
            },
            OpenEvent::Gone => {
                self.pending_open = None;
                self.set_status("Open failed: background loader stopped".to_owned(), true, now);
                None
            },
        }
    }

    /// Takes over a canvas that the dialog asked for: `made` is the number and
    /// the edit count of the new document, or why there is none.
    pub fn create_from_dialog(
        &mut self,
        name: &str,
        collection: String,
        tags: Vec<String>,
        nsfw: bool,
        made: Result<(u64, u64), String>,
        now: u64,
    )
        ensures
            final(self)@ == (match made {
                Result::Ok((doc, gen)) => (Files {
                    path: None,
                    pending_meta: Some(
                        Meta {
                            name: if trimmed(name@).len() == 0 {
                                "Новый холст"@
                            } else {
                                trimmed(name@)
                            },
                            collection: collection@,
                            tags: texts(tags@),
                            nsfw,
                        },
                    ),
                    saved_edit_gen: gen,
                    pending_new_document: Some(doc),
                    show_new_dialog: false,
                    pending_enter_editor: true,
                    ..old(self)@
                }).told("New canvas created"@, false, now),
                Result::Err(e) => old(self)@.told("New canvas refused: "@ + e@, true, now),
            }),
    {
        match made {
            Result::Ok((doc, gen)) => {
                let mut base = trim(name);
                if is_blank(base.as_str()) {
                    base = "Новый холст".to_owned();
                }
                self.path = None;
                self.pending_meta = Some(
                    PendingCanvasMeta { name: base, collection, tags, nsfw },
                );
                self.saved_edit_gen = gen;
                self.pending_new_document = Some(doc);
                self.show_new_dialog = false;
                self.pending_enter_editor = true;
                self.set_status("New canvas created".to_owned(), false, now);
            },
            Result::Err(e) => {
                self.set_status(glue("New canvas refused: ", e.as_str()), true, now);
            },
        }
    }

    fn ask_save(&mut self, native: bool)
        ensures
            final(self)@ == old(self)@.asked_save(native),
    {
        self.want_save = true;
        if !native {
            self.save_as_format = ExportFormat::Txmh;
            self.show_save_as = true;
        }
    }

    /// Asks for a save: over the path where that is a project, else under a
    /// path that the user is asked for.
    pub fn save(&mut self)
        ensures
            exists|native: bool|
                final(self)@ == #[trigger] old(self)@.asked_save(native) && old(
                    self,
                )@.tells_saves_native(native),
    {
        let native: bool = self.can_native_save();
        self.ask_save(native);
    }

    /// Whether to save now; yes is told once, and not while the user is being
    /// asked for a path.
    pub fn take_want_save(&mut self) -> (r: bool)
        ensures
            r == (old(self)@.want_save && !old(self)@.show_save_as && !old(
                self,
            )@.show_save_root_prompt),
            final(self)@ == (Files {
                want_save: old(self)@.want_save && !r,
                ..old(self)@
            }),
    {
        let v: bool = self.want_save && !self.show_save_as && !self.show_save_root_prompt;
        if v {
            self.want_save = false;
        }
        v
    }

    /// Begins to write the document; tells whether to start the writer. While
    /// one is being written no other is.
    pub fn save_to(&mut self, path: &str, format: ExportFormat, edit_gen: u64, now: u64) -> (r:
        bool)
        ensures
            r == old(self)@.pending_save is None,
            final(self)@ == (if r {
                (Files {
                    pending_save: Some(Saving { path: path@, format, edit_gen }),
                    ..old(self)@
                }).told("Saving "@ + path@ + "…"@, false, now)
            } else {
                old(self)@.told("Already saving…"@, true, now)
            }),
    {
        if self.pending_save.is_some() {
            self.set_status("Already saving…".to_owned(), true, now);
            return false;
        }
        self.pending_save = Some(SaveJob { path: path.to_owned(), format, edit_gen });
        self.set_status(glue3("Saving ", path, "…"), false, now);
        true
    }

    fn ask_close_again(&mut self)
        ensures
            final(self)@ == old(self)@.close_asked_again(),
    {
        let waiting: Option<ClosePrompt> = self.close_after_save;
        if waiting.is_some() {
            self.close_after_save = None;
            self.close_prompt = waiting;
        }
    }

    fn note_saved(&mut self, job: SaveJob, now: u64)
        ensures
            final(self)@ == old(self)@.saved(
                Saving { path: job.path@, format: job.format, edit_gen: job.edit_gen },
                now,
            ),
    {
        if job.format == ExportFormat::Txmh {
            let line = glue("Saved ", job.path.as_str());
            self.set_status(line.as_str().to_owned(), false, now);
            self.toast_text(line, now);
            self.path = Some(job.path);
            self.saved_edit_gen = job.edit_gen;
            let waiting: Option<ClosePrompt> = self.close_after_save;
            if waiting.is_some() {
                self.close_after_save = None;
                self.leave_after_prompt = waiting;
            }
        } else {
            self.set_status(
                glue3("Exported ", job.path.as_str(), " (project still unsaved)"),
                false,
                now,
            );
            self.toast_text(glue("Exported ", job.path.as_str()), now);
            if self.close_after_save.is_some() {
                self.save_as_format = ExportFormat::Txmh;
                self.show_save_as = true;
            }
        }
        assert(self@ =~= old(self)@.saved(
            Saving { path: job.path@, format: job.format, edit_gen: job.edit_gen },
            now,
        ));
    }

    /// Takes note of what the writer says; tells whether the job has ended.
    /// `day` is the time of day and `modified` the written file's own.
    pub fn poll_save(&mut self, event: SaveEvent, now: u64, day: u64, modified: Option<u64>) -> (r:
        bool)
        ensures
            ({
                let done = Files { pending_save: None, ..old(self)@ };
                match old(self)@.pending_save {
                    None => !r && final(self)@ == old(self)@,
                    Some(job) => match event {
                        SaveEvent::Written => {
                            &&& r
                            &&& names_file(job.path) ==> final(self)@ == done.with_library_visit(
                                job.path,
                                file_visit(
                                    job.path,
                                    day,
                                    modified,
                                    done.pending_meta,
                                    done.orphan_time_secs,
                                ),
                            ).saved(job, now)
                            &&& exists|name: Seq<char>, format: Seq<char>|
                                final(self)@ == (#[trigger] done.visited_as(
                                    job.path,
                                    day,
                                    modified,
                                    name,
                                    format,
                                )).saved(job, now) && reads_as(job.path, name, format)
                        },
                        SaveEvent::Failed(e) => r && final(self)@ == done.told(
                            "Save failed: "@ + e@,
                            true,
                            now,
                        ).close_asked_again(),
                        SaveEvent::Writing => !r && final(self)@ == old(self)@,
                        SaveEvent::Gone => r && final(self)@ == done.told(
                            "Save failed: background writer stopped"@,
                            true,
                            now,
                        ).close_asked_again(),
                    },
                }
            }),
    {
        if self.pending_save.is_none() {
            return false;
        }
        match event {
            SaveEvent::Writing => false,
            SaveEvent::Failed(e) => {
                self.pending_save = None;
                self.set_status(glue("Save failed: ", e.as_str()), true, now);
                self.ask_close_again();
                true
            },
            SaveEvent::Gone => {
                self.pending_save = None;
                self.set_status("Save failed: background writer stopped".to_owned(), true, now);
                self.ask_close_again();
                true
            },
            SaveEvent::Written => {
                match self.pending_save.take() {
                    Some(job) => {
                        self.push_library(job.path.as_str(), day, modified);
                        self.note_saved(job, now);
                    },
                    None => {},
                }
                true
            },
        }
    }

    /// The user's answer about unsaved changes in a document of that edit
    /// count.
    pub fn answer_close(&mut self, answer: CloseAnswer, edit_generation: u64)
        ensures
            match old(self)@.close_prompt {
                None => final(self)@ == old(self)@,
                Some(p) => {
                    let done = Files { close_prompt: None, ..old(self)@ };
                    match answer {
                        CloseAnswer::Save => {
                            let waits = Files { close_after_save: Some(p), ..done };
                            exists|native: bool|
                                final(self)@ == #[trigger] waits.asked_save(native) && old(
                                    self,
                                )@.tells_saves_native(native)
                        },
                        CloseAnswer::Discard => final(self)@ == (Files {
                            saved_edit_gen: edit_generation,
                            leave_after_prompt: Some(p),
                            ..done
                        }),
                        CloseAnswer::Cancel => final(self)@ == done,
                    }
                },
            },
    {
        let prompt: Option<ClosePrompt> = self.close_prompt;
        if prompt.is_none() {
            return ;
        }
        self.close_prompt = None;
        match answer {
            CloseAnswer::Save => {
                self.close_after_save = prompt;
                self.save();
            },
            CloseAnswer::Discard => {
                self.mark_clean(edit_generation);
                self.leave_after_prompt = prompt;
            },
            CloseAnswer::Cancel => {},
        }
    }
}

/// Writing a picture leaves the document unsaved, whatever it was, and under
/// the path it had; only a project makes it clean.
pub proof fn law_export_is_no_save(f: Files, job: Saving, now: u64)
    ensures
        !(job.format is Txmh) ==> f.saved(job, now).saved_edit_gen == f.saved_edit_gen && f.saved(
            job,
            now,
        ).path == f.path,
        job.format is Txmh ==> f.saved(job, now).saved_edit_gen == job.edit_gen && f.saved(
            job,
            now,
        ).path == Some(job.path),
{
}

/// A close that waits for a save is not forgotten: it goes on after a project
/// was written, is asked again after a failure, and after a picture still
/// waits, with a project being asked for.
pub proof fn law_close_is_kept(f: Files, p: ClosePrompt, job: Saving, now: u64)
    requires
        f.close_after_save == Some(p),
    ensures
        job.format is Txmh ==> f.saved(job, now).leave_after_prompt == Some(p) && f.saved(
            job,
            now,
        ).close_after_save is None,
        !(job.format is Txmh) ==> f.saved(job, now).close_after_save == Some(p) && f.saved(
            job,
            now,
        ).show_save_as && f.saved(job, now).save_as_format is Txmh,
        f.close_asked_again().close_prompt == Some(p) && f.close_asked_again().close_after_save
            is None,
{
}

/// A document saved as a project is clean at the edit count it was handed over
/// with, and dirty at any other.
pub proof fn law_saved_is_clean(f: Files, job: Saving, now: u64, edit_generation: u64)
    requires
        job.format is Txmh,
    ensures
        (edit_generation != f.saved(job, now).saved_edit_gen) == (edit_generation
            != job.edit_gen),
{
}

} // verus!
