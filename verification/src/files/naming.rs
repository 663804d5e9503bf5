//! Names and folders that are offered for a save.
use vstd::prelude::*;
use crate::files::catalog::str_view;
use crate::files::format::{ExportFormat, law_plain_extension};
use crate::files::library::{is_own_collection, own_collection};
use crate::files::state::{FileState, Files};
use crate::paths::{
    ensure_extension, file_name_or, file_stem, join, path_in, tells_ensured, tells_name_or,
    tells_stem, with_extension,
};
use crate::text::{chars_of, glue, glue3, is_blank, opt_view, trim, trimmed};

verus! {

/// Whether some system refuses the character in a file name.
pub open spec fn refused_char(c: char) -> bool {
    c == '<' || c == '>' || c == ':' || c == '"' || c == '/' || c == '\\' || c == '|' || c == '?'
        || c == '*'
}

/// One character of a file name: an underscore in place of a refused one.
pub open spec fn safe_char(c: char) -> char {
    if refused_char(c) {
        '_'
    } else {
        c
    }
}

/// A text as a file name.
pub open spec fn safe_text(s: Seq<char>) -> Seq<char> {
    s.map_values(|c: char| safe_char(c))
}

/// The text with an underscore in place of each character that some system
/// refuses in a file name.
pub fn safe_name(s: &str) -> (r: String)
    ensures
        r@ == safe_text(s@),
{
    let chars = chars_of(s);
    let n: usize = chars.len();
    let mut out = String::new();
    let mut i: usize = 0;
    while i < n
        invariant
            i <= n,
            n == chars.len(),
            chars@ == s@,
            out@ == safe_text(s@).take(i as int),
        decreases n - i,
    {
        let c = chars[i];
        let refused: bool = c == '<' || c == '>' || c == ':' || c == '"' || c == '/' || c == '\\'
            || c == '|' || c == '?' || c == '*';
        out.push(
            if refused {
                '_'
            } else {
                c
            },
        );
        i += 1;
        assert(out@ =~= safe_text(s@).take(i as int));
    }
    assert(safe_text(s@).take(n as int) =~= safe_text(s@));
    out
}

/// A safe name has no refused character, is as long as the text, and is the
/// text itself where that has none.
pub proof fn law_safe_name(s: Seq<char>)
    ensures
        safe_text(s).len() == s.len(),
        forall|i: int| 0 <= i < s.len() ==> !refused_char(#[trigger] safe_text(s)[i]),
        safe_text(safe_text(s)) == safe_text(s),
        (forall|i: int| 0 <= i < s.len() ==> !refused_char(#[trigger] s[i])) ==> safe_text(s) == s,
{
    assert(safe_text(safe_text(s)) =~= safe_text(s));
    if forall|i: int| 0 <= i < s.len() ==> !refused_char(#[trigger] s[i]) {
        assert(safe_text(s) =~= s);
    }
}

/// A stem with an extension.
pub open spec fn dotted(stem: Seq<char>, ext: Seq<char>) -> Seq<char> {
    stem + "."@ + ext
}

/// The name offered for a save, by the stem of the document's path and the
/// name of a new canvas.
pub open spec fn offered_name(
    stem: Option<Seq<char>>,
    canvas: Option<Seq<char>>,
    ext: Seq<char>,
) -> Seq<char> {
    if stem is Some && stem->Some_0.len() > 0 {
        dotted(stem->Some_0, ext)
    } else if canvas is Some && trimmed(safe_text(canvas->Some_0)).len() > 0 {
        dotted(safe_text(canvas->Some_0), ext)
    } else {
        dotted("untitled"@, ext)
    }
}

/// The name offered for a save, by the stem of the document's path and the
/// name of a new canvas.
pub fn save_name(stem: Option<String>, canvas: Option<&str>, ext: &str) -> (r: String)
    ensures
        r@ == offered_name(
            opt_view(stem),
            str_view(canvas),
            ext@,
        ),
{
    if let Some(s) = &stem {
        if !is_blank(s.as_str()) {
            return glue3(s.as_str(), ".", ext);
        }
    }
    if let Some(c) = canvas {
        let safe = safe_name(c);
        let core = trim(safe.as_str());
        if !is_blank(core.as_str()) {
            return glue3(safe.as_str(), ".", ext);
        }
    }
    glue3("untitled", ".", ext)
}

impl Files {
    /// The name of a new canvas.
    pub open spec fn canvas_name(self) -> Option<Seq<char>> {
        match self.pending_meta {
            Some(m) => Some(m.name),
            None => None,
        }
    }

    /// The folder that a new canvas goes to under the root folder; none where
    /// it goes to the root itself.
    pub open spec fn subfolder(self) -> Option<Seq<char>> {
        match self.pending_meta {
            Some(m) => {
                let safe = trimmed(safe_text(trimmed(m.collection)));
                if own_collection(trimmed(m.collection)) && safe.len() > 0 {
                    Some(safe)
                } else {
                    None
                }
            },
            None => None,
        }
    }
}

impl FileState {
    /// The file name offered for a save in the chosen format.
    pub fn suggested_save_name(&self) -> (r: String)
        ensures
            exists|stem: Option<Seq<char>>|
                r@ == #[trigger] offered_name(
                    stem,
                    self@.canvas_name(),
                    self@.save_as_format.extension_text(),
                ) && (match self@.path {
                    Some(p) => tells_stem(p, stem),
                    None => stem is None,
                }),
    {
        let stem = match &self.path {
            Some(p) => file_stem(p.as_str()),
            None => None,
        };
        let canvas = match &self.pending_meta {
            Some(m) => Some(m.name.as_str()),
            None => None,
        };
        assert(str_view(canvas) == self@.canvas_name());
        save_name(stem, canvas, self.save_as_format.extension())
    }

    /// The folder under the root folder that a new canvas is offered.
    pub fn save_subfolder(&self) -> (r: Option<String>)
        ensures
            opt_view(r) == self@.subfolder(),
    {
        match &self.pending_meta {
            Some(m) => {
                let c = trim(m.collection.as_str());
                if !is_own_collection(c.as_str()) {
                    return None;
                }
                let whole = safe_name(c.as_str());
                let safe = trim(whole.as_str());
                if is_blank(safe.as_str()) {
                    None
                } else {
                    Some(safe)
                }
            },
            None => None,
        }
    }

    /// The folder that a new canvas is offered, under the configured root
    /// folder where there is one.
    pub fn suggested_save_dir(&self, root: Option<String>) -> (r: Option<String>)
        ensures
            r is Some <==> root is Some,
            root is Some && self@.subfolder() is None ==> opt_view(r) == opt_view(root),
            root is Some && self@.subfolder() is Some ==> {
                let dir = root->0@;
                let name = self@.subfolder()->0;
                path_in(dir, name, r->0@)
            },
    {
        match root {
            Some(root) => match self.save_subfolder() {
                Some(name) => Some(join(root.as_str(), name.as_str())),
                None => Some(root),
            },
            None => None,
        }
    }

    /// Asks for the folder to keep documents in, in place of a path. The path
    /// that stands there is kept; an empty one becomes the configured folder or
    /// the suggested one.
    pub fn begin_save_root_prompt(&mut self, configured: Option<String>, suggested: String)
        ensures
            final(self)@ == (Files {
                show_save_as: false,
                show_save_root_prompt: true,
                save_root_prompt_path: if trimmed(old(self)@.save_root_prompt_path).len() > 0 {
                    old(self)@.save_root_prompt_path
                } else {
                    match configured {
                        Some(c) => c@,
                        None => suggested@,
                    }
                },
                ..old(self)@
            }),
    {
        self.show_save_as = false;
        self.show_save_root_prompt = true;
        let typed = trim(self.save_root_prompt_path.as_str());
        if is_blank(typed.as_str()) {
            self.save_root_prompt_path = match configured {
                Some(c) => c,
                None => suggested,
            };
        }
    }

    /// The folder that agreeing to the prompt means.
    pub fn chosen_save_root(&self, suggested: String) -> (r: String)
        ensures
            r@ == (if trimmed(self@.save_root_prompt_path).len() == 0 {
                suggested@
            } else {
                trimmed(self@.save_root_prompt_path)
            }),
    {
        let typed = trim(self.save_root_prompt_path.as_str());
        if is_blank(typed.as_str()) {
            suggested
        } else {
            typed
        }
    }

    /// After the settings took the folder, or not: tells whether to go on and
    /// ask for a path.
    pub fn save_root_accepted(&mut self, result: Result<(), String>, now: u64) -> (r: bool)
        ensures
            r == result is Ok,
            final(self)@ == (match result {
                Result::Ok(_) => Files {
                    show_save_root_prompt: false,
                    show_save_as: true,
                    ..old(self)@
                },
                Result::Err(e) => old(self)@.told(
                    "Не удалось сохранить корень: "@ + e@,
                    true,
                    now,
                ),
            }),
    {
        match result {
            Result::Ok(_) => {
                self.show_save_root_prompt = false;
                self.show_save_as = true;
                true
            },
            Result::Err(e) => {
                self.set_status(
                    glue("Не удалось сохранить корень: ", e.as_str()),
                    true,
                    now,
                );
                false
            },
        }
    }

    /// After the user wanted no such folder: a path is asked for in any case.
    pub fn save_root_declined(&mut self, result: Result<(), String>, now: u64)
        ensures
            final(self)@ == (Files {
                show_save_root_prompt: false,
                show_save_as: true,
                ..match result {
                    Result::Ok(_) => old(self)@,
                    Result::Err(e) => old(self)@.told(
                        "Не удалось запомнить отказ: "@ + e@,
                        true,
                        now,
                    ),
                }
            }),
    {
        match result {
            Result::Ok(_) => {},
            Result::Err(e) => {
                self.set_status(
                    glue("Не удалось запомнить отказ: ", e.as_str()),
                    true,
                    now,
                );
            },
        }
        self.show_save_root_prompt = false;
        self.show_save_as = true;
    }

    /// Takes the path that the user picked for an export. PNG and JPEG wait for
    /// their options; of any other format the path to write to is given back.
    pub fn export_picked(&mut self, path: String, format: ExportFormat) -> (r: Option<String>)
        ensures
            format is Png || format is Jpeg ==> {
                &&& r is None
                &&& exists|to: Seq<char>|
                    final(self)@ == #[trigger] old(self)@.awaiting(to, format) && tells_ensured(
                        path@,
                        format.extension_text(),
                        to,
                    )
            },
            !(format is Png || format is Jpeg) ==> {
                &&& r matches Some(to)
                &&& tells_ensured(path@, format.extension_text(), to@)
                &&& final(self)@ == old(self)@
            },
    {
        proof {
            law_plain_extension(format);
        }
        let to = ensure_extension(path, format.extension());
        if format == ExportFormat::Png || format == ExportFormat::Jpeg {
            assert(old(self)@.awaiting(to@, format).pending_raster_export == Some((to@, format)));
            self.pending_raster_export = Some((to, format));
            None
        } else {
            Some(to)
        }
    }

    /// The path that the user picked for the document, with the extension of
    /// the chosen format; none where the dialog was left. The dialog closes.
    pub fn save_as_picked(&mut self, path: Option<String>) -> (r: Option<String>)
        ensures
            r is Some == path is Some,
            path is Some ==> tells_ensured(
                path->Some_0@,
                old(self)@.save_as_format.extension_text(),
                r->Some_0@,
            ),
            final(self)@ == (Files { show_save_as: false, ..old(self)@ }),
    {
        self.show_save_as = false;
        proof {
            law_plain_extension(self.save_as_format);
        }
        match path {
            Some(p) => Some(ensure_extension(p, self.save_as_format.extension())),
            None => None,
        }
    }

    /// The line under a progress bar, with the name of the file.
    pub fn progress_line(verb: &str, path: &str) -> (r: String)
        ensures
            exists|name: Seq<char>| #[trigger]
                tells_name_or(path@, "…"@, name) && r@ == verb@ + " "@ + name + "…"@,
    {
        let name = file_name_or(path, "…");
        let ghost known = tells_name_or(path@, "…"@, name@);
        let start = glue3(verb, " ", name.as_str());
        glue(start.as_str(), "…")
    }
}

impl Files {
    /// The state with a picture that waits for its options.
    pub open spec fn awaiting(self, to: Seq<char>, format: ExportFormat) -> Files {
        Files { pending_raster_export: Some((to, format)), ..self }
    }
}

/// A path with a format's extension.
pub open spec fn with_format(path: Seq<char>, format: ExportFormat) -> Seq<char> {
    with_extension(path, format.extension_text())
}

} // verus!
