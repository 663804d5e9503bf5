//! The kinds of file that the browser shows.
use vstd::prelude::*;
use crate::files::format::FormatFlags;
use crate::lists::{join_texts, joined};
use crate::paths::{format_of, tells_format};
use crate::text::{same_text, texts};

verus! {

#[derive(Clone, Copy, Debug, PartialEq, Eq, Structural)]
pub struct TypeFilters {
    pub folders: bool,
    pub txmh: bool,
    pub psd: bool,
    pub images: bool,
    pub show_hidden: bool,
}

impl Default for TypeFilters {
    fn default() -> (r: TypeFilters)
        ensures
            r == (TypeFilters {
                folders: true,
                txmh: true,
                psd: true,
                images: true,
                show_hidden: false,
            }),
    {
        TypeFilters { folders: true, txmh: true, psd: true, images: true, show_hidden: false }
    }
}

/// Whether some format of flat pictures is switched on.
pub open spec fn some_pictures(flags: FormatFlags) -> bool {
    flags.png || flags.jpeg || flags.bmp || flags.webp
}

impl TypeFilters {
    pub open spec fn enabled(flags: FormatFlags) -> TypeFilters {
        TypeFilters {
            folders: true,
            txmh: flags.txmh,
            psd: flags.psd,
            images: some_pictures(flags),
            show_hidden: false,
        }
    }

    /// Everything that the settings switch on, and folders.
    pub fn from_enabled(flags: &FormatFlags) -> (r: TypeFilters)
        ensures
            r == TypeFilters::enabled(*flags),
    {
        TypeFilters {
            folders: true,
            txmh: flags.txmh,
            psd: flags.psd,
            images: flags.png || flags.jpeg || flags.bmp || flags.webp,
            show_hidden: false,
        }
    }

    pub open spec fn clamped(self, flags: FormatFlags) -> TypeFilters {
        TypeFilters {
            txmh: self.txmh && flags.txmh,
            psd: self.psd && flags.psd,
            images: self.images && some_pictures(flags),
            ..self
        }
    }

    /// The same without what the settings switch off.
    pub fn clamp_to_enabled(self, flags: &FormatFlags) -> (r: TypeFilters)
        ensures
            r == self.clamped(*flags),
    {
        TypeFilters {
            folders: self.folders,
            txmh: self.txmh && flags.txmh,
            psd: self.psd && flags.psd,
            images: self.images && (flags.png || flags.jpeg || flags.bmp || flags.webp),
            show_hidden: self.show_hidden,
        }
    }

    pub open spec fn parts(self) -> Seq<Seq<char>> {
        part(self.folders, "Folders"@) + part(self.txmh, "TXMH"@) + part(self.psd, "PSD"@) + part(
            self.images,
            "Images"@,
        )
    }

    /// The kinds that are shown, in words.
    pub fn summary(self) -> (r: String)
        ensures
            r@ == (if self.parts().len() == 0 {
                "Nothing"@
            } else {
                joined(self.parts(), ", "@)
            }),
    {
        let mut parts: Vec<String> = Vec::new();
        if self.folders {
            parts.push("Folders".to_owned());
        }
        if self.txmh {
            parts.push("TXMH".to_owned());
        }
        if self.psd {
            parts.push("PSD".to_owned());
        }
        if self.images {
            parts.push("Images".to_owned());
        }
        assert(texts(parts@) =~= self.parts());
        if parts.len() == 0 {
            "Nothing".to_owned()
        } else {
            join_texts(&parts, ", ")
        }
    }

    pub open spec fn accepts(self, format: Seq<char>) -> bool {
        ||| self.txmh && (format == "txmh"@ || format == "beautiful"@)
        ||| self.psd && format == "psd"@
        ||| self.images && (format == "png"@ || format == "jpg"@ || format == "jpeg"@ || format
            == "bmp"@ || format == "webp"@)
    }

    /// Whether files of that extension, in small letters, are shown.
    pub fn accepts_format(self, format: &str) -> (r: bool)
        ensures
            r == self.accepts(format@),
    {
        (self.txmh && (same_text(format, "txmh") || same_text(format, "beautiful"))) || (self.psd
            && same_text(format, "psd")) || (self.images && (same_text(format, "png") || same_text(
            format,
            "jpg",
        ) || same_text(format, "jpeg") || same_text(format, "bmp") || same_text(format, "webp")))
    }

    /// Whether the file is shown, by its extension.
    pub fn accepts_file(self, path: &str) -> (r: bool)
        ensures
            exists|f: Seq<char>| #[trigger] tells_format(path@, f) && r == self.accepts(f),
    {
        let format = format_of(path);
        let ghost known = tells_format(path@, format@);
        self.accepts_format(format.as_str())
    }

    /// Whether the filter leaves something out or shows hidden files.
    pub fn is_active(self) -> (r: bool)
        ensures
            r == (self != (TypeFilters {
                folders: true,
                txmh: true,
                psd: true,
                images: true,
                show_hidden: false,
            })),
    {
        !self.folders || !self.txmh || !self.psd || !self.images || self.show_hidden
    }
}

/// A list of the word where it is wanted, else an empty one.
pub open spec fn part(wanted: bool, word: Seq<char>) -> Seq<Seq<char>> {
    if wanted {
        seq![word]
    } else {
        Seq::empty()
    }
}

/// What the settings switch off is never shown; clamping again changes
/// nothing; and a filter made of the settings needs none.
pub proof fn law_clamped(f: TypeFilters, flags: FormatFlags, format: Seq<char>)
    ensures
        f.clamped(flags).accepts(format) == (f.accepts(format) && TypeFilters::enabled(
            flags,
        ).accepts(format)),
        f.clamped(flags).clamped(flags) == f.clamped(flags),
        TypeFilters::enabled(flags).clamped(flags) == TypeFilters::enabled(flags),
{
    reveal_strlit("txmh");
    reveal_strlit("beautiful");
    reveal_strlit("psd");
    reveal_strlit("png");
    reveal_strlit("jpg");
    reveal_strlit("jpeg");
    reveal_strlit("bmp");
    reveal_strlit("webp");
    lemma_other_formats(format);
}

proof fn lemma_other_formats(format: Seq<char>)
    ensures
        format == "psd"@ ==> format != "txmh"@ && format != "beautiful"@,
        format == "txmh"@ || format == "beautiful"@ || format == "psd"@ ==> format != "png"@
            && format != "jpg"@ && format != "jpeg"@ && format != "bmp"@ && format != "webp"@,
{
    reveal_strlit("txmh");
    reveal_strlit("beautiful");
    reveal_strlit("psd");
    reveal_strlit("png");
    reveal_strlit("jpg");
    reveal_strlit("jpeg");
    reveal_strlit("bmp");
    reveal_strlit("webp");
    if format == "txmh"@ {
        assert(format[0] == 't');
    }
    if format == "beautiful"@ {
        assert(format.len() == 9);
    }
    if format == "psd"@ {
        assert(format[1] == 's');
        assert(format.len() == 3);
        assert("png"@[1] == 'n');
    }
}

} // verus!
