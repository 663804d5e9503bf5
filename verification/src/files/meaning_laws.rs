//! What formats, names, messages, times and the entries of the library mean.
use vstd::prelude::*;
use crate::files::catalog::{migrated, saved_flags};
use crate::files::clipboard::{Copied, SystemPicture, copy_span, masked, size_text};
use crate::files::format::{
    ExportFormat, FormatFlags, all_extensions, dialog_filters, group_filters, offered,
    picture_extensions,
};
use crate::files::jobs::workspace_format;
use crate::files::library::{
    COLLECTION_ALL, COLLECTION_RECENT, Entry, Library, Tag, Visit, entry_parts, file_visit,
    fresh_entry, tag_names, visited_entry,
};
use crate::files::naming::{law_safe_name, offered_name, refused_char, safe_text};
use crate::files::state::{Files, Saving, Toast};
use crate::lists::{lemma_cat_contains, lemma_push_contains};
use crate::paths::parts::{lies_under, parts, same_place};
use crate::paths::reading::{System, last_name};
use crate::text::{decimal, lemma_text_place, lemma_text_place_at, text_place, trimmed};
use crate::text::laws::lemma_trimmed_at;

verus! {

/// The endings of the files of each format.
pub proof fn law_extensions()
    ensures
        ExportFormat::Txmh.extension_text() == "txmh"@,
        ExportFormat::Psd.extension_text() == "psd"@,
        ExportFormat::Png.extension_text() == "png"@,
        ExportFormat::Jpeg.extension_text() == "jpg"@,
        ExportFormat::Bmp.extension_text() == "bmp"@,
        ExportFormat::Tga.extension_text() == "tga"@,
        ExportFormat::Webp.extension_text() == "webp"@,
        ExportFormat::Gif.extension_text() == "gif"@,
        ExportFormat::Tiff.extension_text() == "tif"@,
        ExportFormat::Ico.extension_text() == "ico"@,
{
}

/// The label of each format names it and its ending.
pub proof fn law_labels()
    ensures
        ExportFormat::Txmh.label_text() == "Beautiful (.txmh)"@,
        ExportFormat::Psd.label_text() == "PSD (.psd, layered)"@,
        ExportFormat::Png.label_text() == "PNG (.png)"@,
        ExportFormat::Jpeg.label_text() == "JPEG (.jpg)"@,
        ExportFormat::Bmp.label_text() == "BMP (.bmp)"@,
        ExportFormat::Tga.label_text() == "TGA (.tga)"@,
        ExportFormat::Webp.label_text() == "WebP (.webp)"@,
        ExportFormat::Gif.label_text() == "GIF (.gif)"@,
        ExportFormat::Tiff.label_text() == "TIFF (.tif)"@,
        ExportFormat::Ico.label_text() == "ICO (.ico)"@,
{
}

proof fn lemma_extensions_cat(
    a: Seq<(Seq<char>, Seq<Seq<char>>)>,
    b: Seq<(Seq<char>, Seq<Seq<char>>)>,
    x: Seq<char>,
)
    ensures
        all_extensions(a + b).contains(x) == (all_extensions(a).contains(x) || all_extensions(
            b,
        ).contains(x)),
    decreases b.len(),
{
    if b.len() == 0 {
        assert(a + b =~= a);
        assert(all_extensions(b) =~= Seq::empty());
    } else {
        lemma_extensions_cat(a, b.drop_last(), x);
        assert((a + b).drop_last() =~= a + b.drop_last());
        lemma_cat_contains(all_extensions(a + b.drop_last()), b.last().1, x);
        lemma_cat_contains(all_extensions(b.drop_last()), b.last().1, x);
    }
}

proof fn lemma_extensions_offered(on: bool, name: Seq<char>, list: Seq<Seq<char>>, x: Seq<char>)
    ensures
        all_extensions(offered(on, name, list)).contains(x) == (on && list.contains(x)),
{
    let s = offered(on, name, list);
    if on {
        assert(s.drop_last() =~= Seq::empty());
        assert(all_extensions(s.drop_last()) =~= Seq::empty());
        assert(all_extensions(s) =~= list);
    } else {
        assert(all_extensions(s) =~= Seq::empty());
    }
}

/// The endings that the dialogs offer are exactly those of the formats that are
/// switched on.
pub proof fn law_offered_extensions(f: FormatFlags, x: Seq<char>)
    ensures
        all_extensions(group_filters(f)).contains(x) == {
            ||| f.txmh && (x == "txmh"@ || x == "beautiful"@)
            ||| f.psd && x == "psd"@
            ||| f.png && x == "png"@
            ||| f.jpeg && (x == "jpg"@ || x == "jpeg"@)
            ||| f.bmp && x == "bmp"@
            ||| f.tga && x == "tga"@
            ||| f.webp && x == "webp"@
            ||| f.gif && x == "gif"@
            ||| f.tiff && (x == "tif"@ || x == "tiff"@)
            ||| f.ico && x == "ico"@
            ||| f.svg && x == "svg"@
        },
{
    let a = offered(f.txmh, "TXMH"@, seq!["txmh"@, "beautiful"@]);
    let b = offered(f.psd, "PSD"@, seq!["psd"@]);
    let c = offered(f.png || f.jpeg, "PNG / JPEG"@, picture_extensions(f));
    let d = offered(f.bmp, "BMP"@, seq!["bmp"@]);
    let e = offered(f.tga, "TGA"@, seq!["tga"@]);
    let g = offered(f.webp, "WebP"@, seq!["webp"@]);
    let h = offered(f.gif, "GIF"@, seq!["gif"@]);
    let i = offered(f.tiff, "TIFF"@, seq!["tif"@, "tiff"@]);
    let j = offered(f.ico, "ICO"@, seq!["ico"@]);
    let k = offered(f.svg, "SVG"@, seq!["svg"@]);
    lemma_extensions_cat(a + b + c + d + e + g + h + i + j, k, x);
    lemma_extensions_cat(a + b + c + d + e + g + h + i, j, x);
    lemma_extensions_cat(a + b + c + d + e + g + h, i, x);
    lemma_extensions_cat(a + b + c + d + e + g, h, x);
    lemma_extensions_cat(a + b + c + d + e, g, x);
    lemma_extensions_cat(a + b + c + d, e, x);
    lemma_extensions_cat(a + b + c, d, x);
    lemma_extensions_cat(a + b, c, x);
    lemma_extensions_cat(a, b, x);
    lemma_extensions_offered(f.txmh, "TXMH"@, seq!["txmh"@, "beautiful"@], x);
    lemma_extensions_offered(f.psd, "PSD"@, seq!["psd"@], x);
    lemma_extensions_offered(f.png || f.jpeg, "PNG / JPEG"@, picture_extensions(f), x);
    lemma_extensions_offered(f.bmp, "BMP"@, seq!["bmp"@], x);
    lemma_extensions_offered(f.tga, "TGA"@, seq!["tga"@], x);
    lemma_extensions_offered(f.webp, "WebP"@, seq!["webp"@], x);
    lemma_extensions_offered(f.gif, "GIF"@, seq!["gif"@], x);
    lemma_extensions_offered(f.tiff, "TIFF"@, seq!["tif"@, "tiff"@], x);
    lemma_extensions_offered(f.ico, "ICO"@, seq!["ico"@], x);
    lemma_extensions_offered(f.svg, "SVG"@, seq!["svg"@], x);
    lemma_two("txmh"@, "beautiful"@, x);
    lemma_two("tif"@, "tiff"@, x);
    lemma_two("jpg"@, "jpeg"@, x);
    lemma_one("psd"@, x);
    lemma_one("png"@, x);
    lemma_one("bmp"@, x);
    lemma_one("tga"@, x);
    lemma_one("webp"@, x);
    lemma_one("gif"@, x);
    lemma_one("ico"@, x);
    lemma_one("svg"@, x);
    let p: Seq<Seq<char>> = if f.png {
        seq!["png"@]
    } else {
        Seq::empty()
    };
    let q: Seq<Seq<char>> = if f.jpeg {
        seq!["jpg"@, "jpeg"@]
    } else {
        Seq::empty()
    };
    lemma_cat_contains(p, q, x);
}

proof fn lemma_one(a: Seq<char>, x: Seq<char>)
    ensures
        seq![a].contains(x) == (x == a),
{
    assert(seq![a][0] == a);
}

proof fn lemma_two(a: Seq<char>, b: Seq<char>, x: Seq<char>)
    ensures
        seq![a, b].contains(x) == (x == a || x == b),
{
    assert(seq![a, b][0] == a && seq![a, b][1] == b);
}

/// A dialog ends with the choice of all files, and before that offers all
/// endings together where there are any.
pub proof fn law_dialog_ends(f: FormatFlags)
    ensures
        ({
            let s = dialog_filters(f);
            let all = all_extensions(group_filters(f));
            &&& s.last().0 == "All"@
            &&& s.last().1 == seq!["*"@]
            &&& all.len() > 0 ==> s[s.len() - 2] == ("Enabled formats"@, all)
            &&& group_filters(f).is_prefix_of(s)
        }),
{
    let s = dialog_filters(f);
    let g = group_filters(f);
    assert(s.take(g.len() as int) =~= g);
}

/// The name offered for a file has its format's ending. It is that of the file
/// where it has one, else that of the canvas in characters that a file's name may
/// have, else plain.
pub proof fn law_offered_name(stem: Option<Seq<char>>, canvas: Option<Seq<char>>, ext: Seq<char>)
    ensures
        ({
            let n = offered_name(stem, canvas, ext);
            &&& ext.is_suffix_of(n)
            &&& n[n.len() - ext.len() - 1] == '.'
            &&& (stem is Some && stem->0.len() > 0 ==> n.take(n.len() - ext.len() - 1) == stem->0)
            &&& (stem is None && canvas is None ==> n.take(n.len() - ext.len() - 1) == "untitled"@)
            &&& (stem is None ==> forall|i: int|
                0 <= i < n.len() - ext.len() - 1 ==> !refused_char(#[trigger] n[i]))
        }),
{
    reveal_strlit(".");
    reveal_strlit("untitled");
    let n = offered_name(stem, canvas, ext);
    let k = n.len() - ext.len() - 1;
    assert(n.subrange(n.len() - ext.len(), n.len() as int) =~= ext);
    if stem is Some && stem->0.len() > 0 {
        assert(n.take(k) =~= stem->0);
    } else if canvas is Some && trimmed(safe_text(canvas->0)).len() > 0 {
        law_safe_name(canvas->0);
        assert(n.take(k) =~= safe_text(canvas->0));
        assert forall|i: int| 0 <= i < k implies !refused_char(#[trigger] n[i]) by {
            assert(n[i] == safe_text(canvas->0)[i]);
        }
    } else {
        assert(n.take(k) =~= "untitled"@);
        assert forall|i: int| 0 <= i < k implies !refused_char(#[trigger] n[i]) by {
            assert(n[i] == "untitled"@[i]);
        }
    }
}

/// The characters that a file's name may not have give way to an underscore, and
/// nothing else changes.
pub proof fn law_safe_text(s: Seq<char>, i: int)
    requires
        0 <= i < s.len(),
    ensures
        ({
            let c = s[i];
            let bad = c == '<' || c == '>' || c == ':' || c == '"' || c == '/' || c == '\\' || c
                == '|' || c == '?' || c == '*';
            safe_text(s)[i] == (if bad {
                '_'
            } else {
                c
            })
        }),
{
}

/// A canvas of one of the user's collections is saved in a folder of its name;
/// one of no collection, or of those that are always there, is not.
pub proof fn law_subfolder(f: Files)
    ensures
        f.pending_meta is None ==> f.subfolder() is None,
        (f.pending_meta matches Some(m) && trimmed(m.collection).len() == 0 ==> f.subfolder() is None),
        (f.pending_meta matches Some(m) && trimmed(m.collection) == COLLECTION_ALL@
            ==> f.subfolder() is None),
        (f.pending_meta matches Some(m) && trimmed(m.collection) == COLLECTION_RECENT@
            ==> f.subfolder() is None),
        (f.subfolder() matches Some(s) ==> s.len() > 0 && forall|i: int|
            0 <= i < s.len() ==> !refused_char(#[trigger] s[i])),
{
    if f.pending_meta is Some {
        let t = safe_text(trimmed(f.pending_meta->0.collection));
        law_safe_name(trimmed(f.pending_meta->0.collection));
        let (p, q) = lemma_trimmed_at(t);
        assert forall|i: int| 0 <= i < trimmed(t).len() implies !refused_char(
            #[trigger] trimmed(t)[i],
        ) by {
            assert(trimmed(t)[i] == t[p + i]);
        }
    }
}

/// An error is told in the status and pops up; anything else is told in the
/// status alone.
pub proof fn law_told(f: Files, msg: Seq<char>, now: u64)
    ensures
        f.told(msg, true, now).status == Some(msg),
        f.told(msg, true, now).status_is_error,
        f.told(msg, true, now).toast == Some(Toast { msg, error: true, started: now }),
        f.told(msg, false, now).status == Some(msg),
        !f.told(msg, false, now).status_is_error,
        f.told(msg, false, now).toast == f.toast,
        f.told(msg, true, now).path == f.path && f.told(msg, false, now).path == f.path,
        f.with_toast(msg, now).toast == Some(Toast { msg, error: false, started: now }),
        f.with_toast(msg, now).status == f.status,
{
}

/// What a save tells: the path, and of an export that the project itself is not
/// saved by it.
pub proof fn law_saved_is_told(f: Files, job: Saving, now: u64)
    ensures
        job.format is Txmh ==> f.saved(job, now).status == Some("Saved "@ + job.path),
        !(job.format is Txmh) ==> f.saved(job, now).status == Some(
            "Exported "@ + job.path + " (project still unsaved)"@,
        ),
        !f.saved(job, now).status_is_error,
        f.saved(job, now).library == f.library,
{
}

/// Saving asks for a path where there is none of the project's own format yet.
pub proof fn law_asked_save(f: Files)
    ensures
        f.asked_save(true).want_save && f.asked_save(false).want_save,
        f.asked_save(true).show_save_as == f.show_save_as,
        f.asked_save(false).show_save_as,
        f.asked_save(false).save_as_format is Txmh,
        f.asked_save(true).save_as_format == f.save_as_format,
{
}

/// What was copied last is told by its kind.
pub proof fn law_copied_lines()
    ensures
        Copied::Floating.line() == "Copied selection to clipboard"@,
        Copied::LayerSelection.line() == "Copied layer selection to clipboard"@,
        Copied::Canvas.line() == "Copied canvas to clipboard"@,
{
}

/// Where the system does not count copies, a copied selection is current while
/// the system has the same picture or none.
pub proof fn law_same_picture_is_current(f: Files, now: Option<u32>, w: u32, h: u32, rgba: Vec<u8>, why: String)
    requires
        f.selection_clipboard is Some,
        f.clipboard_seq is None || now is None,
    ensures
        f.selection_is_current(now, SystemPicture::Nothing(why)),
        f.selection_is_current(now, SystemPicture::Picture { width: w, height: h, rgba }) == (
        f.selection_clipboard->0.width == w && f.selection_clipboard->0.height == h
            && f.selection_clipboard->0.rgba == rgba@),
{
}

/// A copy through a mask keeps the colours of every pixel that the mask covers,
/// and thins its opacity by how much it does.
pub proof fn law_mask_thins(region: Seq<u8>, cover: Seq<u8>, i: int)
    requires
        region.len() == 4 * cover.len(),
        0 <= i < region.len(),
    ensures
        cover[i / 4] > 0 && i % 4 != 3 ==> masked(region, cover)[i] == region[i],
        cover[i / 4] > 0 && i % 4 == 3 ==> 255 * masked(region, cover)[i] <= region[i] * cover[i / 4]
            < 255 * (masked(region, cover)[i] + 1),
        masked(region, cover).len() == region.len(),
{
    let (a, c) = (region[i] as int, cover[i / 4] as int);
    assert(0 <= a * c <= 255 * 255) by (nonlinear_arith)
        requires
            0 <= a <= 255,
            0 <= c <= 255,
    ;
    assert(0 <= a * c / 255 <= 255);
}

/// What is copied lies inside of the selection, of the stage and of the canvas,
/// and reaches as far as all three do.
pub proof fn law_copy_span(from: int, to: int, stage_from: int, stage_len: int, side: int)
    requires
        from <= u32::MAX,
        stage_from <= u32::MAX,
        0 <= side <= u32::MAX,
    ensures
        ({
            let (a, b) = copy_span(from, to, stage_from, stage_len, side);
            &&& a >= from && a >= stage_from && a >= 0
            &&& (a == from || a == stage_from || a == 0)
            &&& (b > 0 ==> b <= to && b <= stage_from + stage_len && b <= side)
            &&& (b == to || b == stage_from + stage_len || b == side || b == 0)
            &&& (to >= 0 && stage_from + stage_len >= 0 ==> b <= to && b <= stage_from + stage_len
                && (b == to || b == stage_from + stage_len || b == side))
        }),
{
}

/// No time of the program is lost: the seconds that are kept and the
/// milliseconds that make none yet add up.
pub proof fn law_app_time_is_kept(f: Files, millis: i64)
    requires
        f.steady(),
        millis > 0,
        f.library.total_app_secs + (f.app_time_accum + millis) / 1000 <= u64::MAX,
        f.app_time_dirty + millis <= u64::MAX,
    ensures
        ({
            let g = f.with_app_time(millis);
            &&& 1000 * g.library.total_app_secs + g.app_time_accum == 1000
                * f.library.total_app_secs + f.app_time_accum + millis
            &&& g.app_time_accum < 1000
            &&& f.app_time_dirty + millis < 15_000 ==> g.app_time_dirty == f.app_time_dirty + millis
            &&& f.app_time_dirty + millis >= 15_000 ==> g.app_time_dirty == 0
            &&& g.library.entries == f.library.entries
        }),
        f.with_app_time(0) == f,
{
}

/// Time on a canvas is written every fifteen seconds.
pub proof fn law_canvas_time_due(f: Files, millis: i64)
    requires
        millis >= 0,
    ensures
        f.canvas_time_due(millis) == (f.time_dirty_secs * 1000 + (f.canvas_time_accum + millis)
            >= 15_000),
{
    let t = f.canvas_time_accum + millis;
    assert(t / 1000 >= 15 - f.time_dirty_secs <==> t >= 1000 * (15 - f.time_dirty_secs));
}

/// A canvas that is new to the library is told as it was visited, unpinned, and
/// with what the user said of it.
pub proof fn law_fresh_entry(path: Seq<char>, v: Visit)
    ensures
        ({
            let e = fresh_entry(path, v);
            &&& e.path == path && e.name == v.name && e.format == v.format
            &&& e.last_opened == v.now && e.modified == v.modified
            &&& e.time_spent_secs == v.extra
            &&& !e.pinned
            &&& (v.meta matches Some(m) ==> e.collection == m.collection && e.tags == m.tags
                && e.nsfw == m.nsfw)
            &&& (v.meta is None ==> e.collection.len() == 0 && e.tags.len() == 0 && !e.nsfw)
        }),
{
}

/// A canvas that is visited again keeps its pin and its path, gains the time
/// spent, and keeps its collection and tags unless the user said others.
pub proof fn law_visited_entry(e: Entry, v: Visit)
    ensures
        ({
            let r = visited_entry(e, v);
            &&& r.path == e.path && r.pinned == e.pinned
            &&& r.name == v.name && r.format == v.format
            &&& r.last_opened == v.now && r.modified == v.modified
            &&& e.time_spent_secs + v.extra <= u64::MAX ==> r.time_spent_secs == e.time_spent_secs
                + v.extra
            &&& (v.meta is None ==> r.collection == e.collection && r.tags == e.tags && r.nsfw
                == e.nsfw)
            &&& (v.meta matches Some(m) ==> r.nsfw == m.nsfw && (m.collection.len() > 0
                ==> r.collection == m.collection) && (m.collection.len() == 0 ==> r.collection
                == e.collection) && (m.tags.len() > 0 ==> r.tags == m.tags) && (m.tags.len() == 0
                ==> r.tags == e.tags))
        }),
{
}

/// A pin is turned over and nothing else; so is a mark.
pub proof fn law_pin_and_mark(lib: Library, path: Seq<char>, i: int)
    requires
        0 <= i < lib.entries.len(),
    ensures
        ({
            let (p, m) = (lib.with_pin(path), lib.with_mark(path));
            let here = i == lib.place(path);
            let e = lib.entries[i];
            &&& p.entries.len() == lib.entries.len()
            &&& m.entries.len() == lib.entries.len()
            &&& here ==> p.entries[i] == (Entry { pinned: !e.pinned, ..e })
            &&& here ==> m.entries[i] == (Entry { nsfw: !e.nsfw, ..e })
            &&& !here ==> p.entries[i] == e && m.entries[i] == e
            &&& p.collections == lib.collections && m.collections == lib.collections
        }),
        !lib.knows(path) ==> lib.with_pin(path) == lib && lib.with_mark(path) == lib,
{
    lemma_text_place(
        entry_parts(lib.entries, lib.system),
        parts(path, lib.system),
    );
}

/// A collection is added under its name without the spaces around it, once, and
/// never under an empty name or one of those that are always there.
pub proof fn law_with_collection(lib: Library, name: Seq<char>)
    ensures
        ({
            let r = lib.with_collection(name);
            let t = trimmed(name);
            let own = t.len() > 0 && t != COLLECTION_RECENT@ && t != COLLECTION_ALL@;
            &&& own ==> r.collections.contains(t)
            &&& lib.collections.is_prefix_of(r.collections)
            &&& !own ==> r == lib
            &&& lib.collections.contains(t) ==> r == lib
            &&& r.collections.len() <= lib.collections.len() + 1
            &&& r.with_collection(name) == r
            &&& r.entries == lib.entries
        }),
{
    let r = lib.with_collection(name);
    lemma_push_contains(lib.collections, trimmed(name), trimmed(name));
    assert(r.collections.take(lib.collections.len() as int) =~= lib.collections);
}

/// A tag has the colour that it was given last; the others keep theirs, and no
/// name is given twice.
pub proof fn law_with_tag(lib: Library, name: Seq<char>, color: [u8; 3])
    requires
        trimmed(name).len() > 0,
    ensures
        ({
            let r = lib.with_tag(name, color);
            let t = trimmed(name);
            let k = text_place(tag_names(lib.tags), t);
            &&& 0 <= k < r.tags.len()
            &&& r.tags[k] == (Tag { name: t, color })
            &&& forall|i: int| 0 <= i < lib.tags.len() && i != k ==> r.tags[i] == lib.tags[i]
            &&& tag_names(lib.tags).contains(t) ==> r.tags.len() == lib.tags.len()
            &&& !tag_names(lib.tags).contains(t) ==> r.tags.len() == lib.tags.len() + 1
            &&& tag_names(lib.tags).no_duplicates() ==> tag_names(r.tags).no_duplicates()
        }),
{
    let r = lib.with_tag(name, color);
    let t = trimmed(name);
    let names = tag_names(lib.tags);
    lemma_text_place(names, t);
    let k = text_place(names, t);
    if names.no_duplicates() {
        let now = tag_names(r.tags);
        assert forall|i: int, j: int| 0 <= i < now.len() && 0 <= j < now.len() && i != j implies now[i]
            != now[j] by {
            if i < lib.tags.len() {
                assert(now[i] == names[i]);
            }
            if j < lib.tags.len() {
                assert(now[j] == names[j]);
            }
        }
    }
}

/// A canvas that the library does not know comes to its front; one that it knows
/// changes nothing.
pub proof fn law_ensured(lib: Library, path: Seq<char>, v: Visit)
    ensures
        lib.knows(path) ==> lib.ensured(path, v) == lib,
        !lib.knows(path) ==> lib.ensured(path, v).entries.len() == lib.entries.len() + 1,
        !lib.knows(path) ==> lib.ensured(path, v).entries[0].path == path,
        !lib.knows(path) ==> lib.ensured(path, v).entries.drop_first() == lib.entries,
        lib.ensured(path, v).knows(path),
{
    if !lib.knows(path) {
        let r = lib.ensured(path, v);
        assert(r.entries.drop_first() =~= lib.entries);
        let all = entry_parts(r.entries, r.system);
        assert(all[0] == parts(path, lib.system));
        lemma_text_place_at(all, parts(path, lib.system), 0);
    }
}

/// The name shown for a canvas that was never saved.
pub proof fn law_untitled_name(f: Files)
    ensures
        f.pending_meta is None ==> f.untitled_name() == "Untitled"@,
        (f.pending_meta matches Some(m) ==> (trimmed(m.name).len() > 0 ==> f.untitled_name()
            == trimmed(m.name)) && (trimmed(m.name).len() == 0 ==> f.untitled_name()
            == "Новый холст"@)),
{
}

/// The library knows a path where an entry is at the same place; its entry is
/// the first such one.
pub proof fn law_known(lib: Library, path: Seq<char>)
    ensures
        lib.knows(path) == exists|i: int|
            0 <= i < lib.entries.len() && same_place(
                (#[trigger] lib.entries[i]).path,
                path,
                lib.system,
            ),
        lib.knows(path) ==> same_place(lib.entry(path).path, path, lib.system),
        forall|i: int|
            0 <= i < lib.place(path) ==> !same_place(
                (#[trigger] lib.entries[i]).path,
                path,
                lib.system,
            ),
{
    let all = entry_parts(lib.entries, lib.system);
    let x = parts(path, lib.system);
    lemma_text_place(all, x);
    if lib.knows(path) {
        let k = lib.place(path);
        assert(all[k] == parts(lib.entries[k].path, lib.system));
        assert(same_place(lib.entries[k].path, path, lib.system));
    }
    if exists|i: int|
        0 <= i < lib.entries.len() && same_place(
            (#[trigger] lib.entries[i]).path,
            path,
            lib.system,
        ) {
        let i = choose|i: int|
            0 <= i < lib.entries.len() && same_place(
                (#[trigger] lib.entries[i]).path,
                path,
                lib.system,
            );
        assert(all[i] == x);
    }
    assert forall|i: int| 0 <= i < lib.place(path) implies !same_place(
        (#[trigger] lib.entries[i]).path,
        path,
        lib.system,
    ) by {
        assert(all[i] != x);
    }
}

/// Changing an entry changes that entry alone.
pub proof fn law_with_changed(lib: Library, path: Seq<char>, e: Entry, i: int)
    requires
        0 <= i < lib.entries.len(),
    ensures
        lib.with_changed(path, e).entries.len() == lib.entries.len(),
        i == lib.place(path) ==> lib.with_changed(path, e).entries[i] == e,
        i != lib.place(path) ==> lib.with_changed(path, e).entries[i] == lib.entries[i],
        lib.with_changed(path, e).collections == lib.collections,
        lib.with_changed(path, e).tags == lib.tags,
{
    lemma_text_place(entry_parts(lib.entries, lib.system), parts(path, lib.system));
}

/// An entry of an older list keeps its path, its name and its time, and is new
/// in everything else.
pub proof fn law_migrated_entry(path: Seq<char>, name: Seq<char>, modified: u64, format: Seq<char>)
    ensures
        ({
            let e = migrated(path, name, modified, format);
            &&& e.path == path && e.name == name && e.format == format
            &&& e.modified == modified && e.last_opened == modified
            &&& e.time_spent_secs == 0 && !e.pinned && !e.nsfw
            &&& e.collection.len() == 0 && e.tags.len() == 0
        }),
{
}

/// Only files that are there and lie outside of the folder of the program's own
/// documents count as saved elsewhere.
pub proof fn law_saved_flags(
    entries: Seq<Entry>,
    is_file: Seq<bool>,
    documents: Seq<char>,
    system: System,
    i: int,
)
    requires
        0 <= i < entries.len(),
        entries.len() == is_file.len(),
    ensures
        saved_flags(entries, is_file, None, system)[i] == is_file[i],
        lies_under(entries[i].path, documents, system) ==> !saved_flags(
            entries,
            is_file,
            Some(documents),
            system,
        )[i],
        !lies_under(entries[i].path, documents, system) ==> saved_flags(
            entries,
            is_file,
            Some(documents),
            system,
        )[i] == is_file[i],
{
}

/// A visit of a file is told by its name and its format; a file whose time is
/// not known counts as changed now.
pub proof fn law_file_visit(path: Seq<char>, now: u64, at: u64, extra: u64)
    ensures
        file_visit(path, now, Some(at), None, extra).modified == at,
        file_visit(path, now, None, None, extra).modified == now,
        file_visit(path, now, Some(at), None, extra).now == now,
        file_visit(path, now, Some(at), None, extra).extra == extra,
        file_visit(path, now, Some(at), None, extra).name == last_name(path),
{
}

/// After a visit the time spent without an entry is the entry's, and what the
/// user said of a new canvas is used up.
pub proof fn law_library_visit(f: Files, path: Seq<char>, now: u64, name: Seq<char>, format: Seq<char>)
    ensures
        f.visited_as(path, now, None, name, format).orphan_time_secs == 0,
        f.visited_as(path, now, None, name, format).pending_meta is None,
        f.visited_as(path, now, None, name, format).path == f.path,
        f.visited_as(path, now, None, name, format).library == f.library.visited(
            path,
            Visit {
                name,
                format,
                now,
                modified: now,
                meta: f.pending_meta,
                extra: f.orphan_time_secs,
            },
        ),
{
}

/// The program's own formats, and how a size is told.
pub proof fn law_workspace_formats(w: u32, h: u32)
    ensures
        workspace_format("txmh"@) && workspace_format("beautiful"@),
        !workspace_format("psd"@) && !workspace_format("png"@),
        size_text(w, h) == decimal(w as nat) + "×"@ + decimal(h as nat),
{
    reveal_strlit("txmh");
    reveal_strlit("beautiful");
    reveal_strlit("psd");
    reveal_strlit("png");
    assert("txmh"@.len() == 4 && "beautiful"@.len() == 9 && "psd"@.len() == 3 && "png"@.len() == 3);
}

} // verus!
