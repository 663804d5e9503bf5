//! What going somewhere, choosing, and typing an address do.
use vstd::prelude::*;
use vstd::utf8::is_ascii_chars;
use crate::browser::address::{
    AddressBarAction, PathKind, asks_for, byte_char, decoded_from, escape_at, hex_value,
    law_plain_text_decodes_to_itself, normalized, settled, unaddressed, unquoted,
};
use crate::browser::labels::{ago, days_between};
use crate::browser::moves::{fronted, places_without};
use crate::browser::open::{Prefs, PrefsOnDisk};
use crate::browser::places::{
    drive_letter, drive_root, drives, fallback_folder, first_folder, new_folder_text, place_at,
    places_with,
};
use crate::browser::section::{SideSection, moved, section_place};
use crate::browser::select::{
    Confirm, confirmed, count_files, files_among, focus_of, is_save_name, last_file,
    save_confirmed,
};
use crate::browser::state::{Browser, Detail, Item, Loc, Place, Thumbs, Todo, next_gen};
use crate::browser::thumbs::{DetailEvent, ThumbEvent, answered};
use crate::browser::view::icon_of;
use crate::files::format::{ExportFormat, FormatFlags};
use crate::lists::{chosen, lemma_push_contains};
use crate::paths::parts::{all_parts, has_place, parts, same_place, without};
use crate::paths::reading::System;
use crate::text::{decimal, lower, trimmed};

verus! {

/// Going to a folder leads to that folder and to no selection, remembers it as
/// the latest one, and asks for its list; what was asked for before is no longer
/// waited for.
pub proof fn law_at_folder(b: Browser, path: Seq<char>, push: bool, items: Seq<Item>, cwd: Seq<char>)
    ensures
        ({
            let a = b.at(Loc::Dir(path), push, true);
            &&& a.cwd == path
            &&& !a.in_gallery
            &&& a.selected.len() == 0
            &&& a.select_anchor is None
            &&& a.file_name.len() == 0
            &&& a.recent_dirs[0] == path
            &&& a.loading && a.listing
            &&& a.entries.len() == 0
            &&& a.error is None
            &&& a.list_gen != b.list_gen
            &&& a.with_list(b.list_gen, cwd, items).entries.len() == 0
            &&& !b.path_edit_focused ==> a.path_edit == path
            &&& !push ==> a.history == b.history && a.history_idx == b.history_idx
            &&& a.bookmarks == b.bookmarks
        }),
        b.at(Loc::Dir(path), push, false) == b,
{
}

/// Going to the gallery shows the gallery, with nothing selected and nothing
/// listed; the folder stays the one to come back to.
pub proof fn law_at_gallery(b: Browser, push: bool, is_dir: bool)
    ensures
        ({
            let a = b.at(Loc::Gallery, push, is_dir);
            &&& a.in_gallery
            &&& a.cwd == b.cwd
            &&& a.selected.len() == 0
            &&& a.entries.len() == 0
            &&& !a.loading
            &&& a.recent_dirs == b.recent_dirs
            &&& !push ==> a.history == b.history && a.history_idx == b.history_idx
        }),
{
}

proof fn lemma_without_absent(list: Seq<Seq<char>>, x: Seq<char>, system: System)
    requires
        !has_place(list, x, system),
    ensures
        without(list, x, system) == list,
    decreases list.len(),
{
    if list.len() > 0 {
        let t = list.drop_last();
        let all = all_parts(list, system);
        assert(all[list.len() - 1] == parts(list.last(), system));
        assert forall|i: int| 0 <= i < t.len() implies all_parts(t, system)[i] != parts(x, system) by {
            assert(all[i] == all_parts(t, system)[i]);
        }
        lemma_without_absent(t, x, system);
    }
}

/// The folder gone to comes first among the remembered ones; the others follow
/// in their order, up to twelve in all.
pub proof fn law_fronted(list: Seq<Seq<char>>, x: Seq<char>, system: System)
    requires
        !has_place(list, x, system),
    ensures
        list.len() < 12 ==> fronted(list, x, system) == seq![x] + list,
        list.len() >= 12 ==> fronted(list, x, system) == seq![x] + list.take(11),
{
    lemma_without_absent(list, x, system);
    if list.len() >= 12 {
        assert((seq![x] + list).take(12) =~= seq![x] + list.take(11));
    }
}

/// Taking marks off a folder leaves exactly the marks of other folders.
pub proof fn law_places_without(list: Seq<Place>, path: Seq<char>, system: System)
    ensures
        places_without(list, path, system) == list.filter(
            |p: Place| !same_place(p.path, path, system),
        ),
    decreases list.len(),
{
    reveal(Seq::filter);
    if list.len() > 0 {
        law_places_without(list.drop_last(), path, system);
    }
}

/// A mark is set on the folder that is shown, behind the others.
pub proof fn law_with_bookmark(b: Browser, label: Seq<char>)
    ensures
        b.with_bookmark(label).bookmarks.len() == b.bookmarks.len() + 1,
        b.with_bookmark(label).bookmarks.last().path == b.cwd,
        b.with_bookmark(label).bookmarks.last().label == label,
        b.with_bookmark(label).bookmarks.drop_last() == b.bookmarks,
{
    assert(b.with_bookmark(label).bookmarks.drop_last() =~= b.bookmarks);
}

proof fn lemma_without_gone(list: Seq<Seq<char>>, x: Seq<char>, y: Seq<char>, system: System)
    ensures
        without(list, x, system).contains(y) == (list.contains(y) && !same_place(y, x, system)),
    decreases list.len(),
{
    if list.len() > 0 {
        let t = list.drop_last();
        lemma_without_gone(t, x, y, system);
        lemma_push_contains(without(t, x, system), list.last(), y);
        lemma_push_contains(t, list.last(), y);
        assert(t.push(list.last()) =~= list);
    }
}

/// A file that was deleted is no longer selected, shown in the preview or drawn;
/// everything else that was selected stays so.
pub proof fn law_with_deleted(b: Browser, path: Seq<char>, other: Seq<char>)
    ensures
        ({
            let a = b.with_deleted(path);
            &&& !a.selected.contains(path)
            &&& !a.thumbs.ready.contains(path)
            &&& a.detail.path != Some(path)
            &&& !same_place(other, path, b.system) ==> (a.selected.contains(other)
                == b.selected.contains(other)) && (a.thumbs.ready.contains(other)
                == b.thumbs.ready.contains(other))
            &&& (a.select_anchor matches Some(x) ==> !same_place(x, path, b.system))
            &&& (b.detail.path matches Some(x) && !same_place(x, path, b.system) ==> a.detail
                == b.detail)
            &&& a.cwd == b.cwd
        }),
{
    lemma_without_gone(b.selected, path, path, b.system);
    lemma_without_gone(b.selected, path, other, b.system);
    lemma_without_gone(b.thumbs.ready, path, path, b.system);
    lemma_without_gone(b.thumbs.ready, path, other, b.system);
    let rest = without(b.selected, path, b.system);
    if rest.len() > 0 {
        lemma_without_gone(b.selected, path, rest.last(), b.system);
        assert(rest.contains(rest[rest.len() - 1]));
    }
}

/// Of what is selected exactly the files are chosen, in the order in which they
/// were selected; the last of them is the one that the preview shows.
pub proof fn law_files_among(paths: Seq<Seq<char>>, kinds: Seq<PathKind>)
    requires
        paths.len() == kinds.len(),
    ensures
        files_among(paths, kinds).len() == count_files(kinds),
        forall|i: int|
            0 <= i < paths.len() && kinds[i] is File ==> files_among(paths, kinds).contains(
                #[trigger] paths[i],
            ),
        forall|x: Seq<char>| #[trigger]
            files_among(paths, kinds).contains(x) ==> exists|i: int|
                0 <= i < paths.len() && #[trigger] paths[i] == x && kinds[i] is File,
        last_file(kinds) >= 0 ==> last_file(kinds) < kinds.len() && kinds[last_file(kinds)] is File
            && files_among(paths, kinds).last() == paths[last_file(kinds)],
        forall|i: int| last_file(kinds) < i < kinds.len() && i >= 0 ==> !(#[trigger] kinds[i] is File),
        last_file(kinds) < 0 <==> files_among(paths, kinds).len() == 0,
    decreases paths.len(),
{
    if paths.len() > 0 {
        let (p, k) = (paths.drop_last(), kinds.drop_last());
        law_files_among(p, k);
        lemma_files_among_prefix(p, kinds, k);
        let b = files_among(p, k);
        let r = files_among(paths, kinds);
        assert(r == (if kinds.last() is File {
            b.push(paths.last())
        } else {
            b
        }));
        assert forall|i: int| 0 <= i < paths.len() && kinds[i] is File implies r.contains(
            #[trigger] paths[i],
        ) by {
            lemma_push_contains(b, paths.last(), paths[i]);
            if i < p.len() {
                assert(p[i] == paths[i] && k[i] == kinds[i]);
                assert(b.contains(p[i]));
            }
        }
        assert forall|x: Seq<char>| #[trigger] r.contains(x) implies exists|i: int|
            0 <= i < paths.len() && #[trigger] paths[i] == x && kinds[i] is File by {
            lemma_push_contains(b, paths.last(), x);
            if b.contains(x) {
                let i = choose|i: int|
                    0 <= i < p.len() && #[trigger] p[i] == x && k[i] is File;
                assert(paths[i] == x && kinds[i] is File);
            } else {
                assert(paths[paths.len() - 1] == x);
            }
        }
        assert forall|i: int| last_file(kinds) < i < kinds.len() && i >= 0 implies !(
        #[trigger] kinds[i] is File) by {
            if i < k.len() {
                assert(k[i] == kinds[i]);
            }
        }
    }
}

proof fn lemma_files_among_prefix(paths: Seq<Seq<char>>, a: Seq<PathKind>, b: Seq<PathKind>)
    requires
        paths.len() <= a.len(),
        paths.len() <= b.len(),
        forall|i: int| 0 <= i < paths.len() ==> a[i] == b[i],
    ensures
        files_among(paths, a) == files_among(paths, b),
    decreases paths.len(),
{
    if paths.len() > 0 {
        lemma_files_among_prefix(paths.drop_last(), a, b);
    }
}

/// The preview shows the file that was clicked; where a folder was, the file
/// that was selected last, and nothing for one folder alone.
pub proof fn law_focus(
    selected: Seq<Seq<char>>,
    kinds: Seq<PathKind>,
    path: Seq<char>,
)
    requires
        selected.len() == kinds.len(),
    ensures
        focus_of(selected, kinds, path, true) == Some(path),
        selected.len() == 1 && kinds[0] is Folder ==> focus_of(selected, kinds, path, false) is None,
        (focus_of(selected, kinds, path, false) matches Some(x) ==> files_among(
            selected,
            kinds,
        ).len() > 0 && x == files_among(selected, kinds).last()),
        files_among(selected, kinds).len() == 0 ==> focus_of(selected, kinds, path, false) is None,
        files_among(selected, kinds).len() > 0 ==> focus_of(selected, kinds, path, false) is Some,
{
    law_files_among(selected, kinds);
}

/// A block of the side bar that is moved takes the other's place, and the rest
/// keep their order.
pub proof fn law_moved_block(order: Seq<SideSection>, from: SideSection, to: SideSection)
    requires
        order.no_duplicates(),
        order.contains(from),
        order.contains(to),
    ensures
        moved(order, from, to).len() == order.len(),
        moved(order, from, to)[section_place(order, to)] == from,
        forall|a: SideSection, b: SideSection|
            a != from && b != from && order.contains(a) && order.contains(b) && #[trigger] section_place(
                order,
                a,
            ) < #[trigger] section_place(order, b) ==> section_place(moved(order, from, to), a)
                < section_place(moved(order, from, to), b),
{
    lemma_place(order, from);
    lemma_place(order, to);
    let i = section_place(order, from);
    let j = section_place(order, to);
    let rest = order.remove(i);
    let r = moved(order, from, to);
    if from != to {
        assert forall|a: SideSection, b: SideSection|
            a != from && b != from && order.contains(a) && order.contains(b)
                && #[trigger] section_place(order, a) < #[trigger] section_place(order, b) implies
            section_place(r, a) < section_place(r, b) by {
            lemma_place(order, a);
            lemma_place(order, b);
            let x = section_place(order, a);
            let y = section_place(order, b);
            let x1 = if x < i { x } else { x - 1 };
            let y1 = if y < i { y } else { y - 1 };
            assert(rest[x1] == a && rest[y1] == b);
            let x2 = if x1 < j { x1 } else { x1 + 1 };
            let y2 = if y1 < j { y1 } else { y1 + 1 };
            assert(r[x2] == a && r[y2] == b);
            lemma_moved_unique(order, from, i, j);
            lemma_place_at(r, a, x2);
            lemma_place_at(r, b, y2);
        }
    }
}

proof fn lemma_moved_unique(order: Seq<SideSection>, from: SideSection, i: int, j: int)
    requires
        order.no_duplicates(),
        0 <= i < order.len(),
        0 <= j < order.len(),
        order[i] == from,
    ensures
        order.remove(i).insert(j, from).no_duplicates(),
{
    let rest = order.remove(i);
    let r = rest.insert(j, from);
    assert forall|p: int, q: int| 0 <= p < r.len() && 0 <= q < r.len() && p != q implies r[p] != r[q] by {
        let p1 = if p < j { p } else { p - 1 };
        let q1 = if q < j { q } else { q - 1 };
        if p != j {
            assert(r[p] == rest[p1]);
            assert(rest[p1] == order[if p1 < i { p1 } else { p1 + 1 }]);
        }
        if q != j {
            assert(r[q] == rest[q1]);
            assert(rest[q1] == order[if q1 < i { q1 } else { q1 + 1 }]);
        }
    }
}

proof fn lemma_place(list: Seq<SideSection>, s: SideSection)
    ensures
        0 <= section_place(list, s) <= list.len(),
        list.contains(s) ==> section_place(list, s) < list.len() && list[section_place(list, s)] == s,
        forall|k: int| 0 <= k < section_place(list, s) ==> list[k] != s,
    decreases list.len(),
{
    if list.len() > 0 && list[0] != s {
        let t = list.drop_first();
        lemma_place(t, s);
        assert(t.contains(s) == list.contains(s)) by {
            if list.contains(s) {
                let k = choose|k: int| 0 <= k < list.len() && list[k] == s;
                assert(t[k - 1] == s);
            }
            if t.contains(s) {
                let k = choose|k: int| 0 <= k < t.len() && t[k] == s;
                assert(list[k + 1] == s);
            }
        }
        assert forall|k: int| 0 <= k < section_place(list, s) implies list[k] != s by {
            if k > 0 {
                assert(t[k - 1] == list[k]);
            }
        }
    }
}

proof fn lemma_place_at(list: Seq<SideSection>, s: SideSection, k: int)
    requires
        list.no_duplicates(),
        0 <= k < list.len(),
        list[k] == s,
    ensures
        section_place(list, s) == k,
{
    lemma_place(list, s);
    assert(list.contains(s));
}

/// The blocks of the side bar stand in this order at first.
pub proof fn law_first_order()
    ensures
        SideSection::all().len() == 4,
        SideSection::all()[0] is Bookmarks,
        SideSection::all()[1] is System,
        SideSection::all()[2] is Volumes,
        SideSection::all()[3] is Recent,
{
}

/// Whether a place is one of the known folders that are there, under its label.
pub open spec fn is_known(
    p: Place,
    labels: Seq<Seq<char>>,
    paths: Seq<Seq<char>>,
    is_dir: Seq<bool>,
    n: int,
) -> bool {
    exists|i: int|
        0 <= i < n && is_dir[i] && p.label == labels[i] && p.path == #[trigger] paths[i]
}

/// Of the known folders each that is there gets a place, under its label, and
/// none gets a second; the places that there were stay in front.
#[verifier::spinoff_prover]
#[verifier::rlimit(30)]
pub proof fn law_places_with(
    places: Seq<Place>,
    labels: Seq<Seq<char>>,
    paths: Seq<Seq<char>>,
    is_dir: Seq<bool>,
    system: System,
    n: int,
)
    requires
        0 <= n <= paths.len(),
        n <= labels.len(),
        n <= is_dir.len(),
    ensures
        ({
            let r = places_with(places, labels, paths, is_dir, system, n);
            &&& places.is_prefix_of(r)
            &&& forall|i: int| 0 <= i < n && is_dir[i] ==> place_at(r, #[trigger] paths[i], system)
            &&& forall|k: int|
                places.len() <= k < r.len() ==> is_known(#[trigger] r[k], labels, paths, is_dir, n)
            &&& forall|j: int, k: int|
                0 <= j < k < r.len() && places.len() <= k ==> !same_place(
                    (#[trigger] r[j]).path,
                    (#[trigger] r[k]).path,
                    system,
                )
        }),
    decreases n,
{
    let r = places_with(places, labels, paths, is_dir, system, n);
    if n > 0 {
        let b = places_with(places, labels, paths, is_dir, system, n - 1);
        law_places_with(places, labels, paths, is_dir, system, n - 1);
        assert(places =~= b.take(places.len() as int));
        assert(places =~= r.take(places.len() as int));
        assert forall|i: int| 0 <= i < n && is_dir[i] implies place_at(r, #[trigger] paths[i], system) by {
            if i < n - 1 {
                let k = choose|k: int|
                    0 <= k < b.len() && same_place((#[trigger] b[k]).path, paths[i], system);
                assert(same_place(r[k].path, paths[i], system));
            } else if place_at(b, paths[i], system) {
                let k = choose|k: int|
                    0 <= k < b.len() && same_place((#[trigger] b[k]).path, paths[i], system);
                assert(same_place(r[k].path, paths[i], system));
            } else {
                assert(same_place(r[b.len() as int].path, paths[i], system));
            }
        }
        assert forall|k: int| places.len() <= k < r.len() implies is_known(
            #[trigger] r[k],
            labels,
            paths,
            is_dir,
            n,
        ) by {
            if k < b.len() {
                assert(r[k] == b[k]);
                assert(is_known(b[k], labels, paths, is_dir, n - 1));
                let i = choose|i: int|
                    0 <= i < n - 1 && is_dir[i] && b[k].label == labels[i] && b[k].path
                        == #[trigger] paths[i];
                assert(r[k].path == paths[i]);
            } else {
                assert(r[k].path == paths[n - 1]);
            }
        }
        assert forall|j: int, k: int| 0 <= j < k < r.len() && places.len() <= k implies !same_place(
            (#[trigger] r[j]).path,
            (#[trigger] r[k]).path,
            system,
        ) by {
            if k < b.len() {
                assert(r[j] == b[j] && r[k] == b[k]);
            } else {
                assert(r[j] == b[j]);
            }
        }
    } else {
        assert(places =~= r.take(places.len() as int));
    }
}

/// The drives go from C to Z, each at the root of its letter.
pub proof fn law_drive_letters()
    ensures
        drive_letter(0) == 'C',
        drive_letter(1) == 'D',
        drive_letter(23) == 'Z',
        drive_root('C') == "C:\\"@,
        forall|i: int, j: int|
            0 <= i < j < 24 ==> #[trigger] drive_letter(i) < #[trigger] drive_letter(j),
{
    reveal_strlit("C:\\");
    assert(drive_root('C') =~= "C:\\"@);
}

/// Without a place that was asked for, pictures come before the home folder, and
/// that before the current one, each only where it is there.
pub proof fn law_fallback(pictures: Seq<char>, home: Seq<char>, current: Seq<char>)
    ensures
        fallback_folder(Some(pictures), true, Some(home), true, Some(current)) == pictures,
        fallback_folder(Some(pictures), false, Some(home), true, Some(current)) == home,
        fallback_folder(None, true, Some(home), true, Some(current)) == home,
        fallback_folder(Some(pictures), false, Some(home), false, Some(current)) == current,
        fallback_folder(None, false, None, false, Some(current)) == current,
        fallback_folder(None, false, None, false, None) == "."@,
{
}

/// The last folder comes before the one that was asked for, and that before the
/// one above it.
pub proof fn law_first_folder(
    last: Seq<char>,
    asked: Option<Seq<char>>,
    above: Option<Seq<char>>,
    fallback: Seq<char>,
)
    ensures
        first_folder(Some(last), asked, above, fallback) == last,
        asked is Some ==> first_folder(None, asked, above, fallback) == asked->0,
        asked is None && above is Some ==> first_folder(None, asked, above, fallback) == above->0,
        asked is None && above is None ==> first_folder(None, asked, above, fallback) == fallback,
{
}

/// The names tried for a new folder: the plain one, then with 2, with 3 and so
/// on.
pub proof fn law_new_folder_names(i: nat)
    ensures
        new_folder_text(1) == "New Folder"@,
        i >= 2 ==> new_folder_text(i as int) == "New Folder ("@ + decimal(i) + ")"@,
{
}

/// A digit of base sixteen means the same in capitals and in small letters.
pub proof fn law_hex_value(k: int)
    requires
        0 <= k < 16,
    ensures
        k < 10 ==> hex_value((48 + k) as u8) == Some(k),
        k >= 10 ==> hex_value((65 + k - 10) as u8) == Some(k),
        k >= 10 ==> hex_value((97 + k - 10) as u8) == Some(k),
{
}

/// An escape of two digits means the byte that they write.
pub proof fn law_escapes(rest: Seq<u8>, high: u8, low: u8)
    requires
        hex_value(high) is Some,
        hex_value(low) is Some,
    ensures
        ({
            let s = seq![37u8, high, low] + rest;
            &&& decoded_from(s, 0).len() > 0
            &&& decoded_from(s, 0)[0] as int == 16 * hex_value(high)->0 + hex_value(low)->0
            &&& decoded_from(s, 0).drop_first() == decoded_from(s, 3)
        }),
{
    let s = seq![37u8, high, low] + rest;
    assert(s[0] == 37 && s[1] == high && s[2] == low);
    assert(escape_at(s, 0));
    let (h, l) = (hex_value(high)->0, hex_value(low)->0);
    assert(0 <= h < 16 && 0 <= l < 16);
    assert(0 <= h * 16 + l < 256);
    assert(byte_char(h * 16 + l) as int == h * 16 + l);
    assert(decoded_from(s, 0) =~= seq![byte_char(h * 16 + l)] + decoded_from(s, 3));
    assert(decoded_from(s, 0).drop_first() =~= decoded_from(s, 3));
}

/// Quotes around an address do not count, nor do spaces around it or inside of
/// the quotes.
pub proof fn law_quotes(s: Seq<char>, quote: char)
    requires
        quote == '"' || quote == '\'',
    ensures
        unquoted(seq![quote] + s + seq![quote]) == trimmed(s),
        s.len() > 0 && s[0] != '"' && s[0] != '\'' ==> unquoted(s) == s,
{
    let q = seq![quote] + s + seq![quote];
    assert(q.subrange(1, q.len() - 1) =~= s);
}

/// A plain path with a file address in front of it means that path, whatever the
/// case of the word.
pub proof fn law_file_address(word: Seq<char>, path: Seq<char>)
    requires
        is_ascii_chars(path),
        !path.contains('%'),
        lower(word) == "file:///"@,
    ensures
        unaddressed(word + path, false) == path,
        unaddressed(word + path, true).len() == path.len(),
        forall|i: int|
            0 <= i < path.len() ==> #[trigger] unaddressed(word + path, true)[i] == (if path[i]
                == '/' {
                '\\'
            } else {
                path[i]
            }),
{
    reveal_strlit("file:///");
    let s = word + path;
    assert(word.len() == lower(word).len());
    assert(lower(s).subrange(0, 8) =~= lower(word));
    assert(s.skip(8) =~= path);
    law_plain_text_decodes_to_itself(path);
}

/// A plain absolute path is what it is.
pub proof fn law_plain_address(path: Seq<char>)
    requires
        path.len() > 1,
        path[0] == '/',
        path.last() != '/' && path.last() != '\\',
        trimmed(path) == path,
    ensures
        normalized(path, false) == path,
{
    reveal_strlit("file:///");
    reveal_strlit("file://");
    if lower(path).len() >= 7 {
        assert(lower(path)[0] == '/');
        assert(lower(path).subrange(0, 7)[0] == '/');
        assert("file://"@[0] == 'f');
        if lower(path).len() >= 8 {
            assert(lower(path).subrange(0, 8)[0] == '/');
            assert("file:///"@[0] == 'f');
        }
    }
    assert(unaddressed(path, false) == path);
    assert(settled(path, false) == path);
}

/// A picture that was made is there and no longer waited for; one that failed is
/// no longer waited for.
pub proof fn law_answered(t: Thumbs, path: String, other: Seq<char>)
    ensures
        ({
            let made = answered(t, ThumbEvent::Made { path });
            let failed = answered(t, ThumbEvent::Failed { path });
            &&& has_place(made.ready, path@, t.system)
            &&& !made.pending.contains(path@)
            &&& failed.ready == t.ready
            &&& !failed.pending.contains(path@)
            &&& !same_place(other, path@, t.system) ==> (made.pending.contains(other)
                == t.pending.contains(other)) && (failed.pending.contains(other)
                == t.pending.contains(other))
            &&& t.inflight > 0 ==> made.inflight == t.inflight - 1 && failed.inflight == t.inflight
                - 1
            &&& t.inflight == 0 ==> made.inflight == 0 && failed.inflight == 0
            &&& answered(t, ThumbEvent::Gone).inflight == 0
        }),
{
    let made = answered(t, ThumbEvent::Made { path });
    lemma_without_gone(t.pending, path@, path@, t.system);
    lemma_without_gone(t.pending, path@, other, t.system);
    if !has_place(t.ready, path@, t.system) {
        let all = all_parts(made.ready, t.system);
        assert(all[t.ready.len() as int] == parts(path@, t.system));
    }
}

/// The preview that was asked for last is shown once it was made, and told once
/// it failed; while it is being made nothing changes.
pub proof fn law_preview_comes(d: Detail, path: String)
    requires
        !d.kept(path@),
    ensures
        d.asked(path@).waiting,
        !d.asked(path@).ready,
        d.asked(path@).path == Some(path@),
        d.asked(path@).gen == next_gen(d.gen),
        d.asked(path@).gen != d.gen,
        d.asked(path@).answered(DetailEvent::Made { gen: d.asked(path@).gen, path }).ready,
        !d.asked(path@).answered(DetailEvent::Made { gen: d.asked(path@).gen, path }).waiting,
        !d.asked(path@).answered(DetailEvent::Failed { gen: d.asked(path@).gen, path }).ready,
        !d.asked(path@).answered(DetailEvent::Failed { gen: d.asked(path@).gen, path }).waiting,
        d.asked(path@).answered(DetailEvent::Busy) == d.asked(path@),
        d.asked(path@).asked(path@) == d.asked(path@),
{
}

/// What each opening of the browser is for.
pub proof fn law_purposes(b: Browser, format: ExportFormat)
    ensures
        !b.for_canvas().save_mode && !b.for_canvas().open_as_sheet,
        !b.for_sheet().save_mode && b.for_sheet().open_as_sheet,
        b.for_save(format).save_mode && !b.for_save(format).open_as_sheet,
        b.for_save(format).save_format == format,
        b.for_canvas().cwd == b.cwd && b.for_sheet().cwd == b.cwd && b.for_save(format).cwd == b.cwd,
{
}

/// The browser begins where it is told to: in the gallery, or in a folder whose
/// list it asks for; there is nothing to go back to.
pub proof fn law_begun(b: Browser, folder: Seq<char>)
    ensures
        b.begun(true, folder).in_gallery,
        !b.begun(false, folder).in_gallery,
        b.begun(true, folder).cwd == folder && b.begun(false, folder).cwd == folder,
        b.begun(false, folder).loading && b.begun(false, folder).listing,
        !b.begun(true, folder).loading,
        b.begun(true, folder).history == seq![Loc::Gallery],
        b.begun(false, folder).history == seq![Loc::Dir(folder)],
        b.begun(true, folder).history_idx == 0 && b.begun(false, folder).history_idx == 0,
        b.begun(false, folder).path_edit == folder,
{
}

/// The signs of the known folders.
pub proof fn law_icons()
    ensures
        icon_of("Home"@) == "🏠"@,
        icon_of("Desktop"@) == "🖥"@,
        icon_of("Documents"@) == "📄"@,
        icon_of("Downloads"@) == "⬇"@,
        icon_of("Music"@) == "🎵"@,
        icon_of("Pictures"@) == "🖼"@,
        icon_of("Videos"@) == "🎬"@,
{
    reveal_strlit("Home");
    reveal_strlit("Desktop");
    reveal_strlit("Documents");
    reveal_strlit("Downloads");
    reveal_strlit("Music");
    reveal_strlit("Pictures");
    reveal_strlit("Videos");
    assert("Home"@.len() == 4 && "Desktop"@.len() == 7 && "Documents"@.len() == 9);
    assert("Downloads"@.len() == 9 && "Music"@.len() == 5 && "Pictures"@.len() == 8);
    assert("Videos"@.len() == 6);
    assert("Documents"@[2] == 'c' && "Downloads"@[2] == 'w');
}

/// How long ago something was, in days.
pub proof fn law_ago(secs: u64, now: u64)
    ensures
        secs <= now ==> days_between(secs, now) * 86_400 <= now - secs < (days_between(secs, now)
            + 1) * 86_400,
        secs > now ==> days_between(secs, now) == 0,
        ago(0) == "сегодня"@,
        ago(1) == "вчера"@,
        forall|n: nat| n >= 2 ==> #[trigger] ago(n) == decimal(n) + " дн. назад"@,
{
}

/// Going up leads to the folder above, and nowhere from the gallery or from the
/// top.
pub proof fn law_went_up(b: Browser, parent: Seq<char>, after: Browser, todo: Todo)
    ensures
        b.went_up(Some(parent), true, after, todo) && !b.in_gallery ==> after.cwd == parent
            && !after.in_gallery && todo.list && todo.prefs,
        b.went_up(None, true, after, todo) ==> after == b && !todo.list && !todo.prefs,
        b.in_gallery && b.went_up(Some(parent), true, after, todo) ==> after == b,
{
}

/// A typed address leads to the folder or the file that it names; one that names
/// nothing leads to the folder above it, and fails where that is not there either.
pub proof fn law_asks_for(path: Seq<char>, parent: Seq<char>, r: Result<AddressBarAction, String>)
    requires
        parent.len() > 0,
    ensures
        asks_for(path, PathKind::Folder, Some(parent), true, r) ==> (r matches Ok(
            AddressBarAction::Dir(p),
        ) && p@ == path),
        asks_for(path, PathKind::File, Some(parent), true, r) ==> (r matches Ok(
            AddressBarAction::File(p),
        ) && p@ == path),
        asks_for(path, PathKind::Nothing, Some(parent), true, r) ==> (r matches Ok(
            AddressBarAction::Dir(p),
        ) && p@ == parent),
        asks_for(path, PathKind::Nothing, Some(parent), false, r) ==> r is Err,
        asks_for(path, PathKind::Nothing, None, false, r) ==> r is Err,
{
}

/// Confirming picks the files that are selected and closes; with one folder
/// alone it goes there; with nothing at all it does nothing.
pub proof fn law_confirmed(before: Browser, kinds: Seq<PathKind>, after: Browser, r: Confirm)
    requires
        confirmed(before, kinds, after, r),
        kinds.len() == before.selected.len(),
    ensures
        files_among(before.selected, kinds).len() > 0 ==> after.picked == files_among(
            before.selected,
            kinds,
        ) && !after.open && r is Done,
        files_among(before.selected, kinds).len() == 0 ==> after == before,
        before.selected.len() == 1 && kinds[0] is Folder ==> (r matches Confirm::Enter(p) && p@
            == before.selected[0]),
        before.selected.len() == 0 && trimmed(before.file_name).len() == 0 ==> r is Done,
        before.selected.len() == 0 && trimmed(before.file_name).len() > 0 ==> r is Typed,
{
    law_files_among(before.selected, kinds);
    if before.selected.len() == 1 && kinds[0] is Folder {
        if files_among(before.selected, kinds).len() > 0 {
            let x = files_among(before.selected, kinds)[0];
            assert(files_among(before.selected, kinds).contains(x));
            let i = choose|i: int|
                0 <= i < before.selected.len() && #[trigger] before.selected[i] == x && kinds[i] is File;
            assert(false);
        }
    }
}

/// What is typed is the name to save under; with nothing typed it is that of the
/// first file that is selected.
pub proof fn law_save_name(b: Browser, kinds: Seq<PathKind>, name: Seq<char>)
    requires
        is_save_name(b, kinds, name),
    ensures
        trimmed(b.file_name).len() > 0 ==> name == trimmed(b.file_name),
        trimmed(b.file_name).len() == 0 && files_among(b.selected, kinds).len() == 0 ==> name.len()
            == 0,
{
}

/// Saving asks for a folder in the gallery and for a name where there is none,
/// and picks nothing then.
pub proof fn law_save_is_refused(before: Browser, name: Seq<char>, after: Browser, r: Todo)
    requires
        save_confirmed(before, name, after, r),
    ensures
        before.in_gallery || name.len() == 0 ==> after.error is Some && after.picked == before.picked
            && after.open == before.open && !r.prefs,
        !before.in_gallery && name.len() > 0 ==> r.prefs,
{
}

/// The folders that are remembered are those that are still there, in their
/// order, twelve at most; without any remembered the present ones stay.
pub proof fn law_remembered(b: Browser, formats: FormatFlags, prefs: Prefs, disk: PrefsOnDisk)
    requires
        disk.fits(prefs),
    ensures
        prefs.recent_dirs.len() == 0 ==> b.with_prefs(formats, prefs, disk).recent_dirs
            == b.recent_dirs,
        prefs.recent_dirs.len() > 0 ==> b.with_prefs(formats, prefs, disk).recent_dirs.len() <= 12
            && b.with_prefs(formats, prefs, disk).recent_dirs.is_prefix_of(
            chosen(prefs.recent_dirs, disk.recent_dirs@),
        ),
        prefs.type_filters is Some ==> b.with_prefs(formats, prefs, disk).type_filters
            == prefs.type_filters->0.clamped(formats),
        prefs.type_filters is None ==> b.with_prefs(formats, prefs, disk).type_filters
            == b.type_filters.clamped(formats),
        b.with_prefs(formats, prefs, disk).bookmarks == chosen(prefs.bookmarks, disk.bookmarks@),
{
}

/// The drives that are there are listed in order, each under its letter.
pub proof fn law_drives(exists_at: Seq<bool>, n: int)
    requires
        0 < n <= exists_at.len(),
    ensures
        exists_at[n - 1] ==> drives(exists_at, n).len() == drives(exists_at, n - 1).len() + 1
            && drives(exists_at, n).last().path == seq![drive_letter(n - 1), ':', '\\'],
        !exists_at[n - 1] ==> drives(exists_at, n) == drives(exists_at, n - 1),
        drives(exists_at, 0).len() == 0,
{
}

/// The file that the preview shows is also the one whose name is offered.
pub proof fn law_focused(b: Browser, path: Seq<char>, name: Seq<char>)
    ensures
        b.focused(path, name).file_name == name,
        b.focused(path, name).detail.path is Some,
        same_place(b.focused(path, name).detail.path->0, path, b.detail.system),
        b.focused(path, name).selected == b.selected,
        b.unfocused().file_name.len() == 0,
        b.unfocused().detail.path is None,
        b.unfocused().selected == b.selected,
{
}

} // verus!
