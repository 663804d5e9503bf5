//! What the browser lists, and in which order.
use vstd::prelude::*;
use crate::browser::filter::TypeFilters;
use crate::browser::listing::{
    FoundEntry, by_name, dirs_of, files_of, found_item, law_listed, listed, named_before, queued,
};
use crate::browser::shelf::{Row, row_before, shelf, shown_items};
use crate::browser::state::{Browser, Item};
use crate::files::format::FormatFlags;
use crate::lists::{lemma_cat_contains, lemma_push_contains};
use crate::order::{law_sorted_in_order, law_sorted_keeps_items, stable_sorted, weak_order};
use crate::paths::parts::has_place;
use crate::paths::reading::System;
use crate::text::{comes_before, lower};

verus! {

/// The formats that each filter lets through.
pub proof fn law_formats_let_through(f: TypeFilters)
    ensures
        f.accepts("txmh"@) == f.txmh,
        f.accepts("beautiful"@) == f.txmh,
        f.accepts("psd"@) == f.psd,
        f.accepts("png"@) == f.images,
        f.accepts("jpg"@) == f.images,
        f.accepts("jpeg"@) == f.images,
        f.accepts("bmp"@) == f.images,
        f.accepts("webp"@) == f.images,
        !f.accepts(""@),
        !f.accepts("txt"@),
{
    reveal_strlit("txmh");
    reveal_strlit("beautiful");
    reveal_strlit("psd");
    reveal_strlit("png");
    reveal_strlit("jpg");
    reveal_strlit("jpeg");
    reveal_strlit("bmp");
    reveal_strlit("webp");
    reveal_strlit("");
    reveal_strlit("txt");
    assert("txmh"@.len() == 4 && "beautiful"@.len() == 9 && "psd"@.len() == 3);
    assert("png"@.len() == 3 && "jpg"@.len() == 3 && "jpeg"@.len() == 4 && "bmp"@.len() == 3);
    assert("webp"@.len() == 4 && ""@.len() == 0 && "txt"@.len() == 3);
    assert("png"@[0] == 'p' && "psd"@[1] == 's' && "png"@[1] == 'n');
    assert("jpg"@[0] == 'j' && "bmp"@[0] == 'b' && "txt"@[0] == 't' && "psd"@[0] == 'p');
    assert("jpeg"@[0] == 'j' && "webp"@[0] == 'w' && "txmh"@[0] == 't');
}

/// A format that the settings switch off cannot be shown; folders always can.
pub proof fn law_enabled(flags: FormatFlags)
    ensures
        ({
            let f = TypeFilters::enabled(flags);
            &&& f.folders
            &&& !f.show_hidden
            &&& f.txmh == flags.txmh
            &&& f.psd == flags.psd
            &&& f.images == (flags.png || flags.jpeg || flags.bmp || flags.webp)
        }),
{
}

/// The words for what is shown name exactly the kinds that are.
pub proof fn law_parts(f: TypeFilters)
    ensures
        f.parts().contains("Folders"@) == f.folders,
        f.parts().contains("TXMH"@) == f.txmh,
        f.parts().contains("PSD"@) == f.psd,
        f.parts().contains("Images"@) == f.images,
{
    reveal_strlit("Folders");
    reveal_strlit("TXMH");
    reveal_strlit("PSD");
    reveal_strlit("Images");
    let p = f.parts();
    let (a, b, c, d) = ("Folders"@, "TXMH"@, "PSD"@, "Images"@);
    let n0 = if f.folders {
        1int
    } else {
        0
    };
    let n1 = n0 + if f.txmh {
        1int
    } else {
        0
    };
    let n2 = n1 + if f.psd {
        1int
    } else {
        0
    };
    let n3 = n2 + if f.images {
        1int
    } else {
        0
    };
    assert(p.len() == n3);
    assert(f.folders ==> p[0] == a);
    assert(f.txmh ==> p[n0] == b);
    assert(f.psd ==> p[n1] == c);
    assert(f.images ==> p[n2] == d);
    assert forall|i: int| 0 <= i < p.len() implies (p[i] == a ==> f.folders) && (p[i] == b
        ==> f.txmh) && (p[i] == c ==> f.psd) && (p[i] == d ==> f.images) by {
        assert(a.len() == 7 && b.len() == 4 && c.len() == 3 && d.len() == 6);
    }
}

/// Whether something in a folder is in view: it is neither hidden nor named with
/// a dot in front, or hidden things are shown.
pub open spec fn in_view(f: FoundEntry, filters: TypeFilters) -> bool {
    filters.show_hidden || !(f.hidden || f.name@.len() > 0 && f.name@[0] == '.')
}

proof fn lemma_dirs_of(found: Seq<FoundEntry>, filters: TypeFilters, x: Item)
    ensures
        dirs_of(found, filters).contains(x) == exists|i: int|
            0 <= i < found.len() && found_item(#[trigger] found[i]) == x && found[i].is_dir
                && filters.folders && in_view(found[i], filters),
    decreases found.len(),
{
    if found.len() > 0 {
        let t = found.drop_last();
        lemma_dirs_of(t, filters, x);
        let b = dirs_of(t, filters);
        lemma_push_contains(b, found_item(found.last()), x);
        if dirs_of(found, filters).contains(x) {
            if b.contains(x) {
                let i = choose|i: int|
                    0 <= i < t.len() && found_item(#[trigger] t[i]) == x && t[i].is_dir
                        && filters.folders && in_view(t[i], filters);
                assert(found_item(found[i]) == x);
            } else {
                assert(found_item(found[found.len() - 1]) == x);
            }
        }
        if exists|i: int|
            0 <= i < found.len() && found_item(#[trigger] found[i]) == x && found[i].is_dir
                && filters.folders && in_view(found[i], filters) {
            let i = choose|i: int|
                0 <= i < found.len() && found_item(#[trigger] found[i]) == x && found[i].is_dir
                    && filters.folders && in_view(found[i], filters);
            if i < t.len() {
                assert(found_item(t[i]) == x);
                assert(b.contains(x));
            }
        }
    }
}

proof fn lemma_files_of(
    found: Seq<FoundEntry>,
    formats: Seq<Seq<char>>,
    filters: TypeFilters,
    x: Item,
)
    ensures
        files_of(found, formats, filters).contains(x) == exists|i: int|
            0 <= i < found.len() && found_item(#[trigger] found[i]) == x && !found[i].is_dir
                && found[i].is_file && filters.accepts(formats[i]) && in_view(found[i], filters),
    decreases found.len(),
{
    if found.len() > 0 {
        let t = found.drop_last();
        lemma_files_of(t, formats, filters, x);
        let b = files_of(t, formats, filters);
        lemma_push_contains(b, found_item(found.last()), x);
        if files_of(found, formats, filters).contains(x) {
            if b.contains(x) {
                let i = choose|i: int|
                    0 <= i < t.len() && found_item(#[trigger] t[i]) == x && !t[i].is_dir
                        && t[i].is_file && filters.accepts(formats[i]) && in_view(t[i], filters);
                assert(found_item(found[i]) == x);
            } else {
                assert(found_item(found[found.len() - 1]) == x);
            }
        }
        if exists|i: int|
            0 <= i < found.len() && found_item(#[trigger] found[i]) == x && !found[i].is_dir
                && found[i].is_file && filters.accepts(formats[i]) && in_view(found[i], filters) {
            let i = choose|i: int|
                0 <= i < found.len() && found_item(#[trigger] found[i]) == x && !found[i].is_dir
                    && found[i].is_file && filters.accepts(formats[i]) && in_view(
                    found[i],
                    filters,
                );
            if i < t.len() {
                assert(found_item(t[i]) == x);
                assert(b.contains(x));
            }
        }
    }
}

proof fn lemma_same_items(a: Seq<Item>, b: Seq<Item>, x: Item)
    requires
        a.to_multiset() == b.to_multiset(),
    ensures
        a.contains(x) == b.contains(x),
{
    vstd::seq_lib::to_multiset_contains(a, x);
    vstd::seq_lib::to_multiset_contains(b, x);
}

/// The list of a folder has exactly the folders that are in view, where folders
/// are shown, and the files in view of the formats that are.
pub proof fn law_listed_items(
    found: Seq<FoundEntry>,
    formats: Seq<Seq<char>>,
    filters: TypeFilters,
    x: Item,
)
    ensures
        listed(found, formats, filters).contains(x) == exists|i: int|
            0 <= i < found.len() && found_item(#[trigger] found[i]) == x && in_view(
                found[i],
                filters,
            ) && (if found[i].is_dir {
                filters.folders
            } else {
                found[i].is_file && filters.accepts(formats[i])
            }),
{
    let d = dirs_of(found, filters);
    let f = files_of(found, formats, filters);
    law_listed(found, formats, filters);
    lemma_same_items(by_name(d), d, x);
    lemma_same_items(by_name(f), f, x);
    lemma_cat_contains(by_name(d), by_name(f), x);
    lemma_dirs_of(found, filters, x);
    lemma_files_of(found, formats, filters, x);
    if listed(found, formats, filters).contains(x) {
        if d.contains(x) {
            let i = choose|i: int|
                0 <= i < found.len() && found_item(#[trigger] found[i]) == x && found[i].is_dir
                    && filters.folders && in_view(found[i], filters);
            assert(found_item(found[i]) == x);
        } else {
            let i = choose|i: int|
                0 <= i < found.len() && found_item(#[trigger] found[i]) == x && !found[i].is_dir
                    && found[i].is_file && filters.accepts(formats[i]) && in_view(
                    found[i],
                    filters,
                );
            assert(found_item(found[i]) == x);
        }
    }
}

/// In the list of a folder all folders come before all files, and each of the
/// two goes by name, the case of letters aside.
pub proof fn law_order_of_list(
    found: Seq<FoundEntry>,
    formats: Seq<Seq<char>>,
    filters: TypeFilters,
    i: int,
    j: int,
)
    requires
        0 <= i < j < listed(found, formats, filters).len(),
    ensures
        ({
            let s = listed(found, formats, filters);
            &&& s[j].is_dir ==> s[i].is_dir
            &&& s[i].is_dir == s[j].is_dir ==> !comes_before(lower(s[j].name), lower(s[i].name))
        }),
{
    law_listed(found, formats, filters);
    let d = by_name(dirs_of(found, filters));
    let f = by_name(files_of(found, formats, filters));
    let before = |a: Item, b: Item| named_before(a, b);
    let s = listed(found, formats, filters);
    let n = d.len() as int;
    if j < n {
        assert(s[i] == d[i] && s[j] == d[j]);
        assert(!before(d[j], d[i]));
    } else if i >= n {
        assert(s[i] == f[i - n] && s[j] == f[j - n]);
        assert(!before(f[j - n], f[i - n]));
    } else {
        assert(s[i] == d[i] && s[j] == f[j - n]);
    }
}

/// What a listing says of an item is what was found: its name, its path, and
/// whether it is a folder.
pub proof fn law_found_item(f: FoundEntry)
    ensures
        found_item(f).name == f.name@,
        found_item(f).path == f.path@,
        found_item(f).is_dir == f.is_dir,
{
}

/// Pictures are asked for of the listed files that have none and get none yet,
/// behind those that were asked for before, and never of folders.
pub proof fn law_queued(
    queue: Seq<Seq<char>>,
    items: Seq<Item>,
    ready: Seq<Seq<char>>,
    pending: Seq<Seq<char>>,
    system: System,
    path: Seq<char>,
)
    ensures
        queue.is_prefix_of(queued(queue, items, ready, pending, system)),
        queued(queue, items, ready, pending, system).contains(path) == (queue.contains(path)
            || exists|i: int|
            0 <= i < items.len() && (#[trigger] items[i]).path == path && !items[i].is_dir
                && !has_place(ready, path, system) && !has_place(pending, path, system)),
    decreases items.len(),
{
    if items.len() > 0 {
        let t = items.drop_last();
        law_queued(queue, t, ready, pending, system, path);
        let b = queued(queue, t, ready, pending, system);
        let r = queued(queue, items, ready, pending, system);
        lemma_push_contains(b, items.last().path, path);
        assert(queue =~= b.take(queue.len() as int));
        assert(queue =~= r.take(queue.len() as int));
        if r.contains(path) && !queue.contains(path) {
            if b.contains(path) {
                let i = choose|i: int|
                    0 <= i < t.len() && (#[trigger] t[i]).path == path && !t[i].is_dir
                        && !has_place(ready, path, system) && !has_place(pending, path, system);
                assert(items[i].path == path);
            } else {
                assert(items[items.len() - 1].path == path);
            }
        }
        if exists|i: int|
            0 <= i < items.len() && (#[trigger] items[i]).path == path && !items[i].is_dir
                && !has_place(ready, path, system) && !has_place(pending, path, system) {
            let i = choose|i: int|
                0 <= i < items.len() && (#[trigger] items[i]).path == path && !items[i].is_dir
                    && !has_place(ready, path, system) && !has_place(pending, path, system);
            if i < t.len() {
                assert(t[i].path == path);
                assert(b.contains(path));
            }
        }
    } else {
        assert(queue =~= queue.take(queue.len() as int));
    }
}

/// Only the answer to the last question is shown: a list that was asked for
/// before, or for another folder, changes nothing that is shown.
pub proof fn law_stale_list(b: Browser, gen: u64, cwd: Seq<char>, items: Seq<Item>, why: Seq<char>)
    ensures
        gen != b.list_gen ==> b.with_list(gen, cwd, items).entries == b.entries,
        gen != b.list_gen ==> b.with_list(gen, cwd, items).error == b.error,
        gen != b.list_gen ==> b.with_list_error(gen, cwd, why).entries == b.entries,
        gen != b.list_gen ==> b.with_list_error(gen, cwd, why).error == b.error,
        b.expects(gen, cwd) ==> b.with_list(gen, cwd, items).entries == items,
        b.expects(gen, cwd) ==> b.with_list(gen, cwd, items).error is None,
        b.expects(gen, cwd) ==> b.with_list_error(gen, cwd, why).entries.len() == 0,
        b.expects(gen, cwd) ==> b.with_list_error(gen, cwd, why).error == Some(why),
        b.expects(gen, cwd) ==> !b.with_list(gen, cwd, items).loading,
        b.expects(gen, cwd) ==> !b.with_list_error(gen, cwd, why).loading,
{
}

/// On the shelf pinned canvases come before the others, and each of the two goes
/// from the one opened last to the one opened first; those that are not to be
/// shown are left out.
pub proof fn law_shelf(rows: Seq<Row>, i: int, j: int)
    requires
        0 <= i < j < rows.len(),
    ensures
        ({
            let s = stable_sorted(rows, |a: Row, b: Row| row_before(a, b));
            &&& s.len() == rows.len()
            &&& s.to_multiset() == rows.to_multiset()
            &&& s[j].pinned ==> s[i].pinned
            &&& s[i].pinned == s[j].pinned ==> s[i].last_opened >= s[j].last_opened
            &&& shelf(rows) == s.filter(|r: Row| r.shown).map_values(|r: Row| r.item)
        }),
{
    let before = |a: Row, b: Row| row_before(a, b);
    let s = stable_sorted(rows, before);
    law_sorted_keeps_items(rows, before);
    assert(weak_order(before));
    law_sorted_in_order(rows, before);
    assert(!before(s[j], s[i]));
    lemma_shown_items(s);
}

proof fn lemma_shown_items(rows: Seq<Row>)
    ensures
        shown_items(rows) == rows.filter(|r: Row| r.shown).map_values(|r: Row| r.item),
    decreases rows.len(),
{
    reveal(Seq::filter);
    if rows.len() > 0 {
        lemma_shown_items(rows.drop_last());
        let f = rows.drop_last().filter(|r: Row| r.shown);
        if rows.last().shown {
            assert(f.push(rows.last()).map_values(|r: Row| r.item) =~= f.map_values(
                |r: Row| r.item,
            ).push(rows.last().item));
        }
    }
}

} // verus!
