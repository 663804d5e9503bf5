//! What holds of the library over several operations.
use vstd::prelude::*;
use crate::files::catalog::names_with;
use crate::files::library::{
    Entry, Library, Visit, entry_parts, fresh_entry, opened_later, toggled, visited_entry,
};
use crate::order::{
    in_order, law_sorted_in_order, law_sorted_keeps_items, stable_sorted, weak_order,
};
use crate::paths::parts::{parts, same_place};
use crate::text::{lemma_text_place, lemma_text_place_at, text_place};

verus! {

impl Library {
    /// Whether two paths are the same for the library.
    pub open spec fn same(self, a: Seq<char>, b: Seq<char>) -> bool {
        same_place(a, b, self.system)
    }

    /// Whether no two entries have one path.
    pub open spec fn distinct(self) -> bool {
        entry_parts(self.entries, self.system).no_duplicates()
    }
}

/// What finding a path means.
pub proof fn lemma_place(lib: Library, path: Seq<char>)
    ensures
        0 <= lib.place(path) <= lib.entries.len(),
        lib.knows(path) ==> lib.same(lib.entry(path).path, path),
        forall|j: int|
            0 <= j < lib.place(path) ==> !lib.same((#[trigger] lib.entries[j]).path, path),
        lib.knows(path) <==> exists|j: int|
            0 <= j < lib.entries.len() && lib.same((#[trigger] lib.entries[j]).path, path),
{
    let all = entry_parts(lib.entries, lib.system);
    let x = parts(path, lib.system);
    lemma_text_place(all, x);
    assert forall|j: int| 0 <= j < lib.place(path) implies !lib.same(
        (#[trigger] lib.entries[j]).path,
        path,
    ) by {
        assert(all[j] == parts(lib.entries[j].path, lib.system));
    }
    if lib.knows(path) {
        assert(all[lib.place(path)] == parts(lib.entries[lib.place(path)].path, lib.system));
    }
    if exists|j: int| 0 <= j < lib.entries.len() && lib.same((#[trigger] lib.entries[j]).path, path) {
        let j = choose|j: int|
            0 <= j < lib.entries.len() && lib.same((#[trigger] lib.entries[j]).path, path);
        assert(all[j] == x);
        assert(all.contains(x));
    }
}

/// Where paths are distinct, the entry of a path is the one that has it.
proof fn lemma_the_entry(lib: Library, k: int)
    requires
        lib.distinct(),
        0 <= k < lib.entries.len(),
    ensures
        lib.knows(lib.entries[k].path),
        lib.entry(lib.entries[k].path) == lib.entries[k],
{
    let path = lib.entries[k].path;
    lemma_place(lib, path);
    let all = entry_parts(lib.entries, lib.system);
    assert(all[k] == parts(path, lib.system));
    assert(all[lib.place(path)] == parts(path, lib.system));
}

/// Two libraries with the same entries in another order know the same.
proof fn lemma_same_items(a: Library, b: Library)
    requires
        a.distinct(),
        a.entries.to_multiset() == b.entries.to_multiset(),
        a.system == b.system,
    ensures
        b.distinct(),
        forall|q: Seq<char>| #[trigger] b.knows(q) == a.knows(q),
        forall|q: Seq<char>| a.knows(q) ==> #[trigger] b.entry(q) == a.entry(q),
{
    broadcast use vstd::seq_lib::group_to_multiset_ensures;

    assert forall|i: int, j: int| 0 <= i < a.entries.len() && 0 <= j < a.entries.len() && i
        != j implies a.entries[i] != a.entries[j] by {
        assert(entry_parts(a.entries, a.system)[i] != entry_parts(a.entries, a.system)[j]);
    }
    a.entries.lemma_multiset_has_no_duplicates();
    b.entries.lemma_multiset_has_no_duplicates_conv();
    assert forall|x: Entry| a.entries.contains(x) == b.entries.contains(x) by {
        a.entries.to_multiset_ensures();
        b.entries.to_multiset_ensures();
        assert(a.entries.contains(x) <==> a.entries.to_multiset().count(x) > 0);
        assert(b.entries.contains(x) <==> b.entries.to_multiset().count(x) > 0);
    }
    let paths = entry_parts(b.entries, b.system);
    assert forall|i: int, j: int| 0 <= i < paths.len() && 0 <= j < paths.len() && i
        != j implies paths[i] != paths[j] by {
        if paths[i] == paths[j] {
            assert(b.entries.contains(b.entries[i]) && b.entries.contains(b.entries[j]));
            let k = choose|k: int| 0 <= k < a.entries.len() && a.entries[k] == b.entries[i];
            let m = choose|m: int| 0 <= m < a.entries.len() && a.entries[m] == b.entries[j];
            assert(entry_parts(a.entries, a.system)[k] == entry_parts(a.entries, a.system)[m]);
            assert(k == m);
            assert(b.entries[i] == b.entries[j]);
        }
    }
    assert(b.distinct());
    assert forall|q: Seq<char>| #[trigger] b.knows(q) == a.knows(q) by {
        lemma_place(a, q);
        lemma_place(b, q);
        if a.knows(q) {
            assert(a.entries.contains(a.entry(q)));
            let j = choose|j: int| 0 <= j < b.entries.len() && b.entries[j] == a.entry(q);
            assert(b.same(b.entries[j].path, q));
        }
        if b.knows(q) {
            assert(b.entries.contains(b.entry(q)));
            let j = choose|j: int| 0 <= j < a.entries.len() && a.entries[j] == b.entry(q);
            assert(a.same(a.entries[j].path, q));
        }
    }
    assert forall|q: Seq<char>| a.knows(q) implies #[trigger] b.entry(q) == a.entry(q) by {
        lemma_place(a, q);
        assert(a.entries.contains(a.entry(q)));
        let j = choose|j: int| 0 <= j < b.entries.len() && b.entries[j] == a.entry(q);
        lemma_the_entry(b, j);
        assert(b.place(q) == b.place(b.entries[j].path));
    }
}

/// Changing an entry but for its path leaves the places of all paths.
pub proof fn lemma_changed(lib: Library, path: Seq<char>, e: Entry)
    requires
        lib.same(e.path, path),
    ensures
        entry_parts(lib.with_changed(path, e).entries, lib.system) == entry_parts(
            lib.entries,
            lib.system,
        ),
        forall|q: Seq<char>| #[trigger]
            lib.with_changed(path, e).place(q) == lib.place(q),
        lib.knows(path) ==> lib.with_changed(path, e).entry(path) == e,
        forall|q: Seq<char>|
            !lib.same(q, path) && lib.knows(q) ==> #[trigger] lib.with_changed(path, e).entry(q)
                == lib.entry(q),
{
    lemma_place(lib, path);
    let n = lib.with_changed(path, e);
    if lib.knows(path) {
        assert(entry_parts(n.entries, lib.system) =~= entry_parts(lib.entries, lib.system)) by {
            assert(lib.same(lib.entries[lib.place(path)].path, path));
        }
    }
    assert forall|q: Seq<char>| !lib.same(q, path) && lib.knows(q) implies #[trigger] n.entry(q)
        == lib.entry(q) by {
        lemma_place(lib, q);
    }
}

/// After a visit the canvas is known, under one entry that says what the visit
/// said; every other canvas is as it was; and the entries stand in the order
/// of their last visits, the latest first.
pub proof fn law_visited(lib: Library, path: Seq<char>, v: Visit)
    requires
        lib.distinct(),
    ensures
        ({
            let r = lib.visited(path, v);
            &&& r.distinct()
            &&& r.knows(path)
            &&& r.entry(path) == (if lib.knows(path) {
                visited_entry(lib.entry(path), v)
            } else {
                fresh_entry(path, v)
            })
            &&& forall|q: Seq<char>| !lib.same(q, path) ==> #[trigger] r.knows(q) == lib.knows(q)
            &&& forall|q: Seq<char>|
                !lib.same(q, path) && lib.knows(q) ==> #[trigger] r.entry(q) == lib.entry(q)
            &&& r.entries.len() == lib.entries.len() + (if lib.knows(path) {
                0int
            } else {
                1
            })
            &&& forall|i: int, j: int|
                0 <= i <= j < r.entries.len() ==> (#[trigger] r.entries[i]).last_opened >= (
                #[trigger] r.entries[j]).last_opened
            &&& r.collections == lib.collections
            &&& r.tags == lib.tags
            &&& r.total_app_secs == lib.total_app_secs
            &&& r.system == lib.system
        }),
{
    let l = lib.with_visit(path, v);
    let r = lib.visited(path, v);
    let before = |a: Entry, b: Entry| opened_later(a, b);
    lemma_place(lib, path);
    if lib.knows(path) {
        lemma_changed(lib, path, visited_entry(lib.entry(path), v));
        assert(l.distinct());
    } else {
        let e = fresh_entry(path, v);
        let paths = entry_parts(l.entries, l.system);
        assert forall|i: int, j: int| 0 <= i < paths.len() && 0 <= j < paths.len() && i
            != j implies paths[i] != paths[j] by {
            if i > 0 {
                assert(paths[i] == entry_parts(lib.entries, lib.system)[i - 1]);
                assert(l.entries[i] == lib.entries[i - 1]);
            }
            if j > 0 {
                assert(paths[j] == entry_parts(lib.entries, lib.system)[j - 1]);
                assert(l.entries[j] == lib.entries[j - 1]);
            }
        }
        assert(l.distinct());
        assert(l.entries[0] == e);
        lemma_the_entry(l, 0);
        assert forall|q: Seq<char>| !lib.same(q, path) implies #[trigger] l.knows(q) == lib.knows(q) && (
        lib.knows(q) ==> l.entry(q) == lib.entry(q)) by {
            lemma_place(lib, q);
            lemma_place(l, q);
            if lib.knows(q) {
                let k = lib.place(q);
                assert(l.entries[k + 1] == lib.entries[k]);
                lemma_the_entry(l, k + 1);
                assert(l.place(q) == l.place(l.entries[k + 1].path));
            }
            if l.knows(q) {
                let k = l.place(q);
                assert(k > 0);
                assert(lib.entries[k - 1] == l.entries[k]);
            }
        }
    }
    law_sorted_keeps_items(l.entries, before);
    assert(r.entries == stable_sorted(l.entries, before));
    lemma_same_items(l, r);
    assert(weak_order(before));
    law_sorted_in_order(l.entries, before);
    assert(in_order(r.entries, before));
    assert forall|i: int, j: int| 0 <= i <= j < r.entries.len() implies (
    #[trigger] r.entries[i]).last_opened >= (#[trigger] r.entries[j]).last_opened by {
        if i < j {
            assert(!before(r.entries[j], r.entries[i]));
        }
    }
    assert forall|q: Seq<char>| !lib.same(q, path) && lib.knows(q) implies #[trigger] r.entry(q)
        == lib.entry(q) by {
        assert(l.knows(q) == lib.knows(q));
        assert(l.entry(q) == lib.entry(q));
    }
    assert forall|q: Seq<char>| !lib.same(q, path) implies #[trigger] r.knows(q) == lib.knows(q) by {
        assert(l.knows(q) == lib.knows(q));
    }
}

/// A canvas visited later than all others comes first.
pub proof fn law_latest_comes_first(lib: Library, path: Seq<char>, v: Visit)
    requires
        lib.distinct(),
        forall|i: int|
            0 <= i < lib.entries.len() && !lib.same(lib.entries[i].path, path) ==> (
            #[trigger] lib.entries[i]).last_opened < v.now,
    ensures
        lib.visited(path, v).entries.len() > 0,
        lib.same(lib.visited(path, v).entries[0].path, path),
{
    law_visited(lib, path, v);
    let r = lib.visited(path, v);
    lemma_place(r, path);
    let first = r.entries[0];
    if !lib.same(first.path, path) {
        lemma_the_entry(r, 0);
        assert(r.knows(first.path) == lib.knows(first.path));
        assert(r.entry(first.path) == lib.entry(first.path));
        lemma_place(lib, first.path);
        assert(lib.entries[lib.place(first.path)].last_opened < v.now);
        assert(r.entries[0].last_opened >= r.entries[r.place(path)].last_opened);
        assert(r.entry(path).last_opened == v.now);
    }
}

/// Pinning a canvas twice changes nothing, nor does marking it twice.
pub proof fn law_toggling_twice(lib: Library, path: Seq<char>)
    ensures
        ({
            let l = lib.with_changed(
                path,
                Entry { pinned: !lib.entry(path).pinned, ..lib.entry(path) },
            );
            l.with_changed(path, Entry { pinned: !l.entry(path).pinned, ..l.entry(path) }) == lib
        }),
        ({
            let l = lib.with_changed(path, Entry { nsfw: !lib.entry(path).nsfw, ..lib.entry(path) });
            l.with_changed(path, Entry { nsfw: !l.entry(path).nsfw, ..l.entry(path) }) == lib
        }),
{
    lemma_place(lib, path);
    if lib.knows(path) {
        let e = Entry { pinned: !lib.entry(path).pinned, ..lib.entry(path) };
        lemma_changed(lib, path, e);
        let l = lib.with_changed(path, e);
        assert(l.with_changed(
            path,
            Entry { pinned: !l.entry(path).pinned, ..l.entry(path) },
        ).entries =~= lib.entries);
        let f = Entry { nsfw: !lib.entry(path).nsfw, ..lib.entry(path) };
        lemma_changed(lib, path, f);
        let m = lib.with_changed(path, f);
        assert(m.with_changed(
            path,
            Entry { nsfw: !m.entry(path).nsfw, ..m.entry(path) },
        ).entries =~= lib.entries);
    }
}

/// Toggling a tag changes whether it is there and leaves all others; toggling
/// one that was not there twice changes nothing.
pub proof fn law_toggled(tags: Seq<Seq<char>>, x: Seq<char>)
    requires
        tags.no_duplicates(),
    ensures
        toggled(tags, x).no_duplicates(),
        toggled(tags, x).contains(x) != tags.contains(x),
        forall|y: Seq<char>| y != x ==> (#[trigger] toggled(tags, x).contains(y) == tags.contains(y)),
        !tags.contains(x) ==> toggled(toggled(tags, x), x) == tags,
{
    lemma_text_place(tags, x);
    let r = toggled(tags, x);
    let k = text_place(tags, x);
    if tags.contains(x) {
        assert forall|y: Seq<char>| y != x implies (#[trigger] r.contains(y) == tags.contains(
            y,
        )) by {
            if tags.contains(y) {
                let j = choose|j: int| 0 <= j < tags.len() && tags[j] == y;
                if j < k {
                    assert(r[j] == y);
                } else {
                    assert(r[j - 1] == y);
                }
            }
            if r.contains(y) {
                let j = choose|j: int| 0 <= j < r.len() && r[j] == y;
                if j < k {
                    assert(tags[j] == y);
                } else {
                    assert(tags[j + 1] == y);
                }
            }
        }
    } else {
        assert(r[r.len() - 1] == x);
        lemma_text_place_at(r, x, tags.len() as int);
        assert(toggled(r, x) =~= tags);
        assert forall|y: Seq<char>| y != x implies (#[trigger] r.contains(y) == tags.contains(
            y,
        )) by {
            if tags.contains(y) {
                let j = choose|j: int| 0 <= j < tags.len() && tags[j] == y;
                assert(r[j] == y);
            }
        }
    }
}

/// The list of collections names every canvas's collection, keeps the names it
/// began with in front and repeats none.
pub proof fn law_collection_names(names: Seq<Seq<char>>, entries: Seq<Entry>)
    requires
        names.no_duplicates(),
    ensures
        names_with(names, entries).no_duplicates(),
        names_with(names, entries).len() >= names.len(),
        names_with(names, entries).take(names.len() as int) == names,
        forall|i: int|
            0 <= i < entries.len() && entries[i].collection.len() > 0 ==> names_with(
                names,
                entries,
            ).contains((#[trigger] entries[i]).collection),
    decreases entries.len(),
{
    if entries.len() == 0 {
        assert(names.take(names.len() as int) =~= names);
    } else {
        let front = entries.drop_last();
        law_collection_names(names, front);
        let b = names_with(names, front);
        let r = names_with(names, entries);
        assert(r.take(names.len() as int) =~= b.take(names.len() as int));
        assert forall|i: int| 0 <= i < entries.len() && entries[i].collection.len()
            > 0 implies r.contains((#[trigger] entries[i]).collection) by {
            if i < front.len() {
                assert(front[i] == entries[i]);
                let k = choose|k: int| 0 <= k < b.len() && b[k] == front[i].collection;
                assert(r[k] == front[i].collection);
            } else if !b.contains(entries[i].collection) {
                assert(r[r.len() - 1] == entries[i].collection);
            }
        }
    }
}

} // verus!
