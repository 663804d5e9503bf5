//! What holds of the browser over several operations.
use vstd::prelude::*;
use crate::browser::moves::{MAX_RECENT, fronted};
use crate::browser::select::{between, item_paths};
use crate::browser::state::{Browser, Loc};
use crate::paths::parts::{all_parts, has_place, parts, place_in, same_place, without};
use crate::paths::reading::System;
use crate::text::{lemma_text_place, lemma_text_place_at};

verus! {

/// Going to another place and back leads to where one was, and forward from
/// there to the other place again.
pub proof fn law_back_and_forward(b: Browser, loc: Loc)
    requires
        b.wf(),
        !b.history[b.history_idx].same(loc, b.system),
    ensures
        b.with_history(loc).history_idx == b.history_idx + 1,
        b.with_history(loc).history[b.history_idx] == b.history[b.history_idx],
        b.with_history(loc).history[b.history_idx + 1] == loc,
        b.with_history(loc).history.len() == b.history_idx + 2,
{
    let h = b.history.take(b.history_idx + 1);
    assert(h.last() == b.history[b.history_idx]);
}

/// Going to the place where one is changes nothing but what came after it.
pub proof fn law_no_repeated_place(b: Browser)
    requires
        b.wf(),
    ensures
        forall|loc: Loc| #[trigger]
            b.history[b.history_idx].same(loc, b.system) ==> b.with_history(loc).history
                == b.history.take(b.history_idx + 1) && b.with_history(loc).history_idx
                == b.history_idx,
{
    let h = b.history.take(b.history_idx + 1);
    assert(h.last() == b.history[b.history_idx]);
}

proof fn lemma_without(list: Seq<Seq<char>>, x: Seq<char>, system: System)
    ensures
        !has_place(without(list, x, system), x, system),
        without(list, x, system).len() <= list.len(),
        forall|y: Seq<char>|
            !same_place(y, x, system) ==> (#[trigger] without(list, x, system).contains(y)
                == list.contains(y)),
        all_parts(list, system).no_duplicates() ==> all_parts(
            without(list, x, system),
            system,
        ).no_duplicates(),
        forall|y: Seq<char>| #[trigger]
            has_place(without(list, x, system), y, system) ==> has_place(list, y, system),
    decreases list.len(),
{
    if list.len() > 0 {
        let t = list.drop_last();
        lemma_without(t, x, system);
        let b = without(t, x, system);
        let r = without(list, x, system);
        let keep = !same_place(list.last(), x, system);
        assert(all_parts(list, system) =~= all_parts(t, system).push(parts(list.last(), system)));
        assert(keep ==> all_parts(r, system) =~= all_parts(b, system).push(
            parts(list.last(), system),
        ));
        assert forall|y: Seq<char>| #[trigger] has_place(r, y, system) implies has_place(
            list,
            y,
            system,
        ) by {
            let k = choose|k: int|
                0 <= k < r.len() && all_parts(r, system)[k] == parts(y, system);
            if k < b.len() {
                assert(all_parts(b, system)[k] == parts(y, system));
                assert(has_place(b, y, system));
                assert(has_place(t, y, system));
                let j = choose|j: int|
                    0 <= j < t.len() && all_parts(t, system)[j] == parts(y, system);
                assert(all_parts(list, system)[j] == parts(y, system));
            } else {
                assert(all_parts(list, system)[list.len() - 1] == parts(y, system));
            }
        }
        assert(!has_place(r, x, system)) by {
            if has_place(r, x, system) {
                let k = choose|k: int|
                    0 <= k < r.len() && all_parts(r, system)[k] == parts(x, system);
                if k < b.len() {
                    assert(all_parts(b, system)[k] == parts(x, system));
                    assert(has_place(b, x, system));
                }
            }
        }
        assert forall|y: Seq<char>| !same_place(y, x, system) implies (#[trigger] r.contains(y)
            == list.contains(y)) by {
            if list.contains(y) {
                let k = choose|k: int| 0 <= k < list.len() && list[k] == y;
                if k < t.len() {
                    assert(t[k] == y);
                    assert(t.contains(y));
                    assert(b.contains(y));
                    let j = choose|j: int| 0 <= j < b.len() && b[j] == y;
                    assert(r[j] == y);
                } else {
                    assert(r[r.len() - 1] == y);
                }
            }
            if r.contains(y) {
                let k = choose|k: int| 0 <= k < r.len() && r[k] == y;
                if k < b.len() {
                    assert(b[k] == y);
                    assert(b.contains(y));
                    assert(t.contains(y));
                    let j = choose|j: int| 0 <= j < t.len() && t[j] == y;
                    assert(list[j] == y);
                } else {
                    assert(list[list.len() - 1] == y);
                }
            }
        }
        if all_parts(list, system).no_duplicates() {
            let all = all_parts(list, system);
            assert forall|i: int, j: int| 0 <= i < t.len() && 0 <= j < t.len() && i
                != j implies all_parts(t, system)[i] != all_parts(t, system)[j] by {
                assert(all[i] != all[j]);
            }
            if keep && has_place(b, list.last(), system) {
                assert(has_place(t, list.last(), system));
                let j = choose|j: int|
                    0 <= j < t.len() && all_parts(t, system)[j] == parts(list.last(), system);
                assert(all[j] == all[list.len() - 1]);
            }
            assert(all_parts(r, system).no_duplicates()) by {
                if keep {
                    let rs = all_parts(r, system);
                    let bs = all_parts(b, system);
                    assert forall|i: int, j: int| 0 <= i < rs.len() && 0 <= j < rs.len() && i
                        != j implies rs[i] != rs[j] by {
                        if i < bs.len() && j < bs.len() {
                            assert(bs[i] != bs[j]);
                        } else if i < bs.len() {
                            assert(bs.contains(bs[i]));
                        } else {
                            assert(bs.contains(bs[j]));
                        }
                    }
                }
            }
        }
    }
}

/// The folder visited last comes first among the remembered ones, none is
/// remembered twice, and never more than there is room for.
pub proof fn law_recent_folders(list: Seq<Seq<char>>, x: Seq<char>, system: System)
    requires
        all_parts(list, system).no_duplicates(),
    ensures
        fronted(list, x, system).len() <= MAX_RECENT,
        fronted(list, x, system)[0] == x,
        all_parts(fronted(list, x, system), system).no_duplicates(),
        forall|y: Seq<char>|
            !same_place(y, x, system) && #[trigger] fronted(list, x, system).contains(y)
                ==> list.contains(y),
{
    lemma_without(list, x, system);
    let w = without(list, x, system);
    let ws = all_parts(w, system);
    let all = seq![x] + w;
    let r = fronted(list, x, system);
    let rs = all_parts(r, system);
    assert forall|i: int, j: int| 0 <= i < rs.len() && 0 <= j < rs.len() && i != j implies rs[i]
        != rs[j] by {
        assert(r[i] == all[i] && r[j] == all[j]);
        if i == 0 {
            assert(rs[j] == ws[j - 1]);
            assert(ws.contains(ws[j - 1]));
        } else if j == 0 {
            assert(rs[i] == ws[i - 1]);
            assert(ws.contains(ws[i - 1]));
        } else {
            assert(ws[i - 1] != ws[j - 1]);
        }
    }
    assert forall|y: Seq<char>| !same_place(y, x, system) && #[trigger] r.contains(
        y,
    ) implies list.contains(y) by {
        let k = choose|k: int| 0 <= k < r.len() && r[k] == y;
        assert(r[k] == all[k]);
        assert(w[k - 1] == y);
        assert(w.contains(y));
    }
}

/// A plain click selects one path and nothing else; a click that adds selects
/// what was not selected, and a second one takes it out again.
pub proof fn law_clicks(b: Browser, path: Seq<char>)
    ensures
        b.clicked(path, false, false).selected == seq![path],
        b.clicked(path, false, false).select_anchor == Some(path),
        !has_place(b.selected, path, b.system) ==> b.clicked(path, true, false).selected
            == b.selected.push(path) && b.clicked(path, true, false).clicked(
            path,
            true,
            false,
        ).selected == b.selected,
{
    if !has_place(b.selected, path, b.system) {
        let s = b.selected.push(path);
        let all = all_parts(s, b.system);
        let x = parts(path, b.system);
        assert(all[s.len() - 1] == x);
        assert(all.contains(x));
        assert forall|j: int| 0 <= j < b.selected.len() implies all[j] != x by {
            let before = all_parts(b.selected, b.system);
            assert(before.contains(before[j]));
        }
        lemma_text_place_at(all, x, b.selected.len() as int);
        assert(s.remove(b.selected.len() as int) =~= b.selected);
    }
}

/// A click that extends the selection selects what the list shows from where
/// it began to the path, both included, whichever comes first.
pub proof fn law_ranges(b: Browser, anchor: Seq<char>, path: Seq<char>)
    requires
        b.select_anchor == Some(anchor),
        has_place(item_paths(b.filtered()), anchor, b.system),
        has_place(item_paths(b.filtered()), path, b.system),
    ensures
        has_place(b.clicked(path, false, true).selected, anchor, b.system),
        has_place(b.clicked(path, false, true).selected, path, b.system),
        b.clicked(path, false, true).select_anchor == Some(anchor),
        forall|x: Seq<char>| #[trigger]
            b.clicked(path, false, true).selected.contains(x) ==> item_paths(
                b.filtered(),
            ).contains(x),
{
    let paths = item_paths(b.filtered());
    let all = all_parts(paths, b.system);
    lemma_text_place(all, parts(anchor, b.system));
    lemma_text_place(all, parts(path, b.system));
    let a = place_in(paths, anchor, b.system);
    let c = place_in(paths, path, b.system);
    let lo = if a <= c {
        a
    } else {
        c
    };
    let r = between(paths, a, c);
    let rs = all_parts(r, b.system);
    assert(rs[a - lo] == all[a]);
    assert(rs[c - lo] == all[c]);
    assert forall|x: Seq<char>| #[trigger] r.contains(x) implies paths.contains(x) by {
        let k = choose|k: int| 0 <= k < r.len() && r[k] == x;
        assert(paths[lo + k] == x);
    }
}

/// A range holds what the list shows from one end to the other, each once and in
/// order, and nothing else.
pub proof fn law_range_is_exact(b: Browser, anchor: Seq<char>, path: Seq<char>)
    requires
        b.select_anchor == Some(anchor),
        has_place(item_paths(b.filtered()), anchor, b.system),
        has_place(item_paths(b.filtered()), path, b.system),
    ensures
        ({
            let paths = item_paths(b.filtered());
            let i = place_in(paths, anchor, b.system);
            let j = place_in(paths, path, b.system);
            let r = b.clicked(path, false, true).selected;
            &&& same_place(paths[i], anchor, b.system) && same_place(paths[j], path, b.system)
            &&& i <= j ==> r.len() == j - i + 1 && r[0] == paths[i] && r.last() == paths[j]
            &&& j <= i ==> r.len() == i - j + 1 && r[0] == paths[j] && r.last() == paths[i]
            &&& forall|k: int|
                0 <= k < r.len() ==> #[trigger] r[k] == paths[k + if i <= j {
                    i
                } else {
                    j
                }]
        }),
{
    let paths = item_paths(b.filtered());
    let all = all_parts(paths, b.system);
    lemma_text_place(all, parts(anchor, b.system));
    lemma_text_place(all, parts(path, b.system));
}

/// A click that adds takes out what was selected, and only that; without a range
/// to extend, a click selects what was clicked alone.
pub proof fn law_clicked_out(b: Browser, path: Seq<char>)
    requires
        has_place(b.selected, path, b.system),
    ensures
        ({
            let k = place_in(b.selected, path, b.system);
            let r = b.clicked(path, true, false);
            &&& 0 <= k < b.selected.len() && same_place(b.selected[k], path, b.system)
            &&& r.selected == b.selected.remove(k)
            &&& r.select_anchor == Some(path)
        }),
        !has_place(item_paths(b.filtered()), path, b.system) ==> b.clicked(
            path,
            false,
            true,
        ).selected == seq![path],
{
    lemma_text_place(all_parts(b.selected, b.system), parts(path, b.system));
    let paths = item_paths(b.filtered());
    let all = all_parts(paths, b.system);
    lemma_text_place(all, parts(path, b.system));
}

} // verus!
