//! Showing and hiding panels, in any layout that has no panel twice.
use vstd::prelude::*;
use crate::dock::column::{DockSide, PanelKind};
use crate::dock::host::{FloatingPanel, Host, panels_of};
use crate::dock::laws::{
    host_tally, lemma_fresh, lemma_host_tally_cat, lemma_host_tally_one, lemma_host_tally_range,
    lemma_panels_of, lemma_panels_without, lemma_strips_without, lemma_tally_insert,
    lemma_tally_one, lemma_tally_range, lemma_tally_update, lemma_times_cat, lemma_times_one,
    lemma_times_range, lemma_total_strips, lemma_with, tally, times, total,
};
use crate::dock::layout::{Arrangement, floats_without, hosts_without, live_hosts, panels_without};

verus! {

/// A window whose flat list names what its columns hold.
pub open spec fn flat(h: Host) -> bool {
    h.panels == panels_of(h.columns)
}

pub open spec fn all_flat(list: Seq<Host>) -> bool {
    forall|i: int| 0 <= i < list.len() ==> flat(#[trigger] list[i])
}

/// A layout in which no strip or window holds a panel that another holds too.
pub open spec fn single(a: Arrangement) -> bool {
    all_flat(a.hosts) && forall|k: PanelKind| #[trigger] total(a, k) <= 1
}

/// Whether a panel floats alone.
pub open spec fn loose(list: Seq<FloatingPanel>, k: PanelKind) -> bool {
    exists|i: int| 0 <= i < list.len() && #[trigger] list[i].kind == k
}

proof fn lemma_hosts_hold(list: Seq<Host>, k: PanelKind)
    requires
        all_flat(list),
    ensures
        host_tally(list, k) > 0 <==> exists|i: int|
            0 <= i < list.len() && #[trigger] list[i].holds(k),
{
    lemma_host_tally_range(list, k);
    if host_tally(list, k) > 0 {
        let i = choose|i: int| 0 <= i < list.len() && tally(#[trigger] list[i].columns, k) > 0;
        lemma_tally_range(list[i].columns, k);
        assert(list[i].holds(k));
    }
    if exists|i: int| 0 <= i < list.len() && #[trigger] list[i].holds(k) {
        let i = choose|i: int| 0 <= i < list.len() && #[trigger] list[i].holds(k);
        assert(flat(list[i]));
        lemma_tally_range(list[i].columns, k);
        lemma_panels_of(list[i].columns, k);
        assert(tally(list[i].columns, k) > 0);
    }
}

proof fn lemma_shows(a: Arrangement, k: PanelKind)
    requires
        all_flat(a.hosts),
    ensures
        a.shows(k) <==> total(a, k) > 0 || loose(a.floating, k),
        total(a, k) >= 0,
        host_tally(a.hosts, k) >= 0,
        tally(a.left, k) >= 0 && tally(a.right, k) >= 0,
        tally(a.top, k) >= 0 && tally(a.bottom, k) >= 0,
{
    lemma_tally_range(a.left, k);
    lemma_tally_range(a.right, k);
    lemma_tally_range(a.top, k);
    lemma_tally_range(a.bottom, k);
    lemma_host_tally_range(a.hosts, k);
    lemma_hosts_hold(a.hosts, k);
}

proof fn lemma_without_flat(list: Seq<Host>, kind: PanelKind, k: PanelKind)
    requires
        all_flat(list),
    ensures
        ({
            let out = list.map_values(|h: Host| h.without(kind));
            &&& k != kind ==> host_tally(out, k) == host_tally(list, k)
            &&& host_tally(list, kind) <= 1 ==> host_tally(out, kind) == 0
            &&& all_flat(out)
        }),
    decreases list.len(),
{
    let out = list.map_values(|h: Host| h.without(kind));
    if list.len() > 0 {
        let rest = list.drop_last();
        assert forall|i: int| 0 <= i < rest.len() implies flat(#[trigger] rest[i]) by {
            assert(rest[i] == list[i]);
        }
        lemma_without_flat(rest, kind, k);
        assert(out.drop_last() =~= rest.map_values(|h: Host| h.without(kind)));
        assert(flat(list[list.len() - 1]));
        lemma_strips_without(list.last().columns, kind, k);
        lemma_strips_without(list.last().columns, kind, kind);
        lemma_host_tally_range(rest, kind);
        lemma_tally_range(list.last().columns, kind);
    }
}

proof fn lemma_live_flat(list: Seq<Host>, k: PanelKind)
    requires
        all_flat(list),
    ensures
        host_tally(live_hosts(list), k) == host_tally(list, k),
        all_flat(live_hosts(list)),
    decreases list.len(),
{
    if list.len() > 0 {
        let rest = list.drop_first();
        assert forall|i: int| 0 <= i < rest.len() implies flat(#[trigger] rest[i]) by {
            assert(rest[i] == list[i + 1]);
        }
        lemma_live_flat(rest, k);
        let h = list[0];
        assert(flat(h));
        assert(list =~= seq![h] + rest);
        lemma_host_tally_cat(seq![h], rest, k);
        lemma_host_tally_one(h, k);
        lemma_host_tally_cat(seq![h], live_hosts(rest), k);
        lemma_panels_of(h.columns, k);
        lemma_times_range(h.panels, k);
        assert(h.empty() ==> tally(h.columns, k) == 0);
        assert forall|i: int| 0 <= i < live_hosts(list).len() implies flat(
            #[trigger] live_hosts(list)[i],
        ) by {
            if h.empty() {
                assert(flat(live_hosts(rest)[i]));
            } else if i > 0 {
                assert(live_hosts(list)[i] == live_hosts(rest)[i - 1]);
            }
        }
    }
}

proof fn lemma_loose_without(list: Seq<FloatingPanel>, kind: PanelKind, k: PanelKind)
    ensures
        loose(floats_without(list, kind), k) <==> k != kind && loose(list, k),
    decreases list.len(),
{
    reveal(Seq::filter);
    if list.len() > 0 {
        let start = list.drop_last();
        lemma_loose_without(start, kind, k);
        let rest = floats_without(start, kind);
        let out = floats_without(list, kind);
        if loose(out, k) {
            let i = choose|i: int| 0 <= i < out.len() && #[trigger] out[i].kind == k;
            if i < rest.len() {
                assert(rest[i].kind == k);
                let j = choose|j: int| 0 <= j < start.len() && #[trigger] start[j].kind == k;
                assert(list[j].kind == k);
            } else {
                assert(list[list.len() - 1].kind == k);
            }
        }
        if k != kind && loose(list, k) {
            let j = choose|j: int| 0 <= j < list.len() && #[trigger] list[j].kind == k;
            if j < start.len() {
                assert(start[j].kind == k);
                let i = choose|i: int| 0 <= i < rest.len() && #[trigger] rest[i].kind == k;
                assert(out[i].kind == k);
            } else {
                assert(out[rest.len() as int].kind == k);
            }
        }
    }
}

proof fn lemma_concealed(a: Arrangement, kind: PanelKind, k: PanelKind)
    requires
        single(a),
    ensures
        a.concealed(kind).shows(k) == (k != kind && a.shows(k)),
{
    let b = a.concealed(kind);
    let mid = a.hosts.map_values(|h: Host| h.without(kind));
    lemma_without_flat(a.hosts, kind, k);
    lemma_live_flat(mid, k);
    lemma_live_flat(mid, kind);
    lemma_strips_without(a.left, kind, k);
    lemma_strips_without(a.right, kind, k);
    lemma_strips_without(a.top, kind, k);
    lemma_strips_without(a.bottom, kind, k);
    lemma_loose_without(a.floating, kind, k);
    lemma_shows(a, k);
    lemma_shows(a, kind);
    lemma_shows(b, k);
    assert(total(a, kind) <= 1);
    assert(b.hosts == hosts_without(a.hosts, kind));
}

proof fn lemma_shown(a: Arrangement, kind: PanelKind, k: PanelKind)
    requires
        all_flat(a.hosts),
        !a.shows(kind),
    ensures
        a.shown(kind).shows(k) == (k == kind || a.shows(k)),
{
    let b = a.shown(kind);
    let side = if kind is Navigator || kind is Layers {
        DockSide::Right
    } else {
        DockSide::Left
    };
    let width: i32 = if kind is Navigator || kind is Layers {
        260_000
    } else {
        270_000
    };
    let mid = Arrangement { hidden: panels_without(a.hidden, kind), ..a };
    let cols = a.strips(side);
    let now = b.strips(side);
    assert(now == Arrangement::appended(cols, kind, width));
    assert(b == mid.with_strips(side, now));
    assert(total(mid, k) == total(a, k));
    lemma_total_strips(mid, side, now, k);
    if cols.len() == 0 {
        lemma_fresh(kind, width, k);
        lemma_tally_one(now[0], k);
        assert(now =~= seq![now[0]]);
    } else {
        lemma_tally_update(cols, 0, now[0], k);
        lemma_times_cat(cols[0].panels, seq![kind], k);
        lemma_times_one(kind, k);
        assert(cols[0].panels.push(kind) =~= cols[0].panels + seq![kind]);
    }
    lemma_shows(a, k);
    lemma_shows(b, k);
}

/// A panel that is made visible is, and one that is hidden is not and is
/// remembered as hidden, once; no other panel comes or goes. A panel that was
/// visible stays where it is, and one that comes back is no longer remembered
/// as hidden.
pub proof fn law_set_visible(a: Arrangement, kind: PanelKind, visible: bool)
    requires
        single(a),
    ensures
        visible ==> {
            let b = a.shown(kind);
            &&& b.shows(kind)
            &&& a.shows(kind) ==> b == a
            &&& !a.shows(kind) ==> !b.hidden.contains(kind)
        },
        visible ==> forall|k: PanelKind|
            k != kind ==> #[trigger] a.shown(kind).shows(k) == a.shows(k),
        !visible ==> {
            let b = a.concealed(kind);
            &&& !b.shows(kind)
            &&& times(b.hidden, kind) == 1
        },
        !visible ==> forall|k: PanelKind|
            k != kind ==> #[trigger] a.concealed(kind).shows(k) == a.shows(k),
{
    let rest = panels_without(a.hidden, kind);
    lemma_panels_without(a.hidden, kind);
    lemma_times_range(rest, kind);
    if visible {
        if !a.shows(kind) {
            lemma_shown(a, kind, kind);
            assert forall|k: PanelKind| k != kind implies #[trigger] a.shown(kind).shows(k)
                == a.shows(k) by {
                lemma_shown(a, kind, k);
            }
        }
    } else {
        let b = a.concealed(kind);
        lemma_concealed(a, kind, kind);
        assert forall|k: PanelKind| k != kind implies #[trigger] a.concealed(kind).shows(k)
            == a.shows(k) by {
            lemma_concealed(a, kind, k);
        }
        assert(b.hidden =~= rest + seq![kind]);
        lemma_times_cat(rest, seq![kind], kind);
        lemma_times_one(kind, kind);
    }
}

/// Whether a panel is in exactly one place now, and every other panel as often
/// as it was.
pub open spec fn put_once(a: Arrangement, b: Arrangement, kind: PanelKind) -> bool {
    &&& total(b, kind) == 1
    &&& !loose(b.floating, kind)
    &&& !b.hidden.contains(kind)
    &&& forall|k: PanelKind| k != kind ==> #[trigger] total(b, k) == total(a, k)
    &&& forall|k: PanelKind| k != kind ==> #[trigger] b.shows(k) == a.shows(k)
    &&& single(b)
}

proof fn lemma_taken_out(a: Arrangement, kind: PanelKind)
    requires
        single(a),
    ensures
        ({
            let mid = a.without(kind);
            &&& all_flat(mid.hosts)
            &&& total(mid, kind) == 0
            &&& forall|k: PanelKind| k != kind ==> #[trigger] total(mid, k) == total(a, k)
            &&& forall|k: PanelKind|
                #[trigger] loose(mid.floating, k) == (k != kind && loose(a.floating, k))
            &&& !mid.hidden.contains(kind)
        }),
{
    let mid = a.without(kind);
    let hosts = a.hosts.map_values(|h: Host| h.without(kind));
    lemma_shows(a, kind);
    assert(total(a, kind) <= 1);
    lemma_without_flat(a.hosts, kind, kind);
    lemma_live_flat(hosts, kind);
    lemma_strips_without(a.left, kind, kind);
    lemma_strips_without(a.right, kind, kind);
    lemma_strips_without(a.top, kind, kind);
    lemma_strips_without(a.bottom, kind, kind);
    lemma_panels_without(a.hidden, kind);
    assert(mid.hosts == hosts_without(a.hosts, kind));
    assert forall|k: PanelKind| k != kind implies #[trigger] total(mid, k) == total(a, k) by {
        lemma_without_flat(a.hosts, kind, k);
        lemma_live_flat(hosts, k);
        lemma_strips_without(a.left, kind, k);
        lemma_strips_without(a.right, kind, k);
        lemma_strips_without(a.top, kind, k);
        lemma_strips_without(a.bottom, kind, k);
    }
    assert forall|k: PanelKind|
        #[trigger] loose(mid.floating, k) == (k != kind && loose(a.floating, k)) by {
        lemma_loose_without(a.floating, kind, k);
    }
}

proof fn lemma_put_once(a: Arrangement, b: Arrangement, side: DockSide, kind: PanelKind)
    requires
        single(a),
        b == a.without(kind).with_strips(side, b.strips(side)),
        forall|k: PanelKind|
            #[trigger] tally(b.strips(side), k) == tally(a.without(kind).strips(side), k)
                + if k == kind {
                1int
            } else {
                0
            },
    ensures
        put_once(a, b, kind),
{
    let mid = a.without(kind);
    let now = b.strips(side);
    lemma_taken_out(a, kind);
    assert forall|k: PanelKind|
        #[trigger] total(b, k) == total(mid, k) + if k == kind {
            1int
        } else {
            0
        } by {
        lemma_total_strips(mid, side, now, k);
        assert(tally(now, k) == tally(mid.strips(side), k) + if k == kind {
            1int
        } else {
            0
        });
    }
    assert forall|k: PanelKind| k != kind implies #[trigger] total(b, k) == total(a, k) by {
        assert(total(mid, k) == total(a, k));
    }
    assert forall|k: PanelKind| k != kind implies #[trigger] b.shows(k) == a.shows(k) by {
        assert(total(b, k) == total(a, k));
        assert(loose(mid.floating, k) == loose(a.floating, k));
        lemma_shows(a, k);
        lemma_shows(b, k);
    }
    assert(!loose(mid.floating, kind));
    assert forall|k: PanelKind| #[trigger] total(b, k) <= 1 by {
        assert(total(a, k) <= 1);
        if k != kind {
            assert(total(b, k) == total(a, k));
        }
    }
}

/// A panel put into a docked strip is in that strip, before the panel that was
/// at its place, and nowhere else; no other panel comes or goes.
pub proof fn law_put_in_strip(
    a: Arrangement,
    kind: PanelKind,
    side: DockSide,
    column: int,
    index: int,
)
    requires
        single(a),
        0 <= column,
        0 <= index,
    ensures
        ({
            let cols = a.without(kind).strips(side);
            let b = a.inserted(kind, side, column, index);
            let c = if column < cols.len() {
                column
            } else {
                cols.len() - 1
            };
            &&& put_once(a, b, kind)
            &&& cols.len() == 0 ==> b.strips(side).len() == 1 && b.strips(side)[0].panels
                == seq![kind]
            &&& cols.len() > 0 ==> b.strips(side).len() == cols.len() && b.strips(side)[c].panels
                == cols[c].panels.insert(
                if index <= cols[c].panels.len() {
                    index
                } else {
                    cols[c].panels.len() as int
                },
                kind,
            )
        }),
{
    let mid = a.without(kind);
    let cols = mid.strips(side);
    let b = a.inserted(kind, side, column, index);
    let now = b.strips(side);
    assert(b == mid.with_strips(side, now));
    assert forall|k: PanelKind|
        #[trigger] tally(now, k) == tally(cols, k) + if k == kind {
            1int
        } else {
            0
        } by {
        if cols.len() == 0 {
            lemma_fresh(kind, now[0].width, k);
            lemma_tally_one(now[0], k);
            assert(now =~= seq![now[0]]);
        } else {
            let c = if column < cols.len() {
                column
            } else {
                cols.len() - 1
            };
            lemma_with(cols[c], kind, index, k);
            lemma_tally_update(cols, c, cols[c].with(kind, index), k);
        }
    }
    lemma_put_once(a, b, side, kind);
}

/// A panel put into a new strip is alone in it, and nowhere else; no other panel
/// comes or goes.
pub proof fn law_put_in_new_strip(a: Arrangement, kind: PanelKind, side: DockSide, column: int)
    requires
        single(a),
        0 <= column,
    ensures
        ({
            let cols = a.without(kind).strips(side);
            let b = a.inserted_new(kind, side, column);
            let i = if column < cols.len() {
                column
            } else {
                cols.len() as int
            };
            &&& put_once(a, b, kind)
            &&& b.strips(side).len() == cols.len() + 1
            &&& b.strips(side)[i].panels == seq![kind]
        }),
{
    let mid = a.without(kind);
    let cols = mid.strips(side);
    let b = a.inserted_new(kind, side, column);
    let now = b.strips(side);
    let i = if column < cols.len() {
        column
    } else {
        cols.len() as int
    };
    assert(b == mid.with_strips(side, now));
    assert forall|k: PanelKind|
        #[trigger] tally(now, k) == tally(cols, k) + if k == kind {
            1int
        } else {
            0
        } by {
        lemma_fresh(kind, now[i].width, k);
        lemma_tally_insert(cols, i, now[i], k);
    }
    lemma_put_once(a, b, side, kind);
}

/// Moving a strip and moving it back leaves the layout as it was.
pub proof fn law_column_moved_back(
    a: Arrangement,
    side: DockSide,
    column: int,
    to_side: DockSide,
    to_index: int,
)
    requires
        0 <= column < a.strips(side).len(),
        0 <= to_index,
    ensures
        ({
            let b = a.column_moved(side, column, to_side, to_index);
            let dest = a.with_strips(side, a.strips(side).remove(column)).strips(to_side);
            let at = if to_index < dest.len() {
                to_index
            } else {
                dest.len() as int
            };
            b.column_moved(to_side, at, side, column) == a
        }),
{
    let from = a.strips(side);
    let mid = a.with_strips(side, from.remove(column));
    let dest = mid.strips(to_side);
    let at = if to_index < dest.len() {
        to_index
    } else {
        dest.len() as int
    };
    let b = a.column_moved(side, column, to_side, to_index);
    let there = dest.insert(at, from[column]);
    assert(b.strips(to_side) == there);
    assert(there.remove(at) =~= dest);
    assert(there[at] == from[column]);
    let back = b.with_strips(to_side, there.remove(at));
    assert(back.strips(side) == from.remove(column));
    assert(from.remove(column).insert(column, from[column]) =~= from);
    let c = b.column_moved(to_side, at, side, column);
    assert(c.left =~= a.left);
    assert(c.right =~= a.right);
    assert(c.top =~= a.top);
    assert(c.bottom =~= a.bottom);
}

} // verus!
