//! What holds of every layout: each panel is in at most one place, and the
//! operations move panels without losing or doubling any.
use vstd::prelude::*;
use crate::dock::adjust::{MIN_SPLIT, cell_start, drawn, snap_axis};
use crate::dock::column::{Column, DEAD_WEIGHT, DockSide, PanelKind, first_place, lemma_first_place};
use crate::dock::geometry::Point;
use crate::dock::host::{Host, live, panels_of, strips_hold, strips_without};
use crate::dock::layout::{
    Arrangement, fallback_pos, float_size, host_place, hosts_without, live_hosts, panels_without,
};
use crate::dock::restore::{
    default_arrangement, fit_column, fit_host, fit_row, fit_strips, id_above, ids_fit,
    lemma_migrated_ids, migrated, sanitized,
};

verus! {

/// How often `k` is in a list of panels.
pub open spec fn times(panels: Seq<PanelKind>, k: PanelKind) -> int
    decreases panels.len(),
{
    if panels.len() == 0 {
        0
    } else {
        times(panels.drop_last(), k) + if panels.last() == k {
            1int
        } else {
            0
        }
    }
}

/// How often `k` is in a list of strips.
pub open spec fn tally(cols: Seq<Column>, k: PanelKind) -> int
    decreases cols.len(),
{
    if cols.len() == 0 {
        0
    } else {
        tally(cols.drop_last(), k) + times(cols.last().panels, k)
    }
}

/// How often `k` is in the columns of a list of windows.
pub open spec fn host_tally(list: Seq<Host>, k: PanelKind) -> int
    decreases list.len(),
{
    if list.len() == 0 {
        0
    } else {
        host_tally(list.drop_last(), k) + tally(list.last().columns, k)
    }
}

/// How often `k` is shown.
pub open spec fn total(a: Arrangement, k: PanelKind) -> int {
    tally(a.left, k) + tally(a.right, k) + tally(a.top, k) + tally(a.bottom, k) + host_tally(
        a.hosts,
        k,
    )
}

/// A strip with a panel and a weight for each.
pub open spec fn solid(c: Column) -> bool {
    c.panels.len() > 0 && c.weights.len() == c.panels.len()
}

pub open spec fn all_solid(cols: Seq<Column>) -> bool {
    forall|i: int| 0 <= i < cols.len() ==> solid(#[trigger] cols[i])
}

/// A window with a column, whose flat list names what its columns hold.
pub open spec fn sound_host(h: Host) -> bool {
    h.columns.len() > 0 && all_solid(h.columns) && h.panels == panels_of(h.columns)
}

/// A layout in which every strip and window shows something, no panel is in
/// two places, and each window has an id of its own below the next one.
pub open spec fn sound(a: Arrangement) -> bool {
    &&& all_solid(a.left)
    &&& all_solid(a.right)
    &&& all_solid(a.top)
    &&& all_solid(a.bottom)
    &&& a.floating.len() == 0
    &&& forall|i: int| 0 <= i < a.hosts.len() ==> sound_host(#[trigger] a.hosts[i])
    &&& forall|i: int| 0 <= i < a.hosts.len() ==> (#[trigger] a.hosts[i]).id < a.next_id
    &&& forall|i: int, j: int|
        0 <= i < j < a.hosts.len() ==> (#[trigger] a.hosts[i]).id != (#[trigger] a.hosts[j]).id
    &&& forall|k: PanelKind| #[trigger] total(a, k) <= 1
}

pub proof fn lemma_times_range(p: Seq<PanelKind>, k: PanelKind)
    ensures
        0 <= times(p, k) <= p.len(),
        times(p, k) > 0 <==> p.contains(k),
    decreases p.len(),
{
    if p.len() > 0 {
        let q = p.drop_last();
        lemma_times_range(q, k);
        if q.contains(k) {
            let j = choose|j: int| 0 <= j < q.len() && q[j] == k;
            assert(p[j] == k);
        }
        if p.contains(k) && p.last() != k {
            let j = choose|j: int| 0 <= j < p.len() && p[j] == k;
            assert(q[j] == k);
        }
        if p.last() == k {
            assert(p[p.len() - 1] == k);
        }
    }
}

pub proof fn lemma_times_cat(p: Seq<PanelKind>, q: Seq<PanelKind>, k: PanelKind)
    ensures
        times(p + q, k) == times(p, k) + times(q, k),
    decreases q.len(),
{
    if q.len() == 0 {
        assert(p + q =~= p);
    } else {
        assert((p + q).drop_last() =~= p + q.drop_last());
        lemma_times_cat(p, q.drop_last(), k);
    }
}

pub proof fn lemma_times_one(x: PanelKind, k: PanelKind)
    ensures
        times(seq![x], k) == if x == k {
            1int
        } else {
            0
        },
{
    assert(seq![x].drop_last() =~= Seq::empty());
    reveal_with_fuel(times, 2);
}

proof fn lemma_times_insert(p: Seq<PanelKind>, i: int, x: PanelKind, k: PanelKind)
    requires
        0 <= i <= p.len(),
    ensures
        times(p.insert(i, x), k) == times(p, k) + if x == k {
            1int
        } else {
            0
        },
{
    assert(p.insert(i, x) =~= p.take(i) + seq![x] + p.skip(i));
    assert(p =~= p.take(i) + p.skip(i));
    lemma_times_cat(p.take(i), seq![x], k);
    lemma_times_cat(p.take(i) + seq![x], p.skip(i), k);
    lemma_times_cat(p.take(i), p.skip(i), k);
    lemma_times_one(x, k);
}

proof fn lemma_times_remove(p: Seq<PanelKind>, i: int, k: PanelKind)
    requires
        0 <= i < p.len(),
    ensures
        times(p.remove(i), k) == times(p, k) - if p[i] == k {
            1int
        } else {
            0
        },
{
    assert(p.remove(i).insert(i, p[i]) =~= p);
    lemma_times_insert(p.remove(i), i, p[i], k);
}

/// A strip loses one `kind` where it has one, and nothing else.
proof fn lemma_column_without(c: Column, kind: PanelKind, k: PanelKind)
    ensures
        times(c.without(kind).panels, k) == times(c.panels, k) - if k == kind && times(
            c.panels,
            kind,
        ) > 0 {
            1int
        } else {
            0
        },
{
    lemma_first_place(c.panels, kind);
    lemma_times_range(c.panels, kind);
    let i = first_place(c.panels, kind);
    if i < c.panels.len() {
        lemma_times_remove(c.panels, i, k);
    }
}

pub proof fn lemma_tally_range(cols: Seq<Column>, k: PanelKind)
    ensures
        tally(cols, k) >= 0,
        tally(cols, k) > 0 <==> strips_hold(cols, k),
    decreases cols.len(),
{
    if cols.len() > 0 {
        let rest = cols.drop_last();
        lemma_tally_range(rest, k);
        lemma_times_range(cols.last().panels, k);
        if strips_hold(rest, k) {
            let j = choose|j: int| 0 <= j < rest.len() && #[trigger] rest[j].panels.contains(k);
            assert(cols[j].panels.contains(k));
        }
        if cols.last().panels.contains(k) {
            assert(cols[cols.len() - 1].panels.contains(k));
        }
        if strips_hold(cols, k) && !cols.last().panels.contains(k) {
            let j = choose|j: int| 0 <= j < cols.len() && #[trigger] cols[j].panels.contains(k);
            assert(rest[j].panels.contains(k));
        }
    }
}

proof fn lemma_tally_cat(a: Seq<Column>, b: Seq<Column>, k: PanelKind)
    ensures
        tally(a + b, k) == tally(a, k) + tally(b, k),
    decreases b.len(),
{
    if b.len() == 0 {
        assert(a + b =~= a);
    } else {
        assert((a + b).drop_last() =~= a + b.drop_last());
        lemma_tally_cat(a, b.drop_last(), k);
    }
}

pub proof fn lemma_tally_one(c: Column, k: PanelKind)
    ensures
        tally(seq![c], k) == times(c.panels, k),
{
    assert(seq![c].drop_last() =~= Seq::empty());
    reveal_with_fuel(tally, 2);
}

pub proof fn lemma_tally_insert(cols: Seq<Column>, i: int, c: Column, k: PanelKind)
    requires
        0 <= i <= cols.len(),
    ensures
        tally(cols.insert(i, c), k) == tally(cols, k) + times(c.panels, k),
{
    assert(cols.insert(i, c) =~= cols.take(i) + seq![c] + cols.skip(i));
    assert(cols =~= cols.take(i) + cols.skip(i));
    lemma_tally_cat(cols.take(i), seq![c], k);
    lemma_tally_cat(cols.take(i) + seq![c], cols.skip(i), k);
    lemma_tally_cat(cols.take(i), cols.skip(i), k);
    lemma_tally_one(c, k);
}

proof fn lemma_tally_remove(cols: Seq<Column>, i: int, k: PanelKind)
    requires
        0 <= i < cols.len(),
    ensures
        tally(cols.remove(i), k) == tally(cols, k) - times(cols[i].panels, k),
{
    assert(cols.remove(i).insert(i, cols[i]) =~= cols);
    lemma_tally_insert(cols.remove(i), i, cols[i], k);
}

pub proof fn lemma_tally_update(cols: Seq<Column>, i: int, c: Column, k: PanelKind)
    requires
        0 <= i < cols.len(),
    ensures
        tally(cols.update(i, c), k) == tally(cols, k) - times(cols[i].panels, k) + times(
            c.panels,
            k,
        ),
{
    assert(cols.update(i, c) =~= cols.remove(i).insert(i, c));
    lemma_tally_remove(cols, i, k);
    lemma_tally_insert(cols.remove(i), i, c, k);
}

proof fn lemma_live(cols: Seq<Column>, k: PanelKind)
    ensures
        tally(live(cols), k) == tally(cols, k),
        forall|i: int| 0 <= i < live(cols).len() ==> (#[trigger] live(cols)[i]).panels.len() > 0,
        forall|i: int| 0 <= i < live(cols).len() ==> cols.contains(#[trigger] live(cols)[i]),
        live(cols).len() <= cols.len(),
    decreases cols.len(),
{
    if cols.len() > 0 {
        let rest = cols.drop_first();
        lemma_live(rest, k);
        assert(cols =~= seq![cols[0]] + rest);
        lemma_tally_cat(seq![cols[0]], rest, k);
        lemma_tally_cat(seq![cols[0]], live(rest), k);
        lemma_tally_one(cols[0], k);
        lemma_times_range(cols[0].panels, k);
        assert forall|i: int| 0 <= i < live(cols).len() implies cols.contains(
            #[trigger] live(cols)[i],
        ) by {
            if cols[0].panels.len() == 0 {
                assert(rest.contains(live(rest)[i]));
                let j = choose|j: int| 0 <= j < rest.len() && rest[j] == live(rest)[i];
                assert(cols[j + 1] == live(cols)[i]);
            } else if i > 0 {
                assert(rest.contains(live(rest)[i - 1]));
                let j = choose|j: int| 0 <= j < rest.len() && rest[j] == live(rest)[i - 1];
                assert(cols[j + 1] == live(cols)[i]);
            } else {
                assert(cols[0] == live(cols)[0]);
            }
        }
    }
}

proof fn lemma_tally_map_without(cols: Seq<Column>, kind: PanelKind, k: PanelKind)
    ensures
        ({
            let out = cols.map_values(|c: Column| c.without(kind));
            &&& k != kind ==> tally(out, k) == tally(cols, k)
            &&& tally(cols, kind) <= 1 ==> tally(out, kind) == 0
        }),
    decreases cols.len(),
{
    let out = cols.map_values(|c: Column| c.without(kind));
    if cols.len() > 0 {
        let rest = cols.drop_last();
        lemma_tally_map_without(rest, kind, k);
        assert(out.drop_last() =~= rest.map_values(|c: Column| c.without(kind)));
        lemma_column_without(cols.last(), kind, k);
        lemma_column_without(cols.last(), kind, kind);
        lemma_tally_range(rest, kind);
        lemma_tally_range(out.drop_last(), kind);
        lemma_times_range(cols.last().panels, kind);
    }
}

/// A side loses `kind` and nothing else, and every strip left is solid.
pub proof fn lemma_strips_without(cols: Seq<Column>, kind: PanelKind, k: PanelKind)
    ensures
        ({
            let out = strips_without(cols, kind);
            &&& k != kind ==> tally(out, k) == tally(cols, k)
            &&& tally(cols, kind) <= 1 ==> tally(out, kind) == 0
            &&& all_solid(out)
        }),
{
    let mid = cols.map_values(|c: Column| c.without(kind));
    lemma_tally_map_without(cols, kind, k);
    lemma_live(mid, k);
    lemma_live(mid, kind);
    assert forall|i: int| 0 <= i < live(mid).len() implies solid(#[trigger] live(mid)[i]) by {
        assert(mid.contains(live(mid)[i]));
    }
}

pub proof fn lemma_panels_of(cols: Seq<Column>, k: PanelKind)
    ensures
        times(panels_of(cols), k) == tally(cols, k),
        panels_of(cols).contains(k) <==> tally(cols, k) > 0,
        all_solid(cols) ==> (panels_of(cols).len() > 0 <==> cols.len() > 0),
    decreases cols.len(),
{
    if cols.len() > 0 {
        lemma_panels_of(cols.drop_last(), k);
        lemma_times_cat(panels_of(cols.drop_last()), cols.last().panels, k);
        if all_solid(cols) {
            assert(solid(cols[cols.len() - 1]));
        }
    }
    lemma_times_range(panels_of(cols), k);
}

pub proof fn lemma_host_tally_cat(a: Seq<Host>, b: Seq<Host>, k: PanelKind)
    ensures
        host_tally(a + b, k) == host_tally(a, k) + host_tally(b, k),
    decreases b.len(),
{
    if b.len() == 0 {
        assert(a + b =~= a);
    } else {
        assert((a + b).drop_last() =~= a + b.drop_last());
        lemma_host_tally_cat(a, b.drop_last(), k);
    }
}

pub proof fn lemma_host_tally_one(h: Host, k: PanelKind)
    ensures
        host_tally(seq![h], k) == tally(h.columns, k),
{
    assert(seq![h].drop_last() =~= Seq::empty());
    reveal_with_fuel(host_tally, 2);
}

pub proof fn lemma_host_tally_range(list: Seq<Host>, k: PanelKind)
    ensures
        host_tally(list, k) >= 0,
        host_tally(list, k) > 0 <==> exists|i: int|
            0 <= i < list.len() && tally(#[trigger] list[i].columns, k) > 0,
    decreases list.len(),
{
    if list.len() > 0 {
        let rest = list.drop_last();
        lemma_host_tally_range(rest, k);
        lemma_tally_range(list.last().columns, k);
        if exists|i: int| 0 <= i < rest.len() && tally(#[trigger] rest[i].columns, k) > 0 {
            let i = choose|i: int| 0 <= i < rest.len() && tally(#[trigger] rest[i].columns, k) > 0;
            assert(tally(list[i].columns, k) > 0);
        }
        if tally(list.last().columns, k) > 0 {
            assert(tally(list[list.len() - 1].columns, k) > 0);
        }
        if exists|i: int| 0 <= i < list.len() && tally(#[trigger] list[i].columns, k) > 0 {
            let i = choose|i: int| 0 <= i < list.len() && tally(#[trigger] list[i].columns, k) > 0;
            if i < rest.len() {
                assert(tally(rest[i].columns, k) > 0);
            }
        }
    }
}

proof fn lemma_host_tally_remove(list: Seq<Host>, i: int, k: PanelKind)
    requires
        0 <= i < list.len(),
    ensures
        host_tally(list.remove(i), k) == host_tally(list, k) - tally(list[i].columns, k),
{
    assert(list.remove(i) =~= list.take(i) + list.skip(i + 1));
    assert(list =~= list.take(i) + seq![list[i]] + list.skip(i + 1));
    lemma_host_tally_cat(list.take(i), list.skip(i + 1), k);
    lemma_host_tally_cat(list.take(i), seq![list[i]], k);
    lemma_host_tally_cat(list.take(i) + seq![list[i]], list.skip(i + 1), k);
    lemma_host_tally_one(list[i], k);
}

proof fn lemma_host_tally_update(list: Seq<Host>, i: int, h: Host, k: PanelKind)
    requires
        0 <= i < list.len(),
    ensures
        host_tally(list.update(i, h), k) == host_tally(list, k) - tally(list[i].columns, k) + tally(
            h.columns,
            k,
        ),
{
    assert(list.update(i, h) =~= list.take(i) + seq![h] + list.skip(i + 1));
    assert(list =~= list.take(i) + seq![list[i]] + list.skip(i + 1));
    lemma_host_tally_cat(list.take(i), seq![h], k);
    lemma_host_tally_cat(list.take(i) + seq![h], list.skip(i + 1), k);
    lemma_host_tally_cat(list.take(i), seq![list[i]], k);
    lemma_host_tally_cat(list.take(i) + seq![list[i]], list.skip(i + 1), k);
    lemma_host_tally_one(list[i], k);
    lemma_host_tally_one(h, k);
}

/// The windows have ids of their own, all below `next`.
pub open spec fn distinct_ids(list: Seq<Host>, next: u64) -> bool {
    &&& forall|i: int| 0 <= i < list.len() ==> (#[trigger] list[i]).id < next
    &&& forall|i: int, j: int|
        0 <= i < j < list.len() ==> (#[trigger] list[i]).id != (#[trigger] list[j]).id
}

proof fn lemma_live_hosts(list: Seq<Host>, next: u64, k: PanelKind)
    requires
        distinct_ids(list, next),
        forall|i: int|
            0 <= i < list.len() ==> (#[trigger] list[i]).panels == panels_of(list[i].columns),
        forall|i: int| 0 <= i < list.len() ==> all_solid((#[trigger] list[i]).columns),
    ensures
        distinct_ids(live_hosts(list), next),
        host_tally(live_hosts(list), k) == host_tally(list, k),
        forall|i: int| 0 <= i < live_hosts(list).len() ==> sound_host(#[trigger] live_hosts(list)[i]),
        forall|i: int| 0 <= i < live_hosts(list).len() ==> list.contains(#[trigger] live_hosts(list)[i]),
    decreases list.len(),
{
    if list.len() > 0 {
        let rest = list.drop_first();
        let kept = live_hosts(rest);
        assert forall|i: int| 0 <= i < rest.len() implies (#[trigger] rest[i]).panels == panels_of(
            rest[i].columns,
        ) && all_solid(rest[i].columns) && rest[i].id < next by {
            assert(rest[i] == list[i + 1]);
        }
        assert forall|i: int, j: int| 0 <= i < j < rest.len() implies (#[trigger] rest[i]).id != (
        #[trigger] rest[j]).id by {
            assert(rest[i] == list[i + 1]);
            assert(rest[j] == list[j + 1]);
        }
        lemma_live_hosts(rest, next, k);
        assert(list =~= seq![list[0]] + rest);
        lemma_host_tally_cat(seq![list[0]], rest, k);
        lemma_host_tally_cat(seq![list[0]], kept, k);
        lemma_host_tally_one(list[0], k);
        lemma_panels_of(list[0].columns, k);
        lemma_tally_range(list[0].columns, k);
        assert forall|i: int| 0 <= i < kept.len() implies list.contains(#[trigger] kept[i])
            && kept[i].id != list[0].id && kept[i].id < next by {
            assert(rest.contains(kept[i]));
            let j = choose|j: int| 0 <= j < rest.len() && rest[j] == kept[i];
            assert(list[j + 1] == kept[i]);
        }
        if list[0].empty() {
            if list[0].columns.len() == 0 {
                assert(tally(list[0].columns, k) == 0);
            }
        } else {
            let out = live_hosts(list);
            assert(out =~= seq![list[0]] + kept);
            assert forall|i: int| 0 <= i < out.len() implies sound_host(#[trigger] out[i])
                && list.contains(out[i]) && out[i].id < next by {
                if i == 0 {
                    assert(out[0] == list[0]);
                } else {
                    assert(out[i] == kept[i - 1]);
                }
            }
            assert forall|i: int, j: int| 0 <= i < j < out.len() implies (#[trigger] out[i]).id != (
            #[trigger] out[j]).id by {
                assert(out[j] == kept[j - 1]);
                if i > 0 {
                    assert(out[i] == kept[i - 1]);
                }
            }
        }
    }
}

proof fn lemma_hosts_map_without(list: Seq<Host>, kind: PanelKind, k: PanelKind)
    requires
        forall|i: int| 0 <= i < list.len() ==> sound_host(#[trigger] list[i]),
    ensures
        ({
            let out = list.map_values(|h: Host| h.without(kind));
            &&& k != kind ==> host_tally(out, k) == host_tally(list, k)
            &&& host_tally(list, kind) <= 1 ==> host_tally(out, kind) == 0
        }),
    decreases list.len(),
{
    let out = list.map_values(|h: Host| h.without(kind));
    if list.len() > 0 {
        let rest = list.drop_last();
        assert forall|i: int| 0 <= i < rest.len() implies sound_host(#[trigger] rest[i]) by {
            assert(rest[i] == list[i]);
        }
        lemma_hosts_map_without(rest, kind, k);
        assert(out.drop_last() =~= rest.map_values(|h: Host| h.without(kind)));
        assert(sound_host(list[list.len() - 1]));
        lemma_strips_without(list.last().columns, kind, k);
        lemma_strips_without(list.last().columns, kind, kind);
        lemma_host_tally_range(rest, kind);
        lemma_host_tally_range(out.drop_last(), kind);
        lemma_tally_range(list.last().columns, kind);
    }
}

proof fn lemma_hosts_without(list: Seq<Host>, next: u64, kind: PanelKind, k: PanelKind)
    requires
        forall|i: int| 0 <= i < list.len() ==> sound_host(#[trigger] list[i]),
        distinct_ids(list, next),
    ensures
        ({
            let out = hosts_without(list, kind);
            &&& k != kind ==> host_tally(out, k) == host_tally(list, k)
            &&& host_tally(list, kind) <= 1 ==> host_tally(out, kind) == 0
            &&& distinct_ids(out, next)
            &&& forall|i: int| 0 <= i < out.len() ==> sound_host(#[trigger] out[i])
        }),
{
    let mid = list.map_values(|h: Host| h.without(kind));
    lemma_hosts_map_without(list, kind, k);
    assert forall|i: int| 0 <= i < mid.len() implies (#[trigger] mid[i]).panels == panels_of(
        mid[i].columns,
    ) && all_solid(mid[i].columns) && mid[i].id == list[i].id by {
        assert(sound_host(list[i]));
        lemma_strips_without(list[i].columns, kind, kind);
    }
    lemma_live_hosts(mid, next, k);
    lemma_live_hosts(mid, next, kind);
}

/// Taking a panel out leaves the layout sound, without that panel, and with
/// every other one as often as before.
pub proof fn law_without(a: Arrangement, kind: PanelKind)
    requires
        sound(a),
    ensures
        sound(a.without(kind)),
        total(a.without(kind), kind) == 0,
        forall|k: PanelKind| k != kind ==> #[trigger] total(a.without(kind), k) == total(a, k),
{
    let b = a.without(kind);
    assert forall|k: PanelKind| #[trigger] total(b, k) <= 1 && (k != kind ==> total(b, k) == total(
        a,
        k,
    )) && (k == kind ==> total(b, k) == 0) && all_solid(b.left) && all_solid(b.right) && all_solid(
        b.top,
    ) && all_solid(b.bottom) && distinct_ids(b.hosts, b.next_id) && (forall|i: int|
        0 <= i < b.hosts.len() ==> sound_host(#[trigger] b.hosts[i])) by {
        assert(total(a, k) <= 1 && total(a, kind) <= 1);
        lemma_tally_range(a.left, kind);
        lemma_tally_range(a.right, kind);
        lemma_tally_range(a.top, kind);
        lemma_tally_range(a.bottom, kind);
        lemma_host_tally_range(a.hosts, kind);
        lemma_strips_without(a.left, kind, k);
        lemma_strips_without(a.right, kind, k);
        lemma_strips_without(a.top, kind, k);
        lemma_strips_without(a.bottom, kind, k);
        assert(distinct_ids(a.hosts, a.next_id));
        lemma_hosts_without(a.hosts, a.next_id, kind, k);
    }
    assert(total(b, kind) <= 1);
    reveal(Seq::filter);
    assert(b.floating.len() == 0);
}

/// In a sound layout a panel is visible exactly where it is in some strip or
/// window.
pub proof fn law_shows_is_total(a: Arrangement, k: PanelKind)
    requires
        sound(a),
    ensures
        a.shows(k) <==> total(a, k) == 1,
{
    assert(total(a, k) <= 1);
    lemma_tally_range(a.left, k);
    lemma_tally_range(a.right, k);
    lemma_tally_range(a.top, k);
    lemma_tally_range(a.bottom, k);
    lemma_host_tally_range(a.hosts, k);
    assert forall|i: int| 0 <= i < a.hosts.len() implies (#[trigger] a.hosts[i].holds(k) <==> tally(
        a.hosts[i].columns,
        k,
    ) > 0) by {
        assert(sound_host(a.hosts[i]));
        lemma_tally_range(a.hosts[i].columns, k);
        lemma_panels_of(a.hosts[i].columns, k);
    }
    if exists|i: int| 0 <= i < a.hosts.len() && #[trigger] a.hosts[i].holds(k) {
        let i = choose|i: int| 0 <= i < a.hosts.len() && #[trigger] a.hosts[i].holds(k);
        assert(tally(a.hosts[i].columns, k) > 0);
    }
    if host_tally(a.hosts, k) > 0 {
        let i = choose|i: int| 0 <= i < a.hosts.len() && tally(#[trigger] a.hosts[i].columns, k) > 0;
        assert(a.hosts[i].holds(k));
    }
}

/// Whether `b` has `kind` in one place more than `a`, and every other panel as
/// `a` has it.
pub open spec fn gains(a: Arrangement, b: Arrangement, kind: PanelKind) -> bool {
    forall|k: PanelKind|
        #[trigger] total(b, k) == total(a, k) + if k == kind {
            1int
        } else {
            0
        }
}

/// Whether `b` shows `kind` in one place, and every other panel as `a` does.
pub open spec fn places(a: Arrangement, b: Arrangement, kind: PanelKind) -> bool {
    &&& total(b, kind) == 1
    &&& forall|k: PanelKind| k != kind ==> #[trigger] total(b, k) == total(a, k)
}

proof fn lemma_gains_places(a: Arrangement, mid: Arrangement, b: Arrangement, kind: PanelKind)
    requires
        sound(a),
        mid == a.without(kind),
        gains(mid, b, kind),
    ensures
        places(a, b, kind),
        forall|k: PanelKind| #[trigger] total(b, k) <= 1,
{
    law_without(a, kind);
    assert forall|k: PanelKind| #[trigger] total(b, k) <= 1 by {
        assert(total(mid, k) <= 1);
    }
    assert forall|k: PanelKind| k != kind implies #[trigger] total(b, k) == total(a, k) by {
        assert(total(mid, k) == total(a, k));
    }
}

pub proof fn lemma_fresh(kind: PanelKind, width: i32, k: PanelKind)
    ensures
        solid(Column::fresh(seq![kind], width)),
        times(Column::fresh(seq![kind], width).panels, k) == if k == kind {
            1int
        } else {
            0
        },
{
    lemma_times_one(kind, k);
}

pub proof fn lemma_with(c: Column, kind: PanelKind, index: int, k: PanelKind)
    requires
        0 <= index,
    ensures
        solid(c.with(kind, index)),
        times(c.with(kind, index).panels, k) == times(c.panels, k) + if k == kind {
            1int
        } else {
            0
        },
        c.with(kind, index).panels.contains(kind),
{
    let i = if index <= c.panels.len() {
        index
    } else {
        c.panels.len() as int
    };
    lemma_times_insert(c.panels, i, kind, k);
    assert(c.with(kind, index).panels[i] == kind);
}

/// Replacing the strips of one side changes the totals by what that side
/// gained.
pub proof fn lemma_total_strips(a: Arrangement, side: DockSide, cols: Seq<Column>, k: PanelKind)
    ensures
        total(a.with_strips(side, cols), k) == total(a, k) - tally(a.strips(side), k) + tally(
            cols,
            k,
        ),
{
}

proof fn lemma_sound_strips(a: Arrangement, side: DockSide, cols: Seq<Column>)
    requires
        sound(a),
        all_solid(cols),
        forall|k: PanelKind| #[trigger] total(a.with_strips(side, cols), k) <= 1,
    ensures
        sound(a.with_strips(side, cols)),
{
}

/// A panel put into a docked strip is there and nowhere else, and every other
/// panel stays where it was.
pub proof fn law_inserted(
    a: Arrangement,
    kind: PanelKind,
    side: DockSide,
    column: int,
    index: int,
)
    requires
        sound(a),
        0 <= column,
        0 <= index,
    ensures
        sound(a.inserted(kind, side, column, index)),
        places(a, a.inserted(kind, side, column, index), kind),
        strips_hold(a.inserted(kind, side, column, index).strips(side), kind),
{
    let mid = a.without(kind);
    let b = a.inserted(kind, side, column, index);
    law_without(a, kind);
    let cols = mid.strips(side);
    let now = b.strips(side);
    let c = if column < cols.len() {
        column
    } else {
        cols.len() - 1
    };
    assert(b == mid.with_strips(side, now));
    assert forall|k: PanelKind|
        #[trigger] total(b, k) == total(mid, k) + if k == kind {
            1int
        } else {
            0
        } by {
        lemma_total_strips(mid, side, now, k);
        if cols.len() == 0 {
            lemma_fresh(kind, now[0].width, k);
            lemma_tally_one(now[0], k);
        } else {
            lemma_with(cols[c], kind, index, k);
            lemma_tally_update(cols, c, cols[c].with(kind, index), k);
        }
    }
    assert(all_solid(now)) by {
        if cols.len() == 0 {
            lemma_fresh(kind, now[0].width, kind);
        } else {
            lemma_with(cols[c], kind, index, kind);
        }
    }
    assert(strips_hold(now, kind)) by {
        if cols.len() == 0 {
            assert(now[0].panels[0] == kind);
            assert(now[0].panels.contains(kind));
        } else {
            lemma_with(cols[c], kind, index, kind);
            assert(now[c].panels.contains(kind));
        }
    }
    lemma_gains_places(a, mid, b, kind);
    lemma_sound_strips(mid, side, now);
}

/// A panel put into a new strip is alone in that strip, and every other panel
/// stays where it was.
pub proof fn law_inserted_new(a: Arrangement, kind: PanelKind, side: DockSide, column: int)
    requires
        sound(a),
        0 <= column,
    ensures
        sound(a.inserted_new(kind, side, column)),
        places(a, a.inserted_new(kind, side, column), kind),
        exists|i: int|
            0 <= i < a.inserted_new(kind, side, column).strips(side).len()
                && #[trigger] a.inserted_new(kind, side, column).strips(side)[i].panels == seq![
                kind,
            ],
{
    let mid = a.without(kind);
    let b = a.inserted_new(kind, side, column);
    law_without(a, kind);
    let cols = mid.strips(side);
    let now = b.strips(side);
    let i = if column < cols.len() {
        column
    } else {
        cols.len() as int
    };
    assert(b == mid.with_strips(side, now));
    assert(now[i].panels == seq![kind]);
    assert forall|k: PanelKind|
        #[trigger] total(b, k) == total(mid, k) + if k == kind {
            1int
        } else {
            0
        } by {
        lemma_total_strips(mid, side, now, k);
        lemma_fresh(kind, now[i].width, k);
        lemma_tally_insert(cols, i, now[i], k);
    }
    lemma_fresh(kind, now[i].width, kind);
    assert(all_solid(now)) by {
        assert forall|j: int| 0 <= j < now.len() implies solid(#[trigger] now[j]) by {
            if j < i {
                assert(now[j] == cols[j]);
            } else if j > i {
                assert(now[j] == cols[j - 1]);
            }
        }
    }
    lemma_gains_places(a, mid, b, kind);
    lemma_sound_strips(mid, side, now);
}

/// A hidden panel is not visible and is remembered as hidden; every other
/// panel stays where it was.
pub proof fn law_concealed(a: Arrangement, kind: PanelKind)
    requires
        sound(a),
    ensures
        sound(a.concealed(kind)),
        !a.concealed(kind).shows(kind),
        a.concealed(kind).hidden.contains(kind),
        forall|k: PanelKind| k != kind ==> #[trigger] total(a.concealed(kind), k) == total(a, k),
{
    let mid = a.without(kind);
    let b = a.concealed(kind);
    law_without(a, kind);
    assert forall|k: PanelKind| #[trigger] total(b, k) == total(mid, k) by {}
    assert(total(b, kind) == total(mid, kind));
    law_shows_is_total(b, kind);
    assert(b.hidden[b.hidden.len() - 1] == kind);
    assert forall|k: PanelKind| k != kind implies #[trigger] total(b, k) == total(a, k) by {
        assert(total(mid, k) == total(a, k));
    }
}

/// A shown panel is visible and not hidden; every other panel stays where it
/// was. A panel that is visible already stays where it is.
pub proof fn law_shown(a: Arrangement, kind: PanelKind)
    requires
        sound(a),
    ensures
        sound(a.shown(kind)),
        a.shown(kind).shows(kind),
        a.shows(kind) ==> a.shown(kind) == a,
        !a.shows(kind) ==> !a.shown(kind).hidden.contains(kind),
        forall|k: PanelKind| k != kind ==> #[trigger] total(a.shown(kind), k) == total(a, k),
{
    law_shows_is_total(a, kind);
    if !a.shows(kind) {
        let b = a.shown(kind);
        let side = if kind is Navigator || kind is Layers {
            DockSide::Right
        } else {
            DockSide::Left
        };
        let width: i32 = if kind is Navigator || kind is Layers {
            260_000
        } else {
            270_000
        };
        let mid = Arrangement { hidden: panels_without(a.hidden, kind), ..a };
        let cols = a.strips(side);
        let now = b.strips(side);
        assert(now == Arrangement::appended(cols, kind, width));
        assert(b == mid.with_strips(side, now));
        assert(total(a, kind) <= 1);
        lemma_tally_range(a.left, kind);
        lemma_tally_range(a.right, kind);
        lemma_tally_range(a.top, kind);
        lemma_tally_range(a.bottom, kind);
        lemma_host_tally_range(a.hosts, kind);
        assert(total(a, kind) == 0);
        assert forall|k: PanelKind|
            #[trigger] total(b, k) == total(a, k) + if k == kind {
                1int
            } else {
                0
            } by {
            assert(total(mid, k) == total(a, k));
            lemma_total_strips(mid, side, now, k);
            if cols.len() == 0 {
                lemma_fresh(kind, width, k);
                lemma_tally_one(now[0], k);
                assert(now =~= seq![now[0]]);
            } else {
                lemma_tally_update(cols, 0, now[0], k);
                lemma_times_cat(cols[0].panels, seq![kind], k);
                lemma_times_one(kind, k);
                assert(cols[0].panels.push(kind) =~= cols[0].panels + seq![kind]);
            }
        }
        assert forall|k: PanelKind| #[trigger] total(b, k) <= 1 by {
            assert(total(a, k) <= 1);
        }
        assert(all_solid(now));
        assert(sound(mid)) by {
            assert forall|k: PanelKind| #[trigger] total(mid, k) <= 1 by {
                assert(total(a, k) <= 1);
            }
        }
        lemma_sound_strips(mid, side, now);
        law_shows_is_total(b, kind);
        assert(!panels_without(a.hidden, kind).contains(kind)) by {
            lemma_panels_without(a.hidden, kind);
        }
    }
}

pub proof fn lemma_panels_without(list: Seq<PanelKind>, kind: PanelKind)
    ensures
        !panels_without(list, kind).contains(kind),
    decreases list.len(),
{
    reveal(Seq::filter);
    if list.len() > 0 {
        lemma_panels_without(list.drop_last(), kind);
        let rest = panels_without(list.drop_last(), kind);
        if list.last() != kind {
            assert forall|j: int| 0 <= j < rest.push(list.last()).len() implies rest.push(
                list.last(),
            )[j] != kind by {
                if j < rest.len() {
                    assert(rest[j] == rest.push(list.last())[j]);
                    assert(rest.contains(rest[j]));
                }
            }
        }
    }
}

/// A panel that floats has a new window of its own, and every other panel
/// stays where it was.
pub proof fn law_undocked(a: Arrangement, kind: PanelKind, pos: Point, size: Point)
    requires
        sound(a),
        a.next_id < u64::MAX,
    ensures
        sound(a.undocked(kind, pos, size)),
        places(a, a.undocked(kind, pos, size), kind),
        a.undocked(kind, pos, size).hosts.last() == Host::fresh(a.free_id(), kind, pos, size),
{
    let mid = a.without(kind);
    let b = a.undocked(kind, pos, size);
    let h = Host::fresh(a.free_id(), kind, pos, size);
    law_without(a, kind);
    assert forall|k: PanelKind|
        #[trigger] total(b, k) == total(mid, k) + if k == kind {
            1int
        } else {
            0
        } by {
        assert(b.hosts.drop_last() =~= mid.hosts);
        lemma_tally_one(h.columns[0], k);
        lemma_fresh(kind, h.columns[0].width, k);
    }
    lemma_gains_places(a, mid, b, kind);
    assert(sound_host(h)) by {
        lemma_fresh(kind, h.columns[0].width, kind);
        assert(h.columns.drop_last() =~= Seq::empty());
        reveal_with_fuel(panels_of, 2);
        assert(panels_of(h.columns) =~= seq![kind]);
    }
}

proof fn lemma_host_place(list: Seq<Host>, id: u64)
    ensures
        0 <= host_place(list, id) <= list.len(),
        host_place(list, id) < list.len() ==> list[host_place(list, id)].id == id,
    decreases list.len(),
{
    if list.len() > 0 {
        lemma_host_place(list.drop_first(), id);
    }
}

proof fn lemma_host_swap(mid: Arrangement, i: int, h: Host, kind: PanelKind)
    requires
        sound(mid),
        0 <= i < mid.hosts.len(),
        sound_host(h),
        h.id == mid.hosts[i].id,
        forall|k: PanelKind|
            #[trigger] tally(h.columns, k) == tally(mid.hosts[i].columns, k) + if k == kind {
                1int
            } else {
                0
            },
        total(mid, kind) == 0,
    ensures
        sound(Arrangement { hosts: mid.hosts.update(i, h), ..mid }),
        gains(mid, Arrangement { hosts: mid.hosts.update(i, h), ..mid }, kind),
{
    let b = Arrangement { hosts: mid.hosts.update(i, h), ..mid };
    assert forall|k: PanelKind|
        #[trigger] total(b, k) == total(mid, k) + if k == kind {
            1int
        } else {
            0
        } by {
        lemma_host_tally_update(mid.hosts, i, h, k);
        assert(tally(h.columns, k) == tally(mid.hosts[i].columns, k) + if k == kind {
            1int
        } else {
            0
        });
    }
    assert forall|k: PanelKind| #[trigger] total(b, k) <= 1 by {
        assert(total(mid, k) <= 1);
    }
}

/// A panel that joins a detached window is there and nowhere else, and every
/// other panel stays where it was.
pub proof fn law_joined(a: Arrangement, kind: PanelKind, host_id: u64, column: int, index: int)
    requires
        sound(a),
        a.next_id < u64::MAX,
        0 <= column,
        0 <= index,
    ensures
        sound(a.joined(kind, host_id, column, index)),
        places(a, a.joined(kind, host_id, column, index), kind),
{
    let mid = a.without(kind);
    law_without(a, kind);
    let i = host_place(mid.hosts, host_id);
    lemma_host_place(mid.hosts, host_id);
    if i < mid.hosts.len() {
        let h = mid.hosts[i];
        let g = h.joined(kind, column, index);
        assert(sound_host(h));
        let c = if column < h.columns.len() {
            column
        } else {
            h.columns.len() - 1
        };
        assert forall|k: PanelKind|
            #[trigger] tally(g.columns, k) == tally(h.columns, k) + if k == kind {
                1int
            } else {
                0
            } by {
            lemma_with(h.columns[c], kind, index, k);
            lemma_tally_update(h.columns, c, h.columns[c].with(kind, index), k);
        }
        assert(all_solid(g.columns)) by {
            lemma_with(h.columns[c], kind, index, kind);
        }
        lemma_host_swap(mid, i, g, kind);
        lemma_gains_places(a, mid, a.joined(kind, host_id, column, index), kind);
    } else {
        law_undocked(mid, kind, fallback_pos(), float_size());
        let b = a.joined(kind, host_id, column, index);
        assert forall|k: PanelKind| k != kind implies #[trigger] total(b, k) == total(a, k) by {
            assert(total(mid, k) == total(a, k));
        }
    }
}

/// A panel that gets a new column of a detached window is there and nowhere
/// else, and every other panel stays where it was.
pub proof fn law_joined_new(a: Arrangement, kind: PanelKind, host_id: u64, column: int)
    requires
        sound(a),
        a.next_id < u64::MAX,
        0 <= column,
    ensures
        sound(a.joined_new(kind, host_id, column)),
        places(a, a.joined_new(kind, host_id, column), kind),
{
    let mid = a.without(kind);
    law_without(a, kind);
    let i = host_place(mid.hosts, host_id);
    lemma_host_place(mid.hosts, host_id);
    if i < mid.hosts.len() {
        let h = mid.hosts[i];
        let g = h.joined_new(kind, column);
        assert(sound_host(h));
        let c = if column < h.columns.len() {
            column
        } else {
            h.columns.len() as int
        };
        assert forall|k: PanelKind|
            #[trigger] tally(g.columns, k) == tally(h.columns, k) + if k == kind {
                1int
            } else {
                0
            } by {
            lemma_fresh(kind, g.columns[c].width, k);
            lemma_tally_insert(h.columns, c, g.columns[c], k);
        }
        lemma_fresh(kind, g.columns[c].width, kind);
        assert(all_solid(g.columns)) by {
            assert forall|j: int| 0 <= j < g.columns.len() implies solid(#[trigger] g.columns[j]) by {
                if j < c {
                    assert(g.columns[j] == h.columns[j]);
                } else if j > c {
                    assert(g.columns[j] == h.columns[j - 1]);
                }
            }
        }
        lemma_host_swap(mid, i, g, kind);
        lemma_gains_places(a, mid, a.joined_new(kind, host_id, column), kind);
    } else {
        law_undocked(mid, kind, fallback_pos(), float_size());
        let b = a.joined_new(kind, host_id, column);
        assert forall|k: PanelKind| k != kind implies #[trigger] total(b, k) == total(a, k) by {
            assert(total(mid, k) == total(a, k));
        }
    }
}

/// Moving a whole strip keeps the layout sound and every panel as often as it
/// was.
pub proof fn law_column_moved(
    a: Arrangement,
    side: DockSide,
    column: int,
    to_side: DockSide,
    to_index: int,
)
    requires
        sound(a),
        0 <= column,
        0 <= to_index,
    ensures
        sound(a.column_moved(side, column, to_side, to_index)),
        forall|k: PanelKind|
            #[trigger] total(a.column_moved(side, column, to_side, to_index), k) == total(a, k),
{
    let from = a.strips(side);
    if column < from.len() {
        let b = a.column_moved(side, column, to_side, to_index);
        let mid = a.with_strips(side, from.remove(column));
        let dest = mid.strips(to_side);
        let i = if to_index < dest.len() {
            to_index
        } else {
            dest.len() as int
        };
        let now = dest.insert(i, from[column]);
        assert forall|k: PanelKind| #[trigger] total(b, k) == total(a, k) && total(mid, k) <= 1 by {
            assert(total(a, k) <= 1);
            lemma_total_strips(a, side, from.remove(column), k);
            lemma_tally_remove(from, column, k);
            lemma_times_range(from[column].panels, k);
            lemma_total_strips(mid, to_side, now, k);
            lemma_tally_insert(dest, i, from[column], k);
        }
        assert forall|k: PanelKind| #[trigger] total(mid, k) <= 1 by {
            assert(total(b, k) == total(a, k));
        }
        assert forall|k: PanelKind| #[trigger] total(b, k) <= 1 by {
            assert(total(a, k) <= 1);
        }
        assert(solid(from[column]));
        assert(all_solid(from.remove(column))) by {
            assert forall|j: int| 0 <= j < from.remove(column).len() implies solid(
                #[trigger] from.remove(column)[j],
            ) by {
                if j < column {
                    assert(from.remove(column)[j] == from[j]);
                } else {
                    assert(from.remove(column)[j] == from[j + 1]);
                }
            }
        }
        lemma_sound_strips(a, side, from.remove(column));
        assert(all_solid(now)) by {
            assert forall|j: int| 0 <= j < now.len() implies solid(#[trigger] now[j]) by {
                if j < i {
                    assert(now[j] == dest[j]);
                } else if j > i {
                    assert(now[j] == dest[j - 1]);
                }
            }
        }
        lemma_sound_strips(mid, to_side, now);
    }
}

/// Docking a detached window keeps the layout sound and every panel as often
/// as it was.
pub proof fn law_host_docked(a: Arrangement, host_id: u64, side: DockSide, column: int)
    requires
        sound(a),
        0 <= column,
    ensures
        sound(a.host_docked(host_id, side, column)),
        forall|k: PanelKind|
            #[trigger] total(a.host_docked(host_id, side, column), k) == total(a, k),
{
    let i = host_place(a.hosts, host_id);
    lemma_host_place(a.hosts, host_id);
    if i < a.hosts.len() {
        let b = a.host_docked(host_id, side, column);
        let h = a.hosts[i];
        let mid = Arrangement { hosts: a.hosts.remove(i), ..a };
        let dest = a.strips(side);
        let at = if column < dest.len() {
            column
        } else {
            dest.len() as int
        };
        assert(sound_host(h));
        let now = dest.take(at) + h.columns + dest.skip(at);
        assert(b == mid.with_strips(side, now));
        assert forall|k: PanelKind| #[trigger] total(b, k) == total(a, k) && total(mid, k) <= 1 by {
            assert(total(a, k) <= 1);
            lemma_host_tally_remove(a.hosts, i, k);
            lemma_tally_range(h.columns, k);
            lemma_total_strips(mid, side, now, k);
            assert(dest =~= dest.take(at) + dest.skip(at));
            lemma_tally_cat(dest.take(at), dest.skip(at), k);
            lemma_tally_cat(dest.take(at), h.columns, k);
            lemma_tally_cat(dest.take(at) + h.columns, dest.skip(at), k);
        }
        assert forall|k: PanelKind| #[trigger] total(mid, k) <= 1 by {
            assert(total(b, k) == total(a, k));
        }
        assert forall|k: PanelKind| #[trigger] total(b, k) <= 1 by {
            assert(total(a, k) <= 1);
        }
        assert(sound(mid)) by {
            assert forall|j: int| 0 <= j < mid.hosts.len() implies sound_host(
                #[trigger] mid.hosts[j],
            ) && mid.hosts[j].id < mid.next_id by {
                if j < i {
                    assert(mid.hosts[j] == a.hosts[j]);
                } else {
                    assert(mid.hosts[j] == a.hosts[j + 1]);
                }
            }
            assert forall|j: int, l: int| 0 <= j < l < mid.hosts.len() implies (
            #[trigger] mid.hosts[j]).id != (#[trigger] mid.hosts[l]).id by {
                let j2 = if j < i {
                    j
                } else {
                    j + 1
                };
                let l2 = if l < i {
                    l
                } else {
                    l + 1
                };
                assert(mid.hosts[j] == a.hosts[j2] && mid.hosts[l] == a.hosts[l2]);
            }
        }
        assert(all_solid(now)) by {
            assert forall|j: int| 0 <= j < now.len() implies solid(#[trigger] now[j]) by {
                if j < at {
                    assert(now[j] == dest[j]);
                } else if j < at + h.columns.len() {
                    assert(now[j] == h.columns[j - at]);
                } else {
                    assert(now[j] == dest[j - h.columns.len()]);
                }
            }
        }
        lemma_sound_strips(mid, side, now);
    }
}

/// The default layout is sound, shows every panel and hides none.
pub proof fn law_default()
    ensures
        sound(default_arrangement()),
        forall|k: PanelKind| #[trigger] default_arrangement().shows(k),
{
    let a = default_arrangement();
    assert forall|k: PanelKind| #[trigger] total(a, k) == 1 by {
        lemma_tally_one(a.left[0], k);
        lemma_tally_one(a.right[0], k);
        let p = a.left[0].panels;
        let q = a.right[0].panels;
        assert(p =~= seq![PanelKind::Color] + seq![PanelKind::Tools] + seq![PanelKind::Brush]);
        assert(q =~= seq![PanelKind::Navigator] + seq![PanelKind::Layers]);
        lemma_times_cat(
            seq![PanelKind::Color] + seq![PanelKind::Tools],
            seq![PanelKind::Brush],
            k,
        );
        lemma_times_cat(seq![PanelKind::Color], seq![PanelKind::Tools], k);
        lemma_times_cat(seq![PanelKind::Navigator], seq![PanelKind::Layers], k);
        lemma_times_one(PanelKind::Color, k);
        lemma_times_one(PanelKind::Tools, k);
        lemma_times_one(PanelKind::Brush, k);
        lemma_times_one(PanelKind::Navigator, k);
        lemma_times_one(PanelKind::Layers, k);
    }
    assert(sound(a)) by {
        assert forall|k: PanelKind| #[trigger] total(a, k) <= 1 by {}
    }
    assert forall|k: PanelKind| #[trigger] a.shows(k) by {
        assert(total(a, k) == 1);
        law_shows_is_total(a, k);
    }
}

/// Dragging a splitter moves size between two neighbours: their sum and every
/// other panel's share stay.
pub proof fn law_split_keeps_sum(c: Column, index: int, delta: int)
    requires
        c.splits_at(index),
        c.splittable(index),
    ensures
        ({
            let w = c.settled();
            let v = c.split_moved(index, delta).weights;
            &&& v.len() == w.len()
            &&& v[index] + v[index + 1] == w[index] + w[index + 1]
            &&& v[index] >= MIN_SPLIT
            &&& v[index + 1] >= MIN_SPLIT
            &&& forall|j: int| 0 <= j < w.len() && j != index && j != index + 1 ==> v[j] == w[j]
        }),
{
}

/// Aligning with a guide moves a window by less than the snap distance, or not
/// at all, and an edge that was drawn ends on the guide.
pub proof fn law_snap_is_near(at: int, len: int, lo: int, hi: int)
    ensures
        drawn(snap_axis(at, len, lo, hi), at),
        snap_axis(at, len, lo, hi) != at ==> ({
            let x = snap_axis(at, len, lo, hi);
            x == lo || x == hi || x + len == lo || x + len == hi
        }),
{
}

/// The inferred monitor starts at a multiple of its size and holds the centre.
pub proof fn law_cell_holds_centre(double: int, unit: int)
    requires
        unit > 0,
    ensures
        2 * cell_start(double, unit) <= double < 2 * (cell_start(double, unit) + unit),
        cell_start(double, unit) % unit == 0,
{
    let q = double / (2 * unit);
    assert(q * (2 * unit) <= double < (q + 1) * (2 * unit)) by (nonlinear_arith)
        requires
            unit > 0,
            q == double / (2 * unit),
    ;
    assert(2 * (q * unit) == q * (2 * unit) && (q + 1) * (2 * unit) == 2 * (q * unit + unit))
        by (nonlinear_arith);
    assert((q * unit) % unit == 0) by (nonlinear_arith)
        requires
            unit > 0,
    ;
}

proof fn lemma_balanced_is_settled(c: Column)
    requires
        c.balanced(),
    ensures
        c.synced() == c,
{
    assert(c.fitted() =~= c.weights);
    if c.panels.len() > 0 {
        assert(c.fitted()[0] > DEAD_WEIGHT);
    }
    assert(c.settled() =~= c.weights);
}

proof fn lemma_synced_balanced(c: Column)
    ensures
        c.synced().balanced(),
{
}

pub proof fn lemma_live_all(cols: Seq<Column>)
    requires
        forall|i: int| 0 <= i < cols.len() ==> (#[trigger] cols[i]).panels.len() > 0,
    ensures
        live(cols) == cols,
    decreases cols.len(),
{
    if cols.len() > 0 {
        let rest = cols.drop_first();
        assert forall|i: int| 0 <= i < rest.len() implies (#[trigger] rest[i]).panels.len() > 0 by {
            assert(rest[i] == cols[i + 1]);
        }
        lemma_live_all(rest);
        assert(seq![cols[0]] + rest =~= cols);
    }
}

proof fn lemma_fit_strips_twice(cols: Seq<Column>, side: DockSide)
    ensures
        fit_strips(fit_strips(cols, side), side) == fit_strips(cols, side),
        all_solid(fit_strips(cols, side)),
{
    let once = fit_strips(cols, side);
    lemma_live(cols, PanelKind::Color);
    assert forall|i: int| 0 <= i < once.len() implies (#[trigger] once[i]).panels.len() > 0
        && solid(once[i]) && fit_column(once[i]).panels == once[i].panels by {
        assert(live(cols)[i].panels.len() > 0);
    }
    lemma_live_all(once);
    assert(fit_strips(once, side) =~= once) by {
        assert forall|i: int| 0 <= i < once.len() implies fit_strips(once, side)[i] == once[i] by {
            let c = live(cols)[i];
            lemma_synced_balanced(c);
            lemma_balanced_is_settled(once[i]);
            if side.vertical() {
                assert(fit_column(once[i]) == once[i]);
            } else {
                assert(fit_row(once[i]) == once[i]);
            }
        }
    }
}

proof fn lemma_fit_host_twice(h: Host)
    ensures
        fit_host(fit_host(h)) == fit_host(h),
        fit_host(h).id == h.id,
{
    let g = fit_host(h);
    let e = h.ensured();
    assert forall|i: int| 0 <= i < g.columns.len() implies (#[trigger] g.columns[i]).synced()
        == g.columns[i] by {
        assert(g.columns[i] == e.columns[i].synced());
        lemma_synced_balanced(e.columns[i]);
        lemma_balanced_is_settled(g.columns[i]);
    }
    if g.columns.len() == 0 {
        assert(g.panels =~= Seq::empty());
    }
    assert(g.ensured() == g);
    assert(g.columns.map_values(|c: Column| c.synced()) =~= g.columns);
}

proof fn lemma_id_above(list: Seq<Host>, next: u64)
    requires
        forall|i: int| 0 <= i < list.len() ==> (#[trigger] list[i]).id < u64::MAX,
    ensures
        id_above(list, next) >= next,
        forall|i: int| 0 <= i < list.len() ==> (#[trigger] list[i]).id < id_above(list, next),
        (forall|i: int| 0 <= i < list.len() ==> (#[trigger] list[i]).id < next) ==> id_above(
            list,
            next,
        ) == next,
    decreases list.len(),
{
    if list.len() > 0 {
        let rest = list.drop_last();
        assert forall|i: int| 0 <= i < rest.len() implies (#[trigger] rest[i]).id < u64::MAX by {
            assert(rest[i] == list[i]);
        }
        lemma_id_above(rest, next);
        assert forall|i: int| 0 <= i < list.len() implies (#[trigger] list[i]).id < id_above(
            list,
            next,
        ) by {
            if i < rest.len() {
                assert(rest[i] == list[i]);
            }
        }
        if forall|i: int| 0 <= i < list.len() ==> (#[trigger] list[i]).id < next {
            assert forall|i: int| 0 <= i < rest.len() implies (#[trigger] rest[i]).id < next by {
                assert(rest[i] == list[i]);
            }
            assert(list[list.len() - 1].id < next);
        }
    }
}

/// Putting a stored layout in order leaves nothing to put in order, and the
/// next id is above every window's.
pub proof fn law_sanitized(a: Arrangement)
    requires
        ids_fit(a),
    ensures
        sanitized(sanitized(a)) == sanitized(a),
        all_solid(sanitized(a).left),
        all_solid(sanitized(a).right),
        all_solid(sanitized(a).top),
        all_solid(sanitized(a).bottom),
        forall|i: int|
            0 <= i < sanitized(a).hosts.len() ==> (#[trigger] sanitized(a).hosts[i]).id
                < sanitized(a).next_id,
        sanitized(a).next_id > 0,
{
    let b = sanitized(a);
    lemma_fit_strips_twice(a.left, DockSide::Left);
    lemma_fit_strips_twice(a.right, DockSide::Right);
    lemma_fit_strips_twice(a.top, DockSide::Top);
    lemma_fit_strips_twice(a.bottom, DockSide::Bottom);
    let (list, next) = migrated(a, a.floating.len());
    lemma_migrated_ids(a, a.floating.len());
    assert forall|i: int| 0 <= i < b.hosts.len() implies fit_host(#[trigger] b.hosts[i])
        == b.hosts[i] && b.hosts[i].id == list[i].id by {
        lemma_fit_host_twice(list[i]);
    }
    lemma_id_above(list, next);
    assert(b.hosts.map_values(|h: Host| fit_host(h)) =~= b.hosts);
    lemma_id_above(b.hosts, b.next_id);
}

} // verus!
