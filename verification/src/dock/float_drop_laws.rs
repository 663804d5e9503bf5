//! Where a panel lands for a pointer over detached windows, and over nothing.
use vstd::prelude::*;
use crate::dock::column::{DockSide, PanelKind};
use crate::dock::drop::{first_hit, float_column_hit, float_rail_hit, float_slot_hit};
use crate::dock::drop_laws::{in_outer_zone, lemma_first_hit, lemma_kept, off_rails, over};
use crate::dock::geometry::{Point, Rect};
use crate::dock::host::{Host, panels_of, strips_without};
use crate::dock::layout::{
    DockLayout, DragSession, DropTarget, host_place, hosts_without, live_hosts,
};

verus! {

/// Whether a pointer on the screen is away from the main window.
pub open spec fn off_main(d: DockLayout, screen: Point) -> bool {
    d.main_outer matches Some(r) ==> !over(r, screen, 12_000, 12_000)
}

/// Whether a pointer is in none of the zones of a window's column, or the window
/// is left out.
pub open spec fn off_float_rails(e: (u64, usize, Rect), screen: Point, skip: Option<u64>) -> bool {
    skip == Some(e.0) || off_rails((DockSide::Left, e.1, e.2), screen)
}

/// Whether a pointer is over no panel of a window, or the window is left out.
pub open spec fn off_float_panel(
    e: (u64, usize, usize, Rect),
    screen: Point,
    skip: Option<u64>,
) -> bool {
    skip == Some(e.0) || !over(e.3, screen, 8_000, 4_000)
}

/// Whether the `k`th measured panel of the windows is the first that a pointer
/// is over, in none of the zones where a new column is made.
pub open spec fn over_float_panel(d: DockLayout, screen: Point, skip: Option<u64>, k: int) -> bool {
    &&& off_main(d, screen)
    &&& forall|i: int|
        0 <= i < d.float_column_rects@.len() ==> off_float_rails(
            #[trigger] d.float_column_rects@[i],
            screen,
            skip,
        )
    &&& 0 <= k < d.float_slot_rects@.len()
    &&& !off_float_panel(d.float_slot_rects@[k], screen, skip)
    &&& forall|i: int| 0 <= i < k ==> off_float_panel(#[trigger] d.float_slot_rects@[i], screen, skip)
    &&& d.float_slot_rects@[k].2 < usize::MAX
}

proof fn lemma_off_float_rails(d: DockLayout, screen: Point, skip: Option<u64>)
    requires
        forall|i: int|
            0 <= i < d.float_column_rects@.len() ==> off_float_rails(
                #[trigger] d.float_column_rects@[i],
                screen,
                skip,
            ),
    ensures
        first_hit(d.float_column_rects@, float_rail_hit(screen, skip)) is None,
{
    let list = d.float_column_rects@;
    let f = float_rail_hit(screen, skip);
    assert forall|i: int| 0 <= i < list.len() implies f(#[trigger] list[i]) is None by {
        assert(off_float_rails(list[i], screen, skip));
    }
    lemma_first_hit(list, f, list.len() as int);
}

/// A pointer over a panel of a window: the dragged panel would come to that
/// column, to the place of the panel under the pointer where the pointer is in
/// its upper half, else to the place behind it.
pub proof fn law_over_float_panel(d: DockLayout, screen: Point, skip: Option<u64>, k: int)
    requires
        over_float_panel(d, screen, skip, k),
    ensures
        ({
            let (host_id, column, i, r) = d.float_slot_rects@[k];
            let target = d.landing(screen, skip);
            &&& screen.y - r.top < r.bottom - screen.y ==> target == (DropTarget::JoinInsert {
                host_id,
                column,
                index: i,
            })
            &&& screen.y - r.top >= r.bottom - screen.y ==> target == (DropTarget::JoinInsert {
                host_id,
                column,
                index: (i + 1) as usize,
            })
        }),
{
    lemma_off_float_rails(d, screen, skip);
    let list = d.float_slot_rects@;
    let f = float_slot_hit(screen, skip);
    assert forall|i: int| 0 <= i < k implies f(#[trigger] list[i]) is None by {
        assert(off_float_panel(list[i], screen, skip));
    }
    lemma_first_hit(list, f, k);
}

/// Whether the windows have their panels in columns, none without panels, and
/// none shows `kind`.
pub open spec fn windows_without(list: Seq<Host>, kind: PanelKind) -> bool {
    &&& forall|i: int| 0 <= i < list.len() ==> (#[trigger] list[i]).columns.len() > 0
    &&& forall|i: int, c: int|
        0 <= i < list.len() && 0 <= c < list[i].columns.len() ==> (
        #[trigger] list[i].columns[c]).panels.len() > 0 && !list[i].columns[c].panels.contains(kind)
}

proof fn lemma_place_kept(a: Seq<Host>, b: Seq<Host>, id: u64)
    requires
        a.len() == b.len(),
        forall|i: int| 0 <= i < a.len() ==> (#[trigger] a[i]).id == b[i].id,
    ensures
        host_place(a, id) == host_place(b, id),
        0 <= host_place(a, id) <= a.len(),
        host_place(a, id) < a.len() ==> a[host_place(a, id)].id == id,
    decreases a.len(),
{
    if a.len() > 0 {
        let (ar, br) = (a.drop_first(), b.drop_first());
        assert forall|i: int| 0 <= i < ar.len() implies (#[trigger] ar[i]).id == br[i].id by {
            assert(a[i + 1].id == b[i + 1].id);
        }
        lemma_place_kept(ar, br, id);
        assert(a[0].id == b[0].id);
    }
}

proof fn lemma_live_hosts_all(list: Seq<Host>)
    requires
        forall|i: int| 0 <= i < list.len() ==> !(#[trigger] list[i]).empty(),
    ensures
        live_hosts(list) == list,
    decreases list.len(),
{
    if list.len() > 0 {
        let rest = list.drop_first();
        assert forall|i: int| 0 <= i < rest.len() implies !(#[trigger] rest[i]).empty() by {
            assert(rest[i] == list[i + 1]);
        }
        lemma_live_hosts_all(rest);
        assert(list =~= seq![list[0]] + rest);
    }
}

/// Windows that do not show a panel stay as they are when it is taken out.
proof fn lemma_windows_kept(list: Seq<Host>, kind: PanelKind)
    requires
        windows_without(list, kind),
    ensures
        ({
            let out = hosts_without(list, kind);
            &&& out.len() == list.len()
            &&& forall|i: int|
                0 <= i < list.len() ==> (#[trigger] out[i]).id == list[i].id && out[i].pos
                    == list[i].pos && out[i].size == list[i].size && out[i].columns.len()
                    == list[i].columns.len()
            &&& forall|i: int, c: int|
                0 <= i < list.len() && 0 <= c < list[i].columns.len() ==> (
                #[trigger] out[i].columns[c]).panels == list[i].columns[c].panels
        }),
{
    let mid = list.map_values(|h: Host| h.without(kind));
    assert forall|i: int| 0 <= i < mid.len() implies {
        &&& !(#[trigger] mid[i]).empty()
        &&& mid[i].columns.len() == list[i].columns.len()
        &&& mid[i].id == list[i].id
        &&& mid[i].pos == list[i].pos
        &&& mid[i].size == list[i].size
        &&& forall|c: int|
            0 <= c < list[i].columns.len() ==> (#[trigger] mid[i].columns[c]).panels
                == list[i].columns[c].panels
    } by {
        let cols = list[i].columns;
        assert forall|c: int| 0 <= c < cols.len() implies (#[trigger] cols[c]).panels.len() > 0
            && !cols[c].panels.contains(kind) by {
            assert(list[i].columns[c].panels.len() > 0);
        }
        lemma_kept(cols, kind, 0, -1);
        let out = strips_without(cols, kind);
        assert(mid[i].columns == out);
        let last = out.len() - 1;
        assert(out[last].panels == cols[last].panels);
        assert(panels_of(out).len() >= out.last().panels.len());
    }
    lemma_live_hosts_all(mid);
}

/// A panel from elsewhere that is let go over a panel of a window stands next to
/// it in that column: before it from the upper half, behind it from the lower.
pub proof fn law_dropped_beside_float_panel(
    d: DockLayout,
    drag: DragSession,
    screen: Point,
    skip: Option<u64>,
    k: int,
)
    requires
        over_float_panel(d, screen, skip, k),
        windows_without(d@.hosts, drag.kind),
        ({
            let (host_id, column, i, r) = d.float_slot_rects@[k];
            let h = host_place(d@.hosts, host_id);
            &&& h < d@.hosts.len()
            &&& column < d@.hosts[h].columns.len()
            &&& i < d@.hosts[h].columns[column as int].panels.len()
        }),
    ensures
        ({
            let (host_id, column, i, r) = d.float_slot_rects@[k];
            let h = host_place(d@.hosts, host_id);
            let b = d.dropped(drag, d.landing(screen, skip));
            let there = d@.hosts[h].columns[column as int].panels;
            let now = b.hosts[h].columns[column as int].panels;
            &&& b.hosts.len() == d@.hosts.len()
            &&& b.hosts[h].id == host_id
            &&& screen.y - r.top < r.bottom - screen.y ==> now == there.insert(i as int, drag.kind)
            &&& screen.y - r.top >= r.bottom - screen.y ==> now == there.insert(i + 1, drag.kind)
        }),
{
    let (host_id, column, i, r) = d.float_slot_rects@[k];
    law_over_float_panel(d, screen, skip, k);
    let a = d@.without(drag.kind);
    lemma_windows_kept(d@.hosts, drag.kind);
    lemma_place_kept(d@.hosts, a.hosts, host_id);
    let h = host_place(d@.hosts, host_id);
    assert(a.hosts[h].columns[column as int].panels == d@.hosts[h].columns[column as int].panels);
}

/// Whether the `k`th measured column of the windows is the first whose zones a
/// pointer is in.
pub open spec fn over_float_rail(d: DockLayout, screen: Point, skip: Option<u64>, k: int) -> bool {
    &&& off_main(d, screen)
    &&& 0 <= k < d.float_column_rects@.len()
    &&& !off_float_rails(d.float_column_rects@[k], screen, skip)
    &&& forall|i: int|
        0 <= i < k ==> off_float_rails(#[trigger] d.float_column_rects@[i], screen, skip)
    &&& d.float_column_rects@[k].1 < usize::MAX
}

/// A panel from elsewhere that is let go at the left of a window's column comes
/// to a new column before it, and at the right to one behind it.
pub proof fn law_dropped_beside_float_column(
    d: DockLayout,
    drag: DragSession,
    screen: Point,
    skip: Option<u64>,
    k: int,
)
    requires
        over_float_rail(d, screen, skip, k),
        windows_without(d@.hosts, drag.kind),
        ({
            let (host_id, column, r) = d.float_column_rects@[k];
            let h = host_place(d@.hosts, host_id);
            h < d@.hosts.len() && column < d@.hosts[h].columns.len()
        }),
    ensures
        ({
            let (host_id, column, r) = d.float_column_rects@[k];
            let c = column as int;
            let h = host_place(d@.hosts, host_id);
            let b = d.dropped(drag, d.landing(screen, skip));
            let there = d@.hosts[h].columns;
            let now = b.hosts[h].columns;
            let at_left = in_outer_zone(DockSide::Left, r, screen);
            &&& b.hosts.len() == d@.hosts.len()
            &&& b.hosts[h].id == host_id
            &&& now.len() == there.len() + 1
            &&& at_left ==> now[c].panels == seq![drag.kind] && now[c + 1].panels == there[c].panels
            &&& !at_left ==> now[c].panels == there[c].panels && now[c + 1].panels == seq![drag.kind]
        }),
{
    let (host_id, column, r) = d.float_column_rects@[k];
    let list = d.float_column_rects@;
    let f = float_rail_hit(screen, skip);
    assert forall|i: int| 0 <= i < k implies f(#[trigger] list[i]) is None by {
        assert(off_float_rails(list[i], screen, skip));
    }
    assert(f(list[k]) is Some);
    lemma_first_hit(list, f, k);
    let a = d@.without(drag.kind);
    lemma_windows_kept(d@.hosts, drag.kind);
    lemma_place_kept(d@.hosts, a.hosts, host_id);
    let h = host_place(d@.hosts, host_id);
    assert(a.hosts[h].columns[column as int].panels == d@.hosts[h].columns[column as int].panels);
}

/// Whether a pointer on the screen is over nothing that takes a panel.
pub open spec fn over_nothing(d: DockLayout, screen: Point, skip: Option<u64>) -> bool {
    &&& off_main(d, screen)
    &&& forall|i: int|
        0 <= i < d.float_column_rects@.len() ==> skip == Some((#[trigger] d.float_column_rects@[i]).0)
            || !over(d.float_column_rects@[i].2, screen, 8_000, 8_000)
    &&& forall|i: int|
        0 <= i < d.float_slot_rects@.len() ==> off_float_panel(
            #[trigger] d.float_slot_rects@[i],
            screen,
            skip,
        )
}

/// Over nothing a panel that was docked gets a window of its own, the last one,
/// with nothing but that panel in it, and 40 points left of and 12 above the
/// pointer.
pub proof fn law_dropped_over_nothing(
    d: DockLayout,
    drag: DragSession,
    screen: Point,
    skip: Option<u64>,
)
    requires
        over_nothing(d, screen, skip),
        d.last_pointer_screen == Some(screen),
        drag.from_host is None,
        windows_without(d@.hosts, drag.kind),
        forall|i: int| 0 <= i < d@.hosts.len() ==> !(#[trigger] d@.hosts[i]).panels.contains(drag.kind),
        -2_000_000_000 <= screen.x,
        -2_000_000_000 <= screen.y,
    ensures
        d.landing(screen, skip) is Float,
        ({
            let b = d.dropped(drag, d.landing(screen, skip));
            let w = b.hosts.last();
            &&& b.hosts.len() == d@.hosts.len() + 1
            &&& w.panels == seq![drag.kind]
            &&& w.columns.len() == 1
            &&& w.columns[0].panels == seq![drag.kind]
            &&& w.pos.x == screen.x - 40_000
            &&& w.pos.y == screen.y - 12_000
            &&& d@.next_id > 0 ==> w.id == d@.next_id
        }),
{
    let list = d.float_column_rects@;
    let slots = d.float_slot_rects@;
    assert forall|i: int| 0 <= i < list.len() implies off_float_rails(
        #[trigger] list[i],
        screen,
        skip,
    ) by {}
    lemma_off_float_rails(d, screen, skip);
    let f = float_slot_hit(screen, skip);
    assert forall|i: int| 0 <= i < slots.len() implies f(#[trigger] slots[i]) is None by {
        assert(off_float_panel(slots[i], screen, skip));
    }
    lemma_first_hit(slots, f, slots.len() as int);
    let g = float_column_hit(d@, screen, skip);
    assert forall|i: int| 0 <= i < list.len() implies g(#[trigger] list[i]) is None by {}
    lemma_first_hit(list, g, list.len() as int);
    lemma_windows_kept(d@.hosts, drag.kind);
    assert forall|i: int| 0 <= i < d@.hosts.len() implies !(#[trigger] d@.hosts[i].holds(drag.kind)) by {
        assert(!d@.hosts[i].panels.contains(drag.kind));
    }
}

} // verus!
