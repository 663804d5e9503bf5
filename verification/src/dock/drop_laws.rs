//! Where a panel lands for each place that a pointer can be at, and what the
//! layout looks like after it was let go there.
use vstd::prelude::*;
use crate::dock::column::{Column, DockSide, PanelKind, lemma_first_place};
use crate::dock::drop::{edge_hit, first_hit, rail_hit, slot_hit, strip_hit};
use crate::dock::geometry::{Point, Rect};
use crate::dock::host::strips_without;
use crate::dock::laws::lemma_live_all;
use crate::dock::layout::{Arrangement, DockLayout, DragSession, DropTarget};

verus! {

/// Whether a pointer is over a rectangle or at most so far beside and above or
/// below it.
pub open spec fn over(r: Rect, p: Point, beside: int, above: int) -> bool {
    &&& r.left - beside <= p.x && p.x <= r.right + beside
    &&& r.top - above <= p.y && p.y <= r.bottom + above
}

/// Whether a pointer is outside of the zones along the edges of the content
/// area, which are 36 points wide; a content area of at most 80 points has none.
pub open spec fn off_edges(content: Rect, p: Point) -> bool {
    ||| content.right - content.left <= 80_000
    ||| content.bottom - content.top <= 80_000
    ||| {
        &&& content.top <= p.y <= content.bottom ==> content.left + 36_000 < p.x < content.right
            - 36_000
        &&& content.left <= p.x <= content.right ==> content.top + 36_000 < p.y < content.bottom
            - 36_000
    }
}

/// Whether a distance from an edge is beyond the zone along it: beyond 40
/// points, or beyond both 14 points and 22 hundredths of the extent.
pub open spec fn beyond_zone(distance: int, extent: int) -> bool {
    distance > 40_000 || (distance > 14_000 && 100 * distance > 22 * extent)
}

/// Whether a pointer is in the zone along the outer edge of a strip, the one
/// that is nearer to the edge of the window.
pub open spec fn in_outer_zone(side: DockSide, r: Rect, p: Point) -> bool {
    match side {
        DockSide::Left => !beyond_zone(p.x - r.left, r.right - r.left),
        DockSide::Right => !beyond_zone(r.right - p.x, r.right - r.left),
        DockSide::Top => !beyond_zone(p.y - r.top, r.bottom - r.top),
        DockSide::Bottom => !beyond_zone(r.bottom - p.y, r.bottom - r.top),
    }
}

/// Whether a pointer is in the zone along the inner edge of a strip.
pub open spec fn in_inner_zone(side: DockSide, r: Rect, p: Point) -> bool {
    match side {
        DockSide::Left => !beyond_zone(r.right - p.x, r.right - r.left),
        DockSide::Right => !beyond_zone(p.x - r.left, r.right - r.left),
        DockSide::Top => !beyond_zone(r.bottom - p.y, r.bottom - r.top),
        DockSide::Bottom => !beyond_zone(p.y - r.top, r.bottom - r.top),
    }
}

/// Whether a pointer is outside of both zones of a strip.
pub open spec fn off_rails(e: (DockSide, usize, Rect), p: Point) -> bool {
    !over(e.2, p, 8_000, 8_000) || (!in_outer_zone(e.0, e.2, p) && !in_inner_zone(e.0, e.2, p))
}

/// Whether a pointer is nearer to a panel's start in its strip than to its end.
pub open spec fn in_near_half(side: DockSide, r: Rect, p: Point) -> bool {
    match side {
        DockSide::Left | DockSide::Right => p.y - r.top < r.bottom - p.y,
        DockSide::Top | DockSide::Bottom => p.x - r.left < r.right - p.x,
    }
}

/// Whether a pointer on the screen is at a place of the main window that is in
/// none of the zones where a new strip is made.
pub open spec fn off_zones(d: DockLayout, screen: Point) -> bool {
    let p = d.in_main(screen);
    &&& d.main_outer is Some
    &&& over(d.main_outer->0, screen, 12_000, 12_000)
    &&& (d.content_rect matches Some(content) ==> off_edges(content, p))
    &&& forall|i: int|
        0 <= i < d.column_rects@.len() ==> off_rails(#[trigger] d.column_rects@[i], p)
}

/// Whether the `k`th measured panel is the first that a pointer is over.
pub open spec fn over_panel(d: DockLayout, screen: Point, k: int) -> bool {
    let p = d.in_main(screen);
    &&& 0 <= k < d.slot_rects@.len()
    &&& over(d.slot_rects@[k].3, p, 8_000, 4_000)
    &&& forall|i: int| 0 <= i < k ==> !over((#[trigger] d.slot_rects@[i]).3, p, 8_000, 4_000)
    &&& d.slot_rects@[k].2 < usize::MAX
}

pub proof fn lemma_first_hit<A>(list: Seq<A>, f: spec_fn(A) -> Option<DropTarget>, k: int)
    requires
        0 <= k <= list.len(),
        forall|i: int| 0 <= i < k ==> f(#[trigger] list[i]) is None,
        k < list.len() ==> f(list[k]) is Some,
    ensures
        k < list.len() ==> first_hit(list, f) == f(list[k]),
        k == list.len() ==> first_hit(list, f) is None,
    decreases list.len(),
{
    if k > 0 {
        let rest = list.drop_first();
        assert(f(list[0]) is None);
        assert forall|i: int| 0 <= i < k - 1 implies f(#[trigger] rest[i]) is None by {
            assert(rest[i] == list[i + 1]);
        }
        lemma_first_hit(rest, f, k - 1);
    }
}

proof fn lemma_off_edges(content: Rect, p: Point)
    requires
        off_edges(content, p),
    ensures
        edge_hit(content, p) is None,
{
}

proof fn lemma_off_rails(d: DockLayout, p: Point)
    requires
        forall|i: int| 0 <= i < d.column_rects@.len() ==> off_rails(#[trigger] d.column_rects@[i], p),
    ensures
        first_hit(d.column_rects@, rail_hit(p)) is None,
{
    let list = d.column_rects@;
    let f = rail_hit(p);
    assert forall|i: int| 0 <= i < list.len() implies f(#[trigger] list[i]) is None by {
        assert(off_rails(list[i], p));
    }
    lemma_first_hit(list, f, list.len() as int);
}

/// A pointer over a docked panel, outside of the zones where a new strip is
/// made: the panel would come to that strip, to the place of the panel under the
/// pointer where the pointer is nearer to its start, else to the place behind it.
pub proof fn law_over_panel(d: DockLayout, screen: Point, skip: Option<u64>, k: int)
    requires
        off_zones(d, screen),
        over_panel(d, screen, k),
    ensures
        ({
            let (side, column, i, r) = d.slot_rects@[k];
            let p = d.in_main(screen);
            let target = d.landing(screen, skip);
            &&& in_near_half(side, r, p) ==> target == (DropTarget::Insert { side, column, index: i })
            &&& !in_near_half(side, r, p) ==> target == (DropTarget::Insert {
                side,
                column,
                index: (i + 1) as usize,
            })
        }),
{
    let p = d.in_main(screen);
    if d.content_rect is Some {
        lemma_off_edges(d.content_rect->0, p);
    }
    lemma_off_rails(d, p);
    let list = d.slot_rects@;
    let f = slot_hit(p);
    assert forall|i: int| 0 <= i < k implies f(#[trigger] list[i]) is None by {
        assert(!over(list[i].3, p, 8_000, 4_000));
    }
    lemma_first_hit(list, f, k);
}

proof fn lemma_cut_clean(c: Column, kind: PanelKind)
    requires
        !c.panels.contains(kind),
    ensures
        c.without(kind).panels == c.panels,
{
    lemma_first_place(c.panels, kind);
}

/// Strips that lose a panel only behind a place of one of them keep what stands
/// up to there.
pub proof fn lemma_kept(cols: Seq<Column>, kind: PanelKind, column: int, i: int)
    requires
        0 <= column < cols.len(),
        -1 <= i < cols[column].panels.len(),
        forall|c: int| 0 <= c < cols.len() ==> (#[trigger] cols[c]).panels.len() > 0,
        forall|c: int|
            0 <= c < cols.len() && c != column ==> !(#[trigger] cols[c]).panels.contains(kind),
        forall|j: int| 0 <= j <= i ==> cols[column].panels[j] != kind,
        i == -1 ==> !cols[column].panels.contains(kind),
    ensures
        ({
            let out = strips_without(cols, kind);
            &&& out.len() == cols.len()
            &&& out[column].panels.len() > i
            &&& forall|j: int| 0 <= j <= i ==> out[column].panels[j] == cols[column].panels[j]
            &&& !cols[column].panels.contains(kind) ==> out[column].panels == cols[column].panels
            &&& forall|c: int|
                0 <= c < cols.len() && c != column ==> (#[trigger] out[c]).panels == cols[c].panels
        }),
{
    let mid = cols.map_values(|c: Column| c.without(kind));
    lemma_first_place(cols[column].panels, kind);
    if !cols[column].panels.contains(kind) {
        lemma_cut_clean(cols[column], kind);
    }
    assert forall|c: int| 0 <= c < mid.len() implies (#[trigger] mid[c]).panels.len() > 0 && (c
        != column ==> mid[c].panels == cols[c].panels) by {
        if c != column {
            lemma_cut_clean(cols[c], kind);
        }
    }
    lemma_live_all(mid);
}

/// Whether a dragged panel stands in no strip of a side but possibly in one of
/// them behind a place; no strip is without panels.
pub open spec fn comes_from_elsewhere(
    cols: Seq<Column>,
    kind: PanelKind,
    column: int,
    i: int,
) -> bool {
    &&& 0 <= column < cols.len()
    &&& 0 <= i < cols[column].panels.len()
    &&& forall|c: int| 0 <= c < cols.len() ==> (#[trigger] cols[c]).panels.len() > 0
    &&& forall|c: int|
        0 <= c < cols.len() && c != column ==> !(#[trigger] cols[c]).panels.contains(kind)
    &&& forall|j: int| 0 <= j <= i ==> cols[column].panels[j] != kind
}

/// A panel that is let go over another one stands next to it: before it where
/// the pointer was in the half nearer to the strip's start, behind it in the
/// other half. What stood before the two stays as it was. The dragged panel
/// comes from elsewhere, or from farther down in the same strip.
#[verifier::spinoff_prover]
#[verifier::rlimit(60)]
pub proof fn law_dropped_beside_panel(
    d: DockLayout,
    drag: DragSession,
    screen: Point,
    skip: Option<u64>,
    k: int,
)
    requires
        off_zones(d, screen),
        over_panel(d, screen, k),
        comes_from_elsewhere(
            d@.strips(d.slot_rects@[k].0),
            drag.kind,
            d.slot_rects@[k].1 as int,
            d.slot_rects@[k].2 as int,
        ),
    ensures
        ({
            let (side, column, i, r) = d.slot_rects@[k];
            let there = d@.strips(side)[column as int].panels;
            let now = d.dropped(drag, d.landing(screen, skip)).strips(side)[column as int].panels;
            &&& in_near_half(side, r, d.in_main(screen)) ==> now[i as int] == drag.kind && now[i + 1]
                == there[i as int]
            &&& !in_near_half(side, r, d.in_main(screen)) ==> now[i as int] == there[i as int]
                && now[i + 1] == drag.kind
            &&& forall|j: int| 0 <= j < i ==> now[j] == there[j]
        }),
{
    let (side, column, i, r) = d.slot_rects@[k];
    law_over_panel(d, screen, skip, k);
    let cols = d@.strips(side);
    lemma_kept(cols, drag.kind, column as int, i as int);
    assert(d@.without(drag.kind).strips(side) == strips_without(cols, drag.kind));
}

/// Near an edge of the content area a panel comes to a new outermost strip of
/// that edge's side, wherever else the pointer is; in a corner the left and the
/// right side go first, and of those the left one.
pub proof fn law_over_edge(d: DockLayout, drag: DragSession, screen: Point, skip: Option<u64>)
    requires
        d.main_outer is Some,
        over(d.main_outer->0, screen, 12_000, 12_000),
        d.content_rect is Some,
        d.content_rect->0.right - d.content_rect->0.left > 80_000,
        d.content_rect->0.bottom - d.content_rect->0.top > 80_000,
    ensures
        ({
            let r = d.content_rect->0;
            let p = d.in_main(screen);
            let target = d.landing(screen, skip);
            let left = p.x - r.left <= 36_000 && r.top <= p.y <= r.bottom;
            let right = r.right - p.x <= 36_000 && r.top <= p.y <= r.bottom;
            let top = p.y - r.top <= 36_000 && r.left <= p.x <= r.right;
            let bottom = r.bottom - p.y <= 36_000 && r.left <= p.x <= r.right;
            &&& left ==> target == (DropTarget::NewColumn { side: DockSide::Left, column: 0 })
            &&& right && !left ==> target == (DropTarget::NewColumn {
                side: DockSide::Right,
                column: 0,
            })
            &&& top && !left && !right ==> target == (DropTarget::NewColumn {
                side: DockSide::Top,
                column: 0,
            })
            &&& bottom && !left && !right && !top ==> target == (DropTarget::NewColumn {
                side: DockSide::Bottom,
                column: 0,
            })
        }),
{
}

/// A panel that comes to a new outermost strip is alone in it, and the strips
/// that were there follow in their order.
pub proof fn law_dropped_at_edge(a: Arrangement, kind: PanelKind, side: DockSide)
    ensures
        ({
            let now = a.inserted_new(kind, side, 0).strips(side);
            &&& now.len() > 0
            &&& now[0].panels == seq![kind]
            &&& now.drop_first() == a.without(kind).strips(side)
        }),
{
    let now = a.inserted_new(kind, side, 0).strips(side);
    let cols = a.without(kind).strips(side);
    assert(now.drop_first() =~= cols);
}

/// Whether the `k`th measured strip is the first whose zones a pointer is in.
pub open spec fn over_rail(d: DockLayout, screen: Point, k: int) -> bool {
    let p = d.in_main(screen);
    &&& d.main_outer is Some
    &&& over(d.main_outer->0, screen, 12_000, 12_000)
    &&& (d.content_rect matches Some(content) ==> off_edges(content, p))
    &&& 0 <= k < d.column_rects@.len()
    &&& forall|i: int| 0 <= i < k ==> off_rails(#[trigger] d.column_rects@[i], p)
    &&& !off_rails(d.column_rects@[k], p)
    &&& d.column_rects@[k].1 < usize::MAX
}

/// In the outer zone of a strip a panel comes to a new strip in its place, which
/// moves that strip inwards; in the inner zone only, to a new strip behind it.
pub proof fn law_over_rail(d: DockLayout, screen: Point, skip: Option<u64>, k: int)
    requires
        over_rail(d, screen, k),
    ensures
        ({
            let (side, column, r) = d.column_rects@[k];
            let p = d.in_main(screen);
            let target = d.landing(screen, skip);
            &&& in_outer_zone(side, r, p) ==> target == (DropTarget::NewColumn { side, column })
            &&& !in_outer_zone(side, r, p) ==> target == (DropTarget::NewColumn {
                side,
                column: (column + 1) as usize,
            })
        }),
{
    let p = d.in_main(screen);
    if d.content_rect is Some {
        lemma_off_edges(d.content_rect->0, p);
    }
    let list = d.column_rects@;
    let f = rail_hit(p);
    assert forall|i: int| 0 <= i < k implies f(#[trigger] list[i]) is None by {
        assert(off_rails(list[i], p));
    }
    assert(f(list[k]) is Some);
    lemma_first_hit(list, f, k);
}

/// A panel from another side that is let go in a zone of a strip is alone in a
/// new strip next to it: in the outer zone before it, else behind it.
#[verifier::spinoff_prover]
#[verifier::rlimit(60)]
pub proof fn law_dropped_beside_strip(
    d: DockLayout,
    drag: DragSession,
    screen: Point,
    skip: Option<u64>,
    k: int,
)
    requires
        over_rail(d, screen, k),
        d.column_rects@[k].1 < d@.strips(d.column_rects@[k].0).len(),
        forall|c: int|
            0 <= c < d@.strips(d.column_rects@[k].0).len() ==> (#[trigger] d@.strips(
                d.column_rects@[k].0,
            )[c]).panels.len() > 0 && !d@.strips(d.column_rects@[k].0)[c].panels.contains(
                drag.kind,
            ),
    ensures
        ({
            let (side, column, r) = d.column_rects@[k];
            let c = column as int;
            let there = d@.strips(side);
            let now = d.dropped(drag, d.landing(screen, skip)).strips(side);
            &&& now.len() == there.len() + 1
            &&& in_outer_zone(side, r, d.in_main(screen)) ==> now[c].panels == seq![drag.kind]
                && now[c + 1].panels == there[c].panels
            &&& !in_outer_zone(side, r, d.in_main(screen)) ==> now[c].panels == there[c].panels
                && now[c + 1].panels == seq![drag.kind]
            &&& forall|j: int| 0 <= j < c ==> (#[trigger] now[j]).panels == there[j].panels
            &&& forall|j: int|
                c + 1 < j < now.len() ==> (#[trigger] now[j]).panels == there[j - 1].panels
        }),
{
    let (side, column, r) = d.column_rects@[k];
    law_over_rail(d, screen, skip, k);
    let cols = d@.strips(side);
    lemma_kept(cols, drag.kind, column as int, -1);
    let out = strips_without(cols, drag.kind);
    assert(d@.without(drag.kind).strips(side) == out);
    assert forall|j: int| 0 <= j < out.len() implies (#[trigger] out[j]).panels == cols[j].panels by {}
}

/// Whether the `k`th measured strip is the first that a pointer is over, with
/// no panel under the pointer.
pub open spec fn over_strip(d: DockLayout, screen: Point, k: int) -> bool {
    let p = d.in_main(screen);
    &&& 0 <= k < d.column_rects@.len()
    &&& over(d.column_rects@[k].2, p, 6_000, 6_000)
    &&& forall|i: int| 0 <= i < k ==> !over((#[trigger] d.column_rects@[i]).2, p, 6_000, 6_000)
    &&& forall|i: int|
        0 <= i < d.slot_rects@.len() ==> !over((#[trigger] d.slot_rects@[i]).3, p, 8_000, 4_000)
}

/// A panel from another side that is let go over a strip but over none of its
/// panels comes to the end of the strip.
#[verifier::spinoff_prover]
#[verifier::rlimit(60)]
pub proof fn law_dropped_at_strip_end(
    d: DockLayout,
    drag: DragSession,
    screen: Point,
    skip: Option<u64>,
    k: int,
)
    requires
        off_zones(d, screen),
        over_strip(d, screen, k),
        d.column_rects@[k].1 < d@.strips(d.column_rects@[k].0).len(),
        d@.strips(d.column_rects@[k].0)[d.column_rects@[k].1 as int].panels.len() <= usize::MAX,
        forall|c: int|
            0 <= c < d@.strips(d.column_rects@[k].0).len() ==> (#[trigger] d@.strips(
                d.column_rects@[k].0,
            )[c]).panels.len() > 0 && !d@.strips(d.column_rects@[k].0)[c].panels.contains(
                drag.kind,
            ),
    ensures
        ({
            let (side, column, r) = d.column_rects@[k];
            let there = d@.strips(side);
            let now = d.dropped(drag, d.landing(screen, skip)).strips(side);
            &&& now.len() == there.len()
            &&& now[column as int].panels == there[column as int].panels.push(drag.kind)
            &&& forall|j: int|
                0 <= j < now.len() && j != column ==> (#[trigger] now[j]).panels == there[j].panels
        }),
{
    let p = d.in_main(screen);
    let (side, column, r) = d.column_rects@[k];
    if d.content_rect is Some {
        lemma_off_edges(d.content_rect->0, p);
    }
    lemma_off_rails(d, p);
    let slots = d.slot_rects@;
    let f = slot_hit(p);
    assert forall|i: int| 0 <= i < slots.len() implies f(#[trigger] slots[i]) is None by {
        assert(!over(slots[i].3, p, 8_000, 4_000));
    }
    lemma_first_hit(slots, f, slots.len() as int);
    let list = d.column_rects@;
    let g = strip_hit(d@, p);
    assert forall|i: int| 0 <= i < k implies g(#[trigger] list[i]) is None by {
        assert(!over(list[i].2, p, 6_000, 6_000));
    }
    assert(g(list[k]) is Some);
    lemma_first_hit(list, g, k);
    let cols = d@.strips(side);
    lemma_kept(cols, drag.kind, column as int, -1);
    let out = strips_without(cols, drag.kind);
    assert(d@.without(drag.kind).strips(side) == out);
    assert(out[column as int].panels == cols[column as int].panels);
    let now = d.dropped(drag, d.landing(screen, skip)).strips(side);
    assert(now[column as int].panels =~= cols[column as int].panels.push(drag.kind));
}

/// A place in the main window and the same place on the screen stand for each
/// other, as far as both can be held.
pub proof fn law_screen_and_window(d: DockLayout, p: Point)
    requires
        d.main_inner matches Some(r) ==> -500_000_000 <= r.left <= 500_000_000 && -500_000_000
            <= r.top <= 500_000_000,
        d.main_outer matches Some(r) ==> -500_000_000 <= r.left <= 500_000_000 && -500_000_000
            <= r.top <= 500_000_000,
        -500_000_000 <= p.x <= 500_000_000,
        -500_000_000 <= p.y <= 500_000_000,
    ensures
        d.in_main(d.on_screen(p)) == p,
        d.on_screen(d.in_main(p)) == p,
        d.main_inner is Some && d.main_outer is Some ==> {
            &&& d.on_screen(p).x - d.main_outer->0.left == p.x - d.main_inner->0.left
            &&& d.on_screen(p).y - d.main_outer->0.top == p.y - d.main_inner->0.top
        },
{
}

} // verus!
