//! Where panels, splitters, windows and previews end up.
use vstd::arithmetic::div_mod::lemma_fundamental_div_mod;
use vstd::prelude::*;
use crate::dock::adjust::{drag_weight, shown_place, snap_axis, snapped, sole_place};
use crate::dock::column::{Column, DockSide, PanelKind, first_place, lemma_first_place};
use crate::dock::float_preview::{column_area, panel_area};
use crate::dock::geometry::{Point, Rect, opposite};
use crate::dock::host::{Host, strips_hold};
use crate::dock::layout::{Arrangement, DockLayout, DropTarget, host_place, strip_extent};
use crate::dock::preview::{edge_part, lowest, slot_area, strip_area};
use crate::dock::restore::{default_arrangement, fit_column, fit_host, fit_row, listed, migrated};

verus! {

/// The names of the panels and of the sides.
pub proof fn law_panel_names()
    ensures
        PanelKind::Color.spec_title() == "Color"@,
        PanelKind::Tools.spec_title() == "Tools"@,
        PanelKind::Brush.spec_title() == "Brush"@,
        PanelKind::Navigator.spec_title() == "Navigator"@,
        PanelKind::Layers.spec_title() == "Layers"@,
        DockSide::Left.spec_label() == "left"@,
        DockSide::Right.spec_label() == "right"@,
        DockSide::Top.spec_label() == "top"@,
        DockSide::Bottom.spec_label() == "bottom"@,
        DockSide::Left.vertical() && DockSide::Right.vertical(),
        !DockSide::Top.vertical() && !DockSide::Bottom.vertical(),
        opposite(DockSide::Left) is Right && opposite(DockSide::Right) is Left,
        opposite(DockSide::Top) is Bottom && opposite(DockSide::Bottom) is Top,
{
}

/// The layout at first: colours, tools and brushes at the left, the navigator
/// and the layers at the right, from top to bottom.
pub proof fn law_first_layout()
    ensures
        ({
            let a = default_arrangement();
            &&& a.left.len() == 1 && a.right.len() == 1 && a.top.len() == 0 && a.bottom.len() == 0
            &&& a.left[0].panels == seq![PanelKind::Color, PanelKind::Tools, PanelKind::Brush]
            &&& a.right[0].panels == seq![PanelKind::Navigator, PanelKind::Layers]
            &&& a.hosts.len() == 0
            &&& a.hidden.len() == 0
        }),
{
}

/// The strips of a side are those of its name, and changing them changes no
/// other side.
pub proof fn law_sides(a: Arrangement, side: DockSide, other: DockSide, cols: Seq<Column>)
    ensures
        a.strips(DockSide::Left) == a.left,
        a.strips(DockSide::Right) == a.right,
        a.strips(DockSide::Top) == a.top,
        a.strips(DockSide::Bottom) == a.bottom,
        a.with_strips(side, cols).strips(side) == cols,
        other != side ==> a.with_strips(side, cols).strips(other) == a.strips(other),
        a.with_strips(side, cols).hosts == a.hosts,
        a.with_strips(side, cols).hidden == a.hidden,
{
}

/// A panel that is shown again comes to the end of the first strip of its home
/// side: the navigator and the layers to the right, the others to the left.
pub proof fn law_home_side(a: Arrangement, kind: PanelKind)
    requires
        !a.shows(kind),
    ensures
        ({
            let b = a.shown(kind);
            let right = kind is Navigator || kind is Layers;
            &&& right ==> b.right.len() > 0 && b.right[0].panels.last() == kind && b.left == a.left
            &&& !right ==> b.left.len() > 0 && b.left[0].panels.last() == kind && b.right == a.right
            &&& right && a.right.len() > 0 ==> b.right[0].panels.drop_last() == a.right[0].panels
                && b.right.drop_first() == a.right.drop_first()
            &&& !right && a.left.len() > 0 ==> b.left[0].panels.drop_last() == a.left[0].panels
                && b.left.drop_first() == a.left.drop_first()
            &&& right && a.right.len() == 0 ==> b.right.len() == 1 && b.right[0].panels
                == seq![kind]
            &&& !right && a.left.len() == 0 ==> b.left.len() == 1 && b.left[0].panels == seq![kind]
            &&& b.top == a.top && b.bottom == a.bottom && b.hosts == a.hosts
        }),
{
    let b = a.shown(kind);
    if kind is Navigator || kind is Layers {
        if a.right.len() > 0 {
            assert(b.right[0].panels.drop_last() =~= a.right[0].panels);
            assert(b.right.drop_first() =~= a.right.drop_first());
        }
    } else if a.left.len() > 0 {
        assert(b.left[0].panels.drop_last() =~= a.left[0].panels);
        assert(b.left.drop_first() =~= a.left.drop_first());
    }
}

/// A panel that is taken out gets a window of its own, where and as large as it
/// is told.
pub proof fn law_window_of_its_own(a: Arrangement, kind: PanelKind, pos: Point, size: Point)
    requires
        0 < a.next_id < u64::MAX,
    ensures
        ({
            let b = a.undocked(kind, pos, size);
            let w = b.hosts.last();
            &&& b.hosts.drop_last() == a.without(kind).hosts
            &&& w.panels == seq![kind]
            &&& w.pos == pos
            &&& w.size == size
            &&& w.id == a.next_id
            &&& b.next_id == a.next_id + 1
            &&& b.left == a.without(kind).left && b.right == a.without(kind).right
        }),
{
    let b = a.undocked(kind, pos, size);
    assert(b.hosts.drop_last() =~= a.without(kind).hosts);
}

/// A strip loses the first place of a panel that leaves it, and gains one that
/// comes in before the panel at its place; its width stays.
pub proof fn law_in_and_out(c: Column, kind: PanelKind, index: int)
    requires
        0 <= index <= c.panels.len(),
        !c.panels.contains(kind),
    ensures
        c.with(kind, index).panels == c.panels.insert(index, kind),
        c.with(kind, index).width == c.width,
        c.with(kind, index).without(kind).panels == c.panels,
        c.with(kind, index).balanced(),
        c.without(kind).panels == c.panels,
{
    lemma_first_place(c.panels, kind);
    let w = c.with(kind, index);
    lemma_first_place(w.panels, kind);
    assert(w.panels[index] == kind);
    let k = first_place(w.panels, kind);
    if k < index {
        assert(w.panels[k] == c.panels[k]);
    }
    assert(k == index);
    assert(w.panels.remove(k) =~= c.panels);
}

/// Dragging a splitter gives one panel what the other loses, by as much as it
/// was dragged while both keep their least share; the other panels stay.
pub proof fn law_splitter(c: Column, index: int, delta: int, k: int)
    requires
        c.balanced(),
        c.settled() == c.weights,
        c.splits_at(index),
        0 <= k < c.weights.len(),
        c.weights[index] + c.weights[index + 1] >= 400_000,
    ensures
        ({
            let r = c.split_moved(index, delta);
            let (a, b) = (c.weights[index], c.weights[index + 1]);
            &&& r.panels == c.panels
            &&& 200_000 <= a + delta && 200_000 <= b - delta ==> r.weights[index] == a + delta
                && r.weights[index + 1] == b - delta
            &&& a + delta < 200_000 ==> r.weights[index] == 200_000
            &&& b - delta < 200_000 ==> r.weights[index + 1] == 200_000
            &&& r.weights[index] + r.weights[index + 1] == a + b
            &&& k != index && k != index + 1 ==> r.weights[k] == c.weights[k]
        }),
{
}

/// What a drag of a splitter weighs is what was moved, as a part of the strip's
/// length, rounded; it has the direction of the drag.
pub proof fn law_drag_weight(moved: int, length: int, total: int)
    requires
        length > 0,
        total >= 0,
        -0x4000_0000 <= drag_weight(moved, length, total) <= 0x4000_0000,
    ensures
        moved >= 0 ==> drag_weight(moved, length, total) >= 0,
        moved < 0 ==> drag_weight(moved, length, total) <= 0,
        -length <= 2 * (drag_weight(moved, length, total) * length - moved * total) <= length,
{
    let m = moved * total;
    let a = if m < 0 {
        -m
    } else {
        m
    };
    assert(moved >= 0 ==> m >= 0) by (nonlinear_arith)
        requires
            m == moved * total,
            total >= 0,
    ;
    assert(moved <= 0 ==> m <= 0) by (nonlinear_arith)
        requires
            m == moved * total,
            total >= 0,
    ;
    let part = (2 * a + length) / (2 * length);
    lemma_fundamental_div_mod(2 * a + length, 2 * length);
    let rest = (2 * a + length) % (2 * length);
    assert(0 <= rest < 2 * length);
    assert(2 * length * part == 2 * (part * length)) by (nonlinear_arith);
    assert(part >= 0) by (nonlinear_arith)
        requires
            2 * (part * length) == 2 * a + length - rest,
            0 <= rest < 2 * length,
            a >= 0,
            length > 0,
    ;
    assert((-part) * length == -(part * length)) by (nonlinear_arith);
}

/// An edge that comes nearer than 32 points to a guide is drawn to it: the first
/// edge to the near guide, else to the far one, else the second edge likewise;
/// otherwise it stays.
pub proof fn law_snap_axis(at: int, len: int, lo: int, hi: int)
    ensures
        ({
            let r = snap_axis(at, len, lo, hi);
            &&& -32_000 < at - lo < 32_000 ==> r == lo
            &&& !(-32_000 < at - lo < 32_000) && -32_000 < at - hi < 32_000 ==> r == hi
            &&& r == at || r == lo || r == hi || r + len == lo || r + len == hi
            &&& -32_000 < r - at < 32_000
            &&& (at - lo >= 32_000 || at - lo <= -32_000) && (at - hi >= 32_000 || at - hi <= -32_000)
                && (at + len - lo >= 32_000 || at + len - lo <= -32_000) && (at + len - hi >= 32_000
                || at + len - hi <= -32_000) ==> r == at
        }),
{
}

/// The window that shows a panel, and the one that shows nothing else.
pub proof fn law_windows_of_a_panel(list: Seq<Host>, kind: PanelKind)
    ensures
        0 <= shown_place(list, kind) <= list.len(),
        shown_place(list, kind) < list.len() ==> list[shown_place(list, kind)].holds(kind),
        shown_place(list, kind) == list.len() ==> forall|i: int|
            0 <= i < list.len() ==> !(#[trigger] list[i]).holds(kind),
        0 <= sole_place(list, kind) <= list.len(),
        sole_place(list, kind) < list.len() ==> list[sole_place(list, kind)].panels == seq![kind],
        sole_place(list, kind) == list.len() ==> forall|i: int|
            0 <= i < list.len() ==> (#[trigger] list[i]).panels != seq![kind],
    decreases list.len(),
{
    if list.len() > 0 {
        let t = list.drop_first();
        law_windows_of_a_panel(t, kind);
        if shown_place(list, kind) == list.len() {
            assert forall|i: int| 0 <= i < list.len() implies !(#[trigger] list[i]).holds(kind) by {
                if i > 0 {
                    assert(t[i - 1] == list[i]);
                }
            }
        }
        if list[0].panels.len() == 1 && list[0].panels[0] == kind {
            assert(list[0].panels =~= seq![kind]);
        }
        if sole_place(list, kind) == list.len() {
            assert forall|i: int| 0 <= i < list.len() implies (#[trigger] list[i]).panels
                != seq![kind] by {
                if i > 0 {
                    assert(t[i - 1] == list[i]);
                } else {
                    assert(seq![kind].len() == 1 && seq![kind][0] == kind);
                }
            }
        }
    }
}

/// The area of a strip, and that of a panel, is the one that was measured for
/// it.
pub proof fn law_measured(
    strips: Seq<(DockSide, usize, Rect)>,
    slots: Seq<(DockSide, usize, usize, Rect)>,
    k: int,
    m: int,
)
    requires
        0 <= k < strips.len(),
        forall|j: int|
            0 <= j < k ==> (#[trigger] strips[j]).0 != strips[k].0 || strips[j].1 != strips[k].1,
        0 <= m < slots.len(),
        forall|j: int|
            0 <= j < m ==> (#[trigger] slots[j]).0 != slots[m].0 || slots[j].1 != slots[m].1
                || slots[j].2 != slots[m].2,
    ensures
        strip_area(strips, strips[k].0, strips[k].1) == Some(strips[k].2),
        slot_area(slots, slots[m].0, slots[m].1, slots[m].2) == Some(slots[m].3),
{
    lemma_strip_area(strips, k);
    lemma_slot_area(slots, m);
}

proof fn lemma_strip_area(strips: Seq<(DockSide, usize, Rect)>, k: int)
    requires
        0 <= k < strips.len(),
        forall|j: int|
            0 <= j < k ==> (#[trigger] strips[j]).0 != strips[k].0 || strips[j].1 != strips[k].1,
    ensures
        strip_area(strips, strips[k].0, strips[k].1) == Some(strips[k].2),
    decreases strips.len(),
{
    if k > 0 {
        let t = strips.drop_first();
        assert(strips[0].0 != strips[k].0 || strips[0].1 != strips[k].1);
        assert forall|j: int| 0 <= j < k - 1 implies (#[trigger] t[j]).0 != t[k - 1].0 || t[j].1
            != t[k - 1].1 by {
            assert(t[j] == strips[j + 1]);
        }
        lemma_strip_area(t, k - 1);
    }
}

proof fn lemma_slot_area(slots: Seq<(DockSide, usize, usize, Rect)>, m: int)
    requires
        0 <= m < slots.len(),
        forall|j: int|
            0 <= j < m ==> (#[trigger] slots[j]).0 != slots[m].0 || slots[j].1 != slots[m].1
                || slots[j].2 != slots[m].2,
    ensures
        slot_area(slots, slots[m].0, slots[m].1, slots[m].2) == Some(slots[m].3),
    decreases slots.len(),
{
    if m > 0 {
        let t = slots.drop_first();
        assert(slots[0].0 != slots[m].0 || slots[0].1 != slots[m].1 || slots[0].2 != slots[m].2);
        assert forall|j: int| 0 <= j < m - 1 implies (#[trigger] t[j]).0 != t[m - 1].0 || t[j].1
            != t[m - 1].1 || t[j].2 != t[m - 1].2 by {
            assert(t[j] == slots[j + 1]);
        }
        lemma_slot_area(t, m - 1);
    }
}

/// Whether a rectangle is of a size that screens have.
pub open spec fn on_a_screen(r: Rect) -> bool {
    &&& -500_000_000 <= r.left <= 500_000_000 && -500_000_000 <= r.top <= 500_000_000
    &&& -500_000_000 <= r.right <= 500_000_000 && -500_000_000 <= r.bottom <= 500_000_000
}

/// The line of a preview is where the panel would come in: at the start of the
/// panel whose place it takes, across the strip.
pub proof fn law_preview_line(
    d: DockLayout,
    side: DockSide,
    column: usize,
    index: usize,
    strip: Rect,
    panel: Rect,
)
    requires
        d.drag is Some,
        d.drop_target == Some(DropTarget::Insert { side, column, index }),
        strip_area(d.column_rects@, side, column) == Some(strip),
        slot_area(d.slot_rects@, side, column, index) == Some(panel),
        on_a_screen(strip),
        on_a_screen(panel),
    ensures
        d.preview() is Some,
        d.preview()->0 is Line,
        d.preview()->0->strip == strip,
        side is Left || side is Right ==> {
            let line = d.preview()->0->line;
            &&& line.top == panel.top - 3_000 && line.bottom == panel.top + 3_000
            &&& line.left == strip.left + 6_000 && line.right == strip.right - 6_000
        },
        side is Top || side is Bottom ==> {
            let line = d.preview()->0->line;
            &&& line.left == panel.left - 3_000 && line.right == panel.left + 3_000
            &&& line.top == strip.top + 6_000 && line.bottom == strip.bottom - 6_000
        },
{
}

/// A part along an edge touches that edge, is as deep as it is told, and as long
/// as the edge.
pub proof fn law_edge_part(r: Rect, depth: int)
    requires
        on_a_screen(r),
        0 <= depth <= 1_000_000,
    ensures
        edge_part(r, DockSide::Left, depth) == (Rect { right: (r.left + depth) as i32, ..r }),
        edge_part(r, DockSide::Right, depth) == (Rect { left: (r.right - depth) as i32, ..r }),
        edge_part(r, DockSide::Top, depth) == (Rect { bottom: (r.top + depth) as i32, ..r }),
        edge_part(r, DockSide::Bottom, depth) == (Rect { top: (r.bottom - depth) as i32, ..r }),
{
}

/// A column keeps its width within the bounds of what it holds: tools alone can
/// be narrow, colours need more.
pub proof fn law_widths(c: Column)
    ensures
        ({
            let r = fit_column(c);
            let tools = c.panels == seq![PanelKind::Tools];
            let colours = c.panels.contains(PanelKind::Color);
            let lo = if tools {
                52_000int
            } else if colours {
                200_000
            } else {
                160_000
            };
            let hi = if tools {
                280_000int
            } else {
                480_000
            };
            &&& r.panels == c.panels
            &&& lo <= r.width <= hi
            &&& lo <= c.width <= hi ==> r.width == c.width
            &&& c.width < lo ==> r.width == lo
            &&& c.width > hi ==> r.width == hi
        }),
{
    if c.panels.len() == 1 && c.panels[0] == PanelKind::Tools {
        assert(c.panels =~= seq![PanelKind::Tools]);
    }
    if c.panels == seq![PanelKind::Tools] {
        assert(c.panels.len() == 1 && c.panels[0] == PanelKind::Tools);
    }
}

/// A row keeps its height within its bounds.
pub proof fn law_heights(c: Column)
    ensures
        ({
            let r = fit_row(c);
            let tools = c.panels == seq![PanelKind::Tools];
            let lo = if tools {
                56_000int
            } else {
                88_000
            };
            let hi = if tools {
                320_000int
            } else {
                360_000
            };
            &&& r.panels == c.panels
            &&& lo <= r.width <= hi
            &&& lo <= c.width <= hi ==> r.width == c.width
            &&& c.width < lo ==> r.width == lo
            &&& c.width > hi ==> r.width == hi
        }),
{
    if c.panels.len() == 1 && c.panels[0] == PanelKind::Tools {
        assert(c.panels =~= seq![PanelKind::Tools]);
    }
    if c.panels == seq![PanelKind::Tools] {
        assert(c.panels.len() == 1 && c.panels[0] == PanelKind::Tools);
    }
}

/// A window keeps its size within its bounds.
pub proof fn law_window_sizes(h: Host)
    ensures
        ({
            let r = fit_host(h);
            &&& 52_000 <= r.size.x <= 1_600_000 && 80_000 <= r.size.y <= 1_600_000
            &&& 52_000 <= h.size.x <= 1_600_000 ==> r.size.x == h.size.x
            &&& 80_000 <= h.size.y <= 1_600_000 ==> r.size.y == h.size.y
            &&& h.size.x < 52_000 ==> r.size.x == 52_000
            &&& h.size.y < 80_000 ==> r.size.y == 80_000
            &&& r.pos == h.pos && r.id == h.id
        }),
{
}

/// A window that is docked leaves its columns before the strip at its place, in
/// their order, and is gone; the other windows stay.
pub proof fn law_docked_window(a: Arrangement, k: int, side: DockSide, column: int, j: int)
    requires
        0 <= k < a.hosts.len(),
        forall|i: int| 0 <= i < k ==> (#[trigger] a.hosts[i]).id != a.hosts[k].id,
        a.hosts[k].columns.len() > 0,
        0 <= column <= a.strips(side).len(),
    ensures
        ({
            let b = a.host_docked(a.hosts[k].id, side, column);
            let n = a.hosts[k].columns.len() as int;
            &&& b.hosts == a.hosts.remove(k)
            &&& b.strips(side).len() == a.strips(side).len() + n
            &&& 0 <= j < n ==> b.strips(side)[column + j] == a.hosts[k].columns[j]
            &&& 0 <= j < column ==> b.strips(side)[j] == a.strips(side)[j]
            &&& column <= j < a.strips(side).len() ==> b.strips(side)[j + n] == a.strips(side)[j]
        }),
{
    lemma_host_place(a.hosts, k);
}

proof fn lemma_host_place(list: Seq<Host>, k: int)
    requires
        0 <= k < list.len(),
        forall|i: int| 0 <= i < k ==> (#[trigger] list[i]).id != list[k].id,
    ensures
        host_place(list, list[k].id) == k,
    decreases list.len(),
{
    if k > 0 {
        let t = list.drop_first();
        assert(list[0].id != list[k].id);
        assert forall|i: int| 0 <= i < k - 1 implies (#[trigger] t[i]).id != t[k - 1].id by {
            assert(t[i] == list[i + 1]);
        }
        lemma_host_place(t, k - 1);
    }
}

/// A strip that moves to another side stands there at its new place, whole, and
/// is gone from the old one; the other strips keep their order.
pub proof fn law_moved_strip(
    a: Arrangement,
    side: DockSide,
    column: int,
    to_side: DockSide,
    to: int,
    j: int,
)
    requires
        0 <= column < a.strips(side).len(),
        side != to_side,
        0 <= to <= a.strips(to_side).len(),
    ensures
        ({
            let b = a.column_moved(side, column, to_side, to);
            let (from, dest) = (a.strips(side), a.strips(to_side));
            &&& b.strips(to_side).len() == dest.len() + 1
            &&& b.strips(to_side)[to] == from[column]
            &&& 0 <= j < to ==> b.strips(to_side)[j] == dest[j]
            &&& to <= j < dest.len() ==> b.strips(to_side)[j + 1] == dest[j]
            &&& b.strips(side) == from.remove(column)
            &&& b.hosts == a.hosts
        }),
{
}

/// A panel that older layouts stored as floating alone becomes a window where it
/// was, unless a window shows it already.
pub proof fn law_migrated(a: Arrangement)
    requires
        a.floating.len() == 1,
        0 < a.next_id < u64::MAX,
    ensures
        ({
            let f = a.floating[0];
            let (list, next) = migrated(a, 1);
            &&& listed(a.hosts, f.kind) ==> list == a.hosts && next == a.next_id
            &&& !listed(a.hosts, f.kind) ==> list.len() == a.hosts.len() + 1 && list.last().panels
                == seq![f.kind] && list.last().pos == f.pos && list.last().size == f.size
                && list.last().id == a.next_id && next == a.next_id + 1
        }),
{
    reveal_with_fuel(migrated, 2);
}

/// A drag of a splitter in a strip moves that splitter alone.
pub proof fn law_splitter_moved(a: Arrangement, side: DockSide, column: int, index: int, delta: int, j: int)
    requires
        0 <= column < a.strips(side).len(),
        0 <= j < a.strips(side).len(),
    ensures
        ({
            let b = a.splitter_moved(side, column, index, delta);
            &&& b.strips(side).len() == a.strips(side).len()
            &&& b.strips(side)[column] == a.strips(side)[column].split_moved(index, delta)
            &&& j != column ==> b.strips(side)[j] == a.strips(side)[j]
            &&& b.hosts == a.hosts
        }),
{
}

/// A window without guides near it stays where it is, and one near a single
/// guide is drawn to it in each direction for itself.
pub proof fn law_snapped(pos: Point, size: Point, guide: Rect)
    requires
        on_a_screen(guide),
        -500_000_000 <= pos.x <= 500_000_000,
        -500_000_000 <= pos.y <= 500_000_000,
        0 <= size.x <= 2_000_000,
        0 <= size.y <= 2_000_000,
    ensures
        snapped(pos, size, Seq::empty()) == pos,
        ({
            let r = snapped(pos, size, seq![guide]);
            &&& -32_000 < pos.x - guide.left < 32_000 ==> r.x == guide.left
            &&& -32_000 < pos.y - guide.top < 32_000 ==> r.y == guide.top
            &&& -32_000 < r.x - pos.x < 32_000
            &&& -32_000 < r.y - pos.y < 32_000
        }),
{
    reveal_with_fuel(snapped, 2);
    assert(seq![guide].drop_last() =~= Seq::<Rect>::empty());
    assert(snapped(pos, size, seq![guide].drop_last()) == pos);
}

/// New strips are as wide, or as high, as their side asks for.
pub proof fn law_new_strips(side: DockSide)
    ensures
        strip_extent(DockSide::Left) == 260_000 && strip_extent(DockSide::Right) == 260_000,
        strip_extent(DockSide::Top) == 140_000 && strip_extent(DockSide::Bottom) == 140_000,
{
}

proof fn lemma_shown_none(list: Seq<Column>, kind: PanelKind)
    ensures
        strips_hold(list, kind) == exists|i: int|
            0 <= i < list.len() && #[trigger] list[i].panels.contains(kind),
{
}

/// A panel is shown where a strip or a window holds it.
pub proof fn law_shows(a: Arrangement, kind: PanelKind, side: DockSide, i: int, h: int)
    ensures
        0 <= i < a.strips(side).len() && a.strips(side)[i].panels.contains(kind) ==> a.shows(kind),
        0 <= h < a.hosts.len() && a.hosts[h].panels.contains(kind) ==> a.shows(kind),
{
    lemma_shown_none(a.strips(side), kind);
    if 0 <= i < a.strips(side).len() && a.strips(side)[i].panels.contains(kind) {
        assert(strips_hold(a.strips(side), kind));
    }
    if 0 <= h < a.hosts.len() && a.hosts[h].panels.contains(kind) {
        assert(a.hosts[h].holds(kind));
    }
}

/// In a window the line of a preview is at the top of the panel whose place the
/// dragged one takes, and the rail at the left of the column that it comes
/// before; other windows show nothing.
pub proof fn law_float_preview(
    d: DockLayout,
    host: u64,
    cols: Seq<(usize, Rect)>,
    slots: Seq<(usize, usize, Rect)>,
    column: usize,
    index: usize,
    area: Rect,
    panel: Rect,
)
    requires
        column_area(cols, column) == Some(area),
        panel_area(slots, column, index) == Some(panel),
        on_a_screen(area),
        on_a_screen(panel),
    ensures
        d.drop_target == Some(DropTarget::JoinInsert { host_id: host, column, index }) ==> {
            let v = d.float_preview(host, cols, slots);
            &&& v is Some && v->0 is Line
            &&& v->0->line.top == panel.top - 3_000 && v->0->line.bottom == panel.top + 3_000
            &&& v->0->line.left == area.left + 6_000 && v->0->line.right == area.right - 6_000
        },
        d.drop_target == Some(DropTarget::JoinNewColumn { host_id: host, column }) ==> {
            let v = d.float_preview(host, cols, slots);
            &&& v is Some && v->0 is Rail
            &&& v->0->Rail_area.left == area.left && v->0->Rail_area.top == area.top
            &&& v->0->Rail_area.bottom == area.bottom
            &&& area.left + 14_000 <= v->0->Rail_area.right <= area.left + 40_000
        },
        (d.drop_target matches Some(DropTarget::JoinInsert { host_id, .. }) ==> host_id != host
            ==> d.float_preview(host, cols, slots) is None),
        d.drop_target is None ==> d.float_preview(host, cols, slots) is None,
{
}

/// The lowest edge of a strip's panels is below none of theirs and is that of one
/// of them.
pub proof fn law_lowest(list: Seq<(DockSide, usize, usize, Rect)>, side: DockSide, column: usize)
    ensures
        (lowest(list, side, column) is None) == (forall|i: int|
            0 <= i < list.len() ==> (#[trigger] list[i]).0 != side || list[i].1 != column),
        forall|i: int|
            0 <= i < list.len() && (#[trigger] list[i]).0 == side && list[i].1 == column ==> lowest(
                list,
                side,
                column,
            ) is Some && list[i].3.bottom <= lowest(list, side, column)->0,
        lowest(list, side, column) is Some ==> exists|i: int|
            0 <= i < list.len() && (#[trigger] list[i]).0 == side && list[i].1 == column
                && list[i].3.bottom == lowest(list, side, column)->0,
    decreases list.len(),
{
    if list.len() > 0 {
        let t = list.drop_last();
        law_lowest(t, side, column);
        let n = list.len() - 1;
        let e = list[n];
        let r = lowest(list, side, column);
        assert forall|i: int|
            0 <= i < list.len() && (#[trigger] list[i]).0 == side && list[i].1 == column implies r is Some
            && list[i].3.bottom <= r->0 by {
            if i < n {
                assert(t[i] == list[i]);
            }
        }
        if r is Some {
            if e.0 == side && e.1 == column && r->0 == e.3.bottom {
                assert(list[n].3.bottom == r->0);
            } else {
                let i = choose|i: int|
                    0 <= i < t.len() && (#[trigger] t[i]).0 == side && t[i].1 == column
                        && t[i].3.bottom == lowest(t, side, column)->0;
                assert(t[i] == list[i]);
            }
        } else {
            assert forall|i: int| 0 <= i < list.len() implies (#[trigger] list[i]).0 != side
                || list[i].1 != column by {
                if i < n {
                    assert(t[i] == list[i]);
                }
            }
        }
    }
}

} // verus!
