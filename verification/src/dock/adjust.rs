//! Resizing splits, following moved windows, and magnetic alignment.
use vstd::math::{abs, max};
use vstd::prelude::*;
use crate::dock::column::{Column, DockColumn, DockSide, PanelKind, UNIT_WEIGHT, clamped};
use crate::dock::geometry::{Point, Rect, near, near_i32};
use crate::dock::host::{Host, columns};
use crate::dock::layout::{Arrangement, DockLayout, find_host, host_place, hosts};

verus! {

/// The least weight that dragging a splitter leaves a panel.
pub const MIN_SPLIT: i32 = 200_000;

impl Column {
    /// Whether there is a splitter after the panel at `index`.
    pub open spec fn splits_at(self, index: int) -> bool {
        0 <= index && index + 1 < self.panels.len()
    }

    /// The strip after the splitter behind panel `index` was dragged by
    /// `delta`: what one neighbour gains, the other loses.
    pub open spec fn split_moved(self, index: int, delta: int) -> Column {
        let c = self.synced();
        if c.splits_at(index) {
            let pair = c.weights[index] + c.weights[index + 1];
            let first = clamped(c.weights[index] + delta, MIN_SPLIT as int, pair - MIN_SPLIT);
            Column {
                weights: c.weights.update(index, first as i32).update(
                    index + 1,
                    (pair - first) as i32,
                ),
                ..c
            }
        } else {
            c
        }
    }

    /// Whether the neighbours of a splitter are large enough to share.
    pub open spec fn splittable(self, index: int) -> bool {
        self.splits_at(index) ==> self.settled()[index] + self.settled()[index + 1] >= 2 * MIN_SPLIT
    }
}

impl DockColumn {
    /// Drags the splitter behind the panel at `index`.
    pub fn move_split(&mut self, index: usize, delta: i32)
        requires
            old(self)@.splittable(index as int),
        ensures
            final(self)@ == old(self)@.split_moved(index as int, delta as int),
    {
        self.sync_weights();
        if index >= self.weights.len() || index + 1 >= self.weights.len() {
            return;
        }
        let a: i32 = self.weights[index];
        let b: i32 = self.weights[index + 1];
        let pair: i32 = a + b;
        let wish: i64 = a as i64 + delta as i64;
        let first: i32 = if wish < MIN_SPLIT as i64 {
            MIN_SPLIT
        } else if wish > (pair - MIN_SPLIT) as i64 {
            pair - MIN_SPLIT
        } else {
            wish as i32
        };
        self.weights.set(index, first);
        self.weights.set(index + 1, pair - first);
    }
}

/// The sum of the weights of a strip.
pub open spec fn total_weight(w: Seq<i32>) -> int
    decreases w.len(),
{
    if w.len() == 0 {
        0
    } else {
        total_weight(w.drop_last()) + w.last()
    }
}

/// The weight that a splitter's drag divides among the panels of a strip; one
/// unit where there is no such strip.
pub open spec fn shared_weight(cols: Seq<Column>, column: int) -> int {
    if 0 <= column < cols.len() {
        max(total_weight(cols[column].weights), 10_000)
    } else {
        UNIT_WEIGHT as int
    }
}

/// Whether a drag by `moved` along a strip of the given length moves a splitter
/// noticeably, by more than a hundred millionths.
pub open spec fn drag_counts(moved: int, length: int, total: int) -> bool {
    length > 1000 && abs(moved * total) > 100 * length
}

/// The weight that a drag by `moved` along a strip of the given length stands
/// for, rounded to whole millionths and cut to what an `i32` holds.
pub open spec fn drag_weight(moved: int, length: int, total: int) -> int {
    let part = (2 * abs(moved * total) + length) / (2 * length);
    clamped(
        if moved < 0 {
            -part
        } else {
            part
        },
        i32::MIN as int,
        i32::MAX as int,
    )
}

/// The sum of the weights of a strip.
fn sum_weights(weights: &Vec<i32>) -> (r: i128)
    ensures
        r == total_weight(weights@),
        -0x8000_0000 * 0x1_0000_0000_0000_0000 <= r <= 0x8000_0000 * 0x1_0000_0000_0000_0000,
{
    let mut sum: i128 = 0;
    let mut i: usize = 0;
    while i < weights.len()
        invariant
            i <= weights.len(),
            sum == total_weight(weights@.take(i as int)),
            -0x8000_0000 * i <= sum <= 0x8000_0000 * i,
        decreases weights.len() - i,
    {
        assert(weights@.take(i + 1).drop_last() =~= weights@.take(i as int));
        sum = sum + weights[i] as i128;
        i += 1;
    }
    assert(weights@.take(i as int) =~= weights@);
    sum
}

/// The weight that a drag along a strip stands for, where it counts.
fn weight_of_drag(moved: i32, length: i32, total: i128) -> (r: Option<i32>)
    requires
        0 < total <= 0x8000_0000 * 0x1_0000_0000_0000_0000,
    ensures
        r is Some <==> drag_counts(moved as int, length as int, total as int),
        r is Some ==> r->0 == drag_weight(moved as int, length as int, total as int),
{
    if length <= 1000 {
        return None;
    }
    let by: i128 = if moved < 0 {
        -(moved as i128)
    } else {
        moved as i128
    };
    assert(by * total <= 0x8000_0000 * (0x8000_0000 * 0x1_0000_0000_0000_0000)) by (nonlinear_arith)
        requires
            0 <= by <= 0x8000_0000,
            0 < total <= 0x8000_0000 * 0x1_0000_0000_0000_0000,
    ;
    assert(0 <= by * total == abs(moved * total)) by (nonlinear_arith)
        requires
            0 < total,
            by == abs(moved as int),
    ;
    let share: i128 = by * total;
    if share <= 100 * length as i128 {
        return None;
    }
    let whole: i128 = share / (length as i128);
    let rest: i128 = share % (length as i128);
    let part: i128 = if 2 * rest >= length as i128 {
        whole + 1
    } else {
        whole
    };
    assert(part == (2 * share + length) / (2 * length as int)) by (nonlinear_arith)
        requires
            share >= 0,
            length > 1000,
            whole == share / (length as i128),
            rest == share % (length as i128),
            part == if 2 * rest >= length {
                whole + 1
            } else {
                whole as int
            },
    ;
    let limit: i128 = 0x8000_0000;
    Some(
        if moved < 0 {
            if part < limit {
                -(part as i32)
            } else {
                i32::MIN
            }
        } else {
            if part < limit {
                part as i32
            } else {
                i32::MAX
            }
        },
    )
}

impl Arrangement {
    /// The layout after a splitter of a docked strip was dragged by a weight.
    pub open spec fn splitter_moved(
        self,
        side: DockSide,
        column: int,
        split_index: int,
        delta: int,
    ) -> Arrangement {
        let cols = self.strips(side);
        if 0 <= column < cols.len() {
            self.with_strips(
                side,
                cols.update(column, cols[column].split_moved(split_index, delta)),
            )
        } else {
            self
        }
    }
}

/// The bar between two panels of a column, dragged by `dragged` this frame if at
/// all: whether that changed the layout.
pub fn panel_splitter(
    dragged: Option<i32>,
    side: DockSide,
    column: usize,
    split_index: usize,
    dock: &mut DockLayout,
    column_height: i32,
) -> (r: bool)
    requires
        ({
            let cols = old(dock)@.strips(side);
            &&& column < cols.len()
            &&& dragged is Some
            &&& drag_counts(
                dragged->0 as int,
                column_height as int,
                shared_weight(cols, column as int),
            )
        }) ==> old(dock)@.strips(side)[column as int].splittable(split_index as int),
    ensures
        ({
            let total = shared_weight(old(dock)@.strips(side), column as int);
            &&& r == (dragged matches Some(moved) && drag_counts(
                moved as int,
                column_height as int,
                total,
            ))
            &&& final(dock)@ == if r {
                old(dock)@.splitter_moved(
                    side,
                    column as int,
                    split_index as int,
                    drag_weight(dragged->0 as int, column_height as int, total),
                )
            } else {
                old(dock)@
            }
        }),
        final(dock).same_tracking(*old(dock)),
{
    let moved: i32 = match dragged {
        Some(moved) => moved,
        None => return false,
    };
    let cols = dock.strips(side);
    let total: i128 = if column < cols.len() {
        let sum: i128 = sum_weights(&cols[column].weights);
        if sum < 10_000 {
            10_000
        } else {
            sum
        }
    } else {
        UNIT_WEIGHT as i128
    };
    match weight_of_drag(moved, column_height, total) {
        Some(delta) => {
            dock.resize_panel_split(side, column, split_index, delta);
            true
        },
        None => false,
    }
}

/// The bar between two panels of a row, dragged by `dragged` this frame if at
/// all: whether that changed the layout.
pub fn panel_splitter_h(
    dragged: Option<i32>,
    side: DockSide,
    column: usize,
    split_index: usize,
    dock: &mut DockLayout,
    row_width: i32,
) -> (r: bool)
    requires
        ({
            let cols = old(dock)@.strips(side);
            &&& column < cols.len()
            &&& dragged is Some
            &&& drag_counts(
                dragged->0 as int,
                row_width as int,
                shared_weight(cols, column as int),
            )
        }) ==> old(dock)@.strips(side)[column as int].splittable(split_index as int),
    ensures
        ({
            let total = shared_weight(old(dock)@.strips(side), column as int);
            &&& r == (dragged matches Some(moved) && drag_counts(
                moved as int,
                row_width as int,
                total,
            ))
            &&& final(dock)@ == if r {
                old(dock)@.splitter_moved(
                    side,
                    column as int,
                    split_index as int,
                    drag_weight(dragged->0 as int, row_width as int, total),
                )
            } else {
                old(dock)@
            }
        }),
        final(dock).same_tracking(*old(dock)),
{
    panel_splitter(dragged, side, column, split_index, dock, row_width)
}

impl DockLayout {
    /// Drags a splitter of a docked strip.
    pub fn resize_panel_split(
        &mut self,
        side: DockSide,
        column: usize,
        split_index: usize,
        delta_weight: i32,
    )
        requires
            column < old(self)@.strips(side).len() ==> old(self)@.strips(
                side,
            )[column as int].splittable(split_index as int),
        ensures
            final(self)@ == old(self)@.splitter_moved(
                side,
                column as int,
                split_index as int,
                delta_weight as int,
            ),
            final(self).same_tracking(*old(self)),
    {
        let cols = self.strips_mut(side);
        let ghost before = columns(cols@);
        if column < cols.len() {
            cols[column].move_split(split_index, delta_weight);
            assert(columns(cols@) =~= before.update(
                column as int,
                before[column as int].split_moved(split_index as int, delta_weight as int),
            ));
        }
    }

    /// Records where a window of the given id is now.
    pub fn update_host_rect(&mut self, host_id: u64, pos: Point, size: Point)
        ensures
            final(self)@ == ({
                let i = host_place(old(self)@.hosts, host_id);
                if i < old(self)@.hosts.len() {
                    old(self)@.host_at(i, pos, size)
                } else {
                    old(self)@
                }
            }),
            final(self).same_tracking(*old(self)),
    {
        match find_host(&self.float_hosts, host_id) {
            Some(i) => {
                self.place_host(i, pos, size);
            },
            None => {},
        }
    }

    fn place_host(&mut self, i: usize, pos: Point, size: Point)
        requires
            i < old(self).float_hosts.len(),
        ensures
            final(self)@ == old(self)@.host_at(i as int, pos, size),
            final(self).same_tracking(*old(self)),
    {
        self.float_hosts[i].pos = pos;
        self.float_hosts[i].size = size;
        assert(self@.hosts =~= old(self)@.host_at(i as int, pos, size).hosts);
    }

    /// Records where the window that shows `kind` is now: the one that shows
    /// nothing else, or else the first that shows it.
    pub fn update_floating_rect(&mut self, kind: PanelKind, pos: Point, size: Point)
        ensures
            final(self)@ == ({
                let list = old(self)@.hosts;
                let alone = sole_place(list, kind);
                let shown = shown_place(list, kind);
                if alone < list.len() {
                    old(self)@.host_at(alone, pos, size)
                } else if shown < list.len() {
                    old(self)@.host_at(shown, pos, size)
                } else {
                    old(self)@
                }
            }),
            final(self).same_tracking(*old(self)),
    {
        let n: usize = self.float_hosts.len();
        let ghost list = self@.hosts;
        let mut i: usize = 0;
        assert(list.skip(0) =~= list);
        while i < n && !(self.float_hosts[i].panels.len() == 1 && self.float_hosts[i].panels[0]
            == kind)
            invariant
                i <= n,
                n == self.float_hosts.len(),
                *self == *old(self),
                list == self@.hosts,
                sole_place(list, kind) == i + sole_place(list.skip(i as int), kind),
            decreases n - i,
        {
            assert(list.skip(i as int).drop_first() =~= list.skip(i + 1));
            i += 1;
        }
        if i < n {
            self.place_host(i, pos, size);
            return;
        }
        let mut k: usize = 0;
        loop
            invariant_except_break
                *self == *old(self),
            invariant
                k <= n,
                n == self.float_hosts.len(),
                n == list.len(),
                *self == *old(self),
                list == self@.hosts,
                sole_place(list, kind) == n,
                shown_place(list, kind) == k + shown_place(list.skip(k as int), kind),
            ensures
                k < n ==> list[k as int].holds(kind),
            decreases n - k,
        {
            if k >= n || self.float_hosts[k].contains(kind) {
                break;
            }
            assert(list.skip(k as int).drop_first() =~= list.skip(k + 1));
            k += 1;
        }
        if k < n {
            self.place_host(k, pos, size);
        }
    }
}

impl Arrangement {
    /// The arrangement with the window at an index placed anew.
    pub open spec fn host_at(self, i: int, pos: Point, size: Point) -> Arrangement {
        Arrangement { hosts: self.hosts.update(i, Host { pos, size, ..self.hosts[i] }), ..self }
    }
}

/// The first window whose only panel is `kind`, or the list's length.
pub open spec fn sole_place(list: Seq<Host>, kind: PanelKind) -> int
    decreases list.len(),
{
    if list.len() == 0 {
        0
    } else if list[0].panels.len() == 1 && list[0].panels[0] == kind {
        0
    } else {
        1 + sole_place(list.drop_first(), kind)
    }
}

/// The first window that shows `kind`, or the list's length.
pub open spec fn shown_place(list: Seq<Host>, kind: PanelKind) -> int
    decreases list.len(),
{
    if list.len() == 0 {
        0
    } else if list[0].holds(kind) {
        0
    } else {
        1 + shown_place(list.drop_first(), kind)
    }
}

/// How near an edge draws a window.
pub const SNAP: i32 = 32_000;

/// Whether two edges are near enough to draw together.
pub open spec fn drawn(a: int, b: int) -> bool {
    -SNAP < a - b < SNAP
}

/// Where a window that starts at `at` and is `len` long aligns with a guide
/// from `lo` to `hi`: the first near pair of edges decides.
pub open spec fn snap_axis(at: int, len: int, lo: int, hi: int) -> int {
    if drawn(at, lo) {
        lo
    } else if drawn(at, hi) {
        hi
    } else if drawn(at + len, lo) {
        lo - len
    } else if drawn(at + len, hi) {
        hi - len
    } else {
        at
    }
}

/// Where a window goes next to one guide.
pub open spec fn snap_to(pos: Point, size: Point, guide: Rect) -> Point {
    Point {
        x: near(snap_axis(pos.x as int, size.x as int, guide.left as int, guide.right as int)),
        y: near(snap_axis(pos.y as int, size.y as int, guide.top as int, guide.bottom as int)),
    }
}

/// Where a window goes next to all guides, taken in order.
pub open spec fn snapped(pos: Point, size: Point, guides: Seq<Rect>) -> Point
    decreases guides.len(),
{
    if guides.len() == 0 {
        pos
    } else {
        snap_to(snapped(pos, size, guides.drop_last()), size, guides.last())
    }
}

fn near_pair(a: i64, b: i64) -> (r: bool)
    requires
        -0x1_0000_0000 <= a <= 0x1_0000_0000,
        -0x1_0000_0000 <= b <= 0x1_0000_0000,
    ensures
        r == drawn(a as int, b as int),
{
    -(SNAP as i64) < a - b && a - b < SNAP as i64
}

fn axis(at: i32, len: i32, lo: i32, hi: i32) -> (r: i32)
    ensures
        r == near(snap_axis(at as int, len as int, lo as int, hi as int)),
{
    let start: i64 = at as i64;
    let end: i64 = at as i64 + len as i64;
    if near_pair(start, lo as i64) {
        lo
    } else if near_pair(start, hi as i64) {
        hi
    } else if near_pair(end, lo as i64) {
        near_i32(lo as i64 - len as i64)
    } else if near_pair(end, hi as i64) {
        near_i32(hi as i64 - len as i64)
    } else {
        at
    }
}

fn snap_one(pos: Point, size: Point, guide: Rect) -> (r: Point)
    ensures
        r == snap_to(pos, size, guide),
{
    Point {
        x: axis(pos.x, size.x, guide.left, guide.right),
        y: axis(pos.y, size.y, guide.top, guide.bottom),
    }
}

/// Aligns a detached window with the work area and then with each guide. It
/// does not join windows.
pub fn snap_host_pos(pos: Point, size: Point, guides: &Vec<Rect>, work: Option<Rect>) -> (r: Point)
    ensures
        r == snapped(
            pos,
            size,
            match work {
                Some(w) => seq![w] + guides@,
                None => guides@,
            },
        ),
{
    let ghost all = match work {
        Some(w) => seq![w] + guides@,
        None => guides@,
    };
    let ghost lead: int = match work {
        Some(w) => 1,
        None => 0,
    };
    let mut p: Point = pos;
    match work {
        Some(w) => {
            p = snap_one(p, size, w);
            assert(all.take(1).drop_last() =~= Seq::empty());
            reveal_with_fuel(snapped, 2);
        },
        None => {
            assert(all.take(0) =~= Seq::empty());
        },
    }
    let n: usize = guides.len();
    let mut i: usize = 0;
    while i < n
        invariant
            i <= n,
            n == guides.len(),
            0 <= lead <= 1,
            all.len() == lead + n,
            forall|j: int| 0 <= j < n ==> #[trigger] guides@[j] == all[lead + j],
            p == snapped(pos, size, all.take(lead + i)),
        decreases n - i,
    {
        p = snap_one(p, size, guides[i]);
        i += 1;
        assert(all.take(lead + i).drop_last() =~= all.take(lead + i - 1));
        assert(all.take(lead + i).last() == guides@[i - 1]);
    }
    assert(all.take(lead + n) =~= all);
    p
}

/// The multiple of `unit` at or below half of `double`.
pub open spec fn cell_start(double: int, unit: int) -> int {
    (double / (2 * unit)) * unit
}

fn cell_start_of(double: i64, unit: i32) -> (r: i64)
    requires
        unit > 0,
        -0x1_0000_0000 <= double <= 0x1_0000_0000,
    ensures
        r == cell_start(double as int, unit as int),
        -0x3_0000_0000 <= r <= 0x3_0000_0000,
{
    let step: i64 = 2 * (unit as i64);
    let q: i64 = if double >= 0 {
        double / step
    } else {
        -((-double + (step - 1)) / step)
    };
    proof {
        let d = double as int;
        let s = step as int;
        if double < 0 {
            assert(d / s == q) by (nonlinear_arith)
                requires
                    s > 0,
                    d < 0,
                    q == -((-d + (s - 1)) / s),
            ;
        }
        assert(q * unit <= 0x3_0000_0000 && q * unit >= -0x3_0000_0000) by (nonlinear_arith)
            requires
                q == d / s,
                s == 2 * unit,
                0 < unit <= 0x7fff_ffff,
                -0x1_0000_0000 <= d <= 0x1_0000_0000,
        ;
    }
    q * (unit as i64)
}

/// The monitor that a window's centre is on, where monitors of one size tile
/// the screen from the origin. None for an unknown or tiny monitor.
pub fn inferred_work_area(outer: Rect, monitor_size: Option<Point>) -> (r: Option<Rect>)
    ensures
        r == (match monitor_size {
            Some(m) => {
                if m.x < 64_000 || m.y < 64_000 {
                    None
                } else {
                    let x = cell_start(outer.left + outer.right, m.x as int);
                    let y = cell_start(outer.top + outer.bottom, m.y as int);
                    Some(
                        Rect {
                            left: near(x),
                            top: near(y),
                            right: near(x + m.x),
                            bottom: near(y + m.y),
                        },
                    )
                }
            },
            None => None,
        }),
{
    match monitor_size {
        Some(m) => {
            if m.x < 64_000 || m.y < 64_000 {
                return None;
            }
            let x: i64 = cell_start_of(outer.left as i64 + outer.right as i64, m.x);
            let y: i64 = cell_start_of(outer.top as i64 + outer.bottom as i64, m.y);
            Some(
                Rect {
                    left: near_i32(x),
                    top: near_i32(y),
                    right: near_i32(x + m.x as i64),
                    bottom: near_i32(y + m.y as i64),
                },
            )
        },
        None => None,
    }
}

} // verus!
